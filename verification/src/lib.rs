//! A typed, ownership-safe binding layer for a landmark-inference graph
//! runtime: fixed-topology landmark containers, a validated detector
//! configuration, a caller-side image adapter, and detector facades that
//! drive an injected inference graph.

pub mod config;
pub mod face_mesh;
pub mod graph;
pub mod hands;
pub mod image;
pub mod landmark;
pub mod pose;

pub use landmark::FaceMesh;
pub use landmark::Hand;
pub use landmark::Landmark;
pub use landmark::Pose;
