//! State and decisions of a camera snapshot service: resolving camera
//! addresses, caching the latest frame of each camera, driving the capture
//! loop, and answering snapshot requests.

pub mod address;
pub mod frame;
pub mod config;
pub mod server_config;
pub mod camera;
pub mod registry;
pub mod service;
pub mod laws;
