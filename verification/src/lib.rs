//! The action layer of a ROS 2 client: goals, their life cycle on the server,
//! cancellation, and the matching of replies to requests.

pub mod action;
pub mod dds;
pub mod interfaces;
pub mod log;
pub mod message;
pub mod prelude;
pub mod service;
