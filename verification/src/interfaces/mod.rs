//! Plain-data counterparts of the ROS 2 interface packages that actions build on.

pub mod builtin_interfaces;
pub mod unique_identifier_msgs;
