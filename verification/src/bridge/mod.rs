//! Decisions of the ROS 2 bridge node: which configuration item a service
//! request names, the text of a refused request, and the time stamp of a
//! forwarded board log message.

pub mod services;
