//! The board's serial protocol: frame format, CRC and payload types.

pub mod crc;
pub mod error;
pub mod text;
pub mod wire;
pub mod frame;
pub mod power;
pub mod event;
pub mod log;
pub mod config;
pub mod battery_state;
pub mod system;
pub mod servo;
pub mod imu;
pub mod thermal;
