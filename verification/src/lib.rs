//! Protocol and driver logic for an STM32 power/servo management board that
//! talks to a host over UART.

pub mod protocol;
pub mod bridge;
pub mod driver;
