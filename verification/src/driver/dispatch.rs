//! Events passed from the read loop to the callbacks.

use vstd::prelude::*;
use crate::driver::error::DriverError;
use crate::protocol::battery_state::BatteryState;
use crate::protocol::config::{BoardConfigSnapshot, Config};
use crate::protocol::event::BoardEvent;
use crate::protocol::imu::ImuData;
use crate::protocol::log::LogMessage;
use crate::protocol::power::PowerData;
use crate::protocol::system::SystemInfo;
use crate::protocol::thermal::ThermalData;

verus! {

/// Event produced from a received frame.
#[derive(Debug, Clone)]
pub enum DriverEvent {
    // Uplink data
    ImuData(ImuData),
    PowerData(PowerData),
    ThermalData(ThermalData),
    BatteryState(BatteryState),
    ConfigSnapshot(BoardConfigSnapshot),
    BoardEvent(BoardEvent),
    SystemInfo(SystemInfo),
    /// Board log message with the host's Unix time in milliseconds.
    Log(u64, LogMessage),
    // Responses
    AckCfgWrite { success: bool },
    AckCfgQuery(Config),
    AckCfgQueryAll(BoardConfigSnapshot),
    // Errors
    Error(DriverError),
}

impl DriverEvent {
    pub open spec fn spec_is_ack(&self) -> bool {
        match self {
            DriverEvent::AckCfgQuery(_) | DriverEvent::AckCfgQueryAll(_)
            | DriverEvent::AckCfgWrite { .. } => true,
            _ => false,
        }
    }

    /// Whether the event answers a request; such events also go to the
    /// channel on which synchronous requests wait.
    pub fn is_ack(&self) -> (b: bool)
        ensures
            b == self.spec_is_ack(),
    {
        match self {
            DriverEvent::AckCfgQuery(_) | DriverEvent::AckCfgQueryAll(_)
            | DriverEvent::AckCfgWrite { .. } => true,
            _ => false,
        }
    }
}

/// The time of day in UTC of a Unix time `ts` in milliseconds: hours,
/// minutes, seconds and milliseconds.
pub open spec fn spec_clock(ts: u64) -> (u64, u64, u64, u64) {
    let secs = ts / 1000;
    (((secs % 86400) / 3600) as u64, ((secs % 3600) / 60) as u64, (secs % 60) as u64, (ts % 1000) as u64)
}

/// Splits a Unix time in milliseconds into the time of day shown with a
/// board log message (see `spec_clock`).
pub fn log_clock(ts: u64) -> (c: (u64, u64, u64, u64))
    ensures
        c == spec_clock(ts),
        c.0 < 24,
        c.1 < 60,
        c.2 < 60,
        c.3 < 1000,
{
    let total_s = ts / 1000;
    let ms = ts % 1000;
    let h = (total_s % 86400) / 3600;
    let m = (total_s % 3600) / 60;
    let s = total_s % 60;
    assert((total_s % 86400) / 3600 < 24) by (nonlinear_arith);
    assert((total_s % 3600) / 60 < 60) by (nonlinear_arith);
    (h, m, s, ms)
}

} // verus!
