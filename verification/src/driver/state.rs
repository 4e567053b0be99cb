//! The driver's state record, updated by the read loop and read by the
//! user interface.

use vstd::prelude::*;
use crate::driver::error::DriverError;
use crate::protocol::battery_state::BatteryState;
use crate::protocol::config::BoardConfigSnapshot;
use crate::protocol::event::BoardEvent;
use crate::protocol::imu::ImuData;
use crate::protocol::power::PowerData;
use crate::protocol::system::SystemInfo;
use crate::protocol::thermal::ThermalData;

verus! {

/// Latest data of each kind, connection status and frame counters.
pub struct StateInner {
    pub imu: Option<ImuData>,
    pub power: Option<PowerData>,
    pub thermal: Option<ThermalData>,
    pub battery: Option<BatteryState>,
    pub config: Option<BoardConfigSnapshot>,
    pub event: Option<BoardEvent>,
    pub system: Option<SystemInfo>,
    pub last_error: Option<DriverError>,
    pub connected: bool,
    /// Data frames stored.
    pub frame_count: u64,
    /// Frames decoded successfully.
    pub frames_parsed: u64,
    /// Frames that failed to decode.
    pub frames_dropped: u64,
}

/// A copy of the state record, taken at once.
#[derive(Debug, Clone)]
pub struct StateSnapshot {
    pub imu: Option<ImuData>,
    pub power: Option<PowerData>,
    pub thermal: Option<ThermalData>,
    pub battery: Option<BatteryState>,
    pub config: Option<BoardConfigSnapshot>,
    pub event: Option<BoardEvent>,
    pub system: Option<SystemInfo>,
    pub connected: bool,
    pub frame_count: u64,
    pub frames_parsed: u64,
    pub frames_dropped: u64,
}

impl StateInner {
    /// No data, disconnected, all counters zero.
    pub fn new() -> (s: StateInner)
        ensures
            s.imu is None,
            s.power is None,
            s.thermal is None,
            s.battery is None,
            s.config is None,
            s.event is None,
            s.system is None,
            s.last_error is None,
            !s.connected,
            s.frame_count == 0,
            s.frames_parsed == 0,
            s.frames_dropped == 0,
    {
        StateInner {
            imu: None,
            power: None,
            thermal: None,
            battery: None,
            config: None,
            event: None,
            system: None,
            last_error: None,
            connected: false,
            frame_count: 0,
            frames_parsed: 0,
            frames_dropped: 0,
        }
    }

    /// Counts a frame decoded successfully.
    pub fn increment_frames_parsed(&mut self)
        requires
            old(self).frames_parsed < u64::MAX,
        ensures
            *final(self) == (StateInner { frames_parsed: (old(self).frames_parsed + 1) as u64, ..*old(self) }),
    {
        self.frames_parsed = self.frames_parsed + 1;
    }

    /// Counts a frame that failed to decode.
    pub fn increment_frames_dropped(&mut self)
        requires
            old(self).frames_dropped < u64::MAX,
        ensures
            *final(self) == (StateInner { frames_dropped: (old(self).frames_dropped + 1) as u64, ..*old(self) }),
    {
        self.frames_dropped = self.frames_dropped + 1;
    }

    /// Stores an IMU sample.
    pub fn update_imu(&mut self, data: ImuData)
        requires
            old(self).frame_count < u64::MAX,
        ensures
            *final(self) == (StateInner { imu: Some(data), frame_count: (old(self).frame_count + 1) as u64, ..*old(self) }),
    {
        self.imu = Some(data);
        self.frame_count = self.frame_count + 1;
    }

    /// Stores power measurements.
    pub fn update_power(&mut self, data: PowerData)
        requires
            old(self).frame_count < u64::MAX,
        ensures
            *final(self) == (StateInner { power: Some(data), frame_count: (old(self).frame_count + 1) as u64, ..*old(self) }),
    {
        self.power = Some(data);
        self.frame_count = self.frame_count + 1;
    }

    /// Stores temperatures.
    pub fn update_thermal(&mut self, data: ThermalData)
        requires
            old(self).frame_count < u64::MAX,
        ensures
            *final(self) == (StateInner { thermal: Some(data), frame_count: (old(self).frame_count + 1) as u64, ..*old(self) }),
    {
        self.thermal = Some(data);
        self.frame_count = self.frame_count + 1;
    }

    /// Stores the battery state.
    pub fn update_battery(&mut self, state: BatteryState)
        requires
            old(self).frame_count < u64::MAX,
        ensures
            *final(self) == (StateInner { battery: Some(state), frame_count: (old(self).frame_count + 1) as u64, ..*old(self) }),
    {
        self.battery = Some(state);
        self.frame_count = self.frame_count + 1;
    }

    /// Stores the configuration snapshot.
    pub fn update_config(&mut self, config: BoardConfigSnapshot)
        requires
            old(self).frame_count < u64::MAX,
        ensures
            *final(self) == (StateInner { config: Some(config), frame_count: (old(self).frame_count + 1) as u64, ..*old(self) }),
    {
        self.config = Some(config);
        self.frame_count = self.frame_count + 1;
    }

    /// Stores the board event record.
    pub fn update_event(&mut self, event: BoardEvent)
        requires
            old(self).frame_count < u64::MAX,
        ensures
            *final(self) == (StateInner { event: Some(event), frame_count: (old(self).frame_count + 1) as u64, ..*old(self) }),
    {
        self.event = Some(event);
        self.frame_count = self.frame_count + 1;
    }

    /// Stores the system information.
    pub fn update_system(&mut self, info: SystemInfo)
        requires
            old(self).frame_count < u64::MAX,
        ensures
            *final(self) == (StateInner { system: Some(info), frame_count: (old(self).frame_count + 1) as u64, ..*old(self) }),
    {
        self.system = Some(info);
        self.frame_count = self.frame_count + 1;
    }

    /// Records the connection status.
    pub fn set_connected(&mut self, connected: bool)
        ensures
            *final(self) == (StateInner { connected, ..*old(self) }),
    {
        self.connected = connected;
    }

    /// Records the last error.
    pub fn set_error(&mut self, error: DriverError)
        ensures
            *final(self) == (StateInner { last_error: Some(error), ..*old(self) }),
    {
        self.last_error = Some(error);
    }

    /// A copy of the data, the connection status and the counters.
    pub fn snapshot(&self) -> (s: StateSnapshot)
        ensures
            s.imu == self.imu,
            s.power == self.power,
            s.thermal == self.thermal,
            match (s.battery, self.battery) {
                (Some(a), Some(b)) => a.spec_same(&b),
                (None, None) => true,
                _ => false,
            },
            s.config == self.config,
            s.event == self.event,
            s.system == self.system,
            s.connected == self.connected,
            s.frame_count == self.frame_count,
            s.frames_parsed == self.frames_parsed,
            s.frames_dropped == self.frames_dropped,
    {
        let battery = match &self.battery {
            Some(b) => Some(b.clone()),
            None => None,
        };
        StateSnapshot {
            imu: self.imu,
            power: self.power,
            thermal: self.thermal,
            battery,
            config: self.config,
            event: self.event,
            system: self.system,
            connected: self.connected,
            frame_count: self.frame_count,
            frames_parsed: self.frames_parsed,
            frames_dropped: self.frames_dropped,
        }
    }
}

} // verus!
