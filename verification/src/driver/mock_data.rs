//! Simulated board data with integer fields: system information and board
//! events. The generators of sensor readings, which compute in floating
//! point, live with the application.

use vstd::prelude::*;
use std::time::{Duration, Instant};
use crate::protocol::event::{BoardEvent, ChargePhase, ErrorFlags, ProtectionFlags, StateChangeFlags};
use crate::protocol::system::{SystemInfo, Version};

verus! {

#[verifier::external_type_specification]
#[verifier::external_body]
pub struct ExInstant(std::time::Instant);

/// Calls `std::time::Instant::now`. The instant depends on the clock:
/// nothing is stated of it.
#[verifier::external_body]
fn instant_now() -> Instant {
    Instant::now()
}

/// Calls `std::time::Instant::elapsed`. The duration depends on the clock:
/// nothing is stated of it.
#[verifier::external_body]
fn instant_elapsed(start: &Instant) -> Duration {
    start.elapsed()
}

/// Calls `std::time::Duration::as_secs`, the whole seconds of `d`. A
/// `Duration` is opaque here, so nothing is stated of the result.
#[verifier::external_body]
fn duration_as_secs(d: &Duration) -> u64 {
    d.as_secs()
}

/// Calls `rand::random_range(0..bound)`: a number drawn at random below
/// `bound`. It rests on chance; only that it is below `bound` is stated.
#[verifier::external_body]
fn random_u8_below(bound: u8) -> (r: u8)
    requires
        bound > 0,
    ensures
        r < bound,
{
    rand::random_range(0..bound)
}

/// Calls `rand::random_range(0..bound)`: a number drawn at random below
/// `bound`. It rests on chance; only that it is below `bound` is stated.
#[verifier::external_body]
fn random_u16_below(bound: u16) -> (r: u16)
    requires
        bound > 0,
    ensures
        r < bound,
{
    rand::random_range(0..bound)
}

/// Simulated system information.
pub struct SystemSimulator {
    pub start_time: Instant,
    /// System frames generated so far.
    pub frame_count: u32,
    pub charging: bool,
}

/// The system information generated as frame number `frame_count`, after
/// `uptime_secs` seconds, with the given random parts: CPU usage 35 plus
/// `cpu_jitter`, free heap 120 plus `heap_jitter`, stack watermark 8 plus
/// `stack_jitter`; a USB-PD contract of 20 V / 5 A while charging.
pub open spec fn spec_system_info(
    frame_count: u32,
    charging: bool,
    uptime_secs: u64,
    cpu_jitter: u8,
    heap_jitter: u16,
    stack_jitter: u16,
) -> SystemInfo {
    SystemInfo {
        device_id: 0x4832,
        uid: 0x12345678,
        imu_id: 0x70,
        uptime_s: uptime_secs as u32,
        cpu_usage_percent: (35 + cpu_jitter) as u8,
        free_heap_kb: (120 + heap_jitter) as u16,
        stack_watermark_min_kb: (8 + stack_jitter) as u16,
        i2c_error_count: 0,
        spi_error_count: 0,
        uart_error_count: 0,
        usb_error_count: 0,
        frames_sent_total: frame_count,
        pd_request_voltage_mv: if charging { 20000 } else { 0 },
        pd_request_current_ma: if charging { 5000 } else { 0 },
        firmware_version: Version { major: 0, minor: 1, patch: 0 },
        temp_servo_power: 0,
        temp_5v_power: 0,
        temp_mcu: 0,
        temp_charge: 0,
        temp_battery: 0,
    }
}

impl SystemSimulator {
    /// Starts the clock now; no frame generated, not charging.
    pub fn new() -> (s: SystemSimulator)
        ensures
            s.frame_count == 0,
            !s.charging,
    {
        SystemSimulator { start_time: instant_now(), frame_count: 0, charging: false }
    }

    /// Counts one more frame and builds its system information from the
    /// uptime in seconds and the random parts given (see `spec_system_info`);
    /// the uptime is truncated to 32 bits.
    pub fn generate_with(
        &mut self,
        uptime_secs: u64,
        cpu_jitter: u8,
        heap_jitter: u16,
        stack_jitter: u16,
    ) -> (info: SystemInfo)
        requires
            old(self).frame_count < u32::MAX,
            cpu_jitter < 15,
            heap_jitter < 30,
            stack_jitter < 4,
        ensures
            final(self).frame_count == old(self).frame_count + 1,
            final(self).charging == old(self).charging,
            final(self).start_time == old(self).start_time,
            info == spec_system_info(
                final(self).frame_count,
                old(self).charging,
                uptime_secs,
                cpu_jitter,
                heap_jitter,
                stack_jitter,
            ),
    {
        self.frame_count = self.frame_count + 1;
        let (pd_voltage, pd_current): (u16, u16) = if self.charging {
            (20000, 5000)
        } else {
            (0, 0)
        };
        SystemInfo {
            device_id: 0x4832,
            uid: 0x12345678,
            imu_id: 0x70,
            uptime_s: uptime_secs as u32,
            cpu_usage_percent: 35 + cpu_jitter,
            free_heap_kb: 120 + heap_jitter,
            stack_watermark_min_kb: 8 + stack_jitter,
            i2c_error_count: 0,
            spi_error_count: 0,
            uart_error_count: 0,
            usb_error_count: 0,
            frames_sent_total: self.frame_count,
            pd_request_voltage_mv: pd_voltage,
            pd_request_current_ma: pd_current,
            firmware_version: Version::new(0, 1, 0),
            temp_servo_power: 0,
            temp_5v_power: 0,
            temp_mcu: 0,
            temp_charge: 0,
            temp_battery: 0,
        }
    }

    /// Counts one more frame and builds its system information with the
    /// uptime read from the clock and random resource figures: CPU usage in
    /// 35..50, free heap in 120..150, stack watermark in 8..12.
    pub fn generate(&mut self) -> (info: SystemInfo)
        requires
            old(self).frame_count < u32::MAX,
        ensures
            final(self).frame_count == old(self).frame_count + 1,
            final(self).charging == old(self).charging,
            final(self).start_time == old(self).start_time,
            exists|uptime: u64, cpu: u8, heap: u16, stack: u16|
                cpu < 15 && heap < 30 && stack < 4 && info == spec_system_info(
                    final(self).frame_count,
                    old(self).charging,
                    uptime,
                    cpu,
                    heap,
                    stack,
                ),
    {
        let elapsed = instant_elapsed(&self.start_time);
        let uptime = duration_as_secs(&elapsed);
        let cpu = random_u8_below(15);
        let heap = random_u16_below(30);
        let stack = random_u16_below(4);
        self.generate_with(uptime, cpu, heap, stack)
    }
}

/// Simulated board events.
pub struct EventSimulator {
    pub charging: bool,
    /// Events generated so far.
    pub event_count: u32,
}

/// The charge phase of event number `n`: while charging, a cycle of 100
/// events in constant current (0 to 30), constant voltage (31 to 60), full
/// (61 to 90) and not charging (91 to 99); otherwise not charging.
pub open spec fn spec_sim_phase(charging: bool, n: u32) -> ChargePhase {
    if charging {
        let m = n % 100;
        if m <= 30 {
            ChargePhase::Cc
        } else if m <= 60 {
            ChargePhase::Cv
        } else if m <= 90 {
            ChargePhase::Full
        } else {
            ChargePhase::NotCharging
        }
    } else {
        ChargePhase::NotCharging
    }
}

/// The fields of event number `n`: servo overcurrent on every 500th event;
/// a UART1 error on every 800th, else an I2C1 error on every 1200th; the
/// charger flag while charging and the fan flag in the first half of each
/// cycle of 100.
pub open spec fn spec_sim_event(charging: bool, n: u32) -> (ChargePhase, u16, u16, u16) {
    (
        spec_sim_phase(charging, n),
        (if charging { StateChangeFlags::CHARGER_CONNECTED } else { 0u16 }) | (if n % 100 < 50 {
            StateChangeFlags::FAN_ENABLED
        } else {
            0u16
        }),
        if n % 500 == 0 { ProtectionFlags::SERVO_OVERCURRENT } else { 0u16 },
        if n % 800 == 0 {
            ErrorFlags::UART1_ERROR
        } else if n % 1200 == 0 {
            ErrorFlags::I2C1_ERROR
        } else {
            0u16
        },
    )
}

impl EventSimulator {
    /// Not charging, no event generated.
    pub fn new() -> (s: EventSimulator)
        ensures
            !s.charging,
            s.event_count == 0,
    {
        EventSimulator { charging: false, event_count: 0 }
    }

    /// Counts one more event and builds it (see `spec_sim_event`).
    pub fn generate(&mut self) -> (e: BoardEvent)
        requires
            old(self).event_count < u32::MAX,
        ensures
            final(self).event_count == old(self).event_count + 1,
            final(self).charging == old(self).charging,
            e.spec_fields() == spec_sim_event(old(self).charging, final(self).event_count),
    {
        self.event_count = self.event_count + 1;
        let n = self.event_count;
        let charge_phase = if self.charging {
            let m = n % 100;
            if m <= 30 {
                ChargePhase::Cc
            } else if m <= 60 {
                ChargePhase::Cv
            } else if m <= 90 {
                ChargePhase::Full
            } else {
                ChargePhase::NotCharging
            }
        } else {
            ChargePhase::NotCharging
        };
        let protection_flags = if n % 500 == 0 {
            ProtectionFlags::from_bits_retain(ProtectionFlags::SERVO_OVERCURRENT)
        } else {
            ProtectionFlags::empty()
        };
        let error_flags = if n % 800 == 0 {
            ErrorFlags::from_bits_retain(ErrorFlags::UART1_ERROR)
        } else if n % 1200 == 0 {
            ErrorFlags::from_bits_retain(ErrorFlags::I2C1_ERROR)
        } else {
            ErrorFlags::empty()
        };
        let mut state_change_flags = StateChangeFlags::empty();
        if self.charging {
            state_change_flags.insert(StateChangeFlags::from_bits_retain(StateChangeFlags::CHARGER_CONNECTED));
        }
        if n % 100 < 50 {
            state_change_flags.insert(StateChangeFlags::from_bits_retain(StateChangeFlags::FAN_ENABLED));
        }
        proof {
            let c: u16 = StateChangeFlags::CHARGER_CONNECTED;
            let f: u16 = StateChangeFlags::FAN_ENABLED;
            assert(0u16 | c == c && c | 0u16 == c && 0u16 | f == f && 0u16 | 0u16 == 0u16)
                by (bit_vector);
        }
        BoardEvent { charge_phase, state_change_flags, protection_flags, error_flags }
    }
}

} // verus!
