//! Board events: charge phase, state changes, protections and errors.
//!
//! Payload layout (7 bytes): `[0]` charge phase, `[1..3]` state-change flags,
//! `[3..5]` protection flags, `[5..7]` error flags, each flag word
//! little-endian.

use vstd::prelude::*;
use crate::protocol::error::FrameError;
use crate::protocol::text::{append_decimal, append_hex, spec_decimal, spec_hex};
use crate::protocol::frame::{FromPayload, ToPayload};
use crate::protocol::wire::{push_u16, read_u16, u16_at, u16_le};

verus! {

/// Board state bits whose change of value is reported as an event.
#[derive(Debug, Clone, Copy, PartialEq, Eq, Structural)]
pub struct StateChangeFlags {
    bits: u16,
}

impl View for StateChangeFlags {
    type V = u16;

    closed spec fn view(&self) -> u16 {
        self.bits
    }
}

impl StateChangeFlags {
    pub const CHARGER_CONNECTED: u16 = 1 << 0;
    pub const FAN_ENABLED: u16 = 1 << 1;
    pub const SERVO_POWER_ON: u16 = 1 << 2;
    pub const POWER_5V_ON: u16 = 1 << 3;
    pub const BAT_EXT_OUT_ON: u16 = 1 << 4;

    /// The union of all defined flags.
    pub open spec fn spec_all_bits() -> u16 {
        0x001Fu16
    }

    /// No flag set.
    pub fn empty() -> (f: StateChangeFlags)
        ensures
            f@ == 0,
    {
        StateChangeFlags { bits: 0 }
    }

    /// All defined flags set.
    pub fn all() -> (f: StateChangeFlags)
        ensures
            f@ == StateChangeFlags::spec_all_bits(),
    {
        StateChangeFlags { bits: 0x001F }
    }

    /// The raw bits.
    pub fn bits(&self) -> (b: u16)
        ensures
            b == self@,
    {
        self.bits
    }

    /// The flags for `bits`, or `None` when `bits` holds an undefined flag.
    pub fn from_bits(bits: u16) -> (f: Option<StateChangeFlags>)
        ensures
            match f {
                Some(f) => bits & !StateChangeFlags::spec_all_bits() == 0 && f@ == bits,
                None => bits & !StateChangeFlags::spec_all_bits() != 0,
            },
    {
        if bits & !0x001Fu16 == 0 {
            Some(StateChangeFlags { bits })
        } else {
            None
        }
    }

    /// The flags for `bits`, keeping undefined flags as they are.
    pub fn from_bits_retain(bits: u16) -> (f: StateChangeFlags)
        ensures
            f@ == bits,
    {
        StateChangeFlags { bits }
    }

    /// Whether no flag is set.
    pub fn is_empty(&self) -> (b: bool)
        ensures
            b == (self@ == 0),
    {
        self.bits == 0
    }

    /// Whether every flag of `other` is set in `self`.
    pub fn contains(&self, other: StateChangeFlags) -> (b: bool)
        ensures
            b == (self@ & other@ == other@),
    {
        self.bits & other.bits == other.bits
    }

    /// The flags set in `self` or in `other`.
    pub fn union(self, other: StateChangeFlags) -> (f: StateChangeFlags)
        ensures
            f@ == self@ | other@,
    {
        StateChangeFlags { bits: self.bits | other.bits }
    }

    /// Sets the flags of `other` in `self`.
    pub fn insert(&mut self, other: StateChangeFlags)
        ensures
            final(self)@ == old(self)@ | other@,
    {
        self.bits = self.bits | other.bits;
    }
}

/// Protection conditions; a newly raised one is reported as an event.
#[derive(Debug, Clone, Copy, PartialEq, Eq, Structural)]
pub struct ProtectionFlags {
    bits: u16,
}

impl View for ProtectionFlags {
    type V = u16;

    closed spec fn view(&self) -> u16 {
        self.bits
    }
}

impl ProtectionFlags {
    pub const SERVO_OVERCURRENT: u16 = 1 << 0;
    pub const SERVO_THERMAL: u16 = 1 << 1;
    pub const DCDC_5V_THERMAL: u16 = 1 << 2;
    pub const CHARGE_DERATING: u16 = 1 << 3;
    pub const CHARGE_THERMAL: u16 = 1 << 4;
    pub const BATTERY_LOW: u16 = 1 << 5;

    /// The union of all defined flags.
    pub open spec fn spec_all_bits() -> u16 {
        0x003Fu16
    }

    /// No flag set.
    pub fn empty() -> (f: ProtectionFlags)
        ensures
            f@ == 0,
    {
        ProtectionFlags { bits: 0 }
    }

    /// All defined flags set.
    pub fn all() -> (f: ProtectionFlags)
        ensures
            f@ == ProtectionFlags::spec_all_bits(),
    {
        ProtectionFlags { bits: 0x003F }
    }

    /// The raw bits.
    pub fn bits(&self) -> (b: u16)
        ensures
            b == self@,
    {
        self.bits
    }

    /// The flags for `bits`, or `None` when `bits` holds an undefined flag.
    pub fn from_bits(bits: u16) -> (f: Option<ProtectionFlags>)
        ensures
            match f {
                Some(f) => bits & !ProtectionFlags::spec_all_bits() == 0 && f@ == bits,
                None => bits & !ProtectionFlags::spec_all_bits() != 0,
            },
    {
        if bits & !0x003Fu16 == 0 {
            Some(ProtectionFlags { bits })
        } else {
            None
        }
    }

    /// The flags for `bits`, keeping undefined flags as they are.
    pub fn from_bits_retain(bits: u16) -> (f: ProtectionFlags)
        ensures
            f@ == bits,
    {
        ProtectionFlags { bits }
    }

    /// Whether no flag is set.
    pub fn is_empty(&self) -> (b: bool)
        ensures
            b == (self@ == 0),
    {
        self.bits == 0
    }

    /// Whether every flag of `other` is set in `self`.
    pub fn contains(&self, other: ProtectionFlags) -> (b: bool)
        ensures
            b == (self@ & other@ == other@),
    {
        self.bits & other.bits == other.bits
    }

    /// The flags set in `self` or in `other`.
    pub fn union(self, other: ProtectionFlags) -> (f: ProtectionFlags)
        ensures
            f@ == self@ | other@,
    {
        ProtectionFlags { bits: self.bits | other.bits }
    }

    /// Sets the flags of `other` in `self`.
    pub fn insert(&mut self, other: ProtectionFlags)
        ensures
            final(self)@ == old(self)@ | other@,
    {
        self.bits = self.bits | other.bits;
    }
}

/// Peripheral error conditions; a newly raised one is reported as an event.
#[derive(Debug, Clone, Copy, PartialEq, Eq, Structural)]
pub struct ErrorFlags {
    bits: u16,
}

impl View for ErrorFlags {
    type V = u16;

    closed spec fn view(&self) -> u16 {
        self.bits
    }
}

impl ErrorFlags {
    pub const UNKNOWN_ERROR: u16 = 1 << 0;
    pub const UART1_ERROR: u16 = 1 << 1;
    pub const UART2_ERROR: u16 = 1 << 2;
    pub const I2C1_ERROR: u16 = 1 << 3;
    pub const I2C3_ERROR: u16 = 1 << 4;
    pub const SPI1_ERROR: u16 = 1 << 5;
    pub const USB_ERROR: u16 = 1 << 6;
    pub const DMA_ERROR: u16 = 1 << 7;

    /// The union of all defined flags.
    pub open spec fn spec_all_bits() -> u16 {
        0x00FFu16
    }

    /// No flag set.
    pub fn empty() -> (f: ErrorFlags)
        ensures
            f@ == 0,
    {
        ErrorFlags { bits: 0 }
    }

    /// All defined flags set.
    pub fn all() -> (f: ErrorFlags)
        ensures
            f@ == ErrorFlags::spec_all_bits(),
    {
        ErrorFlags { bits: 0x00FF }
    }

    /// The raw bits.
    pub fn bits(&self) -> (b: u16)
        ensures
            b == self@,
    {
        self.bits
    }

    /// The flags for `bits`, or `None` when `bits` holds an undefined flag.
    pub fn from_bits(bits: u16) -> (f: Option<ErrorFlags>)
        ensures
            match f {
                Some(f) => bits & !ErrorFlags::spec_all_bits() == 0 && f@ == bits,
                None => bits & !ErrorFlags::spec_all_bits() != 0,
            },
    {
        if bits & !0x00FFu16 == 0 {
            Some(ErrorFlags { bits })
        } else {
            None
        }
    }

    /// The flags for `bits`, keeping undefined flags as they are.
    pub fn from_bits_retain(bits: u16) -> (f: ErrorFlags)
        ensures
            f@ == bits,
    {
        ErrorFlags { bits }
    }

    /// Whether no flag is set.
    pub fn is_empty(&self) -> (b: bool)
        ensures
            b == (self@ == 0),
    {
        self.bits == 0
    }

    /// Whether every flag of `other` is set in `self`.
    pub fn contains(&self, other: ErrorFlags) -> (b: bool)
        ensures
            b == (self@ & other@ == other@),
    {
        self.bits & other.bits == other.bits
    }

    /// The flags set in `self` or in `other`.
    pub fn union(self, other: ErrorFlags) -> (f: ErrorFlags)
        ensures
            f@ == self@ | other@,
    {
        ErrorFlags { bits: self.bits | other.bits }
    }

    /// Sets the flags of `other` in `self`.
    pub fn insert(&mut self, other: ErrorFlags)
        ensures
            final(self)@ == old(self)@ | other@,
    {
        self.bits = self.bits | other.bits;
    }
}

/// Charging phase reported by the board.
#[derive(Debug, Clone, Copy, PartialEq, Eq, Structural)]
pub enum ChargePhase {
    NotCharging,
    PreCharge,
    Cc,
    Cv,
    Full,
    PdSinkFault,
    UnsupportedCharger,
}

impl ChargePhase {
    /// The phase that the board's byte `v` denotes: byte `k + 1` denotes the
    /// phase numbered `k`, and any other byte denotes `NotCharging`.
    pub open spec fn spec_from_u8(v: u8) -> ChargePhase {
        if v == 1 {
            ChargePhase::NotCharging
        } else if v == 2 {
            ChargePhase::PreCharge
        } else if v == 3 {
            ChargePhase::Cc
        } else if v == 4 {
            ChargePhase::Cv
        } else if v == 5 {
            ChargePhase::Full
        } else if v == 6 {
            ChargePhase::PdSinkFault
        } else if v == 7 {
            ChargePhase::UnsupportedCharger
        } else {
            ChargePhase::NotCharging
        }
    }

    /// The number of a phase, as written by `to_bytes`.
    pub open spec fn spec_as_u8(self) -> u8 {
        match self {
            ChargePhase::NotCharging => 0,
            ChargePhase::PreCharge => 1,
            ChargePhase::Cc => 2,
            ChargePhase::Cv => 3,
            ChargePhase::Full => 4,
            ChargePhase::PdSinkFault => 5,
            ChargePhase::UnsupportedCharger => 6,
        }
    }

    /// Decodes the board's charge phase byte.
    pub fn from_u8(v: u8) -> (p: ChargePhase)
        ensures
            p == ChargePhase::spec_from_u8(v),
    {
        match v {
            1 => ChargePhase::NotCharging,
            2 => ChargePhase::PreCharge,
            3 => ChargePhase::Cc,
            4 => ChargePhase::Cv,
            5 => ChargePhase::Full,
            6 => ChargePhase::PdSinkFault,
            7 => ChargePhase::UnsupportedCharger,
            _ => ChargePhase::NotCharging,
        }
    }

    /// The number of this phase.
    pub fn as_u8(&self) -> (v: u8)
        ensures
            v == self.spec_as_u8(),
    {
        match self {
            ChargePhase::NotCharging => 0,
            ChargePhase::PreCharge => 1,
            ChargePhase::Cc => 2,
            ChargePhase::Cv => 3,
            ChargePhase::Full => 4,
            ChargePhase::PdSinkFault => 5,
            ChargePhase::UnsupportedCharger => 6,
        }
    }
}

/// Event category, used to pick how an event is shown.
#[derive(Debug, Clone, Copy, PartialEq, Eq, Structural)]
pub enum EventCategory {
    Charge,
    StateChange,
    Protection,
    Error,
}

/// Kind of a board event.
#[derive(Debug, Clone, Copy, PartialEq, Eq, Structural)]
pub enum EventKind {
    NotCharging,
    PreCharge,
    CcCharge,
    CvCharge,
    FullCharge,
    PdSinkFault,
    UnsupportedCharger,
    ServoOvercurrent,
    PowerServoThermal,
    Power5vThermal,
    ChargeDerating,
    ChargeThermal,
    BatteryLow,
    UnknownError,
    Uart1Error,
    Uart2Error,
    I2c1Error,
    I2c3Error,
    Spi1Error,
    UsbError,
    DmaError,
    ChargerConnected,
    ChargerDisconnected,
    FanOn,
    FanOff,
    PowerServoOn,
    PowerServoOff,
    Power5vOn,
    Power5vOff,
    BatExtOutOn,
    BatExtOutOff,
}

/// A recorded event with its timestamp.
#[derive(Debug, Clone)]
pub struct EventLog {
    pub ts: u64,
    pub kind: EventKind,
}

impl EventKind {
    pub open spec fn spec_from_phase(phase: ChargePhase) -> EventKind {
        match phase {
            ChargePhase::NotCharging => EventKind::NotCharging,
            ChargePhase::PreCharge => EventKind::PreCharge,
            ChargePhase::Cc => EventKind::CcCharge,
            ChargePhase::Cv => EventKind::CvCharge,
            ChargePhase::Full => EventKind::FullCharge,
            ChargePhase::PdSinkFault => EventKind::PdSinkFault,
            ChargePhase::UnsupportedCharger => EventKind::UnsupportedCharger,
        }
    }

    pub open spec fn spec_category(self) -> EventCategory {
        match self {
            EventKind::NotCharging => EventCategory::Charge,
            EventKind::PreCharge => EventCategory::Charge,
            EventKind::CcCharge => EventCategory::Charge,
            EventKind::CvCharge => EventCategory::Charge,
            EventKind::FullCharge => EventCategory::Charge,
            EventKind::PdSinkFault => EventCategory::Charge,
            EventKind::UnsupportedCharger => EventCategory::Charge,
            EventKind::ServoOvercurrent => EventCategory::Protection,
            EventKind::PowerServoThermal => EventCategory::Protection,
            EventKind::Power5vThermal => EventCategory::Protection,
            EventKind::ChargeDerating => EventCategory::Protection,
            EventKind::ChargeThermal => EventCategory::Protection,
            EventKind::BatteryLow => EventCategory::Protection,
            EventKind::UnknownError => EventCategory::Error,
            EventKind::Uart1Error => EventCategory::Error,
            EventKind::Uart2Error => EventCategory::Error,
            EventKind::I2c1Error => EventCategory::Error,
            EventKind::I2c3Error => EventCategory::Error,
            EventKind::Spi1Error => EventCategory::Error,
            EventKind::UsbError => EventCategory::Error,
            EventKind::DmaError => EventCategory::Error,
            EventKind::ChargerConnected => EventCategory::StateChange,
            EventKind::ChargerDisconnected => EventCategory::StateChange,
            EventKind::FanOn => EventCategory::StateChange,
            EventKind::FanOff => EventCategory::StateChange,
            EventKind::PowerServoOn => EventCategory::StateChange,
            EventKind::PowerServoOff => EventCategory::StateChange,
            EventKind::Power5vOn => EventCategory::StateChange,
            EventKind::Power5vOff => EventCategory::StateChange,
            EventKind::BatExtOutOn => EventCategory::StateChange,
            EventKind::BatExtOutOff => EventCategory::StateChange,
        }
    }

    pub open spec fn spec_name(self) -> Seq<char> {
        match self {
            EventKind::NotCharging => "NOT_CHARGING"@,
            EventKind::PreCharge => "PRE_CHARGE"@,
            EventKind::CcCharge => "CC_CHARGE"@,
            EventKind::CvCharge => "CV_CHARGE"@,
            EventKind::FullCharge => "FULL_CHARGE"@,
            EventKind::PdSinkFault => "PD_SINK_FAULT"@,
            EventKind::UnsupportedCharger => "UNSUPPORTED_CHARGER"@,
            EventKind::ServoOvercurrent => "SERVO_OVERCURRENT"@,
            EventKind::PowerServoThermal => "POWER_SERVO_THERMAL"@,
            EventKind::Power5vThermal => "POWER_5V_THERMAL"@,
            EventKind::ChargeDerating => "CHARGE_DERATING"@,
            EventKind::ChargeThermal => "CHARGE_THERMAL"@,
            EventKind::BatteryLow => "BATTERY_LOW"@,
            EventKind::UnknownError => "UNKNOWN_ERROR"@,
            EventKind::Uart1Error => "UART1_ERROR"@,
            EventKind::Uart2Error => "UART2_ERROR"@,
            EventKind::I2c1Error => "I2C1_ERROR"@,
            EventKind::I2c3Error => "I2C3_ERROR"@,
            EventKind::Spi1Error => "SPI1_ERROR"@,
            EventKind::UsbError => "USB_ERROR"@,
            EventKind::DmaError => "DMA_ERROR"@,
            EventKind::ChargerConnected => "CHARGER_CONNECTED"@,
            EventKind::ChargerDisconnected => "CHARGER_DISCONNECTED"@,
            EventKind::FanOn => "FAN_ON"@,
            EventKind::FanOff => "FAN_OFF"@,
            EventKind::PowerServoOn => "POWER_SERVO_ON"@,
            EventKind::PowerServoOff => "POWER_SERVO_OFF"@,
            EventKind::Power5vOn => "POWER_5V_ON"@,
            EventKind::Power5vOff => "POWER_5V_OFF"@,
            EventKind::BatExtOutOn => "BAT_EXT_OUT_ON"@,
            EventKind::BatExtOutOff => "BAT_EXT_OUT_OFF"@,
        }
    }

    /// The category of this event.
    pub fn category(&self) -> (c: EventCategory)
        ensures
            c == self.spec_category(),
    {
        match self {
            EventKind::NotCharging | EventKind::PreCharge | EventKind::CcCharge
            | EventKind::CvCharge | EventKind::FullCharge | EventKind::PdSinkFault
            | EventKind::UnsupportedCharger => EventCategory::Charge,
            EventKind::ServoOvercurrent | EventKind::PowerServoThermal
            | EventKind::Power5vThermal | EventKind::ChargeThermal | EventKind::ChargeDerating
            | EventKind::BatteryLow => EventCategory::Protection,
            EventKind::UnknownError | EventKind::Uart1Error | EventKind::Uart2Error
            | EventKind::I2c1Error | EventKind::I2c3Error | EventKind::Spi1Error
            | EventKind::UsbError | EventKind::DmaError => EventCategory::Error,
            EventKind::ChargerConnected | EventKind::ChargerDisconnected | EventKind::FanOn
            | EventKind::FanOff | EventKind::PowerServoOn | EventKind::PowerServoOff
            | EventKind::Power5vOn | EventKind::Power5vOff | EventKind::BatExtOutOn
            | EventKind::BatExtOutOff => EventCategory::StateChange,
        }
    }

    /// The event's display name.
    pub fn name(&self) -> (s: &'static str)
        ensures
            s@ == self.spec_name(),
    {
        match self {
            EventKind::NotCharging => "NOT_CHARGING",
            EventKind::PreCharge => "PRE_CHARGE",
            EventKind::CcCharge => "CC_CHARGE",
            EventKind::CvCharge => "CV_CHARGE",
            EventKind::FullCharge => "FULL_CHARGE",
            EventKind::PdSinkFault => "PD_SINK_FAULT",
            EventKind::UnsupportedCharger => "UNSUPPORTED_CHARGER",
            EventKind::ServoOvercurrent => "SERVO_OVERCURRENT",
            EventKind::PowerServoThermal => "POWER_SERVO_THERMAL",
            EventKind::Power5vThermal => "POWER_5V_THERMAL",
            EventKind::ChargeDerating => "CHARGE_DERATING",
            EventKind::ChargeThermal => "CHARGE_THERMAL",
            EventKind::BatteryLow => "BATTERY_LOW",
            EventKind::UnknownError => "UNKNOWN_ERROR",
            EventKind::Uart1Error => "UART1_ERROR",
            EventKind::Uart2Error => "UART2_ERROR",
            EventKind::I2c1Error => "I2C1_ERROR",
            EventKind::I2c3Error => "I2C3_ERROR",
            EventKind::Spi1Error => "SPI1_ERROR",
            EventKind::UsbError => "USB_ERROR",
            EventKind::DmaError => "DMA_ERROR",
            EventKind::ChargerConnected => "CHARGER_CONNECTED",
            EventKind::ChargerDisconnected => "CHARGER_DISCONNECTED",
            EventKind::FanOn => "FAN_ON",
            EventKind::FanOff => "FAN_OFF",
            EventKind::PowerServoOn => "POWER_SERVO_ON",
            EventKind::PowerServoOff => "POWER_SERVO_OFF",
            EventKind::Power5vOn => "POWER_5V_ON",
            EventKind::Power5vOff => "POWER_5V_OFF",
            EventKind::BatExtOutOn => "BAT_EXT_OUT_ON",
            EventKind::BatExtOutOff => "BAT_EXT_OUT_OFF",
        }
    }

    /// The event's display name as an owned string.
    pub fn to_string(&self) -> (s: String)
        ensures
            s@ == self.spec_name(),
    {
        self.name().to_owned()
    }
}

impl From<ChargePhase> for EventKind {
    fn from(phase: ChargePhase) -> (k: EventKind) {
        match phase {
            ChargePhase::NotCharging => EventKind::NotCharging,
            ChargePhase::PreCharge => EventKind::PreCharge,
            ChargePhase::Cc => EventKind::CcCharge,
            ChargePhase::Cv => EventKind::CvCharge,
            ChargePhase::Full => EventKind::FullCharge,
            ChargePhase::PdSinkFault => EventKind::PdSinkFault,
            ChargePhase::UnsupportedCharger => EventKind::UnsupportedCharger,
        }
    }
}

impl vstd::std_specs::convert::FromSpecImpl<ChargePhase> for EventKind {
    open spec fn obeys_from_spec() -> bool {
        true
    }

    open spec fn from_spec(phase: ChargePhase) -> EventKind {
        EventKind::spec_from_phase(phase)
    }
}

/// Entry `i` of the state-change table: a flag bit, the event for the bit
/// turning on, and the event for it turning off.
pub open spec fn state_change_mapping(i: int) -> (u16, EventKind, EventKind) {
    if i == 0 {
        (1u16, EventKind::ChargerConnected, EventKind::ChargerDisconnected)
    } else if i == 1 {
        (2u16, EventKind::FanOn, EventKind::FanOff)
    } else if i == 2 {
        (4u16, EventKind::PowerServoOn, EventKind::PowerServoOff)
    } else if i == 3 {
        (8u16, EventKind::Power5vOn, EventKind::Power5vOff)
    } else if i == 4 {
        (16u16, EventKind::BatExtOutOn, EventKind::BatExtOutOff)
    } else {
        (0u16, EventKind::NotCharging, EventKind::NotCharging)
    }
}

/// Entry `i` of the protection table: a flag bit and its event.
pub open spec fn protection_mapping(i: int) -> (u16, EventKind) {
    if i == 0 {
        (1u16, EventKind::ServoOvercurrent)
    } else if i == 1 {
        (2u16, EventKind::PowerServoThermal)
    } else if i == 2 {
        (4u16, EventKind::Power5vThermal)
    } else if i == 3 {
        (8u16, EventKind::ChargeDerating)
    } else if i == 4 {
        (16u16, EventKind::ChargeThermal)
    } else if i == 5 {
        (32u16, EventKind::BatteryLow)
    } else {
        (0u16, EventKind::NotCharging)
    }
}

/// Entry `i` of the error table: a flag bit and its event.
pub open spec fn error_mapping(i: int) -> (u16, EventKind) {
    if i == 0 {
        (1u16, EventKind::UnknownError)
    } else if i == 1 {
        (2u16, EventKind::Uart1Error)
    } else if i == 2 {
        (4u16, EventKind::Uart2Error)
    } else if i == 3 {
        (8u16, EventKind::I2c1Error)
    } else if i == 4 {
        (16u16, EventKind::I2c3Error)
    } else if i == 5 {
        (32u16, EventKind::Spi1Error)
    } else if i == 6 {
        (64u16, EventKind::UsbError)
    } else if i == 7 {
        (128u16, EventKind::DmaError)
    } else {
        (0u16, EventKind::NotCharging)
    }
}

/// Number of entries in the state-change, protection and error tables.
pub const STATE_CHANGE_COUNT: usize = 5;
pub const PROTECTION_COUNT: usize = 6;
pub const ERROR_COUNT: usize = 8;

/// Events of the first `n` state-change entries whose bit differs between
/// `cur` and `prev`, in table order, each the on or off event per `cur`.
pub open spec fn state_change_events_upto(cur: u16, prev: u16, n: nat) -> Seq<EventKind>
    decreases n,
{
    if n == 0 {
        seq![]
    } else {
        let rest = state_change_events_upto(cur, prev, (n - 1) as nat);
        let m = state_change_mapping(n - 1);
        if (cur ^ prev) & m.0 != 0 {
            rest.push(if cur & m.0 != 0 { m.1 } else { m.2 })
        } else {
            rest
        }
    }
}

/// Events of the first `n` protection entries whose bit is set in `new`.
pub open spec fn protection_events_upto(new: u16, n: nat) -> Seq<EventKind>
    decreases n,
{
    if n == 0 {
        seq![]
    } else {
        let rest = protection_events_upto(new, (n - 1) as nat);
        let m = protection_mapping(n - 1);
        if new & m.0 != 0 {
            rest.push(m.1)
        } else {
            rest
        }
    }
}

/// Events of the first `n` error entries whose bit is set in `new`.
pub open spec fn error_events_upto(new: u16, n: nat) -> Seq<EventKind>
    decreases n,
{
    if n == 0 {
        seq![]
    } else {
        let rest = error_events_upto(new, (n - 1) as nat);
        let m = error_mapping(n - 1);
        if new & m.0 != 0 {
            rest.push(m.1)
        } else {
            rest
        }
    }
}

/// State-change events between the flag words `prev` and `cur`.
pub open spec fn spec_state_change_events(cur: u16, prev: u16) -> Seq<EventKind> {
    state_change_events_upto(cur, prev, 5)
}

/// Protection events raised in `cur` that were not raised in `prev`.
pub open spec fn spec_new_protection_events(cur: u16, prev: u16) -> Seq<EventKind> {
    protection_events_upto(cur & !prev, 6)
}

/// Error events raised in `cur` that were not raised in `prev`.
pub open spec fn spec_new_error_events(cur: u16, prev: u16) -> Seq<EventKind> {
    error_events_upto(cur & !prev, 8)
}

fn state_change_mapping_at(i: usize) -> (m: (u16, EventKind, EventKind))
    requires
        i < 5,
    ensures
        m == state_change_mapping(i as int),
{
    match i {
        0 => (1, EventKind::ChargerConnected, EventKind::ChargerDisconnected),
        1 => (2, EventKind::FanOn, EventKind::FanOff),
        2 => (4, EventKind::PowerServoOn, EventKind::PowerServoOff),
        3 => (8, EventKind::Power5vOn, EventKind::Power5vOff),
        4 => (16, EventKind::BatExtOutOn, EventKind::BatExtOutOff),
        _ => (16, EventKind::BatExtOutOn, EventKind::BatExtOutOff),
    }
}

fn protection_mapping_at(i: usize) -> (m: (u16, EventKind))
    requires
        i < 6,
    ensures
        m == protection_mapping(i as int),
{
    match i {
        0 => (1, EventKind::ServoOvercurrent),
        1 => (2, EventKind::PowerServoThermal),
        2 => (4, EventKind::Power5vThermal),
        3 => (8, EventKind::ChargeDerating),
        4 => (16, EventKind::ChargeThermal),
        5 => (32, EventKind::BatteryLow),
        _ => (32, EventKind::BatteryLow),
    }
}

fn error_mapping_at(i: usize) -> (m: (u16, EventKind))
    requires
        i < 8,
    ensures
        m == error_mapping(i as int),
{
    match i {
        0 => (1, EventKind::UnknownError),
        1 => (2, EventKind::Uart1Error),
        2 => (4, EventKind::Uart2Error),
        3 => (8, EventKind::I2c1Error),
        4 => (16, EventKind::I2c3Error),
        5 => (32, EventKind::Spi1Error),
        6 => (64, EventKind::UsbError),
        7 => (128, EventKind::DmaError),
        _ => (128, EventKind::DmaError),
    }
}

fn push_state_change_events(events: &mut Vec<EventKind>, cur: u16, prev: u16)
    ensures
        final(events)@ == old(events)@ + spec_state_change_events(cur, prev),
{
    let ghost start = events@;
    let mut i: usize = 0;
    while i < STATE_CHANGE_COUNT
        invariant
            i <= 5,
            events@ == start + state_change_events_upto(cur, prev, i as nat),
        decreases 5 - i,
    {
        let (bit, kind_on, kind_off) = state_change_mapping_at(i);
        let changed = (cur ^ prev) & bit != 0;
        if changed {
            let is_on = cur & bit != 0;
            events.push(if is_on { kind_on } else { kind_off });
        }
        i += 1;
        assert(events@ =~= start + state_change_events_upto(cur, prev, i as nat));
    }
}

fn push_protection_events(events: &mut Vec<EventKind>, new: u16)
    ensures
        final(events)@ == old(events)@ + protection_events_upto(new, 6),
{
    let ghost start = events@;
    let mut i: usize = 0;
    while i < PROTECTION_COUNT
        invariant
            i <= 6,
            events@ == start + protection_events_upto(new, i as nat),
        decreases 6 - i,
    {
        let (bit, kind) = protection_mapping_at(i);
        if new & bit != 0 {
            events.push(kind);
        }
        i += 1;
        assert(events@ =~= start + protection_events_upto(new, i as nat));
    }
}

fn push_error_events(events: &mut Vec<EventKind>, new: u16)
    ensures
        final(events)@ == old(events)@ + error_events_upto(new, 8),
{
    let ghost start = events@;
    let mut i: usize = 0;
    while i < ERROR_COUNT
        invariant
            i <= 8,
            events@ == start + error_events_upto(new, i as nat),
        decreases 8 - i,
    {
        let (bit, kind) = error_mapping_at(i);
        if new & bit != 0 {
            events.push(kind);
        }
        i += 1;
        assert(events@ =~= start + error_events_upto(new, i as nat));
    }
}

/// Board event record: charge phase and three flag words.
#[derive(Debug, Clone, Copy, PartialEq, Eq, Structural)]
pub struct BoardEvent {
    pub charge_phase: ChargePhase,
    pub state_change_flags: StateChangeFlags,
    pub protection_flags: ProtectionFlags,
    pub error_flags: ErrorFlags,
}

impl Default for BoardEvent {
    fn default() -> (e: BoardEvent)
        ensures
            e.charge_phase == ChargePhase::NotCharging,
            e.state_change_flags@ == 0,
            e.protection_flags@ == 0,
            e.error_flags@ == 0,
    {
        BoardEvent {
            charge_phase: ChargePhase::NotCharging,
            state_change_flags: StateChangeFlags::empty(),
            protection_flags: ProtectionFlags::empty(),
            error_flags: ErrorFlags::empty(),
        }
    }
}

/// A flag word as decoded: kept when it holds only defined flags, else empty.
pub open spec fn decoded_flags(bits: u16, all: u16) -> u16 {
    if bits & !all == 0 {
        bits
    } else {
        0
    }
}

impl BoardEvent {
    /// The payload bytes of `self`.
    pub open spec fn spec_to_bytes(self) -> Seq<u8> {
        seq![self.charge_phase.spec_as_u8()] + u16_le(self.state_change_flags@) + u16_le(
            self.protection_flags@,
        ) + u16_le(self.error_flags@)
    }

    /// Whether decoding `data` succeeds with an event whose fields are
    /// `(phase, state_change, protection, error)`.
    pub open spec fn spec_decoded_fields(data: Seq<u8>) -> (ChargePhase, u16, u16, u16) {
        (
            ChargePhase::spec_from_u8(data[0]),
            decoded_flags(u16_at(data, 1), StateChangeFlags::spec_all_bits()),
            decoded_flags(u16_at(data, 3), ProtectionFlags::spec_all_bits()),
            decoded_flags(u16_at(data, 5), ErrorFlags::spec_all_bits()),
        )
    }

    /// The fields of an event.
    pub open spec fn spec_fields(self) -> (ChargePhase, u16, u16, u16) {
        (self.charge_phase, self.state_change_flags@, self.protection_flags@, self.error_flags@)
    }

    /// All events between `prev` and `self`: a change of charge phase first,
    /// then state-change flips, then newly raised protections, then newly
    /// raised errors.
    pub open spec fn spec_diff_events(self, prev: BoardEvent) -> Seq<EventKind> {
        (if self.charge_phase != prev.charge_phase {
            seq![EventKind::spec_from_phase(self.charge_phase)]
        } else {
            seq![]
        }) + spec_state_change_events(self.state_change_flags@, prev.state_change_flags@)
            + spec_new_protection_events(self.protection_flags@, prev.protection_flags@)
            + spec_new_error_events(self.error_flags@, prev.error_flags@)
    }

    /// The text shown for an event: the phase number in decimal and the
    /// three flag words as `0x` and four upper-case hexadecimal digits.
    pub open spec fn spec_display(self) -> Seq<char> {
        "phase="@ + spec_decimal(self.charge_phase.spec_as_u8() as nat) + " state=0x"@ + spec_hex(
            self.state_change_flags@ as nat,
            4,
            true,
        ) + " prot=0x"@ + spec_hex(self.protection_flags@ as nat, 4, true) + " err=0x"@ + spec_hex(
            self.error_flags@ as nat,
            4,
            true,
        )
    }

    /// The text shown for this event (see `spec_display`).
    pub fn to_string(&self) -> (s: String)
        ensures
            s@ == self.spec_display(),
    {
        let mut s = String::new();
        s.append("phase=");
        append_decimal(&mut s, self.charge_phase.as_u8() as u64);
        s.append(" state=0x");
        append_hex(&mut s, self.state_change_flags.bits() as u64, 4, true);
        s.append(" prot=0x");
        append_hex(&mut s, self.protection_flags.bits() as u64, 4, true);
        s.append(" err=0x");
        append_hex(&mut s, self.error_flags.bits() as u64, 4, true);
        proof {
            assert(s@ =~= self.spec_display());
        }
        s
    }

    /// Decodes an event payload; a flag word holding an undefined flag
    /// decodes as empty, and bytes after the first 7 are ignored.
    pub fn from_bytes(data: &[u8]) -> (r: Result<BoardEvent, FrameError>)
        ensures
            data@.len() < 7 ==> r == Err::<BoardEvent, FrameError>(
                FrameError::PayloadTooShort { expected: 7, got: data@.len() as usize },
            ),
            data@.len() >= 7 ==> (r matches Ok(e) && e.spec_fields()
                == BoardEvent::spec_decoded_fields(data@)),
    {
        if data.len() < 7 {
            return Err(FrameError::PayloadTooShort { expected: 7, got: data.len() });
        }
        let charge_phase = ChargePhase::from_u8(data[0]);
        let state_change_flags = match StateChangeFlags::from_bits(read_u16(data, 1)) {
            Some(f) => f,
            None => StateChangeFlags::empty(),
        };
        let protection_flags = match ProtectionFlags::from_bits(read_u16(data, 3)) {
            Some(f) => f,
            None => ProtectionFlags::empty(),
        };
        let error_flags = match ErrorFlags::from_bits(read_u16(data, 5)) {
            Some(f) => f,
            None => ErrorFlags::empty(),
        };
        Ok(BoardEvent { charge_phase, state_change_flags, protection_flags, error_flags })
    }

    /// Encodes this event payload.
    pub fn to_bytes(&self) -> (bytes: Vec<u8>)
        ensures
            bytes@ == self.spec_to_bytes(),
    {
        let mut buf: Vec<u8> = Vec::new();
        buf.push(self.charge_phase.as_u8());
        push_u16(&mut buf, self.state_change_flags.bits());
        push_u16(&mut buf, self.protection_flags.bits());
        push_u16(&mut buf, self.error_flags.bits());
        buf
    }

    /// All events between `prev` and `self`.
    pub fn diff_events(&self, prev: &BoardEvent) -> (events: Vec<EventKind>)
        ensures
            events@ == self.spec_diff_events(*prev),
    {
        let mut events: Vec<EventKind> = Vec::new();
        if self.charge_phase != prev.charge_phase {
            let kind = EventKind::from(self.charge_phase);
            assert(kind == EventKind::spec_from_phase(self.charge_phase));
            events.push(kind);
        }
        let ghost phase_events = events@;
        assert(phase_events =~= (if self.charge_phase != prev.charge_phase {
            seq![EventKind::spec_from_phase(self.charge_phase)]
        } else {
            seq![]
        }));
        push_state_change_events(
            &mut events,
            self.state_change_flags.bits(),
            prev.state_change_flags.bits(),
        );
        let new_prot = self.protection_flags.bits() & !prev.protection_flags.bits();
        push_protection_events(&mut events, new_prot);
        let new_err = self.error_flags.bits() & !prev.error_flags.bits();
        push_error_events(&mut events, new_err);
        assert(events@ =~= self.spec_diff_events(*prev));
        events
    }

    /// State-change events (charger included) between `prev` and `self`.
    pub fn new_state_change_events(&self, prev: &StateChangeFlags) -> (events: Vec<EventKind>)
        ensures
            events@ == spec_state_change_events(self.state_change_flags@, prev@),
    {
        let mut events: Vec<EventKind> = Vec::new();
        push_state_change_events(&mut events, self.state_change_flags.bits(), prev.bits());
        events
    }

    /// Protection events raised in `self` and not in `prev`.
    pub fn new_protection_events(&self, prev: &ProtectionFlags) -> (events: Vec<EventKind>)
        ensures
            events@ == spec_new_protection_events(self.protection_flags@, prev@),
    {
        let mut events: Vec<EventKind> = Vec::new();
        push_protection_events(&mut events, self.protection_flags.bits() & !prev.bits());
        events
    }

    /// Error events raised in `self` and not in `prev`.
    pub fn new_error_events(&self, prev: &ErrorFlags) -> (events: Vec<EventKind>)
        ensures
            events@ == spec_new_error_events(self.error_flags@, prev@),
    {
        let mut events: Vec<EventKind> = Vec::new();
        push_error_events(&mut events, self.error_flags.bits() & !prev.bits());
        events
    }
}

impl ToPayload for BoardEvent {
    fn to_payload(&self) -> (bytes: Vec<u8>)
        ensures
            bytes@ == self.spec_to_bytes(),
    {
        self.to_bytes()
    }
}

impl FromPayload for BoardEvent {
    open spec fn decodable(payload: Seq<u8>) -> bool {
        true
    }

    fn from_payload(p: &[u8]) -> (r: Result<BoardEvent, FrameError>)
        ensures
            p@.len() >= 7 ==> (r matches Ok(e) && e.spec_fields()
                == BoardEvent::spec_decoded_fields(p@)),
            p@.len() < 7 ==> r is Err,
    {
        BoardEvent::from_bytes(p)
    }
}

proof fn lemma_push_contains(s: Seq<EventKind>, x: EventKind, y: EventKind)
    ensures
        s.push(x).contains(y) <==> (s.contains(y) || x == y),
{
    if s.contains(y) {
        let j = choose|j: int| 0 <= j < s.len() && s[j] == y;
        assert(s.push(x)[j] == y);
    }
    if x == y {
        assert(s.push(x)[s.len() as int] == y);
    }
    if s.push(x).contains(y) {
        let j = choose|j: int| 0 <= j < s.push(x).len() && s.push(x)[j] == y;
        if j < s.len() {
            assert(s[j] == y);
        }
    }
}

proof fn lemma_single_bit(cur: u16, prev: u16, bit: u16)
    requires
        bit == 1 || bit == 2 || bit == 4 || bit == 8 || bit == 16 || bit == 32 || bit == 64
            || bit == 128,
    ensures
        ((cur & !prev) & bit != 0) <==> (cur & bit != 0 && prev & bit == 0),
        ((cur ^ prev) & bit != 0) <==> ((cur & bit != 0) != (prev & bit != 0)),
        (cur ^ cur) & bit == 0,
        (cur & !cur) & bit == 0,
{
    assert(((cur & !prev) & bit != 0) <==> (cur & bit != 0 && prev & bit == 0)) by (bit_vector)
        requires
            bit == 1 || bit == 2 || bit == 4 || bit == 8 || bit == 16 || bit == 32 || bit == 64
                || bit == 128,
    ;
    assert(((cur ^ prev) & bit != 0) <==> ((cur & bit != 0) != (prev & bit != 0))) by (bit_vector)
        requires
            bit == 1 || bit == 2 || bit == 4 || bit == 8 || bit == 16 || bit == 32 || bit == 64
                || bit == 128,
    ;
    assert((cur ^ cur) & bit == 0) by (bit_vector);
    assert((cur & !cur) & bit == 0) by (bit_vector);
}

proof fn lemma_protection_upto_contains(new: u16, n: nat, i: int)
    requires
        n <= 6,
        0 <= i < 6,
    ensures
        protection_events_upto(new, n).contains(protection_mapping(i).1) <==> (i < n && new
            & protection_mapping(i).0 != 0),
    decreases n,
{
    if n > 0 {
        lemma_protection_upto_contains(new, (n - 1) as nat, i);
        lemma_push_contains(
            protection_events_upto(new, (n - 1) as nat),
            protection_mapping(n - 1).1,
            protection_mapping(i).1,
        );
    }
}

proof fn lemma_error_upto_contains(new: u16, n: nat, i: int)
    requires
        n <= 8,
        0 <= i < 8,
    ensures
        error_events_upto(new, n).contains(error_mapping(i).1) <==> (i < n && new & error_mapping(
            i,
        ).0 != 0),
    decreases n,
{
    if n > 0 {
        lemma_error_upto_contains(new, (n - 1) as nat, i);
        lemma_push_contains(
            error_events_upto(new, (n - 1) as nat),
            error_mapping(n - 1).1,
            error_mapping(i).1,
        );
    }
}

proof fn lemma_state_change_upto_contains(cur: u16, prev: u16, n: nat, i: int)
    requires
        n <= 5,
        0 <= i < 5,
    ensures
        state_change_events_upto(cur, prev, n).contains(state_change_mapping(i).1) <==> (i < n
            && (cur ^ prev) & state_change_mapping(i).0 != 0 && cur & state_change_mapping(i).0
            != 0),
        state_change_events_upto(cur, prev, n).contains(state_change_mapping(i).2) <==> (i < n
            && (cur ^ prev) & state_change_mapping(i).0 != 0 && cur & state_change_mapping(i).0
            == 0),
    decreases n,
{
    if n > 0 {
        lemma_state_change_upto_contains(cur, prev, (n - 1) as nat, i);
        let m = state_change_mapping(n - 1);
        let rest = state_change_events_upto(cur, prev, (n - 1) as nat);
        let pushed = if cur & m.0 != 0 {
            m.1
        } else {
            m.2
        };
        lemma_push_contains(rest, pushed, state_change_mapping(i).1);
        lemma_push_contains(rest, pushed, state_change_mapping(i).2);
    }
}

/// A protection event is reported exactly when its flag is raised in `cur`
/// and was not raised in `prev`.
pub proof fn lemma_new_protection_event_iff(cur: u16, prev: u16, i: int)
    requires
        0 <= i < 6,
    ensures
        spec_new_protection_events(cur, prev).contains(protection_mapping(i).1) <==> (cur
            & protection_mapping(i).0 != 0 && prev & protection_mapping(i).0 == 0),
{
    lemma_protection_upto_contains(cur & !prev, 6, i);
    lemma_single_bit(cur, prev, protection_mapping(i).0);
}

/// An error event is reported exactly when its flag is raised in `cur` and
/// was not raised in `prev`.
pub proof fn lemma_new_error_event_iff(cur: u16, prev: u16, i: int)
    requires
        0 <= i < 8,
    ensures
        spec_new_error_events(cur, prev).contains(error_mapping(i).1) <==> (cur & error_mapping(
            i,
        ).0 != 0 && prev & error_mapping(i).0 == 0),
{
    lemma_error_upto_contains(cur & !prev, 8, i);
    lemma_single_bit(cur, prev, error_mapping(i).0);
}

/// A state bit's "on" event is reported exactly when the bit turned on, and
/// its "off" event exactly when the bit turned off.
pub proof fn lemma_state_change_event_iff(cur: u16, prev: u16, i: int)
    requires
        0 <= i < 5,
    ensures
        spec_state_change_events(cur, prev).contains(state_change_mapping(i).1) <==> (cur
            & state_change_mapping(i).0 != 0 && prev & state_change_mapping(i).0 == 0),
        spec_state_change_events(cur, prev).contains(state_change_mapping(i).2) <==> (cur
            & state_change_mapping(i).0 == 0 && prev & state_change_mapping(i).0 != 0),
{
    lemma_state_change_upto_contains(cur, prev, 5, i);
    lemma_single_bit(cur, prev, state_change_mapping(i).0);
}

proof fn lemma_no_state_change(x: u16, n: nat)
    requires
        n <= 5,
    ensures
        state_change_events_upto(x, x, n) == Seq::<EventKind>::empty(),
    decreases n,
{
    if n > 0 {
        lemma_no_state_change(x, (n - 1) as nat);
        lemma_single_bit(x, x, state_change_mapping(n - 1).0);
    }
}

proof fn lemma_no_protection(x: u16, n: nat)
    requires
        n <= 6,
    ensures
        protection_events_upto(x & !x, n) == Seq::<EventKind>::empty(),
    decreases n,
{
    if n > 0 {
        lemma_no_protection(x, (n - 1) as nat);
        lemma_single_bit(x, x, protection_mapping(n - 1).0);
    }
}

proof fn lemma_no_error(x: u16, n: nat)
    requires
        n <= 8,
    ensures
        error_events_upto(x & !x, n) == Seq::<EventKind>::empty(),
    decreases n,
{
    if n > 0 {
        lemma_no_error(x, (n - 1) as nat);
        lemma_single_bit(x, x, error_mapping(n - 1).0);
    }
}

/// An event compared with itself yields no events.
pub proof fn lemma_diff_events_unchanged(e: BoardEvent)
    ensures
        e.spec_diff_events(e) == Seq::<EventKind>::empty(),
{
    lemma_no_state_change(e.state_change_flags@, 5);
    lemma_no_protection(e.protection_flags@, 6);
    lemma_no_error(e.error_flags@, 8);
    assert(e.spec_diff_events(e) =~= Seq::<EventKind>::empty());
}

/// `diff_events` reports the phase change, then exactly what
/// `new_state_change_events`, `new_protection_events` and `new_error_events`
/// report against the previous event's flags, in that order.
pub proof fn lemma_diff_events_parts(cur: BoardEvent, prev: BoardEvent)
    ensures
        cur.spec_diff_events(prev) == (if cur.charge_phase != prev.charge_phase {
            seq![EventKind::spec_from_phase(cur.charge_phase)]
        } else {
            seq![]
        }) + spec_state_change_events(cur.state_change_flags@, prev.state_change_flags@)
            + spec_new_protection_events(cur.protection_flags@, prev.protection_flags@)
            + spec_new_error_events(cur.error_flags@, prev.error_flags@),
{
}

/// Decoding the encoding of an event gives its fields back when its flag
/// words hold only defined flags and its phase is `NotCharging`: the board
/// numbers phases from 1 when it decodes, so any other phase comes back
/// shifted.
pub proof fn lemma_board_event_roundtrip(e: BoardEvent)
    requires
        e.charge_phase == ChargePhase::NotCharging,
        e.state_change_flags@ & !StateChangeFlags::spec_all_bits() == 0,
        e.protection_flags@ & !ProtectionFlags::spec_all_bits() == 0,
        e.error_flags@ & !ErrorFlags::spec_all_bits() == 0,
    ensures
        e.spec_to_bytes().len() == 7,
        BoardEvent::spec_decoded_fields(e.spec_to_bytes()) == e.spec_fields(),
{
    let b = e.spec_to_bytes();
    assert(u16_at(b, 1) == e.state_change_flags@);
    assert(u16_at(b, 3) == e.protection_flags@);
    assert(u16_at(b, 5) == e.error_flags@);
}

/// Whether bit `i` of `x` is set.
pub open spec fn bit_set(x: u16, i: nat) -> bool {
    (x >> (i as u16)) & 1u16 == 1u16
}

/// The number of bits set among the lowest `n` bits of `x`.
pub open spec fn count_bits_below(x: u16, n: nat) -> nat
    decreases n,
{
    if n == 0 {
        0
    } else {
        count_bits_below(x, (n - 1) as nat) + if bit_set(x, (n - 1) as nat) {
            1nat
        } else {
            0nat
        }
    }
}

/// Bit `i` of the error table is the flag of bit number `i`.
proof fn lemma_error_bit(x: u16, i: u16)
    requires
        i < 8,
    ensures
        (x & error_mapping(i as int).0 != 0) == bit_set(x, i as nat),
{
    let m = error_mapping(i as int).0;
    assert(m == 1u16 << i) by (bit_vector)
        requires
            i < 8,
            i == 0 ==> m == 1u16,
            i == 1 ==> m == 2u16,
            i == 2 ==> m == 4u16,
            i == 3 ==> m == 8u16,
            i == 4 ==> m == 16u16,
            i == 5 ==> m == 32u16,
            i == 6 ==> m == 64u16,
            i == 7 ==> m == 128u16,
    ;
    assert((x & m != 0) == ((x >> i) & 1u16 == 1u16)) by (bit_vector)
        requires
            i < 8,
            m == 1u16 << i,
    ;
}

/// The first `n` error entries give one event per set bit among them.
proof fn lemma_error_events_upto_len(x: u16, n: nat)
    requires
        n <= 8,
    ensures
        error_events_upto(x, n).len() == count_bits_below(x, n),
    decreases n,
{
    if n > 0 {
        lemma_error_events_upto_len(x, (n - 1) as nat);
        lemma_error_bit(x, (n - 1) as u16);
    }
}

/// A word with no flag above the eight defined ones has no bit set above
/// the eighth.
proof fn lemma_count_defined_only(x: u16, n: nat)
    requires
        8 <= n <= 16,
        x & !0x00FFu16 == 0,
    ensures
        count_bits_below(x, n) == count_bits_below(x, 8),
    decreases n,
{
    if n > 8 {
        lemma_count_defined_only(x, (n - 1) as nat);
        let k = (n - 1) as u16;
        assert((x >> k) & 1u16 == 0u16) by (bit_vector)
            requires
                8 <= k < 16,
                x & !0x00FFu16 == 0,
        ;
    }
}

/// No bit of zero is set.
proof fn lemma_count_zero(n: nat)
    requires
        n <= 16,
    ensures
        count_bits_below(0u16, n) == 0,
    decreases n,
{
    if n > 0 {
        lemma_count_zero((n - 1) as nat);
        let k = (n - 1) as u16;
        assert((0u16 >> k) & 1u16 == 0u16) by (bit_vector);
    }
}

/// There are as many new error events as error flags raised in `cur` and
/// not in `prev`: counting the defined flags, and when `cur` holds only
/// defined flags, counting every bit. When `prev` already holds every flag
/// of `cur` there are none.
pub proof fn lemma_new_error_events_count(cur: u16, prev: u16)
    ensures
        spec_new_error_events(cur, prev).len() == count_bits_below(cur & !prev, 8),
        cur & !ErrorFlags::spec_all_bits() == 0 ==> spec_new_error_events(cur, prev).len()
            == count_bits_below(cur & !prev, 16),
        prev & cur == cur ==> spec_new_error_events(cur, prev).len() == 0,
{
    let x = cur & !prev;
    lemma_error_events_upto_len(x, 8);
    if cur & !ErrorFlags::spec_all_bits() == 0 {
        assert(x & !0x00FFu16 == 0) by (bit_vector)
            requires
                x == cur & !prev,
                cur & !0x00FFu16 == 0,
        ;
        lemma_count_defined_only(x, 16);
    }
    if prev & cur == cur {
        assert(x == 0u16) by (bit_vector)
            requires
                x == cur & !prev,
                prev & cur == cur,
        ;
        lemma_count_zero(8);
    }
}

/// Each state flag reports its own events: the charger (0x0001), the fan
/// (0x0002), the servo power (0x0004), the 5V output (0x0008) and the
/// battery's extra output (0x0010) each give their "on" event exactly when
/// the flag is set now and was clear before, and their "off" event exactly
/// when it is clear now and was set before.
pub proof fn lemma_state_change_kinds(cur: u16, prev: u16)
    ensures
        spec_state_change_events(cur, prev).contains(EventKind::ChargerConnected) <==> (cur & 0x0001u16 != 0 && prev & 0x0001u16 == 0),
        spec_state_change_events(cur, prev).contains(EventKind::ChargerDisconnected) <==> (cur & 0x0001u16 == 0 && prev & 0x0001u16 != 0),
        spec_state_change_events(cur, prev).contains(EventKind::FanOn) <==> (cur & 0x0002u16 != 0 && prev & 0x0002u16 == 0),
        spec_state_change_events(cur, prev).contains(EventKind::FanOff) <==> (cur & 0x0002u16 == 0 && prev & 0x0002u16 != 0),
        spec_state_change_events(cur, prev).contains(EventKind::PowerServoOn) <==> (cur & 0x0004u16 != 0 && prev & 0x0004u16 == 0),
        spec_state_change_events(cur, prev).contains(EventKind::PowerServoOff) <==> (cur & 0x0004u16 == 0 && prev & 0x0004u16 != 0),
        spec_state_change_events(cur, prev).contains(EventKind::Power5vOn) <==> (cur & 0x0008u16 != 0 && prev & 0x0008u16 == 0),
        spec_state_change_events(cur, prev).contains(EventKind::Power5vOff) <==> (cur & 0x0008u16 == 0 && prev & 0x0008u16 != 0),
        spec_state_change_events(cur, prev).contains(EventKind::BatExtOutOn) <==> (cur & 0x0010u16 != 0 && prev & 0x0010u16 == 0),
        spec_state_change_events(cur, prev).contains(EventKind::BatExtOutOff) <==> (cur & 0x0010u16 == 0 && prev & 0x0010u16 != 0),
{
    lemma_state_change_event_iff(cur, prev, 0);
    lemma_state_change_event_iff(cur, prev, 1);
    lemma_state_change_event_iff(cur, prev, 2);
    lemma_state_change_event_iff(cur, prev, 3);
    lemma_state_change_event_iff(cur, prev, 4);
}

/// Each protection flag reports its own event when newly raised: 0x0001
/// servo overcurrent, 0x0002 servo supply overheat, 0x0004 5V supply
/// overheat, 0x0008 charge derating, 0x0010 charger overheat, 0x0020 low
/// battery.
pub proof fn lemma_protection_kinds(cur: u16, prev: u16)
    ensures
        spec_new_protection_events(cur, prev).contains(EventKind::ServoOvercurrent) <==> (cur & 0x0001u16 != 0 && prev & 0x0001u16 == 0),
        spec_new_protection_events(cur, prev).contains(EventKind::PowerServoThermal) <==> (cur & 0x0002u16 != 0 && prev & 0x0002u16 == 0),
        spec_new_protection_events(cur, prev).contains(EventKind::Power5vThermal) <==> (cur & 0x0004u16 != 0 && prev & 0x0004u16 == 0),
        spec_new_protection_events(cur, prev).contains(EventKind::ChargeDerating) <==> (cur & 0x0008u16 != 0 && prev & 0x0008u16 == 0),
        spec_new_protection_events(cur, prev).contains(EventKind::ChargeThermal) <==> (cur & 0x0010u16 != 0 && prev & 0x0010u16 == 0),
        spec_new_protection_events(cur, prev).contains(EventKind::BatteryLow) <==> (cur & 0x0020u16 != 0 && prev & 0x0020u16 == 0),
{
    lemma_new_protection_event_iff(cur, prev, 0);
    lemma_new_protection_event_iff(cur, prev, 1);
    lemma_new_protection_event_iff(cur, prev, 2);
    lemma_new_protection_event_iff(cur, prev, 3);
    lemma_new_protection_event_iff(cur, prev, 4);
    lemma_new_protection_event_iff(cur, prev, 5);
}

/// Each error flag reports its own event when newly raised: 0x0001 unknown,
/// 0x0002 UART1, 0x0004 UART2, 0x0008 I2C1, 0x0010 I2C3, 0x0020 SPI1, 0x0040
/// USB, 0x0080 DMA.
pub proof fn lemma_error_kinds(cur: u16, prev: u16)
    ensures
        spec_new_error_events(cur, prev).contains(EventKind::UnknownError) <==> (cur & 0x0001u16 != 0 && prev & 0x0001u16 == 0),
        spec_new_error_events(cur, prev).contains(EventKind::Uart1Error) <==> (cur & 0x0002u16 != 0 && prev & 0x0002u16 == 0),
        spec_new_error_events(cur, prev).contains(EventKind::Uart2Error) <==> (cur & 0x0004u16 != 0 && prev & 0x0004u16 == 0),
        spec_new_error_events(cur, prev).contains(EventKind::I2c1Error) <==> (cur & 0x0008u16 != 0 && prev & 0x0008u16 == 0),
        spec_new_error_events(cur, prev).contains(EventKind::I2c3Error) <==> (cur & 0x0010u16 != 0 && prev & 0x0010u16 == 0),
        spec_new_error_events(cur, prev).contains(EventKind::Spi1Error) <==> (cur & 0x0020u16 != 0 && prev & 0x0020u16 == 0),
        spec_new_error_events(cur, prev).contains(EventKind::UsbError) <==> (cur & 0x0040u16 != 0 && prev & 0x0040u16 == 0),
        spec_new_error_events(cur, prev).contains(EventKind::DmaError) <==> (cur & 0x0080u16 != 0 && prev & 0x0080u16 == 0),
{
    lemma_new_error_event_iff(cur, prev, 0);
    lemma_new_error_event_iff(cur, prev, 1);
    lemma_new_error_event_iff(cur, prev, 2);
    lemma_new_error_event_iff(cur, prev, 3);
    lemma_new_error_event_iff(cur, prev, 4);
    lemma_new_error_event_iff(cur, prev, 5);
    lemma_new_error_event_iff(cur, prev, 6);
    lemma_new_error_event_iff(cur, prev, 7);
}

/// A change of charge phase is reported with the event of the new phase,
/// each phase with its own event.
pub proof fn lemma_phase_event_kinds(p: ChargePhase)
    ensures
        (EventKind::spec_from_phase(p) == EventKind::NotCharging) <==> p == ChargePhase::NotCharging,
        (EventKind::spec_from_phase(p) == EventKind::PreCharge) <==> p == ChargePhase::PreCharge,
        (EventKind::spec_from_phase(p) == EventKind::CcCharge) <==> p == ChargePhase::Cc,
        (EventKind::spec_from_phase(p) == EventKind::CvCharge) <==> p == ChargePhase::Cv,
        (EventKind::spec_from_phase(p) == EventKind::FullCharge) <==> p == ChargePhase::Full,
        (EventKind::spec_from_phase(p) == EventKind::PdSinkFault) <==> p == ChargePhase::PdSinkFault,
        (EventKind::spec_from_phase(p) == EventKind::UnsupportedCharger) <==> p == ChargePhase::UnsupportedCharger,
{
}

/// The phase byte as the board sends it: 1 not charging, 2 pre-charge, 3
/// constant current, 4 constant voltage, 5 full, 6 USB-PD sink fault, 7
/// unsupported charger, anything else not charging; phases are written as 0
/// to 6 in that order.
pub proof fn lemma_charge_phase_codes(v: u8)
    ensures
        (ChargePhase::spec_from_u8(v) == ChargePhase::PreCharge) <==> v == 2,
        (ChargePhase::spec_from_u8(v) == ChargePhase::Cc) <==> v == 3,
        (ChargePhase::spec_from_u8(v) == ChargePhase::Cv) <==> v == 4,
        (ChargePhase::spec_from_u8(v) == ChargePhase::Full) <==> v == 5,
        (ChargePhase::spec_from_u8(v) == ChargePhase::PdSinkFault) <==> v == 6,
        (ChargePhase::spec_from_u8(v) == ChargePhase::UnsupportedCharger) <==> v == 7,
        (ChargePhase::spec_from_u8(v) == ChargePhase::NotCharging) <==> (v == 1 || v == 0 || v > 7),
        ChargePhase::NotCharging.spec_as_u8() == 0,
        ChargePhase::PreCharge.spec_as_u8() == 1,
        ChargePhase::Cc.spec_as_u8() == 2,
        ChargePhase::Cv.spec_as_u8() == 3,
        ChargePhase::Full.spec_as_u8() == 4,
        ChargePhase::PdSinkFault.spec_as_u8() == 5,
        ChargePhase::UnsupportedCharger.spec_as_u8() == 6,
{
}

} // verus!
