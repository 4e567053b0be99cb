//! Board configuration items and the board configuration snapshot.

use vstd::prelude::*;
use crate::protocol::error::FrameError;
use crate::protocol::frame::{FromPayload, ToPayload};
use crate::protocol::log::LogLevel;
use crate::protocol::wire::{push_u16, read_u16, u16_at, u16_le};

verus! {

/// Configuration item identifier.
#[derive(Debug, Clone, Copy, PartialEq, Eq, Structural)]
pub enum ConfigType {
    Reset,
    Shutdown,
    SwitchServoPower,
    Switch5VPower,
    SwitchCharge,
    SwitchBatExtOut,
    ChargeStopSoc,
    TxLogLevel,
    PowerServoCurrentLimitMa,
    PowerServoTempLimit,
    Power5vTempLimit,
    ChargeMaxCurrentMa,
    ChargeTempDerating,
    ChargeTempLimit,
    ChargeStopVoltageMv,
}

impl ConfigType {
    /// The item that byte `v` identifies, if any.
    pub open spec fn spec_from_u8(v: u8) -> Option<ConfigType> {
        if v == 0x01 {
            Some(ConfigType::Reset)
        } else if v == 0x02 {
            Some(ConfigType::Shutdown)
        } else if v == 0x10 {
            Some(ConfigType::SwitchServoPower)
        } else if v == 0x11 {
            Some(ConfigType::Switch5VPower)
        } else if v == 0x12 {
            Some(ConfigType::SwitchCharge)
        } else if v == 0x13 {
            Some(ConfigType::SwitchBatExtOut)
        } else if v == 0x20 {
            Some(ConfigType::ChargeStopSoc)
        } else if v == 0x21 {
            Some(ConfigType::TxLogLevel)
        } else if v == 0x30 {
            Some(ConfigType::PowerServoCurrentLimitMa)
        } else if v == 0x31 {
            Some(ConfigType::PowerServoTempLimit)
        } else if v == 0x32 {
            Some(ConfigType::Power5vTempLimit)
        } else if v == 0x33 {
            Some(ConfigType::ChargeMaxCurrentMa)
        } else if v == 0x34 {
            Some(ConfigType::ChargeTempDerating)
        } else if v == 0x35 {
            Some(ConfigType::ChargeTempLimit)
        } else if v == 0x36 {
            Some(ConfigType::ChargeStopVoltageMv)
        } else {
            None
        }
    }

    /// The identifier byte of an item.
    pub open spec fn spec_as_u8(self) -> u8 {
        match self {
            ConfigType::Reset => 0x01,
            ConfigType::Shutdown => 0x02,
            ConfigType::SwitchServoPower => 0x10,
            ConfigType::Switch5VPower => 0x11,
            ConfigType::SwitchCharge => 0x12,
            ConfigType::SwitchBatExtOut => 0x13,
            ConfigType::ChargeStopSoc => 0x20,
            ConfigType::TxLogLevel => 0x21,
            ConfigType::PowerServoCurrentLimitMa => 0x30,
            ConfigType::PowerServoTempLimit => 0x31,
            ConfigType::Power5vTempLimit => 0x32,
            ConfigType::ChargeMaxCurrentMa => 0x33,
            ConfigType::ChargeTempDerating => 0x34,
            ConfigType::ChargeTempLimit => 0x35,
            ConfigType::ChargeStopVoltageMv => 0x36,
        }
    }

    pub open spec fn spec_name(self) -> Seq<char> {
        match self {
            ConfigType::Reset => "Reset"@,
            ConfigType::Shutdown => "Shutdown"@,
            ConfigType::SwitchServoPower => "Servo Power"@,
            ConfigType::Switch5VPower => "5V Power"@,
            ConfigType::SwitchCharge => "Charge"@,
            ConfigType::SwitchBatExtOut => "Battery Extra Output"@,
            ConfigType::ChargeStopSoc => "Charge Stop Soc"@,
            ConfigType::TxLogLevel => "TxLog Level"@,
            ConfigType::PowerServoCurrentLimitMa => "Servo Current Limit(ma)"@,
            ConfigType::PowerServoTempLimit => "Servo Temp Limit"@,
            ConfigType::Power5vTempLimit => "5V Temp Limit"@,
            ConfigType::ChargeMaxCurrentMa => "Charge Max Current(ma)"@,
            ConfigType::ChargeTempDerating => "Charge Temp Derating"@,
            ConfigType::ChargeTempLimit => "Charge Temp Limit"@,
            ConfigType::ChargeStopVoltageMv => "Charge Stop Voltage(mv)"@,
        }
    }

    pub open spec fn spec_unit(self) -> Seq<char> {
        match self {
            ConfigType::Reset => ""@,
            ConfigType::Shutdown => ""@,
            ConfigType::SwitchServoPower => ""@,
            ConfigType::Switch5VPower => ""@,
            ConfigType::SwitchCharge => ""@,
            ConfigType::SwitchBatExtOut => ""@,
            ConfigType::ChargeStopSoc => "%"@,
            ConfigType::TxLogLevel => ""@,
            ConfigType::PowerServoCurrentLimitMa => "mA"@,
            ConfigType::PowerServoTempLimit => "°C"@,
            ConfigType::Power5vTempLimit => "°C"@,
            ConfigType::ChargeMaxCurrentMa => "mA"@,
            ConfigType::ChargeTempDerating => "°C"@,
            ConfigType::ChargeTempLimit => "°C"@,
            ConfigType::ChargeStopVoltageMv => "mV"@,
        }
    }

    /// Decodes an identifier byte.
    pub fn from_u8(v: u8) -> (t: Option<ConfigType>)
        ensures
            t == ConfigType::spec_from_u8(v),
    {
        match v {
            0x01 => Some(ConfigType::Reset),
            0x02 => Some(ConfigType::Shutdown),
            0x10 => Some(ConfigType::SwitchServoPower),
            0x11 => Some(ConfigType::Switch5VPower),
            0x12 => Some(ConfigType::SwitchCharge),
            0x13 => Some(ConfigType::SwitchBatExtOut),
            0x20 => Some(ConfigType::ChargeStopSoc),
            0x21 => Some(ConfigType::TxLogLevel),
            0x30 => Some(ConfigType::PowerServoCurrentLimitMa),
            0x31 => Some(ConfigType::PowerServoTempLimit),
            0x32 => Some(ConfigType::Power5vTempLimit),
            0x33 => Some(ConfigType::ChargeMaxCurrentMa),
            0x34 => Some(ConfigType::ChargeTempDerating),
            0x35 => Some(ConfigType::ChargeTempLimit),
            0x36 => Some(ConfigType::ChargeStopVoltageMv),
            _ => None,
        }
    }

    /// The identifier byte of this item.
    pub fn as_u8(&self) -> (v: u8)
        ensures
            v == self.spec_as_u8(),
    {
        match self {
            ConfigType::Reset => 0x01,
            ConfigType::Shutdown => 0x02,
            ConfigType::SwitchServoPower => 0x10,
            ConfigType::Switch5VPower => 0x11,
            ConfigType::SwitchCharge => 0x12,
            ConfigType::SwitchBatExtOut => 0x13,
            ConfigType::ChargeStopSoc => 0x20,
            ConfigType::TxLogLevel => 0x21,
            ConfigType::PowerServoCurrentLimitMa => 0x30,
            ConfigType::PowerServoTempLimit => 0x31,
            ConfigType::Power5vTempLimit => 0x32,
            ConfigType::ChargeMaxCurrentMa => 0x33,
            ConfigType::ChargeTempDerating => 0x34,
            ConfigType::ChargeTempLimit => 0x35,
            ConfigType::ChargeStopVoltageMv => 0x36,
        }
    }

    /// Display name of this item.
    pub fn name(&self) -> (s: &'static str)
        ensures
            s@ == self.spec_name(),
    {
        match self {
            ConfigType::Reset => "Reset",
            ConfigType::Shutdown => "Shutdown",
            ConfigType::SwitchServoPower => "Servo Power",
            ConfigType::Switch5VPower => "5V Power",
            ConfigType::SwitchCharge => "Charge",
            ConfigType::SwitchBatExtOut => "Battery Extra Output",
            ConfigType::ChargeStopSoc => "Charge Stop Soc",
            ConfigType::TxLogLevel => "TxLog Level",
            ConfigType::PowerServoCurrentLimitMa => "Servo Current Limit(ma)",
            ConfigType::PowerServoTempLimit => "Servo Temp Limit",
            ConfigType::Power5vTempLimit => "5V Temp Limit",
            ConfigType::ChargeMaxCurrentMa => "Charge Max Current(ma)",
            ConfigType::ChargeTempDerating => "Charge Temp Derating",
            ConfigType::ChargeTempLimit => "Charge Temp Limit",
            ConfigType::ChargeStopVoltageMv => "Charge Stop Voltage(mv)",
        }
    }

    /// Unit of this item's value, empty when it has none.
    pub fn unit(&self) -> (s: &'static str)
        ensures
            s@ == self.spec_unit(),
    {
        match self {
            ConfigType::Reset => "",
            ConfigType::Shutdown => "",
            ConfigType::SwitchServoPower => "",
            ConfigType::Switch5VPower => "",
            ConfigType::SwitchCharge => "",
            ConfigType::SwitchBatExtOut => "",
            ConfigType::ChargeStopSoc => "%",
            ConfigType::TxLogLevel => "",
            ConfigType::PowerServoCurrentLimitMa => "mA",
            ConfigType::PowerServoTempLimit => "°C",
            ConfigType::Power5vTempLimit => "°C",
            ConfigType::ChargeMaxCurrentMa => "mA",
            ConfigType::ChargeTempDerating => "°C",
            ConfigType::ChargeTempLimit => "°C",
            ConfigType::ChargeStopVoltageMv => "mV",
        }
    }
}

/// Identifier bytes and items correspond one to one.
pub proof fn lemma_config_type_byte_roundtrip(t: ConfigType, v: u8)
    ensures
        ConfigType::spec_from_u8(t.spec_as_u8()) == Some(t),
        ConfigType::spec_from_u8(v) matches Some(u) ==> u.spec_as_u8() == v,
{
}

/// A configuration item with its value.
#[derive(Debug, Clone, Copy, PartialEq, Eq, Structural)]
pub enum Config {
    /// Reset the board.
    Reset,
    /// Shut the board down.
    Shutdown,
    /// Switch the servo power supply.
    SwitchPowerServo(bool),
    /// Switch the 5V power supply.
    SwitchPower5V(bool),
    /// Switch battery charging.
    SwitchCharge(bool),
    /// Switch the battery's extra output.
    SwitchBatExtOut(bool),
    /// Charge only up to this state of charge, in percent.
    ChargeStopSoc(u8),
    /// Level of the log messages the board sends.
    TxLogLevel(LogLevel),
    /// Servo supply current limit.
    PowerServoCurrentLimitMa(u16),
    /// Servo supply temperature limit.
    PowerServoTempLimit(u16),
    /// 5V supply temperature limit.
    Power5vTempLimit(u16),
    /// Maximum charging current.
    ChargeMaxCurrentMa(u16),
    /// Charger temperature at which charging current is reduced.
    ChargeTempDerating(u16),
    /// Charger temperature at which charging stops.
    ChargeTempLimit(u16),
    /// Charging stop voltage.
    ChargeStopVoltageMv(u16),
}

impl Config {
    pub open spec fn spec_config_type(self) -> ConfigType {
        match self {
            Config::Reset => ConfigType::Reset,
            Config::Shutdown => ConfigType::Shutdown,
            Config::SwitchPowerServo(_) => ConfigType::SwitchServoPower,
            Config::SwitchPower5V(_) => ConfigType::Switch5VPower,
            Config::SwitchCharge(_) => ConfigType::SwitchCharge,
            Config::SwitchBatExtOut(_) => ConfigType::SwitchBatExtOut,
            Config::ChargeStopSoc(_) => ConfigType::ChargeStopSoc,
            Config::TxLogLevel(_) => ConfigType::TxLogLevel,
            Config::PowerServoCurrentLimitMa(_) => ConfigType::PowerServoCurrentLimitMa,
            Config::PowerServoTempLimit(_) => ConfigType::PowerServoTempLimit,
            Config::Power5vTempLimit(_) => ConfigType::Power5vTempLimit,
            Config::ChargeMaxCurrentMa(_) => ConfigType::ChargeMaxCurrentMa,
            Config::ChargeTempDerating(_) => ConfigType::ChargeTempDerating,
            Config::ChargeTempLimit(_) => ConfigType::ChargeTempLimit,
            Config::ChargeStopVoltageMv(_) => ConfigType::ChargeStopVoltageMv,
        }
    }

    /// The value of an item as a 16-bit word: 0 for reset and shutdown, 1 or
    /// 0 for switches, the level number for the log level.
    pub open spec fn spec_value(self) -> u16 {
        match self {
            Config::Reset => 0,
            Config::Shutdown => 0,
            Config::SwitchPowerServo(x) => if x { 1 } else { 0 },
            Config::SwitchPower5V(x) => if x { 1 } else { 0 },
            Config::SwitchCharge(x) => if x { 1 } else { 0 },
            Config::SwitchBatExtOut(x) => if x { 1 } else { 0 },
            Config::ChargeStopSoc(x) => x as u16,
            Config::TxLogLevel(x) => x.spec_as_u8() as u16,
            Config::PowerServoCurrentLimitMa(x) => x,
            Config::PowerServoTempLimit(x) => x,
            Config::Power5vTempLimit(x) => x,
            Config::ChargeMaxCurrentMa(x) => x,
            Config::ChargeTempDerating(x) => x,
            Config::ChargeTempLimit(x) => x,
            Config::ChargeStopVoltageMv(x) => x,
        }
    }

    /// The item of type `typ` whose value word is `value`: a switch is on
    /// for any nonzero word, the state of charge keeps the low byte, and the
    /// log level decodes the low byte.
    pub open spec fn spec_from_type_value(typ: ConfigType, value: u16) -> Config {
        match typ {
            ConfigType::Reset => Config::Reset,
            ConfigType::Shutdown => Config::Shutdown,
            ConfigType::SwitchServoPower => Config::SwitchPowerServo(value != 0),
            ConfigType::Switch5VPower => Config::SwitchPower5V(value != 0),
            ConfigType::SwitchCharge => Config::SwitchCharge(value != 0),
            ConfigType::SwitchBatExtOut => Config::SwitchBatExtOut(value != 0),
            ConfigType::ChargeStopSoc => Config::ChargeStopSoc(value as u8),
            ConfigType::TxLogLevel => Config::TxLogLevel(LogLevel::spec_from_u8(value as u8)),
            ConfigType::PowerServoCurrentLimitMa => Config::PowerServoCurrentLimitMa(value),
            ConfigType::PowerServoTempLimit => Config::PowerServoTempLimit(value),
            ConfigType::Power5vTempLimit => Config::Power5vTempLimit(value),
            ConfigType::ChargeMaxCurrentMa => Config::ChargeMaxCurrentMa(value),
            ConfigType::ChargeTempDerating => Config::ChargeTempDerating(value),
            ConfigType::ChargeTempLimit => Config::ChargeTempLimit(value),
            ConfigType::ChargeStopVoltageMv => Config::ChargeStopVoltageMv(value),
        }
    }

    /// Whether the value of an item of this type travels in one byte.
    pub open spec fn spec_one_byte_value(typ: ConfigType) -> bool {
        typ.spec_as_u8() < 0x30
    }

    /// The payload bytes of an item: its identifier, then nothing for reset
    /// and shutdown, one byte for a switch, and the value word otherwise.
    pub open spec fn spec_to_bytes(self) -> Seq<u8> {
        seq![self.spec_config_type().spec_as_u8()] + match self {
            Config::Reset | Config::Shutdown => Seq::<u8>::empty(),
            Config::SwitchPowerServo(on) | Config::SwitchPower5V(on) | Config::SwitchCharge(on)
            | Config::SwitchBatExtOut(on) => seq![if on { 1u8 } else { 0u8 }],
            _ => u16_le(self.spec_value()),
        }
    }

    /// Result of decoding an item payload.
    pub open spec fn spec_from_bytes(data: Seq<u8>) -> Result<Config, FrameError> {
        if data.len() == 0 {
            Err(FrameError::PayloadTooShort { expected: 1, got: 0 })
        } else {
            match ConfigType::spec_from_u8(data[0]) {
                None => Err(FrameError::PayloadDecode("Unknown config type")),
                Some(t) => {
                    if t == ConfigType::Reset {
                        Ok(Config::Reset)
                    } else if t == ConfigType::Shutdown {
                        Ok(Config::Shutdown)
                    } else if Config::spec_one_byte_value(t) {
                        if data.len() < 2 {
                            Err(FrameError::PayloadTooShort { expected: 2, got: data.len() as usize })
                        } else {
                            Ok(Config::spec_from_type_value(t, data[1] as u16))
                        }
                    } else if data.len() < 3 {
                        Err(FrameError::PayloadTooShort { expected: 3, got: data.len() as usize })
                    } else {
                        Ok(Config::spec_from_type_value(t, u16_at(data, 1)))
                    }
                },
            }
        }
    }

    /// The item's identifier.
    pub fn config_type(&self) -> (t: ConfigType)
        ensures
            t == self.spec_config_type(),
    {
        match self {
            Config::Reset => ConfigType::Reset,
            Config::Shutdown => ConfigType::Shutdown,
            Config::SwitchPowerServo(_) => ConfigType::SwitchServoPower,
            Config::SwitchPower5V(_) => ConfigType::Switch5VPower,
            Config::SwitchCharge(_) => ConfigType::SwitchCharge,
            Config::SwitchBatExtOut(_) => ConfigType::SwitchBatExtOut,
            Config::ChargeStopSoc(_) => ConfigType::ChargeStopSoc,
            Config::TxLogLevel(_) => ConfigType::TxLogLevel,
            Config::PowerServoCurrentLimitMa(_) => ConfigType::PowerServoCurrentLimitMa,
            Config::PowerServoTempLimit(_) => ConfigType::PowerServoTempLimit,
            Config::Power5vTempLimit(_) => ConfigType::Power5vTempLimit,
            Config::ChargeMaxCurrentMa(_) => ConfigType::ChargeMaxCurrentMa,
            Config::ChargeTempDerating(_) => ConfigType::ChargeTempDerating,
            Config::ChargeTempLimit(_) => ConfigType::ChargeTempLimit,
            Config::ChargeStopVoltageMv(_) => ConfigType::ChargeStopVoltageMv,
        }
    }

    /// The item's value word.
    pub fn value(&self) -> (v: u16)
        ensures
            v == self.spec_value(),
    {
        match self {
            Config::Reset => 0,
            Config::Shutdown => 0,
            Config::SwitchPowerServo(x) => if *x { 1 } else { 0 },
            Config::SwitchPower5V(x) => if *x { 1 } else { 0 },
            Config::SwitchCharge(x) => if *x { 1 } else { 0 },
            Config::SwitchBatExtOut(x) => if *x { 1 } else { 0 },
            Config::ChargeStopSoc(x) => *x as u16,
            Config::TxLogLevel(x) => x.as_u8() as u16,
            Config::PowerServoCurrentLimitMa(x) => *x,
            Config::PowerServoTempLimit(x) => *x,
            Config::Power5vTempLimit(x) => *x,
            Config::ChargeMaxCurrentMa(x) => *x,
            Config::ChargeTempDerating(x) => *x,
            Config::ChargeTempLimit(x) => *x,
            Config::ChargeStopVoltageMv(x) => *x,
        }
    }

    /// The item of type `typ` whose value word is `value`.
    pub fn from_type_value(typ: ConfigType, value: u16) -> (c: Config)
        ensures
            c == Config::spec_from_type_value(typ, value),
    {
        match typ {
            ConfigType::Reset => Config::Reset,
            ConfigType::Shutdown => Config::Shutdown,
            ConfigType::SwitchServoPower => Config::SwitchPowerServo(value != 0),
            ConfigType::Switch5VPower => Config::SwitchPower5V(value != 0),
            ConfigType::SwitchCharge => Config::SwitchCharge(value != 0),
            ConfigType::SwitchBatExtOut => Config::SwitchBatExtOut(value != 0),
            ConfigType::ChargeStopSoc => Config::ChargeStopSoc(value as u8),
            ConfigType::TxLogLevel => Config::TxLogLevel(LogLevel::from_u8(value as u8)),
            ConfigType::PowerServoCurrentLimitMa => Config::PowerServoCurrentLimitMa(value),
            ConfigType::PowerServoTempLimit => Config::PowerServoTempLimit(value),
            ConfigType::Power5vTempLimit => Config::Power5vTempLimit(value),
            ConfigType::ChargeMaxCurrentMa => Config::ChargeMaxCurrentMa(value),
            ConfigType::ChargeTempDerating => Config::ChargeTempDerating(value),
            ConfigType::ChargeTempLimit => Config::ChargeTempLimit(value),
            ConfigType::ChargeStopVoltageMv => Config::ChargeStopVoltageMv(value),
        }
    }

    /// Decodes an item payload.
    pub fn from_bytes(data: &[u8]) -> (r: Result<Config, FrameError>)
        ensures
            r == Config::spec_from_bytes(data@),
    {
        if data.len() == 0 {
            return Err(FrameError::PayloadTooShort { expected: 1, got: 0 });
        }
        let config_type = match ConfigType::from_u8(data[0]) {
            Some(t) => t,
            None => return Err(FrameError::PayloadDecode("Unknown config type")),
        };
        match config_type {
            ConfigType::Reset => return Ok(Config::Reset),
            ConfigType::Shutdown => return Ok(Config::Shutdown),
            _ => {},
        }
        if config_type.as_u8() < 0x30 {
            if data.len() < 2 {
                return Err(FrameError::PayloadTooShort { expected: 2, got: data.len() });
            }
            let value = data[1] as u16;
            return Ok(Config::from_type_value(config_type, value));
        }
        if data.len() < 3 {
            return Err(FrameError::PayloadTooShort { expected: 3, got: data.len() });
        }
        let value = read_u16(data, 1);
        Ok(Config::from_type_value(config_type, value))
    }

    /// Encodes this item payload.
    pub fn to_bytes(&self) -> (bytes: Vec<u8>)
        ensures
            bytes@ == self.spec_to_bytes(),
    {
        let mut buf: Vec<u8> = Vec::new();
        buf.push(self.config_type().as_u8());
        match self {
            Config::Reset | Config::Shutdown => {},
            Config::SwitchPowerServo(on) | Config::SwitchPower5V(on) | Config::SwitchCharge(on)
            | Config::SwitchBatExtOut(on) => buf.push(if *on { 1 } else { 0 }),
            _ => push_u16(&mut buf, self.value()),
        }
        proof {
            assert(buf@ =~= self.spec_to_bytes());
        }
        buf
    }
}

/// Building an item from a type and a value word gives an item of that type.
pub proof fn lemma_from_type_value_type(typ: ConfigType, value: u16)
    ensures
        Config::spec_from_type_value(typ, value).spec_config_type() == typ,
{
}

/// An item is rebuilt from its type and value word.
pub proof fn lemma_config_type_value_roundtrip(c: Config)
    ensures
        Config::spec_from_type_value(c.spec_config_type(), c.spec_value()) == c,
{
    match c {
        Config::ChargeStopSoc(v) => {
            assert((v as u16) as u8 == v);
        },
        Config::TxLogLevel(l) => {
            assert((l.spec_as_u8() as u16) as u8 == l.spec_as_u8());
        },
        _ => {},
    }
}

/// Decoding the encoding of an item gives it back.
pub proof fn lemma_config_roundtrip(c: Config)
    ensures
        Config::spec_from_bytes(c.spec_to_bytes()) == Ok::<Config, FrameError>(c),
{
    let b = c.spec_to_bytes();
    lemma_config_type_value_roundtrip(c);
    match c {
        Config::ChargeStopSoc(v) => {
            assert(b[1] == v);
        },
        Config::TxLogLevel(l) => {
            assert(b[1] == l.spec_as_u8());
        },
        Config::Reset | Config::Shutdown => {},
        Config::SwitchPowerServo(_) | Config::SwitchPower5V(_) | Config::SwitchCharge(_)
        | Config::SwitchBatExtOut(_) => {},
        _ => {
            assert(u16_at(b, 1) == c.spec_value());
        },
    }
}

impl ToPayload for Config {
    fn to_payload(&self) -> (bytes: Vec<u8>)
        ensures
            bytes@ == self.spec_to_bytes(),
    {
        self.to_bytes()
    }
}

impl FromPayload for Config {
    open spec fn decodable(payload: Seq<u8>) -> bool {
        true
    }

    fn from_payload(p: &[u8]) -> (r: Result<Config, FrameError>)
        ensures
            r == Config::spec_from_bytes(p@),
    {
        Config::from_bytes(p)
    }
}

/// Length of a configuration snapshot payload.
pub const CONFIG_SNAPSHOT_LEN: usize = 21;

/// Snapshot of the board's whole configuration.
#[derive(Debug, Clone, Copy, PartialEq, Eq, Structural)]
pub struct BoardConfigSnapshot {
    pub servo_current_limit_ma: u16,
    pub servo_temp_limit: u16,
    pub temp_5v_limit: u16,
    pub charge_max_current_ma: u16,
    pub charge_temp_derating: u16,
    pub charge_temp_limit: u16,
    pub charge_stop_voltage_mv: u16,
    /// 1 to 100.
    pub charge_stop_percentage: u8,
    pub charge_enable: bool,
    pub power_servo_on: bool,
    pub power_5v_on: bool,
    pub charge_on: bool,
    pub bat_ext_out_on: bool,
    pub tx_log_level: LogLevel,
}

impl Default for BoardConfigSnapshot {
    fn default() -> (s: BoardConfigSnapshot)
        ensures
            s == BoardConfigSnapshot::spec_default(),
    {
        BoardConfigSnapshot {
            servo_current_limit_ma: 50,
            servo_temp_limit: 800,
            temp_5v_limit: 700,
            charge_max_current_ma: 90,
            charge_temp_derating: 600,
            charge_temp_limit: 700,
            charge_stop_voltage_mv: 168,
            charge_stop_percentage: 100,
            charge_enable: true,
            power_servo_on: true,
            power_5v_on: true,
            charge_on: true,
            bat_ext_out_on: true,
            tx_log_level: LogLevel::Info,
        }
    }
}

impl BoardConfigSnapshot {
    /// The board's factory configuration.
    pub open spec fn spec_default() -> BoardConfigSnapshot {
        BoardConfigSnapshot {
            servo_current_limit_ma: 50,
            servo_temp_limit: 800,
            temp_5v_limit: 700,
            charge_max_current_ma: 90,
            charge_temp_derating: 600,
            charge_temp_limit: 700,
            charge_stop_voltage_mv: 168,
            charge_stop_percentage: 100,
            charge_enable: true,
            power_servo_on: true,
            power_5v_on: true,
            charge_on: true,
            bat_ext_out_on: true,
            tx_log_level: LogLevel::Info,
        }
    }

    /// The payload bytes of a snapshot.
    pub open spec fn spec_to_bytes(self) -> Seq<u8> {
        u16_le(self.servo_current_limit_ma) + u16_le(self.servo_temp_limit) + u16_le(self.temp_5v_limit) + u16_le(self.charge_max_current_ma) + u16_le(self.charge_temp_derating) + u16_le(self.charge_temp_limit) + u16_le(self.charge_stop_voltage_mv) + seq![self.charge_stop_percentage] + seq![if self.charge_enable { 1u8 } else { 0u8 }, if self.power_servo_on { 1u8 } else { 0u8 }, if self.power_5v_on { 1u8 } else { 0u8 }, if self.charge_on { 1u8 } else { 0u8 }, if self.bat_ext_out_on { 1u8 } else { 0u8 }, self.tx_log_level.spec_as_u8()]
    }

    /// Result of decoding a snapshot payload; bytes after the first 21 are
    /// ignored.
    pub open spec fn spec_from_bytes(data: Seq<u8>) -> Result<BoardConfigSnapshot, FrameError> {
        if data.len() < 21 {
            Err(FrameError::PayloadTooShort { expected: 21, got: data.len() as usize })
        } else {
            Ok(
                BoardConfigSnapshot {
                    servo_current_limit_ma: u16_at(data, 0),
                    servo_temp_limit: u16_at(data, 2),
                    temp_5v_limit: u16_at(data, 4),
                    charge_max_current_ma: u16_at(data, 6),
                    charge_temp_derating: u16_at(data, 8),
                    charge_temp_limit: u16_at(data, 10),
                    charge_stop_voltage_mv: u16_at(data, 12),
                    charge_stop_percentage: data[14],
                    charge_enable: data[15] != 0,
                    power_servo_on: data[16] != 0,
                    power_5v_on: data[17] != 0,
                    charge_on: data[18] != 0,
                    bat_ext_out_on: data[19] != 0,
                    tx_log_level: LogLevel::spec_from_u8(data[20]),
                },
            )
        }
    }

    /// Decodes a snapshot payload.
    pub fn from_bytes(data: &[u8]) -> (r: Result<BoardConfigSnapshot, FrameError>)
        ensures
            r == BoardConfigSnapshot::spec_from_bytes(data@),
    {
        if data.len() < 21 {
            return Err(FrameError::PayloadTooShort { expected: 21, got: data.len() });
        }
        Ok(BoardConfigSnapshot {
            servo_current_limit_ma: read_u16(data, 0),
            servo_temp_limit: read_u16(data, 2),
            temp_5v_limit: read_u16(data, 4),
            charge_max_current_ma: read_u16(data, 6),
            charge_temp_derating: read_u16(data, 8),
            charge_temp_limit: read_u16(data, 10),
            charge_stop_voltage_mv: read_u16(data, 12),
            charge_stop_percentage: data[14],
            charge_enable: data[15] != 0,
            power_servo_on: data[16] != 0,
            power_5v_on: data[17] != 0,
            charge_on: data[18] != 0,
            bat_ext_out_on: data[19] != 0,
            tx_log_level: LogLevel::from_u8(data[20]),
        })
    }

    /// Encodes this snapshot payload.
    pub fn to_bytes(&self) -> (bytes: Vec<u8>)
        ensures
            bytes@ == self.spec_to_bytes(),
    {
        let mut buf: Vec<u8> = Vec::new();
        push_u16(&mut buf, self.servo_current_limit_ma);
        push_u16(&mut buf, self.servo_temp_limit);
        push_u16(&mut buf, self.temp_5v_limit);
        push_u16(&mut buf, self.charge_max_current_ma);
        push_u16(&mut buf, self.charge_temp_derating);
        push_u16(&mut buf, self.charge_temp_limit);
        push_u16(&mut buf, self.charge_stop_voltage_mv);
        buf.push(self.charge_stop_percentage);
        buf.push(if self.charge_enable { 1 } else { 0 });
        buf.push(if self.power_servo_on { 1 } else { 0 });
        buf.push(if self.power_5v_on { 1 } else { 0 });
        buf.push(if self.charge_on { 1 } else { 0 });
        buf.push(if self.bat_ext_out_on { 1 } else { 0 });
        buf.push(self.tx_log_level.as_u8());
        proof {
            assert(buf@ =~= self.spec_to_bytes());
        }
        buf
    }
}

/// Decoding the encoding of a snapshot gives it back.
pub proof fn lemma_config_snapshot_roundtrip(c: BoardConfigSnapshot)
    ensures
        c.spec_to_bytes().len() == 21,
        BoardConfigSnapshot::spec_from_bytes(c.spec_to_bytes()) == Ok::<
            BoardConfigSnapshot,
            FrameError,
        >(c),
{
    let b = c.spec_to_bytes();
    assert(b.len() == 21);
    assert(u16_at(b, 0) == c.servo_current_limit_ma);
    assert(u16_at(b, 2) == c.servo_temp_limit);
    assert(u16_at(b, 4) == c.temp_5v_limit);
    assert(u16_at(b, 6) == c.charge_max_current_ma);
    assert(u16_at(b, 8) == c.charge_temp_derating);
    assert(u16_at(b, 10) == c.charge_temp_limit);
    assert(u16_at(b, 12) == c.charge_stop_voltage_mv);
    assert(b[14] == c.charge_stop_percentage);
}

impl ToPayload for BoardConfigSnapshot {
    fn to_payload(&self) -> (bytes: Vec<u8>)
        ensures
            bytes@ == self.spec_to_bytes(),
    {
        self.to_bytes()
    }
}

impl FromPayload for BoardConfigSnapshot {
    open spec fn decodable(payload: Seq<u8>) -> bool {
        true
    }

    fn from_payload(p: &[u8]) -> (r: Result<BoardConfigSnapshot, FrameError>)
        ensures
            r == BoardConfigSnapshot::spec_from_bytes(p@),
    {
        BoardConfigSnapshot::from_bytes(p)
    }
}

/// Every configuration item has the identifier the protocol assigns: 0x01
/// reset, 0x02 shutdown, 0x10 to 0x13 the servo, 5V, charge and battery
/// extra-output switches, 0x20 the charge stop level, 0x21 the log level,
/// 0x30 to 0x36 the servo current limit, servo temperature limit, 5V
/// temperature limit, maximum charge current, charge derating temperature,
/// charge cut-off temperature and charge stop voltage; no other byte names an
/// item.
pub proof fn lemma_config_type_codes(v: u8)
    ensures
        (ConfigType::spec_from_u8(v) == Some(ConfigType::Reset)) <==> v == 0x01,
        (ConfigType::spec_from_u8(v) == Some(ConfigType::Shutdown)) <==> v == 0x02,
        (ConfigType::spec_from_u8(v) == Some(ConfigType::SwitchServoPower)) <==> v == 0x10,
        (ConfigType::spec_from_u8(v) == Some(ConfigType::Switch5VPower)) <==> v == 0x11,
        (ConfigType::spec_from_u8(v) == Some(ConfigType::SwitchCharge)) <==> v == 0x12,
        (ConfigType::spec_from_u8(v) == Some(ConfigType::SwitchBatExtOut)) <==> v == 0x13,
        (ConfigType::spec_from_u8(v) == Some(ConfigType::ChargeStopSoc)) <==> v == 0x20,
        (ConfigType::spec_from_u8(v) == Some(ConfigType::TxLogLevel)) <==> v == 0x21,
        (ConfigType::spec_from_u8(v) == Some(ConfigType::PowerServoCurrentLimitMa)) <==> v == 0x30,
        (ConfigType::spec_from_u8(v) == Some(ConfigType::PowerServoTempLimit)) <==> v == 0x31,
        (ConfigType::spec_from_u8(v) == Some(ConfigType::Power5vTempLimit)) <==> v == 0x32,
        (ConfigType::spec_from_u8(v) == Some(ConfigType::ChargeMaxCurrentMa)) <==> v == 0x33,
        (ConfigType::spec_from_u8(v) == Some(ConfigType::ChargeTempDerating)) <==> v == 0x34,
        (ConfigType::spec_from_u8(v) == Some(ConfigType::ChargeTempLimit)) <==> v == 0x35,
        (ConfigType::spec_from_u8(v) == Some(ConfigType::ChargeStopVoltageMv)) <==> v == 0x36,
        ConfigType::spec_from_u8(v) is None <==> !(v == 0x01 || v == 0x02 || v == 0x10 || v == 0x11 || v == 0x12 || v == 0x13 || v == 0x20 || v == 0x21 || v == 0x30 || v == 0x31 || v == 0x32 || v == 0x33 || v == 0x34 || v == 0x35 || v == 0x36),
        ConfigType::Reset.spec_as_u8() == 0x01,
        ConfigType::Shutdown.spec_as_u8() == 0x02,
        ConfigType::SwitchServoPower.spec_as_u8() == 0x10,
        ConfigType::Switch5VPower.spec_as_u8() == 0x11,
        ConfigType::SwitchCharge.spec_as_u8() == 0x12,
        ConfigType::SwitchBatExtOut.spec_as_u8() == 0x13,
        ConfigType::ChargeStopSoc.spec_as_u8() == 0x20,
        ConfigType::TxLogLevel.spec_as_u8() == 0x21,
        ConfigType::PowerServoCurrentLimitMa.spec_as_u8() == 0x30,
        ConfigType::PowerServoTempLimit.spec_as_u8() == 0x31,
        ConfigType::Power5vTempLimit.spec_as_u8() == 0x32,
        ConfigType::ChargeMaxCurrentMa.spec_as_u8() == 0x33,
        ConfigType::ChargeTempDerating.spec_as_u8() == 0x34,
        ConfigType::ChargeTempLimit.spec_as_u8() == 0x35,
        ConfigType::ChargeStopVoltageMv.spec_as_u8() == 0x36,
{
}

} // verus!
