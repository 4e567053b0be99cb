//! Service requests of the bridge, read into configuration items.

use vstd::prelude::*;
use crate::protocol::config::Config;
use crate::protocol::text::{append_hex, spec_hex};

verus! {

/// The switch that a switch request names: 0x10 the servo power, 0x11 the
/// 5V output, 0x12 charging, 0x13 the battery's extra output.
pub open spec fn spec_switch_config(switch_type: u8, enable: bool) -> Option<Config> {
    if switch_type == 0x10 {
        Some(Config::SwitchPowerServo(enable))
    } else if switch_type == 0x11 {
        Some(Config::SwitchPower5V(enable))
    } else if switch_type == 0x12 {
        Some(Config::SwitchCharge(enable))
    } else if switch_type == 0x13 {
        Some(Config::SwitchBatExtOut(enable))
    } else {
        None
    }
}

/// The configuration item that a switch request sets, or `None` for a
/// switch type the board does not have.
pub fn switch_config(switch_type: u8, enable: bool) -> (c: Option<Config>)
    ensures
        c == spec_switch_config(switch_type, enable),
{
    match switch_type {
        0x10 => Some(Config::SwitchPowerServo(enable)),
        0x11 => Some(Config::SwitchPower5V(enable)),
        0x12 => Some(Config::SwitchCharge(enable)),
        0x13 => Some(Config::SwitchBatExtOut(enable)),
        _ => None,
    }
}

/// The answer to a request naming an unknown type: `Invalid `, the kind of
/// type, ` type: 0x` and the byte in two upper-case hexadecimal digits.
pub open spec fn spec_invalid_type_text(kind: Seq<char>, v: u8) -> Seq<char> {
    "Invalid "@ + kind + " type: 0x"@ + spec_hex(v as nat, 2, true)
}

/// The answer to a request naming an unknown type (see
/// `spec_invalid_type_text`); `kind` is `config` or `switch`.
pub fn invalid_type_text(kind: &str, v: u8) -> (s: String)
    ensures
        s@ == spec_invalid_type_text(kind@, v),
{
    let mut s = String::new();
    s.append("Invalid ");
    s.append(kind);
    s.append(" type: 0x");
    append_hex(&mut s, v as u64, 2, true);
    proof {
        assert(s@ =~= spec_invalid_type_text(kind@, v));
    }
    s
}

/// The time stamp of a board log message forwarded to ROS, from the host's
/// Unix time `ts` in milliseconds: the seconds, truncated to 32 bits, and the
/// nanoseconds within the second.
pub fn log_stamp(ts: u64) -> (stamp: (i32, u32))
    ensures
        stamp.0 == (ts / 1000) as i32,
        stamp.1 == (ts % 1000) * 1_000_000,
{
    let secs = ts / 1000;
    let ms = ts % 1000;
    (secs as i32, (ms * 1_000_000) as u32)
}

/// The value a configuration query answers with: the item's value word,
/// taken as signed.
pub fn query_value(config: &Config) -> (v: i16)
    ensures
        v == config.spec_value() as i16,
{
    config.value() as i16
}

} // verus!
