//! Board commands: reset, shutdown, power switches and the three RGB
//! indicator LEDs, with their display texts; and the board's reset reasons.

use vstd::prelude::*;
use crate::protocol::text::{append_decimal, spec_decimal};

verus! {

/// Colour of one WS2812 LED.
#[derive(Debug, Clone, Copy, Default, PartialEq, Eq, Structural)]
pub struct RgbLed {
    pub r: u8,
    pub g: u8,
    pub b: u8,
}

impl RgbLed {
    // The named colours.
    #[allow(non_snake_case)]
    pub fn OFF() -> (led: RgbLed)
        ensures
            led == (RgbLed { r: 0, g: 0, b: 0 }),
    {
        RgbLed { r: 0, g: 0, b: 0 }
    }
    #[allow(non_snake_case)]
    pub fn RED() -> (led: RgbLed)
        ensures
            led == (RgbLed { r: 255, g: 0, b: 0 }),
    {
        RgbLed { r: 255, g: 0, b: 0 }
    }
    #[allow(non_snake_case)]
    pub fn GREEN() -> (led: RgbLed)
        ensures
            led == (RgbLed { r: 0, g: 255, b: 0 }),
    {
        RgbLed { r: 0, g: 255, b: 0 }
    }
    #[allow(non_snake_case)]
    pub fn BLUE() -> (led: RgbLed)
        ensures
            led == (RgbLed { r: 0, g: 0, b: 255 }),
    {
        RgbLed { r: 0, g: 0, b: 255 }
    }
    #[allow(non_snake_case)]
    pub fn WHITE() -> (led: RgbLed)
        ensures
            led == (RgbLed { r: 255, g: 255, b: 255 }),
    {
        RgbLed { r: 255, g: 255, b: 255 }
    }
    #[allow(non_snake_case)]
    pub fn YELLOW() -> (led: RgbLed)
        ensures
            led == (RgbLed { r: 255, g: 255, b: 0 }),
    {
        RgbLed { r: 255, g: 255, b: 0 }
    }
    #[allow(non_snake_case)]
    pub fn CYAN() -> (led: RgbLed)
        ensures
            led == (RgbLed { r: 0, g: 255, b: 255 }),
    {
        RgbLed { r: 0, g: 255, b: 255 }
    }
    #[allow(non_snake_case)]
    pub fn ORANGE() -> (led: RgbLed)
        ensures
            led == (RgbLed { r: 255, g: 128, b: 0 }),
    {
        RgbLed { r: 255, g: 128, b: 0 }
    }

    pub fn new(r: u8, g: u8, b: u8) -> (led: RgbLed)
        ensures
            led == (RgbLed { r, g, b }),
    {
        RgbLed { r, g, b }
    }
}

/// Command identifier.
#[derive(Debug, Clone, Copy, PartialEq, Eq, Structural)]
pub enum CommandType {
    Reset,
    Shutdown,
    /// Turn the servo power on or off.
    SwitchServoPower,
    /// Turn the 5V output on or off.
    Switch5VPower,
    /// Turn battery charging on or off.
    SwitchCharge,
    /// Turn the battery's extra output on or off.
    SwitchBatExtOut,
    /// Set the colours of the three RGB LEDs.
    SetRGB,
}

impl CommandType {
    /// The command that byte `v` identifies, if any: 1 to 7 in the order of
    /// the variants.
    pub open spec fn spec_from_u8(v: u8) -> Option<CommandType> {
        if v == 1 {
            Some(CommandType::Reset)
        } else if v == 2 {
            Some(CommandType::Shutdown)
        } else if v == 3 {
            Some(CommandType::SwitchServoPower)
        } else if v == 4 {
            Some(CommandType::Switch5VPower)
        } else if v == 5 {
            Some(CommandType::SwitchCharge)
        } else if v == 6 {
            Some(CommandType::SwitchBatExtOut)
        } else if v == 7 {
            Some(CommandType::SetRGB)
        } else {
            None
        }
    }

    /// The byte of a command.
    pub open spec fn spec_as_u8(self) -> u8 {
        match self {
            CommandType::Reset => 1,
            CommandType::Shutdown => 2,
            CommandType::SwitchServoPower => 3,
            CommandType::Switch5VPower => 4,
            CommandType::SwitchCharge => 5,
            CommandType::SwitchBatExtOut => 6,
            CommandType::SetRGB => 7,
        }
    }

    pub open spec fn spec_name(self) -> Seq<char> {
        match self {
            CommandType::Reset => "Reset all device"@,
            CommandType::Shutdown => "Shutdown all device"@,
            CommandType::SwitchServoPower => "Turn the servo power on or off"@,
            CommandType::Switch5VPower => "Turn on or off 5V output"@,
            CommandType::SwitchCharge => "Turn the battery on or off to charge"@,
            CommandType::SwitchBatExtOut => "Turn the battery on or off for extra output"@,
            CommandType::SetRGB => "Set 3 RGB indicator colors"@,
        }
    }

    /// The command that byte `v` identifies, if any.
    pub fn from_u8(v: u8) -> (t: Option<CommandType>)
        ensures
            t == CommandType::spec_from_u8(v),
    {
        match v {
            0x01 => Some(CommandType::Reset),
            0x02 => Some(CommandType::Shutdown),
            0x03 => Some(CommandType::SwitchServoPower),
            0x04 => Some(CommandType::Switch5VPower),
            0x05 => Some(CommandType::SwitchCharge),
            0x06 => Some(CommandType::SwitchBatExtOut),
            0x07 => Some(CommandType::SetRGB),
            _ => None,
        }
    }

    /// The byte of this command.
    pub fn as_u8(&self) -> (v: u8)
        ensures
            v == self.spec_as_u8(),
    {
        match self {
            CommandType::Reset => 0x01,
            CommandType::Shutdown => 0x02,
            CommandType::SwitchServoPower => 0x03,
            CommandType::Switch5VPower => 0x04,
            CommandType::SwitchCharge => 0x05,
            CommandType::SwitchBatExtOut => 0x06,
            CommandType::SetRGB => 0x07,
        }
    }

    /// Description of the command.
    pub fn name(&self) -> (s: &'static str)
        ensures
            s@ == self.spec_name(),
    {
        match self {
            CommandType::Reset => "Reset all device",
            CommandType::Shutdown => "Shutdown all device",
            CommandType::SwitchServoPower => "Turn the servo power on or off",
            CommandType::Switch5VPower => "Turn on or off 5V output",
            CommandType::SwitchCharge => "Turn the battery on or off to charge",
            CommandType::SwitchBatExtOut => "Turn the battery on or off for extra output",
            CommandType::SetRGB => "Set 3 RGB indicator colors",
        }
    }

    /// The description as an owned string.
    pub fn to_string(&self) -> (s: String)
        ensures
            s@ == self.spec_name(),
    {
        self.name().to_owned()
    }
}

/// A command with its arguments.
#[derive(Debug, Clone, Copy, PartialEq, Eq)]
pub enum Command {
    Reset,
    Shutdown,
    SwitchServoPower(bool),
    Switch5VPower(bool),
    SwitchCharge(bool),
    SwitchBatExtOut(bool),
    SetRGB([RgbLed; 3]),
}

/// "ON" or "OFF".
pub open spec fn spec_on_off(on: bool) -> Seq<char> {
    if on {
        "ON"@
    } else {
        "OFF"@
    }
}

/// The text of one LED inside `Set RGB`: its three components, comma
/// separated, in brackets.
pub open spec fn spec_led_text(led: RgbLed) -> Seq<char> {
    "["@ + spec_decimal(led.r as nat) + ","@ + spec_decimal(led.g as nat) + ","@ + spec_decimal(
        led.b as nat,
    ) + "]"@
}

/// Appends the text of one LED.
fn append_led(s: &mut String, led: &RgbLed)
    ensures
        final(s)@ == old(s)@ + spec_led_text(*led),
{
    s.append("[");
    append_decimal(s, led.r as u64);
    s.append(",");
    append_decimal(s, led.g as u64);
    s.append(",");
    append_decimal(s, led.b as u64);
    s.append("]");
    proof {
        assert(final(s)@ =~= old(s)@ + spec_led_text(*led));
    }
}

impl Command {
    pub open spec fn spec_command_type(self) -> CommandType {
        match self {
            Command::Reset => CommandType::Reset,
            Command::Shutdown => CommandType::Shutdown,
            Command::SwitchServoPower(_) => CommandType::SwitchServoPower,
            Command::Switch5VPower(_) => CommandType::Switch5VPower,
            Command::SwitchCharge(_) => CommandType::SwitchCharge,
            Command::SwitchBatExtOut(_) => CommandType::SwitchBatExtOut,
            Command::SetRGB(_) => CommandType::SetRGB,
        }
    }

    /// The text shown for a command: its action, with ON or OFF for a
    /// switch and the three colours for the LEDs.
    pub open spec fn spec_display(self) -> Seq<char> {
        match self {
            Command::Reset => "Reset all device"@,
            Command::Shutdown => "Shutdown all device"@,
            Command::SwitchServoPower(on) => "Switch Servo Power: "@ + spec_on_off(on),
            Command::Switch5VPower(on) => "Switch 5V Power: "@ + spec_on_off(on),
            Command::SwitchCharge(on) => "Switch Charge: "@ + spec_on_off(on),
            Command::SwitchBatExtOut(on) => "Switch Battery Extra Output: "@ + spec_on_off(on),
            Command::SetRGB(leds) => "Set RGB: "@ + spec_led_text(leds@[0]) + " "@ + spec_led_text(
                leds@[1],
            ) + " "@ + spec_led_text(leds@[2]),
        }
    }

    /// The command's identifier.
    pub fn command_type(&self) -> (t: CommandType)
        ensures
            t == self.spec_command_type(),
    {
        match self {
            Command::Reset => CommandType::Reset,
            Command::Shutdown => CommandType::Shutdown,
            Command::SwitchServoPower(_) => CommandType::SwitchServoPower,
            Command::Switch5VPower(_) => CommandType::Switch5VPower,
            Command::SwitchCharge(_) => CommandType::SwitchCharge,
            Command::SwitchBatExtOut(_) => CommandType::SwitchBatExtOut,
            Command::SetRGB(_) => CommandType::SetRGB,
        }
    }

    /// The text shown for this command (see `spec_display`).
    pub fn to_string(&self) -> (s: String)
        ensures
            s@ == self.spec_display(),
    {
        let mut s = String::new();
        match self {
            Command::Reset => s.append("Reset all device"),
            Command::Shutdown => s.append("Shutdown all device"),
            Command::SwitchServoPower(on) => {
                s.append("Switch Servo Power: ");
                s.append(on_off(*on));
            },
            Command::Switch5VPower(on) => {
                s.append("Switch 5V Power: ");
                s.append(on_off(*on));
            },
            Command::SwitchCharge(on) => {
                s.append("Switch Charge: ");
                s.append(on_off(*on));
            },
            Command::SwitchBatExtOut(on) => {
                s.append("Switch Battery Extra Output: ");
                s.append(on_off(*on));
            },
            Command::SetRGB(leds) => {
                s.append("Set RGB: ");
                append_led(&mut s, &leds[0]);
                s.append(" ");
                append_led(&mut s, &leds[1]);
                s.append(" ");
                append_led(&mut s, &leds[2]);
            },
        }
        proof {
            assert(s@ =~= self.spec_display());
        }
        s
    }
}

/// "ON" or "OFF".
fn on_off(on: bool) -> (s: &'static str)
    ensures
        s@ == spec_on_off(on),
{
    if on {
        "ON"
    } else {
        "OFF"
    }
}

/// Why the board last reset.
#[derive(Debug, Clone, Copy, PartialEq, Eq, Default, Structural)]
pub enum ResetReason {
    #[default]
    Unknown,
    /// Independent watchdog.
    Watchdog,
    /// Window watchdog.
    WindowWdg,
    Software,
    PowerOn,
    /// NRST pin.
    PinReset,
    /// Brown-out.
    BrownOut,
}

impl ResetReason {
    /// The reason that byte `v` denotes: 1 to 6 in the order of the
    /// variants after `Unknown`, any other byte `Unknown`.
    pub open spec fn spec_from_u8(v: u8) -> ResetReason {
        if v == 1 {
            ResetReason::Watchdog
        } else if v == 2 {
            ResetReason::WindowWdg
        } else if v == 3 {
            ResetReason::Software
        } else if v == 4 {
            ResetReason::PowerOn
        } else if v == 5 {
            ResetReason::PinReset
        } else if v == 6 {
            ResetReason::BrownOut
        } else {
            ResetReason::Unknown
        }
    }

    pub open spec fn spec_description(self) -> Seq<char> {
        match self {
            ResetReason::Unknown => "Unknown"@,
            ResetReason::Watchdog => "Independent Watchdog Reset"@,
            ResetReason::WindowWdg => "Window Watchdog Reset"@,
            ResetReason::Software => "Software Reset (NVIC)"@,
            ResetReason::PowerOn => "Power-On Reset"@,
            ResetReason::PinReset => "NRST Pin Reset"@,
            ResetReason::BrownOut => "Brown-Out Reset"@,
        }
    }

    /// The reason that byte `v` denotes.
    pub fn from_u8(v: u8) -> (r: ResetReason)
        ensures
            r == ResetReason::spec_from_u8(v),
    {
        match v {
            1 => ResetReason::Watchdog,
            2 => ResetReason::WindowWdg,
            3 => ResetReason::Software,
            4 => ResetReason::PowerOn,
            5 => ResetReason::PinReset,
            6 => ResetReason::BrownOut,
            _ => ResetReason::Unknown,
        }
    }

    /// Description of the reason.
    pub fn description(&self) -> (s: &'static str)
        ensures
            s@ == self.spec_description(),
    {
        match self {
            ResetReason::Unknown => "Unknown",
            ResetReason::Watchdog => "Independent Watchdog Reset",
            ResetReason::WindowWdg => "Window Watchdog Reset",
            ResetReason::Software => "Software Reset (NVIC)",
            ResetReason::PowerOn => "Power-On Reset",
            ResetReason::PinReset => "NRST Pin Reset",
            ResetReason::BrownOut => "Brown-Out Reset",
        }
    }
}

/// Every command byte names the command whose byte it is, and back.
pub proof fn lemma_command_type_byte_roundtrip(t: CommandType, v: u8)
    ensures
        CommandType::spec_from_u8(t.spec_as_u8()) == Some(t),
        CommandType::spec_from_u8(v) matches Some(u) ==> u.spec_as_u8() == v,
{
}

/// The command bytes are: 1 reset, 2 shutdown, 3 servo power switch, 4 5V
/// output switch, 5 charge switch, 6 battery extra-output switch, 7 RGB LED
/// colours; no other byte names a command.
pub proof fn lemma_command_type_codes(v: u8)
    ensures
        (CommandType::spec_from_u8(v) == Some(CommandType::Reset)) <==> v == 1,
        (CommandType::spec_from_u8(v) == Some(CommandType::Shutdown)) <==> v == 2,
        (CommandType::spec_from_u8(v) == Some(CommandType::SwitchServoPower)) <==> v == 3,
        (CommandType::spec_from_u8(v) == Some(CommandType::Switch5VPower)) <==> v == 4,
        (CommandType::spec_from_u8(v) == Some(CommandType::SwitchCharge)) <==> v == 5,
        (CommandType::spec_from_u8(v) == Some(CommandType::SwitchBatExtOut)) <==> v == 6,
        (CommandType::spec_from_u8(v) == Some(CommandType::SetRGB)) <==> v == 7,
        CommandType::spec_from_u8(v) is None <==> (v == 0 || v > 7),
        CommandType::Reset.spec_as_u8() == 1,
        CommandType::Shutdown.spec_as_u8() == 2,
        CommandType::SwitchServoPower.spec_as_u8() == 3,
        CommandType::Switch5VPower.spec_as_u8() == 4,
        CommandType::SwitchCharge.spec_as_u8() == 5,
        CommandType::SwitchBatExtOut.spec_as_u8() == 6,
        CommandType::SetRGB.spec_as_u8() == 7,
{
}

/// The reset-reason bytes are: 1 independent watchdog, 2 window watchdog, 3
/// software, 4 power-on, 5 NRST pin, 6 brown-out; anything else is unknown.
pub proof fn lemma_reset_reason_codes(v: u8)
    ensures
        (ResetReason::spec_from_u8(v) == ResetReason::Watchdog) <==> v == 1,
        (ResetReason::spec_from_u8(v) == ResetReason::WindowWdg) <==> v == 2,
        (ResetReason::spec_from_u8(v) == ResetReason::Software) <==> v == 3,
        (ResetReason::spec_from_u8(v) == ResetReason::PowerOn) <==> v == 4,
        (ResetReason::spec_from_u8(v) == ResetReason::PinReset) <==> v == 5,
        (ResetReason::spec_from_u8(v) == ResetReason::BrownOut) <==> v == 6,
        (ResetReason::spec_from_u8(v) == ResetReason::Unknown) <==> (v == 0 || v > 6),
{
}

} // verus!
