//! Battery state.
//!
//! Payload layout: a 17-byte header (voltage, current, capacity, design
//! capacity, percentage, temperature, status, health, technology, presence,
//! serial number) followed by 4 bytes per cell (voltage, temperature). A
//! payload shorter than 20 bytes is rejected.

use vstd::prelude::*;
use crate::protocol::error::FrameError;
use crate::protocol::frame::{FromPayload, ToPayload};
use crate::protocol::wire::{
    i16_at, i16_le, lemma_i16_bits, push_i16, push_u16, read_i16, read_u16, u16_at, u16_le,
};

verus! {

/// Charging status of the battery.
#[derive(Debug, Clone, Copy, PartialEq, Eq, Default, Structural)]
pub enum BatteryChargeStatus {
    #[default]
    Unknown,
    Charging,
    Discharging,
    NotCharging,
    Full,
}

impl BatteryChargeStatus {
    pub open spec fn spec_from_u8(v: u8) -> BatteryChargeStatus {
        if v == 1 {
            BatteryChargeStatus::Charging
        } else if v == 2 {
            BatteryChargeStatus::Discharging
        } else if v == 3 {
            BatteryChargeStatus::NotCharging
        } else if v == 4 {
            BatteryChargeStatus::Full
        } else {
            BatteryChargeStatus::Unknown
        }
    }

    pub open spec fn spec_as_u8(self) -> u8 {
        match self {
            BatteryChargeStatus::Unknown => 0,
            BatteryChargeStatus::Charging => 1,
            BatteryChargeStatus::Discharging => 2,
            BatteryChargeStatus::NotCharging => 3,
            BatteryChargeStatus::Full => 4,
        }
    }

    /// Decodes a byte; unassigned bytes give `Unknown`.
    pub fn from_u8(v: u8) -> (s: BatteryChargeStatus)
        ensures
            s == BatteryChargeStatus::spec_from_u8(v),
    {
        match v {
            1 => BatteryChargeStatus::Charging,
            2 => BatteryChargeStatus::Discharging,
            3 => BatteryChargeStatus::NotCharging,
            4 => BatteryChargeStatus::Full,
            _ => BatteryChargeStatus::Unknown,
        }
    }

    /// The number of this value.
    pub fn as_u8(&self) -> (v: u8)
        ensures
            v == self.spec_as_u8(),
    {
        match self {
            BatteryChargeStatus::Unknown => 0,
            BatteryChargeStatus::Charging => 1,
            BatteryChargeStatus::Discharging => 2,
            BatteryChargeStatus::NotCharging => 3,
            BatteryChargeStatus::Full => 4,
        }
    }
}

/// Health of the battery.
#[derive(Debug, Clone, Copy, PartialEq, Eq, Default, Structural)]
pub enum BatteryHealth {
    #[default]
    Unknown,
    Good,
    Overheat,
    Dead,
    Overvoltage,
}

impl BatteryHealth {
    pub open spec fn spec_from_u8(v: u8) -> BatteryHealth {
        if v == 1 {
            BatteryHealth::Good
        } else if v == 2 {
            BatteryHealth::Overheat
        } else if v == 3 {
            BatteryHealth::Dead
        } else if v == 4 {
            BatteryHealth::Overvoltage
        } else {
            BatteryHealth::Unknown
        }
    }

    pub open spec fn spec_as_u8(self) -> u8 {
        match self {
            BatteryHealth::Unknown => 0,
            BatteryHealth::Good => 1,
            BatteryHealth::Overheat => 2,
            BatteryHealth::Dead => 3,
            BatteryHealth::Overvoltage => 4,
        }
    }

    /// Decodes a byte; unassigned bytes give `Unknown`.
    pub fn from_u8(v: u8) -> (s: BatteryHealth)
        ensures
            s == BatteryHealth::spec_from_u8(v),
    {
        match v {
            1 => BatteryHealth::Good,
            2 => BatteryHealth::Overheat,
            3 => BatteryHealth::Dead,
            4 => BatteryHealth::Overvoltage,
            _ => BatteryHealth::Unknown,
        }
    }

    /// The number of this value.
    pub fn as_u8(&self) -> (v: u8)
        ensures
            v == self.spec_as_u8(),
    {
        match self {
            BatteryHealth::Unknown => 0,
            BatteryHealth::Good => 1,
            BatteryHealth::Overheat => 2,
            BatteryHealth::Dead => 3,
            BatteryHealth::Overvoltage => 4,
        }
    }
}

/// Cell chemistry of the battery.
#[derive(Debug, Clone, Copy, PartialEq, Eq, Default, Structural)]
pub enum BatteryTechnology {
    #[default]
    Unknown,
    NiMh,
    LiOn,
    LiPo,
    LiFe,
    NiCd,
    LiMn,
}

impl BatteryTechnology {
    pub open spec fn spec_from_u8(v: u8) -> BatteryTechnology {
        if v == 1 {
            BatteryTechnology::NiMh
        } else if v == 2 {
            BatteryTechnology::LiOn
        } else if v == 3 {
            BatteryTechnology::LiPo
        } else if v == 4 {
            BatteryTechnology::LiFe
        } else if v == 5 {
            BatteryTechnology::NiCd
        } else if v == 6 {
            BatteryTechnology::LiMn
        } else {
            BatteryTechnology::Unknown
        }
    }

    pub open spec fn spec_as_u8(self) -> u8 {
        match self {
            BatteryTechnology::Unknown => 0,
            BatteryTechnology::NiMh => 1,
            BatteryTechnology::LiOn => 2,
            BatteryTechnology::LiPo => 3,
            BatteryTechnology::LiFe => 4,
            BatteryTechnology::NiCd => 5,
            BatteryTechnology::LiMn => 6,
        }
    }

    /// Decodes a byte; unassigned bytes give `Unknown`.
    pub fn from_u8(v: u8) -> (s: BatteryTechnology)
        ensures
            s == BatteryTechnology::spec_from_u8(v),
    {
        match v {
            1 => BatteryTechnology::NiMh,
            2 => BatteryTechnology::LiOn,
            3 => BatteryTechnology::LiPo,
            4 => BatteryTechnology::LiFe,
            5 => BatteryTechnology::NiCd,
            6 => BatteryTechnology::LiMn,
            _ => BatteryTechnology::Unknown,
        }
    }

    /// The number of this value.
    pub fn as_u8(&self) -> (v: u8)
        ensures
            v == self.spec_as_u8(),
    {
        match self {
            BatteryTechnology::Unknown => 0,
            BatteryTechnology::NiMh => 1,
            BatteryTechnology::LiOn => 2,
            BatteryTechnology::LiPo => 3,
            BatteryTechnology::LiFe => 4,
            BatteryTechnology::NiCd => 5,
            BatteryTechnology::LiMn => 6,
        }
    }
}

/// Every byte names a status and every status has a number that names it.
pub proof fn lemma_battery_enums_roundtrip(
    s: BatteryChargeStatus,
    h: BatteryHealth,
    t: BatteryTechnology,
)
    ensures
        BatteryChargeStatus::spec_from_u8(s.spec_as_u8()) == s,
        BatteryHealth::spec_from_u8(h.spec_as_u8()) == h,
        BatteryTechnology::spec_from_u8(t.spec_as_u8()) == t,
{
}

/// Length of the fixed part of a battery payload.
pub const BATTERY_HEADER_LEN: usize = 17;

/// Minimum length of a battery payload.
pub const BATTERY_MIN_LEN: usize = 20;

/// Battery state.
#[derive(Debug, Default, PartialEq, Eq)]
pub struct BatteryState {
    /// Pack voltage (mV).
    pub voltage_mv: u16,
    /// Current (mA): positive while charging, negative while discharging.
    pub current_ma: i16,
    /// Full-charge capacity (mAh).
    pub capacity_mah: u16,
    /// Design capacity (mAh).
    pub design_capacity_mah: u16,
    /// Relative state of charge, 1 to 100.
    pub percentage: u8,
    /// Pack temperature in tenths of a degree.
    pub temperature: i16,
    pub charge_status: BatteryChargeStatus,
    pub health: BatteryHealth,
    pub technology: BatteryTechnology,
    /// Whether a battery is present.
    pub present: bool,
    pub serial_number: u16,
    /// Voltage of each cell (mV).
    pub cell_voltages_mv: Vec<u16>,
    /// Temperature of each cell in tenths of a degree.
    pub cell_temperatures: Vec<i16>,
}

/// Bytes of the first `n` cells: voltage then temperature for each.
pub open spec fn cells_bytes(v: Seq<u16>, t: Seq<i16>, n: nat) -> Seq<u8>
    decreases n,
{
    if n == 0 {
        Seq::<u8>::empty()
    } else {
        cells_bytes(v, t, (n - 1) as nat) + u16_le(v[n - 1]) + i16_le(t[n - 1])
    }
}

/// The smaller of two lengths.
pub open spec fn min_len(a: nat, b: nat) -> nat {
    if a <= b {
        a
    } else {
        b
    }
}

impl BatteryState {
    /// The fixed part of the payload.
    pub open spec fn spec_header_bytes(&self) -> Seq<u8> {
        u16_le(self.voltage_mv) + i16_le(self.current_ma) + u16_le(self.capacity_mah) + u16_le(
            self.design_capacity_mah,
        ) + seq![self.percentage] + i16_le(self.temperature) + seq![
            self.charge_status.spec_as_u8(),
            self.health.spec_as_u8(),
            self.technology.spec_as_u8(),
            if self.present {
                1u8
            } else {
                0u8
            },
        ] + u16_le(self.serial_number)
    }

    /// The payload bytes: the fixed part, then the cells that have both a
    /// voltage and a temperature.
    pub open spec fn spec_to_bytes(&self) -> Seq<u8> {
        self.spec_header_bytes() + cells_bytes(
            self.cell_voltages_mv@,
            self.cell_temperatures@,
            min_len(self.cell_voltages_mv@.len(), self.cell_temperatures@.len()),
        )
    }

    /// `self` is what decoding `data` gives: the fixed fields from the first
    /// 17 bytes and one cell per whole 4 bytes after them.
    pub open spec fn spec_decoded_from(&self, data: Seq<u8>) -> bool {
        let n = ((data.len() - 17) / 4) as nat;
        &&& data.len() >= 20
        &&& self.voltage_mv == u16_at(data, 0)
        &&& self.current_ma == i16_at(data, 2)
        &&& self.capacity_mah == u16_at(data, 4)
        &&& self.design_capacity_mah == u16_at(data, 6)
        &&& self.percentage == data[8]
        &&& self.temperature == i16_at(data, 9)
        &&& self.charge_status == BatteryChargeStatus::spec_from_u8(data[11])
        &&& self.health == BatteryHealth::spec_from_u8(data[12])
        &&& self.technology == BatteryTechnology::spec_from_u8(data[13])
        &&& self.present == (data[14] != 0)
        &&& self.serial_number == u16_at(data, 15)
        &&& self.cell_voltages_mv@ == Seq::new(n, |k: int| u16_at(data, 17 + 4 * k))
        &&& self.cell_temperatures@ == Seq::new(n, |k: int| i16_at(data, 19 + 4 * k))
    }

    /// Decodes a battery payload.
    pub fn from_bytes(data: &[u8]) -> (r: Result<BatteryState, FrameError>)
        ensures
            match r {
                Ok(b) => b.spec_decoded_from(data@),
                Err(e) => data@.len() < 20 && e == FrameError::PayloadTooShort {
                    expected: 20,
                    got: data@.len() as usize,
                },
            },
    {
        if data.len() < BATTERY_MIN_LEN {
            return Err(FrameError::PayloadTooShort { expected: 20, got: data.len() });
        }
        let voltage_mv = read_u16(data, 0);
        let current_ma = read_i16(data, 2);
        let capacity_mah = read_u16(data, 4);
        let design_capacity_mah = read_u16(data, 6);
        let percentage = data[8];
        let temperature = read_i16(data, 9);
        let charge_status = BatteryChargeStatus::from_u8(data[11]);
        let health = BatteryHealth::from_u8(data[12]);
        let technology = BatteryTechnology::from_u8(data[13]);
        let present = data[14] != 0;
        let serial_number = read_u16(data, 15);
        let cell_count = (data.len() - BATTERY_HEADER_LEN) / 4;
        let mut cell_voltages_mv: Vec<u16> = Vec::new();
        let mut cell_temperatures: Vec<i16> = Vec::new();
        let mut k: usize = 0;
        while k < cell_count
            invariant
                k <= cell_count,
                cell_count == (data@.len() - 17) / 4,
                data@.len() >= 20,
                data@.len() == data.len(),
                cell_voltages_mv@ == Seq::new(k as nat, |j: int| u16_at(data@, 17 + 4 * j)),
                cell_temperatures@ == Seq::new(k as nat, |j: int| i16_at(data@, 19 + 4 * j)),
            decreases cell_count - k,
        {
            assert(17 + 4 * k + 4 <= data@.len()) by (nonlinear_arith)
                requires
                    k < cell_count,
                    cell_count == (data@.len() - 17) / 4,
                    data@.len() >= 20,
            ;
            let o: usize = BATTERY_HEADER_LEN + 4 * k;
            cell_voltages_mv.push(read_u16(data, o));
            cell_temperatures.push(read_i16(data, o + 2));
            k += 1;
            assert(cell_voltages_mv@ =~= Seq::new(k as nat, |j: int| u16_at(data@, 17 + 4 * j)));
            assert(cell_temperatures@ =~= Seq::new(
                k as nat,
                |j: int| i16_at(data@, 19 + 4 * j),
            ));
        }
        Ok(BatteryState {
            voltage_mv,
            current_ma,
            capacity_mah,
            design_capacity_mah,
            percentage,
            temperature,
            charge_status,
            health,
            technology,
            present,
            serial_number,
            cell_voltages_mv,
            cell_temperatures,
        })
    }

    /// Encodes this battery payload; cells are written while both a voltage
    /// and a temperature remain.
    pub fn to_bytes(&self) -> (bytes: Vec<u8>)
        ensures
            bytes@ == self.spec_to_bytes(),
    {
        let mut buf: Vec<u8> = Vec::new();
        push_u16(&mut buf, self.voltage_mv);
        push_i16(&mut buf, self.current_ma);
        push_u16(&mut buf, self.capacity_mah);
        push_u16(&mut buf, self.design_capacity_mah);
        buf.push(self.percentage);
        push_i16(&mut buf, self.temperature);
        buf.push(self.charge_status.as_u8());
        buf.push(self.health.as_u8());
        buf.push(self.technology.as_u8());
        buf.push(if self.present { 1 } else { 0 });
        push_u16(&mut buf, self.serial_number);
        let ghost header = buf@;
        assert(header =~= self.spec_header_bytes());
        let n = if self.cell_voltages_mv.len() <= self.cell_temperatures.len() {
            self.cell_voltages_mv.len()
        } else {
            self.cell_temperatures.len()
        };
        let mut k: usize = 0;
        while k < n
            invariant
                k <= n,
                n == min_len(self.cell_voltages_mv@.len(), self.cell_temperatures@.len()),
                buf@ == header + cells_bytes(
                    self.cell_voltages_mv@,
                    self.cell_temperatures@,
                    k as nat,
                ),
            decreases n - k,
        {
            push_u16(&mut buf, self.cell_voltages_mv[k]);
            push_i16(&mut buf, self.cell_temperatures[k]);
            k += 1;
            assert(buf@ =~= header + cells_bytes(
                self.cell_voltages_mv@,
                self.cell_temperatures@,
                k as nat,
            ));
        }
        buf
    }
}

proof fn lemma_cells_bytes(v: Seq<u16>, t: Seq<i16>, n: nat)
    requires
        n <= v.len(),
        n <= t.len(),
    ensures
        cells_bytes(v, t, n).len() == 4 * n,
        forall|k: int|
            0 <= k < n ==> u16_at(#[trigger] cells_bytes(v, t, n), 4 * k) == v[k] && i16_at(
                cells_bytes(v, t, n),
                4 * k + 2,
            ) == t[k],
    decreases n,
{
    if n > 0 {
        let m = (n - 1) as nat;
        lemma_cells_bytes(v, t, m);
        let prev = cells_bytes(v, t, m);
        let c = cells_bytes(v, t, n);
        assert(c == prev + u16_le(v[m as int]) + i16_le(t[m as int]));
        assert forall|k: int| 0 <= k < n implies u16_at(#[trigger] cells_bytes(v, t, n), 4 * k)
            == v[k] && i16_at(cells_bytes(v, t, n), 4 * k + 2) == t[k] by {
            if k < m {
                assert(c[4 * k] == prev[4 * k]);
                assert(c[4 * k + 1] == prev[4 * k + 1]);
                assert(c[4 * k + 2] == prev[4 * k + 2]);
                assert(c[4 * k + 3] == prev[4 * k + 3]);
                assert(u16_at(prev, 4 * k) == v[k]);
            } else {
                lemma_i16_bits(t[k]);
            }
        }
    }
}

/// Decoding the encoding of a battery state gives it back when it has as
/// many cell temperatures as cell voltages and at least one cell: with no
/// cell the payload is 17 bytes, shorter than the 20 that decoding requires.
pub proof fn lemma_battery_roundtrip(b: BatteryState)
    requires
        b.cell_voltages_mv@.len() == b.cell_temperatures@.len(),
        b.cell_voltages_mv@.len() >= 1,
    ensures
        b.spec_decoded_from(b.spec_to_bytes()),
{
    let n = b.cell_voltages_mv@.len();
    let h = b.spec_header_bytes();
    let c = cells_bytes(b.cell_voltages_mv@, b.cell_temperatures@, n);
    let d = b.spec_to_bytes();
    lemma_cells_bytes(b.cell_voltages_mv@, b.cell_temperatures@, n);
    assert(h.len() == 17);
    assert(d == h + c);
    assert((d.len() - 17) / 4 == n) by {
        assert(d.len() == 17 + 4 * n);
    }
    lemma_i16_bits(b.current_ma);
    lemma_i16_bits(b.temperature);
    assert(u16_at(d, 0) == b.voltage_mv);
    assert(i16_at(d, 2) == b.current_ma);
    assert(u16_at(d, 4) == b.capacity_mah);
    assert(u16_at(d, 6) == b.design_capacity_mah);
    assert(i16_at(d, 9) == b.temperature);
    assert(u16_at(d, 15) == b.serial_number);
    assert forall|k: int| 0 <= k < n implies u16_at(d, 17 + 4 * k) == b.cell_voltages_mv@[k]
        && i16_at(d, 19 + 4 * k) == b.cell_temperatures@[k] by {
        assert(u16_at(c, 4 * k) == b.cell_voltages_mv@[k]);
        assert(d[17 + 4 * k] == c[4 * k]);
        assert(d[18 + 4 * k] == c[4 * k + 1]);
        assert(d[19 + 4 * k] == c[4 * k + 2]);
        assert(d[20 + 4 * k] == c[4 * k + 3]);
    }
    assert(b.cell_voltages_mv@ =~= Seq::new(n, |k: int| u16_at(d, 17 + 4 * k)));
    assert(b.cell_temperatures@ =~= Seq::new(n, |k: int| i16_at(d, 19 + 4 * k)));
}

impl BatteryState {
    /// `self` and `other` hold the same values.
    pub open spec fn spec_same(&self, other: &BatteryState) -> bool {
        &&& self.voltage_mv == other.voltage_mv
        &&& self.current_ma == other.current_ma
        &&& self.capacity_mah == other.capacity_mah
        &&& self.design_capacity_mah == other.design_capacity_mah
        &&& self.percentage == other.percentage
        &&& self.temperature == other.temperature
        &&& self.charge_status == other.charge_status
        &&& self.health == other.health
        &&& self.technology == other.technology
        &&& self.present == other.present
        &&& self.serial_number == other.serial_number
        &&& self.cell_voltages_mv@ == other.cell_voltages_mv@
        &&& self.cell_temperatures@ == other.cell_temperatures@
    }
}

impl Clone for BatteryState {
    fn clone(&self) -> (r: BatteryState)
        ensures
            r.spec_same(self),
    {
        let mut cell_voltages_mv: Vec<u16> = Vec::new();
        let mut k: usize = 0;
        while k < self.cell_voltages_mv.len()
            invariant
                k <= self.cell_voltages_mv@.len(),
                cell_voltages_mv@ == self.cell_voltages_mv@.take(k as int),
            decreases self.cell_voltages_mv@.len() - k,
        {
            cell_voltages_mv.push(self.cell_voltages_mv[k]);
            k += 1;
            assert(cell_voltages_mv@ =~= self.cell_voltages_mv@.take(k as int));
        }
        let mut cell_temperatures: Vec<i16> = Vec::new();
        let mut k: usize = 0;
        while k < self.cell_temperatures.len()
            invariant
                k <= self.cell_temperatures@.len(),
                cell_temperatures@ == self.cell_temperatures@.take(k as int),
            decreases self.cell_temperatures@.len() - k,
        {
            cell_temperatures.push(self.cell_temperatures[k]);
            k += 1;
            assert(cell_temperatures@ =~= self.cell_temperatures@.take(k as int));
        }
        assert(cell_voltages_mv@ =~= self.cell_voltages_mv@);
        assert(cell_temperatures@ =~= self.cell_temperatures@);
        BatteryState {
            voltage_mv: self.voltage_mv,
            current_ma: self.current_ma,
            capacity_mah: self.capacity_mah,
            design_capacity_mah: self.design_capacity_mah,
            percentage: self.percentage,
            temperature: self.temperature,
            charge_status: self.charge_status,
            health: self.health,
            technology: self.technology,
            present: self.present,
            serial_number: self.serial_number,
            cell_voltages_mv,
            cell_temperatures,
        }
    }
}

impl ToPayload for BatteryState {
    fn to_payload(&self) -> (bytes: Vec<u8>)
        ensures
            bytes@ == self.spec_to_bytes(),
    {
        self.to_bytes()
    }
}

impl FromPayload for BatteryState {
    open spec fn decodable(payload: Seq<u8>) -> bool {
        true
    }

    fn from_payload(p: &[u8]) -> (r: Result<BatteryState, FrameError>)
        ensures
            match r {
                Ok(b) => b.spec_decoded_from(p@),
                Err(e) => p@.len() < 20,
            },
    {
        BatteryState::from_bytes(p)
    }
}

/// The status byte means: 1 charging, 2 discharging, 3 not charging, 4 full, anything else unknown; the statuses are written as 0 to 4 in that order.
pub proof fn lemma_battery_charge_status_codes(v: u8)
    ensures
        (BatteryChargeStatus::spec_from_u8(v) == BatteryChargeStatus::Charging) <==> v == 1,
        (BatteryChargeStatus::spec_from_u8(v) == BatteryChargeStatus::Discharging) <==> v == 2,
        (BatteryChargeStatus::spec_from_u8(v) == BatteryChargeStatus::NotCharging) <==> v == 3,
        (BatteryChargeStatus::spec_from_u8(v) == BatteryChargeStatus::Full) <==> v == 4,
        (BatteryChargeStatus::spec_from_u8(v) == BatteryChargeStatus::Unknown) <==> !(v == 1 || v == 2 || v == 3 || v == 4),
        BatteryChargeStatus::Unknown.spec_as_u8() == 0,
        BatteryChargeStatus::Charging.spec_as_u8() == 1,
        BatteryChargeStatus::Discharging.spec_as_u8() == 2,
        BatteryChargeStatus::NotCharging.spec_as_u8() == 3,
        BatteryChargeStatus::Full.spec_as_u8() == 4,
{
}
/// The health byte means: 1 good, 2 overheated, 3 dead, 4 overvoltage, anything else unknown; written as 0 to 4 in that order.
pub proof fn lemma_battery_health_codes(v: u8)
    ensures
        (BatteryHealth::spec_from_u8(v) == BatteryHealth::Good) <==> v == 1,
        (BatteryHealth::spec_from_u8(v) == BatteryHealth::Overheat) <==> v == 2,
        (BatteryHealth::spec_from_u8(v) == BatteryHealth::Dead) <==> v == 3,
        (BatteryHealth::spec_from_u8(v) == BatteryHealth::Overvoltage) <==> v == 4,
        (BatteryHealth::spec_from_u8(v) == BatteryHealth::Unknown) <==> !(v == 1 || v == 2 || v == 3 || v == 4),
        BatteryHealth::Unknown.spec_as_u8() == 0,
        BatteryHealth::Good.spec_as_u8() == 1,
        BatteryHealth::Overheat.spec_as_u8() == 2,
        BatteryHealth::Dead.spec_as_u8() == 3,
        BatteryHealth::Overvoltage.spec_as_u8() == 4,
{
}
/// The chemistry byte means: 1 NiMH, 2 Li-ion, 3 LiPo, 4 LiFe, 5 NiCd, 6 LiMn, anything else unknown; written as 0 to 6 in that order.
pub proof fn lemma_battery_technology_codes(v: u8)
    ensures
        (BatteryTechnology::spec_from_u8(v) == BatteryTechnology::NiMh) <==> v == 1,
        (BatteryTechnology::spec_from_u8(v) == BatteryTechnology::LiOn) <==> v == 2,
        (BatteryTechnology::spec_from_u8(v) == BatteryTechnology::LiPo) <==> v == 3,
        (BatteryTechnology::spec_from_u8(v) == BatteryTechnology::LiFe) <==> v == 4,
        (BatteryTechnology::spec_from_u8(v) == BatteryTechnology::NiCd) <==> v == 5,
        (BatteryTechnology::spec_from_u8(v) == BatteryTechnology::LiMn) <==> v == 6,
        (BatteryTechnology::spec_from_u8(v) == BatteryTechnology::Unknown) <==> !(v == 1 || v == 2 || v == 3 || v == 4 || v == 5 || v == 6),
        BatteryTechnology::Unknown.spec_as_u8() == 0,
        BatteryTechnology::NiMh.spec_as_u8() == 1,
        BatteryTechnology::LiOn.spec_as_u8() == 2,
        BatteryTechnology::LiPo.spec_as_u8() == 3,
        BatteryTechnology::LiFe.spec_as_u8() == 4,
        BatteryTechnology::NiCd.spec_as_u8() == 5,
        BatteryTechnology::LiMn.spec_as_u8() == 6,
{
}

} // verus!
