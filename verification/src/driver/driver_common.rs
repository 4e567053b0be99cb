//! Request encoding shared by the synchronous and asynchronous drivers.

use vstd::prelude::*;
use crate::driver::dispatch::DriverEvent;
use crate::driver::state::StateInner;
use crate::protocol::battery_state::BatteryState;
use crate::protocol::config::{BoardConfigSnapshot, Config, ConfigType};
use crate::protocol::event::BoardEvent;
use crate::protocol::frame::{
    spec_decode, spec_encode, spec_typed_error, typed_frame_decodable, FrameType, RawFrame,
    TypedFrame,
};
use crate::protocol::imu::ImuData;
use crate::protocol::power::PowerData;
use crate::protocol::system::SystemInfo;
use crate::protocol::thermal::ThermalData;

verus! {

/// Encodes a configuration write request.
pub fn encode_cfg_write(config: &Config) -> (bytes: Vec<u8>)
    ensures
        bytes@ == spec_encode(FrameType::CfgWrite, config.spec_to_bytes()),
{
    RawFrame { frame_type: FrameType::CfgWrite, payload: config.to_bytes() }.encode()
}

/// Encodes a query for one configuration item.
pub fn encode_cfg_query(config_type: ConfigType) -> (bytes: Vec<u8>)
    ensures
        bytes@ == spec_encode(FrameType::CfgQuery, seq![config_type.spec_as_u8()]),
{
    let mut payload: Vec<u8> = Vec::new();
    payload.push(config_type.as_u8());
    assert(payload@ =~= seq![config_type.spec_as_u8()]);
    RawFrame { frame_type: FrameType::CfgQuery, payload }.encode()
}

/// Encodes a query for the whole configuration.
pub fn encode_cfg_query_all() -> (bytes: Vec<u8>)
    ensures
        bytes@ == spec_encode(FrameType::CfgQueryAll, Seq::<u8>::empty()),
{
    let payload: Vec<u8> = Vec::new();
    RawFrame { frame_type: FrameType::CfgQueryAll, payload }.encode()
}

/// Whether frame bytes may be handed to `decode_and_dispatch`: a system
/// frame whose payload has 41 to 44 bytes cannot be decoded.
pub open spec fn frame_data_decodable(data: Seq<u8>) -> bool {
    spec_decode(data) matches Ok(((t, p), _)) ==> typed_frame_decodable(t, p)
}

/// Whether frame bytes may be handed to `decode_and_dispatch`; `false` only
/// for a system frame whose payload has 41 to 44 bytes.
pub fn is_frame_data_decodable(data: &[u8]) -> (b: bool)
    ensures
        b == frame_data_decodable(data@),
{
    match RawFrame::decode(data) {
        Ok((frame, _)) => {
            let len = frame.payload.len();
            !(matches!(frame.frame_type, FrameType::System) && 41 <= len && len < 45)
        },
        Err(_) => true,
    }
}

/// `s1` is `s0` with one more dropped frame.
pub open spec fn spec_dropped(s0: StateInner, s1: StateInner) -> bool {
    s1 == (StateInner { frames_dropped: (s0.frames_dropped + 1) as u64, ..s0 })
}

/// The state change and event that a frame of type `t` with payload `p`,
/// decoded successfully, causes on the state `s` (counted as parsed already).
pub open spec fn spec_dispatched_frame(
    t: FrameType,
    p: Seq<u8>,
    s: StateInner,
    s1: StateInner,
    ev: Option<DriverEvent>,
) -> bool {
    let fc = (s.frame_count + 1) as u64;
    match t {
        FrameType::Imu => ImuData::spec_from_bytes(p) matches Ok(d) && ev == Some(
            DriverEvent::ImuData(d),
        ) && s1 == (StateInner { imu: Some(d), frame_count: fc, ..s }),
        FrameType::Power => PowerData::spec_from_bytes(p) matches Ok(d) && ev == Some(
            DriverEvent::PowerData(d),
        ) && s1 == (StateInner { power: Some(d), frame_count: fc, ..s }),
        FrameType::Thermal => ThermalData::spec_from_bytes(p) matches Ok(d) && ev == Some(
            DriverEvent::ThermalData(d),
        ) && s1 == (StateInner { thermal: Some(d), frame_count: fc, ..s }),
        FrameType::Battery => {
            &&& ev matches Some(DriverEvent::BatteryState(b))
            &&& b.spec_decoded_from(p)
            &&& s1.battery matches Some(b1)
            &&& b1.spec_same(&b)
            &&& s1 == (StateInner { battery: s1.battery, frame_count: fc, ..s })
        },
        FrameType::Config => BoardConfigSnapshot::spec_from_bytes(p) matches Ok(d) && ev == Some(
            DriverEvent::ConfigSnapshot(d),
        ) && s1 == (StateInner { config: Some(d), frame_count: fc, ..s }),
        FrameType::Event => {
            &&& ev matches Some(DriverEvent::BoardEvent(e))
            &&& e.spec_fields() == BoardEvent::spec_decoded_fields(p)
            &&& s1 == (StateInner { event: Some(e), frame_count: fc, ..s })
        },
        FrameType::System => SystemInfo::spec_from_bytes(p) matches Ok(d) && ev == Some(
            DriverEvent::SystemInfo(d),
        ) && s1 == (StateInner { system: Some(d), frame_count: fc, ..s }),
        FrameType::AckCfgWrite => ev == Some(DriverEvent::AckCfgWrite { success: p[0] != 0 })
            && s1 == s,
        FrameType::AckCfgQuery => Config::spec_from_bytes(p) matches Ok(c) && ev == Some(
            DriverEvent::AckCfgQuery(c),
        ) && s1 == s,
        FrameType::AckCfgQueryAll => BoardConfigSnapshot::spec_from_bytes(p) matches Ok(d) && ev
            == Some(DriverEvent::AckCfgQueryAll(d)) && s1 == (StateInner {
            config: Some(d),
            frame_count: fc,
            ..s
        }),
        _ => false,
    }
}

/// What `decode_and_dispatch` does with the bytes `data` on the state `s0`:
/// a frame that does not decode, or whose payload does not, is counted as
/// dropped and gives no event; any other frame is counted as parsed, stored
/// when it carries data, and turned into an event.
pub open spec fn spec_dispatched(
    data: Seq<u8>,
    s0: StateInner,
    s1: StateInner,
    ev: Option<DriverEvent>,
) -> bool {
    match spec_decode(data) {
        Err(_) => ev is None && spec_dropped(s0, s1),
        Ok(((t, p), _)) => if spec_typed_error(t, p) is Some {
            ev is None && spec_dropped(s0, s1)
        } else {
            spec_dispatched_frame(
                t,
                p,
                StateInner { frames_parsed: (s0.frames_parsed + 1) as u64, ..s0 },
                s1,
                ev,
            )
        },
    }
}

/// Decodes frame bytes, updates the state record and returns the event to
/// send to the callbacks, or `None` when the frame is dropped.
pub fn decode_and_dispatch(frame_data: &[u8], state: &mut StateInner) -> (ev: Option<
    DriverEvent,
>)
    requires
        frame_data_decodable(frame_data@),
        old(state).frames_dropped < u64::MAX,
        old(state).frames_parsed < u64::MAX,
        old(state).frame_count < u64::MAX,
    ensures
        spec_dispatched(frame_data@, *old(state), *final(state), ev),
{
    let raw_frame = match RawFrame::decode(frame_data) {
        Ok((frame, _)) => frame,
        Err(_) => {
            state.increment_frames_dropped();
            return None;
        },
    };
    let typed_frame = match raw_frame.parse_typed() {
        Ok(frame) => frame,
        Err(_) => {
            state.increment_frames_dropped();
            return None;
        },
    };
    state.increment_frames_parsed();
    match typed_frame {
        TypedFrame::Imu(data) => {
            state.update_imu(data);
            Some(DriverEvent::ImuData(data))
        },
        TypedFrame::Power(data) => {
            state.update_power(data);
            Some(DriverEvent::PowerData(data))
        },
        TypedFrame::Thermal(data) => {
            state.update_thermal(data);
            Some(DriverEvent::ThermalData(data))
        },
        TypedFrame::Battery(bat) => {
            state.update_battery(bat.clone());
            Some(DriverEvent::BatteryState(bat))
        },
        TypedFrame::Config(config) => {
            state.update_config(config);
            Some(DriverEvent::ConfigSnapshot(config))
        },
        TypedFrame::Event(event) => {
            state.update_event(event);
            Some(DriverEvent::BoardEvent(event))
        },
        TypedFrame::System(info) => {
            state.update_system(info);
            Some(DriverEvent::SystemInfo(info))
        },
        TypedFrame::AckCfgWrite { success } => Some(DriverEvent::AckCfgWrite { success }),
        TypedFrame::AckCfgQuery(config) => Some(DriverEvent::AckCfgQuery(config)),
        TypedFrame::AckCfgQueryAll(config_snapshot) => {
            state.update_config(config_snapshot);
            Some(DriverEvent::AckCfgQueryAll(config_snapshot))
        },
        _ => None,
    }
}

/// Every frame handed to `decode_and_dispatch` is counted exactly once,
/// as parsed or as dropped; only a parsed frame gives an event.
pub proof fn lemma_frame_counted_once(
    data: Seq<u8>,
    s0: StateInner,
    s1: StateInner,
    ev: Option<DriverEvent>,
)
    requires
        s0.frames_parsed < u64::MAX,
        s0.frames_dropped < u64::MAX,
        spec_dispatched(data, s0, s1, ev),
    ensures
        s1.frames_parsed + s1.frames_dropped == s0.frames_parsed + s0.frames_dropped + 1,
        ev is Some <==> s1.frames_parsed == s0.frames_parsed + 1,
{
}

} // verus!
