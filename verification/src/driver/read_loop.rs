//! Decisions of the read loop: what to do with the result of each read, and
//! when to try reconnecting. The loop itself, with its I/O, waits and
//! channels, runs outside; it performs the action returned here.

use vstd::prelude::*;
use vstd::utf8::encode_utf8;
use crate::driver::dispatch::DriverEvent;
use crate::driver::driver_common::{decode_and_dispatch, frame_data_decodable, spec_dispatched};
use crate::driver::error::DriverError;
use crate::driver::state::StateInner;
use crate::protocol::error::FrameError;
use crate::protocol::frame::{spec_decode, spec_typed_error, FrameType};

verus! {

/// The bytes of the text that marks a read timeout in an I/O error message,
/// "timed out".
pub open spec fn timeout_marker() -> Seq<u8> {
    seq![116u8, 105u8, 109u8, 101u8, 100u8, 32u8, 111u8, 117u8, 116u8]
}

/// Whether `needle` occurs in `hay` starting at index `i`.
pub open spec fn occurs_at(hay: Seq<u8>, needle: Seq<u8>, i: int) -> bool {
    0 <= i && i + needle.len() <= hay.len() && hay.subrange(i, i + needle.len()) == needle
}

/// Whether `needle` occurs anywhere in `hay`.
pub open spec fn has_infix(hay: Seq<u8>, needle: Seq<u8>) -> bool {
    exists|i: int| occurs_at(hay, needle, i)
}

/// Whether an I/O error message, taken as UTF-8 bytes, reports a timeout.
pub open spec fn spec_is_timeout_message(msg: Seq<char>) -> bool {
    has_infix(encode_utf8(msg), timeout_marker())
}

/// Whether an I/O error message reports a read timeout (holds "timed out").
pub fn is_timeout_message(msg: &str) -> (b: bool)
    ensures
        b == spec_is_timeout_message(msg@),
{
    let hay = msg.as_bytes();
    let marker: [u8; 9] = [116u8, 105u8, 109u8, 101u8, 100u8, 32u8, 111u8, 117u8, 116u8];
    assert(marker@ =~= timeout_marker());
    let ghost h = hay@;
    if hay.len() < 9 {
        assert forall|i: int| !occurs_at(h, timeout_marker(), i) by {}
        return false;
    }
    let last: usize = hay.len() - 9;
    let mut i: usize = 0;
    while i <= last
        invariant
            h == hay@,
            h == encode_utf8(msg@),
            marker@ == timeout_marker(),
            last + 9 == h.len(),
            h.len() <= usize::MAX,
            i <= last + 1,
            forall|k: int| 0 <= k < i ==> !occurs_at(h, timeout_marker(), k),
        decreases last + 1 - i,
    {
        let mut j: usize = 0;
        let mut same = true;
        while j < 9
            invariant
                h == hay@,
                marker@ == timeout_marker(),
                last + 9 == h.len(),
                h.len() <= usize::MAX,
                i <= last,
                j <= 9,
                same == (forall|m: int| 0 <= m < j ==> h[i + m] == marker@[m]),
            decreases 9 - j,
        {
            if hay[i + j] != marker[j] {
                same = false;
            }
            j = j + 1;
        }
        if same {
            assert(h.subrange(i as int, i + 9) =~= timeout_marker());
            assert(occurs_at(h, timeout_marker(), i as int));
            return true;
        }
        assert(!occurs_at(h, timeout_marker(), i as int)) by {
            if h.subrange(i as int, i + 9) == timeout_marker() {
                let m = choose|m: int| 0 <= m < 9 && h[i + m] != marker@[m];
                assert(h.subrange(i as int, i + 9)[m] == h[i + m]);
            }
        }
        i = i + 1;
    }
    false
}

/// What one pass of the read loop got from the transport.
pub enum ReadOutcome {
    /// No transport is installed.
    NoTransport,
    /// A frame was read.
    Frame(Vec<u8>),
    /// Reading failed.
    Failed(DriverError),
}

/// What the read loop does next.
pub enum ReadAction {
    /// Go round the loop again.
    Continue,
    /// Remove the transport when `drop_transport`, try to reconnect, then go
    /// round again.
    Reconnect { drop_transport: bool },
    /// Remove the transport when `drop_transport`, send a `TransportClosed`
    /// error event to the callbacks and leave the loop.
    Stop { drop_transport: bool },
    /// Send this error as an event to the callbacks and go round again.
    Report(DriverError),
    /// Send the event to the callbacks, and also to the channel on which
    /// requests wait for their answer when `ack` holds.
    Deliver { event: DriverEvent, ack: bool },
}

/// Whether `outcome` may be handed to `read_step`: a frame must be
/// decodable (see `frame_data_decodable`).
pub open spec fn read_outcome_ok(outcome: ReadOutcome) -> bool {
    outcome matches ReadOutcome::Frame(d) ==> frame_data_decodable(d@)
}

/// Whether the read error `e` is one the loop skips silently: with
/// `skip_timeouts`, an I/O error whose message reports a timeout.
pub open spec fn spec_skipped_error(e: DriverError, skip_timeouts: bool) -> bool {
    skip_timeouts && (e matches DriverError::Io(msg) && spec_is_timeout_message(msg@))
}

/// The effect of one read result on the state, the retry counter and the
/// action: a missing transport or a closed connection leads to a reconnect
/// when a transport factory exists and to the end of the loop otherwise; a
/// skipped error changes nothing; another error is recorded and reported; a
/// frame resets the retry counter and is decoded and dispatched, an answer
/// to a request going to the request channel too.
pub open spec fn spec_read_step(
    outcome: ReadOutcome,
    has_factory: bool,
    skip_timeouts: bool,
    s0: StateInner,
    r0: u32,
    s1: StateInner,
    r1: u32,
    action: ReadAction,
) -> bool {
    match outcome {
        ReadOutcome::NoTransport => {
            &&& r1 == r0
            &&& if has_factory {
                s1 == s0 && action == ReadAction::Reconnect { drop_transport: false }
            } else {
                s1 == (StateInner { last_error: Some(DriverError::TransportClosed), ..s0 })
                    && action == ReadAction::Stop { drop_transport: false }
            }
        },
        ReadOutcome::Frame(d) => {
            &&& r1 == 0
            &&& match action {
                ReadAction::Continue => spec_dispatched(d@, s0, s1, None),
                ReadAction::Deliver { event, ack } => spec_dispatched(d@, s0, s1, Some(event))
                    && ack == event.spec_is_ack(),
                _ => false,
            }
        },
        ReadOutcome::Failed(e) => {
            &&& r1 == r0
            &&& if e is TransportClosed {
                s1 == (StateInner { connected: false, ..s0 }) && action == (if has_factory {
                    ReadAction::Reconnect { drop_transport: true }
                } else {
                    ReadAction::Stop { drop_transport: true }
                })
            } else if spec_skipped_error(e, skip_timeouts) {
                s1 == s0 && action == ReadAction::Continue
            } else {
                s1 == (StateInner { last_error: Some(e), ..s0 }) && action == ReadAction::Report(e)
            }
        },
    }
}

/// Decides what the read loop does with one read result, updating the state
/// record and the retry counter. `has_factory` tells whether a transport
/// factory is available for reconnecting; `skip_timeouts` whether I/O errors
/// that report a timeout are skipped (the blocking driver does, the
/// asynchronous one does not).
pub fn read_step(
    outcome: ReadOutcome,
    has_factory: bool,
    skip_timeouts: bool,
    state: &mut StateInner,
    retry_count: &mut u32,
) -> (action: ReadAction)
    requires
        read_outcome_ok(outcome),
        old(state).frames_dropped < u64::MAX,
        old(state).frames_parsed < u64::MAX,
        old(state).frame_count < u64::MAX,
    ensures
        spec_read_step(
            outcome,
            has_factory,
            skip_timeouts,
            *old(state),
            *old(retry_count),
            *final(state),
            *final(retry_count),
            action,
        ),
{
    match outcome {
        ReadOutcome::NoTransport => {
            if has_factory {
                ReadAction::Reconnect { drop_transport: false }
            } else {
                state.set_error(DriverError::TransportClosed);
                ReadAction::Stop { drop_transport: false }
            }
        },
        ReadOutcome::Frame(data) => {
            *retry_count = 0;
            match decode_and_dispatch(data.as_slice(), state) {
                Some(event) => {
                    let ack = event.is_ack();
                    ReadAction::Deliver { event, ack }
                },
                None => ReadAction::Continue,
            }
        },
        ReadOutcome::Failed(e) => {
            if let DriverError::TransportClosed = e {
                state.set_connected(false);
                if has_factory {
                    ReadAction::Reconnect { drop_transport: true }
                } else {
                    ReadAction::Stop { drop_transport: true }
                }
            } else {
                let skipped = match &e {
                    DriverError::Io(msg) => skip_timeouts && is_timeout_message(msg.as_str()),
                    _ => false,
                };
                if skipped {
                    ReadAction::Continue
                } else {
                    state.set_error(e.clone());
                    ReadAction::Report(e)
                }
            }
        },
    }
}

/// Whether a reconnect is attempted, given the configured limit of retries
/// (`None` when reconnecting is not configured) and the failed attempts so
/// far.
pub open spec fn spec_reconnect_allowed(max_retries: Option<u32>, retry_count: u32) -> bool {
    max_retries matches Some(m) && retry_count < m
}

/// Starts a reconnect: returns whether to attempt it. With no configured
/// limit nothing happens; when the failed attempts have reached the limit the
/// transport is recorded as closed and no attempt is made.
pub fn begin_reconnect(max_retries: Option<u32>, retry_count: u32, state: &mut StateInner) -> (attempt:
    bool)
    ensures
        attempt == spec_reconnect_allowed(max_retries, retry_count),
        *final(state) == (if max_retries matches Some(m) && retry_count >= m {
            StateInner { last_error: Some(DriverError::TransportClosed), ..*old(state) }
        } else {
            *old(state)
        }),
{
    match max_retries {
        None => false,
        Some(m) => {
            if retry_count >= m {
                state.set_error(DriverError::TransportClosed);
                false
            } else {
                true
            }
        },
    }
}

/// Ends a reconnect attempt: a new transport marks the state connected; a
/// failed attempt counts one more retry.
pub fn finish_reconnect(
    created: bool,
    max_retries: u32,
    state: &mut StateInner,
    retry_count: &mut u32,
)
    requires
        *old(retry_count) < max_retries,
    ensures
        created ==> *final(state) == (StateInner { connected: true, ..*old(state) })
            && *final(retry_count) == *old(retry_count),
        !created ==> *final(state) == *old(state) && *final(retry_count) == *old(retry_count) + 1,
        *final(retry_count) <= max_retries,
{
    if created {
        state.set_connected(true);
    } else {
        *retry_count = *retry_count + 1;
    }
}

/// The retry counter never exceeds the limit: reading resets it, and a
/// reconnect attempt, made only below the limit, adds at most one.
pub proof fn lemma_retry_count_bounded(
    outcome: ReadOutcome,
    has_factory: bool,
    skip_timeouts: bool,
    s0: StateInner,
    r0: u32,
    s1: StateInner,
    r1: u32,
    action: ReadAction,
    max_retries: u32,
)
    requires
        r0 <= max_retries,
        spec_read_step(outcome, has_factory, skip_timeouts, s0, r0, s1, r1, action),
    ensures
        r1 <= max_retries,
        r1 <= r0,
{
}

/// Every answer to a request reaches the channel on which requests wait,
/// and nothing else does: a read frame that decodes, with a payload that
/// decodes, is delivered, and it goes to the request channel exactly when
/// its type is the answer to a configuration write, query or query-all.
pub proof fn lemma_answers_reach_request_channel(
    data: Seq<u8>,
    t: FrameType,
    p: Seq<u8>,
    n: usize,
    outcome: ReadOutcome,
    has_factory: bool,
    skip_timeouts: bool,
    s0: StateInner,
    r0: u32,
    s1: StateInner,
    r1: u32,
    action: ReadAction,
)
    requires
        outcome matches ReadOutcome::Frame(v) && v@ == data,
        spec_decode(data) == Ok::<_, FrameError>(((t, p), n)),
        spec_typed_error(t, p) is None,
        spec_read_step(outcome, has_factory, skip_timeouts, s0, r0, s1, r1, action),
    ensures
        action is Deliver,
        (action matches ReadAction::Deliver { ack, .. } && ack) <==> (t == FrameType::AckCfgWrite
            || t == FrameType::AckCfgQuery || t == FrameType::AckCfgQueryAll),
{
}

} // verus!
