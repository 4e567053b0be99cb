//! Assembly of a frame read from a serial byte stream. The transport reads
//! the number of bytes that `wanted` asks for and hands them to `push`: the
//! header byte (anything else is skipped), the type byte, the two length
//! bytes, the payload, and the two CRC bytes.

use vstd::prelude::*;
use crate::protocol::frame::{spec_encode, FRAME_HEAD};
use crate::protocol::wire::{lemma_u16_roundtrip, read_u16, u16_at, u16_le};

verus! {

/// The part of a frame that the reader waits for.
#[derive(Debug, Clone, Copy, PartialEq, Eq, Structural)]
pub enum ReadPhase {
    Header,
    Type,
    Length,
    Payload,
    Crc,
}

/// Collects the bytes of one frame.
pub struct FrameReader {
    phase: ReadPhase,
    frame: Vec<u8>,
}

/// The number of bytes to read in `phase` when `frame` has been collected.
pub open spec fn spec_wanted(phase: ReadPhase, frame: Seq<u8>) -> nat {
    match phase {
        ReadPhase::Header => 1,
        ReadPhase::Type => 1,
        ReadPhase::Length => 2,
        ReadPhase::Payload => u16_at(frame, 2) as nat,
        ReadPhase::Crc => 2,
    }
}

/// What collecting `chunk` in `phase` after `frame` gives: the next phase,
/// the bytes collected, and the whole frame once its CRC has been read. A
/// first byte other than the header byte is dropped.
pub open spec fn spec_push(phase: ReadPhase, frame: Seq<u8>, chunk: Seq<u8>) -> (
    ReadPhase,
    Seq<u8>,
    Option<Seq<u8>>,
) {
    match phase {
        ReadPhase::Header => if chunk[0] == FRAME_HEAD {
            (ReadPhase::Type, chunk, None)
        } else {
            (ReadPhase::Header, Seq::empty(), None)
        },
        ReadPhase::Type => (ReadPhase::Length, frame + chunk, None),
        ReadPhase::Length => (ReadPhase::Payload, frame + chunk, None),
        ReadPhase::Payload => (ReadPhase::Crc, frame + chunk, None),
        ReadPhase::Crc => (ReadPhase::Header, Seq::empty(), Some(frame + chunk)),
    }
}

impl FrameReader {
    /// The phase the reader is in.
    pub closed spec fn phase(&self) -> ReadPhase {
        self.phase
    }

    /// The bytes of the frame collected so far.
    pub closed spec fn collected(&self) -> Seq<u8> {
        self.frame@
    }

    /// The collected bytes fit the phase: nothing while waiting for the
    /// header, then the header byte, the type byte, the length bytes and the
    /// payload.
    pub open spec fn wf(&self) -> bool {
        match self.phase() {
            ReadPhase::Header => self.collected().len() == 0,
            ReadPhase::Type => self.collected() == seq![FRAME_HEAD],
            ReadPhase::Length => self.collected().len() == 2 && self.collected()[0] == FRAME_HEAD,
            ReadPhase::Payload => self.collected().len() == 4 && self.collected()[0] == FRAME_HEAD,
            ReadPhase::Crc => self.collected().len() == 4 + u16_at(self.collected(), 2)
                && self.collected()[0] == FRAME_HEAD,
        }
    }

    /// Waits for a header byte.
    pub fn new() -> (r: FrameReader)
        ensures
            r.wf(),
            r.phase() == ReadPhase::Header,
            r.collected().len() == 0,
    {
        FrameReader { phase: ReadPhase::Header, frame: Vec::new() }
    }

    /// Whether a read that timed out may be tried again: only while waiting
    /// for the header byte.
    pub fn retries_timeout(&self) -> (b: bool)
        ensures
            b == (self.phase() == ReadPhase::Header),
    {
        matches!(self.phase, ReadPhase::Header)
    }

    /// The number of bytes to read next.
    pub fn wanted(&self) -> (n: usize)
        requires
            self.wf(),
        ensures
            n == spec_wanted(self.phase(), self.collected()),
    {
        match self.phase {
            ReadPhase::Header => 1,
            ReadPhase::Type => 1,
            ReadPhase::Length => 2,
            ReadPhase::Payload => read_u16(self.frame.as_slice(), 2) as usize,
            ReadPhase::Crc => 2,
        }
    }

    /// Collects the bytes just read; returns the whole frame once its CRC
    /// bytes have come, and then waits for the next header.
    pub fn push(&mut self, chunk: &[u8]) -> (r: Option<Vec<u8>>)
        requires
            old(self).wf(),
            chunk@.len() == spec_wanted(old(self).phase(), old(self).collected()),
        ensures
            final(self).wf(),
            final(self).phase() == spec_push(old(self).phase(), old(self).collected(), chunk@).0,
            final(self).collected() == spec_push(old(self).phase(), old(self).collected(), chunk@).1,
            match r {
                Some(f) => spec_push(old(self).phase(), old(self).collected(), chunk@).2 == Some(f@),
                None => spec_push(old(self).phase(), old(self).collected(), chunk@).2 is None,
            },
    {
        match self.phase {
            ReadPhase::Header => {
                if chunk[0] == FRAME_HEAD {
                    self.frame.push(FRAME_HEAD);
                    assert(self.frame@ =~= chunk@);
                    assert(self.frame@ =~= seq![FRAME_HEAD]);
                    self.phase = ReadPhase::Type;
                }
                None
            },
            ReadPhase::Type => {
                self.frame.push(chunk[0]);
                assert(self.frame@ =~= old(self).frame@ + chunk@);
                self.phase = ReadPhase::Length;
                None
            },
            ReadPhase::Length => {
                self.frame.push(chunk[0]);
                self.frame.push(chunk[1]);
                assert(self.frame@ =~= old(self).frame@ + chunk@);
                self.phase = ReadPhase::Payload;
                None
            },
            ReadPhase::Payload => {
                append(&mut self.frame, chunk);
                assert(u16_at(self.frame@, 2) == u16_at(old(self).frame@, 2));
                self.phase = ReadPhase::Crc;
                None
            },
            ReadPhase::Crc => {
                append(&mut self.frame, chunk);
                let mut done: Vec<u8> = Vec::new();
                std::mem::swap(&mut done, &mut self.frame);
                self.phase = ReadPhase::Header;
                Some(done)
            },
        }
    }
}

/// Appends `src` to `buf`.
fn append(buf: &mut Vec<u8>, src: &[u8])
    ensures
        final(buf)@ == old(buf)@ + src@,
{
    let mut i: usize = 0;
    while i < src.len()
        invariant
            i <= src@.len(),
            buf@ == old(buf)@ + src@.take(i as int),
        decreases src@.len() - i,
    {
        buf.push(src[i]);
        i = i + 1;
        assert(src@.take(i as int) =~= src@.take(i - 1) + seq![src@[i - 1]]);
    }
    assert(src@.take(i as int) =~= src@);
}

/// Reading an encoded frame back gives it unchanged: from the header phase,
/// pushing its header byte, its type byte, its two length bytes, its payload
/// and its two CRC bytes yields the whole frame and leaves the reader waiting
/// for the next header.
pub proof fn lemma_reads_back_encoded(t: crate::protocol::frame::FrameType, p: Seq<u8>)
    requires
        p.len() < 65536,
    ensures
        ({
            let f = spec_encode(t, p);
            let n = p.len() as int;
            let s1 = spec_push(ReadPhase::Header, Seq::empty(), f.subrange(0, 1));
            let s2 = spec_push(s1.0, s1.1, f.subrange(1, 2));
            let s3 = spec_push(s2.0, s2.1, f.subrange(2, 4));
            let s4 = spec_push(s3.0, s3.1, f.subrange(4, 4 + n));
            let s5 = spec_push(s4.0, s4.1, f.subrange(4 + n, 6 + n));
            &&& s1.0 == ReadPhase::Type
            &&& spec_wanted(s3.0, s3.1) == n
            &&& s5 == (ReadPhase::Header, Seq::<u8>::empty(), Some(f))
        }),
{
    let f = spec_encode(t, p);
    let n = p.len() as int;
    let body = seq![t.spec_as_u8()] + u16_le((p.len() % 65536) as u16) + p;
    assert(f.len() == 6 + n);
    assert(f.subrange(2, 4) =~= u16_le((p.len() % 65536) as u16));
    lemma_u16_roundtrip((p.len() % 65536) as u16, f, 2);
    assert(u16_at(f, 2) == n);
    assert(f.subrange(0, 1) =~= seq![FRAME_HEAD]);
    let s1 = spec_push(ReadPhase::Header, Seq::empty(), f.subrange(0, 1));
    let s2 = spec_push(s1.0, s1.1, f.subrange(1, 2));
    let s3 = spec_push(s2.0, s2.1, f.subrange(2, 4));
    assert(s3.1 =~= f.subrange(0, 4));
    assert(u16_at(s3.1, 2) == u16_at(f, 2));
    let s4 = spec_push(s3.0, s3.1, f.subrange(4, 4 + n));
    assert(s4.1 =~= f.subrange(0, 4 + n));
    let s5 = spec_push(s4.0, s4.1, f.subrange(4 + n, 6 + n));
    assert(s5.2 == Some(f.subrange(0, 6 + n)));
    assert(f.subrange(0, 6 + n) =~= f);
}

/// What the reader yields is always a whole frame: the header byte, the
/// type byte, the length, as many payload bytes as the length says, and two
/// CRC bytes.
pub proof fn lemma_reader_yields_whole_frames(r: FrameReader, chunk: Seq<u8>)
    requires
        r.wf(),
        chunk.len() == spec_wanted(r.phase(), r.collected()),
    ensures
        spec_push(r.phase(), r.collected(), chunk).2 matches Some(f) ==> {
            &&& f.len() == 6 + u16_at(f, 2)
            &&& f[0] == FRAME_HEAD
        },
{
    if let Some(f) = spec_push(r.phase(), r.collected(), chunk).2 {
        assert(f == r.collected() + chunk);
        assert(u16_at(f, 2) == u16_at(r.collected(), 2));
    }
}

} // verus!
