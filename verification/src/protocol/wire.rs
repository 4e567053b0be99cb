//! Little-endian field encoding shared by all payload types.

use vstd::prelude::*;

verus! {

/// Little-endian bytes of a `u16`.
pub open spec fn u16_le(v: u16) -> Seq<u8> {
    seq![(v % 256) as u8, (v / 256) as u8]
}

/// The `u16` stored little-endian at offset `o` of `s`.
pub open spec fn u16_at(s: Seq<u8>, o: int) -> u16 {
    (s[o] as int + 256 * (s[o + 1] as int)) as u16
}

/// Little-endian bytes of an `i16` (its two's complement bit pattern).
pub open spec fn i16_le(v: i16) -> Seq<u8> {
    u16_le(v as u16)
}

/// The `i16` stored little-endian at offset `o` of `s`.
pub open spec fn i16_at(s: Seq<u8>, o: int) -> i16 {
    u16_at(s, o) as i16
}

/// Little-endian bytes of a `u32`.
pub open spec fn u32_le(v: u32) -> Seq<u8> {
    seq![(v % 256) as u8, ((v / 256) % 256) as u8, ((v / 65536) % 256) as u8, (v / 16777216) as u8]
}

/// The `u32` stored little-endian at offset `o` of `s`.
pub open spec fn u32_at(s: Seq<u8>, o: int) -> u32 {
    (s[o] as int + 256 * (s[o + 1] as int) + 65536 * (s[o + 2] as int) + 16777216 * (
    s[o + 3] as int)) as u32
}

/// Reading back the bytes of a `u16` gives the `u16`.
pub proof fn lemma_u16_roundtrip(v: u16, s: Seq<u8>, o: int)
    requires
        0 <= o,
        o + 2 <= s.len(),
        s.subrange(o, o + 2) == u16_le(v),
    ensures
        u16_at(s, o) == v,
{
    assert(s[o] == s.subrange(o, o + 2)[0]);
    assert(s[o + 1] == s.subrange(o, o + 2)[1]);
}

/// An `i16` survives the round trip through its `u16` bit pattern.
pub proof fn lemma_i16_bits(v: i16)
    ensures
        (v as u16) as i16 == v,
{
    assert((v as u16) as i16 == v) by (bit_vector);
}

/// A `u16` survives the round trip through its `i16` bit pattern.
pub proof fn lemma_u16_bits(v: u16)
    ensures
        (v as i16) as u16 == v,
{
    assert((v as i16) as u16 == v) by (bit_vector);
}

/// Reads the little-endian `u16` at offset `o`.
pub fn read_u16(data: &[u8], o: usize) -> (v: u16)
    requires
        o + 2 <= data@.len(),
    ensures
        v == u16_at(data@, o as int),
{
    data[o] as u16 + (data[o + 1] as u16) * 256
}

/// Reads the little-endian `i16` at offset `o`.
pub fn read_i16(data: &[u8], o: usize) -> (v: i16)
    requires
        o + 2 <= data@.len(),
    ensures
        v == i16_at(data@, o as int),
{
    read_u16(data, o) as i16
}

/// Reads the little-endian `u32` at offset `o`.
pub fn read_u32(data: &[u8], o: usize) -> (v: u32)
    requires
        o + 4 <= data@.len(),
    ensures
        v == u32_at(data@, o as int),
{
    data[o] as u32 + (data[o + 1] as u32) * 256 + (data[o + 2] as u32) * 65536 + (
    data[o + 3] as u32) * 16777216
}

/// Appends the little-endian bytes of `v`.
pub fn push_u16(buf: &mut Vec<u8>, v: u16)
    ensures
        final(buf)@ == old(buf)@ + u16_le(v),
{
    buf.push((v % 256) as u8);
    buf.push((v / 256) as u8);
}

/// Appends the little-endian bytes of `v`.
pub fn push_i16(buf: &mut Vec<u8>, v: i16)
    ensures
        final(buf)@ == old(buf)@ + i16_le(v),
{
    push_u16(buf, v as u16);
}

/// Appends the little-endian bytes of `v`.
pub fn push_u32(buf: &mut Vec<u8>, v: u32)
    ensures
        final(buf)@ == old(buf)@ + u32_le(v),
{
    buf.push((v % 256) as u8);
    buf.push(((v / 256) % 256) as u8);
    buf.push(((v / 65536) % 256) as u8);
    buf.push((v / 16777216) as u8);
}

/// Appends all of `src`.
pub fn push_bytes(buf: &mut Vec<u8>, src: &[u8])
    ensures
        final(buf)@ == old(buf)@ + src@,
{
    let ghost start = buf@;
    let mut i: usize = 0;
    while i < src.len()
        invariant
            i <= src@.len(),
            buf@ == start + src@.subrange(0, i as int),
        decreases src@.len() - i,
    {
        buf.push(src[i]);
        i += 1;
        assert(buf@ =~= start + src@.subrange(0, i as int));
    }
    assert(src@.subrange(0, src@.len() as int) =~= src@);
}

/// A fresh vector holding `data[start..end]`.
pub fn copy_range(data: &[u8], start: usize, end: usize) -> (v: Vec<u8>)
    requires
        start <= end <= data@.len(),
    ensures
        v@ == data@.subrange(start as int, end as int),
{
    let mut v: Vec<u8> = Vec::new();
    let mut i: usize = start;
    while i < end
        invariant
            start <= i <= end <= data@.len(),
            v@ == data@.subrange(start as int, i as int),
        decreases end - i,
    {
        v.push(data[i]);
        i += 1;
        assert(v@ =~= data@.subrange(start as int, i as int));
    }
    v
}

/// `i` is the first position of `b` in `s`.
pub open spec fn is_first_index(s: Seq<u8>, b: u8, i: int) -> bool {
    &&& 0 <= i < s.len()
    &&& s[i] == b
    &&& forall|j: int| 0 <= j < i ==> s[j] != b
}

/// First position of `b` in `s`, if any.
pub open spec fn first_index_of(s: Seq<u8>, b: u8) -> Option<int> {
    if exists|i: int| is_first_index(s, b, i) {
        Some(choose|i: int| is_first_index(s, b, i))
    } else {
        None
    }
}

/// The first position of a byte is unique, so `first_index_of` names it.
pub proof fn lemma_first_index_of(s: Seq<u8>, b: u8, i: int)
    requires
        is_first_index(s, b, i),
    ensures
        first_index_of(s, b) == Some(i),
{
    let c = choose|k: int| is_first_index(s, b, k);
    assert(is_first_index(s, b, c));
    if c < i {
        assert(s[c] != b);
    } else if i < c {
        assert(s[i] != b);
    }
}

/// A byte that does not occur has no first position.
pub proof fn lemma_first_index_of_none(s: Seq<u8>, b: u8)
    requires
        forall|j: int| 0 <= j < s.len() ==> s[j] != b,
    ensures
        first_index_of(s, b) is None,
{
    assert forall|i: int| !is_first_index(s, b, i) by {
        if 0 <= i < s.len() {
            assert(s[i] != b);
        }
    }
}

/// Position of the first `b` in `data[from..]`, counted from `from`.
pub fn position_from(data: &[u8], from: usize, b: u8) -> (r: Option<usize>)
    requires
        from <= data@.len(),
    ensures
        match r {
            Some(i) => first_index_of(data@.subrange(from as int, data@.len() as int), b) == Some(
                i as int,
            ) && from + i < data@.len(),
            None => first_index_of(data@.subrange(from as int, data@.len() as int), b) is None,
        },
{
    let ghost s = data@.subrange(from as int, data@.len() as int);
    let mut i: usize = from;
    while i < data.len()
        invariant
            from <= i <= data@.len(),
            s == data@.subrange(from as int, data@.len() as int),
            forall|j: int| 0 <= j < i - from ==> s[j] != b,
        decreases data@.len() - i,
    {
        if data[i] == b {
            proof {
                assert(s[i - from] == b);
                lemma_first_index_of(s, b, i - from);
            }
            return Some(i - from);
        }
        i += 1;
    }
    proof {
        lemma_first_index_of_none(s, b);
    }
    None
}

/// Fields inside the first part of a concatenation read the same.
pub proof fn lemma_at_concat_left(a: Seq<u8>, b: Seq<u8>, o: int)
    requires
        0 <= o,
    ensures
        o + 2 <= a.len() ==> u16_at(a + b, o) == u16_at(a, o),
        o + 2 <= a.len() ==> i16_at(a + b, o) == i16_at(a, o),
        o + 4 <= a.len() ==> u32_at(a + b, o) == u32_at(a, o),
        o < a.len() ==> (a + b)[o] == a[o],
{
}

/// Fields inside the second part of a concatenation read the same.
pub proof fn lemma_at_concat_right(a: Seq<u8>, b: Seq<u8>, o: int)
    requires
        0 <= o,
    ensures
        o + 2 <= b.len() ==> u16_at(a + b, a.len() + o) == u16_at(b, o),
        o + 2 <= b.len() ==> i16_at(a + b, a.len() + o) == i16_at(b, o),
        o + 4 <= b.len() ==> u32_at(a + b, a.len() + o) == u32_at(b, o),
        o < b.len() ==> (a + b)[a.len() + o] == b[o],
{
}

/// Little-endian bytes of a sequence of `u32` words.
pub open spec fn words_le(ws: Seq<u32>) -> Seq<u8>
    decreases ws.len(),
{
    if ws.len() == 0 {
        Seq::<u8>::empty()
    } else {
        words_le(ws.drop_last()) + u32_le(ws.last())
    }
}

/// The four bytes of a `u32` read back as that `u32`.
pub proof fn lemma_u32_le_value(v: u32)
    ensures
        u32_le(v).len() == 4,
        u32_at(u32_le(v), 0) == v,
{
    let b = u32_le(v);
    assert(b[0] == v % 256);
    assert(b[1] == (v / 256) % 256);
    assert(b[2] == (v / 65536) % 256);
    assert(b[3] == v / 16777216) by {
        assert(v / 16777216 < 256) by (bit_vector);
    }
    assert((v % 256) + 256 * ((v / 256) % 256) + 65536 * ((v / 65536) % 256) + 16777216 * (v
        / 16777216) == v) by (bit_vector);
}

/// Word `k` of a sequence of words sits at byte `4 * k` of its encoding.
pub proof fn lemma_words_le(ws: Seq<u32>)
    ensures
        words_le(ws).len() == 4 * ws.len(),
        forall|k: int| 0 <= k < ws.len() ==> u32_at(words_le(ws), 4 * k) == #[trigger] ws[k],
    decreases ws.len(),
{
    if ws.len() > 0 {
        let init = ws.drop_last();
        lemma_words_le(init);
        lemma_u32_le_value(ws.last());
        let a = words_le(init);
        let b = u32_le(ws.last());
        assert forall|k: int| 0 <= k < ws.len() implies u32_at(words_le(ws), 4 * k)
            == #[trigger] ws[k] by {
            if k < init.len() {
                lemma_at_concat_left(a, b, 4 * k);
                assert(ws[k] == init[k]);
            } else {
                lemma_at_concat_right(a, b, 0);
            }
        }
    }
}

/// Appends the little-endian bytes of each word.
pub fn push_words(buf: &mut Vec<u8>, ws: &[u32])
    ensures
        final(buf)@ == old(buf)@ + words_le(ws@),
{
    let ghost start = buf@;
    let mut i: usize = 0;
    while i < ws.len()
        invariant
            i <= ws@.len(),
            buf@ == start + words_le(ws@.take(i as int)),
        decreases ws@.len() - i,
    {
        push_u32(buf, ws[i]);
        i += 1;
        assert(ws@.take(i as int).drop_last() =~= ws@.take(i - 1));
        assert(buf@ =~= start + words_le(ws@.take(i as int)));
    }
    assert(ws@.take(ws@.len() as int) =~= ws@);
}

} // verus!
