//! The canonical binary form of the tagged unions exchanged with the consensus engine.
//!
//! Both `ChainMessage` and `FvmQuery` travel as DAG-CBOR, externally tagged: a variant
//! that carries a value is a map of one entry, whose key is the variant's name as a text
//! string and whose value is the payload; a variant without a value is its name alone.
//! This module frames and checks those bytes; the payload itself is kept as the bytes
//! of one well-formed CBOR item.
use vstd::prelude::*;

verus! {

/// Header byte of a CBOR map with exactly one entry.
pub const MAP_OF_ONE: u8 = 0xa1;

/// Header byte of a CBOR text string of length zero; short lengths are added to it.
pub const TEXT_BASE: u8 = 0x60;

/// Text strings shorter than this carry their length in the header byte itself.
pub const SHORT_TEXT_LIMIT: u8 = 24;

/// A text string whose length fits in its header byte.
pub open spec fn text_item(name: Seq<u8>) -> Seq<u8>
    recommends
        name.len() < 24,
{
    seq![(TEXT_BASE + name.len()) as u8] + name
}

/// A variant with a payload: a map of one entry from the name to the payload.
pub open spec fn variant_frame(name: Seq<u8>, payload: Seq<u8>) -> Seq<u8> {
    seq![MAP_OF_ONE] + text_item(name) + payload
}

/// Reads the frame of a variant with a payload: its name and the bytes after it.
pub open spec fn parse_frame(bz: Seq<u8>) -> Option<(Seq<u8>, Seq<u8>)> {
    if bz.len() >= 2 && bz[0] == MAP_OF_ONE && TEXT_BASE <= bz[1] && bz[1] < TEXT_BASE
        + SHORT_TEXT_LIMIT && bz.len() >= 2 + (bz[1] - TEXT_BASE) {
        let n = (bz[1] - TEXT_BASE) as int;
        Some((bz.subrange(2, 2 + n), bz.subrange(2 + n, bz.len() as int)))
    } else {
        None
    }
}

/// Reading the frame of a name and a payload gives them back.
pub proof fn lemma_frame_round_trip(name: Seq<u8>, payload: Seq<u8>)
    requires
        name.len() < 24,
    ensures
        parse_frame(variant_frame(name, payload)) == Some((name, payload)),
{
    let bz = variant_frame(name, payload);
    assert(bz[0] == MAP_OF_ONE);
    assert(bz[1] == (TEXT_BASE + name.len()) as u8);
    assert(bz.subrange(2, 2 + name.len() as int) =~= name);
    assert(bz.subrange(2 + name.len() as int, bz.len() as int) =~= payload);
}

/// Whatever reads as a frame is that frame.
pub proof fn lemma_frame_parsed(bz: Seq<u8>)
    requires
        parse_frame(bz) is Some,
    ensures
        ({
            let (name, payload) = parse_frame(bz)->Some_0;
            name.len() < 24 && bz == variant_frame(name, payload)
        }),
{
    let (name, payload) = parse_frame(bz)->Some_0;
    assert(bz =~= variant_frame(name, payload));
}

/// Why a payload of bytes is not the encoding of a value.
#[derive(Debug, Clone, Copy, PartialEq, Eq, Structural)]
pub enum DecodeError {
    /// The bytes are not a map of one entry keyed by a short text string, nor a name alone.
    NotAVariant,
    /// The key names no variant of the expected type.
    UnknownVariant,
    /// The value under the key is not what the variant carries.
    InvalidPayload,
}

/// Reads the frame of a variant with a payload, as `parse_frame` does.
/// Returns the name and the offset at which the payload starts.
pub fn split_frame(bz: &[u8]) -> (r: Option<(Vec<u8>, usize)>)
    ensures
        match parse_frame(bz@) {
            Some((name, payload)) => r is Some && r->Some_0.0@ == name && r->Some_0.1 == 2
                + name.len() && payload == bz@.subrange(r->Some_0.1 as int, bz@.len() as int),
            None => r is None,
        },
{
    if bz.len() < 2 || bz[0] != MAP_OF_ONE || bz[1] < TEXT_BASE || bz[1] >= TEXT_BASE
        + SHORT_TEXT_LIMIT {
        return None;
    }
    let n: usize = (bz[1] - TEXT_BASE) as usize;
    if bz.len() - 2 < n {
        return None;
    }
    let mut name: Vec<u8> = Vec::new();
    let mut i: usize = 0;
    while i < n
        invariant
            i <= n,
            2 + n <= bz.len(),
            name@ == bz@.subrange(2, 2 + i as int),
        decreases n - i,
    {
        name.push(bz[2 + i]);
        i = i + 1;
        assert(name@ =~= bz@.subrange(2, 2 + i as int));
    }
    Some((name, 2 + n))
}

/// Copies the bytes of `bz` from `start` to its end.
pub fn tail_from(bz: &[u8], start: usize) -> (r: Vec<u8>)
    requires
        start <= bz.len(),
    ensures
        r@ == bz@.subrange(start as int, bz@.len() as int),
{
    let mut out: Vec<u8> = Vec::new();
    let mut i: usize = start;
    while i < bz.len()
        invariant
            start <= i <= bz.len(),
            out@ == bz@.subrange(start as int, i as int),
        decreases bz.len() - i,
    {
        out.push(bz[i]);
        i = i + 1;
        assert(out@ =~= bz@.subrange(start as int, i as int));
    }
    out
}

/// Whether two byte strings are equal.
pub fn bytes_equal(a: &[u8], b: &[u8]) -> (r: bool)
    ensures
        r == (a@ == b@),
{
    if a.len() != b.len() {
        return false;
    }
    let mut i: usize = 0;
    while i < a.len()
        invariant
            a.len() == b.len(),
            i <= a.len(),
            a@.subrange(0, i as int) == b@.subrange(0, i as int),
        decreases a.len() - i,
    {
        if a[i] != b[i] {
            assert(a@[i as int] != b@[i as int]);
            return false;
        }
        assert(a@.subrange(0, i + 1) =~= a@.subrange(0, i as int).push(a@[i as int]));
        assert(b@.subrange(0, i + 1) =~= b@.subrange(0, i as int).push(b@[i as int]));
        i = i + 1;
    }
    assert(a@ =~= a@.subrange(0, a.len() as int));
    assert(b@ =~= b@.subrange(0, b.len() as int));
    true
}

/// Writes the frame of a variant: the name as a short text string under a map of one entry,
/// then the payload.
pub fn encode_frame(name: &[u8], payload: &[u8]) -> (r: Vec<u8>)
    requires
        name.len() < 24,
    ensures
        r@ == variant_frame(name@, payload@),
{
    let mut out: Vec<u8> = Vec::new();
    out.push(MAP_OF_ONE);
    out.push(TEXT_BASE + name.len() as u8);
    append_bytes(&mut out, name);
    append_bytes(&mut out, payload);
    assert(out@ =~= variant_frame(name@, payload@));
    out
}

/// Writes a variant without a payload: its name as a short text string.
pub fn encode_unit(name: &[u8]) -> (r: Vec<u8>)
    requires
        name.len() < 24,
    ensures
        r@ == text_item(name@),
{
    let mut out: Vec<u8> = Vec::new();
    out.push(TEXT_BASE + name.len() as u8);
    append_bytes(&mut out, name);
    assert(out@ =~= text_item(name@));
    out
}

/// Appends `more` to `out`.
pub fn append_bytes(out: &mut Vec<u8>, more: &[u8])
    ensures
        final(out)@ == old(out)@ + more@,
{
    let ghost start = out@;
    let mut i: usize = 0;
    while i < more.len()
        invariant
            i <= more.len(),
            out@ == start + more@.subrange(0, i as int),
        decreases more.len() - i,
    {
        out.push(more[i]);
        i = i + 1;
        assert(out@ =~= start + more@.subrange(0, i as int));
    }
    assert(more@ =~= more@.subrange(0, more.len() as int));
}

} // verus!
