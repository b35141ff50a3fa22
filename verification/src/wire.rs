//! Fixed-width big-endian integers as they appear on the wire, and the
//! length-prefixed frame envelope.
//!
//! A response frame is an 8-byte big-endian unsigned length `L` followed by
//! exactly `L` bytes of payload.  A request carries no length prefix: it is
//! the 4-byte big-endian representation of a command code.

use vstd::prelude::*;

verus! {

/// The 8 bytes of `x`, most significant first.
pub open spec fn spec_u64_to_be_bytes(x: u64) -> Seq<u8> {
    seq![
        (x >> 56) as u8,
        (x >> 48) as u8,
        (x >> 40) as u8,
        (x >> 32) as u8,
        (x >> 24) as u8,
        (x >> 16) as u8,
        (x >> 8) as u8,
        x as u8,
    ]
}

/// The value read back from 8 big-endian bytes.
pub open spec fn spec_u64_from_be_bytes(s: Seq<u8>) -> u64
    recommends
        s.len() == 8,
{
    (((s[0] as u64) << 56) | ((s[1] as u64) << 48) | ((s[2] as u64) << 40) | ((s[3] as u64) << 32)
        | ((s[4] as u64) << 24) | ((s[5] as u64) << 16) | ((s[6] as u64) << 8) | (s[7] as u64)) as u64
}

/// The 4 bytes of `x`, most significant first.
pub open spec fn spec_u32_to_be_bytes(x: u32) -> Seq<u8> {
    seq![(x >> 24) as u8, (x >> 16) as u8, (x >> 8) as u8, x as u8]
}

/// The value read back from 4 big-endian bytes.
pub open spec fn spec_u32_from_be_bytes(s: Seq<u8>) -> u32
    recommends
        s.len() == 4,
{
    (((s[0] as u32) << 24) | ((s[1] as u32) << 16) | ((s[2] as u32) << 8) | (s[3] as u32)) as u32
}

/// Writing a `u64` big-endian and reading it back gives the value again.
pub proof fn lemma_u64_be_bytes_round_trip(x: u64)
    ensures
        spec_u64_from_be_bytes(spec_u64_to_be_bytes(x)) == x,
{
    let s = spec_u64_to_be_bytes(x);
    assert(((((x >> 56) as u8) as u64) << 56) | ((((x >> 48) as u8) as u64) << 48)
        | ((((x >> 40) as u8) as u64) << 40) | ((((x >> 32) as u8) as u64) << 32)
        | ((((x >> 24) as u8) as u64) << 24) | ((((x >> 16) as u8) as u64) << 16)
        | ((((x >> 8) as u8) as u64) << 8) | ((x as u8) as u64) == x) by (bit_vector);
}

/// Reading 8 bytes big-endian and writing the value back gives the bytes again.
pub proof fn lemma_u64_be_bytes_canonical(s: Seq<u8>)
    requires
        s.len() == 8,
    ensures
        spec_u64_to_be_bytes(spec_u64_from_be_bytes(s)) == s,
{
    let b0 = s[0];
    let b1 = s[1];
    let b2 = s[2];
    let b3 = s[3];
    let b4 = s[4];
    let b5 = s[5];
    let b6 = s[6];
    let b7 = s[7];
    let x = spec_u64_from_be_bytes(s);
    assert({
        let y = ((b0 as u64) << 56) | ((b1 as u64) << 48) | ((b2 as u64) << 40) | ((b3 as u64)
            << 32) | ((b4 as u64) << 24) | ((b5 as u64) << 16) | ((b6 as u64) << 8) | (b7 as u64);
        (y >> 56) as u8 == b0 && (y >> 48) as u8 == b1 && (y >> 40) as u8 == b2 && (y >> 32) as u8
            == b3 && (y >> 24) as u8 == b4 && (y >> 16) as u8 == b5 && (y >> 8) as u8 == b6
            && y as u8 == b7
    }) by (bit_vector);
    assert(spec_u64_to_be_bytes(x) =~= s);
}

/// Writing a `u32` big-endian and reading it back gives the value again.
pub proof fn lemma_u32_be_bytes_round_trip(x: u32)
    ensures
        spec_u32_from_be_bytes(spec_u32_to_be_bytes(x)) == x,
{
    assert(((((x >> 24) as u8) as u32) << 24) | ((((x >> 16) as u8) as u32) << 16)
        | ((((x >> 8) as u8) as u32) << 8) | ((x as u8) as u32) == x) by (bit_vector);
}

/// Append the 8 big-endian bytes of `x` to `out`.
pub fn push_u64_be(out: &mut Vec<u8>, x: u64)
    ensures
        final(out)@ == old(out)@ + spec_u64_to_be_bytes(x),
{
    let b0: u8 = (x >> 56) as u8;
    let b1: u8 = ((x >> 48) & 0xff) as u8;
    let b2: u8 = ((x >> 40) & 0xff) as u8;
    let b3: u8 = ((x >> 32) & 0xff) as u8;
    let b4: u8 = ((x >> 24) & 0xff) as u8;
    let b5: u8 = ((x >> 16) & 0xff) as u8;
    let b6: u8 = ((x >> 8) & 0xff) as u8;
    let b7: u8 = (x & 0xff) as u8;
    proof {
        assert((x >> 56) <= 0xff && ((x >> 48) & 0xff) <= 0xff && ((x >> 40) & 0xff) <= 0xff && ((x
            >> 32) & 0xff) <= 0xff && ((x >> 24) & 0xff) <= 0xff && ((x >> 16) & 0xff) <= 0xff && ((
        x >> 8) & 0xff) <= 0xff && (x & 0xff) <= 0xff) by (bit_vector);
        assert(((x >> 48) & 0xff) as u8 == (x >> 48) as u8 && ((x >> 40) & 0xff) as u8 == (x >> 40) as u8
            && ((x >> 32) & 0xff) as u8 == (x >> 32) as u8 && ((x >> 24) & 0xff) as u8 == (x
            >> 24) as u8 && ((x >> 16) & 0xff) as u8 == (x >> 16) as u8 && ((x >> 8) & 0xff) as u8
            == (x >> 8) as u8 && (x & 0xff) as u8 == x as u8) by (bit_vector);
    }
    out.push(b0);
    out.push(b1);
    out.push(b2);
    out.push(b3);
    out.push(b4);
    out.push(b5);
    out.push(b6);
    out.push(b7);
    assert(out@ =~= old(out)@ + spec_u64_to_be_bytes(x));
}

/// Append the 4 big-endian bytes of `x` to `out`.
pub fn push_u32_be(out: &mut Vec<u8>, x: u32)
    ensures
        final(out)@ == old(out)@ + spec_u32_to_be_bytes(x),
{
    let b0: u8 = (x >> 24) as u8;
    let b1: u8 = ((x >> 16) & 0xff) as u8;
    let b2: u8 = ((x >> 8) & 0xff) as u8;
    let b3: u8 = (x & 0xff) as u8;
    proof {
        assert((x >> 24) <= 0xff && ((x >> 16) & 0xff) <= 0xff && ((x >> 8) & 0xff) <= 0xff && (x
            & 0xff) <= 0xff) by (bit_vector);
        assert(((x >> 16) & 0xff) as u8 == (x >> 16) as u8 && ((x >> 8) & 0xff) as u8 == (x
            >> 8) as u8 && (x & 0xff) as u8 == x as u8) by (bit_vector);
    }
    out.push(b0);
    out.push(b1);
    out.push(b2);
    out.push(b3);
    assert(out@ =~= old(out)@ + spec_u32_to_be_bytes(x));
}

/// A frame: the payload's length as 8 big-endian bytes, then the payload.
pub open spec fn spec_frame(payload: Seq<u8>) -> Seq<u8>
    recommends
        payload.len() <= u64::MAX,
{
    spec_u64_to_be_bytes(payload.len() as u64) + payload
}

/// Wrap a payload in the frame envelope.  The frame is exactly 8 bytes longer
/// than the payload and its first 8 bytes hold the payload's length.
pub fn make_frame(payload: &Vec<u8>) -> (r: Vec<u8>)
    ensures
        r@ == spec_frame(payload@),
        r@.len() == 8 + payload@.len(),
        spec_u64_from_be_bytes(r@.subrange(0, 8)) == payload@.len(),
        r@.subrange(8, r@.len() as int) == payload@,
{
    let mut out: Vec<u8> = Vec::new();
    push_u64_be(&mut out, payload.len() as u64);
    let mut i: usize = 0;
    while i < payload.len()
        invariant
            i <= payload@.len(),
            out@ == spec_u64_to_be_bytes(payload@.len() as u64) + payload@.subrange(0, i as int),
        decreases payload@.len() - i,
    {
        out.push(payload[i]);
        i = i + 1;
        assert(out@ =~= spec_u64_to_be_bytes(payload@.len() as u64) + payload@.subrange(
            0,
            i as int,
        ));
    }
    proof {
        assert(payload@.subrange(0, payload@.len() as int) =~= payload@);
        lemma_u64_be_bytes_round_trip(payload@.len() as u64);
        assert(out@.subrange(0, 8) =~= spec_u64_to_be_bytes(payload@.len() as u64));
        assert(out@.subrange(8, out@.len() as int) =~= payload@);
    }
    out
}

/// Take the payload out of one received datagram, defensively: the datagram
/// must hold the 8-byte length prefix and at least that many payload bytes.
/// Bytes after the announced payload are ignored.
pub fn frame_payload(datagram: &[u8]) -> (r: Option<Vec<u8>>)
    ensures
        match r {
            Some(p) => {
                &&& datagram@.len() >= 8
                &&& p@.len() == spec_u64_from_be_bytes(datagram@.subrange(0, 8))
                &&& 8 + p@.len() <= datagram@.len()
                &&& p@ == datagram@.subrange(8, 8 + p@.len() as int)
            },
            None => datagram@.len() < 8 || spec_u64_from_be_bytes(datagram@.subrange(0, 8))
                > datagram@.len() - 8,
        },
{
    if datagram.len() < 8 {
        return None;
    }
    let announced = read_u64_be(datagram, 0);
    if announced > (datagram.len() - 8) as u64 {
        return None;
    }
    let len = announced as usize;
    let mut p: Vec<u8> = Vec::new();
    let mut i: usize = 0;
    while i < len
        invariant
            i <= len,
            len + 8 <= datagram@.len(),
            datagram@.len() <= usize::MAX,
            p@ == datagram@.subrange(8, 8 + i as int),
        decreases len - i,
    {
        p.push(datagram[8 + i]);
        i = i + 1;
        assert(p@ =~= datagram@.subrange(8, 8 + i as int));
    }
    Some(p)
}

/// Read the `u64` held big-endian in `s[offset .. offset + 8]`.
pub fn read_u64_be(s: &[u8], offset: usize) -> (x: u64)
    requires
        offset + 8 <= s@.len(),
    ensures
        x == spec_u64_from_be_bytes(s@.subrange(offset as int, offset + 8)),
{
    let x = ((s[offset] as u64) << 56) | ((s[offset + 1] as u64) << 48) | ((s[offset + 2] as u64)
        << 40) | ((s[offset + 3] as u64) << 32) | ((s[offset + 4] as u64) << 24) | ((s[offset
        + 5] as u64) << 16) | ((s[offset + 6] as u64) << 8) | (s[offset + 7] as u64);
    proof {
        let sub = s@.subrange(offset as int, offset + 8);
        assert(sub[0] == s@[offset as int] && sub[1] == s@[offset + 1] && sub[2] == s@[offset + 2]
            && sub[3] == s@[offset + 3] && sub[4] == s@[offset + 4] && sub[5] == s@[offset + 5]
            && sub[6] == s@[offset + 6] && sub[7] == s@[offset + 7]);
    }
    x
}

/// Read the `u32` held big-endian in `s[offset .. offset + 4]`.
pub fn read_u32_be(s: &[u8], offset: usize) -> (x: u32)
    requires
        offset + 4 <= s@.len(),
    ensures
        x == spec_u32_from_be_bytes(s@.subrange(offset as int, offset + 4)),
{
    let x = ((s[offset] as u32) << 24) | ((s[offset + 1] as u32) << 16) | ((s[offset + 2] as u32)
        << 8) | (s[offset + 3] as u32);
    proof {
        let sub = s@.subrange(offset as int, offset + 4);
        assert(sub[0] == s@[offset as int] && sub[1] == s@[offset + 1] && sub[2] == s@[offset + 2]
            && sub[3] == s@[offset + 3]);
    }
    x
}

} // verus!
