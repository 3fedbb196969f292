//! The fixed binary layout of a viewport for GPU upload.
//!
//! A viewport is exported as a 16-byte record of four little-endian 32-bit
//! scalars in the order `center.x, center.y, size.x, size.y`. The layout is
//! stated byte for byte, independent of any in-memory struct layout, because
//! a shader consumes it as a uniform block and the packing must never change.

use vstd::prelude::*;
use crate::viewport::{Vec2, Viewport};

verus! {

/// The four bytes of `v` in little-endian order.
pub open spec fn le32(v: u32) -> Seq<u8> {
    seq![
        (v & 0xff) as u8,
        ((v >> 8) & 0xff) as u8,
        ((v >> 16) & 0xff) as u8,
        ((v >> 24) & 0xff) as u8,
    ]
}

/// The 16-byte record of a viewport: `center.x, center.y, size.x, size.y`,
/// each as four little-endian bytes.
pub open spec fn record_of(v: Viewport) -> Seq<u8> {
    le32(v.center.x) + le32(v.center.y) + le32(v.size.x) + le32(v.size.y)
}

/// The 32-bit scalar whose little-endian bytes are `b0, b1, b2, b3`.
pub open spec fn u32_of_le(b0: u8, b1: u8, b2: u8, b3: u8) -> u32 {
    (b0 as u32) | ((b1 as u32) << 8) | ((b2 as u32) << 16) | ((b3 as u32) << 24)
}

/// The viewport whose record is the 16-byte sequence `s`.
pub open spec fn decoded(s: Seq<u8>) -> Viewport {
    Viewport {
        center: Vec2 {
            x: u32_of_le(s[0], s[1], s[2], s[3]),
            y: u32_of_le(s[4], s[5], s[6], s[7]),
        },
        size: Vec2 {
            x: u32_of_le(s[8], s[9], s[10], s[11]),
            y: u32_of_le(s[12], s[13], s[14], s[15]),
        },
    }
}

/// Appends the four little-endian bytes of `v` to `out`.
fn push_le32(out: &mut Vec<u8>, v: u32)
    ensures
        final(out)@ == old(out)@ + le32(v),
{
    out.push((v & 0xff) as u8);
    out.push(((v >> 8) & 0xff) as u8);
    out.push(((v >> 16) & 0xff) as u8);
    out.push(((v >> 24) & 0xff) as u8);
    assert(out@ =~= old(out)@ + le32(v));
}

/// Reassembling the little-endian bytes of a 32-bit scalar gives the scalar
/// back.
proof fn lemma_le32_roundtrip(v: u32)
    ensures
        u32_of_le(
            (v & 0xff) as u8,
            ((v >> 8) & 0xff) as u8,
            ((v >> 16) & 0xff) as u8,
            ((v >> 24) & 0xff) as u8,
        ) == v,
{
    assert(((v & 0xff) as u8 as u32) | (((v >> 8) & 0xff) as u8 as u32) << 8
        | (((v >> 16) & 0xff) as u8 as u32) << 16 | (((v >> 24) & 0xff) as u8 as u32) << 24
        == v) by (bit_vector);
}

/// A viewport's 16-byte record decodes to the viewport it came from, bit for
/// bit in each of the four scalars.
pub proof fn lemma_record_roundtrip(v: Viewport)
    ensures
        record_of(v).len() == 16,
        decoded(record_of(v)) == v,
{
    lemma_le32_roundtrip(v.center.x);
    lemma_le32_roundtrip(v.center.y);
    lemma_le32_roundtrip(v.size.x);
    lemma_le32_roundtrip(v.size.y);
    assert(decoded(record_of(v)) == v);
}

impl Viewport {
    /// Serializes the viewport to its 16-byte GPU record.
    pub fn to_bytes(&self) -> (r: Vec<u8>)
        ensures
            r@ == record_of(*self),
    {
        let mut out: Vec<u8> = Vec::new();
        push_le32(&mut out, self.center.x);
        push_le32(&mut out, self.center.y);
        push_le32(&mut out, self.size.x);
        push_le32(&mut out, self.size.y);
        assert(out@ =~= record_of(*self));
        out
    }

    /// Reads a viewport back from a 16-byte record; any other length is
    /// rejected.
    pub fn from_bytes(bytes: &[u8]) -> (r: Option<Viewport>)
        ensures
            r is Some <==> bytes@.len() == 16,
            bytes@.len() == 16 ==> r == Some(decoded(bytes@)),
    {
        if bytes.len() != 16 {
            return None;
        }
        let center = Vec2 {
            x: read_le32(bytes, 0),
            y: read_le32(bytes, 4),
        };
        let size = Vec2 {
            x: read_le32(bytes, 8),
            y: read_le32(bytes, 12),
        };
        Some(Viewport { center, size })
    }
}

/// Reads the little-endian 32-bit scalar at offset `i` of `bytes`.
fn read_le32(bytes: &[u8], i: usize) -> (r: u32)
    requires
        i + 4 <= bytes@.len(),
    ensures
        r == u32_of_le(bytes@[i as int], bytes@[i + 1], bytes@[i + 2], bytes@[i + 3]),
{
    (bytes[i] as u32) | ((bytes[i + 1] as u32) << 8) | ((bytes[i + 2] as u32) << 16)
        | ((bytes[i + 3] as u32) << 24)
}

} // verus!
