//! 32-byte account identities, held as four little-endian 64-bit words.
use vstd::prelude::*;

verus! {

/// An account identity (public key), as four little-endian words of its bytes.
#[derive(PartialEq, Eq, Structural, Clone, Copy, Debug, Hash)]
pub struct Key {
    pub w0: u64,
    pub w1: u64,
    pub w2: u64,
    pub w3: u64,
}

/// The unsigned integer stored little-endian in `d[at .. at + 8]`.
pub open spec fn le_u64(d: Seq<u8>, at: int) -> int {
    d[at] + 256 * (d[at + 1] + 256 * (d[at + 2] + 256 * (d[at + 3] + 256 * (d[at + 4] + 256 * (
    d[at + 5] + 256 * (d[at + 6] + 256 * d[at + 7]))))))
}

/// The key whose bytes are `d[at .. at + 32]`.
pub open spec fn key_at(d: Seq<u8>, at: int) -> Key {
    Key {
        w0: le_u64(d, at) as u64,
        w1: le_u64(d, at + 8) as u64,
        w2: le_u64(d, at + 16) as u64,
        w3: le_u64(d, at + 24) as u64,
    }
}

/// Reads the little-endian `u64` at byte offset `at`.
pub fn read_le_u64(d: &[u8], at: usize) -> (r: u64)
    requires
        at + 8 <= d.len(),
    ensures
        r as int == le_u64(d@, at as int),
{
    let mut w: u64 = d[at + 7] as u64;
    w = d[at + 6] as u64 + 256 * w;
    w = d[at + 5] as u64 + 256 * w;
    w = d[at + 4] as u64 + 256 * w;
    w = d[at + 3] as u64 + 256 * w;
    w = d[at + 2] as u64 + 256 * w;
    w = d[at + 1] as u64 + 256 * w;
    w = d[at] as u64 + 256 * w;
    w
}

/// The eight little-endian bytes of `w`.
pub fn le_bytes(w: u64) -> (r: [u8; 8])
    ensures
        le_u64(r@, 0) == w,
{
    let b0 = (w % 256) as u8;
    let w1 = w / 256;
    let b1 = (w1 % 256) as u8;
    let w2 = w1 / 256;
    let b2 = (w2 % 256) as u8;
    let w3 = w2 / 256;
    let b3 = (w3 % 256) as u8;
    let w4 = w3 / 256;
    let b4 = (w4 % 256) as u8;
    let w5 = w4 / 256;
    let b5 = (w5 % 256) as u8;
    let w6 = w5 / 256;
    let b6 = (w6 % 256) as u8;
    let w7 = w6 / 256;
    let b7 = (w7 % 256) as u8;
    assert(w7 < 256);
    let r = [b0, b1, b2, b3, b4, b5, b6, b7];
    assert(r@[0] == b0 && r@[1] == b1 && r@[2] == b2 && r@[3] == b3);
    assert(r@[4] == b4 && r@[5] == b5 && r@[6] == b6 && r@[7] == b7);
    r
}

impl Key {
    /// The 32 bytes of this key.
    pub fn to_bytes(&self) -> (r: [u8; 32])
        ensures
            key_at(r@, 0) == *self,
    {
        let a = le_bytes(self.w0);
        let b = le_bytes(self.w1);
        let c = le_bytes(self.w2);
        let d = le_bytes(self.w3);
        let r = [
            a[0], a[1], a[2], a[3], a[4], a[5], a[6], a[7],
            b[0], b[1], b[2], b[3], b[4], b[5], b[6], b[7],
            c[0], c[1], c[2], c[3], c[4], c[5], c[6], c[7],
            d[0], d[1], d[2], d[3], d[4], d[5], d[6], d[7],
        ];
        assert(forall|i: int| 0 <= i < 8 ==> r@[i] == a@[i] && r@[8 + i] == b@[i] && r@[16 + i] == c@[i] && r@[24 + i] == d@[i]);
        r
    }

    /// The key made of the given 32 bytes.
    pub fn from_bytes(bytes: &[u8; 32]) -> (r: Key)
        ensures
            r == key_at(bytes@, 0),
    {
        let s = bytes.as_slice();
        Key {
            w0: read_le_u64(s, 0),
            w1: read_le_u64(s, 8),
            w2: read_le_u64(s, 16),
            w3: read_le_u64(s, 24),
        }
    }

    /// The all-zero key, which marks an unset identity.
    pub fn zero() -> (r: Key)
        ensures
            r == Key::spec_zero(),
    {
        Key { w0: 0, w1: 0, w2: 0, w3: 0 }
    }

    pub open spec fn spec_zero() -> Key {
        Key { w0: 0, w1: 0, w2: 0, w3: 0 }
    }
}

} // verus!
