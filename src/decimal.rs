//! Fixed-point prices and their decimal text.
use vstd::prelude::*;

verus! {

/// The number `value * 10^-decimals`.
#[derive(PartialEq, Eq, Structural, Clone, Copy, Debug)]
pub struct Decimal {
    pub value: i128,
    pub decimals: u32,
}

pub open spec fn digit_char(n: nat) -> u8 {
    (48 + n) as u8
}

/// The decimal digits of `n`, most significant first.
pub open spec fn digits_of(n: nat) -> Seq<u8>
    decreases n,
{
    if n < 10 {
        seq![digit_char(n)]
    } else {
        digits_of(n / 10).push(digit_char(n % 10))
    }
}

/// `v` in decimal, with a leading `-` when negative.
pub open spec fn int_text(v: int) -> Seq<u8> {
    if v < 0 {
        seq![45u8] + digits_of((-v) as nat)
    } else {
        digits_of(v as nat)
    }
}

/// The text of `v` with a point inserted `d` characters from its end; a text
/// no longer than `d` is zero-padded on the left and preceded by `0.`.
pub open spec fn decimal_text(v: int, d: nat) -> Seq<u8> {
    let s = int_text(v);
    if s.len() <= d {
        seq![48u8, 46u8] + Seq::new((d - s.len()) as nat, |i: int| 48u8) + s
    } else {
        s.subrange(0, s.len() - d) + seq![46u8] + s.subrange(s.len() - d, s.len() as int)
    }
}

fn digits(n: u128) -> (r: Vec<u8>)
    ensures
        r@ == digits_of(n as nat),
{
    let mut cur = n;
    let mut tail: Vec<u8> = Vec::new();
    while cur >= 10
        invariant
            digits_of(n as nat) == digits_of(cur as nat) + tail@,
        decreases cur,
    {
        let d = (cur % 10) as u8 + 48;
        let ghost before = tail@;
        tail.insert(0, d);
        assert(digits_of(cur as nat) == digits_of((cur / 10) as nat).push(d));
        assert(digits_of(cur as nat) + before =~= digits_of((cur / 10) as nat) + tail@);
        cur = cur / 10;
    }
    let mut out: Vec<u8> = Vec::new();
    out.push((cur as u8) + 48);
    let mut i: usize = 0;
    while i < tail.len()
        invariant
            i <= tail@.len(),
            out@ == seq![digit_char(cur as nat)] + tail@.subrange(0, i as int),
        decreases tail@.len() - i,
    {
        out.push(tail[i]);
        i = i + 1;
        assert(out@ =~= seq![digit_char(cur as nat)] + tail@.subrange(0, i as int));
    }
    assert(tail@.subrange(0, tail@.len() as int) =~= tail@);
    assert(digits_of(cur as nat) == seq![digit_char(cur as nat)]);
    out
}

impl Default for Decimal {
    fn default() -> (r: Decimal)
        ensures
            r == (Decimal { value: 0, decimals: 0 }),
    {
        Decimal { value: 0, decimals: 0 }
    }
}

impl Decimal {
    pub fn new(value: i128, decimals: u32) -> (r: Decimal)
        ensures
            r == (Decimal { value, decimals }),
    {
        Decimal { value, decimals }
    }

    /// The number in decimal notation, as ASCII text.
    pub fn to_text(&self) -> (r: Vec<u8>)
        ensures
            r@ == decimal_text(self.value as int, self.decimals as nat),
    {
        let mut s: Vec<u8> = Vec::new();
        let mag: u128;
        if self.value < 0 {
            s.push(45u8);
            mag = (-(self.value + 1)) as u128 + 1;
        } else {
            mag = self.value as u128;
        }
        let ds = digits(mag);
        let ghost head = s@;
        let mut i: usize = 0;
        while i < ds.len()
            invariant
                self.value < 0 ==> head == seq![45u8],
                self.value >= 0 ==> head == Seq::<u8>::empty(),
                i <= ds@.len(),
                s@ == head + ds@.subrange(0, i as int),
            decreases ds@.len() - i,
        {
            s.push(ds[i]);
            i = i + 1;
            assert(s@ =~= head + ds@.subrange(0, i as int));
        }
        proof {
            assert(ds@.subrange(0, ds@.len() as int) =~= ds@);
            assert(s@ =~= int_text(self.value as int));
        }
        let len = s.len();
        let d = self.decimals as usize;
        let mut out: Vec<u8> = Vec::new();
        if len <= d {
            out.push(48u8);
            out.push(46u8);
            let mut z: usize = 0;
            while z < d - len
                invariant
                    len <= d,
                    z <= d - len,
                    out@ == seq![48u8, 46u8] + Seq::new(z as nat, |i: int| 48u8),
                decreases d - len - z,
            {
                out.push(48u8);
                z = z + 1;
                assert(out@ =~= seq![48u8, 46u8] + Seq::new(z as nat, |i: int| 48u8));
            }
            let ghost prefix = out@;
            let mut j: usize = 0;
            while j < len
                invariant
                    len == s@.len(),
                    j <= len,
                    out@ == prefix + s@.subrange(0, j as int),
                decreases len - j,
            {
                out.push(s[j]);
                j = j + 1;
                assert(out@ =~= prefix + s@.subrange(0, j as int));
            }
            assert(s@.subrange(0, len as int) =~= s@);
        } else {
            let cut = len - d;
            let mut j: usize = 0;
            while j < len
                invariant
                    len == s@.len(),
                    cut <= len,
                    j <= len,
                    j <= cut ==> out@ == s@.subrange(0, j as int),
                    j > cut ==> out@ == s@.subrange(0, cut as int) + seq![46u8] + s@.subrange(cut as int, j as int),
                decreases len - j,
            {
                if j == cut {
                    out.push(46u8);
                    assert(out@ =~= s@.subrange(0, cut as int) + seq![46u8] + s@.subrange(cut as int, cut as int));
                }
                out.push(s[j]);
                j = j + 1;
                if j <= cut {
                    assert(out@ =~= s@.subrange(0, j as int));
                } else {
                    assert(out@ =~= s@.subrange(0, cut as int) + seq![46u8] + s@.subrange(cut as int, j as int));
                }
            }
            if cut == len {
                out.push(46u8);
                assert(out@ =~= s@.subrange(0, cut as int) + seq![46u8] + s@.subrange(cut as int, len as int));
            }
        }
        out
    }
}

} // verus!
