//! The projection that takes viewport coordinates to clip space.
//!
//! A `Transformation` is a 4×4 matrix stored column by column: the element in
//! row `r` of column `c` is entry `4 * c + r`. Its entries are exact ratios of
//! 16-bit integers, so what the matrix does to a point can be stated without
//! rounding; `as_bits` rounds each entry once, to the binary32 value that is
//! uploaded.
//!
//! Clip space has its origin in the middle of the target, `x` growing to the
//! right and `y` growing downwards: the top-left corner of the target is
//! `(-1, -1)` and the bottom-right corner is `(1, 1)`.

use crate::binary32::round;
use crate::binary32::rounded;
use vstd::prelude::*;

verus! {

/// The ratio `num / den`. In a `Transformation` the denominator is positive.
#[derive(Clone, Copy, Debug, PartialEq, Eq, Structural)]
pub struct Ratio {
    pub num: i16,
    pub den: u16,
}

/// A quotient of two integers, for statements about exact values.
pub struct Fraction {
    pub num: int,
    pub den: int,
}

impl Fraction {
    /// The fraction has a positive denominator and the value `k`.
    pub open spec fn is_integer(self, k: int) -> bool {
        self.den > 0 && self.num == k * self.den
    }
}

/// The whole number `k` as a ratio.
pub open spec fn whole(k: int) -> Ratio {
    Ratio { num: k as i16, den: 1 }
}

/// The entries of the identity matrix.
pub open spec fn identity_entries() -> Seq<Ratio> {
    seq![
        whole(1), whole(0), whole(0), whole(0),
        whole(0), whole(1), whole(0), whole(0),
        whole(0), whole(0), whole(1), whole(0),
        whole(0), whole(0), whole(0), whole(1),
    ]
}

/// The entries of the orthographic projection of a `width` × `height`
/// viewport: `x` is scaled by `2 / width`, `y` by `2 / height`, and both are
/// moved by `-1`. A viewport without area has no such projection and gets the
/// identity.
pub open spec fn orthographic_entries(width: u16, height: u16) -> Seq<Ratio> {
    if width == 0 || height == 0 {
        identity_entries()
    } else {
        seq![
            Ratio { num: 2, den: width }, whole(0), whole(0), whole(0),
            whole(0), Ratio { num: 2, den: height }, whole(0), whole(0),
            whole(0), whole(0), whole(1), whole(0),
            whole(-1), whole(-1), whole(0), whole(1),
        ]
    }
}

/// Each entry of a matrix rounded to the nearest binary32 value.
pub open spec fn entries_bits(entries: Seq<Ratio>) -> Seq<u32> {
    Seq::new(16, |i: int| rounded(entries[i].num as int, entries[i].den as int))
}

/// Row `row` of the image of the point `(x, y, 0, 1)` under the matrix
/// `entries`: the sum of `x` times the entry in column 0, `y` times the entry
/// in column 1 and the entry in column 3, over their common denominator.
pub open spec fn image(entries: Seq<Ratio>, row: int, x: int, y: int) -> Fraction {
    let a = entries[row];
    let b = entries[4 + row];
    let t = entries[12 + row];
    Fraction {
        num: a.num * x * (b.den * t.den) + b.num * y * (a.den * t.den) + t.num * (a.den * b.den),
        den: a.den * (b.den * t.den),
    }
}

/// A 4×4 projection matrix with exact entries.
#[derive(Clone, Copy, Debug, PartialEq, Eq)]
pub struct Transformation {
    entries: [Ratio; 16],
}

impl View for Transformation {
    type V = Seq<Ratio>;

    closed spec fn view(&self) -> Seq<Ratio> {
        self.entries@
    }
}

impl Transformation {
    #[verifier::type_invariant]
    spec fn well_formed(self) -> bool {
        forall|i: int| 0 <= i < 16 ==> (#[trigger] self.entries[i]).den > 0
    }

    /// The matrix that leaves every point where it is.
    pub fn identity() -> (t: Transformation)
        ensures
            t@ == identity_entries(),
    {
        let o = Ratio { num: 0, den: 1 };
        let i = Ratio { num: 1, den: 1 };
        let t = Transformation { entries: [i, o, o, o, o, i, o, o, o, o, i, o, o, o, o, i] };
        assert(t@ =~= identity_entries());
        t
    }

    /// The projection of the viewport `[0, width] × [0, height]` onto clip
    /// space, top-left corner to `(-1, -1)`. Where `width` or `height` is
    /// zero the result is the identity.
    pub fn orthographic(width: u16, height: u16) -> (t: Transformation)
        ensures
            t@ == orthographic_entries(width, height),
    {
        if width == 0 || height == 0 {
            return Transformation::identity();
        }
        let o = Ratio { num: 0, den: 1 };
        let i = Ratio { num: 1, den: 1 };
        let m = Ratio { num: -1, den: 1 };
        let sx = Ratio { num: 2, den: width };
        let sy = Ratio { num: 2, den: height };
        let t = Transformation { entries: [sx, o, o, o, o, sy, o, o, o, o, i, o, m, m, o, i] };
        assert(t@ =~= orthographic_entries(width, height));
        t
    }

    /// The sixteen entries, column by column, each rounded to the nearest
    /// binary32 value: the array that is uploaded to the device.
    pub fn as_bits(&self) -> (bits: [u32; 16])
        ensures
            bits@ == entries_bits(self@),
    {
        proof {
            use_type_invariant(self);
        }
        let mut bits: [u32; 16] = [0;16];
        let mut k: usize = 0;
        while k < 16
            invariant
                k <= 16,
                forall|i: int| 0 <= i < 16 ==> (#[trigger] self.entries[i]).den > 0,
                forall|i: int|
                    0 <= i < k ==> #[trigger] bits[i] == rounded(
                        self.entries[i].num as int,
                        self.entries[i].den as int,
                    ),
            decreases 16 - k,
        {
            let entry = self.entries[k];
            bits[k] = round(entry.num, entry.den);
            k = k + 1;
        }
        assert(bits@ =~= entries_bits(self@));
        bits
    }
}

/// The numerator and the denominator of `a * x + b * y + t`, over the common
/// denominator of the three ratios.
proof fn lemma_image(entries: Seq<Ratio>, row: int, x: int, y: int, a: Ratio, b: Ratio, t: Ratio)
    requires
        entries[row] == a,
        entries[4 + row] == b,
        entries[12 + row] == t,
    ensures
        image(entries, row, x, y).num == a.num * x * (b.den * t.den) + b.num * y * (a.den * t.den)
            + t.num * (a.den * b.den),
        image(entries, row, x, y).den == a.den * (b.den * t.den),
{
}

/// The orthographic projection of a viewport with area takes the viewport's
/// top-left corner `(0, 0)` to the clip-space corner `(-1, -1)` and its
/// bottom-right corner `(width, height)` to the opposite corner `(1, 1)`.
pub proof fn lemma_orthographic_corners(width: u16, height: u16)
    requires
        width > 0,
        height > 0,
    ensures
        image(orthographic_entries(width, height), 0, 0, 0).is_integer(-1),
        image(orthographic_entries(width, height), 1, 0, 0).is_integer(-1),
        image(orthographic_entries(width, height), 3, 0, 0).is_integer(1),
        image(orthographic_entries(width, height), 0, width as int, height as int).is_integer(1),
        image(orthographic_entries(width, height), 1, width as int, height as int).is_integer(1),
        image(orthographic_entries(width, height), 3, width as int, height as int).is_integer(1),
{
    let m = orthographic_entries(width, height);
    let w = width as int;
    let h = height as int;
    let sx = Ratio { num: 2, den: width };
    let sy = Ratio { num: 2, den: height };
    lemma_image(m, 0, 0, 0, sx, whole(0), whole(-1));
    lemma_image(m, 1, 0, 0, whole(0), sy, whole(-1));
    lemma_image(m, 3, 0, 0, whole(0), whole(0), whole(1));
    lemma_image(m, 0, w, h, sx, whole(0), whole(-1));
    lemma_image(m, 1, w, h, whole(0), sy, whole(-1));
    lemma_image(m, 3, w, h, whole(0), whole(0), whole(1));
    assert(2 * w * (1 * 1) + 0 * h * (w * 1) + (-1) * (w * 1) == 1 * (w * (1 * 1))) by (nonlinear_arith);
    assert(0 * w * (h * 1) + 2 * h * (1 * 1) + (-1) * (1 * h) == 1 * (1 * (h * 1))) by (nonlinear_arith);
    assert(2 * 0 * (1 * 1) + 0 * 0 * (w * 1) + (-1) * (w * 1) == (-1) * (w * (1 * 1))) by (nonlinear_arith);
    assert(0 * 0 * (h * 1) + 2 * 0 * (1 * 1) + (-1) * (1 * h) == (-1) * (1 * (h * 1))) by (nonlinear_arith);
}

/// The identity leaves the coordinates of every point unchanged.
pub proof fn lemma_identity_fixes_points(x: int, y: int)
    ensures
        image(identity_entries(), 0, x, y).is_integer(x),
        image(identity_entries(), 1, x, y).is_integer(y),
        image(identity_entries(), 2, x, y).is_integer(0),
        image(identity_entries(), 3, x, y).is_integer(1),
{
    let m = identity_entries();
    lemma_image(m, 0, x, y, whole(1), whole(0), whole(0));
    lemma_image(m, 1, x, y, whole(0), whole(1), whole(0));
    lemma_image(m, 2, x, y, whole(0), whole(0), whole(0));
    lemma_image(m, 3, x, y, whole(0), whole(0), whole(1));
    assert(1 * x * (1 * 1) + 0 * y * (1 * 1) + 0 * (1 * 1) == x * (1 * (1 * 1))) by (nonlinear_arith);
    assert(0 * x * (1 * 1) + 1 * y * (1 * 1) + 0 * (1 * 1) == y * (1 * (1 * 1))) by (nonlinear_arith);
}

/// The orthographic projection of a viewport with area takes the point
/// `(x, y)` to `((2 * x - width) / width, (2 * y - height) / height, 0, 1)`.
/// A point of the viewport therefore lands in clip space: each of its first
/// two coordinates lies between `-1` and `1`.
pub proof fn lemma_orthographic_image(width: u16, height: u16, x: int, y: int)
    requires
        width > 0,
        height > 0,
    ensures
        image(orthographic_entries(width, height), 0, x, y) == (Fraction {
            num: 2 * x - width,
            den: width as int,
        }),
        image(orthographic_entries(width, height), 1, x, y) == (Fraction {
            num: 2 * y - height,
            den: height as int,
        }),
        image(orthographic_entries(width, height), 2, x, y).is_integer(0),
        image(orthographic_entries(width, height), 3, x, y).is_integer(1),
        0 <= x <= width ==> -width <= 2 * x - width <= width,
        0 <= y <= height ==> -height <= 2 * y - height <= height,
{
    let m = orthographic_entries(width, height);
    let w = width as int;
    let h = height as int;
    let sx = Ratio { num: 2, den: width };
    let sy = Ratio { num: 2, den: height };
    lemma_image(m, 0, x, y, sx, whole(0), whole(-1));
    lemma_image(m, 1, x, y, whole(0), sy, whole(-1));
    lemma_image(m, 2, x, y, whole(0), whole(0), whole(0));
    lemma_image(m, 3, x, y, whole(0), whole(0), whole(1));
    assert(2 * x * (1 * 1) + 0 * y * (w * 1) + (-1) * (w * 1) == 2 * x - w) by (nonlinear_arith);
    assert(0 * x * (h * 1) + 2 * y * (1 * 1) + (-1) * (1 * h) == 2 * y - h) by (nonlinear_arith);
    assert(w * (1 * 1) == w && 1 * (h * 1) == h) by (nonlinear_arith);
    assert(0 * x * (1 * 1) + 0 * y * (1 * 1) + 0 * (1 * 1) == 0 * (1 * (1 * 1))) by (nonlinear_arith);
    assert(0 * x * (1 * 1) + 0 * y * (1 * 1) + 1 * (1 * 1) == 1 * (1 * (1 * 1))) by (nonlinear_arith);
}

} // verus!
