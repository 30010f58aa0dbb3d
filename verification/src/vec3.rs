//! A three-component vector over exact integer scalars.
//!
//! The three stored components are addressed both as spatial axes (x, y, z)
//! and as color channels (r, g, b): the two views are read accessors over the
//! identical storage, never separate state. All arithmetic is exact; every
//! operation's contract pins each component of the result, and the only
//! failure in the whole type is an out-of-range component index.

use vstd::prelude::*;

verus! {

/// `x` fits in the scalar type the components are stored in.
pub open spec fn fits_i64(x: int) -> bool {
    i64::MIN as int <= x <= i64::MAX as int
}

/// Componentwise sum of two vectors.
pub open spec fn vadd(a: Seq<int>, b: Seq<int>) -> Seq<int> {
    seq![a[0] + b[0], a[1] + b[1], a[2] + b[2]]
}

/// Componentwise difference of two vectors (first minus second).
pub open spec fn vsub(a: Seq<int>, b: Seq<int>) -> Seq<int> {
    seq![a[0] - b[0], a[1] - b[1], a[2] - b[2]]
}

/// Each component multiplied by the scalar `s`.
pub open spec fn vscale(v: Seq<int>, s: int) -> Seq<int> {
    seq![v[0] * s, v[1] * s, v[2] * s]
}

/// The standard 3D cross product.
pub open spec fn vcross(a: Seq<int>, b: Seq<int>) -> Seq<int> {
    seq![
        a[1] * b[2] - a[2] * b[1],
        a[2] * b[0] - a[0] * b[2],
        a[0] * b[1] - a[1] * b[0],
    ]
}

/// Sum of the squared components.
pub open spec fn vsquared_length(v: Seq<int>) -> int {
    v[0] * v[0] + v[1] * v[1] + v[2] * v[2]
}

/// Every component of the sum of `a` and `b` fits in the scalar type.
pub open spec fn add_fits(a: Seq<int>, b: Seq<int>) -> bool {
    &&& fits_i64(a[0] + b[0])
    &&& fits_i64(a[1] + b[1])
    &&& fits_i64(a[2] + b[2])
}

/// Every component of the difference of `a` and `b` fits in the scalar type.
pub open spec fn sub_fits(a: Seq<int>, b: Seq<int>) -> bool {
    &&& fits_i64(a[0] - b[0])
    &&& fits_i64(a[1] - b[1])
    &&& fits_i64(a[2] - b[2])
}

/// Every component of `v` scaled by `s` fits in the scalar type.
pub open spec fn scale_fits(v: Seq<int>, s: int) -> bool {
    &&& fits_i64(v[0] * s)
    &&& fits_i64(v[1] * s)
    &&& fits_i64(v[2] * s)
}

/// Every intermediate product and every component of the cross product of
/// `a` and `b` fits in the scalar type.
pub open spec fn cross_fits(a: Seq<int>, b: Seq<int>) -> bool {
    &&& fits_i64(a[1] * b[2])
    &&& fits_i64(a[2] * b[1])
    &&& fits_i64(a[2] * b[0])
    &&& fits_i64(a[0] * b[2])
    &&& fits_i64(a[0] * b[1])
    &&& fits_i64(a[1] * b[0])
    &&& fits_i64(a[1] * b[2] - a[2] * b[1])
    &&& fits_i64(a[2] * b[0] - a[0] * b[2])
    &&& fits_i64(a[0] * b[1] - a[1] * b[0])
}

/// The sum of the squared components of `v` fits in the scalar type.
pub open spec fn squared_length_fits(v: Seq<int>) -> bool {
    fits_i64(vsquared_length(v))
}

/// The failure signal of indexed component access: the index was not 0, 1 or 2.
#[derive(Debug, PartialEq, Eq, Clone, Copy)]
pub struct IndexOutOfRange;

/// A three-element vector. The components are stored once; the axis accessors
/// (x, y, z) and the color accessors (r, g, b) read the same three fields.
#[derive(Debug, PartialEq, Clone, Copy)]
pub struct Vec3 {
    e0: i64,
    e1: i64,
    e2: i64,
}

impl View for Vec3 {
    type V = Seq<int>;

    closed spec fn view(&self) -> Seq<int> {
        seq![self.e0 as int, self.e1 as int, self.e2 as int]
    }
}

impl Vec3 {
    /// A vector whose components are the three given scalars, in order.
    pub fn new(x: i64, y: i64, z: i64) -> (v: Vec3)
        ensures
            v@ == seq![x as int, y as int, z as int],
    {
        Vec3 { e0: x, e1: y, e2: z }
    }

    /// First component, as a spatial axis.
    pub fn x(&self) -> (r: i64)
        ensures
            r as int == self@[0],
    {
        self.e0
    }

    /// Second component, as a spatial axis.
    pub fn y(&self) -> (r: i64)
        ensures
            r as int == self@[1],
    {
        self.e1
    }

    /// Third component, as a spatial axis.
    pub fn z(&self) -> (r: i64)
        ensures
            r as int == self@[2],
    {
        self.e2
    }

    /// First component, as a color channel: the same stored value as `x`.
    pub fn r(&self) -> (r: i64)
        ensures
            r as int == self@[0],
    {
        self.e0
    }

    /// Second component, as a color channel: the same stored value as `y`.
    pub fn g(&self) -> (r: i64)
        ensures
            r as int == self@[1],
    {
        self.e1
    }

    /// Third component, as a color channel: the same stored value as `z`.
    pub fn b(&self) -> (r: i64)
        ensures
            r as int == self@[2],
    {
        self.e2
    }

    /// Indexed read: the component at position `i`, or `IndexOutOfRange`
    /// exactly when `i` is not 0, 1 or 2.
    pub fn get(&self, i: usize) -> (r: Result<i64, IndexOutOfRange>)
        ensures
            r is Ok <==> i < 3,
            i < 3 ==> r->Ok_0 as int == self@[i as int],
    {
        match i {
            0 => Ok(self.e0),
            1 => Ok(self.e1),
            2 => Ok(self.e2),
            _ => Err(IndexOutOfRange),
        }
    }

    /// Indexed write: replaces the component at position `i` in place, or
    /// returns `IndexOutOfRange`, leaving the vector unchanged, exactly when
    /// `i` is not 0, 1 or 2.
    pub fn set(&mut self, i: usize, value: i64) -> (r: Result<(), IndexOutOfRange>)
        ensures
            r is Ok <==> i < 3,
            i < 3 ==> final(self)@ == old(self)@.update(i as int, value as int),
            i >= 3 ==> final(self)@ == old(self)@,
    {
        match i {
            0 => {
                self.e0 = value;
                proof {
                    assert(self@ =~= old(self)@.update(i as int, value as int));
                }
                Ok(())
            }
            1 => {
                self.e1 = value;
                proof {
                    assert(self@ =~= old(self)@.update(i as int, value as int));
                }
                Ok(())
            }
            2 => {
                self.e2 = value;
                proof {
                    assert(self@ =~= old(self)@.update(i as int, value as int));
                }
                Ok(())
            }
            _ => Err(IndexOutOfRange),
        }
    }

    /// Componentwise sum. Pure: neither operand is mutated.
    pub fn add(self, other: Vec3) -> (r: Vec3)
        requires
            add_fits(self@, other@),
        ensures
            r@ == vadd(self@, other@),
    {
        Vec3 { e0: self.e0 + other.e0, e1: self.e1 + other.e1, e2: self.e2 + other.e2 }
    }

    /// Componentwise difference, `self` minus `other`. Order matters: this
    /// operation is not commutative.
    pub fn sub(self, other: Vec3) -> (r: Vec3)
        requires
            sub_fits(self@, other@),
        ensures
            r@ == vsub(self@, other@),
    {
        Vec3 { e0: self.e0 - other.e0, e1: self.e1 - other.e1, e2: self.e2 - other.e2 }
    }

    /// Each component multiplied by the scalar `s`.
    pub fn scale(self, s: i64) -> (r: Vec3)
        requires
            scale_fits(self@, s as int),
        ensures
            r@ == vscale(self@, s as int),
    {
        Vec3 { e0: self.e0 * s, e1: self.e1 * s, e2: self.e2 * s }
    }

    /// The standard 3D cross product of `self` and `other`:
    /// (y1*z2 - z1*y2, z1*x2 - x1*z2, x1*y2 - y1*x2).
    pub fn cross_product(self, other: Vec3) -> (r: Vec3)
        requires
            cross_fits(self@, other@),
        ensures
            r@ == vcross(self@, other@),
    {
        Vec3 {
            e0: self.e1 * other.e2 - self.e2 * other.e1,
            e1: self.e2 * other.e0 - self.e0 * other.e2,
            e2: self.e0 * other.e1 - self.e1 * other.e0,
        }
    }

    /// Sum of the squared components. Never negative.
    pub fn squared_length(&self) -> (r: i64)
        requires
            squared_length_fits(self@),
        ensures
            r as int == vsquared_length(self@),
            r >= 0,
    {
        proof {
            assert(self@[0] * self@[0] >= 0) by (nonlinear_arith);
            assert(self@[1] * self@[1] >= 0) by (nonlinear_arith);
            assert(self@[2] * self@[2] >= 0) by (nonlinear_arith);
        }
        self.e0 * self.e0 + self.e1 * self.e1 + self.e2 * self.e2
    }
}

/// Vector addition is commutative: adding in either order gives the same
/// vector.
pub proof fn lemma_add_commutes(a: Seq<int>, b: Seq<int>)
    ensures
        vadd(a, b) == vadd(b, a),
{
    assert(vadd(a, b) =~= vadd(b, a));
}

/// Vector subtraction is not commutative: the two orders agree exactly when
/// the operands are equal.
pub proof fn lemma_sub_commutes_iff_equal(a: Seq<int>, b: Seq<int>)
    requires
        a.len() == 3,
        b.len() == 3,
    ensures
        vsub(a, b) == vsub(b, a) <==> a == b,
{
    if vsub(a, b) == vsub(b, a) {
        assert(a[0] == b[0]) by {
            assert(vsub(a, b)[0] == vsub(b, a)[0]);
        }
        assert(a[1] == b[1]) by {
            assert(vsub(a, b)[1] == vsub(b, a)[1]);
        }
        assert(a[2] == b[2]) by {
            assert(vsub(a, b)[2] == vsub(b, a)[2]);
        }
        assert(a =~= b);
    }
    if a == b {
        assert(vsub(a, b) =~= vsub(b, a));
    }
}

/// Scaling a vector by `s` multiplies its squared length by `s * s`.
pub proof fn lemma_squared_length_of_scale(v: Seq<int>, s: int)
    ensures
        vsquared_length(vscale(v, s)) == s * s * vsquared_length(v),
{
    let v0: int = v[0];
    let v1: int = v[1];
    let v2: int = v[2];
    assert((v0 * s) * (v0 * s) + (v1 * s) * (v1 * s) + (v2 * s) * (v2 * s) == s * s * (v0 * v0
        + v1 * v1 + v2 * v2)) by (nonlinear_arith);
}

/// The cross product is anti-commutative: crossing in the opposite order
/// gives the same vector scaled by -1.
pub proof fn lemma_cross_anticommutes(a: Seq<int>, b: Seq<int>)
    ensures
        vcross(a, b) == vscale(vcross(b, a), -1),
{
    let a0: int = a[0];
    let a1: int = a[1];
    let a2: int = a[2];
    let b0: int = b[0];
    let b1: int = b[1];
    let b2: int = b[2];
    assert(a1 * b2 - a2 * b1 == (b1 * a2 - b2 * a1) * -1) by (nonlinear_arith);
    assert(a2 * b0 - a0 * b2 == (b2 * a0 - b0 * a2) * -1) by (nonlinear_arith);
    assert(a0 * b1 - a1 * b0 == (b0 * a1 - b1 * a0) * -1) by (nonlinear_arith);
    assert(vcross(a, b) =~= vscale(vcross(b, a), -1));
}

/// Writing value `k` to component `i` and then reading component `i` returns
/// `k`, for every `i` in {0, 1, 2}.
pub proof fn lemma_index_round_trip(v: Seq<int>, i: int, k: int)
    requires
        v.len() == 3,
        0 <= i < 3,
    ensures
        v.update(i, k)[i] == k,
{
}

} // verus!
