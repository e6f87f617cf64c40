//! Three-dimensional vector arithmetic over exact numeric components.
//!
//! `Vector3<T>` is an immutable triple of components, held positionally
//! (x, y, z at positions 0, 1, 2). It supports componentwise addition and
//! subtraction, scalar multiplication, dot product, cross product, and the
//! squared norm. Every operation is a pure function that returns a new value;
//! nothing is mutated in place.
//!
//! Components are drawn from any type implementing [`Component`]: a copyable
//! numeric type whose values stand for mathematical integers and whose
//! arithmetic is exact wherever the mathematical result is representable.
//! Each operation is specified against a mathematical model: a vector is
//! viewed as a `Seq<int>` of length 3, and the result of each operation is
//! pinned down componentwise on that view.

use vstd::arithmetic::mul::lemma_mul_is_commutative;
use vstd::prelude::*;

verus! {

/// A numeric component type whose values stand for mathematical integers.
///
/// `as_int` gives the integer a value stands for and `fits` says which
/// integers the type can represent. The arithmetic methods are exact: each
/// one requires its mathematical result to be representable and returns the
/// value standing for exactly that result, so no operation overflows, wraps
/// or panics.
pub trait Component: Sized + Copy {
    /// The mathematical integer this value stands for.
    spec fn as_int(self) -> int;

    /// Whether the type can represent the mathematical integer `v`.
    spec fn fits(v: int) -> bool;

    /// Every value of the type stands for a representable integer.
    proof fn lemma_as_int_fits(self)
        ensures
            Self::fits(self.as_int()),
    ;

    /// Exact addition.
    fn plus(self, other: Self) -> (r: Self)
        requires
            Self::fits(self.as_int() + other.as_int()),
        ensures
            r.as_int() == self.as_int() + other.as_int(),
    ;

    /// Exact subtraction.
    fn minus(self, other: Self) -> (r: Self)
        requires
            Self::fits(self.as_int() - other.as_int()),
        ensures
            r.as_int() == self.as_int() - other.as_int(),
    ;

    /// Exact multiplication.
    fn times(self, other: Self) -> (r: Self)
        requires
            Self::fits(self.as_int() * other.as_int()),
        ensures
            r.as_int() == self.as_int() * other.as_int(),
    ;
}

impl Component for i64 {
    open spec fn as_int(self) -> int {
        self as int
    }

    open spec fn fits(v: int) -> bool {
        i64::MIN <= v <= i64::MAX
    }

    proof fn lemma_as_int_fits(self) {
    }

    fn plus(self, other: Self) -> Self {
        self + other
    }

    fn minus(self, other: Self) -> Self {
        self - other
    }

    fn times(self, other: Self) -> Self {
        self * other
    }
}

impl Component for i32 {
    open spec fn as_int(self) -> int {
        self as int
    }

    open spec fn fits(v: int) -> bool {
        i32::MIN <= v <= i32::MAX
    }

    proof fn lemma_as_int_fits(self) {
    }

    fn plus(self, other: Self) -> Self {
        self + other
    }

    fn minus(self, other: Self) -> Self {
        self - other
    }

    fn times(self, other: Self) -> Self {
        self * other
    }
}

/// A vector in three-dimensional space: three ordered components, accessed
/// positionally. Any three component values are accepted; there is no
/// validation and no further invariant.
#[derive(Clone, Copy, Debug)]
pub struct Vector3<T>(pub T, pub T, pub T);

impl<T: Component> View for Vector3<T> {
    type V = Seq<int>;

    open spec fn view(&self) -> Seq<int> {
        seq![self.0.as_int(), self.1.as_int(), self.2.as_int()]
    }
}

/// Componentwise sum of two three-component models.
pub open spec fn vadd(a: Seq<int>, b: Seq<int>) -> Seq<int> {
    seq![a[0] + b[0], a[1] + b[1], a[2] + b[2]]
}

/// Componentwise difference of two three-component models.
pub open spec fn vsub(a: Seq<int>, b: Seq<int>) -> Seq<int> {
    seq![a[0] - b[0], a[1] - b[1], a[2] - b[2]]
}

/// The model scaled by `s`, component by component.
pub open spec fn vscale(s: int, a: Seq<int>) -> Seq<int> {
    seq![s * a[0], s * a[1], s * a[2]]
}

/// Componentwise negation of a three-component model.
pub open spec fn vneg(a: Seq<int>) -> Seq<int> {
    seq![-a[0], -a[1], -a[2]]
}

/// The zero vector's model.
pub open spec fn vzero() -> Seq<int> {
    seq![0int, 0int, 0int]
}

/// Dot product: the sum of the pairwise component products.
pub open spec fn vdot(a: Seq<int>, b: Seq<int>) -> int {
    a[0] * b[0] + a[1] * b[1] + a[2] * b[2]
}

/// Squared norm: the sum of the squares of the components.
pub open spec fn vnorm2(a: Seq<int>) -> int {
    a[0] * a[0] + a[1] * a[1] + a[2] * a[2]
}

/// Right-handed cross product of two three-component models.
pub open spec fn vcross(a: Seq<int>, b: Seq<int>) -> Seq<int> {
    seq![
        a[1] * b[2] - a[2] * b[1],
        a[2] * b[0] - a[0] * b[2],
        a[0] * b[1] - a[1] * b[0],
    ]
}

/// Whether `T` can represent every component of `vadd(a, b)`.
pub open spec fn vadd_fits<T: Component>(a: Seq<int>, b: Seq<int>) -> bool {
    &&& T::fits(a[0] + b[0])
    &&& T::fits(a[1] + b[1])
    &&& T::fits(a[2] + b[2])
}

/// Whether `T` can represent every component of `vsub(a, b)`.
pub open spec fn vsub_fits<T: Component>(a: Seq<int>, b: Seq<int>) -> bool {
    &&& T::fits(a[0] - b[0])
    &&& T::fits(a[1] - b[1])
    &&& T::fits(a[2] - b[2])
}

/// Whether `T` can represent every component of `vscale(s, a)`.
pub open spec fn vscale_fits<T: Component>(s: int, a: Seq<int>) -> bool {
    &&& T::fits(s * a[0])
    &&& T::fits(s * a[1])
    &&& T::fits(s * a[2])
}

/// Whether `T` can represent each product and each partial sum met while
/// evaluating `vdot(a, b)` left to right.
pub open spec fn vdot_fits<T: Component>(a: Seq<int>, b: Seq<int>) -> bool {
    &&& T::fits(a[0] * b[0])
    &&& T::fits(a[1] * b[1])
    &&& T::fits(a[2] * b[2])
    &&& T::fits(a[0] * b[0] + a[1] * b[1])
    &&& T::fits(a[0] * b[0] + a[1] * b[1] + a[2] * b[2])
}

/// Whether `T` can represent each product and each difference met while
/// evaluating `vcross(a, b)`.
pub open spec fn vcross_fits<T: Component>(a: Seq<int>, b: Seq<int>) -> bool {
    &&& T::fits(a[1] * b[2])
    &&& T::fits(a[2] * b[1])
    &&& T::fits(a[1] * b[2] - a[2] * b[1])
    &&& T::fits(a[2] * b[0])
    &&& T::fits(a[0] * b[2])
    &&& T::fits(a[2] * b[0] - a[0] * b[2])
    &&& T::fits(a[0] * b[1])
    &&& T::fits(a[1] * b[0])
    &&& T::fits(a[0] * b[1] - a[1] * b[0])
}

impl<T: Component> Vector3<T> {
    /// Componentwise addition.
    pub fn add(self, v: Vector3<T>) -> (r: Vector3<T>)
        requires
            vadd_fits::<T>(self@, v@),
        ensures
            r@ == vadd(self@, v@),
    {
        let w = Vector3(self.0.plus(v.0), self.1.plus(v.1), self.2.plus(v.2));
        proof {
            assert(w@ =~= vadd(self@, v@));
        }
        w
    }

    /// Componentwise subtraction.
    pub fn sub(self, v: Vector3<T>) -> (r: Vector3<T>)
        requires
            vsub_fits::<T>(self@, v@),
        ensures
            r@ == vsub(self@, v@),
    {
        let w = Vector3(self.0.minus(v.0), self.1.minus(v.1), self.2.minus(v.2));
        proof {
            assert(w@ =~= vsub(self@, v@));
        }
        w
    }

    /// Scalar multiplication, scalar on the left: `scale(s, v)` is `s * v`,
    /// multiplying each component of `v` by `s`.
    pub fn scale(s: T, v: Vector3<T>) -> (r: Vector3<T>)
        requires
            vscale_fits::<T>(s.as_int(), v@),
        ensures
            r@ == vscale(s.as_int(), v@),
    {
        let w = Vector3(s.times(v.0), s.times(v.1), s.times(v.2));
        proof {
            assert(w@ =~= vscale(s.as_int(), v@));
        }
        w
    }

    /// Dot product: `self.0 * v.0 + self.1 * v.1 + self.2 * v.2`.
    pub fn dot(self, v: Vector3<T>) -> (r: T)
        requires
            vdot_fits::<T>(self@, v@),
        ensures
            r.as_int() == vdot(self@, v@),
    {
        self.0.times(v.0).plus(self.1.times(v.1)).plus(self.2.times(v.2))
    }

    /// Right-handed cross product: component `i` of the result is built from
    /// the two other components of each operand, with the standard signs.
    pub fn cross(self, v: Vector3<T>) -> (r: Vector3<T>)
        requires
            vcross_fits::<T>(self@, v@),
        ensures
            r@ == vcross(self@, v@),
    {
        let w = Vector3(
            self.1.times(v.2).minus(self.2.times(v.1)),
            self.2.times(v.0).minus(self.0.times(v.2)),
            self.0.times(v.1).minus(self.1.times(v.0)),
        );
        proof {
            assert(w@ =~= vcross(self@, v@));
        }
        w
    }

    /// Squared norm: the dot product of the vector with itself, computed
    /// directly as the sum of the squares of the components. No square root
    /// is taken.
    pub fn norm2(self) -> (r: T)
        requires
            vdot_fits::<T>(self@, self@),
        ensures
            r.as_int() == vnorm2(self@),
    {
        self.0.times(self.0).plus(self.1.times(self.1)).plus(self.2.times(self.2))
    }
}

/// Construction is faithful: building a vector from three components and
/// reading positions 0, 1, 2 gives back exactly those components, and the
/// model lists their integer values in order.
pub proof fn lemma_construction_faithful<T: Component>(a: T, b: T, c: T)
    ensures
        (Vector3(a, b, c)).0 == a,
        (Vector3(a, b, c)).1 == b,
        (Vector3(a, b, c)).2 == c,
        (Vector3(a, b, c))@ == seq![a.as_int(), b.as_int(), c.as_int()],
{
    assert((Vector3(a, b, c))@ =~= seq![a.as_int(), b.as_int(), c.as_int()]);
}

/// Vector addition is commutative: the two orders give the same model.
pub proof fn lemma_vadd_commutative(a: Seq<int>, b: Seq<int>)
    ensures
        vadd(a, b) == vadd(b, a),
{
    assert(vadd(a, b) =~= vadd(b, a));
}

/// Vector addition is associative.
pub proof fn lemma_vadd_associative(a: Seq<int>, b: Seq<int>, c: Seq<int>)
    ensures
        vadd(vadd(a, b), c) == vadd(a, vadd(b, c)),
{
    assert(vadd(vadd(a, b), c) =~= vadd(a, vadd(b, c)));
}

/// The zero vector is the identity of vector addition, on either side.
pub proof fn lemma_vadd_identity(a: Seq<int>)
    requires
        a.len() == 3,
    ensures
        vadd(a, vzero()) == a,
        vadd(vzero(), a) == a,
{
    assert(vadd(a, vzero()) =~= a);
    assert(vadd(vzero(), a) =~= a);
}

/// The squared norm is the dot product of a vector with itself.
pub proof fn lemma_vnorm2_is_vdot_self(a: Seq<int>)
    ensures
        vnorm2(a) == vdot(a, a),
{
}

/// The cross product is anti-commutative: swapping the operands negates
/// every component.
pub proof fn lemma_vcross_anticommutative(a: Seq<int>, b: Seq<int>)
    ensures
        vcross(a, b) == vneg(vcross(b, a)),
{
    lemma_mul_is_commutative(a[1], b[2]);
    lemma_mul_is_commutative(a[2], b[1]);
    lemma_mul_is_commutative(a[2], b[0]);
    lemma_mul_is_commutative(a[0], b[2]);
    lemma_mul_is_commutative(a[0], b[1]);
    lemma_mul_is_commutative(a[1], b[0]);
    assert(vcross(a, b) =~= vneg(vcross(b, a)));
}

/// The cross product of a vector with itself is the zero vector.
pub proof fn lemma_vcross_self_zero(a: Seq<int>)
    ensures
        vcross(a, a) == vzero(),
{
    lemma_mul_is_commutative(a[1], a[2]);
    lemma_mul_is_commutative(a[2], a[0]);
    lemma_mul_is_commutative(a[0], a[1]);
    assert(vcross(a, a) =~= vzero());
}

} // verus!
