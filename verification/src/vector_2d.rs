use vstd::prelude::*;

use crate::common_traits::CoordinateScalar;

pub use crate::common_traits::CartesianCoordinatesVector;

verus! {

/// A point or displacement in 2-D Cartesian space, over any scalar type `F`
/// with the `CoordinateScalar` capability. A value is a plain pair of
/// coordinates: no invariant is imposed beyond what `F` itself enforces, and
/// every operation returns a fresh value.
#[derive(Debug, Eq, PartialEq, Clone, Copy)]
pub struct Vector2D<F: CoordinateScalar> {
    pub x: F,
    pub y: F,
}

impl<F: CoordinateScalar> Vector2D<F> {
    /// Constructs the vector with exactly the given coordinates.
    pub fn new(x: F, y: F) -> (v: Self)
        ensures
            v.x == x,
            v.y == y,
    {
        Vector2D { x, y }
    }

    /// The componentwise sum, as contracts see it.
    pub open spec fn add_spec(self, rhs: Self) -> Self {
        Vector2D { x: self.x.add_spec(rhs.x), y: self.y.add_spec(rhs.y) }
    }

    /// The componentwise difference, as contracts see it.
    pub open spec fn sub_spec(self, rhs: Self) -> Self {
        Vector2D { x: self.x.sub_spec(rhs.x), y: self.y.sub_spec(rhs.y) }
    }

    /// The vector with both coordinates multiplied by `t`, as contracts see it.
    pub open spec fn scale_spec(self, t: F) -> Self {
        Vector2D { x: self.x.mul_spec(t), y: self.y.mul_spec(t) }
    }

    /// The squared norm `x*x + y*y`, as contracts see it.
    pub open spec fn norm_sqr_spec(self) -> F {
        self.x.mul_spec(self.x).add_spec(self.y.mul_spec(self.y))
    }

    /// The Euclidean norm `sqrt(x*x + y*y)`, as contracts see it.
    pub open spec fn norm_spec(self) -> F {
        self.norm_sqr_spec().sqrt_spec()
    }

    /// The textual rendering `(x, y)`, as contracts see it.
    pub open spec fn text_spec(self) -> Seq<char> {
        "("@ + self.x.text_spec()@ + ", "@ + self.y.text_spec()@ + ")"@
    }

    /// Renders the vector as `(x, y)`, with each coordinate rendered by the
    /// scalar's own textual rendering.
    pub fn to_text(&self) -> (r: String)
        ensures
            r@ == self.text_spec(),
    {
        let mut s = "(".to_owned();
        let xt = self.x.to_text();
        s.append(xt.as_str());
        s.append(", ");
        let yt = self.y.to_text();
        s.append(yt.as_str());
        s.append(")");
        s
    }

    /// Scalar multiplication with the vector on the left: `v * t`.
    pub fn mul(self, rhs: F) -> (r: Self)
        ensures
            r == self.scale_spec(rhs),
    {
        Vector2D { x: self.x.mul(rhs), y: self.y.mul(rhs) }
    }

    /// Scalar multiplication with the scalar on the left: `t * v`. Both
    /// operand orders multiply each coordinate by `t` on its right, so the
    /// two forms agree exactly.
    pub fn mul_left(t: F, v: Self) -> (r: Self)
        ensures
            r == v.scale_spec(t),
    {
        Vector2D { x: v.x.mul(t), y: v.y.mul(t) }
    }
}

impl<F: CoordinateScalar> CartesianCoordinatesVector<F> for Vector2D<F> {
    open spec fn x_spec(&self) -> F {
        self.x
    }

    open spec fn y_spec(&self) -> F {
        self.y
    }

    fn norm(&self) -> (r: F)
        ensures
            r == self.norm_spec(),
    {
        self.norm_sqr().sqrt()
    }

    fn norm_sqr(&self) -> (r: F)
        ensures
            r == self.norm_sqr_spec(),
    {
        self.x.mul(self.x).add(self.y.mul(self.y))
    }

    fn scale(&self, t: F) -> (r: Self)
        ensures
            r == self.scale_spec(t),
    {
        Vector2D { x: self.x.mul(t), y: self.y.mul(t) }
    }

    fn add(self, rhs: Self) -> (r: Self)
        ensures
            r == self.add_spec(rhs),
    {
        Vector2D { x: self.x.add(rhs.x), y: self.y.add(rhs.y) }
    }

    fn sub(self, rhs: Self) -> (r: Self)
        ensures
            r == self.sub_spec(rhs),
    {
        Vector2D { x: self.x.sub(rhs.x), y: self.y.sub(rhs.y) }
    }
}

/// Additive identity: adding a vector whose coordinates are additive
/// identities for the corresponding coordinates of `v` — the zero vector,
/// for an ordinary scalar — leaves `v` unchanged.
pub proof fn lemma_add_identity<F: CoordinateScalar>(v: Vector2D<F>, zero: Vector2D<F>)
    requires
        v.x.add_spec(zero.x) == v.x,
        v.y.add_spec(zero.y) == v.y,
    ensures
        v.add_spec(zero) == v,
{
}

/// Commutativity of addition: whenever the scalar sums commute on each pair
/// of coordinates — as they do for ordinary scalars — `v + w == w + v`.
pub proof fn lemma_add_commutes<F: CoordinateScalar>(v: Vector2D<F>, w: Vector2D<F>)
    requires
        v.x.add_spec(w.x) == w.x.add_spec(v.x),
        v.y.add_spec(w.y) == w.y.add_spec(v.y),
    ensures
        v.add_spec(w) == w.add_spec(v),
{
}

/// Inverse via subtraction: `v - w` is the opposite of `w - v`, in that the
/// two differences sum to the zero vector, whenever each pair of opposite
/// coordinate differences sums to the corresponding coordinate of `zero`.
pub proof fn lemma_sub_opposite<F: CoordinateScalar>(
    v: Vector2D<F>,
    w: Vector2D<F>,
    zero: Vector2D<F>,
)
    requires
        v.x.sub_spec(w.x).add_spec(w.x.sub_spec(v.x)) == zero.x,
        v.y.sub_spec(w.y).add_spec(w.y.sub_spec(v.y)) == zero.y,
    ensures
        v.sub_spec(w).add_spec(w.sub_spec(v)) == zero,
{
}

/// Norm and squared norm are consistent: whenever the square root of the
/// squared norm squares back to it exactly — floating-point scalars obey
/// this only up to rounding — the product of the norm with itself is the
/// squared norm.
pub proof fn lemma_norm_consistency<F: CoordinateScalar>(v: Vector2D<F>)
    requires
        v.norm_sqr_spec().sqrt_spec().mul_spec(v.norm_sqr_spec().sqrt_spec())
            == v.norm_sqr_spec(),
    ensures
        v.norm_spec().mul_spec(v.norm_spec()) == v.norm_sqr_spec(),
{
}

/// Scale consistency: `scale`, multiplication with the scalar on the right,
/// and multiplication with the scalar on the left agree. Each of the three
/// operations is pinned to `scale_spec` by its contract, so any results they
/// produce from the same operands are one and the same vector.
pub proof fn lemma_scale_consistency<F: CoordinateScalar>(
    v: Vector2D<F>,
    t: F,
    scaled: Vector2D<F>,
    right_mul: Vector2D<F>,
    left_mul: Vector2D<F>,
)
    requires
        scaled == v.scale_spec(t),
        right_mul == v.scale_spec(t),
        left_mul == v.scale_spec(t),
    ensures
        scaled == right_mul,
        right_mul == left_mul,
{
}

} // verus!
