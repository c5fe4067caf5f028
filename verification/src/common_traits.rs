use vstd::prelude::*;

verus! {

/// Arithmetic capability of a coordinate scalar.
///
/// The element type of a Cartesian vector must supply addition, subtraction,
/// multiplication, a square root, and a textual rendering. Each executable
/// operation is pinned to a spec-level counterpart, so that vector contracts
/// can speak of coordinate arithmetic symbolically. The spec operations are
/// left abstract on purpose: the intended elements are machine floating-point
/// numbers, whose arithmetic lives outside the verified boundary, so an
/// implementation of this trait is where a proof about vectors bottoms out.
pub trait CoordinateScalar: Sized + Copy {
    /// The sum of two scalars, as contracts see it.
    spec fn add_spec(self, rhs: Self) -> Self;

    /// The difference of two scalars, as contracts see it.
    spec fn sub_spec(self, rhs: Self) -> Self;

    /// The product of two scalars, as contracts see it.
    spec fn mul_spec(self, rhs: Self) -> Self;

    /// The square root of a scalar, as contracts see it.
    spec fn sqrt_spec(self) -> Self;

    /// The textual rendering of a scalar, as contracts see it. The rendering
    /// is given as a `String` rather than a `Seq<char>` so that an
    /// implementation outside the verified boundary can write the item's
    /// signature without any Verus type in it; contracts use its view.
    spec fn text_spec(self) -> String;

    fn add(self, rhs: Self) -> (r: Self)
        ensures
            r == self.add_spec(rhs),
    ;

    fn sub(self, rhs: Self) -> (r: Self)
        ensures
            r == self.sub_spec(rhs),
    ;

    fn mul(self, rhs: Self) -> (r: Self)
        ensures
            r == self.mul_spec(rhs),
    ;

    fn sqrt(self) -> (r: Self)
        ensures
            r == self.sqrt_spec(),
    ;

    fn to_text(self) -> (r: String)
        ensures
            r@ == self.text_spec()@,
    ;
}

/// Capability of a Cartesian vector over the scalar type `F`: the Euclidean
/// norm, the squared norm, uniform scaling, and componentwise addition and
/// subtraction. The spec accessors expose the coordinates to contracts, so
/// every method's result is stated exactly in terms of the scalar arithmetic
/// of `F`.
pub trait CartesianCoordinatesVector<F: CoordinateScalar>: Sized {
    /// The first coordinate, as contracts see it.
    spec fn x_spec(&self) -> F;

    /// The second coordinate, as contracts see it.
    spec fn y_spec(&self) -> F;

    /// The Euclidean norm `sqrt(x*x + y*y)`.
    fn norm(&self) -> (r: F)
        ensures
            r == self.x_spec().mul_spec(self.x_spec()).add_spec(
                self.y_spec().mul_spec(self.y_spec()),
            ).sqrt_spec(),
    ;

    /// The squared norm `x*x + y*y`, with no square-root step.
    fn norm_sqr(&self) -> (r: F)
        ensures
            r == self.x_spec().mul_spec(self.x_spec()).add_spec(
                self.y_spec().mul_spec(self.y_spec()),
            ),
    ;

    /// A new vector with both coordinates multiplied by `t`.
    fn scale(&self, t: F) -> (r: Self)
        ensures
            r.x_spec() == self.x_spec().mul_spec(t),
            r.y_spec() == self.y_spec().mul_spec(t),
    ;

    /// The componentwise sum.
    fn add(self, rhs: Self) -> (r: Self)
        ensures
            r.x_spec() == self.x_spec().add_spec(rhs.x_spec()),
            r.y_spec() == self.y_spec().add_spec(rhs.y_spec()),
    ;

    /// The componentwise difference.
    fn sub(self, rhs: Self) -> (r: Self)
        ensures
            r.x_spec() == self.x_spec().sub_spec(rhs.x_spec()),
            r.y_spec() == self.y_spec().sub_spec(rhs.y_spec()),
    ;
}

} // verus!
