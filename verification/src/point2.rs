//! 2D point: an affine position. A point can be translated by a vector and
//! the displacement between two points is a vector, but two points can
//! never be added: the affine/linear distinction is kept at the type level.

use crate::vector2::Vector2;
use vstd::prelude::*;
use vstd::std_specs::cmp::PartialEqSpec;
use vstd::std_specs::ops::AddSpec;
use vstd::std_specs::ops::SubSpec;

verus! {

/// 2d Point
#[derive(Debug, Copy, Clone)]
pub struct Point2<T>(pub T, pub T);

/// (==): &Point x &Point -> bool, true iff both components are equal.
/// (!=): &Point x &Point -> bool, the exact negation: true iff at least
/// one component pair differs.
impl<T: PartialEq> PartialEq for Point2<T> {
    fn eq(&self, p: &Point2<T>) -> bool {
        self.0 == p.0 && self.1 == p.1
    }

    fn ne(&self, p: &Point2<T>) -> bool {
        self.0 != p.0 || self.1 != p.1
    }
}

impl<T: PartialEq> vstd::std_specs::cmp::PartialEqSpecImpl for Point2<T> {
    open spec fn obeys_eq_spec() -> bool {
        T::obeys_eq_spec()
    }

    open spec fn eq_spec(&self, p: &Point2<T>) -> bool {
        self.0.eq_spec(&p.0) && self.1.eq_spec(&p.1)
    }
}

/// (+): Point x Vector -> Point, translates the point by the vector.
impl<T: core::ops::Add<Output = T>> core::ops::Add<Vector2<T>> for Point2<T> {
    type Output = Point2<T>;

    fn add(self, v: Vector2<T>) -> Point2<T> {
        Point2(self.0 + v.0, self.1 + v.1)
    }
}

impl<T: core::ops::Add<Output = T>> vstd::std_specs::ops::AddSpecImpl<Vector2<T>> for Point2<T> {
    open spec fn obeys_add_spec() -> bool {
        T::obeys_add_spec()
    }

    open spec fn add_req(self, v: Vector2<T>) -> bool {
        self.0.add_req(v.0) && self.1.add_req(v.1)
    }

    open spec fn add_spec(self, v: Vector2<T>) -> Point2<T> {
        Point2(self.0.add_spec(v.0), self.1.add_spec(v.1))
    }
}

/// (-): Point x Vector -> Point, translates by the negated vector.
impl<T: core::ops::Sub<Output = T>> core::ops::Sub<Vector2<T>> for Point2<T> {
    type Output = Point2<T>;

    fn sub(self, v: Vector2<T>) -> Point2<T> {
        Point2(self.0 - v.0, self.1 - v.1)
    }
}

impl<T: core::ops::Sub<Output = T>> vstd::std_specs::ops::SubSpecImpl<Vector2<T>> for Point2<T> {
    open spec fn obeys_sub_spec() -> bool {
        T::obeys_sub_spec()
    }

    open spec fn sub_req(self, v: Vector2<T>) -> bool {
        self.0.sub_req(v.0) && self.1.sub_req(v.1)
    }

    open spec fn sub_spec(self, v: Vector2<T>) -> Point2<T> {
        Point2(self.0.sub_spec(v.0), self.1.sub_spec(v.1))
    }
}

/// (-): Point x Point -> Vector, the displacement between two positions;
/// the result is a vector, not a point.
impl<T: core::ops::Sub<Output = T>> core::ops::Sub<Point2<T>> for Point2<T> {
    type Output = Vector2<T>;

    fn sub(self, p: Point2<T>) -> Vector2<T> {
        Vector2(self.0 - p.0, self.1 - p.1)
    }
}

impl<T: core::ops::Sub<Output = T>> vstd::std_specs::ops::SubSpecImpl<Point2<T>> for Point2<T> {
    open spec fn obeys_sub_spec() -> bool {
        T::obeys_sub_spec()
    }

    open spec fn sub_req(self, p: Point2<T>) -> bool {
        self.0.sub_req(p.0) && self.1.sub_req(p.1)
    }

    open spec fn sub_spec(self, p: Point2<T>) -> Vector2<T> {
        Vector2(self.0.sub_spec(p.0), self.1.sub_spec(p.1))
    }
}

impl<T: core::ops::Add<Output = T> + Copy> Point2<T> {
    /// (+=): replaces the receiver with the translated point.
    pub fn add_assign(&mut self, v: Vector2<T>)
        requires
            (*old(self)).add_req(v),
        ensures
            T::obeys_add_spec() ==> *final(self) == (*old(self)).add_spec(v),
    {
        *self = Point2(self.0 + v.0, self.1 + v.1)
    }
}

impl<T: core::ops::Sub<Output = T> + Copy> Point2<T> {
    /// (-=): replaces the receiver with the point translated by the
    /// negated vector.
    pub fn sub_assign(&mut self, v: Vector2<T>)
        requires
            (*old(self)).sub_req(v),
        ensures
            T::obeys_sub_spec() ==> *final(self) == (*old(self)).sub_spec(v),
    {
        *self = Point2(self.0 - v.0, self.1 - v.1)
    }
}

/// Law: equality is componentwise. Two points are equal exactly when both
/// component pairs are equal.
pub proof fn lemma_eq_componentwise<T: PartialEq>(p: Point2<T>, q: Point2<T>)
    ensures
        p.eq_spec(&q) <==> (p.0.eq_spec(&q.0) && p.1.eq_spec(&q.1)),
{
}

/// Law: equality is reflexive, provided the scalar's equality is.
pub proof fn lemma_eq_reflexive<T: PartialEq>(p: Point2<T>)
    requires
        forall|a: T| #[trigger] a.eq_spec(&a),
    ensures
        p.eq_spec(&p),
{
}

/// Law: equality is symmetric, provided the scalar's equality is.
pub proof fn lemma_eq_symmetric<T: PartialEq>(p: Point2<T>, q: Point2<T>)
    requires
        forall|a: T, b: T| #[trigger] a.eq_spec(&b) == b.eq_spec(&a),
    ensures
        p.eq_spec(&q) == q.eq_spec(&p),
{
}

/// Law: translating by a vector and then back is the identity, provided
/// adding and then subtracting the same scalar is the identity on scalars.
pub proof fn lemma_add_sub_round_trip<
    T: core::ops::Add<Output = T> + core::ops::Sub<Output = T>,
>(p: Point2<T>, v: Vector2<T>)
    requires
        forall|a: T, b: T| #[trigger] a.add_spec(b).sub_spec(b) == a,
    ensures
        p.add_spec(v).sub_spec(v) == p,
{
}

/// Law: translating backwards by a vector and then forwards is the
/// identity, provided subtracting and then adding the same scalar is the
/// identity on scalars.
pub proof fn lemma_sub_add_round_trip<
    T: core::ops::Add<Output = T> + core::ops::Sub<Output = T>,
>(p: Point2<T>, v: Vector2<T>)
    requires
        forall|a: T, b: T| #[trigger] a.sub_spec(b).add_spec(b) == a,
    ensures
        p.sub_spec(v).add_spec(v) == p,
{
}

/// Law: displacement is consistent with translation. If the displacement
/// from `p1` to `p2` is `v`, then translating `p1` by `v` reaches `p2`,
/// provided adding a scalar difference restores the scalar minuend.
pub proof fn lemma_displacement_consistent<
    T: core::ops::Add<Output = T> + core::ops::Sub<Output = T>,
>(p1: Point2<T>, p2: Point2<T>, v: Vector2<T>)
    requires
        p2.sub_spec(p1) == v,
        forall|a: T, b: T| #[trigger] a.add_spec(b.sub_spec(a)) == b,
    ensures
        p1.add_spec(v) == p2,
{
}

} // verus!
