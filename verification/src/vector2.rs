//! 2D vector: a free displacement, closed under addition, subtraction,
//! negation and scaling by a scalar.

use vstd::prelude::*;
use vstd::std_specs::cmp::PartialEqSpec;
use vstd::std_specs::ops::AddSpec;
use vstd::std_specs::ops::DivSpec;
use vstd::std_specs::ops::MulSpec;
use vstd::std_specs::ops::NegSpec;
use vstd::std_specs::ops::SubSpec;

verus! {

/// 2d Vector
#[derive(Debug, Copy, Clone)]
pub struct Vector2<T>(pub T, pub T);

/// (==): &Vector x &Vector -> bool, true iff both components are equal.
/// (!=): &Vector x &Vector -> bool, the exact negation: true iff at least
/// one component pair differs.
impl<T: PartialEq> PartialEq for Vector2<T> {
    fn eq(&self, v: &Vector2<T>) -> bool {
        self.0 == v.0 && self.1 == v.1
    }

    fn ne(&self, v: &Vector2<T>) -> bool {
        self.0 != v.0 || self.1 != v.1
    }
}

impl<T: PartialEq> vstd::std_specs::cmp::PartialEqSpecImpl for Vector2<T> {
    open spec fn obeys_eq_spec() -> bool {
        T::obeys_eq_spec()
    }

    open spec fn eq_spec(&self, v: &Vector2<T>) -> bool {
        self.0.eq_spec(&v.0) && self.1.eq_spec(&v.1)
    }
}

/// (-): Vector -> Vector, componentwise negation.
impl<T: core::ops::Neg<Output = T>> core::ops::Neg for Vector2<T> {
    type Output = Vector2<T>;

    fn neg(self) -> Vector2<T> {
        Vector2(self.0.neg(), self.1.neg())
    }
}

impl<T: core::ops::Neg<Output = T>> vstd::std_specs::ops::NegSpecImpl for Vector2<T> {
    open spec fn obeys_neg_spec() -> bool {
        T::obeys_neg_spec()
    }

    open spec fn neg_req(self) -> bool {
        self.0.neg_req() && self.1.neg_req()
    }

    open spec fn neg_spec(self) -> Vector2<T> {
        Vector2(self.0.neg_spec(), self.1.neg_spec())
    }
}

/// (+): Vector x Vector -> Vector, componentwise.
impl<T: core::ops::Add<Output = T>> core::ops::Add for Vector2<T> {
    type Output = Vector2<T>;

    fn add(self, v: Vector2<T>) -> Vector2<T> {
        Vector2(self.0 + v.0, self.1 + v.1)
    }
}

impl<T: core::ops::Add<Output = T>> vstd::std_specs::ops::AddSpecImpl for Vector2<T> {
    open spec fn obeys_add_spec() -> bool {
        T::obeys_add_spec()
    }

    open spec fn add_req(self, v: Vector2<T>) -> bool {
        self.0.add_req(v.0) && self.1.add_req(v.1)
    }

    open spec fn add_spec(self, v: Vector2<T>) -> Vector2<T> {
        Vector2(self.0.add_spec(v.0), self.1.add_spec(v.1))
    }
}

/// (-): Vector x Vector -> Vector, componentwise.
impl<T: core::ops::Sub<Output = T>> core::ops::Sub for Vector2<T> {
    type Output = Vector2<T>;

    fn sub(self, v: Vector2<T>) -> Vector2<T> {
        Vector2(self.0 - v.0, self.1 - v.1)
    }
}

impl<T: core::ops::Sub<Output = T>> vstd::std_specs::ops::SubSpecImpl for Vector2<T> {
    open spec fn obeys_sub_spec() -> bool {
        T::obeys_sub_spec()
    }

    open spec fn sub_req(self, v: Vector2<T>) -> bool {
        self.0.sub_req(v.0) && self.1.sub_req(v.1)
    }

    open spec fn sub_spec(self, v: Vector2<T>) -> Vector2<T> {
        Vector2(self.0.sub_spec(v.0), self.1.sub_spec(v.1))
    }
}

/// (*): Vector x K -> Vector, scales every component by the scalar.
impl<T: core::ops::Mul<Output = T> + Copy> core::ops::Mul<T> for Vector2<T> {
    type Output = Vector2<T>;

    fn mul(self, k: T) -> Vector2<T> {
        Vector2(self.0 * k, self.1 * k)
    }
}

impl<T: core::ops::Mul<Output = T> + Copy> vstd::std_specs::ops::MulSpecImpl<T> for Vector2<T> {
    open spec fn obeys_mul_spec() -> bool {
        T::obeys_mul_spec()
    }

    open spec fn mul_req(self, k: T) -> bool {
        self.0.mul_req(k) && self.1.mul_req(k)
    }

    open spec fn mul_spec(self, k: T) -> Vector2<T> {
        Vector2(self.0.mul_spec(k), self.1.mul_spec(k))
    }
}

/// (/): Vector x K -> Vector, divides every component by the scalar;
/// division by zero defers to T's own division semantics.
impl<T: core::ops::Div<Output = T> + Copy> core::ops::Div<T> for Vector2<T> {
    type Output = Vector2<T>;

    fn div(self, k: T) -> Vector2<T> {
        Vector2(self.0 / k, self.1 / k)
    }
}

impl<T: core::ops::Div<Output = T> + Copy> vstd::std_specs::ops::DivSpecImpl<T> for Vector2<T> {
    open spec fn obeys_div_spec() -> bool {
        T::obeys_div_spec()
    }

    open spec fn div_req(self, k: T) -> bool {
        self.0.div_req(k) && self.1.div_req(k)
    }

    open spec fn div_spec(self, k: T) -> Vector2<T> {
        Vector2(self.0.div_spec(k), self.1.div_spec(k))
    }
}

impl<T: core::ops::Add<Output = T> + Copy> Vector2<T> {
    /// (+=): replaces the receiver with the componentwise sum.
    pub fn add_assign(&mut self, v: Vector2<T>)
        requires
            (*old(self)).add_req(v),
        ensures
            T::obeys_add_spec() ==> *final(self) == (*old(self)).add_spec(v),
    {
        *self = Vector2(self.0 + v.0, self.1 + v.1)
    }
}

impl<T: core::ops::Sub<Output = T> + Copy> Vector2<T> {
    /// (-=): replaces the receiver with the componentwise difference.
    pub fn sub_assign(&mut self, v: Vector2<T>)
        requires
            (*old(self)).sub_req(v),
        ensures
            T::obeys_sub_spec() ==> *final(self) == (*old(self)).sub_spec(v),
    {
        *self = Vector2(self.0 - v.0, self.1 - v.1)
    }
}

impl<T: core::ops::Mul<Output = T> + Copy> Vector2<T> {
    /// (*=): replaces the receiver with the scaled vector.
    pub fn mul_assign(&mut self, k: T)
        requires
            (*old(self)).mul_req(k),
        ensures
            T::obeys_mul_spec() ==> *final(self) == (*old(self)).mul_spec(k),
    {
        *self = Vector2(self.0 * k, self.1 * k)
    }
}

impl<T: core::ops::Div<Output = T> + Copy> Vector2<T> {
    /// (/=): replaces the receiver with the componentwise quotient.
    pub fn div_assign(&mut self, k: T)
        requires
            (*old(self)).div_req(k),
        ensures
            T::obeys_div_spec() ==> *final(self) == (*old(self)).div_spec(k),
    {
        *self = Vector2(self.0 / k, self.1 / k)
    }
}

impl<T: core::ops::Add<Output = T> + core::ops::Mul<Output = T>> Vector2<T> {
    /// What `dot` returns: the sum of the componentwise products.
    pub open spec fn dot_spec(self, v: Vector2<T>) -> T {
        self.0.mul_spec(v.0).add_spec(self.1.mul_spec(v.1))
    }

    /// dot: Vector x Vector -> K, the sum of the componentwise products.
    pub fn dot(self, v: Vector2<T>) -> (r: T)
        requires
            T::obeys_add_spec(),
            T::obeys_mul_spec(),
            self.0.mul_req(v.0),
            self.1.mul_req(v.1),
            self.0.mul_spec(v.0).add_req(self.1.mul_spec(v.1)),
        ensures
            r == self.dot_spec(v),
    {
        self.0 * v.0 + self.1 * v.1
    }
}

/// Law: equality is componentwise. Two vectors are equal exactly when both
/// component pairs are equal.
pub proof fn lemma_eq_componentwise<T: PartialEq>(v: Vector2<T>, w: Vector2<T>)
    ensures
        v.eq_spec(&w) <==> (v.0.eq_spec(&w.0) && v.1.eq_spec(&w.1)),
{
}

/// Law: equality is reflexive, provided the scalar's equality is.
pub proof fn lemma_eq_reflexive<T: PartialEq>(v: Vector2<T>)
    requires
        forall|a: T| #[trigger] a.eq_spec(&a),
    ensures
        v.eq_spec(&v),
{
}

/// Law: equality is symmetric, provided the scalar's equality is.
pub proof fn lemma_eq_symmetric<T: PartialEq>(v: Vector2<T>, w: Vector2<T>)
    requires
        forall|a: T, b: T| #[trigger] a.eq_spec(&b) == b.eq_spec(&a),
    ensures
        v.eq_spec(&w) == w.eq_spec(&v),
{
}

/// Law: negation is self-inverse, provided the scalar's negation is.
pub proof fn lemma_neg_involutive<T: core::ops::Neg<Output = T>>(v: Vector2<T>)
    requires
        forall|a: T| #[trigger] a.neg_spec().neg_spec() == a,
    ensures
        v.neg_spec().neg_spec() == v,
{
}

/// Law: adding and then subtracting the same vector is the identity,
/// provided the same round trip is the identity on scalars.
pub proof fn lemma_add_sub_round_trip<
    T: core::ops::Add<Output = T> + core::ops::Sub<Output = T>,
>(v: Vector2<T>, w: Vector2<T>)
    requires
        forall|a: T, b: T| #[trigger] a.add_spec(b).sub_spec(b) == a,
    ensures
        v.add_spec(w).sub_spec(w) == v,
{
}

/// Law: scaling by a scalar and then dividing by it is the identity,
/// provided the same round trip is the identity on scalars (true of a
/// non-zero divisor within exact arithmetic of T).
pub proof fn lemma_mul_div_round_trip<
    T: core::ops::Mul<Output = T> + core::ops::Div<Output = T> + Copy,
>(v: Vector2<T>, k: T)
    requires
        forall|a: T| #[trigger] a.mul_spec(k).div_spec(k) == a,
    ensures
        v.mul_spec(k).div_spec(k) == v,
{
}

/// Law: the dot product is symmetric, provided scalar multiplication is.
pub proof fn lemma_dot_symmetric<
    T: core::ops::Add<Output = T> + core::ops::Mul<Output = T>,
>(v: Vector2<T>, w: Vector2<T>)
    requires
        forall|a: T, b: T| #[trigger] a.mul_spec(b) == b.mul_spec(a),
    ensures
        v.dot_spec(w) == w.dot_spec(v),
{
}

/// Law: the dot product distributes over vector addition in its first
/// argument, provided scalar multiplication distributes over scalar
/// addition and scalar addition is commutative and associative.
pub proof fn lemma_dot_distributes_over_add<
    T: core::ops::Add<Output = T> + core::ops::Mul<Output = T>,
>(v: Vector2<T>, w: Vector2<T>, u: Vector2<T>)
    requires
        forall|a: T, b: T, c: T| #[trigger] a.add_spec(b).mul_spec(c)
            == a.mul_spec(c).add_spec(b.mul_spec(c)),
        forall|a: T, b: T| #[trigger] a.add_spec(b) == b.add_spec(a),
        forall|a: T, b: T, c: T| #[trigger] a.add_spec(b).add_spec(c)
            == a.add_spec(b.add_spec(c)),
    ensures
        v.add_spec(w).dot_spec(u) == v.dot_spec(u).add_spec(w.dot_spec(u)),
{
    let a = v.0.mul_spec(u.0);
    let b = w.0.mul_spec(u.0);
    let c = v.1.mul_spec(u.1);
    let d = w.1.mul_spec(u.1);
    lemma_scalar_exchange(a, b, c, d);
    assert(v.add_spec(w).dot_spec(u) == a.add_spec(b).add_spec(c.add_spec(d)));
}

/// Law: with a commutative and associative scalar addition, the sum of two
/// scalar pairs can be regrouped pairwise.
proof fn lemma_scalar_exchange<T: core::ops::Add<Output = T>>(a: T, b: T, c: T, d: T)
    requires
        forall|x: T, y: T| #[trigger] x.add_spec(y) == y.add_spec(x),
        forall|x: T, y: T, z: T| #[trigger] x.add_spec(y).add_spec(z)
            == x.add_spec(y.add_spec(z)),
    ensures
        a.add_spec(b).add_spec(c.add_spec(d)) == a.add_spec(c).add_spec(b.add_spec(d)),
{
    assert(a.add_spec(b).add_spec(c.add_spec(d)) == a.add_spec(b.add_spec(c.add_spec(d))));
    assert(b.add_spec(c.add_spec(d)) == b.add_spec(c).add_spec(d));
    assert(b.add_spec(c) == c.add_spec(b));
    assert(c.add_spec(b).add_spec(d) == c.add_spec(b.add_spec(d)));
    assert(a.add_spec(c.add_spec(b.add_spec(d))) == a.add_spec(c).add_spec(b.add_spec(d)));
}

} // verus!


