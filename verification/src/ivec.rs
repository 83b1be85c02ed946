//! A two-component integer vector with component-wise arithmetic.

use vstd::prelude::*;

verus! {

use vstd::std_specs::ops::AddSpec;
use vstd::std_specs::ops::SubSpec;
use vstd::std_specs::ops::MulSpec;
use vstd::std_specs::ops::DivSpec;
use vstd::std_specs::ops::RemSpec;
use vstd::std_specs::ops::NegSpec;

/// Component-wise rounding towards negative infinity.
pub trait Floor {
    fn floor(&self) -> Self where Self: core::marker::Sized;
}

/// A vector of two 32-bit integers.
#[derive(Clone, Copy, Debug, Eq, Hash)]
pub struct IVec2 {
    pub x: i32,
    pub y: i32,
}

/// Builds the vector with the given components.
pub fn ivec2(x: i32, y: i32) -> (v: IVec2)
    ensures
        v.x == x,
        v.y == y,
{
    IVec2 { x, y }
}

impl PartialEq for IVec2 {
    fn eq(&self, other: &IVec2) -> (r: bool) {
        self.x == other.x && self.y == other.y
    }
}

impl vstd::std_specs::cmp::PartialEqSpecImpl for IVec2 {
    open spec fn obeys_eq_spec() -> bool {
        true
    }

    open spec fn eq_spec(&self, other: &IVec2) -> bool {
        self.x == other.x && self.y == other.y
    }
}

/// The component-wise partial order on vectors: one vector precedes another
/// exactly when neither component is larger and at least one is smaller.
pub open spec fn order_spec(a: IVec2, b: IVec2) -> Option<core::cmp::Ordering> {
    if a.x == b.x && a.y == b.y {
        Some(core::cmp::Ordering::Equal)
    } else if a.x >= b.x && a.y >= b.y {
        Some(core::cmp::Ordering::Greater)
    } else if a.x <= b.x && a.y <= b.y {
        Some(core::cmp::Ordering::Less)
    } else {
        None
    }
}

impl PartialOrd for IVec2 {
    fn partial_cmp(&self, other: &IVec2) -> (r: Option<core::cmp::Ordering>) {
        if self.x == other.x && self.y == other.y {
            Some(core::cmp::Ordering::Equal)
        } else if self.x >= other.x && self.y >= other.y {
            Some(core::cmp::Ordering::Greater)
        } else if self.x <= other.x && self.y <= other.y {
            Some(core::cmp::Ordering::Less)
        } else {
            None
        }
    }
}

impl vstd::std_specs::cmp::PartialOrdSpecImpl for IVec2 {
    open spec fn obeys_partial_cmp_spec() -> bool {
        true
    }

    open spec fn partial_cmp_spec(&self, other: &IVec2) -> Option<core::cmp::Ordering> {
        order_spec(*self, *other)
    }
}

impl core::ops::Add for IVec2 {
    type Output = IVec2;

    fn add(self, rhs: IVec2) -> IVec2 {
        IVec2 { x: self.x + rhs.x, y: self.y + rhs.y }
    }
}

impl vstd::std_specs::ops::AddSpecImpl for IVec2 {
    open spec fn obeys_add_spec() -> bool {
        true
    }

    open spec fn add_req(self, rhs: IVec2) -> bool {
        &&& i32::MIN <= self.x + rhs.x <= i32::MAX
        &&& i32::MIN <= self.y + rhs.y <= i32::MAX
    }

    open spec fn add_spec(self, rhs: IVec2) -> IVec2 {
        IVec2 { x: (self.x + rhs.x) as i32, y: (self.y + rhs.y) as i32 }
    }
}

impl core::ops::Sub for IVec2 {
    type Output = IVec2;

    fn sub(self, rhs: IVec2) -> IVec2 {
        IVec2 { x: self.x - rhs.x, y: self.y - rhs.y }
    }
}

impl vstd::std_specs::ops::SubSpecImpl for IVec2 {
    open spec fn obeys_sub_spec() -> bool {
        true
    }

    open spec fn sub_req(self, rhs: IVec2) -> bool {
        &&& i32::MIN <= self.x - rhs.x <= i32::MAX
        &&& i32::MIN <= self.y - rhs.y <= i32::MAX
    }

    open spec fn sub_spec(self, rhs: IVec2) -> IVec2 {
        IVec2 { x: (self.x - rhs.x) as i32, y: (self.y - rhs.y) as i32 }
    }
}

impl core::ops::Mul for IVec2 {
    type Output = IVec2;

    fn mul(self, rhs: IVec2) -> IVec2 {
        IVec2 { x: self.x * rhs.x, y: self.y * rhs.y }
    }
}

impl vstd::std_specs::ops::MulSpecImpl for IVec2 {
    open spec fn obeys_mul_spec() -> bool {
        true
    }

    open spec fn mul_req(self, rhs: IVec2) -> bool {
        &&& i32::MIN <= self.x * rhs.x <= i32::MAX
        &&& i32::MIN <= self.y * rhs.y <= i32::MAX
    }

    open spec fn mul_spec(self, rhs: IVec2) -> IVec2 {
        IVec2 { x: (self.x * rhs.x) as i32, y: (self.y * rhs.y) as i32 }
    }
}

/// Division of one signed component by another, truncated towards zero as the
/// machine division is.
pub open spec fn div_trunc(a: int, b: int) -> int {
    if a >= 0 {
        a / b
    } else {
        -((-a) / b)
    }
}

/// The remainder left by `div_trunc`, carrying the sign of the dividend.
pub open spec fn rem_trunc(a: int, b: int) -> int {
    if a >= 0 {
        a % b
    } else {
        -((-a) % b)
    }
}

/// Whether dividing one component by another neither divides by zero nor
/// overflows.
pub open spec fn div_ok(a: i32, b: i32) -> bool {
    b != 0 && !(a == i32::MIN && b == -1)
}

impl core::ops::Div for IVec2 {
    type Output = IVec2;

    fn div(self, rhs: IVec2) -> IVec2 {
        IVec2 { x: self.x / rhs.x, y: self.y / rhs.y }
    }
}

impl vstd::std_specs::ops::DivSpecImpl for IVec2 {
    open spec fn obeys_div_spec() -> bool {
        true
    }

    open spec fn div_req(self, rhs: IVec2) -> bool {
        div_ok(self.x, rhs.x) && div_ok(self.y, rhs.y)
    }

    open spec fn div_spec(self, rhs: IVec2) -> IVec2 {
        IVec2 { x: div_trunc(self.x as int, rhs.x as int) as i32, y: div_trunc(
            self.y as int,
            rhs.y as int,
        ) as i32 }
    }
}

impl core::ops::Rem for IVec2 {
    type Output = IVec2;

    fn rem(self, rhs: IVec2) -> IVec2 {
        IVec2 { x: self.x % rhs.x, y: self.y % rhs.y }
    }
}

impl vstd::std_specs::ops::RemSpecImpl for IVec2 {
    open spec fn obeys_rem_spec() -> bool {
        true
    }

    open spec fn rem_req(self, rhs: IVec2) -> bool {
        div_ok(self.x, rhs.x) && div_ok(self.y, rhs.y)
    }

    open spec fn rem_spec(self, rhs: IVec2) -> IVec2 {
        IVec2 { x: rem_trunc(self.x as int, rhs.x as int) as i32, y: rem_trunc(
            self.y as int,
            rhs.y as int,
        ) as i32 }
    }
}

impl core::ops::Neg for IVec2 {
    type Output = IVec2;

    fn neg(self) -> IVec2 {
        IVec2 { x: -self.x, y: -self.y }
    }
}

impl vstd::std_specs::ops::NegSpecImpl for IVec2 {
    open spec fn obeys_neg_spec() -> bool {
        true
    }

    open spec fn neg_req(self) -> bool {
        self.x != i32::MIN && self.y != i32::MIN
    }

    open spec fn neg_spec(self) -> IVec2 {
        IVec2 { x: (-self.x) as i32, y: (-self.y) as i32 }
    }
}

impl core::ops::Mul<i32> for IVec2 {
    type Output = IVec2;

    fn mul(self, scalar: i32) -> IVec2 {
        IVec2 { x: self.x * scalar, y: self.y * scalar }
    }
}

impl vstd::std_specs::ops::MulSpecImpl<i32> for IVec2 {
    open spec fn obeys_mul_spec() -> bool {
        true
    }

    open spec fn mul_req(self, scalar: i32) -> bool {
        &&& i32::MIN <= self.x * scalar <= i32::MAX
        &&& i32::MIN <= self.y * scalar <= i32::MAX
    }

    open spec fn mul_spec(self, scalar: i32) -> IVec2 {
        IVec2 { x: (self.x * scalar) as i32, y: (self.y * scalar) as i32 }
    }
}

impl core::ops::Mul<IVec2> for i32 {
    type Output = IVec2;

    fn mul(self, vector: IVec2) -> IVec2 {
        IVec2 { x: self * vector.x, y: self * vector.y }
    }
}

impl vstd::std_specs::ops::MulSpecImpl<IVec2> for i32 {
    open spec fn obeys_mul_spec() -> bool {
        true
    }

    open spec fn mul_req(self, vector: IVec2) -> bool {
        &&& i32::MIN <= self * vector.x <= i32::MAX
        &&& i32::MIN <= self * vector.y <= i32::MAX
    }

    open spec fn mul_spec(self, vector: IVec2) -> IVec2 {
        IVec2 { x: (self * vector.x) as i32, y: (self * vector.y) as i32 }
    }
}

impl core::ops::Div<i32> for IVec2 {
    type Output = IVec2;

    fn div(self, scalar: i32) -> IVec2 {
        IVec2 { x: self.x / scalar, y: self.y / scalar }
    }
}

impl vstd::std_specs::ops::DivSpecImpl<i32> for IVec2 {
    open spec fn obeys_div_spec() -> bool {
        true
    }

    open spec fn div_req(self, scalar: i32) -> bool {
        div_ok(self.x, scalar) && div_ok(self.y, scalar)
    }

    open spec fn div_spec(self, scalar: i32) -> IVec2 {
        IVec2 { x: div_trunc(self.x as int, scalar as int) as i32, y: div_trunc(
            self.y as int,
            scalar as int,
        ) as i32 }
    }
}

/// The absolute value of a single component.
pub open spec fn abs_spec(a: int) -> int {
    if a < 0 {
        -a
    } else {
        a
    }
}

impl IVec2 {
    /// The component-wise absolute value.
    pub fn abs(self) -> (v: IVec2)
        requires
            self.x != i32::MIN,
            self.y != i32::MIN,
        ensures
            v.x == abs_spec(self.x as int),
            v.y == abs_spec(self.y as int),
    {
        IVec2 {
            x: if self.x < 0 {
                -self.x
            } else {
                self.x
            },
            y: if self.y < 0 {
                -self.y
            } else {
                self.y
            },
        }
    }

    /// The dot product of two vectors.
    pub fn dot(&self, other: &IVec2) -> (r: i32)
        requires
            i32::MIN <= self.x * other.x <= i32::MAX,
            i32::MIN <= self.y * other.y <= i32::MAX,
            i32::MIN <= self.x * other.x + self.y * other.y <= i32::MAX,
        ensures
            r == self.x * other.x + self.y * other.y,
    {
        self.x * other.x + self.y * other.y
    }

    /// Adds another vector to this one in place.
    pub fn add_assign(&mut self, other: IVec2)
        requires
            old(self).add_req(other),
        ensures
            *final(self) == old(self).add_spec(other),
    {
        self.x = self.x + other.x;
        self.y = self.y + other.y;
    }

    /// Subtracts another vector from this one in place.
    pub fn sub_assign(&mut self, other: IVec2)
        requires
            old(self).sub_req(other),
        ensures
            *final(self) == old(self).sub_spec(other),
    {
        self.x = self.x - other.x;
        self.y = self.y - other.y;
    }

    /// Multiplies this vector by another, component by component, in place.
    pub fn mul_assign(&mut self, other: IVec2)
        requires
            old(self).mul_req(other),
        ensures
            *final(self) == old(self).mul_spec(other),
    {
        self.x = self.x * other.x;
        self.y = self.y * other.y;
    }

    /// Divides this vector by another, component by component, in place.
    pub fn div_assign(&mut self, other: IVec2)
        requires
            old(self).div_req(other),
        ensures
            *final(self) == old(self).div_spec(other),
    {
        self.x = self.x / other.x;
        self.y = self.y / other.y;
    }

    /// Replaces this vector by the component-wise remainder.
    pub fn rem_assign(&mut self, other: IVec2)
        requires
            old(self).rem_req(other),
        ensures
            *final(self) == old(self).rem_spec(other),
    {
        self.x = self.x % other.x;
        self.y = self.y % other.y;
    }
}

impl Default for IVec2 {
    /// The zero vector.
    fn default() -> (v: IVec2)
        ensures
            v.x == 0,
            v.y == 0,
    {
        IVec2 { x: 0, y: 0 }
    }
}

/// Vector addition is commutative.
pub proof fn lemma_add_commutes(a: IVec2, b: IVec2)
    ensures
        a.add_spec(b) == b.add_spec(a),
{
}

/// Subtracting a vector undoes adding it, wherever the addition stays in
/// range.
pub proof fn lemma_add_sub_cancel(a: IVec2, b: IVec2)
    requires
        a.add_req(b),
    ensures
        a.add_spec(b).sub_spec(b) == a,
{
}

/// The dot product is symmetric.
pub proof fn lemma_dot_symmetric(a: IVec2, b: IVec2)
    ensures
        a.x * b.x + a.y * b.y == b.x * a.x + b.y * a.y,
{
}

/// Negating twice gives the vector back, wherever negation is defined.
pub proof fn lemma_neg_involution(a: IVec2)
    requires
        a.neg_req(),
    ensures
        a.neg_spec().neg_req(),
        a.neg_spec().neg_spec() == a,
{
}

/// Swapping the operands of the component-wise order reverses its verdict.
pub proof fn lemma_order_flips(a: IVec2, b: IVec2)
    ensures
        (order_spec(a, b) == Some(core::cmp::Ordering::Equal)) <==> a == b,
        (order_spec(a, b) == Some(core::cmp::Ordering::Less)) <==> (order_spec(b, a) == Some(
            core::cmp::Ordering::Greater,
        )),
        order_spec(a, b) is None <==> order_spec(b, a) is None,
{
}

} // verus!
