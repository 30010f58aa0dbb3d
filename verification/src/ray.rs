//! A parametric line: an origin and a direction, evaluated as
//! origin + t * direction.
//!
//! The direction is stored exactly as given — it is never auto-normalized —
//! and the ray owns independent copies of both vectors. Evaluation never
//! mutates the ray.

use vstd::prelude::*;

use crate::vec3::add_fits;
use crate::vec3::scale_fits;
use crate::vec3::vadd;
use crate::vec3::vscale;
use crate::vec3::Vec3;

verus! {

/// The point on the line through `origin` along `direction` at parameter `t`.
pub open spec fn point_on_ray(origin: Seq<int>, direction: Seq<int>, t: int) -> Seq<int> {
    vadd(origin, vscale(direction, t))
}

/// A parametric line through an origin point along a direction vector.
#[derive(Debug, PartialEq)]
pub struct Ray {
    a: Vec3,
    b: Vec3,
}

impl View for Ray {
    type V = (Seq<int>, Seq<int>);

    closed spec fn view(&self) -> (Seq<int>, Seq<int>) {
        (self.a@, self.b@)
    }
}

impl Ray {
    /// A ray holding copies of the given origin `a` and direction `b`.
    pub fn new(a: Vec3, b: Vec3) -> (r: Ray)
        ensures
            r@ == (a@, b@),
    {
        Ray { a, b }
    }

    /// Read-only access to the stored origin.
    pub fn origin(&self) -> (r: &Vec3)
        ensures
            r@ == self@.0,
    {
        &self.a
    }

    /// Read-only access to the stored direction.
    pub fn direction(&self) -> (r: &Vec3)
        ensures
            r@ == self@.1,
    {
        &self.b
    }

    /// The point origin + t * direction. At t = 0 this is the origin; at
    /// t = 1 it is origin + direction; any other t extrapolates along the
    /// line in either direction.
    pub fn point_at_param(&self, t: i64) -> (p: Vec3)
        requires
            scale_fits(self@.1, t as int),
            add_fits(self@.0, vscale(self@.1, t as int)),
        ensures
            p@ == point_on_ray(self@.0, self@.1, t as int),
    {
        self.a.add(self.b.scale(t))
    }
}

/// A ray evaluated at t = 0 yields its origin, and at t = 1 the sum of its
/// origin and its direction.
pub proof fn lemma_point_at_endpoints(origin: Seq<int>, direction: Seq<int>)
    requires
        origin.len() == 3,
        direction.len() == 3,
    ensures
        point_on_ray(origin, direction, 0) == origin,
        point_on_ray(origin, direction, 1) == vadd(origin, direction),
{
    assert(point_on_ray(origin, direction, 0) =~= origin);
    assert(point_on_ray(origin, direction, 1) =~= vadd(origin, direction));
}

} // verus!
