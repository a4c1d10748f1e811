use vstd::prelude::*;

verus! {

/// A cell of the playing grid: column, then row (rows grow downward).
#[derive(Clone, Copy, Debug, PartialEq, Eq, Structural)]
pub struct Point(pub i32, pub i32);

/// Whether the point `p + q` has both coordinates within `i32`.
pub open spec fn sum_fits(p: Point, q: Point) -> bool {
    &&& i32::MIN <= p.0 + q.0 <= i32::MAX
    &&& i32::MIN <= p.1 + q.1 <= i32::MAX
}

/// The component-wise sum of two points; meaningful where `sum_fits` holds.
pub open spec fn sum(p: Point, q: Point) -> Point {
    Point((p.0 + q.0) as i32, (p.1 + q.1) as i32)
}

/// The absolute value of an integer.
pub open spec fn abs(a: int) -> int {
    if a < 0 { -a } else { a }
}

/// Two cells are neighbours: Manhattan distance exactly one.
pub open spec fn adjacent(p: Point, q: Point) -> bool {
    abs(p.0 - q.0) + abs(p.1 - q.1) == 1
}

impl std::ops::Add for Point {
    type Output = Point;

    fn add(self, rhs: Point) -> Point {
        Point(self.0 + rhs.0, self.1 + rhs.1)
    }
}

impl vstd::std_specs::ops::AddSpecImpl for Point {
    open spec fn obeys_add_spec() -> bool {
        true
    }

    open spec fn add_req(self, rhs: Point) -> bool {
        sum_fits(self, rhs)
    }

    open spec fn add_spec(self, rhs: Point) -> Point {
        sum(self, rhs)
    }
}

} // verus!
