use vstd::prelude::*;

use crate::scalar::Scalar;

verus! {

/// A point `(x, y)`.
#[derive(Clone, Copy, Debug, PartialEq, Eq, Structural)]
pub struct Point {
    pub x: Scalar,
    pub y: Scalar,
}

/// Represents a line.
#[derive(Clone, Copy, Debug, PartialEq, Eq, Structural)]
pub struct Line {
    /// Start point of line.
    pub start: Point,
    /// End point of line.
    pub end: Point,
}

impl From<[Scalar; 4]> for Line {
    /// The line from `(line[0], line[1])` to `(line[2], line[3])`.
    fn from(line: [Scalar; 4]) -> (r: Line)
        ensures
            r == (Line {
                start: Point { x: line@[0], y: line@[1] },
                end: Point { x: line@[2], y: line@[3] },
            }),
    {
        Line { start: Point { x: line[0], y: line[1] }, end: Point { x: line[2], y: line[3] } }
    }
}

impl vstd::std_specs::convert::FromSpecImpl<[Scalar; 4]> for Line {
    open spec fn obeys_from_spec() -> bool {
        true
    }

    open spec fn from_spec(line: [Scalar; 4]) -> Line {
        Line {
            start: Point { x: line@[0], y: line@[1] },
            end: Point { x: line@[2], y: line@[3] },
        }
    }
}

impl From<(Scalar, Scalar, Scalar, Scalar)> for Line {
    /// The line from `(x1, y1)` to `(x2, y2)`.
    fn from(line: (Scalar, Scalar, Scalar, Scalar)) -> (r: Line)
        ensures
            r == (Line { start: Point { x: line.0, y: line.1 }, end: Point { x: line.2, y: line.3 } }),
    {
        let (x1, y1, x2, y2) = line;
        Line { start: Point { x: x1, y: y1 }, end: Point { x: x2, y: y2 } }
    }
}

impl vstd::std_specs::convert::FromSpecImpl<(Scalar, Scalar, Scalar, Scalar)> for Line {
    open spec fn obeys_from_spec() -> bool {
        true
    }

    open spec fn from_spec(line: (Scalar, Scalar, Scalar, Scalar)) -> Line {
        Line { start: Point { x: line.0, y: line.1 }, end: Point { x: line.2, y: line.3 } }
    }
}

impl From<(Point, Point)> for Line {
    /// The line from the first point to the second.
    fn from(line: (Point, Point)) -> (r: Line)
        ensures
            r == (Line { start: line.0, end: line.1 }),
    {
        Line { start: line.0, end: line.1 }
    }
}

impl vstd::std_specs::convert::FromSpecImpl<(Point, Point)> for Line {
    open spec fn obeys_from_spec() -> bool {
        true
    }

    open spec fn from_spec(line: (Point, Point)) -> Line {
        Line { start: line.0, end: line.1 }
    }
}

impl From<[Point; 2]> for Line {
    /// The line from `line[0]` to `line[1]`.
    fn from(line: [Point; 2]) -> (r: Line)
        ensures
            r == (Line { start: line@[0], end: line@[1] }),
    {
        Line { start: line[0], end: line[1] }
    }
}

impl vstd::std_specs::convert::FromSpecImpl<[Point; 2]> for Line {
    open spec fn obeys_from_spec() -> bool {
        true
    }

    open spec fn from_spec(line: [Point; 2]) -> Line {
        Line { start: line@[0], end: line@[1] }
    }
}

} // verus!
