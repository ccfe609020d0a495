//! Integer geometry of the logical coordinate space.
//!
//! Window positions and sizes are whole logical units. Pointer positions carry
//! eight fractional bits, as they do on the wire: a [`FixedPoint`] counts
//! 256ths of a logical unit.
use vstd::prelude::*;

verus! {

/// `v` brought into the range of `i32`.
pub open spec fn clamp_i32(v: int) -> int {
    if v < i32::MIN {
        i32::MIN as int
    } else if v > i32::MAX {
        i32::MAX as int
    } else {
        v
    }
}

/// The smaller of two integers.
pub open spec fn min_int(a: int, b: int) -> int {
    if a <= b {
        a
    } else {
        b
    }
}

/// The larger of two integers.
pub open spec fn max_int(a: int, b: int) -> int {
    if a >= b {
        a
    } else {
        b
    }
}

/// A count of 256ths rounded to whole units, halves away from zero.
pub open spec fn round_units(raw: int) -> int {
    if raw >= 0 {
        (raw + 128) / 256
    } else {
        -((-raw + 128) / 256)
    }
}

/// A count of 256ths cut to whole units, towards zero.
pub open spec fn trunc_units(raw: int) -> int {
    if raw >= 0 {
        raw / 256
    } else {
        -((-raw) / 256)
    }
}

/// Saturating conversion to `i32`.
pub fn saturate(v: i64) -> (r: i32)
    ensures
        r == clamp_i32(v as int),
{
    if v < -2147483648 {
        i32::MIN
    } else if v > 2147483647 {
        i32::MAX
    } else {
        v as i32
    }
}

/// Saturating sum.
pub fn sat_add(a: i32, b: i32) -> (r: i32)
    ensures
        r == clamp_i32(a + b),
{
    saturate(a as i64 + b as i64)
}

/// Saturating difference.
pub fn sat_sub(a: i32, b: i32) -> (r: i32)
    ensures
        r == clamp_i32(a - b),
{
    saturate(a as i64 - b as i64)
}

/// Rounds a count of 256ths to whole units, halves away from zero.
pub fn round_to_units(raw: i64) -> (r: i64)
    requires
        -0x4000_0000_0000_0000 <= raw <= 0x4000_0000_0000_0000,
    ensures
        r == round_units(raw as int),
{
    if raw >= 0 {
        (raw + 128) / 256
    } else {
        -((-raw + 128) / 256)
    }
}

/// Cuts a count of 256ths to whole units, towards zero.
pub fn trunc_to_units(raw: i64) -> (r: i64)
    requires
        -0x4000_0000_0000_0000 <= raw <= 0x4000_0000_0000_0000,
    ensures
        r == trunc_units(raw as int),
{
    if raw >= 0 {
        raw / 256
    } else {
        -((-raw) / 256)
    }
}

/// Where an extent of `size` that starts at `at` has to start so that it
/// lies between `low` and `high`: where it is if it lies there; else as near
/// as possible, and at `low` if it is too large to fit.
pub open spec fn slid(at: int, size: int, low: int, high: int) -> int {
    if at < low || size >= high - low {
        low
    } else if at + size > high {
        high - size
    } else {
        at
    }
}

/// Slides an extent between two limits; see [`slid`].
pub fn slide(at: i32, size: i32, low: i32, extent: i32) -> (r: i32)
    ensures
        r == clamp_i32(slid(at as int, size as int, low as int, low + extent)),
{
    let high: i64 = low as i64 + extent as i64;
    let r: i64 = if at < low || size as i64 >= high - low as i64 {
        low as i64
    } else if at as i64 + size as i64 > high {
        high - size as i64
    } else {
        at as i64
    };
    saturate(r)
}

/// A position in whole logical units.
#[derive(Clone, Copy, PartialEq, Eq, Structural, Debug)]
pub struct Point {
    pub x: i32,
    pub y: i32,
}

/// An extent in whole logical units.
#[derive(Clone, Copy, PartialEq, Eq, Structural, Debug)]
pub struct Size {
    pub w: i32,
    pub h: i32,
}

/// An axis-aligned rectangle: its top-left corner and its extent.
#[derive(Clone, Copy, PartialEq, Eq, Structural, Debug)]
pub struct Rectangle {
    pub loc: Point,
    pub size: Size,
}

/// A position with eight fractional bits per coordinate.
#[derive(Clone, Copy, PartialEq, Eq, Structural, Debug)]
pub struct FixedPoint {
    pub x: i32,
    pub y: i32,
}

impl Point {
    pub fn new(x: i32, y: i32) -> (p: Point)
        ensures
            p == (Point { x, y }),
    {
        Point { x, y }
    }

    /// Componentwise saturating sum.
    pub open spec fn plus(self, other: Point) -> Point {
        Point { x: clamp_i32(self.x + other.x) as i32, y: clamp_i32(self.y + other.y) as i32 }
    }

    /// Componentwise saturating difference.
    pub open spec fn minus(self, other: Point) -> Point {
        Point { x: clamp_i32(self.x - other.x) as i32, y: clamp_i32(self.y - other.y) as i32 }
    }

    /// Componentwise saturating sum.
    pub fn add(self, other: Point) -> (p: Point)
        ensures
            p == self.plus(other),
    {
        Point { x: sat_add(self.x, other.x), y: sat_add(self.y, other.y) }
    }

    /// Componentwise saturating difference.
    pub fn sub(self, other: Point) -> (p: Point)
        ensures
            p == self.minus(other),
    {
        Point { x: sat_sub(self.x, other.x), y: sat_sub(self.y, other.y) }
    }
}

impl Size {
    pub fn new(w: i32, h: i32) -> (s: Size)
        ensures
            s == (Size { w, h }),
    {
        Size { w, h }
    }
}

impl FixedPoint {
    pub fn new(x: i32, y: i32) -> (p: FixedPoint)
        ensures
            p == (FixedPoint { x, y }),
    {
        FixedPoint { x, y }
    }

    /// The fixed-point position of a whole-unit position, saturating at the
    /// ends of the representable range.
    pub open spec fn of_point(p: Point) -> FixedPoint {
        FixedPoint { x: clamp_i32(p.x * 256) as i32, y: clamp_i32(p.y * 256) as i32 }
    }

    /// The fixed-point position of a whole-unit position, saturating at the
    /// ends of the representable range.
    pub fn from_point(p: Point) -> (f: FixedPoint)
        ensures
            f == Self::of_point(p),
    {
        FixedPoint { x: saturate(p.x as i64 * 256), y: saturate(p.y as i64 * 256) }
    }

    /// Componentwise saturating sum.
    pub open spec fn plus(self, other: FixedPoint) -> FixedPoint {
        FixedPoint { x: clamp_i32(self.x + other.x) as i32, y: clamp_i32(self.y + other.y) as i32 }
    }

    /// Componentwise saturating difference.
    pub open spec fn minus(self, other: FixedPoint) -> FixedPoint {
        FixedPoint { x: clamp_i32(self.x - other.x) as i32, y: clamp_i32(self.y - other.y) as i32 }
    }

    /// Componentwise saturating sum.
    pub fn add(self, other: FixedPoint) -> (p: FixedPoint)
        ensures
            p == self.plus(other),
    {
        FixedPoint { x: sat_add(self.x, other.x), y: sat_add(self.y, other.y) }
    }

    /// Componentwise saturating difference.
    pub fn sub(self, other: FixedPoint) -> (p: FixedPoint)
        ensures
            p == self.minus(other),
    {
        FixedPoint { x: sat_sub(self.x, other.x), y: sat_sub(self.y, other.y) }
    }
}

impl Rectangle {
    pub fn new(loc: Point, size: Size) -> (r: Rectangle)
        ensures
            r == (Rectangle { loc, size }),
    {
        Rectangle { loc, size }
    }

    /// The empty rectangle at the origin.
    pub open spec fn zero_rect() -> Rectangle {
        Rectangle { loc: Point { x: 0, y: 0 }, size: Size { w: 0, h: 0 } }
    }

    /// The empty rectangle at the origin.
    pub fn zero() -> (r: Rectangle)
        ensures
            r == Self::zero_rect(),
    {
        Rectangle { loc: Point { x: 0, y: 0 }, size: Size { w: 0, h: 0 } }
    }

    /// First column right of the rectangle.
    pub open spec fn right(self) -> int {
        self.loc.x + self.size.w
    }

    /// First row below the rectangle.
    pub open spec fn bottom(self) -> int {
        self.loc.y + self.size.h
    }

    /// Whether the whole-unit position lies inside: the left and top edges
    /// belong to the rectangle, the right and bottom edges do not.
    pub open spec fn contains(self, p: Point) -> bool {
        self.loc.x <= p.x < self.right() && self.loc.y <= p.y < self.bottom()
    }

    /// Whether the fixed-point position lies inside.
    pub open spec fn contains_fixed(self, p: FixedPoint) -> bool {
        self.loc.x * 256 <= p.x < self.right() * 256 && self.loc.y * 256 <= p.y < self.bottom()
            * 256
    }

    /// Whether the two rectangles share at least one position.
    pub open spec fn overlaps(self, other: Rectangle) -> bool {
        self.loc.x < other.right() && other.loc.x < self.right() && self.loc.y < other.bottom()
            && other.loc.y < self.bottom()
    }

    /// The rectangle with the same extent, moved by `delta` (saturating).
    pub open spec fn shifted(self, delta: Point) -> Rectangle {
        Rectangle { loc: self.loc.plus(delta), size: self.size }
    }

    /// The smallest rectangle around the corners of both, each coordinate
    /// saturating at the ends of `i32`.
    pub open spec fn merged(self, other: Rectangle) -> Rectangle {
        let ar = clamp_i32(self.right());
        let ab = clamp_i32(self.bottom());
        let br = clamp_i32(other.right());
        let bb = clamp_i32(other.bottom());
        let left = min_int(min_int(self.loc.x as int, ar), min_int(other.loc.x as int, br));
        let right = max_int(max_int(self.loc.x as int, ar), max_int(other.loc.x as int, br));
        let top = min_int(min_int(self.loc.y as int, ab), min_int(other.loc.y as int, bb));
        let bottom = max_int(max_int(self.loc.y as int, ab), max_int(other.loc.y as int, bb));
        Rectangle {
            loc: Point { x: left as i32, y: top as i32 },
            size: Size { w: clamp_i32(right - left) as i32, h: clamp_i32(bottom - top) as i32 },
        }
    }

    /// The area common to both rectangles (meaningful where they overlap).
    pub open spec fn common(self, other: Rectangle) -> Rectangle {
        let left = max_int(self.loc.x as int, other.loc.x as int);
        let top = max_int(self.loc.y as int, other.loc.y as int);
        let right = min_int(self.right(), other.right());
        let bottom = min_int(self.bottom(), other.bottom());
        Rectangle {
            loc: Point { x: left as i32, y: top as i32 },
            size: Size { w: clamp_i32(right - left) as i32, h: clamp_i32(bottom - top) as i32 },
        }
    }

    /// This rectangle moved, as little as possible, to where it lies inside
    /// `target`; along an axis on which it is too large for that, it starts
    /// where `target` starts. Its extent stays as it is.
    pub open spec fn clamped_into(self, target: Rectangle) -> Rectangle {
        Rectangle {
            loc: Point {
                x: clamp_i32(
                    slid(
                        self.loc.x as int,
                        self.size.w as int,
                        target.loc.x as int,
                        target.right(),
                    ),
                ) as i32,
                y: clamp_i32(
                    slid(
                        self.loc.y as int,
                        self.size.h as int,
                        target.loc.y as int,
                        target.bottom(),
                    ),
                ) as i32,
            },
            size: self.size,
        }
    }

    /// Whether every position of `inner` lies in this rectangle.
    pub open spec fn encloses(self, inner: Rectangle) -> bool {
        self.loc.x <= inner.loc.x && inner.right() <= self.right() && self.loc.y <= inner.loc.y
            && inner.bottom() <= self.bottom()
    }

    /// The rectangle moved into `target`; see [`Rectangle::clamped_into`].
    pub fn clamp_into(&self, target: &Rectangle) -> (r: Rectangle)
        ensures
            r == self.clamped_into(*target),
    {
        Rectangle {
            loc: Point {
                x: slide(self.loc.x, self.size.w, target.loc.x, target.size.w),
                y: slide(self.loc.y, self.size.h, target.loc.y, target.size.h),
            },
            size: self.size,
        }
    }

    pub fn contains_point(&self, p: Point) -> (b: bool)
        ensures
            b == self.contains(p),
    {
        let px: i64 = p.x as i64;
        let py: i64 = p.y as i64;
        let left: i64 = self.loc.x as i64;
        let top: i64 = self.loc.y as i64;
        left <= px && px < left + self.size.w as i64 && top <= py && py < top + self.size.h as i64
    }

    pub fn contains_fixed_point(&self, p: FixedPoint) -> (b: bool)
        ensures
            b == self.contains_fixed(p),
    {
        let px: i64 = p.x as i64;
        let py: i64 = p.y as i64;
        let left: i64 = self.loc.x as i64;
        let top: i64 = self.loc.y as i64;
        let right: i64 = left + self.size.w as i64;
        let bottom: i64 = top + self.size.h as i64;
        left * 256 <= px && px < right * 256 && top * 256 <= py && py < bottom * 256
    }

    pub fn overlaps_with(&self, other: &Rectangle) -> (b: bool)
        ensures
            b == self.overlaps(*other),
    {
        let al: i64 = self.loc.x as i64;
        let at: i64 = self.loc.y as i64;
        let ar: i64 = al + self.size.w as i64;
        let ab: i64 = at + self.size.h as i64;
        let bl: i64 = other.loc.x as i64;
        let bt: i64 = other.loc.y as i64;
        let br: i64 = bl + other.size.w as i64;
        let bb: i64 = bt + other.size.h as i64;
        al < br && bl < ar && at < bb && bt < ab
    }

    /// The rectangle moved by `delta`.
    pub fn shift(&self, delta: Point) -> (r: Rectangle)
        ensures
            r == self.shifted(delta),
    {
        Rectangle { loc: self.loc.add(delta), size: self.size }
    }

    /// The smallest rectangle around both.
    pub fn merge(&self, other: &Rectangle) -> (r: Rectangle)
        ensures
            r == self.merged(*other),
    {
        let ar: i32 = sat_add(self.loc.x, self.size.w);
        let ab: i32 = sat_add(self.loc.y, self.size.h);
        let br: i32 = sat_add(other.loc.x, other.size.w);
        let bb: i32 = sat_add(other.loc.y, other.size.h);
        let left: i32 = smaller(smaller(self.loc.x, ar), smaller(other.loc.x, br));
        let right: i32 = larger(larger(self.loc.x, ar), larger(other.loc.x, br));
        let top: i32 = smaller(smaller(self.loc.y, ab), smaller(other.loc.y, bb));
        let bottom: i32 = larger(larger(self.loc.y, ab), larger(other.loc.y, bb));
        Rectangle {
            loc: Point { x: left, y: top },
            size: Size { w: sat_sub(right, left), h: sat_sub(bottom, top) },
        }
    }

    /// The area common to both rectangles, if they overlap.
    pub fn intersection(&self, other: &Rectangle) -> (r: Option<Rectangle>)
        ensures
            r == (if self.overlaps(*other) {
                Some(self.common(*other))
            } else {
                None
            }),
    {
        if !self.overlaps_with(other) {
            return None;
        }
        let al: i64 = self.loc.x as i64;
        let at: i64 = self.loc.y as i64;
        let ar: i64 = al + self.size.w as i64;
        let ab: i64 = at + self.size.h as i64;
        let bl: i64 = other.loc.x as i64;
        let bt: i64 = other.loc.y as i64;
        let br: i64 = bl + other.size.w as i64;
        let bb: i64 = bt + other.size.h as i64;
        let left: i64 = if al >= bl { al } else { bl };
        let top: i64 = if at >= bt { at } else { bt };
        let right: i64 = if ar <= br { ar } else { br };
        let bottom: i64 = if ab <= bb { ab } else { bb };
        Some(
            Rectangle {
                loc: Point { x: left as i32, y: top as i32 },
                size: Size { w: saturate(right - left), h: saturate(bottom - top) },
            },
        )
    }
}

/// The smaller of two coordinates.
pub fn smaller(a: i32, b: i32) -> (r: i32)
    ensures
        r == min_int(a as int, b as int),
{
    if a <= b {
        a
    } else {
        b
    }
}

/// The larger of two coordinates.
pub fn larger(a: i32, b: i32) -> (r: i32)
    ensures
        r == max_int(a as int, b as int),
{
    if a >= b {
        a
    } else {
        b
    }
}

/// A rectangle that is no larger than the target lies inside the target
/// once it was clamped into it, and one that lay inside before has not
/// moved.
pub proof fn lemma_clamped_into(rect: Rectangle, target: Rectangle)
    requires
        0 <= rect.size.w <= target.size.w,
        0 <= rect.size.h <= target.size.h,
        target.right() <= i32::MAX,
        target.bottom() <= i32::MAX,
    ensures
        target.encloses(rect.clamped_into(target)),
        target.encloses(rect) ==> rect.clamped_into(target) == rect,
{
}

} // verus!
