use vstd::prelude::*;

verus! {

/// `a + b` clamped to the range of `i32`.
pub open spec fn sat_add_spec(a: int, b: int) -> i32 {
    if a + b > i32::MAX {
        i32::MAX
    } else if a + b < i32::MIN {
        i32::MIN
    } else {
        (a + b) as i32
    }
}

/// `a - b` clamped to the range of `i32`.
pub open spec fn sat_sub_spec(a: int, b: int) -> i32 {
    sat_add_spec(a, -b)
}

pub open spec fn max_spec(a: i32, b: i32) -> i32 {
    if a >= b {
        a
    } else {
        b
    }
}

pub open spec fn min_spec(a: i32, b: i32) -> i32 {
    if a <= b {
        a
    } else {
        b
    }
}

pub(crate) fn sat_add(a: i32, b: i32) -> (r: i32)
    ensures
        r == sat_add_spec(a as int, b as int),
{
    let wide: i64 = a as i64 + b as i64;
    if wide > i32::MAX as i64 {
        i32::MAX
    } else if wide < i32::MIN as i64 {
        i32::MIN
    } else {
        wide as i32
    }
}

pub(crate) fn sat_sub(a: i32, b: i32) -> (r: i32)
    ensures
        r == sat_sub_spec(a as int, b as int),
{
    let wide: i64 = a as i64 - b as i64;
    if wide > i32::MAX as i64 {
        i32::MAX
    } else if wide < i32::MIN as i64 {
        i32::MIN
    } else {
        wide as i32
    }
}

fn max_i32(a: i32, b: i32) -> (r: i32)
    ensures
        r == max_spec(a, b),
{
    if a >= b {
        a
    } else {
        b
    }
}

fn min_i32(a: i32, b: i32) -> (r: i32)
    ensures
        r == min_spec(a, b),
{
    if a <= b {
        a
    } else {
        b
    }
}

/// An axis-aligned rectangle in integer pixels: the half-open ranges
/// `x .. x + width` and `y .. y + height`, with the far edges saturated to `i32`.
#[derive(Debug, Copy, Clone, PartialEq, Eq, Structural, Hash)]
pub struct Rect {
    pub x: i32,
    pub y: i32,
    pub width: i32,
    pub height: i32,
}

impl Default for Rect {
    fn default() -> (r: Self)
        ensures
            r == (Rect { x: 0, y: 0, width: 0, height: 0 }),
    {
        Rect { x: 0, y: 0, width: 0, height: 0 }
    }
}

impl Rect {
    /// The far horizontal edge, `x + width` saturated to `i32`.
    pub open spec fn right_spec(self) -> i32 {
        sat_add_spec(self.x as int, self.width as int)
    }

    /// The far vertical edge, `y + height` saturated to `i32`.
    pub open spec fn bottom_spec(self) -> i32 {
        sat_add_spec(self.y as int, self.height as int)
    }

    pub open spec fn from_xyxy_spec(x0: i32, y0: i32, x1: i32, y1: i32) -> Rect {
        Rect {
            x: x0,
            y: y0,
            width: sat_sub_spec(x1 as int, x0 as int),
            height: sat_sub_spec(y1 as int, y0 as int),
        }
    }

    pub open spec fn is_empty_spec(self) -> bool {
        self.width <= 0 || self.height <= 0
    }

    /// The point `(px, py)` lies in the half-open area of the rectangle.
    pub open spec fn contains_spec(self, px: int, py: int) -> bool {
        self.x <= px < self.right_spec() && self.y <= py < self.bottom_spec()
    }

    pub open spec fn intersects_spec(self, other: Rect) -> bool {
        &&& self.x < other.right_spec()
        &&& self.right_spec() > other.x
        &&& self.y < other.bottom_spec()
        &&& self.bottom_spec() > other.y
    }

    /// The overlap of two rectangles, or the zero rectangle where they do not overlap.
    pub open spec fn intersection_spec(self, other: Rect) -> Rect {
        let x0 = max_spec(self.x, other.x);
        let y0 = max_spec(self.y, other.y);
        let x1 = min_spec(self.right_spec(), other.right_spec());
        let y1 = min_spec(self.bottom_spec(), other.bottom_spec());
        if x1 > x0 && y1 > y0 {
            Rect::from_xyxy_spec(x0, y0, x1, y1)
        } else {
            Rect { x: 0, y: 0, width: 0, height: 0 }
        }
    }

    pub fn new(x: i32, y: i32, width: i32, height: i32) -> (r: Self)
        ensures
            r == (Rect { x, y, width, height }),
    {
        Rect { x, y, width, height }
    }

    /// The rectangle spanning from corner `(x0, y0)` to corner `(x1, y1)`.
    pub fn from_xyxy(x0: i32, y0: i32, x1: i32, y1: i32) -> (r: Self)
        ensures
            r == Rect::from_xyxy_spec(x0, y0, x1, y1),
    {
        Rect { x: x0, y: y0, width: sat_sub(x1, x0), height: sat_sub(y1, y0) }
    }

    pub fn x(self, x: i32) -> (r: Self)
        ensures
            r == (Rect { x, ..self }),
    {
        let mut s = self;
        s.x = x;
        s
    }

    pub fn y(self, y: i32) -> (r: Self)
        ensures
            r == (Rect { y, ..self }),
    {
        let mut s = self;
        s.y = y;
        s
    }

    pub fn width(self, width: i32) -> (r: Self)
        ensures
            r == (Rect { width, ..self }),
    {
        let mut s = self;
        s.width = width;
        s
    }

    pub fn height(self, height: i32) -> (r: Self)
        ensures
            r == (Rect { height, ..self }),
    {
        let mut s = self;
        s.height = height;
        s
    }

    pub fn right(&self) -> (r: i32)
        ensures
            r == self.right_spec(),
    {
        sat_add(self.x, self.width)
    }

    pub fn bottom(&self) -> (r: i32)
        ensures
            r == self.bottom_spec(),
    {
        sat_add(self.y, self.height)
    }

    pub fn is_empty(self) -> (r: bool)
        ensures
            r == self.is_empty_spec(),
    {
        self.width <= 0 || self.height <= 0
    }

    pub fn intersects(&self, other: Rect) -> (r: bool)
        ensures
            r == self.intersects_spec(other),
    {
        self.x < other.right() && self.right() > other.x && self.y < other.bottom()
            && self.bottom() > other.y
    }

    pub fn contains(&self, x: i32, y: i32) -> (r: bool)
        ensures
            r == self.contains_spec(x as int, y as int),
    {
        x >= self.x && x < self.right() && y >= self.y && y < self.bottom()
    }

    pub fn intersection(self, other: Rect) -> (r: Rect)
        ensures
            r == self.intersection_spec(other),
    {
        let x0 = max_i32(self.x, other.x);
        let y0 = max_i32(self.y, other.y);
        let x1 = min_i32(self.right(), other.right());
        let y1 = min_i32(self.bottom(), other.bottom());
        if x1 > x0 && y1 > y0 {
            Rect::from_xyxy(x0, y0, x1, y1)
        } else {
            Rect::default()
        }
    }

    /// The part of `self` inside `bounds`.
    pub fn clamp(self, bounds: Rect) -> (r: Rect)
        ensures
            r == self.intersection_spec(bounds),
    {
        self.intersection(bounds)
    }

    /// The part of `self` inside the area `(0, 0) .. (width, height)`.
    pub fn clamp_to_size(self, width: i32, height: i32) -> (r: Rect)
        ensures
            r == self.intersection_spec(Rect { x: 0, y: 0, width, height }),
    {
        self.clamp(Rect::new(0, 0, width, height))
    }

    /// The rectangle shrunk by `w` on the left and right and by `h` on the top and bottom.
    pub fn inner(&self, w: i32, h: i32) -> (r: Rect)
        requires
            i32::MIN <= self.x + w <= i32::MAX,
            i32::MIN <= self.y + h <= i32::MAX,
            i32::MIN <= 2 * w <= i32::MAX,
            i32::MIN <= 2 * h <= i32::MAX,
        ensures
            r == (Rect {
                x: (self.x + w) as i32,
                y: (self.y + h) as i32,
                width: sat_sub_spec(self.width as int, 2 * w),
                height: sat_sub_spec(self.height as int, 2 * h),
            }),
    {
        Rect {
            x: self.x + w,
            y: self.y + h,
            width: sat_sub(self.width, 2 * w),
            height: sat_sub(self.height, 2 * h),
        }
    }
}

/// `r += s` adds each field of `s` to the same field of `r`. Where a sum leaves
/// the range of `i32` it wraps around, as `+=` on
/// integers does in a release build.
impl std::ops::AddAssign for Rect {
    fn add_assign(&mut self, rhs: Rect)
        ensures
            final(self).x == old(self).x.wrapping_add(rhs.x),
            final(self).y == old(self).y.wrapping_add(rhs.y),
            final(self).width == old(self).width.wrapping_add(rhs.width),
            final(self).height == old(self).height.wrapping_add(rhs.height),
    {
        self.x = self.x.wrapping_add(rhs.x);
        self.y = self.y.wrapping_add(rhs.y);
        self.width = self.width.wrapping_add(rhs.width);
        self.height = self.height.wrapping_add(rhs.height);
    }
}

/// The new length of a framebuffer of `width` by `height` pixels that now holds
/// `len` pixels, or `None` when it already has that length.
pub fn framebuffer_resize(len: usize, width: usize, height: usize) -> (r: Option<usize>)
    requires
        width * height <= usize::MAX,
    ensures
        r == if len == width * height {
            None::<usize>
        } else {
            Some((width * height) as usize)
        },
{
    let wanted = width * height;
    if len != wanted {
        Some(wanted)
    } else {
        None
    }
}

/// Intersection does not depend on the order of its operands.
pub proof fn lemma_intersection_commutes(a: Rect, b: Rect)
    ensures
        a.intersection_spec(b) == b.intersection_spec(a),
{
}

/// The intersection is empty exactly when the two rectangles do not overlap as
/// non-empty half-open areas: both must span a positive extent on each axis, and
/// those extents must intersect.
pub proof fn lemma_intersection_empty_iff_disjoint(a: Rect, b: Rect)
    ensures
        !a.intersection_spec(b).is_empty_spec() <==> (a.intersects_spec(b) && a.x
            < a.right_spec() && b.x < b.right_spec() && a.y < a.bottom_spec() && b.y
            < b.bottom_spec()),
{
}

/// A point lies in the intersection of two rectangles exactly when it lies in both.
pub proof fn lemma_intersection_contains(a: Rect, b: Rect, px: int, py: int)
    ensures
        a.intersection_spec(b).contains_spec(px, py) <==> (a.contains_spec(px, py)
            && b.contains_spec(px, py)),
{
}

/// A rectangle rebuilt from its corners is the rectangle itself, where its far
/// edges do not saturate.
pub proof fn lemma_from_corners(r: Rect)
    requires
        i32::MIN <= r.x + r.width <= i32::MAX,
        i32::MIN <= r.y + r.height <= i32::MAX,
    ensures
        Rect::from_xyxy_spec(r.x, r.y, r.right_spec(), r.bottom_spec()) == r,
{
}

/// A rectangle clamped to a size lies inside `(0, 0) .. (width, height)`.
pub proof fn lemma_clamp_to_size_within(r: Rect, width: i32, height: i32, px: int, py: int)
    requires
        r.intersection_spec(Rect { x: 0, y: 0, width, height }).contains_spec(px, py),
    ensures
        0 <= px < width,
        0 <= py < height,
{
}

} // verus!
