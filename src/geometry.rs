use vstd::prelude::*;

verus! {

/// Physical pixel dimensions of a client drawing area.
#[derive(Clone, Copy, Debug, PartialEq, Eq, Structural)]
pub struct Size {
    pub width: i32,
    pub height: i32,
}

/// A pixel position relative to the top-left corner of the client area.
#[derive(Clone, Copy, Debug, PartialEq, Eq, Structural)]
pub struct PixelPoint {
    pub x: i32,
    pub y: i32,
}

/// An exact fraction `num / den`.
#[derive(Clone, Copy, Debug, PartialEq, Eq, Structural)]
pub struct Ratio {
    pub num: i32,
    pub den: i32,
}

/// A point of the unit square, origin at the top-left, y pointing down.
#[derive(Clone, Copy, Debug, PartialEq, Eq, Structural)]
pub struct Position {
    pub x: Ratio,
    pub y: Ratio,
}

/// A point of the device square `[-1, 1] x [-1, 1]`, origin at the centre,
/// y pointing up.
#[derive(Clone, Copy, Debug, PartialEq, Eq, Structural)]
pub struct DevicePoint {
    pub x: Ratio,
    pub y: Ratio,
}

impl Size {
    /// Both dimensions are positive, so a pixel can be normalised by them.
    pub open spec fn is_drawable(self) -> bool {
        self.width > 0 && self.height > 0
    }

    /// The pixel lies on the closed rectangle `[0, width] x [0, height]`.
    pub open spec fn contains(self, p: PixelPoint) -> bool {
        0 <= p.x <= self.width && 0 <= p.y <= self.height
    }

    /// The size of the rectangle with the given edges, where both extents
    /// fit in an `i32`.
    pub fn from_bounds(left: i32, top: i32, right: i32, bottom: i32) -> (r: Option<Size>)
        ensures
            r is Some <==> (i32::MIN <= right - left <= i32::MAX && i32::MIN <= bottom - top
                <= i32::MAX),
            r matches Some(s) ==> s.width == right - left && s.height == bottom - top,
    {
        let w: i64 = right as i64 - left as i64;
        let h: i64 = bottom as i64 - top as i64;
        if w < i32::MIN as i64 || w > i32::MAX as i64 || h < i32::MIN as i64 || h
            > i32::MAX as i64 {
            None
        } else {
            Some(Size { width: w as i32, height: h as i32 })
        }
    }

    /// Whether both dimensions are positive.
    pub fn drawable(&self) -> (r: bool)
        ensures
            r == self.is_drawable(),
    {
        self.width > 0 && self.height > 0
    }

    /// Whether the pixel lies on the client rectangle, edges included.
    pub fn holds(&self, p: PixelPoint) -> (r: bool)
        ensures
            r == self.contains(p),
    {
        0 <= p.x && p.x <= self.width && 0 <= p.y && p.y <= self.height
    }
}

impl Ratio {
    /// The denominator is positive.
    pub open spec fn wf(self) -> bool {
        self.den > 0
    }

    /// The value lies in `[0, 1]`.
    pub open spec fn in_unit(self) -> bool {
        self.wf() && 0 <= self.num <= self.den
    }

    /// The value lies in `[-1, 1]`.
    pub open spec fn in_signed_unit(self) -> bool {
        self.wf() && -self.den <= self.num <= self.den
    }

    /// Two fractions denote the same rational number.
    pub open spec fn same_value(self, o: Ratio) -> bool {
        self.num * o.den == o.num * self.den
    }
}

impl Position {
    /// Both coordinates lie in `[0, 1]`.
    pub open spec fn wf(self) -> bool {
        self.x.in_unit() && self.y.in_unit()
    }

    /// Both coordinates denote the same numbers as those of `o`.
    pub open spec fn same_point(self, o: Position) -> bool {
        self.x.same_value(o.x) && self.y.same_value(o.y)
    }

    /// The device point of this position: `x' = 2 (x - 1/2)`, `y' = 2 (1/2 - y)`.
    pub open spec fn device_spec(self) -> DevicePoint {
        DevicePoint {
            x: Ratio { num: (2 * self.x.num - self.x.den) as i32, den: self.x.den },
            y: Ratio { num: (self.y.den - 2 * self.y.num) as i32, den: self.y.den },
        }
    }

    /// Moves the origin to the centre, flips the y axis and stretches the
    /// range to `[-1, 1]`.
    pub fn to_device(&self) -> (r: DevicePoint)
        requires
            self.wf(),
        ensures
            r == self.device_spec(),
            r.wf(),
    {
        let x: i64 = 2 * self.x.num as i64 - self.x.den as i64;
        let y: i64 = self.y.den as i64 - 2 * self.y.num as i64;
        DevicePoint {
            x: Ratio { num: x as i32, den: self.x.den },
            y: Ratio { num: y as i32, den: self.y.den },
        }
    }
}

impl DevicePoint {
    /// Both coordinates lie in `[-1, 1]`.
    pub open spec fn wf(self) -> bool {
        self.x.in_signed_unit() && self.y.in_signed_unit()
    }
}

/// The position of pixel `p` in a client area of size `s`:
/// `x = p.x / s.width`, `y = p.y / s.height`.
pub open spec fn normalize_spec(p: PixelPoint, s: Size) -> Position {
    Position { x: Ratio { num: p.x, den: s.width }, y: Ratio { num: p.y, den: s.height } }
}

/// The pixel that a device point stands for in a client area of size `s`,
/// solving `x' = 2 (px / w - 1/2)` and `y' = 2 (1/2 - py / h)` for `px`, `py`.
pub open spec fn pixel_of_device(d: DevicePoint, s: Size) -> (int, int) {
    (
        (d.x.num + d.x.den) * s.width / (2 * d.x.den),
        (d.y.den - d.y.num) * s.height / (2 * d.y.den),
    )
}

/// Normalises a client-relative pixel by the client size.
pub fn normalize(p: PixelPoint, s: Size) -> (r: Position)
    requires
        s.is_drawable(),
    ensures
        r == normalize_spec(p, s),
        s.contains(p) ==> r.wf(),
{
    Position { x: Ratio { num: p.x, den: s.width }, y: Ratio { num: p.y, den: s.height } }
}

/// Every pixel of a drawable client area lands in the unit square, and two
/// different pixels land on two different points.
pub proof fn lemma_normalize_unit_injective(p: PixelPoint, q: PixelPoint, s: Size)
    requires
        s.is_drawable(),
        s.contains(p),
        s.contains(q),
    ensures
        normalize_spec(p, s).wf(),
        normalize_spec(p, s).same_point(normalize_spec(q, s)) ==> p == q,
{
    let w = s.width as int;
    let h = s.height as int;
    if (p.x as int) * w == (q.x as int) * w {
        assert(p.x == q.x) by (nonlinear_arith)
            requires
                (p.x as int) * w == (q.x as int) * w,
                w > 0,
        ;
    }
    if (p.y as int) * h == (q.y as int) * h {
        assert(p.y == q.y) by (nonlinear_arith)
            requires
                (p.y as int) * h == (q.y as int) * h,
                h > 0,
        ;
    }
}

/// Mapping a pixel of the client area to device space and solving back
/// gives the pixel again.
pub proof fn lemma_device_round_trip(p: PixelPoint, s: Size)
    requires
        s.is_drawable(),
        s.contains(p),
    ensures
        normalize_spec(p, s).device_spec().wf(),
        pixel_of_device(normalize_spec(p, s).device_spec(), s) == (p.x as int, p.y as int),
        ({
            let d = normalize_spec(p, s).device_spec();
            &&& (d.x.num + d.x.den) * s.width == 2 * d.x.den * p.x
            &&& (d.y.den - d.y.num) * s.height == 2 * d.y.den * p.y
        }),
{
    let d = normalize_spec(p, s).device_spec();
    let w = s.width as int;
    let h = s.height as int;
    assert(d.x.num + d.x.den == 2 * p.x);
    assert(d.y.den - d.y.num == 2 * p.y);
    assert((2 * (p.x as int)) * w == 2 * w * p.x) by (nonlinear_arith);
    assert((2 * (p.y as int)) * h == 2 * h * p.y) by (nonlinear_arith);
    assert((2 * (p.x as int)) * w / (2 * w) == p.x) by (nonlinear_arith)
        requires
            w > 0,
    ;
    assert((2 * (p.y as int)) * h / (2 * h) == p.y) by (nonlinear_arith)
        requires
            h > 0,
    ;
}

} // verus!
