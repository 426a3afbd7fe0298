//! Conversions between "rect" space, the x position in the window in pixels,
//! and "audio" space, the position in the un-zoomed timeline.
//!
//! All quantities are fixed-point integers: zoom is in units of
//! `1 / ZOOM_ONE`, normalized positions are in units of `1 / NORM_ONE`, and
//! timeline positions are in the host's time unit. Each conversion rounds
//! half-up exactly once, so the two maps are exact inverses of one another
//! whenever one timeline unit spans more than one pixel
//! (`lemma_pixel_position_round_trip`).

use vstd::prelude::*;
use vstd::arithmetic::div_mod::{
    lemma_fundamental_div_mod, lemma_fundamental_div_mod_converse_div, lemma_mod_bound,
};
use crate::fixed::{rdiv, round_div_i128, lemma_rdiv_bound, RDIV_MAX};

verus! {

/// Fixed-point scale of zoom: a zoom field of `ZOOM_ONE` means no zoom.
pub const ZOOM_ONE: u64 = 1000;

/// Largest zoom the engine reaches; a million-fold magnification.
pub const ZOOM_MAX: u64 = 1_000_000_000;

/// Fixed-point scale of normalized timeline positions: `NORM_ONE` is the
/// right edge of the un-zoomed timeline.
pub const NORM_ONE: i64 = 1_000_000;

/// Largest widget width in pixels the converter accepts.
pub const WIDTH_MAX: i64 = 1_000_000;

/// Largest pixel magnitude accepted for the widget's left edge.
pub const LEFT_MAX: i64 = 100_000_000;

/// Largest total runtime accepted, in time units.
pub const TOTAL_MAX: i64 = 100_000_000_000_000;

/// A pointer position is accepted while within this many widget widths of
/// the widget; far enough for any drag that leaves the window.
pub const POINTER_REACH: i64 = 100;

/// A timeline position is accepted for drawing while within this many total
/// runtimes of zero.
pub const POS_REACH: i64 = 128;

/// The x extent of a widget or handle rectangle, in pixels.
#[derive(Clone, Copy, PartialEq, Eq, Structural, Debug)]
pub struct Rect {
    pub left: i64,
    pub width: i64,
}

/// Conversions between rect space and audio space for one paint pass: the
/// view's zoom and center, the widget rectangle and the total runtime are
/// all captured when the widget is laid out.
#[derive(Clone, Copy, PartialEq, Eq, Structural, Debug)]
pub struct ProgressPosConverter {
    pub zoom: u64,
    pub widget_center_norm: i64,
    pub rect: Rect,
    pub total_runtime: i64,
}

impl ProgressPosConverter {
    /// Machine bounds under which every conversion is exact and free of
    /// overflow.
    pub open spec fn wf_spec(self) -> bool {
        &&& ZOOM_ONE <= self.zoom <= ZOOM_MAX
        &&& 0 <= self.widget_center_norm <= NORM_ONE
        &&& 1 <= self.rect.width <= WIDTH_MAX
        &&& -LEFT_MAX <= self.rect.left <= LEFT_MAX
        &&& 1 <= self.total_runtime <= TOTAL_MAX
    }

    /// The pixel x lies within `POINTER_REACH` widget widths of the widget.
    pub open spec fn pointer_in_reach(self, x: int) -> bool {
        &&& self.rect.left - POINTER_REACH * self.rect.width <= x
        &&& x <= self.rect.left + POINTER_REACH * self.rect.width
    }

    /// The timeline position lies within `POS_REACH` runtimes of zero.
    pub open spec fn pos_in_reach(self, p: int) -> bool {
        -(POS_REACH * self.total_runtime) <= p <= POS_REACH * self.total_runtime
    }

    /// Numerator of the exact rational mapping pixel x to a normalized
    /// position in units of `1 / NORM_ONE`.
    pub open spec fn pix_to_norm_num(self, x: int) -> int {
        1_000_000_000 * (2 * (x - self.rect.left) - self.rect.width) + 2 * (((
        self.rect.width as int) * (self.zoom as int)) * (self.widget_center_norm as int))
    }

    /// Denominator of the pixel-to-normalized-position map.
    pub open spec fn pix_to_norm_den(self) -> int {
        2 * ((self.rect.width as int) * (self.zoom as int))
    }

    /// Pixel x to normalized position, rounded half-up once.
    pub open spec fn pix_to_norm(self, x: int) -> int {
        rdiv(self.pix_to_norm_num(x), self.pix_to_norm_den())
    }

    /// Numerator of the exact rational mapping pixel x to a timeline
    /// position.
    pub open spec fn pix_to_pos_num(self, x: int) -> int {
        (self.total_runtime as int) * self.pix_to_norm_num(x)
    }

    /// Denominator of the pixel-to-timeline-position map.
    pub open spec fn pix_to_pos_den(self) -> int {
        self.pix_to_norm_den() * 1_000_000
    }

    /// Pixel x to timeline position, rounded half-up once.
    pub open spec fn pix_to_pos(self, x: int) -> int {
        rdiv(self.pix_to_pos_num(x), self.pix_to_pos_den())
    }

    /// Numerator of the exact rational mapping a timeline position to the
    /// pixel offset from the widget's left edge.
    pub open spec fn pos_to_pix_num(self, p: int) -> int {
        (self.rect.width as int) * (2 * ((self.zoom as int) * (p * 1_000_000 - (
        self.widget_center_norm as int) * (self.total_runtime as int))) + (
        self.total_runtime as int) * 1_000_000_000)
    }

    /// Denominator of the timeline-position-to-pixel map.
    pub open spec fn pos_to_pix_den(self) -> int {
        2 * ((self.total_runtime as int) * 1_000_000_000)
    }

    /// Timeline position to pixel x, rounded half-up once.
    pub open spec fn pos_to_pix(self, p: int) -> int {
        self.rect.left + rdiv(self.pos_to_pix_num(p), self.pos_to_pix_den())
    }

    /// Normalized position of a pixel x, in units of `1 / NORM_ONE`.
    pub fn rect_to_duration_norm(&self, x_pos_rect: i64) -> (r: i64)
        requires
            self.wf_spec(),
            self.pointer_in_reach(x_pos_rect as int),
        ensures
            r == self.pix_to_norm(x_pos_rect as int),
            -102_000_000 <= r <= 102_000_000,
    {
        let x = x_pos_rect as i128;
        let l = self.rect.left as i128;
        let w = self.rect.width as i128;
        let zn = self.zoom as i128;
        let cn = self.widget_center_norm as i128;
        proof {
            assert(1 <= w * zn <= 1_000_000_000_000_000 && 0 <= (w * zn) * cn
                <= 1_000_000_000_000_000_000_000) by (nonlinear_arith)
                requires
                    1 <= w <= 1_000_000,
                    1000 <= zn <= 1_000_000_000,
                    0 <= cn <= 1_000_000,
            ;
        }
        let den = 2 * (w * zn);
        let num = 1_000_000_000i128 * (2 * (x - l) - w) + 2 * ((w * zn) * cn);
        proof {
            assert(num == self.pix_to_norm_num(x_pos_rect as int));
            assert(den == self.pix_to_norm_den());
            assert(-(102_000_000 * den) <= num <= 102_000_000 * den) by (nonlinear_arith)
                requires
                    1 <= w <= 1_000_000,
                    1000 <= zn <= 1_000_000_000,
                    0 <= cn <= 1_000_000,
                    l - 100 * w <= x <= l + 100 * w,
                    num == 1_000_000_000 * (2 * (x - l) - w) + 2 * ((w * zn) * cn),
                    den == 2 * (w * zn),
            ;
            lemma_rdiv_bound(num as int, den as int, 102_000_000);
        }
        let r = round_div_i128(num, den);
        r as i64
    }

    /// Timeline position of a pixel x. The rounding happens once, on the
    /// full pixel-to-position map, so that the result round-trips exactly
    /// through `duration_to_rect_pos`.
    pub fn rect_to_duration(&self, x_pos_rect: i64) -> (r: i64)
        requires
            self.wf_spec(),
            self.pointer_in_reach(x_pos_rect as int),
        ensures
            r == self.pix_to_pos(x_pos_rect as int),
            -(102 * (self.total_runtime as int)) <= r <= 102 * (self.total_runtime as int),
    {
        let x = x_pos_rect as i128;
        let l = self.rect.left as i128;
        let w = self.rect.width as i128;
        let zn = self.zoom as i128;
        let cn = self.widget_center_norm as i128;
        let t = self.total_runtime as i128;
        proof {
            assert(1 <= w * zn <= 1_000_000_000_000_000 && 0 <= (w * zn) * cn
                <= 1_000_000_000_000_000_000_000) by (nonlinear_arith)
                requires
                    1 <= w <= 1_000_000,
                    1000 <= zn <= 1_000_000_000,
                    0 <= cn <= 1_000_000,
            ;
        }
        let norm_den = 2 * (w * zn);
        let norm_num = 1_000_000_000i128 * (2 * (x - l) - w) + 2 * ((w * zn) * cn);
        proof {
            assert(-(102_000_000 * norm_den) <= norm_num <= 102_000_000 * norm_den)
                by (nonlinear_arith)
                requires
                    1 <= w <= 1_000_000,
                    1000 <= zn <= 1_000_000_000,
                    0 <= cn <= 1_000_000,
                    l - 100 * w <= x <= l + 100 * w,
                    norm_num == 1_000_000_000 * (2 * (x - l) - w) + 2 * ((w * zn) * cn),
                    norm_den == 2 * (w * zn),
            ;
            assert(-((102 * t) * (norm_den * 1_000_000)) <= t * norm_num && t * norm_num <= (102
                * t) * (norm_den * 1_000_000) && t * norm_num <= RDIV_MAX && -RDIV_MAX <= t
                * norm_num && 0 < (102 * t) * (norm_den * 1_000_000)) by (nonlinear_arith)
                requires
                    1 <= t <= 100_000_000_000_000,
                    0 < norm_den <= 2_000_000_000_000_000,
                    -(102_000_000 * norm_den) <= norm_num <= 102_000_000 * norm_den,
            ;
        }
        let num = t * norm_num;
        let den = norm_den * 1_000_000;
        proof {
            assert(num == self.pix_to_pos_num(x_pos_rect as int));
            assert(den == self.pix_to_pos_den());
            lemma_rdiv_bound(num as int, den as int, 102 * (t as int));
        }
        let r = round_div_i128(num, den);
        r as i64
    }

    /// Pixel x of a timeline position, rounded half-up once.
    pub fn duration_to_rect_pos(&self, duration_pos: i64) -> (r: i64)
        requires
            self.wf_spec(),
            self.pos_in_reach(duration_pos as int),
        ensures
            r == self.pos_to_pix(duration_pos as int),
            (self.rect.left as int) - (self.rect.width as int) * (self.zoom as int) <= r
                <= (self.rect.left as int) + (self.rect.width as int) * (self.zoom as int),
            -1_000_100_000_000_000 <= r <= 1_000_100_000_000_000,
    {
        let p = duration_pos as i128;
        let l = self.rect.left as i128;
        let w = self.rect.width as i128;
        let zn = self.zoom as i128;
        let cn = self.widget_center_norm as i128;
        let t = self.total_runtime as i128;
        proof {
            assert(1 <= w * zn <= 1_000_000_000_000_000 && 0 <= cn * t
                <= 100_000_000_000_000_000_000 && -(130_000_000_000_000_000_000_000i128) <= p
                * 1_000_000 - cn * t <= 130_000_000_000_000_000_000_000i128 && -(
            130_000_000_000_000_000_000_000_000_000_000i128) <= zn * (p * 1_000_000 - cn * t)
                <= 130_000_000_000_000_000_000_000_000_000_000i128) by (nonlinear_arith)
                requires
                    1 <= w <= 1_000_000,
                    1000 <= zn <= 1_000_000_000,
                    0 <= cn <= 1_000_000,
                    1 <= t <= 100_000_000_000_000,
                    -(128 * t) <= p <= 128 * t,
            ;
        }
        let inner = 2 * (zn * (p * 1_000_000 - cn * t)) + t * 1_000_000_000;
        let den = 2 * (t * 1_000_000_000i128);
        proof {
            assert(-(259_000_000 * (zn * t)) <= inner <= 259_000_000 * (zn * t))
                by (nonlinear_arith)
                requires
                    1000 <= zn <= 1_000_000_000,
                    0 <= cn <= 1_000_000,
                    1 <= t <= 100_000_000_000_000,
                    -(128 * t) <= p <= 128 * t,
                    inner == 2 * (zn * (p * 1_000_000 - cn * t)) + t * 1_000_000_000,
            ;
            assert(-((w * zn) * den) <= w * inner && w * inner <= (w * zn) * den && w * inner
                <= RDIV_MAX && -RDIV_MAX <= w * inner && 0 < (w * zn) * den) by (nonlinear_arith)
                requires
                    1 <= w <= 1_000_000,
                    1000 <= zn <= 1_000_000_000,
                    1 <= t <= 100_000_000_000_000,
                    -(259_000_000 * (zn * t)) <= inner <= 259_000_000 * (zn * t),
                    den == 2 * (t * 1_000_000_000),
            ;
        }
        let num = w * inner;
        proof {
            assert(num == self.pos_to_pix_num(duration_pos as int));
            assert(den == self.pos_to_pix_den());
            lemma_rdiv_bound(num as int, den as int, (w * zn) as int);
        }
        let r = round_div_i128(num, den);
        self.rect.left + (r as i64)
    }

    /// The handle rectangle of width `width` centered on the pixel of a
    /// timeline position.
    pub fn duration_to_full_rect(&self, duration_pos: i64, width: i64) -> (r: Rect)
        requires
            self.wf_spec(),
            self.pos_in_reach(duration_pos as int),
            0 <= width <= WIDTH_MAX,
        ensures
            r.width == width,
            r.left == self.pos_to_pix(duration_pos as int) - width as int / 2,
    {
        let cx = self.duration_to_rect_pos(duration_pos);
        let half = ((width as u64) / 2) as i64;
        Rect { left: cx - half, width }
    }
}

/// Mapping a pixel to a timeline position and that position back to a pixel
/// returns the starting pixel, for every pixel, whenever one timeline unit
/// spans more than one pixel (that is, while the zoom has not magnified a
/// single timeline unit beyond pixel resolution).
pub proof fn lemma_pixel_position_round_trip(c: ProgressPosConverter, x: int)
    requires
        c.wf_spec(),
        (c.total_runtime as int) * (ZOOM_ONE as int) > (c.rect.width as int) * (c.zoom as int),
    ensures
        c.pos_to_pix(c.pix_to_pos(x)) == x,
{
    let l = c.rect.left as int;
    let w = c.rect.width as int;
    let zn = c.zoom as int;
    let cn = c.widget_center_norm as int;
    let t = c.total_runtime as int;

    let n2 = c.pix_to_pos_num(x);
    let d2 = c.pix_to_pos_den();
    let d1 = c.pos_to_pix_den();

    assert(d2 == (2 * (w * zn)) * 1_000_000);
    assert(d1 == 2 * (t * 1_000_000_000));
    assert(0 < d2 && 0 < d1 && d2 < d1) by (nonlinear_arith)
        requires
            d2 == (2 * (w * zn)) * 1_000_000,
            d1 == 2 * (t * 1_000_000_000),
            1 <= w,
            1000 <= zn,
            1 <= t,
            t * 1000 > w * zn,
    ;

    let p = c.pix_to_pos(x);
    assert(p == (2 * n2 + d2) / (2 * d2));
    lemma_fundamental_div_mod(2 * n2 + d2, 2 * d2);
    lemma_mod_bound(2 * n2 + d2, 2 * d2);
    let r = (2 * n2 + d2) % (2 * d2);
    assert(2 * n2 + d2 == (2 * d2) * p + r);
    assert((2 * d2) * p == 2 * (d2 * p)) by (nonlinear_arith);
    let e = r - d2;
    assert(2 * n2 - 2 * (d2 * p) == e);
    assert(-d2 <= e < d2);

    let n1 = c.pos_to_pix_num(p);
    assert(n1 == d2 * p - 2 * (((w * zn) * cn) * t) + (w * t) * 1_000_000_000)
        by (nonlinear_arith)
        requires
            n1 == w * (2 * (zn * (p * 1_000_000 - cn * t)) + t * 1_000_000_000),
            d2 == (2 * (w * zn)) * 1_000_000,
    ;
    assert(n2 == d1 * (x - l) - (w * t) * 1_000_000_000 + 2 * (((w * zn) * cn) * t))
        by (nonlinear_arith)
        requires
            n2 == t * (1_000_000_000 * (2 * (x - l) - w) + 2 * ((w * zn) * cn)),
            d1 == 2 * (t * 1_000_000_000),
    ;
    assert(2 * n1 == 2 * (d1 * (x - l)) - e);

    assert((x - l) * (2 * d1) == 2 * (d1 * (x - l))) by (nonlinear_arith);
    assert(2 * n1 + d1 == (x - l) * (2 * d1) + (d1 - e));
    assert(0 <= d1 - e < 2 * d1);
    lemma_fundamental_div_mod_converse_div(2 * n1 + d1, 2 * d1, x - l, d1 - e);
    assert(rdiv(n1, d1) == x - l);
    assert(c.pos_to_pix(p) == l + rdiv(n1, d1));
}

} // verus!
