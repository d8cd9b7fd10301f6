//! Chart geometry: the linear mapping between decibel values and vertical
//! chart positions.
//!
//! All quantities are fixed-point integers. Decibel values are counted in
//! hundredths of a decibel, so `600` is +6 dB. Chart positions are counted in
//! thousandths of a pixel, so `100_000` is the pixel row 100. The chart is
//! 200 pixels tall and its top row shows the loudest value of the axis.

use vstd::prelude::*;
use vstd::arithmetic::div_mod::lemma_fundamental_div_mod_converse;
use vstd::arithmetic::div_mod::lemma_div_is_ordered;
use vstd::arithmetic::div_mod::lemma_fundamental_div_mod;
use vstd::arithmetic::div_mod::lemma_mod_bound;

verus! {

/// Number of position units in one pixel.
pub const UNITS_PER_PIXEL: i32 = 1000;

/// Height of the chart in position units (200 pixels).
pub const CHART_HEIGHT: i32 = 200_000;

/// `v` limited to the interval `[lo, hi]`.
pub open spec fn clamp(v: int, lo: int, hi: int) -> int {
    if v < lo {
        lo
    } else if v > hi {
        hi
    } else {
        v
    }
}

/// The integer nearest to the fraction `n / d`; a fraction exactly halfway
/// between two integers goes to the larger one.
pub open spec fn nearest_quotient(n: int, d: int) -> int {
    (2 * n + d) / (2 * d)
}

/// The decibel interval that a chart axis displays, in hundredths of a decibel.
#[derive(Clone, Copy, Debug, PartialEq, Eq, Structural)]
pub struct DbAxis {
    pub min_db: i32,
    pub max_db: i32,
}

impl DbAxis {
    /// An axis is well formed when it spans at least one unit.
    pub open spec fn wf(self) -> bool {
        self.min_db < self.max_db
    }

    /// Width of the displayed interval.
    pub open spec fn span(self) -> int {
        self.max_db - self.min_db
    }

    /// Whether `db` lies on the axis.
    pub open spec fn contains(self, db: int) -> bool {
        self.min_db <= db <= self.max_db
    }

    /// The value on the axis closest to `db`.
    pub open spec fn limit(self, db: int) -> int {
        clamp(db, self.min_db as int, self.max_db as int)
    }

    /// Chart position of `db`: the fraction of the axis below `db`, laid out
    /// upwards from the bottom edge, rounded to the nearest position unit.
    pub open spec fn y_of(self, db: int) -> int {
        CHART_HEIGHT - nearest_quotient(
            (self.limit(db) - self.min_db) * CHART_HEIGHT,
            self.span(),
        )
    }

    /// Decibel value shown at chart position `y`: the fraction of the chart
    /// below `y`, laid out upwards from the lower end of the axis, rounded to
    /// the nearest hundredth of a decibel.
    pub open spec fn db_at(self, y: int) -> int {
        self.min_db + nearest_quotient(
            (CHART_HEIGHT - clamp(y, 0, CHART_HEIGHT as int)) * self.span(),
            CHART_HEIGHT as int,
        )
    }

    /// Builds the axis `[min_db, max_db]`, or nothing when the interval is
    /// empty or a single point.
    pub fn new(min_db: i32, max_db: i32) -> (axis: Option<DbAxis>)
        ensures
            axis == (if min_db < max_db {
                Some(DbAxis { min_db, max_db })
            } else {
                None
            }),
    {
        if min_db < max_db {
            Some(DbAxis { min_db, max_db })
        } else {
            None
        }
    }

    /// Whether `db` lies on the axis.
    pub fn holds(&self, db: i32) -> (inside: bool)
        ensures
            inside == self.contains(db as int),
    {
        self.min_db <= db && db <= self.max_db
    }
}

/// A whole part of `whole` scaled by `part / whole` of it stays within
/// `whole` after rounding, and the two ends map to the two ends.
pub proof fn lemma_nearest_quotient_bounds(part: int, whole: int, scale: int)
    requires
        0 <= part <= whole,
        0 < whole,
        0 <= scale,
    ensures
        0 <= nearest_quotient(part * scale, whole) <= scale,
        part == 0 ==> nearest_quotient(part * scale, whole) == 0,
        part == whole ==> nearest_quotient(part * scale, whole) == scale,
{
    let d = 2 * whole;
    assert(0 <= part * scale <= whole * scale) by (nonlinear_arith)
        requires
            0 <= part <= whole,
            0 <= scale,
    ;
    assert(2 * (whole * scale) + whole == scale * d + whole) by (nonlinear_arith)
        requires
            d == 2 * whole,
    ;
    lemma_fundamental_div_mod_converse(2 * (whole * scale) + whole, d, scale, whole);
    lemma_fundamental_div_mod_converse(whole, d, 0, whole);
    lemma_div_is_ordered(whole, 2 * (part * scale) + whole, d);
    lemma_div_is_ordered(2 * (part * scale) + whole, 2 * (whole * scale) + whole, d);
    if part == 0 {
        assert(part * scale == 0) by (nonlinear_arith)
            requires
                part == 0,
        ;
    }
    if part == whole {
        assert(part * scale == whole * scale);
    }
}

/// Rounding to the nearest integer is off by at most one half:
/// `|2 * d * q - 2 * n| <= d` for `q = nearest_quotient(n, d)`.
pub proof fn lemma_nearest_quotient_error(n: int, d: int)
    requires
        0 < d,
    ensures
        2 * n - d < 2 * (d * nearest_quotient(n, d)) <= 2 * n + d,
{
    let q = nearest_quotient(n, d);
    lemma_fundamental_div_mod(2 * n + d, 2 * d);
    lemma_mod_bound(2 * n + d, 2 * d);
    assert((2 * d) * q == 2 * (d * q)) by (nonlinear_arith);
}

/// Reading back the decibel value at the position of `db` gives `db`, limited
/// to the axis, up to the resolution of the chart: the two differ by at most
/// half a unit plus half of what one position unit covers on the axis, that
/// is by at most `1/2 + span / (2 * CHART_HEIGHT)`.
pub proof fn lemma_round_trip_within_tolerance(axis: DbAxis, db: int)
    requires
        axis.wf(),
    ensures
        axis.contains(axis.db_at(axis.y_of(db))),
        2 * CHART_HEIGHT * (axis.db_at(axis.y_of(db)) - axis.limit(db)) <= axis.span()
            + CHART_HEIGHT,
        2 * CHART_HEIGHT * (axis.limit(db) - axis.db_at(axis.y_of(db))) < axis.span()
            + CHART_HEIGHT,
{
    let h = CHART_HEIGHT as int;
    let r = axis.span();
    let c = axis.limit(db) - axis.min_db;
    let p = nearest_quotient(c * h, r);
    lemma_nearest_quotient_bounds(c, r, h);
    assert(axis.y_of(db) == h - p);
    let back = nearest_quotient(p * r, h);
    assert(axis.db_at(axis.y_of(db)) == axis.min_db + back);
    lemma_nearest_quotient_bounds(p, h, r);
    lemma_nearest_quotient_error(c * h, r);
    lemma_nearest_quotient_error(p * r, h);
    assert(r * p == p * r) by (nonlinear_arith);
}

/// Round-trip law. On an axis no wider than the chart is tall in position
/// units, the decibel value read back at the position of `db` is exactly
/// `db`; for `db` beyond the axis it is the nearest end of the axis.
pub proof fn lemma_round_trip(axis: DbAxis, db: int)
    requires
        axis.wf(),
        axis.span() <= CHART_HEIGHT,
    ensures
        axis.db_at(axis.y_of(db)) == axis.limit(db),
        axis.contains(db) ==> axis.db_at(axis.y_of(db)) == db,
        db < axis.min_db ==> axis.db_at(axis.y_of(db)) == axis.min_db,
        db > axis.max_db ==> axis.db_at(axis.y_of(db)) == axis.max_db,
{
    let h = CHART_HEIGHT as int;
    let r = axis.span();
    let c = axis.limit(db) - axis.min_db;
    if r < h {
        lemma_round_trip_within_tolerance(axis, db);
        let diff = axis.db_at(axis.y_of(db)) - axis.limit(db);
        assert(diff == 0) by (nonlinear_arith)
            requires
                2 * h * diff <= r + h,
                2 * h * (-diff) < r + h,
                0 < r < h,
        ;
    } else {
        assert(r == h);
        assert(c * r == c * h);
        assert(2 * (c * h) + r == c * (2 * r) + r) by (nonlinear_arith)
            requires
                r == h,
        ;
        lemma_fundamental_div_mod_converse(2 * (c * h) + r, 2 * r, c, r);
        assert(nearest_quotient(c * h, r) == c);
        assert(axis.y_of(db) == h - c);
        assert(2 * (c * r) + h == c * (2 * h) + h) by (nonlinear_arith)
            requires
                r == h,
        ;
        lemma_fundamental_div_mod_converse(2 * (c * r) + h, 2 * h, c, h);
        assert(nearest_quotient(c * r, h) == c);
    }
}

/// Louder values are never drawn lower: the chart position does not grow
/// with the decibel value.
pub proof fn lemma_y_of_monotonic(axis: DbAxis, lower: int, higher: int)
    requires
        axis.wf(),
        lower <= higher,
    ensures
        axis.y_of(higher) <= axis.y_of(lower),
{
    let h = CHART_HEIGHT as int;
    let r = axis.span();
    let c1 = axis.limit(lower) - axis.min_db;
    let c2 = axis.limit(higher) - axis.min_db;
    assert(c1 <= c2);
    lemma_div_is_ordered(2 * (c1 * h) + r, 2 * (c2 * h) + r, 2 * r);
}

/// Positions further down the chart never read as louder values.
pub proof fn lemma_db_at_monotonic(axis: DbAxis, upper: int, lower: int)
    requires
        axis.wf(),
        upper <= lower,
    ensures
        axis.db_at(lower) <= axis.db_at(upper),
{
    let h = CHART_HEIGHT as int;
    let r = axis.span();
    let p1 = h - clamp(lower, 0, h);
    let p2 = h - clamp(upper, 0, h);
    assert(p1 <= p2);
    assert(p1 * r <= p2 * r) by (nonlinear_arith)
        requires
            p1 <= p2,
            0 < r,
    ;
    lemma_div_is_ordered(2 * (p1 * r) + h, 2 * (p2 * r) + h, 2 * h);
}

/// `nearest_quotient(part * scale, whole)`, computed without overflow.
fn scale_nearest(part: u64, scale: u64, whole: u64) -> (r: u64)
    requires
        part <= whole,
        0 < whole <= 0xFFFF_FFFF,
        scale <= 0xFFFF_FFFF,
    ensures
        r == nearest_quotient(part * scale, whole as int),
        r <= scale,
{
    proof {
        lemma_nearest_quotient_bounds(part as int, whole as int, scale as int);
        assert(0 <= part * scale <= 0xFFFF_FFFF * 0xFFFF_FFFF) by (nonlinear_arith)
            requires
                0 <= part <= 0xFFFF_FFFF,
                0 <= scale <= 0xFFFF_FFFF,
        ;
    }
    let product: u128 = (part as u128) * (scale as u128);
    let doubled: u128 = 2 * product + (whole as u128);
    (doubled / (2 * (whole as u128))) as u64
}

/// Maps a decibel value to its chart position. Values beyond the axis are
/// drawn at the nearest edge.
pub fn db_to_y(axis: DbAxis, db: i32) -> (y: i32)
    requires
        axis.wf(),
    ensures
        y == axis.y_of(db as int),
        0 <= y <= CHART_HEIGHT,
        db <= axis.min_db ==> y == CHART_HEIGHT,
        db >= axis.max_db ==> y == 0,
{
    let limited: i32 = if db < axis.min_db {
        axis.min_db
    } else if db > axis.max_db {
        axis.max_db
    } else {
        db
    };
    let part: u64 = (limited as i64 - axis.min_db as i64) as u64;
    let whole: u64 = (axis.max_db as i64 - axis.min_db as i64) as u64;
    proof {
        lemma_nearest_quotient_bounds(part as int, whole as int, CHART_HEIGHT as int);
    }
    let rise: u64 = scale_nearest(part, CHART_HEIGHT as u64, whole);
    CHART_HEIGHT - (rise as i32)
}

/// Maps a chart position back to the decibel value shown there. Positions
/// outside the chart are read as the nearest edge, so the result always lies
/// on the axis.
pub fn y_to_db(axis: DbAxis, y: i32) -> (db: i32)
    requires
        axis.wf(),
    ensures
        db == axis.db_at(y as int),
        axis.contains(db as int),
        y <= 0 ==> db == axis.max_db,
        y >= CHART_HEIGHT ==> db == axis.min_db,
{
    let limited: i32 = if y < 0 {
        0
    } else if y > CHART_HEIGHT {
        CHART_HEIGHT
    } else {
        y
    };
    let part: u64 = (CHART_HEIGHT - limited) as u64;
    let span: u64 = (axis.max_db as i64 - axis.min_db as i64) as u64;
    proof {
        lemma_nearest_quotient_bounds(part as int, CHART_HEIGHT as int, span as int);
    }
    let rise: u64 = scale_nearest(part, span, CHART_HEIGHT as u64);
    ((axis.min_db as i64) + (rise as i64)) as i32
}

} // verus!
