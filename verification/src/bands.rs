//! The per-band gains of the equalizer.

use vstd::prelude::*;
use crate::mapper::DbAxis;
use crate::mapper::db_to_y;

verus! {

/// Number of equalizer bands.
pub const BAND_COUNT: usize = 8;

/// Lower end of the gain axis that the chart shows by default: -24 dB.
pub const DEFAULT_MIN_DB: i32 = -2400;

/// Upper end of the gain axis that the chart shows by default: +24 dB.
pub const DEFAULT_MAX_DB: i32 = 2400;

/// Center frequency of each band, in hertz.
pub open spec fn band_centers() -> Seq<u32> {
    seq![60u32, 120u32, 250u32, 1000u32, 4000u32, 8000u32, 12000u32, 16000u32]
}

/// The gains of a flat response: every band at 0 dB.
pub open spec fn flat_gains() -> Seq<i32> {
    Seq::new(BAND_COUNT as nat, |i: int| 0i32)
}

/// Center frequency of band `index` in hertz, or nothing for an index that
/// names no band.
pub fn band_center_hz(index: usize) -> (center: Option<u32>)
    ensures
        index < BAND_COUNT ==> center == Some(band_centers()[index as int]),
        index >= BAND_COUNT ==> center is None,
{
    match index {
        0 => Some(60),
        1 => Some(120),
        2 => Some(250),
        3 => Some(1000),
        4 => Some(4000),
        5 => Some(8000),
        6 => Some(12000),
        7 => Some(16000),
        _ => None,
    }
}

/// The gain axis `[-24 dB, +24 dB]`.
pub fn default_axis() -> (axis: DbAxis)
    ensures
        axis == (DbAxis { min_db: DEFAULT_MIN_DB, max_db: DEFAULT_MAX_DB }),
        axis.wf(),
        axis.contains(0),
{
    DbAxis { min_db: DEFAULT_MIN_DB, max_db: DEFAULT_MAX_DB }
}

/// One gain per band, in hundredths of a decibel, each within the axis that
/// the state was created for.
pub struct BandState {
    gains: Vec<i32>,
    axis: DbAxis,
}

impl View for BandState {
    type V = Seq<i32>;

    /// The gains in band order.
    closed spec fn view(&self) -> Seq<i32> {
        self.gains@
    }
}

impl BandState {
    /// The axis that bounds every gain.
    pub closed spec fn domain(&self) -> DbAxis {
        self.axis
    }

    /// There is one gain per band, the axis is well formed and includes
    /// 0 dB, and every gain lies on the axis.
    pub open spec fn wf(&self) -> bool {
        &&& self@.len() == BAND_COUNT
        &&& self.domain().wf()
        &&& self.domain().contains(0)
        &&& forall|i: int| 0 <= i < self@.len() ==> self.domain().contains(#[trigger] self@[i] as int)
    }

    /// A flat response on `axis`.
    pub fn new(axis: DbAxis) -> (state: Self)
        requires
            axis.wf(),
            axis.contains(0),
        ensures
            state.wf(),
            state.domain() == axis,
            state@ == flat_gains(),
    {
        let gains: Vec<i32> = vec![0i32; BAND_COUNT];
        assert(gains@ =~= flat_gains());
        BandState { gains, axis }
    }

    /// The axis that bounds every gain.
    pub fn axis(&self) -> (axis: DbAxis)
        ensures
            axis == self.domain(),
    {
        self.axis
    }

    /// The gain of band `index`, or nothing for an index that names no band.
    pub fn get(&self, index: usize) -> (gain: Option<i32>)
        requires
            self.wf(),
        ensures
            index < BAND_COUNT ==> gain == Some(self@[index as int]),
            index >= BAND_COUNT ==> gain is None,
    {
        if index < BAND_COUNT {
            Some(self.gains[index])
        } else {
            None
        }
    }

    /// A copy of the gains in band order.
    pub fn gains(&self) -> (copy: Vec<i32>)
        ensures
            copy@ == self@,
    {
        let copy = self.gains.clone();
        assert(copy@ =~= self.gains@);
        copy
    }

    /// Sets the gain of band `index` to `db`. An index that names no band is
    /// ignored: nothing changes and the result is `false`.
    pub fn set(&mut self, index: usize, db: i32) -> (stored: bool)
        requires
            old(self).wf(),
            old(self).domain().contains(db as int),
        ensures
            final(self).wf(),
            final(self).domain() == old(self).domain(),
            stored == (index < BAND_COUNT),
            stored ==> final(self)@ == old(self)@.update(index as int, db),
            !stored ==> final(self)@ == old(self)@,
    {
        if index < BAND_COUNT {
            self.gains.set(index, db);
            true
        } else {
            false
        }
    }

    /// Returns every band to 0 dB.
    pub fn reset(&mut self)
        requires
            old(self).wf(),
        ensures
            final(self).wf(),
            final(self).domain() == old(self).domain(),
            final(self)@ == flat_gains(),
    {
        let mut i: usize = 0;
        while i < BAND_COUNT
            invariant
                i <= BAND_COUNT,
                self.wf(),
                self.domain() == old(self).domain(),
                forall|j: int| 0 <= j < i ==> self@[j] == 0,
            decreases BAND_COUNT - i,
        {
            self.gains.set(i, 0);
            i = i + 1;
        }
        assert(self@ =~= flat_gains());
    }

    /// Chart position of each band's marker, in band order.
    pub fn marker_positions(&self) -> (rows: Vec<i32>)
        requires
            self.wf(),
        ensures
            rows@.len() == BAND_COUNT,
            forall|i: int|
                0 <= i < BAND_COUNT ==> #[trigger] rows@[i] == self.domain().y_of(
                    self@[i] as int,
                ),
    {
        let mut rows: Vec<i32> = Vec::new();
        let mut i: usize = 0;
        while i < BAND_COUNT
            invariant
                i <= BAND_COUNT,
                self.wf(),
                rows@.len() == i,
                forall|j: int|
                    0 <= j < i ==> #[trigger] rows@[j] == self.domain().y_of(self@[j] as int),
            decreases BAND_COUNT - i,
        {
            rows.push(db_to_y(self.axis, self.gains[i]));
            i = i + 1;
        }
        rows
    }
}

} // verus!
