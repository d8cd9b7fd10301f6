//! The control bridge: every change to the equalizer goes through the engine
//! handle first and reaches the local mirror only when the engine accepted it.
//!
//! The bridge does not talk to the engine itself. Each operation takes the
//! engine call as a closure, runs it on the installed handle with the
//! arguments fixed by the operation, and decides from its reply what the
//! mirror holds afterwards.

use vstd::prelude::*;
use crate::bands::BandState;
use crate::bands::BAND_COUNT;
use crate::bands::flat_gains;
use crate::error::BridgeError;
use crate::mapper::DbAxis;
use crate::mapper::clamp;
use crate::registry::HandleSlot;

verus! {

/// Lowest global volume: -60 dB.
pub const MIN_VOLUME_DB: i32 = -6000;

/// Highest global volume: +12 dB.
pub const MAX_VOLUME_DB: i32 = 1200;

/// The gain `db` as the engine takes it: hundredths of a decibel in sixteen
/// bits, limited to what sixteen bits can hold.
pub open spec fn to_native(db: int) -> int {
    clamp(db, i16::MIN as int, i16::MAX as int)
}

/// Converts a gain to the engine's native level.
pub fn native_level(db: i32) -> (level: i16)
    ensures
        level == to_native(db as int),
        i16::MIN <= db <= i16::MAX ==> level == db,
{
    if db < i16::MIN as i32 {
        i16::MIN
    } else if db > i16::MAX as i32 {
        i16::MAX
    } else {
        db as i16
    }
}

/// Number of samples to make room for when the engine announces a frame of
/// `reported` samples. A negative length is a malformed reply.
pub fn frame_capacity(reported: i32) -> (capacity: Result<usize, BridgeError>)
    ensures
        reported >= 0 ==> capacity == Ok::<usize, BridgeError>(reported as usize),
        reported < 0 ==> capacity == Err::<usize, BridgeError>(BridgeError::MarshalFailed),
{
    if reported >= 0 {
        Ok(reported as usize)
    } else {
        Err(BridgeError::MarshalFailed)
    }
}

/// What a bridge holds: the installed handle and the local mirror of the
/// engine's settings.
pub struct BridgeView<H> {
    /// The installed engine handle, if any.
    pub handle: Option<H>,
    /// Gain of each band.
    pub gains: Seq<i32>,
    /// The axis that bounds every gain.
    pub axis: DbAxis,
    /// Global volume.
    pub volume: i32,
    /// Number of bands that the engine reported as controllable when it was
    /// last provisioned; 0 before that.
    pub engine_bands: usize,
}

impl<H> BridgeView<H> {
    /// There is one gain per band, every gain lies on the axis, the axis
    /// includes 0 dB, and the volume lies in its domain.
    pub open spec fn wf(self) -> bool {
        &&& self.gains.len() == BAND_COUNT
        &&& self.axis.wf()
        &&& self.axis.contains(0)
        &&& forall|i: int|
            0 <= i < self.gains.len() ==> self.axis.contains(#[trigger] self.gains[i] as int)
        &&& MIN_VOLUME_DB <= self.volume <= MAX_VOLUME_DB
    }

    /// Whether a gain for band `index` is sent to the engine: the index
    /// names a band, and the engine controls that band.
    pub open spec fn transmits(self, index: usize) -> bool {
        index < BAND_COUNT && index < self.engine_bands
    }

    /// All bands and the volume at 0 dB.
    pub open spec fn flat(self) -> Self {
        BridgeView { gains: flat_gains(), volume: 0, ..self }
    }

    /// The state after the engine answered a provisioning call: a flat
    /// mirror and the engine's band count on success, no change on failure.
    pub open spec fn after_initialize(self, reply: Result<usize, BridgeError>) -> Self {
        match reply {
            Ok(engine_bands) => BridgeView { engine_bands, ..self.flat() },
            Err(_) => self,
        }
    }

    /// The state after a request to set band `index` to `db` ended with
    /// `reply`: the gain is stored when the index names a band and the
    /// request succeeded.
    pub open spec fn after_band_gain(
        self,
        index: usize,
        db: i32,
        reply: Result<(), BridgeError>,
    ) -> Self {
        if index < BAND_COUNT && reply is Ok {
            BridgeView { gains: self.gains.update(index as int, db), ..self }
        } else {
            self
        }
    }

    /// The state after a request to set the volume to `db` ended with
    /// `reply`.
    pub open spec fn after_volume(self, db: i32, reply: Result<(), BridgeError>) -> Self {
        if reply is Ok {
            BridgeView { volume: db, ..self }
        } else {
            self
        }
    }

    /// The state after a reset request ended with `reply`.
    pub open spec fn after_reset(self, reply: Result<(), BridgeError>) -> Self {
        if reply is Ok {
            self.flat()
        } else {
            self
        }
    }
}

/// Provisioning is idempotent: provisioning again with the same reply
/// leaves the state as the first provisioning left it, and what that state is
/// does not depend on the gains and the volume held before.
pub proof fn lemma_initialize_idempotent<H>(
    state: BridgeView<H>,
    other: BridgeView<H>,
    reply: Result<usize, BridgeError>,
)
    requires
        reply is Ok,
        other == (BridgeView { gains: other.gains, volume: other.volume, ..state }),
    ensures
        state.after_initialize(reply).after_initialize(reply) == state.after_initialize(reply),
        other.after_initialize(reply) == state.after_initialize(reply),
        state.after_initialize(reply).gains == flat_gains(),
        state.after_initialize(reply).volume == 0,
{
}

/// A reset that the engine accepted leaves every band and the volume at
/// 0 dB, whatever they were before, and a well-formed mirror well formed.
pub proof fn lemma_reset_is_flat<H>(state: BridgeView<H>, reply: Result<(), BridgeError>)
    requires
        reply is Ok,
    ensures
        state.after_reset(reply).gains == flat_gains(),
        forall|i: int| 0 <= i < BAND_COUNT ==> #[trigger] state.after_reset(reply).gains[i] == 0,
        state.after_reset(reply).volume == 0,
        state.wf() ==> state.after_reset(reply).wf(),
{
}

/// A gain for an index that names no band changes nothing, whatever the
/// engine would have replied.
pub proof fn lemma_stale_index_ignored<H>(
    state: BridgeView<H>,
    index: usize,
    db: i32,
    reply: Result<(), BridgeError>,
)
    requires
        index >= BAND_COUNT,
    ensures
        state.after_band_gain(index, db, reply) == state,
        !state.transmits(index),
{
}

/// The engine handle together with the local mirror of the engine's
/// settings: the band gains and the global volume.
pub struct Bridge<H> {
    slot: HandleSlot<H>,
    bands: BandState,
    volume: i32,
    engine_bands: usize,
}

impl<H> View for Bridge<H> {
    type V = BridgeView<H>;

    closed spec fn view(&self) -> BridgeView<H> {
        BridgeView {
            handle: self.slot@,
            gains: self.bands@,
            axis: self.bands.domain(),
            volume: self.volume,
            engine_bands: self.engine_bands,
        }
    }
}

impl<H> Bridge<H> {
    /// The mirror is well formed.
    pub open spec fn wf(&self) -> bool {
        self@.wf()
    }

    /// A bridge without a handle, with a flat mirror on `axis`.
    pub fn new(axis: DbAxis) -> (bridge: Self)
        requires
            axis.wf(),
            axis.contains(0),
        ensures
            bridge.wf(),
            bridge@ == (BridgeView::<H> {
                handle: None,
                gains: flat_gains(),
                axis,
                volume: 0,
                engine_bands: 0,
            }),
    {
        Bridge { slot: HandleSlot::new(), bands: BandState::new(axis), volume: 0, engine_bands: 0 }
    }

    /// Installs the engine handle, replacing any handle installed before.
    /// The mirror is untouched.
    pub fn install(&mut self, handle: H)
        ensures
            final(self)@ == (BridgeView { handle: Some(handle), ..old(self)@ }),
    {
        self.slot.install(handle);
    }

    /// Whether an engine handle has been installed.
    pub fn is_installed(&self) -> (present: bool)
        ensures
            present == (self@.handle is Some),
    {
        self.slot.is_installed()
    }

    /// A copy of the band gains.
    pub fn bands(&self) -> (gains: Vec<i32>)
        ensures
            gains@ == self@.gains,
    {
        self.bands.gains()
    }

    /// The gain of band `index`, or nothing for an index that names no band.
    pub fn band_gain(&self, index: usize) -> (gain: Option<i32>)
        requires
            self.wf(),
        ensures
            index < BAND_COUNT ==> gain == Some(self@.gains[index as int]),
            index >= BAND_COUNT ==> gain is None,
    {
        self.bands.get(index)
    }

    /// The global volume.
    pub fn volume(&self) -> (volume: i32)
        ensures
            volume == self@.volume,
    {
        self.volume
    }

    /// The axis that bounds every gain.
    pub fn axis(&self) -> (axis: DbAxis)
        ensures
            axis == self@.axis,
    {
        self.bands.axis()
    }

    /// Number of bands that the engine controls, as of the last successful
    /// `initialize`.
    pub fn engine_bands(&self) -> (count: usize)
        ensures
            count == self@.engine_bands,
    {
        self.engine_bands
    }

    /// Chart position of each band's marker, in band order.
    pub fn marker_positions(&self) -> (rows: Vec<i32>)
        requires
            self.wf(),
        ensures
            rows@.len() == BAND_COUNT,
            forall|i: int|
                0 <= i < BAND_COUNT ==> #[trigger] rows@[i] == self@.axis.y_of(
                    self@.gains[i] as int,
                ),
    {
        self.bands.marker_positions()
    }

    /// Provisions the engine: runs `provision` on the handle, which creates
    /// the engine's equalizer and analyzer afresh and reports how many bands
    /// the engine controls. On success the mirror is flat, as the engine is,
    /// and the band count is recorded. Without a handle, or when the engine
    /// fails, nothing changes. May be called any number of times.
    pub fn initialize<F>(&mut self, provision: F) -> (result: Result<usize, BridgeError>) where
        F: FnOnce(&H) -> Result<usize, BridgeError>,

        requires
            old(self).wf(),
            old(self)@.handle matches Some(h) ==> provision.requires((&h,)),
        ensures
            final(self).wf(),
            final(self)@ == old(self)@.after_initialize(result),
            match old(self)@.handle {
                Some(h) => provision.ensures((&h,), result),
                None => result == Err::<usize, BridgeError>(BridgeError::HandleAbsent),
            },
            old(self)@.handle is None ==> final(self)@ == old(self)@,
    {
        let reply = self.slot.with_handle(provision);
        if let Ok(engine_bands) = reply {
            self.bands.reset();
            self.volume = 0;
            self.engine_bands = engine_bands;
        }
        reply
    }

    /// Sets the gain of band `index` to `db`.
    ///
    /// Without a handle the result is `HandleAbsent`. An index that names no
    /// band is a stale reference: it is ignored without an error. A gain for
    /// a band that the engine does not control is stored without being sent.
    /// Otherwise `send` is run on the handle with the index and the gain in
    /// the engine's native unit, and the gain is stored if the engine
    /// accepted it.
    pub fn set_band_gain<F>(&mut self, index: usize, db: i32, send: F) -> (result: Result<
        (),
        BridgeError,
    >) where F: FnOnce(&H, usize, i16) -> Result<(), BridgeError>
        requires
            old(self).wf(),
            old(self)@.axis.contains(db as int),
            old(self)@.handle matches Some(h) ==> (old(self)@.transmits(index) ==> send.requires(
                (&h, index, to_native(db as int) as i16),
            )),
        ensures
            final(self).wf(),
            final(self)@ == old(self)@.after_band_gain(index, db, result),
            match old(self)@.handle {
                Some(h) => if old(self)@.transmits(index) {
                    send.ensures((&h, index, to_native(db as int) as i16), result)
                } else {
                    result == Ok::<(), BridgeError>(())
                },
                None => result == Err::<(), BridgeError>(BridgeError::HandleAbsent),
            },
            index >= BAND_COUNT ==> final(self)@ == old(self)@,
            old(self)@.handle is None ==> final(self)@ == old(self)@,
    {
        if !self.slot.is_installed() {
            return Err(BridgeError::HandleAbsent);
        }
        if index >= BAND_COUNT {
            return Ok(());
        }
        let reply = if index < self.engine_bands {
            let level = native_level(db);
            let forward = |h: &H| -> (o: Result<(), BridgeError>)
                requires
                    send.requires((h, index, level)),
                ensures
                    send.ensures((h, index, level), o)
            {
                send(h, index, level)
            };
            self.slot.with_handle(forward)
        } else {
            Ok(())
        };
        if reply.is_ok() {
            self.bands.set(index, db);
        }
        reply
    }

    /// Sets the global volume to `db`. `send` is run on the handle with `db`
    /// as it is, and the volume is stored if the engine accepted it. Without
    /// a handle the result is `HandleAbsent` and nothing changes.
    pub fn set_global_volume<F>(&mut self, db: i32, send: F) -> (result: Result<
        (),
        BridgeError,
    >) where F: FnOnce(&H, i32) -> Result<(), BridgeError>
        requires
            old(self).wf(),
            MIN_VOLUME_DB <= db <= MAX_VOLUME_DB,
            old(self)@.handle matches Some(h) ==> send.requires((&h, db)),
        ensures
            final(self).wf(),
            final(self)@ == old(self)@.after_volume(db, result),
            match old(self)@.handle {
                Some(h) => send.ensures((&h, db), result),
                None => result == Err::<(), BridgeError>(BridgeError::HandleAbsent),
            },
            old(self)@.handle is None ==> final(self)@ == old(self)@,
    {
        let forward = |h: &H| -> (o: Result<(), BridgeError>)
            requires
                send.requires((h, db)),
            ensures
                send.ensures((h, db), o)
        {
            send(h, db)
        };
        let reply = self.slot.with_handle(forward);
        if reply.is_ok() {
            self.volume = db;
        }
        reply
    }

    /// Returns every band and the volume to 0 dB, in the engine and in the
    /// mirror. `send` is run on the handle; the mirror becomes flat in one
    /// step if the engine accepted the reset and is left as it was
    /// otherwise.
    pub fn reset_to_flat<F>(&mut self, send: F) -> (result: Result<(), BridgeError>) where
        F: FnOnce(&H) -> Result<(), BridgeError>,

        requires
            old(self).wf(),
            old(self)@.handle matches Some(h) ==> send.requires((&h,)),
        ensures
            final(self).wf(),
            final(self)@ == old(self)@.after_reset(result),
            match old(self)@.handle {
                Some(h) => send.ensures((&h,), result),
                None => result == Err::<(), BridgeError>(BridgeError::HandleAbsent),
            },
            result is Ok ==> final(self)@.gains == flat_gains() && final(self)@.volume == 0,
            old(self)@.handle is None ==> final(self)@ == old(self)@,
    {
        let reply = self.slot.with_handle(send);
        if reply.is_ok() {
            self.bands.reset();
            self.volume = 0;
        }
        reply
    }

    /// Asks the engine for its most recent spectral frame. `fetch` is run on
    /// the handle and its reply is returned as it is: an empty frame means
    /// that the engine has no data yet and is no error. The mirror is not
    /// involved.
    pub fn get_fft_data<S, F>(&self, fetch: F) -> (result: Result<Vec<S>, BridgeError>) where
        F: FnOnce(&H) -> Result<Vec<S>, BridgeError>,

        requires
            self@.handle matches Some(h) ==> fetch.requires((&h,)),
        ensures
            match self@.handle {
                Some(h) => fetch.ensures((&h,), result),
                None => result == Err::<Vec<S>, BridgeError>(BridgeError::HandleAbsent),
            },
    {
        self.slot.with_handle(fetch)
    }
}

} // verus!
