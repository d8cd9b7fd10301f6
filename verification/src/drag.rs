//! The drag gesture that edits one band marker at a time.

use vstd::prelude::*;
use crate::mapper::DbAxis;
use crate::mapper::y_to_db;

verus! {

/// The band that is being dragged, if any. There is never more than one.
pub struct DragSession {
    target: Option<usize>,
}

impl View for DragSession {
    type V = Option<usize>;

    /// Index of the band being dragged.
    closed spec fn view(&self) -> Option<usize> {
        self.target
    }
}

impl DragSession {
    /// A session with no band being dragged.
    pub fn new() -> (session: Self)
        ensures
            session@ is None,
    {
        DragSession { target: None }
    }

    /// Index of the band being dragged.
    pub fn target(&self) -> (target: Option<usize>)
        ensures
            target == self@,
    {
        self.target
    }

    /// The pointer went down on the marker of band `index`: that band is
    /// now the one being dragged.
    pub fn drag_start(&mut self, index: usize)
        ensures
            final(self)@ == Some(index),
    {
        self.target = Some(index);
    }

    /// The pointer moved to chart position `y`. While a band is being
    /// dragged, the result is that band and the decibel value at `y`: the
    /// gain change to report, one for every move. With no band being dragged
    /// there is nothing to report.
    pub fn drag_move(&self, axis: DbAxis, y: i32) -> (change: Option<(usize, i32)>)
        requires
            axis.wf(),
        ensures
            match self@ {
                Some(index) => change == Some((index, axis.db_at(y as int) as i32)),
                None => change is None,
            },
            change matches Some((_, db)) ==> axis.contains(db as int),
    {
        match self.target {
            Some(index) => Some((index, y_to_db(axis, y))),
            None => None,
        }
    }

    /// The pointer went up, anywhere: no band is being dragged any more.
    pub fn drag_end(&mut self)
        ensures
            final(self)@ is None,
    {
        self.target = None;
    }
}

} // verus!
