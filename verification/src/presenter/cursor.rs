//! The cursor: which split is under attention.
use vstd::prelude::*;

verus! {

/// A direction of cursor motion.
#[derive(Copy, Clone, Debug, PartialEq, Eq, Structural)]
pub enum Motion {
    /// Towards the first split.
    Up,
    /// Towards the last split.
    Down,
}

/// Where a split lies with respect to the cursor.
#[derive(Copy, Clone, Debug, PartialEq, Eq, Structural, Hash)]
pub enum SplitPosition {
    /// The split is before the cursor.
    Done,
    /// The split is under the cursor.
    Cursor,
    /// The split is after the cursor.
    Coming,
}

/// What a cursor holds.
pub struct CursorView {
    /// The index of the split under the cursor.
    pub pos: nat,
    /// The largest index the cursor can take.
    pub max: nat,
}

impl CursorView {
    /// Where a motion of `step` splits leads. The cursor stops at the first
    /// split and at the last.
    pub open spec fn moved(self, motion: Motion, step: nat) -> CursorView {
        match motion {
            Motion::Up => CursorView {
                pos: if step <= self.pos {
                    (self.pos - step) as nat
                } else {
                    0
                },
                ..self
            },
            Motion::Down => CursorView {
                pos: if self.pos + step <= self.max {
                    self.pos + step
                } else {
                    self.max
                },
                ..self
            },
        }
    }

    /// Where the split at `split` lies with respect to the cursor.
    pub open spec fn split_position(self, split: nat) -> SplitPosition {
        if split < self.pos {
            SplitPosition::Done
        } else if split == self.pos {
            SplitPosition::Cursor
        } else {
            SplitPosition::Coming
        }
    }

    /// How far a motion of `step` splits gets: `step`, or less where the
    /// cursor stops early.
    pub open spec fn distance(self, motion: Motion, step: nat) -> nat {
        match motion {
            Motion::Up => (self.pos - self.moved(motion, step).pos) as nat,
            Motion::Down => (self.moved(motion, step).pos - self.pos) as nat,
        }
    }
}

/// A cursor over the splits of a run.
#[derive(Copy, Clone, Debug)]
pub struct Cursor {
    /// The index of the split under the cursor.
    pos: usize,
    /// The largest index the cursor can take.
    max: usize,
}

impl View for Cursor {
    type V = CursorView;

    closed spec fn view(&self) -> CursorView {
        CursorView { pos: self.pos as nat, max: self.max as nat }
    }
}

impl Cursor {
    /// Whether the cursor is within its range.
    #[verifier::type_invariant]
    pub open spec fn wf(&self) -> bool {
        self@.pos <= self@.max
    }

    /// A cursor on the first of `max + 1` splits.
    pub fn new(max: usize) -> (c: Cursor)
        ensures
            c@ == (CursorView { pos: 0, max: max as nat }),
    {
        Cursor { pos: 0, max }
    }

    /// The index of the split under the cursor.
    pub fn position(&self) -> (p: usize)
        ensures
            p == self@.pos,
            p <= self@.max,
    {
        proof {
            use_type_invariant(self);
        }
        self.pos
    }

    /// The largest index the cursor can take.
    pub fn max(&self) -> (m: usize)
        ensures
            m == self@.max,
    {
        self.max
    }

    /// Where the split at `split` lies with respect to the cursor.
    pub fn split_position(&self, split: usize) -> (p: SplitPosition)
        ensures
            p == self@.split_position(split as nat),
    {
        if split < self.pos {
            SplitPosition::Done
        } else if split == self.pos {
            SplitPosition::Cursor
        } else {
            SplitPosition::Coming
        }
    }

    /// Moves the cursor by up to `step` splits, and returns how far it got.
    pub fn move_by(&mut self, motion: Motion, step: usize) -> (moved: usize)
        ensures
            final(self)@ == old(self)@.moved(motion, step as nat),
            moved == old(self)@.distance(motion, step as nat),
            moved <= step,
    {
        proof {
            use_type_invariant(&*self);
        }
        let from: usize = self.pos;
        match motion {
            Motion::Up => {
                let to: usize = if step <= from { from - step } else { 0 };
                self.pos = to;
                from - to
            },
            Motion::Down => {
                let room: usize = self.max - from;
                let to: usize = if step <= room { from + step } else { self.max };
                self.pos = to;
                to - from
            },
        }
    }
}

} // verus!
