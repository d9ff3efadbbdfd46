use vstd::prelude::*;

verus! {

/// The model behind one live terminal progress indicator: a current position
/// and a target length, both monotone over the lifetime of one stream. The
/// position may overshoot the target (a unit's last sector can run past its
/// allocated size); only the displayed percentage is capped. The renderer
/// that draws the bar owns exactly one cursor at a time; this type carries
/// no drawing state, only the numbers the bar shows.
#[derive(Clone, Copy, Debug, PartialEq, Eq, Structural)]
pub struct ProgressCursor {
    pub position: u64,
    pub target: u64,
    pub finished: bool,
}

impl ProgressCursor {
    /// A fresh, unfinished cursor showing exactly `position` of `target`.
    pub fn new(position: u64, target: u64) -> (r: ProgressCursor)
        ensures
            r == (ProgressCursor { position, target, finished: false }),
    {
        ProgressCursor { position, target, finished: false }
    }

    /// Percentage shown by the bar, capped at 100; an empty target counts as
    /// complete.
    pub open spec fn spec_percent(self) -> u64 {
        if self.target == 0 {
            100
        } else if self.position >= self.target {
            100
        } else {
            ((self.position as int * 100) / self.target as int) as u64
        }
    }

    pub fn percent(&self) -> (r: u64)
        ensures
            r == self.spec_percent(),
            r <= 100,
    {
        if self.target == 0 || self.position >= self.target {
            100
        } else {
            let wide: u128 = (self.position as u128) * 100 / (self.target as u128);
            assert(self.position as int * 100 / self.target as int <= 100) by (nonlinear_arith)
                requires
                    0 < self.target,
                    self.position <= self.target,
            ;
            wide as u64
        }
    }

    /// The bar has reached its end.
    pub open spec fn spec_is_complete(self) -> bool {
        self.position >= self.target
    }

    pub fn is_complete(&self) -> (r: bool)
        ensures
            r == self.spec_is_complete(),
    {
        self.position >= self.target
    }

    /// What `advance` does: the position never moves backwards and the
    /// target may grow mid-stream (the sync target grows as new chain blocks
    /// arrive) but never shrinks.
    pub open spec fn spec_advance(self, new_position: u64, new_target: Option<u64>) -> ProgressCursor {
        ProgressCursor {
            position: if new_position >= self.position {
                new_position
            } else {
                self.position
            },
            target: match new_target {
                Some(t) => if t >= self.target {
                    t
                } else {
                    self.target
                },
                None => self.target,
            },
            finished: self.finished,
        }
    }

    /// Advance the bar, monotonically in both position and target.
    pub fn advance(&mut self, new_position: u64, new_target: Option<u64>)
        ensures
            *final(self) == old(self).spec_advance(new_position, new_target),
            final(self).position >= old(self).position,
            final(self).target >= old(self).target,
            final(self).finished == old(self).finished,
    {
        match new_target {
            Some(t) => {
                if t >= self.target {
                    self.target = t;
                }
            },
            None => {},
        }
        if new_position >= self.position {
            self.position = new_position;
        }
    }

    /// Finish the bar: it reaches its end (never moving backwards) and stays
    /// finished.
    pub fn finish(&mut self)
        ensures
            final(self).position == (if old(self).position >= old(self).target {
                old(self).position
            } else {
                old(self).target
            }),
            final(self).target == old(self).target,
            final(self).finished,
            final(self).position >= old(self).position,
            final(self).spec_is_complete(),
            final(self).spec_percent() == 100,
    {
        if self.position < self.target {
            self.position = self.target;
        }
        self.finished = true;
    }
}

} // verus!
