//! The call protocol of the compute-engine boundary.
//!
//! The engine keeps process-wide mutable state, so its calls are issued
//! one at a time, in a fixed order.  The session types here decide, from
//! the session's state alone, which call the driver performs next; the
//! driver performs it, reports back, and asks again.  For the two-pass
//! transform the order is: establish the state once, fit every tile in
//! emission order, then transform every tile in emission order.  For the
//! paired comparison it is one compare per pair, in pair order.

use vstd::prelude::*;

verus! {

/// One call across the compute-engine boundary, or the end of the
/// session.  Indices name the tile (or pair) of the prepared stream the
/// call takes.
#[derive(Clone, Copy, Debug, PartialEq, Eq, Structural)]
pub enum EngineCall {
    Init { n_components: usize },
    PartialFit { index: usize },
    Apply { index: usize },
    Compare { index: usize },
    Done,
}

/// The state of one two-pass fit-and-transform session over `n_tiles`
/// tiles: how many calls have been performed so far.
#[derive(Clone, Copy, Debug, PartialEq, Eq, Structural)]
pub struct FitTransformSession {
    pub n_components: usize,
    pub n_tiles: usize,
    pub calls_done: usize,
}

impl FitTransformSession {
    /// The session's counters stay within one init plus two passes.
    pub open spec fn wf(self) -> bool {
        &&& self.calls_done <= 1 + 2 * self.n_tiles
        &&& self.n_tiles < usize::MAX / 2
    }

    /// The call the session asks for after `calls_done` performed calls:
    /// the one `Init`, then one `PartialFit` per tile in order, then one
    /// `Apply` per tile in order, then `Done`.
    pub open spec fn spec_next(self) -> EngineCall {
        if self.calls_done == 0 {
            EngineCall::Init { n_components: self.n_components }
        } else if self.calls_done <= self.n_tiles {
            EngineCall::PartialFit { index: (self.calls_done - 1) as usize }
        } else if self.calls_done <= 2 * self.n_tiles {
            EngineCall::Apply { index: (self.calls_done - 1 - self.n_tiles) as usize }
        } else {
            EngineCall::Done
        }
    }

    /// A fresh session over `n_tiles` tiles: nothing performed yet.
    pub fn new(n_components: usize, n_tiles: usize) -> (r: Option<FitTransformSession>)
        ensures
            r is Some <==> n_tiles < usize::MAX / 2,
            r matches Some(s) ==> s == (FitTransformSession { n_components, n_tiles, calls_done: 0 })
                && s.wf(),
    {
        if n_tiles < usize::MAX / 2 {
            Some(FitTransformSession { n_components, n_tiles, calls_done: 0 })
        } else {
            None
        }
    }

    /// The next call to perform.
    pub fn next_call(&self) -> (r: EngineCall)
        requires
            self.wf(),
        ensures
            r == self.spec_next(),
            r matches EngineCall::PartialFit { index } ==> index < self.n_tiles,
            r matches EngineCall::Apply { index } ==> index < self.n_tiles,
            r is Done <==> self.calls_done == 1 + 2 * self.n_tiles,
    {
        if self.calls_done == 0 {
            EngineCall::Init { n_components: self.n_components }
        } else if self.calls_done <= self.n_tiles {
            EngineCall::PartialFit { index: self.calls_done - 1 }
        } else if self.calls_done <= 2 * self.n_tiles {
            EngineCall::Apply { index: self.calls_done - 1 - self.n_tiles }
        } else {
            EngineCall::Done
        }
    }

    /// Records that the pending call was performed.
    pub fn advance(&mut self)
        requires
            old(self).wf(),
            old(self).spec_next() !is Done,
        ensures
            final(self).n_components == old(self).n_components,
            final(self).n_tiles == old(self).n_tiles,
            final(self).calls_done == old(self).calls_done + 1,
            final(self).wf(),
    {
        self.calls_done = self.calls_done + 1;
    }
}

/// The state of one paired-comparison session over `n_pairs` tile pairs.
#[derive(Clone, Copy, Debug, PartialEq, Eq, Structural)]
pub struct CompareSession {
    pub n_pairs: usize,
    pub calls_done: usize,
}

impl CompareSession {
    /// The session performs one compare per pair.
    pub open spec fn wf(self) -> bool {
        self.calls_done <= self.n_pairs
    }

    /// The call the session asks for: one `Compare` per pair in pair
    /// order, then `Done`.
    pub open spec fn spec_next(self) -> EngineCall {
        if self.calls_done < self.n_pairs {
            EngineCall::Compare { index: self.calls_done }
        } else {
            EngineCall::Done
        }
    }

    /// A fresh session over `n_pairs` pairs.
    pub fn new(n_pairs: usize) -> (r: CompareSession)
        ensures
            r == (CompareSession { n_pairs, calls_done: 0 }),
            r.wf(),
    {
        CompareSession { n_pairs, calls_done: 0 }
    }

    /// The next call to perform.
    pub fn next_call(&self) -> (r: EngineCall)
        requires
            self.wf(),
        ensures
            r == self.spec_next(),
            r matches EngineCall::Compare { index } ==> index < self.n_pairs,
            r is Done <==> self.calls_done == self.n_pairs,
    {
        if self.calls_done < self.n_pairs {
            EngineCall::Compare { index: self.calls_done }
        } else {
            EngineCall::Done
        }
    }

    /// Records that the pending compare was performed.
    pub fn advance(&mut self)
        requires
            old(self).wf(),
            old(self).spec_next() !is Done,
        ensures
            final(self).n_pairs == old(self).n_pairs,
            final(self).calls_done == old(self).calls_done + 1,
            final(self).wf(),
    {
        self.calls_done = self.calls_done + 1;
    }
}

} // verus!
