//! The schedule of progressive refinement: one sample pass per redraw until
//! the requested number of samples has been averaged in.
use vstd::prelude::*;

verus! {

/// Counts the sample passes of a progressive render.
pub struct Progress {
    /// The 1-based index of the next pass.
    count: u64,
    /// The number of passes to run in all.
    samples: u32,
}

impl Progress {
    /// The number of passes run so far.
    pub closed spec fn done(&self) -> nat {
        (self.count - 1) as nat
    }

    /// The number of passes to run in all.
    pub closed spec fn total(&self) -> nat {
        self.samples as nat
    }

    /// The next pass is never past one beyond the last.
    pub closed spec fn wf(&self) -> bool {
        1 <= self.count <= self.samples + 1
    }

    /// A schedule of `samples` passes, none run yet.
    pub fn new(samples: u32) -> (p: Self)
        ensures
            p.wf(),
            p.done() == 0,
            p.total() == samples,
    {
        Progress { count: 1, samples }
    }

    /// The number of passes run so far.
    pub fn count(&self) -> (n: u64)
        requires
            self.wf(),
        ensures
            n == self.done(),
    {
        self.count - 1
    }

    /// Starts the next pass and returns its 1-based index `n`, which weighs
    /// the running average: a pixel's mean becomes `mean * (n-1)/n + sample/n`.
    /// Returns `None`, and changes nothing, once all passes have run.
    pub fn next_pass(&mut self) -> (n: Option<u64>)
        requires
            old(self).wf(),
        ensures
            final(self).wf(),
            final(self).total() == old(self).total(),
            old(self).done() < old(self).total() ==> n == Some((old(self).done() + 1) as u64)
                && final(self).done() == old(self).done() + 1,
            old(self).done() >= old(self).total() ==> n is None && final(self).done()
                == old(self).done(),
    {
        if self.count <= self.samples as u64 {
            let n = self.count;
            self.count = self.count + 1;
            Some(n)
        } else {
            None
        }
    }
}

} // verus!
