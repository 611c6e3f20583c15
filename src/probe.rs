//! The procedure that exercises one gate channel: drive the two input lines
//! through the four combinations in table order and sample the output of the chip
//! after each. The driving and sampling are done by the caller; the probe
//! decides what to drive next and assembles the observed table.
use vstd::prelude::*;
use crate::truth_table::{TruthTable, combination, combination_spec};

verus! {

#[derive(Clone, Copy, Debug)]
pub struct Probe {
    step: usize,
    cells: [bool; 4],
}

impl Probe {
    /// How many combinations have been sampled so far.
    pub closed spec fn step(&self) -> nat {
        self.step as nat
    }

    /// The levels sampled so far, in table order.
    pub closed spec fn samples(&self) -> Seq<bool> {
        self.cells@.subrange(0, self.step as int)
    }

    pub closed spec fn wf(&self) -> bool {
        self.step <= 4
    }

    pub fn new() -> (p: Probe)
        ensures
            p.wf(),
            p.step() == 0,
            p.samples() == Seq::<bool>::empty(),
    {
        let p = Probe { step: 0, cells: [false, false, false, false] };
        assert(p.samples() =~= Seq::<bool>::empty());
        p
    }

    /// The levels to put on the two input lines before the next sample,
    /// or `None` once all four combinations have been sampled.
    pub fn next_drive(&self) -> (r: Option<(bool, bool)>)
        requires
            self.wf(),
        ensures
            self.step() < 4 ==> r == Some(combination_spec(self.step() as int)),
            self.step() >= 4 ==> r is None,
    {
        if self.step < 4 {
            Some(combination(self.step))
        } else {
            None
        }
    }

    /// Records the output level sampled under the combination last driven.
    pub fn record(&mut self, level: bool)
        requires
            old(self).wf(),
            old(self).step() < 4,
        ensures
            final(self).wf(),
            final(self).step() == old(self).step() + 1,
            final(self).samples() == old(self).samples().push(level),
    {
        let ghost before = self.samples();
        self.cells[self.step] = level;
        self.step = self.step + 1;
        assert(self.samples() =~= before.push(level));
    }

    pub fn is_done(&self) -> (r: bool)
        requires
            self.wf(),
        ensures
            r == (self.step() == 4),
    {
        self.step == 4
    }

    /// The observed table, once all four combinations have been sampled.
    pub fn table(&self) -> (t: TruthTable)
        requires
            self.wf(),
            self.step() == 4,
        ensures
            t@ == self.samples(),
    {
        let t = TruthTable::new(self.cells);
        assert(t@ =~= self.samples());
        t
    }
}

} // verus!
