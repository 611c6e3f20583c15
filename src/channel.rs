//! A gate channel wired to a simulated combinational gate: two driven input
//! lines and one sensed output line whose level is the response of its gate to
//! the two inputs.
use vstd::prelude::*;
use crate::probe::Probe;
use crate::truth_table::{TruthTable, and_cells, cell_index, combination_spec, or_cells};

verus! {

/// What one run of `exercise` does: the observed table is the response
/// table of its gate, which is left untouched, and both input lines are left high.
pub open spec fn exercise_outcome(before: SimulatedChannel, after: SimulatedChannel, observed: Seq<bool>) -> bool {
    &&& observed == before.gate@
    &&& after.gate == before.gate
    &&& after.line_a
    &&& after.line_b
}

#[derive(Clone, Copy, Debug)]
pub struct SimulatedChannel {
    /// Output of the simulated chip for each input combination.
    pub gate: TruthTable,
    /// Level driven on the first input of the simulated chip.
    pub line_a: bool,
    /// Level driven on the second input of the simulated chip.
    pub line_b: bool,
}

/// Exercising a channel twice in a row, on a stateless gate, observes the
/// same table both times.
pub proof fn lemma_exercise_repeatable(
    first: SimulatedChannel,
    second: SimulatedChannel,
    third: SimulatedChannel,
    t1: Seq<bool>,
    t2: Seq<bool>,
)
    requires
        exercise_outcome(first, second, t1),
        exercise_outcome(second, third, t2),
    ensures
        t1 == t2,
{
}

/// Exercising a channel wired to an AND gate observes exactly the AND table,
/// and one wired to an OR gate exactly the OR table.
pub proof fn lemma_exercise_reference_gates(before: SimulatedChannel, after: SimulatedChannel, observed: Seq<bool>)
    requires
        exercise_outcome(before, after, observed),
    ensures
        before.gate@ == and_cells() ==> observed == and_cells(),
        before.gate@ == or_cells() ==> observed == or_cells(),
{
}

impl SimulatedChannel {
    /// A channel with both input lines low, wired to a gate with the given response.
    pub fn new(gate: TruthTable) -> (c: SimulatedChannel)
        ensures
            c.gate == gate,
            !c.line_a,
            !c.line_b,
    {
        SimulatedChannel { gate, line_a: false, line_b: false }
    }

    /// A channel whose gate output is stuck at `level`.
    pub fn stuck_at(level: bool) -> (c: SimulatedChannel)
        ensures
            c.gate@ == seq![level, level, level, level],
            !c.line_a,
            !c.line_b,
    {
        let c = SimulatedChannel::new(TruthTable::new([level, level, level, level]));
        assert(c.gate@ =~= seq![level, level, level, level]);
        c
    }

    pub fn drive(&mut self, a: bool, b: bool)
        ensures
            final(self).gate == old(self).gate,
            final(self).line_a == a,
            final(self).line_b == b,
    {
        self.line_a = a;
        self.line_b = b;
    }

    pub fn sense(&self) -> (r: bool)
        ensures
            r == self.gate@[cell_index(self.line_a, self.line_b)],
    {
        self.gate.get(self.line_a, self.line_b)
    }

    /// Drives the four input combinations in table order, sampling the output
    /// right after each, and returns the observed table.
    pub fn exercise(&mut self) -> (t: TruthTable)
        ensures
            exercise_outcome(*old(self), *final(self), t@),
    {
        let ghost gate = self.gate;
        let mut probe = Probe::new();
        loop
            invariant
                probe.wf(),
                probe.step() <= 4,
                self.gate == gate,
                probe.samples() == gate@.subrange(0, probe.step() as int),
                probe.step() > 0 ==> (self.line_a, self.line_b) == combination_spec(
                    probe.step() - 1,
                ),
            ensures
                probe.wf(),
                probe.step() == 4,
                self.gate == gate,
                probe.samples() == gate@.subrange(0, 4),
                self.line_a,
                self.line_b,
            decreases 4 - probe.step(),
        {
            match probe.next_drive() {
                Some((a, b)) => {
                    let ghost k = probe.step() as int;
                    self.drive(a, b);
                    let level = self.sense();
                    assert(cell_index(a, b) == k);
                    probe.record(level);
                    assert(probe.samples() =~= gate@.subrange(0, k + 1));
                },
                None => {
                    break;
                },
            }
        }
        let t = probe.table();
        assert(t@ =~= gate@);
        t
    }
}

} // verus!
