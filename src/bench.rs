//! The foreground test loop: choose the expected table from the device
//! selector, exercise the channels that the mode selector names, and turn the
//! observed tables into the pass/fail indicator vector.
use vstd::prelude::*;
use crate::channel::SimulatedChannel;
use crate::selector::{DEV_MAX, MODE_MAX, SelectorState};
use crate::truth_table::{TruthTable, and_cells, or_cells};

verus! {

/// The table that the device selector asks for: OR for 0, AND for 1, and none
/// for the self-test.
pub open spec fn expected_cells(device: nat) -> Option<Seq<bool>> {
    if device == 0 {
        Some(or_cells())
    } else if device == 1 {
        Some(and_cells())
    } else {
        None
    }
}

/// Whether mode `mode` exercises channel `channel` (numbered 1 to 4).
pub open spec fn selected(mode: nat, channel: nat) -> bool {
    mode == 0 || mode == channel
}

/// Whether channel `channel` (numbered 1 to 4) was exercised and matched.
pub open spec fn channel_pass(expected: Seq<bool>, mode: nat, observed: Seq<TruthTable>, channel: nat) -> bool {
    selected(mode, channel) && observed[channel - 1]@ == expected
}

/// The indicator vector: the all-pass flag, which only mode 0 can raise,
/// then one flag per channel. A channel that the mode leaves out reads false.
pub open spec fn result_cells(expected: Seq<bool>, mode: nat, observed: Seq<TruthTable>) -> Seq<bool> {
    seq![
        mode == 0 && channel_pass(expected, mode, observed, 1) && channel_pass(expected, mode, observed, 2)
            && channel_pass(expected, mode, observed, 3) && channel_pass(expected, mode, observed, 4),
        channel_pass(expected, mode, observed, 1),
        channel_pass(expected, mode, observed, 2),
        channel_pass(expected, mode, observed, 3),
        channel_pass(expected, mode, observed, 4),
    ]
}

/// The expected table for a device selector, or `None` in self-test mode.
pub fn expected_table(device: u8) -> (r: Option<TruthTable>)
    requires
        device <= DEV_MAX,
    ensures
        match r {
            Some(t) => expected_cells(device as nat) == Some(t@),
            None => expected_cells(device as nat) is None,
        },
{
    if device == 0 {
        Some(TruthTable::or_table())
    } else if device == 1 {
        Some(TruthTable::and_table())
    } else {
        None
    }
}

/// Whether a mode exercises channel `channel` (numbered 1 to 4).
pub fn is_channel_selected(mode: u8, channel: u8) -> (r: bool)
    ensures
        r == selected(mode as nat, channel as nat),
{
    mode == 0 || mode == channel
}

/// The indicator vector of a full run: the all-pass flag followed by the four
/// channel flags.
pub fn test_all(passes: [bool; 4]) -> (r: [bool; 5])
    ensures
        r@ == seq![passes[0] && passes[1] && passes[2] && passes[3], passes[0], passes[1], passes[2], passes[3]],
{
    let all = passes[0] && passes[1] && passes[2] && passes[3];
    let r = [all, passes[0], passes[1], passes[2], passes[3]];
    assert(r@ =~= seq![all, passes[0], passes[1], passes[2], passes[3]]);
    r
}

/// Compares the observed tables of the channels that `mode` exercises against
/// the expected table. Entries of `observed` for channels outside the mode are
/// not read.
pub fn test_result(expected: &TruthTable, mode: u8, observed: &[TruthTable; 4]) -> (r: [bool; 5])
    requires
        mode <= MODE_MAX,
    ensures
        r@ == result_cells(expected@, mode as nat, observed@),
{
    let p1 = is_channel_selected(mode, 1) && observed[0].equals(expected);
    let p2 = is_channel_selected(mode, 2) && observed[1].equals(expected);
    let p3 = is_channel_selected(mode, 3) && observed[2].equals(expected);
    let p4 = is_channel_selected(mode, 4) && observed[3].equals(expected);
    let r = if mode == 0 {
        test_all([p1, p2, p3, p4])
    } else {
        [false, p1, p2, p3, p4]
    };
    assert(r@ =~= result_cells(expected@, mode as nat, observed@));
    r
}

/// What the self-test makes of the reference channel's table.
#[derive(Clone, Copy, Debug, PartialEq, Eq)]
pub struct SelfTestReport {
    pub observed: TruthTable,
    pub or_shaped: bool,
    pub and_shaped: bool,
}

/// Classifies an observed table as OR-shaped, AND-shaped, or neither.
pub fn self_test_report(observed: TruthTable) -> (r: SelfTestReport)
    ensures
        r.observed == observed,
        r.or_shaped == (observed@ == or_cells()),
        r.and_shaped == (observed@ == and_cells()),
{
    let or_shaped = observed.equals(&TruthTable::or_table());
    let and_shaped = observed.equals(&TruthTable::and_table());
    SelfTestReport { observed, or_shaped, and_shaped }
}

/// The outcome of one pass of the test loop.
#[derive(Clone, Copy, Debug, PartialEq, Eq)]
pub enum Report {
    SelfTest(SelfTestReport),
    Checked([bool; 5]),
}

/// The report that one pass owes, given the selectors and the four gates'
/// response tables.
pub open spec fn report_spec(device: nat, mode: nat, gates: Seq<TruthTable>, r: Report) -> bool {
    match expected_cells(device) {
        None => match r {
            Report::SelfTest(s) => {
                &&& s.observed@ == gates[0]@
                &&& s.or_shaped == (gates[0]@ == or_cells())
                &&& s.and_shaped == (gates[0]@ == and_cells())
            },
            Report::Checked(_) => false,
        },
        Some(expected) => match r {
            Report::SelfTest(_) => false,
            Report::Checked(flags) => flags@ == result_cells(expected, mode, gates),
        },
    }
}

/// Whether one pass exercises channel `channel` (numbered 1 to 4): channel 1
/// alone in self-test mode, otherwise the channels that the mode selects.
pub open spec fn exercised(device: nat, mode: nat, channel: nat) -> bool {
    if expected_cells(device) is None {
        channel == 1
    } else {
        selected(mode, channel)
    }
}

/// The channels that one pass exercises, channel 1 first.
pub fn channels_to_exercise(device: u8, mode: u8) -> (r: [bool; 4])
    requires
        device <= DEV_MAX,
    ensures
        forall|i: int| 0 <= i < 4 ==> r@[i] == exercised(device as nat, mode as nat, (i + 1) as nat),
{
    if device == DEV_MAX {
        [true, false, false, false]
    } else {
        [
            is_channel_selected(mode, 1),
            is_channel_selected(mode, 2),
            is_channel_selected(mode, 3),
            is_channel_selected(mode, 4),
        ]
    }
}

/// The report of one pass, from the tables observed on the channels that
/// `channels_to_exercise` names. The other entries of `observed` are not read.
pub fn evaluate(device: u8, mode: u8, observed: &[TruthTable; 4]) -> (r: Report)
    requires
        device <= DEV_MAX,
        mode <= MODE_MAX,
    ensures
        report_spec(device as nat, mode as nat, observed@, r),
{
    match expected_table(device) {
        None => Report::SelfTest(self_test_report(observed[0])),
        Some(expected) => Report::Checked(test_result(&expected, mode, observed)),
    }
}

/// The selectors and four simulated gate channels of one fixture.
#[derive(Clone, Copy, Debug)]
pub struct Bench {
    pub selectors: SelectorState,
    pub channel1: SimulatedChannel,
    pub channel2: SimulatedChannel,
    pub channel3: SimulatedChannel,
    pub channel4: SimulatedChannel,
}

impl Bench {
    pub open spec fn gates(&self) -> Seq<TruthTable> {
        seq![self.channel1.gate, self.channel2.gate, self.channel3.gate, self.channel4.gate]
    }

    /// A fixture with both selectors at 0.
    pub fn new(
        channel1: SimulatedChannel,
        channel2: SimulatedChannel,
        channel3: SimulatedChannel,
        channel4: SimulatedChannel,
    ) -> (b: Bench)
        ensures
            b.selectors.wf(),
            b.selectors.device() == 0,
            b.selectors.mode() == 0,
            b.gates() == seq![channel1.gate, channel2.gate, channel3.gate, channel4.gate],
    {
        Bench { selectors: SelectorState::new(), channel1, channel2, channel3, channel4 }
    }

    /// One pass of the test loop. The selectors are read once, at the start,
    /// and only the channels that the pass needs are exercised.
    pub fn run_iteration(&mut self) -> (r: Report)
        requires
            old(self).selectors.wf(),
        ensures
            final(self).selectors == old(self).selectors,
            final(self).gates() == old(self).gates(),
            report_spec(
                old(self).selectors.device(),
                old(self).selectors.mode(),
                old(self).gates(),
                r,
            ),
    {
        let ghost gates = self.gates();
        let device = self.selectors.device_selector();
        let mode = self.selectors.mode_selector();
        let wanted = channels_to_exercise(device, mode);
        let blank = TruthTable::new([false, false, false, false]);
        let t1 = if wanted[0] { self.channel1.exercise() } else { blank };
        let t2 = if wanted[1] { self.channel2.exercise() } else { blank };
        let t3 = if wanted[2] { self.channel3.exercise() } else { blank };
        let t4 = if wanted[3] { self.channel4.exercise() } else { blank };
        let observed = [t1, t2, t3, t4];
        assert(self.gates() =~= gates);
        assert(forall|i: int|
            0 <= i < 4 && #[trigger] exercised(device as nat, mode as nat, (i + 1) as nat)
                ==> observed@[i]@ == gates[i]@);
        let r = evaluate(device, mode, &observed);
        proof {
            if let Some(expected) = expected_cells(device as nat) {
                assert(result_cells(expected, mode as nat, observed@) =~= result_cells(
                    expected,
                    mode as nat,
                    gates,
                ));
            }
        }
        r
    }
}

} // verus!
