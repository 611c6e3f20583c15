use gate_tester::bench::{
    Bench, Report, channels_to_exercise, evaluate, expected_table, is_channel_selected, self_test_report, test_all, test_result,
};
use gate_tester::channel::SimulatedChannel;
use gate_tester::probe::Probe;
use gate_tester::selector::{DEV_MAX, MODE_MAX, SelectorState, wrap_advance};
use gate_tester::truth_table::{TruthTable, combination};

fn and_gate() -> SimulatedChannel {
    SimulatedChannel::new(TruthTable::and_table())
}

fn or_gate() -> SimulatedChannel {
    SimulatedChannel::new(TruthTable::or_table())
}

#[test]
fn reference_tables_are_fixed() {
    assert_eq!(TruthTable::and_table().cells, [false, false, false, true]);
    assert_eq!(TruthTable::or_table().cells, [false, true, true, true]);
}

#[test]
fn combinations_follow_table_order() {
    assert_eq!(combination(0), (false, false));
    assert_eq!(combination(1), (false, true));
    assert_eq!(combination(2), (true, false));
    assert_eq!(combination(3), (true, true));
}

#[test]
fn table_lookup_by_inputs() {
    let t = TruthTable::new([true, false, false, true]);
    assert!(t.get(false, false));
    assert!(!t.get(false, true));
    assert!(!t.get(true, false));
    assert!(t.get(true, true));
}

#[test]
fn table_equality_is_element_wise() {
    let and_t = TruthTable::and_table();
    assert!(and_t.equals(&TruthTable::new([false, false, false, true])));
    assert!(!and_t.equals(&TruthTable::or_table()));
    assert!(!and_t.equals(&TruthTable::new([true, false, false, true])));
}

#[test]
fn device_selector_full_cycle() {
    for start in 0..=DEV_MAX {
        let mut v = start;
        for _ in 0..=DEV_MAX {
            v = wrap_advance(v, DEV_MAX);
        }
        assert_eq!(v, start);
    }
}

#[test]
fn mode_selector_full_cycle() {
    for start in 0..=MODE_MAX {
        let mut v = start;
        for _ in 0..=MODE_MAX {
            v = wrap_advance(v, MODE_MAX);
        }
        assert_eq!(v, start);
    }
}

#[test]
fn mode_selector_wraps_after_max() {
    let mut s = SelectorState::new();
    let mut seen = Vec::new();
    for _ in 0..6 {
        s.advance_mode();
        seen.push(s.mode_selector());
    }
    assert_eq!(seen, vec![1, 2, 3, 4, 0, 1]);
    assert_eq!(s.device_selector(), 0);
}

#[test]
fn device_button_three_edges_wrap() {
    let mut s = SelectorState::new();
    let mut seen = Vec::new();
    for _ in 0..3 {
        let ack = s.handle_edges(true, false);
        assert!(ack.clear_device);
        assert!(!ack.clear_mode);
        seen.push(s.device_selector());
    }
    assert_eq!(seen, vec![1, 2, 0]);
    assert_eq!(s.mode_selector(), 0);
}

#[test]
fn simultaneous_edges_advance_both_once() {
    let mut s = SelectorState::new();
    let ack = s.handle_edges(true, true);
    assert!(ack.clear_device && ack.clear_mode);
    assert_eq!(s.device_selector(), 1);
    assert_eq!(s.mode_selector(), 1);
    let ack = s.handle_edges(false, false);
    assert!(!ack.clear_device && !ack.clear_mode);
    assert_eq!(s.device_selector(), 1);
    assert_eq!(s.mode_selector(), 1);
}

#[test]
fn probe_drives_in_order_and_collects() {
    let mut p = Probe::new();
    let mut driven = Vec::new();
    let samples = [true, false, true, true];
    let mut i = 0;
    while let Some(d) = p.next_drive() {
        driven.push(d);
        p.record(samples[i]);
        i += 1;
    }
    assert!(p.is_done());
    assert_eq!(driven, vec![(false, false), (false, true), (true, false), (true, true)]);
    assert_eq!(p.table().cells, samples);
}

#[test]
fn exercise_and_gate_gives_and_table() {
    let mut c = and_gate();
    assert_eq!(c.exercise().cells, [false, false, false, true]);
    assert!(c.line_a && c.line_b);
}

#[test]
fn exercise_or_gate_gives_or_table() {
    let mut c = or_gate();
    assert_eq!(c.exercise().cells, [false, true, true, true]);
}

#[test]
fn exercise_reads_asymmetric_gate_in_order() {
    // output = first input AND NOT second input
    let mut c = SimulatedChannel::new(TruthTable::new([false, false, true, false]));
    assert_eq!(c.exercise().cells, [false, false, true, false]);
}

#[test]
fn exercise_twice_is_identical() {
    let mut c = SimulatedChannel::new(TruthTable::new([true, false, true, false]));
    let first = c.exercise();
    let second = c.exercise();
    assert_eq!(first, second);
}

#[test]
fn expected_table_per_device() {
    assert_eq!(expected_table(0), Some(TruthTable::or_table()));
    assert_eq!(expected_table(1), Some(TruthTable::and_table()));
    assert_eq!(expected_table(DEV_MAX), None);
}

#[test]
fn channel_selection_by_mode() {
    for ch in 1..=4u8 {
        assert!(is_channel_selected(0, ch));
        assert!(is_channel_selected(ch, ch));
    }
    assert!(!is_channel_selected(2, 1));
    assert!(!is_channel_selected(4, 3));
}

#[test]
fn test_all_aggregates() {
    assert_eq!(test_all([true, true, true, true]), [true, true, true, true, true]);
    assert_eq!(test_all([true, false, true, true]), [false, true, false, true, true]);
}

#[test]
fn test_result_single_mode_ignores_others() {
    let and_t = TruthTable::and_table();
    let observed = [and_t, TruthTable::or_table(), and_t, and_t];
    assert_eq!(test_result(&and_t, 3, &observed), [false, false, false, true, false]);
    assert_eq!(test_result(&and_t, 2, &observed), [false, false, false, false, false]);
    assert_eq!(test_result(&and_t, 0, &observed), [false, true, false, true, true]);
}

#[test]
fn self_test_classification() {
    let r = self_test_report(TruthTable::and_table());
    assert!(r.and_shaped && !r.or_shaped);
    let r = self_test_report(TruthTable::new([true, true, true, true]));
    assert!(!r.and_shaped && !r.or_shaped);
}

#[test]
fn scenario_all_and_gates_pass() {
    let mut b = Bench::new(and_gate(), and_gate(), and_gate(), and_gate());
    b.selectors.advance_device();
    assert_eq!(b.run_iteration(), Report::Checked([true, true, true, true, true]));
}

#[test]
fn scenario_all_mode_one_bad_channel() {
    let mut b = Bench::new(and_gate(), and_gate(), or_gate(), and_gate());
    b.selectors.advance_device();
    assert_eq!(b.run_iteration(), Report::Checked([false, true, true, false, true]));
}

#[test]
fn scenario_or_mode_two_stuck_high() {
    let mut b = Bench::new(or_gate(), SimulatedChannel::stuck_at(true), or_gate(), or_gate());
    b.selectors.advance_mode();
    b.selectors.advance_mode();
    assert_eq!(b.run_iteration(), Report::Checked([false, false, false, false, false]));
}

#[test]
fn scenario_self_test_on_or_gate() {
    let mut b = Bench::new(or_gate(), and_gate(), and_gate(), and_gate());
    b.selectors.advance_device();
    b.selectors.advance_device();
    match b.run_iteration() {
        Report::SelfTest(s) => {
            assert_eq!(s.observed, TruthTable::or_table());
            assert!(s.or_shaped);
            assert!(!s.and_shaped);
        }
        Report::Checked(_) => panic!("self-test expected"),
    }
}

#[test]
fn channels_exercised_per_pass() {
    assert_eq!(channels_to_exercise(DEV_MAX, 3), [true, false, false, false]);
    assert_eq!(channels_to_exercise(0, 0), [true, true, true, true]);
    assert_eq!(channels_to_exercise(1, 4), [false, false, false, true]);
}

#[test]
fn evaluate_reports_per_device() {
    let or_t = TruthTable::or_table();
    let observed = [or_t, or_t, TruthTable::and_table(), or_t];
    assert_eq!(evaluate(0, 0, &observed), Report::Checked([false, true, true, false, true]));
    assert_eq!(evaluate(1, 3, &observed), Report::Checked([false, false, false, true, false]));
    match evaluate(DEV_MAX, 0, &observed) {
        Report::SelfTest(s) => assert!(s.or_shaped && !s.and_shaped),
        Report::Checked(_) => panic!("self-test expected"),
    }
}
