//! The two operator selectors and the button-interrupt rule that advances them.
use vstd::prelude::*;

verus! {

/// Largest device selector: 0 tests OR gates, 1 tests AND gates, 2 runs the self-test.
pub const DEV_MAX: u8 = 2;

/// Largest mode selector: 0 tests all four channels, `n` in 1..=4 tests channel `n` alone.
pub const MODE_MAX: u8 = 4;

/// One step of a counter on `0..=max`: it wraps to 0 after `max`.
pub open spec fn wrap_next(v: nat, max: nat) -> nat {
    if v == max {
        0
    } else {
        v + 1
    }
}

/// The counter after `n` steps from `v`.
pub open spec fn advance_times(v: nat, max: nat, n: nat) -> nat
    decreases n,
{
    if n == 0 {
        v
    } else {
        advance_times(wrap_next(v, max), max, (n - 1) as nat)
    }
}

/// Advances a counter on `0..=max` by one step, with wraparound.
pub fn wrap_advance(v: u8, max: u8) -> (r: u8)
    requires
        v <= max,
    ensures
        r as nat == wrap_next(v as nat, max as nat),
        r <= max,
{
    if v == max {
        0
    } else {
        v + 1
    }
}

proof fn lemma_advance_times_mod(v: nat, max: nat, n: nat)
    requires
        v <= max,
    ensures
        advance_times(v, max, n) == (v + n) % (max + 1),
    decreases n,
{
    if n == 0 {
        vstd::arithmetic::div_mod::lemma_small_mod(v, max + 1);
    } else {
        let w = wrap_next(v, max);
        lemma_advance_times_mod(w, max, (n - 1) as nat);
        if v == max {
            vstd::arithmetic::div_mod::lemma_mod_add_multiples_vanish((n - 1) as int, (max + 1) as int);
        }
    }
}

/// A counter on `0..=max` that is advanced `max + 1` times comes back to where it started.
pub proof fn lemma_full_cycle(v: nat, max: nat)
    requires
        v <= max,
    ensures
        advance_times(v, max, (max + 1) as nat) == v,
{
    lemma_advance_times_mod(v, max, (max + 1) as nat);
    vstd::arithmetic::div_mod::lemma_mod_add_multiples_vanish(v as int, (max + 1) as int);
    vstd::arithmetic::div_mod::lemma_small_mod(v, max + 1);
}

/// Advancing the device selector `DEV_MAX + 1` times from any value gives that value back.
pub proof fn lemma_device_cycle(v: nat)
    requires
        v <= DEV_MAX,
    ensures
        advance_times(v, DEV_MAX as nat, (DEV_MAX + 1) as nat) == v,
{
    lemma_full_cycle(v, DEV_MAX as nat);
}

/// Advancing the mode selector `MODE_MAX + 1` times from any value gives that value back.
pub proof fn lemma_mode_cycle(v: nat)
    requires
        v <= MODE_MAX,
    ensures
        advance_times(v, MODE_MAX as nat, (MODE_MAX + 1) as nat) == v,
{
    lemma_full_cycle(v, MODE_MAX as nat);
}

/// Which pending-interrupt flags the handler has serviced and must clear.
#[derive(Clone, Copy, Debug, PartialEq, Eq)]
pub struct EdgeAck {
    pub clear_device: bool,
    pub clear_mode: bool,
}

/// The device and mode selectors. Only the interrupt handler advances them;
/// the foreground loop reads them.
#[derive(Clone, Copy, Debug)]
pub struct SelectorState {
    device: u8,
    mode: u8,
}

impl SelectorState {
    pub closed spec fn device(&self) -> nat {
        self.device as nat
    }

    pub closed spec fn mode(&self) -> nat {
        self.mode as nat
    }

    pub closed spec fn wf(&self) -> bool {
        self.device <= DEV_MAX && self.mode <= MODE_MAX
    }

    /// Both selectors start at 0: OR gates, all channels.
    pub fn new() -> (s: SelectorState)
        ensures
            s.wf(),
            s.device() == 0,
            s.mode() == 0,
    {
        SelectorState { device: 0, mode: 0 }
    }

    pub fn device_selector(&self) -> (r: u8)
        requires
            self.wf(),
        ensures
            r as nat == self.device(),
            r <= DEV_MAX,
    {
        self.device
    }

    pub fn mode_selector(&self) -> (r: u8)
        requires
            self.wf(),
        ensures
            r as nat == self.mode(),
            r <= MODE_MAX,
    {
        self.mode
    }

    /// One press of the device-select button.
    pub fn advance_device(&mut self)
        requires
            old(self).wf(),
        ensures
            final(self).wf(),
            final(self).device() == wrap_next(old(self).device(), DEV_MAX as nat),
            final(self).mode() == old(self).mode(),
    {
        self.device = wrap_advance(self.device, DEV_MAX);
    }

    /// One press of the mode-select button.
    pub fn advance_mode(&mut self)
        requires
            old(self).wf(),
        ensures
            final(self).wf(),
            final(self).mode() == wrap_next(old(self).mode(), MODE_MAX as nat),
            final(self).device() == old(self).device(),
    {
        self.mode = wrap_advance(self.mode, MODE_MAX);
    }

    /// One invocation of the button interrupt, given the two pending flags.
    /// Each selector whose flag is set advances exactly once, and its flag is
    /// reported for clearing; both flags are looked at on every invocation.
    pub fn handle_edges(&mut self, device_pending: bool, mode_pending: bool) -> (ack: EdgeAck)
        requires
            old(self).wf(),
        ensures
            final(self).wf(),
            final(self).device() == (if device_pending {
                wrap_next(old(self).device(), DEV_MAX as nat)
            } else {
                old(self).device()
            }),
            final(self).mode() == (if mode_pending {
                wrap_next(old(self).mode(), MODE_MAX as nat)
            } else {
                old(self).mode()
            }),
            ack.clear_device == device_pending,
            ack.clear_mode == mode_pending,
    {
        if device_pending {
            self.advance_device();
        }
        if mode_pending {
            self.advance_mode();
        }
        EdgeAck { clear_device: device_pending, clear_mode: mode_pending }
    }
}

} // verus!
