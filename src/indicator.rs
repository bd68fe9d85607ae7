use vstd::prelude::*;

verus! {

/// Pause between two "typing" signals.
pub const TYPING_INTERVAL_MS: u64 = 4000;

/// What the activity loop does next.
#[derive(Debug, Clone, Copy, PartialEq, Eq)]
pub enum IndicatorAction {
    /// Send the "typing" signal, then wait this many milliseconds.
    SignalAndWait { wait_ms: u64 },
    /// Leave the loop without another signal.
    Exit,
}

/// One turn of the activity loop: stop once asked to, else signal and wait.
pub fn indicator_step(stop_requested: bool) -> (r: IndicatorAction)
    ensures
        stop_requested ==> r == IndicatorAction::Exit,
        !stop_requested ==> r == (IndicatorAction::SignalAndWait { wait_ms: TYPING_INTERVAL_MS }),
{
    if stop_requested {
        IndicatorAction::Exit
    } else {
        IndicatorAction::SignalAndWait { wait_ms: TYPING_INTERVAL_MS }
    }
}

/// The single-use stop signal of a running indicator.
pub struct StopLatch {
    pub armed: bool,
}

/// How many stop signals `n` releases send, starting from `armed`.
pub open spec fn signals_sent(armed: bool, n: nat) -> nat
    decreases n,
{
    if n == 0 {
        0
    } else if armed {
        1 + signals_sent(false, (n - 1) as nat)
    } else {
        signals_sent(false, (n - 1) as nat)
    }
}

impl StopLatch {
    /// The latch of an indicator that has just started.
    pub fn started() -> (r: StopLatch)
        ensures
            r.armed,
    {
        StopLatch { armed: true }
    }

    /// Whether the stop signal is to be sent now; it is handed out once and never again.
    pub fn release(&mut self) -> (r: bool)
        ensures
            r == old(self).armed,
            !final(self).armed,
    {
        let r = self.armed;
        self.armed = false;
        r
    }
}

/// However many times a started indicator is released (once per exit path, at least once),
/// exactly one stop signal is sent.
pub proof fn lemma_stop_sent_once(n: nat)
    requires
        n >= 1,
    ensures
        signals_sent(true, n) == 1,
    decreases n,
{
    lemma_disarmed_sends_none((n - 1) as nat);
}

proof fn lemma_disarmed_sends_none(n: nat)
    ensures
        signals_sent(false, n) == 0,
    decreases n,
{
    if n > 0 {
        lemma_disarmed_sends_none((n - 1) as nat);
    }
}

} // verus!
