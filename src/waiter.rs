use vstd::prelude::*;
use crate::config::{READY_INTERVAL_SECS, READY_MAX_ATTEMPTS};

verus! {

#[derive(Clone, Copy, PartialEq, Eq, Structural, Debug)]
pub enum WaitPhase {
    Idle,
    AwaitingProbe,
    AwaitingSleep,
    Finished,
}

/// What the host reports back to the waiter.
#[derive(Clone, Copy, PartialEq, Eq, Structural, Debug)]
pub enum WaitEvent {
    /// Start waiting.
    Begin,
    /// A health probe came back with this reachability.
    Probed(bool),
    /// The pause between two probes is over.
    Slept,
}

/// What the host is asked to do next.
#[derive(Clone, Copy, PartialEq, Eq, Structural, Debug)]
pub enum WaitAction {
    Probe,
    Sleep { secs: u64 },
    /// The backend answered on probe number `attempts`.
    Ready { attempts: u32 },
    /// All `attempts` probes failed.
    TimedOut { attempts: u32 },
    /// The event did not fit the phase; nothing changes.
    Ignore,
}

/// Bounded polling for readiness: probe, and on failure pause one interval
/// and probe again, up to `max_attempts` probes.
#[derive(Clone, Copy, PartialEq, Eq, Structural, Debug)]
pub struct ReadinessWaiter {
    pub phase: WaitPhase,
    /// Probes answered so far.
    pub attempts: u32,
    pub max_attempts: u32,
}

pub open spec fn is_terminal(a: WaitAction) -> bool {
    a is Ready || a is TimedOut
}

/// After `Begin` or a pause: probe again while attempts remain, else give up.
pub open spec fn next_probe(w: ReadinessWaiter) -> (ReadinessWaiter, WaitAction) {
    if w.attempts < w.max_attempts {
        (ReadinessWaiter { phase: WaitPhase::AwaitingProbe, ..w }, WaitAction::Probe)
    } else {
        (
            ReadinessWaiter { phase: WaitPhase::Finished, ..w },
            WaitAction::TimedOut { attempts: w.attempts },
        )
    }
}

/// One transition of the waiter.
pub open spec fn wait_step(w: ReadinessWaiter, e: WaitEvent) -> (ReadinessWaiter, WaitAction) {
    match (w.phase, e) {
        (WaitPhase::Idle, WaitEvent::Begin) => next_probe(w),
        (WaitPhase::AwaitingProbe, WaitEvent::Probed(up)) => if w.attempts >= w.max_attempts {
            (
                ReadinessWaiter { phase: WaitPhase::Finished, ..w },
                WaitAction::TimedOut { attempts: w.attempts },
            )
        } else if up {
            (
                ReadinessWaiter {
                    phase: WaitPhase::Finished,
                    attempts: (w.attempts + 1) as u32,
                    ..w
                },
                WaitAction::Ready { attempts: (w.attempts + 1) as u32 },
            )
        } else {
            (
                ReadinessWaiter {
                    phase: WaitPhase::AwaitingSleep,
                    attempts: (w.attempts + 1) as u32,
                    ..w
                },
                WaitAction::Sleep { secs: READY_INTERVAL_SECS },
            )
        },
        (WaitPhase::AwaitingSleep, WaitEvent::Slept) => next_probe(w),
        _ => (w, WaitAction::Ignore),
    }
}

/// The waiter after a sequence of events, with the actions it asked for.
pub open spec fn wait_run(w: ReadinessWaiter, events: Seq<WaitEvent>) -> (
    ReadinessWaiter,
    Seq<WaitAction>,
)
    decreases events.len(),
{
    if events.len() == 0 {
        (w, Seq::empty())
    } else {
        let (w1, acts) = wait_run(w, events.drop_last());
        let (w2, a) = wait_step(w1, events.last());
        (w2, acts.push(a))
    }
}

/// Number of probes asked for.
pub open spec fn probe_requests(acts: Seq<WaitAction>) -> nat
    decreases acts.len(),
{
    if acts.len() == 0 {
        0
    } else {
        probe_requests(acts.drop_last()) + if acts.last() is Probe {
            1nat
        } else {
            0nat
        }
    }
}

/// The events a host feeds the waiter when its first `failures` probes fail:
/// `Begin`, then a failed probe and a pause, `failures` times.
pub open spec fn failing_polls(failures: nat) -> Seq<WaitEvent>
    decreases failures,
{
    if failures == 0 {
        seq![WaitEvent::Begin]
    } else {
        failing_polls((failures - 1) as nat) + seq![WaitEvent::Probed(false), WaitEvent::Slept]
    }
}

impl ReadinessWaiter {
    /// A waiter that gives up after the standard number of probes.
    pub fn new() -> (r: ReadinessWaiter)
        ensures
            r == initial_waiter(READY_MAX_ATTEMPTS),
    {
        ReadinessWaiter::with_max_attempts(READY_MAX_ATTEMPTS)
    }

    /// A waiter that gives up after `max_attempts` probes.
    pub fn with_max_attempts(max_attempts: u32) -> (r: ReadinessWaiter)
        ensures
            r == initial_waiter(max_attempts),
    {
        ReadinessWaiter { phase: WaitPhase::Idle, attempts: 0, max_attempts }
    }

    /// Takes in one event and returns the action the host performs next.
    pub fn on_event(&mut self, e: WaitEvent) -> (r: WaitAction)
        ensures
            (*final(self), r) == wait_step(*old(self), e),
    {
        match (self.phase, e) {
            (WaitPhase::Idle, WaitEvent::Begin) | (WaitPhase::AwaitingSleep, WaitEvent::Slept) => {
                if self.attempts < self.max_attempts {
                    self.phase = WaitPhase::AwaitingProbe;
                    WaitAction::Probe
                } else {
                    self.phase = WaitPhase::Finished;
                    WaitAction::TimedOut { attempts: self.attempts }
                }
            },
            (WaitPhase::AwaitingProbe, WaitEvent::Probed(up)) => {
                if self.attempts >= self.max_attempts {
                    self.phase = WaitPhase::Finished;
                    WaitAction::TimedOut { attempts: self.attempts }
                } else if up {
                    self.phase = WaitPhase::Finished;
                    self.attempts = self.attempts + 1;
                    WaitAction::Ready { attempts: self.attempts }
                } else {
                    self.phase = WaitPhase::AwaitingSleep;
                    self.attempts = self.attempts + 1;
                    WaitAction::Sleep { secs: READY_INTERVAL_SECS }
                }
            },
            _ => WaitAction::Ignore,
        }
    }
}

pub open spec fn initial_waiter(max_attempts: u32) -> ReadinessWaiter {
    ReadinessWaiter { phase: WaitPhase::Idle, attempts: 0, max_attempts }
}

/// Where the waiter stands after `n` failed probes.
proof fn lemma_failing_polls(max_attempts: u32, n: nat)
    requires
        n <= max_attempts,
    ensures
        ({
            let (w, acts) = wait_run(initial_waiter(max_attempts), failing_polls(n));
            &&& acts.len() == 2 * n + 1
            &&& w.attempts == n
            &&& w.max_attempts == max_attempts
            &&& probe_requests(acts) == if n < max_attempts {
                n + 1
            } else {
                n
            }
            &&& n < max_attempts ==> w.phase == WaitPhase::AwaitingProbe
            &&& n < max_attempts ==> forall|i: int| 0 <= i < acts.len() ==> !is_terminal(#[trigger] acts[i])
            &&& n == max_attempts ==> w.phase == WaitPhase::Finished
            &&& n == max_attempts ==> acts.last() == WaitAction::TimedOut { attempts: max_attempts }
            &&& n == max_attempts ==> forall|i: int|
                0 <= i < acts.len() - 1 ==> !is_terminal(#[trigger] acts[i])
        }),
    decreases n,
{
    let w0 = initial_waiter(max_attempts);
    if n == 0 {
        let ev = failing_polls(0);
        assert(ev =~= seq![WaitEvent::Begin]);
        assert(ev.drop_last() =~= Seq::<WaitEvent>::empty());
        assert(wait_run(w0, Seq::<WaitEvent>::empty()) == (w0, Seq::<WaitAction>::empty()));
        let (w, a) = wait_step(w0, WaitEvent::Begin);
        assert(wait_run(w0, ev) == (w, Seq::<WaitAction>::empty().push(a)));
        let acts = Seq::<WaitAction>::empty().push(a);
        assert(acts.drop_last() =~= Seq::<WaitAction>::empty());
        assert(probe_requests(Seq::<WaitAction>::empty()) == 0);
        assert(acts.last() == a);
    } else {
        let m = (n - 1) as nat;
        lemma_failing_polls(max_attempts, m);
        let prev = failing_polls(m);
        let mid = prev.push(WaitEvent::Probed(false));
        let ev = failing_polls(n);
        assert(ev =~= mid.push(WaitEvent::Slept));
        assert(ev.drop_last() =~= mid);
        assert(mid.drop_last() =~= prev);
        let (w1, acts1) = wait_run(w0, prev);
        let (w2, acts2) = wait_run(w0, mid);
        let (w3, acts3) = wait_run(w0, ev);
        assert(acts2 == acts1.push(WaitAction::Sleep { secs: READY_INTERVAL_SECS }));
        assert(acts2.drop_last() =~= acts1);
        assert(acts3.drop_last() =~= acts2);
        assert(probe_requests(acts2) == probe_requests(acts1));
        assert forall|i: int| 0 <= i < acts3.len() - 1 implies !is_terminal(#[trigger] acts3[i]) by {
            if i < acts1.len() {
                assert(acts3[i] == acts1[i]);
            }
        }
    }
}

/// A backend that first answers on probe `k`, within the bound, is reported
/// ready by that probe and no earlier: after exactly `k` probes, with
/// `Ready { attempts: k }` as the first final answer.
pub proof fn lemma_ready_on_kth_probe(max_attempts: u32, k: nat)
    requires
        1 <= k <= max_attempts,
    ensures
        ({
            let events = failing_polls((k - 1) as nat).push(WaitEvent::Probed(true));
            let (w, acts) = wait_run(initial_waiter(max_attempts), events);
            &&& acts.last() == WaitAction::Ready { attempts: k as u32 }
            &&& forall|i: int| 0 <= i < acts.len() - 1 ==> !is_terminal(#[trigger] acts[i])
            &&& probe_requests(acts) == k
            &&& w.phase == WaitPhase::Finished
        }),
{
    let m = (k - 1) as nat;
    lemma_failing_polls(max_attempts, m);
    let prev = failing_polls(m);
    let events = prev.push(WaitEvent::Probed(true));
    assert(events.drop_last() =~= prev);
    let (w1, acts1) = wait_run(initial_waiter(max_attempts), prev);
    let (w, acts) = wait_run(initial_waiter(max_attempts), events);
    assert(acts.drop_last() =~= acts1);
    assert forall|i: int| 0 <= i < acts.len() - 1 implies !is_terminal(#[trigger] acts[i]) by {
        assert(acts[i] == acts1[i]);
    }
}

/// A backend that never answers is given up on after exactly `max_attempts`
/// probes, with `TimedOut { attempts: max_attempts }` as the first final
/// answer; the waiter is then finished.
pub proof fn lemma_times_out_after_max_probes(max_attempts: u32)
    ensures
        ({
            let (w, acts) = wait_run(initial_waiter(max_attempts), failing_polls(max_attempts as nat));
            &&& acts.last() == WaitAction::TimedOut { attempts: max_attempts }
            &&& forall|i: int| 0 <= i < acts.len() - 1 ==> !is_terminal(#[trigger] acts[i])
            &&& probe_requests(acts) == max_attempts
            &&& w.phase == WaitPhase::Finished
        }),
{
    lemma_failing_polls(max_attempts, max_attempts as nat);
}

/// A finished waiter ignores every further event: it never polls again.
pub proof fn lemma_finished_waiter_is_inert(w: ReadinessWaiter, events: Seq<WaitEvent>)
    requires
        w.phase == WaitPhase::Finished,
    ensures
        wait_run(w, events).0 == w,
        forall|i: int| 0 <= i < events.len() ==> #[trigger] wait_run(w, events).1[i] == WaitAction::Ignore,
        wait_run(w, events).1.len() == events.len(),
    decreases events.len(),
{
    if events.len() > 0 {
        lemma_finished_waiter_is_inert(w, events.drop_last());
    }
}

} // verus!
