use vstd::prelude::*;
use crate::config::STARTUP_DELAY_SECS;

verus! {

/// Where the startup sequence stands.
#[derive(Clone, Copy, PartialEq, Eq, Structural, Debug)]
pub enum StartupPhase {
    Init,
    Delaying,
    Probing,
    EmbeddedLaunching,
    FallbackLaunching,
    /// The backend was up before anything was launched.
    AlreadyRunning,
    /// The embedded backend was started.
    Launched,
    /// The external backend was started after the embedded launch failed.
    FallbackLaunched,
    /// Both launch strategies failed.
    Failed,
}

/// What the host reports back to the startup sequence.
#[derive(Clone, Copy, PartialEq, Eq, Structural, Debug)]
pub enum StartupEvent {
    Begin,
    DelayElapsed,
    /// The health probe came back with this reachability.
    ProbeDone(bool),
    /// The embedded launch ended, successfully or not.
    EmbeddedDone(bool),
    /// The external launch ended, successfully or not.
    FallbackDone(bool),
}

/// What the host is asked to do next.
#[derive(Clone, Copy, PartialEq, Eq, Structural, Debug)]
pub enum StartupAction {
    Sleep { secs: u64 },
    Probe,
    LaunchEmbedded,
    LaunchExternal,
    /// The sequence is over; the phase tells how it ended.
    Finish,
    /// The event did not fit the phase; nothing changes.
    Ignore,
}

pub open spec fn is_finished(p: StartupPhase) -> bool {
    p is AlreadyRunning || p is Launched || p is FallbackLaunched || p is Failed
}

/// One transition of the startup sequence.
pub open spec fn startup_step(p: StartupPhase, e: StartupEvent) -> (StartupPhase, StartupAction) {
    match (p, e) {
        (StartupPhase::Init, StartupEvent::Begin) => (
            StartupPhase::Delaying,
            StartupAction::Sleep { secs: STARTUP_DELAY_SECS },
        ),
        (StartupPhase::Delaying, StartupEvent::DelayElapsed) => (
            StartupPhase::Probing,
            StartupAction::Probe,
        ),
        (StartupPhase::Probing, StartupEvent::ProbeDone(up)) => if up {
            (StartupPhase::AlreadyRunning, StartupAction::Finish)
        } else {
            (StartupPhase::EmbeddedLaunching, StartupAction::LaunchEmbedded)
        },
        (StartupPhase::EmbeddedLaunching, StartupEvent::EmbeddedDone(ok)) => if ok {
            (StartupPhase::Launched, StartupAction::Finish)
        } else {
            (StartupPhase::FallbackLaunching, StartupAction::LaunchExternal)
        },
        (StartupPhase::FallbackLaunching, StartupEvent::FallbackDone(ok)) => if ok {
            (StartupPhase::FallbackLaunched, StartupAction::Finish)
        } else {
            (StartupPhase::Failed, StartupAction::Finish)
        },
        _ => (p, StartupAction::Ignore),
    }
}

/// The phase after a sequence of events, with the actions asked for.
pub open spec fn startup_run(p: StartupPhase, events: Seq<StartupEvent>) -> (
    StartupPhase,
    Seq<StartupAction>,
)
    decreases events.len(),
{
    if events.len() == 0 {
        (p, Seq::empty())
    } else {
        let (p1, acts) = startup_run(p, events.drop_last());
        let (p2, a) = startup_step(p1, events.last());
        (p2, acts.push(a))
    }
}

/// How many times an action was asked for.
pub open spec fn count_action(acts: Seq<StartupAction>, which: StartupAction) -> nat
    decreases acts.len(),
{
    if acts.len() == 0 {
        0
    } else {
        count_action(acts.drop_last(), which) + if acts.last() == which {
            1nat
        } else {
            0nat
        }
    }
}

pub open spec fn is_launch(a: StartupAction) -> bool {
    a is LaunchEmbedded || a is LaunchExternal
}

/// The run-once startup sequence: pause, probe, and only when the backend
/// is down launch the embedded binary, falling back to an external one.
pub struct StartupSequence {
    pub phase: StartupPhase,
}

impl StartupSequence {
    pub fn new() -> (r: StartupSequence)
        ensures
            r.phase == StartupPhase::Init,
    {
        StartupSequence { phase: StartupPhase::Init }
    }

    /// Takes in one event and returns the action the host performs next.
    pub fn on_event(&mut self, e: StartupEvent) -> (r: StartupAction)
        ensures
            (final(self).phase, r) == startup_step(old(self).phase, e),
    {
        let (next, action) = match (self.phase, e) {
            (StartupPhase::Init, StartupEvent::Begin) => (
                StartupPhase::Delaying,
                StartupAction::Sleep { secs: STARTUP_DELAY_SECS },
            ),
            (StartupPhase::Delaying, StartupEvent::DelayElapsed) => (
                StartupPhase::Probing,
                StartupAction::Probe,
            ),
            (StartupPhase::Probing, StartupEvent::ProbeDone(up)) => if up {
                (StartupPhase::AlreadyRunning, StartupAction::Finish)
            } else {
                (StartupPhase::EmbeddedLaunching, StartupAction::LaunchEmbedded)
            },
            (StartupPhase::EmbeddedLaunching, StartupEvent::EmbeddedDone(ok)) => if ok {
                (StartupPhase::Launched, StartupAction::Finish)
            } else {
                (StartupPhase::FallbackLaunching, StartupAction::LaunchExternal)
            },
            (StartupPhase::FallbackLaunching, StartupEvent::FallbackDone(ok)) => if ok {
                (StartupPhase::FallbackLaunched, StartupAction::Finish)
            } else {
                (StartupPhase::Failed, StartupAction::Finish)
            },
            _ => (self.phase, StartupAction::Ignore),
        };
        self.phase = next;
        action
    }
}

proof fn lemma_run_push(p: StartupPhase, events: Seq<StartupEvent>, e: StartupEvent)
    ensures
        startup_run(p, events.push(e)) == ({
            let (q, acts) = startup_run(p, events);
            let (r, a) = startup_step(q, e);
            (r, acts.push(a))
        }),
{
    assert(events.push(e).drop_last() =~= events);
}

proof fn lemma_count_push(acts: Seq<StartupAction>, a: StartupAction, which: StartupAction)
    ensures
        count_action(acts.push(a), which) == count_action(acts, which) + if a == which {
            1nat
        } else {
            0nat
        },
{
    assert(acts.push(a).drop_last() =~= acts);
}

/// Runs on a prefix and then on more events compose.
proof fn lemma_run_append(p: StartupPhase, prefix: Seq<StartupEvent>, rest: Seq<StartupEvent>)
    ensures
        startup_run(p, prefix + rest).0 == startup_run(startup_run(p, prefix).0, rest).0,
        startup_run(p, prefix + rest).1 == startup_run(p, prefix).1 + startup_run(
            startup_run(p, prefix).0,
            rest,
        ).1,
    decreases rest.len(),
{
    if rest.len() == 0 {
        assert(prefix + rest =~= prefix);
        assert(startup_run(p, prefix).1 + Seq::<StartupAction>::empty() =~= startup_run(
            p,
            prefix,
        ).1);
    } else {
        assert((prefix + rest).drop_last() =~= prefix + rest.drop_last());
        lemma_run_append(p, prefix, rest.drop_last());
        let a = startup_run(p, prefix).1;
        let b = startup_run(startup_run(p, prefix).0, rest.drop_last()).1;
        let (q, _) = startup_run(startup_run(p, prefix).0, rest.drop_last());
        let x = startup_step(q, rest.last()).1;
        assert((a + b).push(x) =~= a + b.push(x));
    }
}

/// A finished sequence stays finished and asks for nothing.
proof fn lemma_finished_is_inert(p: StartupPhase, events: Seq<StartupEvent>)
    requires
        is_finished(p),
    ensures
        startup_run(p, events).0 == p,
        startup_run(p, events).1.len() == events.len(),
        forall|i: int|
            0 <= i < events.len() ==> #[trigger] startup_run(p, events).1[i]
                == StartupAction::Ignore,
    decreases events.len(),
{
    if events.len() > 0 {
        lemma_finished_is_inert(p, events.drop_last());
    }
}

/// While the external launch is under way, only its own outcome moves the
/// sequence on, and nothing is launched again.
proof fn lemma_fallback_launches_nothing(events: Seq<StartupEvent>, which: StartupAction)
    requires
        is_launch(which),
    ensures
        count_action(startup_run(StartupPhase::FallbackLaunching, events).1, which) == 0,
        ({
            let p = startup_run(StartupPhase::FallbackLaunching, events).0;
            p is FallbackLaunching || p is FallbackLaunched || p is Failed
        }),
    decreases events.len(),
{
    if events.len() > 0 {
        let prev = events.drop_last();
        lemma_fallback_launches_nothing(prev, which);
        assert(prev.push(events.last()) =~= events);
        lemma_run_push(StartupPhase::FallbackLaunching, prev, events.last());
        let (q, acts) = startup_run(StartupPhase::FallbackLaunching, prev);
        let (_, a) = startup_step(q, events.last());
        lemma_count_push(acts, a, which);
    }
}

proof fn lemma_count_concat(a: Seq<StartupAction>, b: Seq<StartupAction>, which: StartupAction)
    ensures
        count_action(a + b, which) == count_action(a, which) + count_action(b, which),
    decreases b.len(),
{
    if b.len() == 0 {
        assert(a + b =~= a);
    } else {
        assert((a + b).drop_last() =~= a + b.drop_last());
        lemma_count_concat(a, b.drop_last(), which);
    }
}

/// The opening events of a run in which the backend answers the first probe.
pub open spec fn up_at_startup() -> Seq<StartupEvent> {
    seq![StartupEvent::Begin, StartupEvent::DelayElapsed, StartupEvent::ProbeDone(true)]
}

/// The opening events of a run in which the backend is down and the
/// embedded launch fails.
pub open spec fn embedded_fails_at_startup() -> Seq<StartupEvent> {
    seq![
        StartupEvent::Begin,
        StartupEvent::DelayElapsed,
        StartupEvent::ProbeDone(false),
        StartupEvent::EmbeddedDone(false),
    ]
}

/// When the backend already answers the startup probe, nothing is launched,
/// whatever events follow: the sequence ends as `AlreadyRunning`.
pub proof fn lemma_running_backend_is_not_launched(rest: Seq<StartupEvent>)
    ensures
        ({
            let (p, acts) = startup_run(StartupPhase::Init, up_at_startup() + rest);
            &&& p == StartupPhase::AlreadyRunning
            &&& forall|i: int| 0 <= i < acts.len() ==> !is_launch(#[trigger] acts[i])
        }),
{
    let pre = up_at_startup();
    let e0 = Seq::<StartupEvent>::empty();
    let e1 = e0.push(StartupEvent::Begin);
    let e2 = e1.push(StartupEvent::DelayElapsed);
    assert(pre =~= e2.push(StartupEvent::ProbeDone(true)));
    lemma_run_push(StartupPhase::Init, e0, StartupEvent::Begin);
    lemma_run_push(StartupPhase::Init, e1, StartupEvent::DelayElapsed);
    lemma_run_push(StartupPhase::Init, e2, StartupEvent::ProbeDone(true));
    let a = startup_run(StartupPhase::Init, pre).1;
    assert(a =~= seq![
        StartupAction::Sleep { secs: STARTUP_DELAY_SECS },
        StartupAction::Probe,
        StartupAction::Finish,
    ]);
    lemma_run_append(StartupPhase::Init, pre, rest);
    lemma_finished_is_inert(StartupPhase::AlreadyRunning, rest);
    let (_, acts) = startup_run(StartupPhase::Init, pre + rest);
    let tail = startup_run(StartupPhase::AlreadyRunning, rest).1;
    assert forall|i: int| 0 <= i < acts.len() implies !is_launch(#[trigger] acts[i]) by {
        if i >= 3 {
            assert(acts[i] == tail[i - 3]);
        }
    }
}

/// When the backend is down and the embedded launch fails, the external
/// launch is asked for exactly once and the embedded one exactly once,
/// whatever events follow.
pub proof fn lemma_fallback_exactly_once(rest: Seq<StartupEvent>)
    ensures
        ({
            let (p, acts) = startup_run(StartupPhase::Init, embedded_fails_at_startup() + rest);
            &&& count_action(acts, StartupAction::LaunchExternal) == 1
            &&& count_action(acts, StartupAction::LaunchEmbedded) == 1
            &&& (p is FallbackLaunching || p is FallbackLaunched || p is Failed)
        }),
{
    let pre = embedded_fails_at_startup();
    let e0 = Seq::<StartupEvent>::empty();
    let e1 = e0.push(StartupEvent::Begin);
    let e2 = e1.push(StartupEvent::DelayElapsed);
    let e3 = e2.push(StartupEvent::ProbeDone(false));
    assert(pre =~= e3.push(StartupEvent::EmbeddedDone(false)));
    lemma_run_push(StartupPhase::Init, e0, StartupEvent::Begin);
    lemma_run_push(StartupPhase::Init, e1, StartupEvent::DelayElapsed);
    lemma_run_push(StartupPhase::Init, e2, StartupEvent::ProbeDone(false));
    lemma_run_push(StartupPhase::Init, e3, StartupEvent::EmbeddedDone(false));
    let a0 = Seq::<StartupAction>::empty();
    let a1 = a0.push(StartupAction::Sleep { secs: STARTUP_DELAY_SECS });
    let a2 = a1.push(StartupAction::Probe);
    let a3 = a2.push(StartupAction::LaunchEmbedded);
    let a4 = a3.push(StartupAction::LaunchExternal);
    assert(startup_run(StartupPhase::Init, pre) == (StartupPhase::FallbackLaunching, a4));
    let ext = StartupAction::LaunchExternal;
    let emb = StartupAction::LaunchEmbedded;
    lemma_count_push(a0, StartupAction::Sleep { secs: STARTUP_DELAY_SECS }, ext);
    lemma_count_push(a1, StartupAction::Probe, ext);
    lemma_count_push(a2, emb, ext);
    lemma_count_push(a3, ext, ext);
    lemma_count_push(a0, StartupAction::Sleep { secs: STARTUP_DELAY_SECS }, emb);
    lemma_count_push(a1, StartupAction::Probe, emb);
    lemma_count_push(a2, emb, emb);
    lemma_count_push(a3, ext, emb);
    lemma_run_append(StartupPhase::Init, pre, rest);
    lemma_fallback_launches_nothing(rest, StartupAction::LaunchExternal);
    lemma_fallback_launches_nothing(rest, StartupAction::LaunchEmbedded);
    let tail = startup_run(StartupPhase::FallbackLaunching, rest).1;
    lemma_count_concat(a4, tail, StartupAction::LaunchExternal);
    lemma_count_concat(a4, tail, StartupAction::LaunchEmbedded);
}

} // verus!
