//! The startup sequence as a state machine. The host application reports each
//! event; `Startup::step` answers with the actions to perform, in order.
//!
//! Successful startup: `Begin`, one `CapabilityAttached` per registry entry,
//! then `SetupInvoked` once the shell calls the setup hook, which it does
//! inside its run loop before accepting any event. Any failure is fatal.
use vstd::prelude::*;
use crate::threshold::LogThreshold;
use crate::registry::{Capability, spec_registry, capability_registry};
use crate::diagnostics::{diagnostic_key, diagnostic_filter, spec_diagnostic_key, spec_diagnostic_filter};

verus! {

#[derive(Clone, Copy, Debug, PartialEq, Eq, Structural)]
pub enum Phase {
    /// Nothing done yet.
    Idle,
    /// Attaching the registry's capabilities; `attached` of them are done.
    Attaching,
    /// Hook installed and run loop entered; waiting for the setup hook.
    AwaitingSetup,
    /// The setup hook has run; the run loop owns the process.
    Running,
    /// A fatal error was reported; nothing more happens.
    Failed,
}

#[derive(Clone, Copy, Debug, PartialEq, Eq, Structural)]
pub enum StartupEvent {
    Begin,
    CapabilityAttached,
    CapabilityFailed,
    SetupInvoked,
    /// The shell's run operation returned an error.
    RunFailed,
}

/// An informational record emitted by the setup hook.
#[derive(Clone, Copy, Debug, PartialEq, Eq, Structural)]
pub enum InfoRecord {
    /// Startup confirmation.
    Started,
    /// How to reproduce the diagnostic filter by hand.
    FilterHint,
}

impl InfoRecord {
    pub open spec fn spec_message(self) -> Seq<char> {
        match self {
            InfoRecord::Started => "Test-Pilot application started with HTTP logging enabled"@,
            InfoRecord::FilterHint => "Set "@ + spec_diagnostic_key() + "="@ + spec_diagnostic_filter()
                + " for HTTP request logging"@,
        }
    }

    /// The text of the record.
    pub fn message(&self) -> (r: String)
        ensures
            r@ == self.spec_message(),
    {
        match self {
            InfoRecord::Started => String::from_str(
                "Test-Pilot application started with HTTP logging enabled",
            ),
            InfoRecord::FilterHint => {
                let mut r = String::from_str("Set ");
                r.append(diagnostic_key());
                r.append("=");
                r.append(diagnostic_filter().as_str());
                r.append(" for HTTP request logging");
                r
            },
        }
    }
}

#[derive(Clone, Copy, Debug, PartialEq, Eq, Structural)]
pub enum FatalCause {
    CapabilityConstruction(Capability),
    ShellConstruction,
    RunLoop,
}

impl FatalCause {
    pub open spec fn spec_message(self) -> Seq<char> {
        match self {
            FatalCause::CapabilityConstruction(c) => "failed to construct capability "@ + c.spec_name(),
            FatalCause::ShellConstruction => "error while running tauri application"@,
            FatalCause::RunLoop => "error while running tauri application"@,
        }
    }

    /// The text of the fatal message.
    pub fn message(&self) -> (r: String)
        ensures
            r@ == self.spec_message(),
    {
        match self {
            FatalCause::CapabilityConstruction(c) => {
                let mut r = String::from_str("failed to construct capability ");
                r.append(c.name());
                r
            },
            FatalCause::ShellConstruction => String::from_str("error while running tauri application"),
            FatalCause::RunLoop => String::from_str("error while running tauri application"),
        }
    }
}

#[derive(Clone, Copy, Debug, PartialEq, Eq, Structural)]
pub enum StartupAction {
    Attach(Capability),
    InstallSetupHook,
    EnterRunLoop,
    /// Write the diagnostic filter under the diagnostic key.
    PublishFilter,
    EmitInfo(InfoRecord),
    /// Emit a fatal-level message and terminate the process.
    Fatal(FatalCause),
}

#[derive(Clone, Copy, Debug, PartialEq, Eq, Structural)]
pub struct Startup {
    pub phase: Phase,
    /// How many capabilities of the registry are attached.
    pub attached: usize,
    /// The threshold of the logging capability.
    pub threshold: LogThreshold,
}

/// Every action of a successful startup, in order.
pub open spec fn startup_sequence(threshold: LogThreshold) -> Seq<StartupAction> {
    let reg = spec_registry(threshold);
    seq![
        StartupAction::Attach(reg[0]),
        StartupAction::Attach(reg[1]),
        StartupAction::InstallSetupHook,
        StartupAction::EnterRunLoop,
        StartupAction::PublishFilter,
        StartupAction::EmitInfo(InfoRecord::Started),
        StartupAction::EmitInfo(InfoRecord::FilterHint),
    ]
}

pub open spec fn initial(threshold: LogThreshold) -> Startup {
    Startup { phase: Phase::Idle, attached: 0, threshold }
}

/// What one event does: the next state and the actions, in order.
pub open spec fn step_spec(s: Startup, ev: StartupEvent) -> (Startup, Seq<StartupAction>) {
    let reg = spec_registry(s.threshold);
    match (s.phase, ev) {
        (Phase::Idle, StartupEvent::Begin) => (
            Startup { phase: Phase::Attaching, attached: 0, ..s },
            seq![StartupAction::Attach(reg[0])],
        ),
        (Phase::Attaching, StartupEvent::CapabilityAttached) => if s.attached + 1 < reg.len() {
            (
                Startup { attached: (s.attached + 1) as usize, ..s },
                seq![StartupAction::Attach(reg[s.attached + 1])],
            )
        } else {
            (
                Startup { phase: Phase::AwaitingSetup, attached: (s.attached + 1) as usize, ..s },
                seq![StartupAction::InstallSetupHook, StartupAction::EnterRunLoop],
            )
        },
        (Phase::Attaching, StartupEvent::CapabilityFailed) => (
            Startup { phase: Phase::Failed, ..s },
            seq![StartupAction::Fatal(FatalCause::CapabilityConstruction(reg[s.attached as int]))],
        ),
        (Phase::AwaitingSetup, StartupEvent::SetupInvoked) => (
            Startup { phase: Phase::Running, ..s },
            seq![
                StartupAction::PublishFilter,
                StartupAction::EmitInfo(InfoRecord::Started),
                StartupAction::EmitInfo(InfoRecord::FilterHint),
            ],
        ),
        (Phase::AwaitingSetup, StartupEvent::RunFailed) => (
            Startup { phase: Phase::Failed, ..s },
            seq![StartupAction::Fatal(FatalCause::ShellConstruction)],
        ),
        (Phase::Running, StartupEvent::RunFailed) => (
            Startup { phase: Phase::Failed, ..s },
            seq![StartupAction::Fatal(FatalCause::RunLoop)],
        ),
        _ => (s, Seq::empty()),
    }
}

/// The state reached and the actions produced by `events`, starting at `s`.
pub open spec fn run_from(s: Startup, events: Seq<StartupEvent>) -> (Startup, Seq<StartupAction>)
    decreases events.len(),
{
    if events.len() == 0 {
        (s, Seq::empty())
    } else {
        let (s1, a1) = run_from(s, events.drop_last());
        let (s2, a2) = step_spec(s1, events.last());
        (s2, a1 + a2)
    }
}

/// A whole run from the initial state.
pub open spec fn run(threshold: LogThreshold, events: Seq<StartupEvent>) -> (Startup, Seq<StartupAction>) {
    run_from(initial(threshold), events)
}

impl Startup {
    pub open spec fn wf(self) -> bool {
        &&& self.attached <= 2
        &&& self.phase == Phase::Attaching ==> self.attached < 2
    }

    pub fn new(threshold: LogThreshold) -> (r: Startup)
        ensures
            r == initial(threshold),
            r.wf(),
    {
        Startup { phase: Phase::Idle, attached: 0, threshold }
    }

    pub fn step(&mut self, event: StartupEvent) -> (r: Vec<StartupAction>)
        requires
            old(self).wf(),
        ensures
            (*final(self), r@) == step_spec(*old(self), event),
            final(self).wf(),
    {
        let reg = capability_registry(self.threshold);
        let r = match (self.phase, event) {
            (Phase::Idle, StartupEvent::Begin) => {
                self.phase = Phase::Attaching;
                self.attached = 0;
                vec![StartupAction::Attach(reg[0])]
            },
            (Phase::Attaching, StartupEvent::CapabilityAttached) => {
                let next = self.attached + 1;
                self.attached = next;
                if next < reg.len() {
                    vec![StartupAction::Attach(reg[next])]
                } else {
                    self.phase = Phase::AwaitingSetup;
                    vec![StartupAction::InstallSetupHook, StartupAction::EnterRunLoop]
                }
            },
            (Phase::Attaching, StartupEvent::CapabilityFailed) => {
                self.phase = Phase::Failed;
                vec![StartupAction::Fatal(FatalCause::CapabilityConstruction(reg[self.attached]))]
            },
            (Phase::AwaitingSetup, StartupEvent::SetupInvoked) => {
                self.phase = Phase::Running;
                vec![
                    StartupAction::PublishFilter,
                    StartupAction::EmitInfo(InfoRecord::Started),
                    StartupAction::EmitInfo(InfoRecord::FilterHint),
                ]
            },
            (Phase::AwaitingSetup, StartupEvent::RunFailed) => {
                self.phase = Phase::Failed;
                vec![StartupAction::Fatal(FatalCause::ShellConstruction)]
            },
            (Phase::Running, StartupEvent::RunFailed) => {
                self.phase = Phase::Failed;
                vec![StartupAction::Fatal(FatalCause::RunLoop)]
            },
            _ => Vec::new(),
        };
        assert(r@ =~= step_spec(*old(self), event).1);
        r
    }
}

/// The actions of a run from the initial state.
pub open spec fn actions_of(threshold: LogThreshold, events: Seq<StartupEvent>) -> Seq<StartupAction> {
    run(threshold, events).1
}

/// The state a run from the initial state ends in.
pub open spec fn state_of(threshold: LogThreshold, events: Seq<StartupEvent>) -> Startup {
    run(threshold, events).0
}

/// Where in `acts` the informational records stand.
pub open spec fn info_positions(acts: Seq<StartupAction>) -> Set<int> {
    Set::new(|i: int| 0 <= i < acts.len() && acts[i] is EmitInfo)
}

/// The fatal action of a run that fails after `n` actions of the startup
/// sequence.
spec fn fatal_after(threshold: LogThreshold, n: int) -> StartupAction {
    let reg = spec_registry(threshold);
    if n == 1 {
        StartupAction::Fatal(FatalCause::CapabilityConstruction(reg[0]))
    } else if n == 2 {
        StartupAction::Fatal(FatalCause::CapabilityConstruction(reg[1]))
    } else if n == 4 {
        StartupAction::Fatal(FatalCause::ShellConstruction)
    } else {
        StartupAction::Fatal(FatalCause::RunLoop)
    }
}

/// What a run has produced so far, by the state it is in: a prefix of the
/// startup sequence, and after a failure one fatal action behind it.
spec fn run_inv(s: Startup, acts: Seq<StartupAction>) -> bool {
    let c = startup_sequence(s.threshold);
    let reg = spec_registry(s.threshold);
    &&& s.wf()
    &&& match s.phase {
        Phase::Idle => acts.len() == 0,
        Phase::Attaching => acts == c.take(s.attached + 1),
        Phase::AwaitingSetup => acts == c.take(4) && s.attached == 2,
        Phase::Running => acts == c && s.attached == 2,
        Phase::Failed => {
            let n = acts.len() - 1;
            &&& (n == 1 || n == 2 || n == 4 || n == 7)
            &&& acts.drop_last() == c.take(n)
            &&& acts.last() == fatal_after(s.threshold, n)
        },
    }
}

proof fn lemma_step_keeps_inv(s: Startup, acts: Seq<StartupAction>, ev: StartupEvent)
    requires
        run_inv(s, acts),
    ensures
        run_inv(step_spec(s, ev).0, acts + step_spec(s, ev).1),
        step_spec(s, ev).0.threshold == s.threshold,
{
    lemma_sequence_shape(s.threshold);
    let c = startup_sequence(s.threshold);
    let (s2, a2) = step_spec(s, ev);
    let next = acts + a2;
    if a2.len() == 1 {
        assert(next.drop_last() =~= acts);
    }
    if a2.len() == 0 {
        assert(next =~= acts);
    }
    match (s.phase, ev) {
        (Phase::Idle, StartupEvent::Begin) => {
            assert(next =~= c.take(1));
        },
        (Phase::Attaching, StartupEvent::CapabilityAttached) => {
            if s.attached == 0 {
                assert(next =~= c.take(2));
            } else {
                assert(next =~= c.take(4));
            }
        },
        (Phase::Attaching, StartupEvent::CapabilityFailed) => {
            assert(next.len() - 1 == s.attached + 1);
        },
        (Phase::AwaitingSetup, StartupEvent::SetupInvoked) => {
            assert(next =~= c);
        },
        (Phase::Running, StartupEvent::RunFailed) => {
            assert(c.take(7) =~= c);
        },
        _ => {},
    }
}

proof fn lemma_run_inv(threshold: LogThreshold, events: Seq<StartupEvent>)
    ensures
        run_inv(state_of(threshold, events), actions_of(threshold, events)),
        state_of(threshold, events).threshold == threshold,
    decreases events.len(),
{
    if events.len() == 0 {
        assert(run_inv(initial(threshold), Seq::empty()));
    } else {
        lemma_run_inv(threshold, events.drop_last());
        let (s1, a1) = run(threshold, events.drop_last());
        lemma_step_keeps_inv(s1, a1, events.last());
    }
}

proof fn lemma_failed_stays(threshold: LogThreshold, events: Seq<StartupEvent>, more: Seq<StartupEvent>)
    requires
        state_of(threshold, events).phase == Phase::Failed,
    ensures
        run(threshold, events + more) == run(threshold, events),
    decreases more.len(),
{
    if more.len() == 0 {
        assert(events + more =~= events);
    } else {
        assert((events + more).drop_last() =~= events + more.drop_last());
        lemma_failed_stays(threshold, events, more.drop_last());
        assert(step_spec(state_of(threshold, events), more.last()).1 =~= Seq::empty());
        assert(actions_of(threshold, events) + Seq::empty() =~= actions_of(threshold, events));
    }
}

proof fn lemma_sequence_shape(threshold: LogThreshold)
    ensures
        startup_sequence(threshold).len() == 7,
        forall|i: int|
            0 <= i < 7 ==> {
                let a = #[trigger] startup_sequence(threshold)[i];
                &&& !(a is Fatal)
                &&& (a == StartupAction::PublishFilter <==> i == 4)
                &&& (a is EmitInfo <==> (i == 5 || i == 6))
            },
{
    let c = startup_sequence(threshold);
    assert forall|i: int| 0 <= i < 7 implies {
        let a = #[trigger] c[i];
        &&& !(a is Fatal)
        &&& (a == StartupAction::PublishFilter <==> i == 4)
        &&& (a is EmitInfo <==> (i == 5 || i == 6))
    } by {
        assert(i == 0 || i == 1 || i == 2 || i == 3 || i == 4 || i == 5 || i == 6);
    }
}

/// Startup order. Whatever the events, every action but a fatal one is the
/// action at its place in the startup sequence: the HTTP capability is
/// attached, then logging, then the setup hook is installed and the run loop
/// entered, and only then does the hook publish the filter and emit its
/// records. A fatal action can only be the last one. The run loop serves
/// events (`Running`) only once the whole sequence is done.
pub proof fn lemma_startup_order(threshold: LogThreshold, events: Seq<StartupEvent>)
    ensures
        actions_of(threshold, events).len() <= startup_sequence(threshold).len() + 1,
        forall|i: int|
            0 <= i < actions_of(threshold, events).len() && !(actions_of(threshold, events)[i] is Fatal)
                ==> actions_of(threshold, events)[i] == startup_sequence(threshold)[i],
        forall|i: int|
            0 <= i < actions_of(threshold, events).len() && !(actions_of(threshold, events)[i] is Fatal)
                ==> i < startup_sequence(threshold).len(),
        forall|i: int|
            0 <= i < actions_of(threshold, events).len() - 1 ==> !(actions_of(threshold, events)[i] is Fatal),
        state_of(threshold, events).phase == Phase::Running ==> actions_of(threshold, events)
            == startup_sequence(threshold),
{
    lemma_run_inv(threshold, events);
    lemma_sequence_shape(threshold);
    let acts = actions_of(threshold, events);
    let c = startup_sequence(threshold);
    if state_of(threshold, events).phase == Phase::Failed {
        let p = acts.drop_last();
        assert forall|i: int| 0 <= i < acts.len() - 1 implies acts[i] == c[i] && !(acts[i] is Fatal) by {
            assert(acts[i] == p[i]);
            assert(p[i] == c[i]);
        }
    }
}

/// The setup hook runs at most once in any run, and exactly once in a run that
/// reached the run loop: the filter is published once.
pub proof fn lemma_setup_runs_once(threshold: LogThreshold, events: Seq<StartupEvent>)
    ensures
        forall|i: int, j: int|
            0 <= i < actions_of(threshold, events).len() && 0 <= j < actions_of(threshold, events).len()
                && actions_of(threshold, events)[i] == StartupAction::PublishFilter
                && actions_of(threshold, events)[j] == StartupAction::PublishFilter ==> i == j,
        state_of(threshold, events).phase == Phase::Running ==> actions_of(threshold, events).contains(
            StartupAction::PublishFilter,
        ),
{
    lemma_startup_order(threshold, events);
    lemma_sequence_shape(threshold);
    let acts = actions_of(threshold, events);
    if state_of(threshold, events).phase == Phase::Running {
        assert(acts[4] == StartupAction::PublishFilter);
    }
}

/// Exactly two informational records in a successful startup, and no others
/// whatever comes after: they stand right after the filter is published, and
/// a failure of the run loop later adds none.
pub proof fn lemma_two_info_records(threshold: LogThreshold, events: Seq<StartupEvent>)
    ensures
        info_positions(actions_of(threshold, events)).subset_of(set![5int, 6int]),
        actions_of(threshold, events).len() >= startup_sequence(threshold).len() ==> info_positions(
            actions_of(threshold, events),
        ) == set![5int, 6int],
        state_of(threshold, events).phase == Phase::Running ==> actions_of(threshold, events).len()
            == startup_sequence(threshold).len(),
{
    lemma_startup_order(threshold, events);
    lemma_run_inv(threshold, events);
    lemma_sequence_shape(threshold);
    let acts = actions_of(threshold, events);
    let c = startup_sequence(threshold);
    assert forall|i: int| info_positions(acts).contains(i) implies i == 5 || i == 6 by {
        assert(acts[i] == c[i]);
    }
    if acts.len() >= 7 {
        if state_of(threshold, events).phase == Phase::Failed {
            assert(acts.drop_last() == c.take(7));
            assert(acts[5] == acts.drop_last()[5]);
            assert(acts[6] == acts.drop_last()[6]);
        }
        assert(info_positions(acts).contains(5));
        assert(info_positions(acts).contains(6));
        assert(info_positions(acts) =~= set![5int, 6int]);
    }
}

/// A capability that fails to construct ends the startup: the fatal action
/// follows the attachments made so far, the setup hook is never installed nor
/// the run loop entered, and no later event changes anything.
pub proof fn lemma_capability_failure_is_fatal(
    threshold: LogThreshold,
    events: Seq<StartupEvent>,
    more: Seq<StartupEvent>,
)
    requires
        state_of(threshold, events).phase == Phase::Attaching,
    ensures
        state_of(threshold, events.push(StartupEvent::CapabilityFailed) + more).phase == Phase::Failed,
        actions_of(threshold, events.push(StartupEvent::CapabilityFailed) + more) == actions_of(
            threshold,
            events,
        ).push(
            StartupAction::Fatal(
                FatalCause::CapabilityConstruction(
                    spec_registry(threshold)[state_of(threshold, events).attached as int],
                ),
            ),
        ),
        forall|i: int|
            0 <= i < actions_of(threshold, events.push(StartupEvent::CapabilityFailed) + more).len()
                ==> actions_of(threshold, events.push(StartupEvent::CapabilityFailed) + more)[i] is Attach
                || actions_of(threshold, events.push(StartupEvent::CapabilityFailed) + more)[i] is Fatal,
{
    lemma_run_inv(threshold, events);
    let failed = events.push(StartupEvent::CapabilityFailed);
    assert(failed.drop_last() =~= events);
    let acts = actions_of(threshold, events);
    assert(actions_of(threshold, failed) =~= acts.push(
        StartupAction::Fatal(
            FatalCause::CapabilityConstruction(
                spec_registry(threshold)[state_of(threshold, events).attached as int],
            ),
        ),
    ));
    lemma_failed_stays(threshold, failed, more);
}

} // verus!
