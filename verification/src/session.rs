//! The session lifecycle driver.
//!
//! A run is a fixed choreography: open the transport, perform the discovery
//! round-trip, check that the required capability was advertised, create the
//! virtual pointer device, walk the command's plan, and finish after the
//! final round-trip. The driver is a step machine: it names the next action,
//! the caller performs it against the transport and reports success or
//! failure, and any failure is immediately fatal — no retries, no recovery.

use vstd::prelude::*;
use crate::command::{Command, Request, Step, plan_session, session_steps};

verus! {

/// The fatal conditions a session can end with.
#[derive(Clone, Copy, Debug, PartialEq, Eq, Structural)]
pub enum SessionError {
    /// The transport could not be opened.
    ConnectionFailed,
    /// Discovery completed without the required capability being advertised.
    CapabilityNotFound,
    /// The server rejected creation of the virtual pointer device.
    ObjectCreationFailed,
    /// A blocking round-trip failed.
    RoundtripFailed,
}

impl SessionError {
    /// The single-line diagnostic for each condition.
    pub open spec fn spec_message(self) -> Seq<char> {
        match self {
            SessionError::ConnectionFailed => "could not connect to the display server"@,
            SessionError::CapabilityNotFound => "zwlr_virtual_pointer_manager_v1 not found, does your compositor support it?"@,
            SessionError::ObjectCreationFailed => "the server rejected creation of the virtual pointer"@,
            SessionError::RoundtripFailed => "a round-trip to the display server failed"@,
        }
    }

    /// The single-line diagnostic to print before exiting with failure.
    pub fn message(&self) -> (m: &'static str)
        ensures
            m@ == self.spec_message(),
    {
        match self {
            SessionError::ConnectionFailed => "could not connect to the display server",
            SessionError::CapabilityNotFound => "zwlr_virtual_pointer_manager_v1 not found, does your compositor support it?",
            SessionError::ObjectCreationFailed => "the server rejected creation of the virtual pointer",
            SessionError::RoundtripFailed => "a round-trip to the display server failed",
        }
    }
}

/// How the caller reports an action's result.
#[derive(Clone, Copy, Debug, PartialEq, Eq, Structural)]
pub enum Outcome {
    Success,
    Failure,
}

/// Where the session stands.
#[derive(Clone, Copy, Debug, PartialEq, Eq, Structural)]
pub enum Phase {
    /// Nothing has happened yet.
    Start,
    /// The transport is open and registry enumeration was requested; the
    /// discovery round-trip is next.
    Discovering,
    /// Discovery completed; the capability check is next.
    Checking,
    /// The capability is bound; device creation is next.
    CreatingDevice,
    /// The device exists; `next` indexes the first plan step not yet taken.
    Running { next: usize },
    /// The plan completed, final round-trip included.
    Done,
    /// A step failed; the session is over.
    Failed { error: SessionError },
}

/// What the driver asks the caller to do next.
#[derive(Clone, Copy, Debug, PartialEq, Eq, Structural)]
pub enum Action {
    /// Open the transport and request registry enumeration.
    Connect,
    /// Perform the blocking discovery round-trip.
    InitialRoundtrip,
    /// Report whether discovery bound the required capability.
    CheckCapability,
    /// Create the virtual pointer device.
    CreateDevice,
    /// Emit one request on the device.
    EmitRequest { req: Request },
    /// Perform a blocking round-trip.
    Roundtrip,
    /// Suspend the thread between repeated clicks.
    SleepMs { ms: u64 },
    /// Exit with success.
    Finish,
    /// Exit with the given fatal condition.
    Abort { error: SessionError },
}

/// The driver's state, as contracts speak of it.
pub struct DriverModel {
    pub phase: Phase,
    pub steps: Seq<Step>,
}

/// The action a driver state calls for.
pub open spec fn spec_next_action(m: DriverModel) -> Action {
    match m.phase {
        Phase::Start => Action::Connect,
        Phase::Discovering => Action::InitialRoundtrip,
        Phase::Checking => Action::CheckCapability,
        Phase::CreatingDevice => Action::CreateDevice,
        Phase::Running { next } => if next < m.steps.len() {
            match m.steps[next as int] {
                Step::Emit { req } => Action::EmitRequest { req },
                Step::Roundtrip => Action::Roundtrip,
                Step::SleepMs { ms } => Action::SleepMs { ms },
            }
        } else {
            Action::Finish
        },
        Phase::Done => Action::Finish,
        Phase::Failed { error } => Action::Abort { error },
    }
}

/// The state after the pending action's outcome is reported. Every failure is
/// fatal at the point of occurrence; the terminal states absorb.
pub open spec fn spec_advance(m: DriverModel, o: Outcome) -> DriverModel {
    match m.phase {
        Phase::Start => DriverModel {
            phase: if o is Success {
                Phase::Discovering
            } else {
                Phase::Failed { error: SessionError::ConnectionFailed }
            },
            steps: m.steps,
        },
        Phase::Discovering => DriverModel {
            phase: if o is Success {
                Phase::Checking
            } else {
                Phase::Failed { error: SessionError::RoundtripFailed }
            },
            steps: m.steps,
        },
        Phase::Checking => DriverModel {
            phase: if o is Success {
                Phase::CreatingDevice
            } else {
                Phase::Failed { error: SessionError::CapabilityNotFound }
            },
            steps: m.steps,
        },
        Phase::CreatingDevice => DriverModel {
            phase: if o is Success {
                Phase::Running { next: 0 }
            } else {
                Phase::Failed { error: SessionError::ObjectCreationFailed }
            },
            steps: m.steps,
        },
        Phase::Running { next } => DriverModel {
            phase: if next < m.steps.len() {
                if o is Success {
                    Phase::Running { next: (next + 1) as usize }
                } else {
                    // Only a round-trip can fail here: emissions are
                    // fire-and-forget and a pause cannot fail.
                    Phase::Failed { error: SessionError::RoundtripFailed }
                }
            } else {
                Phase::Done
            },
            steps: m.steps,
        },
        Phase::Done => m,
        Phase::Failed { error } => m,
    }
}

/// The driver's start state for one command: nothing done yet, and the full
/// session plan — the command's steps closed by the single trailing frame and
/// the final round-trip — ahead.
pub open spec fn initial_model(cmd: Command) -> DriverModel {
    DriverModel { phase: Phase::Start, steps: session_steps(cmd) }
}

/// The actions a driver state produces when driven with the given outcomes:
/// the pending action, then whatever follows each reported outcome in turn.
pub open spec fn driver_actions(m: DriverModel, outcomes: Seq<Outcome>) -> Seq<Action>
    decreases outcomes.len(),
{
    if outcomes.len() == 0 {
        seq![spec_next_action(m)]
    } else {
        seq![spec_next_action(m)] + driver_actions(spec_advance(m, outcomes[0]), outcomes.drop_first())
    }
}

/// A failed session only ever asks the caller to abort, whatever else is
/// reported to it.
proof fn lemma_failed_only_aborts(m: DriverModel, outcomes: Seq<Outcome>, error: SessionError)
    requires
        m.phase == (Phase::Failed { error }),
    ensures
        forall|i: int|
            0 <= i < driver_actions(m, outcomes).len() ==> driver_actions(m, outcomes)[i] == (
            Action::Abort { error }),
    decreases outcomes.len(),
{
    if outcomes.len() == 0 {
    } else {
        lemma_failed_only_aborts(spec_advance(m, outcomes[0]), outcomes.drop_first(), error);
    }
}

/// Law: when the discovery round-trip fails, the session terminates before
/// the virtual pointer device is created and before any request is emitted.
/// After connecting and attempting the round-trip, the driver only ever asks
/// the caller to abort with the round-trip failure: no `CreateDevice` and no
/// `EmitRequest` action appears anywhere in the run.
pub proof fn lemma_initial_roundtrip_failure_aborts(cmd: Command, outcomes: Seq<Outcome>)
    requires
        outcomes.len() >= 2,
        outcomes[0] == Outcome::Success,
        outcomes[1] == Outcome::Failure,
    ensures
        driver_actions(initial_model(cmd), outcomes)[0] == Action::Connect,
        driver_actions(initial_model(cmd), outcomes)[1] == Action::InitialRoundtrip,
        forall|i: int|
            2 <= i < driver_actions(initial_model(cmd), outcomes).len()
                ==> driver_actions(initial_model(cmd), outcomes)[i] == (Action::Abort {
                error: SessionError::RoundtripFailed,
            }),
        forall|i: int|
            0 <= i < driver_actions(initial_model(cmd), outcomes).len()
                ==> driver_actions(initial_model(cmd), outcomes)[i] != Action::CreateDevice
                && !(driver_actions(initial_model(cmd), outcomes)[i] matches Action::EmitRequest {
                    ..
                }),
{
    let m0 = initial_model(cmd);
    let m1 = spec_advance(m0, Outcome::Success);
    let m2 = spec_advance(m1, Outcome::Failure);
    let rest = outcomes.drop_first().drop_first();
    let t = driver_actions(m0, outcomes);
    reveal_with_fuel(driver_actions, 3);
    assert(outcomes.drop_first()[0] == outcomes[1]);
    assert(driver_actions(m1, outcomes.drop_first()) == seq![Action::InitialRoundtrip]
        + driver_actions(m2, rest));
    assert(t =~= seq![Action::Connect, Action::InitialRoundtrip] + driver_actions(m2, rest));
    lemma_failed_only_aborts(m2, rest, SessionError::RoundtripFailed);
    assert(forall|i: int|
        2 <= i < t.len() ==> t[i] == #[trigger] driver_actions(m2, rest)[i - 2]);
}

/// The action one plan step calls for.
pub open spec fn step_action(s: Step) -> Action {
    match s {
        Step::Emit { req } => Action::EmitRequest { req },
        Step::Roundtrip => Action::Roundtrip,
        Step::SleepMs { ms } => Action::SleepMs { ms },
    }
}

/// A running driver whose remaining outcomes all succeed walks the rest of
/// the plan in order and then asks the caller to finish.
#[verifier::rlimit(50)]
proof fn lemma_running_success(m: DriverModel, outcomes: Seq<Outcome>)
    requires
        m.phase matches Phase::Running { next } && next <= m.steps.len() && outcomes.len()
            == m.steps.len() - next,
        m.steps.len() <= usize::MAX,
        forall|i: int| 0 <= i < outcomes.len() ==> outcomes[i] == Outcome::Success,
    ensures
        driver_actions(m, outcomes).len() == outcomes.len() + 1,
        forall|i: int|
            0 <= i < outcomes.len() ==> driver_actions(m, outcomes)[i] == step_action(
                m.steps[m.phase->Running_next + i],
            ),
        driver_actions(m, outcomes)[outcomes.len() as int] == Action::Finish,
    decreases outcomes.len(),
{
    let next = m.phase->Running_next as int;
    let t = driver_actions(m, outcomes);
    if outcomes.len() == 0 {
        assert(t == seq![Action::Finish]);
    } else {
        assert(outcomes[0] == Outcome::Success);
        let m2 = spec_advance(m, outcomes[0]);
        assert(m2.phase == (Phase::Running { next: (next + 1) as usize }));
        assert(forall|i: int|
            0 <= i < outcomes.drop_first().len() ==> #[trigger] outcomes.drop_first()[i]
                == outcomes[i + 1]);
        lemma_running_success(m2, outcomes.drop_first());
        let t2 = driver_actions(m2, outcomes.drop_first());
        assert(t == seq![step_action(m.steps[next])] + t2);
        assert(forall|i: int| 1 <= i < t.len() ==> t[i] == #[trigger] t2[i - 1]);
    }
}

/// Law: a run in which every action succeeds performs exactly the fixed
/// choreography — connect, discovery round-trip, capability check, device
/// creation — followed by the command's session plan, step for step and in
/// order (so two round-trips beyond the plan's own: the discovery one and the
/// final one inside the plan), and then exits with success.
pub proof fn lemma_all_success_run(cmd: Command, outcomes: Seq<Outcome>)
    requires
        outcomes.len() == session_steps(cmd).len() + 4,
        session_steps(cmd).len() <= usize::MAX,
        forall|i: int| 0 <= i < outcomes.len() ==> outcomes[i] == Outcome::Success,
    ensures
        driver_actions(initial_model(cmd), outcomes) == seq![
            Action::Connect,
            Action::InitialRoundtrip,
            Action::CheckCapability,
            Action::CreateDevice,
        ] + session_steps(cmd).map_values(|s: Step| step_action(s)).push(Action::Finish),
{
    let m0 = initial_model(cmd);
    let m1 = spec_advance(m0, Outcome::Success);
    let m2 = spec_advance(m1, Outcome::Success);
    let m3 = spec_advance(m2, Outcome::Success);
    let m4 = spec_advance(m3, Outcome::Success);
    assert(m4.phase == (Phase::Running { next: 0 }));
    let o1 = outcomes.drop_first();
    let o2 = o1.drop_first();
    let o3 = o2.drop_first();
    let rest = o3.drop_first();
    assert(o1[0] == outcomes[1] && o2[0] == outcomes[2] && o3[0] == outcomes[3]);
    assert(forall|i: int| 0 <= i < rest.len() ==> #[trigger] rest[i] == outcomes[i + 4]);
    lemma_running_success(m4, rest);
    let t4 = driver_actions(m4, rest);
    assert(driver_actions(m0, outcomes) == seq![Action::Connect] + driver_actions(m1, o1));
    assert(driver_actions(m1, o1) == seq![Action::InitialRoundtrip] + driver_actions(m2, o2));
    assert(driver_actions(m2, o2) == seq![Action::CheckCapability] + driver_actions(m3, o3));
    assert(driver_actions(m3, o3) == seq![Action::CreateDevice] + t4);
    assert(driver_actions(m0, outcomes) =~= seq![
        Action::Connect,
        Action::InitialRoundtrip,
        Action::CheckCapability,
        Action::CreateDevice,
    ] + session_steps(cmd).map_values(|s: Step| step_action(s)).push(Action::Finish));
}

/// The lifecycle driver for one session.
pub struct Driver {
    phase: Phase,
    steps: Vec<Step>,
}

impl View for Driver {
    type V = DriverModel;

    closed spec fn view(&self) -> DriverModel {
        DriverModel { phase: self.phase, steps: self.steps@ }
    }
}

impl Driver {
    /// A driver at the start of a run for one command.
    pub fn new(cmd: &Command) -> (d: Driver)
        ensures
            d@ == initial_model(*cmd),
    {
        Driver { phase: Phase::Start, steps: plan_session(cmd) }
    }

    /// The action the caller must perform next. `Finish` and `Abort` are
    /// terminal: the caller exits instead of reporting an outcome.
    pub fn next_action(&self) -> (a: Action)
        ensures
            a == spec_next_action(self@),
    {
        match self.phase {
            Phase::Start => Action::Connect,
            Phase::Discovering => Action::InitialRoundtrip,
            Phase::Checking => Action::CheckCapability,
            Phase::CreatingDevice => Action::CreateDevice,
            Phase::Running { next } => if next < self.steps.len() {
                match self.steps[next] {
                    Step::Emit { req } => Action::EmitRequest { req },
                    Step::Roundtrip => Action::Roundtrip,
                    Step::SleepMs { ms } => Action::SleepMs { ms },
                }
            } else {
                Action::Finish
            },
            Phase::Done => Action::Finish,
            Phase::Failed { error } => Action::Abort { error },
        }
    }

    /// Takes the reported outcome of the pending action and moves on. A
    /// failure is fatal on the spot; nothing is retried.
    pub fn advance(&mut self, outcome: Outcome)
        ensures
            final(self)@ == spec_advance(old(self)@, outcome),
    {
        let failed = matches!(outcome, Outcome::Failure);
        self.phase = match self.phase {
            Phase::Start => if failed {
                Phase::Failed { error: SessionError::ConnectionFailed }
            } else {
                Phase::Discovering
            },
            Phase::Discovering => if failed {
                Phase::Failed { error: SessionError::RoundtripFailed }
            } else {
                Phase::Checking
            },
            Phase::Checking => if failed {
                Phase::Failed { error: SessionError::CapabilityNotFound }
            } else {
                Phase::CreatingDevice
            },
            Phase::CreatingDevice => if failed {
                Phase::Failed { error: SessionError::ObjectCreationFailed }
            } else {
                Phase::Running { next: 0 }
            },
            Phase::Running { next } => if next < self.steps.len() {
                if failed {
                    Phase::Failed { error: SessionError::RoundtripFailed }
                } else {
                    Phase::Running { next: next + 1 }
                }
            } else {
                Phase::Done
            },
            Phase::Done => Phase::Done,
            Phase::Failed { error } => Phase::Failed { error },
        };
    }
}

} // verus!
