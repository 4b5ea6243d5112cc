//! The supervisor's state and the one way to stop the service.
//!
//! The state holds at most one service process. `stop` takes the process out
//! of the state in one step, so that of any number of callers only the first
//! is handed the process and the plan to terminate it; all others find the
//! slot empty. The caller keeps the state behind a lock and holds the lock
//! for the whole of each call.

use crate::error::SupervisorError;
use crate::lifecycle::{LaunchMode, LifecycleEvent, Phase};
use crate::port::AllPortsExhausted;
use crate::spawn::{plan_spawn, spawn_decision, SpawnCommand, SpawnCommandModel, SpawnError, TreeKill};
use vstd::prelude::*;

verus! {

/// The pause between the signal to the process group and the kill of the
/// primary process, in milliseconds: time for the descendants to go first.
pub const GRACE_DELAY_MS: u64 = 200;

/// The running service. `H` is the caller's handle to the operating system's
/// process; the library only keeps it.
#[derive(Debug, PartialEq, Eq)]
pub struct ServiceProcess<H> {
    pub pid: u32,
    pub port: u16,
    pub handle: H,
}

/// One step of terminating the service. A step that fails is logged and the
/// next one is taken all the same.
#[derive(Clone, Copy, Debug, PartialEq, Eq)]
pub enum StopStep {
    /// Send a terminate signal to the process group that the service leads.
    SignalGroup { group: u32 },
    /// Wait.
    Pause { millis: u64 },
    /// Kill the primary process.
    KillPrimary,
    /// Block until the operating system confirms that the primary process
    /// has exited, which is when its port is free again.
    AwaitExit,
}

/// What a call of `stop` found.
#[derive(Debug, PartialEq, Eq)]
pub enum StopOutcome<H> {
    /// The service was running. The caller now owns the process and carries
    /// out the plan, step by step.
    Stopped { process: ServiceProcess<H>, plan: Vec<StopStep> },
    /// There was no service to stop. Nothing was changed.
    NoOp,
}

pub enum StopOutcomeModel<H> {
    Stopped { process: ServiceProcess<H>, plan: Seq<StopStep> },
    NoOp,
}

impl<H> View for StopOutcome<H> {
    type V = StopOutcomeModel<H>;

    open spec fn view(&self) -> StopOutcomeModel<H> {
        match *self {
            StopOutcome::Stopped { process, plan } => StopOutcomeModel::Stopped {
                process,
                plan: plan@,
            },
            StopOutcome::NoOp => StopOutcomeModel::NoOp,
        }
    }
}

/// The steps that terminate the process `pid` and, where the platform can do
/// that, its descendants before it.
pub open spec fn termination_plan(pid: u32, tree_kill: TreeKill) -> Seq<StopStep> {
    match tree_kill {
        TreeKill::ProcessGroup => seq![
            StopStep::SignalGroup { group: pid },
            StopStep::Pause { millis: GRACE_DELAY_MS },
            StopStep::KillPrimary,
            StopStep::AwaitExit,
        ],
        TreeKill::Unsupported => seq![StopStep::KillPrimary, StopStep::AwaitExit],
    }
}

/// What is left to report of a shutdown whose kill or whose wait failed.
pub open spec fn shutdown_warnings(killed: bool, reaped: bool) -> Seq<SupervisorError> {
    let kill = if killed {
        Seq::<SupervisorError>::empty()
    } else {
        seq![SupervisorError::KillFailure]
    };
    let wait = if reaped {
        Seq::<SupervisorError>::empty()
    } else {
        seq![SupervisorError::WaitFailure]
    };
    kill + wait
}

/// The supervisor's state as a value.
pub struct SupervisorModel<H> {
    pub phase: Phase,
    /// The port that was allocated, once one was.
    pub port: Option<u16>,
    /// Whether the one spawn command of this lifetime was handed out.
    pub command_issued: bool,
    /// The service, while it runs.
    pub process: Option<ServiceProcess<H>>,
    pub tree_kill: TreeKill,
}

/// What a caller can do to the state.
pub enum Operation<H> {
    Launch(LaunchMode),
    RecordAllocation(Result<u16, AllPortsExhausted>),
    Spawn { binary_exists: bool, verbose: bool },
    Attach { pid: u32, handle: H },
    SpawnFailed,
    Stop,
    ConfirmStopped,
}

impl<H> SupervisorModel<H> {
    /// The state in which an application starts.
    pub open spec fn initial(tree_kill: TreeKill) -> Self {
        SupervisorModel {
            phase: Phase::NotStarted,
            port: None,
            command_issued: false,
            process: None,
            tree_kill,
        }
    }

    /// What holds of every state that is reached from `initial`.
    pub open spec fn wf(self) -> bool {
        &&& self.process is Some <==> self.phase == Phase::Running
        &&& self.process matches Some(process) ==> self.port == Some(process.port)
        &&& self.phase == Phase::NotStarted ==> self.port is None
        &&& self.command_issued ==> self.port is Some && self.phase != Phase::NotStarted
        &&& self.phase.rank() >= Phase::Running.rank() && self.phase != Phase::PortExhausted
            && self.phase != Phase::BinaryMissing ==> self.command_issued
    }

    /// The port that waits for a process: the allocated one, as long as the
    /// supervisor is starting and has not handed out its spawn command.
    pub open spec fn pending_port(self) -> Option<u16> {
        if self.phase == Phase::Starting && !self.command_issued {
            self.port
        } else {
            None
        }
    }

    pub open spec fn launch(self, mode: LaunchMode) -> Self {
        SupervisorModel { phase: self.phase.next(LifecycleEvent::Launched(mode)), ..self }
    }

    /// Takes note of how the port allocation ended. Outside `Starting` the
    /// news is ignored.
    pub open spec fn record_allocation(self, result: Result<u16, AllPortsExhausted>) -> Self {
        if self.phase != Phase::Starting || self.command_issued {
            self
        } else {
            match result {
                Ok(port) => SupervisorModel { port: Some(port), ..self },
                Err(_) => SupervisorModel {
                    phase: self.phase.next(LifecycleEvent::PortsExhausted),
                    ..self
                },
            }
        }
    }

    /// Decides on a spawn. A missing executable fails a start that is under
    /// way; a command, once handed out, is the only one.
    pub open spec fn spawn(self, binary_exists: bool, verbose: bool) -> (
        Self,
        Result<SpawnCommandModel, SpawnError>,
    ) {
        let decision = spawn_decision(binary_exists, self.pending_port(), verbose, self.tree_kill);
        let state = if !binary_exists {
            SupervisorModel { phase: self.phase.next(LifecycleEvent::BinaryNotFound), ..self }
        } else if decision is Ok {
            SupervisorModel { command_issued: true, ..self }
        } else {
            self
        };
        (state, decision)
    }

    /// Whether a process that the caller created would be taken in.
    pub open spec fn awaits_process(self) -> bool {
        self.phase == Phase::Starting && self.command_issued && self.port is Some
    }

    /// Takes in the process that the spawn command led to. A process that
    /// nothing asked for is handed back.
    pub open spec fn attach(self, pid: u32, handle: H) -> (Self, Result<(), H>) {
        if self.awaits_process() {
            (
                SupervisorModel {
                    phase: self.phase.next(LifecycleEvent::SpawnSucceeded),
                    process: Some(ServiceProcess { pid, port: self.port->0, handle }),
                    ..self
                },
                Ok(()),
            )
        } else {
            (self, Err(handle))
        }
    }

    /// Takes note that the operating system refused the spawn command.
    pub open spec fn spawn_failed(self) -> Self {
        if self.awaits_process() {
            SupervisorModel { phase: self.phase.next(LifecycleEvent::SpawnFailed), ..self }
        } else {
            self
        }
    }

    /// Takes the process out of the state, if there is one.
    pub open spec fn stop(self) -> (Self, StopOutcomeModel<H>) {
        match self.process {
            Some(process) => (
                SupervisorModel {
                    phase: self.phase.next(LifecycleEvent::StopRequested),
                    process: None,
                    ..self
                },
                StopOutcomeModel::Stopped {
                    process,
                    plan: termination_plan(process.pid, self.tree_kill),
                },
            ),
            None => (self, StopOutcomeModel::NoOp),
        }
    }

    /// Takes note that the plan of a stop was carried out to its end.
    pub open spec fn confirm_stopped(self) -> Self {
        SupervisorModel { phase: self.phase.next(LifecycleEvent::ProcessReaped), ..self }
    }

    pub open spec fn apply(self, op: Operation<H>) -> Self {
        match op {
            Operation::Launch(mode) => self.launch(mode),
            Operation::RecordAllocation(result) => self.record_allocation(result),
            Operation::Spawn { binary_exists, verbose } => self.spawn(binary_exists, verbose).0,
            Operation::Attach { pid, handle } => self.attach(pid, handle).0,
            Operation::SpawnFailed => self.spawn_failed(),
            Operation::Stop => self.stop().0,
            Operation::ConfirmStopped => self.confirm_stopped(),
        }
    }

    pub open spec fn apply_all(self, ops: Seq<Operation<H>>) -> Self
        decreases ops.len(),
    {
        if ops.len() == 0 {
            self
        } else {
            self.apply_all(ops.drop_last()).apply(ops.last())
        }
    }
}

/// The supervisor's state. It is made once, when the application starts, and
/// shared by everything that may start or stop the service.
pub struct SupervisorState<H> {
    phase: Phase,
    port: Option<u16>,
    command_issued: bool,
    process: Option<ServiceProcess<H>>,
    tree_kill: TreeKill,
}

impl<H> View for SupervisorState<H> {
    type V = SupervisorModel<H>;

    closed spec fn view(&self) -> SupervisorModel<H> {
        SupervisorModel {
            phase: self.phase,
            port: self.port,
            command_issued: self.command_issued,
            process: self.process,
            tree_kill: self.tree_kill,
        }
    }
}

impl<H> SupervisorState<H> {
    #[verifier::type_invariant]
    spec fn inv(self) -> bool {
        self@.wf()
    }

    pub fn new(tree_kill: TreeKill) -> (state: Self)
        ensures
            state@ == SupervisorModel::<H>::initial(tree_kill),
            state@.wf(),
    {
        SupervisorState {
            phase: Phase::NotStarted,
            port: None,
            command_issued: false,
            process: None,
            tree_kill,
        }
    }

    /// The application was launched.
    pub fn launch(&mut self, mode: LaunchMode)
        ensures
            final(self)@ == old(self)@.launch(mode),
            final(self)@.wf(),
    {
        proof {
            use_type_invariant(&*self);
        }
        self.phase = self.phase.advance(LifecycleEvent::Launched(mode));
    }

    /// The port allocator came to an end.
    pub fn record_allocation(&mut self, result: Result<u16, AllPortsExhausted>)
        ensures
            final(self)@ == old(self)@.record_allocation(result),
            final(self)@.wf(),
    {
        proof {
            use_type_invariant(&*self);
        }
        if self.phase == Phase::Starting && !self.command_issued {
            match result {
                Ok(port) => {
                    self.port = Some(port);
                },
                Err(_) => {
                    self.phase = self.phase.advance(LifecycleEvent::PortsExhausted);
                },
            }
        }
    }

    /// Decides whether the service process may be created, before anything
    /// is asked of the operating system. `binary_exists` says whether the
    /// service executable was found on disk.
    pub fn spawn(&mut self, binary_exists: bool, verbose: bool) -> (decision: Result<
        SpawnCommand,
        SpawnError,
    >)
        ensures
            final(self)@ == old(self)@.spawn(binary_exists, verbose).0,
            final(self)@.wf(),
            match decision {
                Ok(command) => old(self)@.spawn(binary_exists, verbose).1 == Ok::<
                    SpawnCommandModel,
                    SpawnError,
                >(command@),
                Err(e) => old(self)@.spawn(binary_exists, verbose).1 == Err::<
                    SpawnCommandModel,
                    SpawnError,
                >(e),
            },
    {
        proof {
            use_type_invariant(&*self);
        }
        let pending = if self.phase == Phase::Starting && !self.command_issued {
            self.port
        } else {
            None
        };
        let decision = plan_spawn(binary_exists, pending, verbose, self.tree_kill);
        if !binary_exists {
            self.phase = self.phase.advance(LifecycleEvent::BinaryNotFound);
        } else if decision.is_ok() {
            self.command_issued = true;
        }
        decision
    }

    /// The operating system created the process that the spawn command asked
    /// for.
    pub fn attach(&mut self, pid: u32, handle: H) -> (taken: Result<(), H>)
        ensures
            (final(self)@, taken) == old(self)@.attach(pid, handle),
            final(self)@.wf(),
    {
        proof {
            use_type_invariant(&*self);
        }
        if self.phase == Phase::Starting && self.command_issued {
            if let Some(port) = self.port {
                *self = SupervisorState {
                    phase: self.phase.advance(LifecycleEvent::SpawnSucceeded),
                    port: self.port,
                    command_issued: self.command_issued,
                    process: Some(ServiceProcess { pid, port, handle }),
                    tree_kill: self.tree_kill,
                };
                return Ok(());
            }
        }
        Err(handle)
    }

    /// The operating system refused to create the process that the spawn
    /// command asked for.
    pub fn spawn_failed(&mut self)
        ensures
            final(self)@ == old(self)@.spawn_failed(),
            final(self)@.wf(),
    {
        proof {
            use_type_invariant(&*self);
        }
        if self.phase == Phase::Starting && self.command_issued && self.port.is_some() {
            self.phase = self.phase.advance(LifecycleEvent::SpawnFailed);
        }
    }

    /// Stops the service: takes it out of the state and hands it to the
    /// caller together with the plan to terminate it. Where there is no
    /// service, nothing happens.
    pub fn stop(&mut self) -> (outcome: StopOutcome<H>)
        ensures
            final(self)@ == old(self)@.stop().0,
            outcome@ == old(self)@.stop().1,
            final(self)@.wf(),
    {
        proof {
            use_type_invariant(&*self);
        }
        if self.process.is_none() {
            return StopOutcome::NoOp;
        }
        // The slot is emptied and the phase is moved in one step.
        let mut taken = SupervisorState {
            phase: self.phase.advance(LifecycleEvent::StopRequested),
            port: self.port,
            command_issued: self.command_issued,
            process: None,
            tree_kill: self.tree_kill,
        };
        core::mem::swap(self, &mut taken);
        match taken.process {
            Some(process) => {
                let plan = plan_termination(process.pid, taken.tree_kill);
                StopOutcome::Stopped { process, plan }
            },
            None => StopOutcome::NoOp,
        }
    }

    /// The plan of a stop was carried out. `killed` and `reaped` say whether
    /// the kill steps and the wait went through; where one did not, the
    /// shutdown is complete all the same and the failure comes back as a
    /// warning to log.
    pub fn confirm_stopped(&mut self, killed: bool, reaped: bool) -> (warnings: Vec<SupervisorError>)
        ensures
            final(self)@ == old(self)@.confirm_stopped(),
            final(self)@.wf(),
            warnings@ == shutdown_warnings(killed, reaped),
    {
        proof {
            use_type_invariant(&*self);
        }
        self.phase = self.phase.advance(LifecycleEvent::ProcessReaped);
        let mut warnings: Vec<SupervisorError> = Vec::new();
        if !killed {
            warnings.push(SupervisorError::KillFailure);
        }
        if !reaped {
            warnings.push(SupervisorError::WaitFailure);
        }
        assert(warnings@ =~= shutdown_warnings(killed, reaped));
        warnings
    }

    pub fn phase(&self) -> (phase: Phase)
        ensures
            phase == self@.phase,
            self@.wf(),
    {
        proof {
            use_type_invariant(self);
        }
        self.phase
    }

    /// The allocated port, once there is one.
    pub fn port(&self) -> (port: Option<u16>)
        ensures
            port == self@.port,
    {
        self.port
    }

    /// The process identifier of the service, while it runs.
    pub fn pid(&self) -> (pid: Option<u32>)
        ensures
            pid == match self@.process {
                Some(process) => Some(process.pid),
                None => None,
            },
    {
        match &self.process {
            Some(process) => Some(process.pid),
            None => None,
        }
    }
}

pub fn plan_termination(pid: u32, tree_kill: TreeKill) -> (plan: Vec<StopStep>)
    ensures
        plan@ == termination_plan(pid, tree_kill),
{
    let mut plan: Vec<StopStep> = Vec::new();
    match tree_kill {
        TreeKill::ProcessGroup => {
            plan.push(StopStep::SignalGroup { group: pid });
            plan.push(StopStep::Pause { millis: GRACE_DELAY_MS });
        },
        TreeKill::Unsupported => {},
    }
    plan.push(StopStep::KillPrimary);
    plan.push(StopStep::AwaitExit);
    assert(plan@ =~= termination_plan(pid, tree_kill));
    plan
}

impl<H> Operation<H> {
    /// The event of the life cycle that the operation reports, if it reports
    /// one.
    pub open spec fn event(self) -> LifecycleEvent {
        match self {
            Operation::Launch(mode) => LifecycleEvent::Launched(mode),
            Operation::RecordAllocation(_) => LifecycleEvent::PortsExhausted,
            Operation::Spawn { .. } => LifecycleEvent::BinaryNotFound,
            Operation::Attach { .. } => LifecycleEvent::SpawnSucceeded,
            Operation::SpawnFailed => LifecycleEvent::SpawnFailed,
            Operation::Stop => LifecycleEvent::StopRequested,
            Operation::ConfirmStopped => LifecycleEvent::ProcessReaped,
        }
    }
}

impl<H> SupervisorModel<H> {
    /// How many of the operations were an `attach` that was accepted.
    pub open spec fn attachments(self, ops: Seq<Operation<H>>) -> nat
        decreases ops.len(),
    {
        if ops.len() == 0 {
            0
        } else {
            let earlier = self.attachments(ops.drop_last());
            if ops.last() is Attach && self.apply_all(ops.drop_last()).awaits_process() {
                earlier + 1
            } else {
                earlier
            }
        }
    }

    /// How many of the operations were a `stop` that found a service and
    /// took it.
    pub open spec fn terminations(self, ops: Seq<Operation<H>>) -> nat
        decreases ops.len(),
    {
        if ops.len() == 0 {
            0
        } else {
            let earlier = self.terminations(ops.drop_last());
            if ops.last() is Stop && self.apply_all(ops.drop_last()).process is Some {
                earlier + 1
            } else {
                earlier
            }
        }
    }
}

/// An operation keeps a well-formed state well-formed, and moves the phase
/// along the life cycle or not at all.
pub proof fn law_operations_keep_order<H>(state: SupervisorModel<H>, op: Operation<H>)
    requires
        state.wf(),
    ensures
        state.apply(op).wf(),
        state.apply(op).tree_kill == state.tree_kill,
        state.apply(op).phase == state.phase || state.apply(op).phase == state.phase.next(
            op.event(),
        ),
        state.phase.rank() <= state.apply(op).phase.rank(),
        state.command_issued ==> state.apply(op).command_issued,
{
}

/// The slot has one way in and one way out: only an attach fills it, and
/// only a stop empties it. No operation swaps one process for another, and
/// none changes the port once the spawn command for it is out.
pub proof fn law_slot_has_one_way_in_and_out<H>(state: SupervisorModel<H>, op: Operation<H>)
    requires
        state.wf(),
    ensures
        state.process is None && state.apply(op).process is Some ==> op is Attach,
        state.process is Some && state.apply(op).process is None ==> op is Stop,
        state.process is Some && state.apply(op).process is Some ==> state.apply(op).process
            == state.process,
        state.command_issued ==> state.apply(op).port == state.port,
{
}

/// Every state that is reached from the initial one is well-formed.
pub proof fn law_reachable_states_are_wf<H>(tree_kill: TreeKill, ops: Seq<Operation<H>>)
    ensures
        SupervisorModel::<H>::initial(tree_kill).apply_all(ops).wf(),
    decreases ops.len(),
{
    if ops.len() > 0 {
        law_reachable_states_are_wf::<H>(tree_kill, ops.drop_last());
        law_operations_keep_order(
            SupervisorModel::<H>::initial(tree_kill).apply_all(ops.drop_last()),
            ops.last(),
        );
    }
}

/// Whatever is done to a well-formed state, it stays well-formed, its phase
/// does not go back, and a spawn command that was handed out stays handed
/// out.
pub proof fn law_histories_keep_order<H>(state: SupervisorModel<H>, ops: Seq<Operation<H>>)
    requires
        state.wf(),
    ensures
        state.apply_all(ops).wf(),
        state.phase.rank() <= state.apply_all(ops).phase.rank(),
        state.command_issued ==> state.apply_all(ops).command_issued,
    decreases ops.len(),
{
    if ops.len() > 0 {
        law_histories_keep_order(state, ops.drop_last());
        law_operations_keep_order(state.apply_all(ops.drop_last()), ops.last());
    }
}

/// A stop that follows a stop finds nothing: it changes nothing and hands out
/// no plan. Of two stops in a row the first is the one that terminates the
/// service, and it does so exactly when the service was running.
pub proof fn law_stop_is_idempotent<H>(state: SupervisorModel<H>)
    ensures
        ({
            let (once, first) = state.stop();
            let (twice, second) = once.stop();
            &&& second is NoOp
            &&& twice == once
            &&& first is Stopped <==> state.process is Some
            &&& first is NoOp ==> once == state
        }),
{
}

/// A stop of a running service hands out the process that was attached and
/// the plan for it, and leaves the supervisor stopping, with an empty slot.
pub proof fn law_stop_takes_the_running_service<H>(state: SupervisorModel<H>)
    requires
        state.wf(),
        state.phase == Phase::Running,
    ensures
        ({
            let (after, outcome) = state.stop();
            &&& after.phase == Phase::Stopping
            &&& after.process is None
            &&& outcome == StopOutcomeModel::Stopped {
                process: state.process->0,
                plan: termination_plan(state.process->0.pid, state.tree_kill),
            }
            &&& after.confirm_stopped().phase == Phase::Stopped
        }),
{
}

/// However many stops a history holds, and whatever lies between them, at
/// most one of them terminates a service.
pub proof fn law_at_most_one_termination<H>(state: SupervisorModel<H>, ops: Seq<Operation<H>>)
    requires
        state.wf(),
    ensures
        state.terminations(ops) <= 1,
        state.terminations(ops) == 1 ==> state.apply_all(ops).phase.rank()
            > Phase::Running.rank(),
        state.phase.rank() > Phase::Running.rank() ==> state.terminations(ops) == 0,
    decreases ops.len(),
{
    if ops.len() > 0 {
        let earlier = ops.drop_last();
        law_at_most_one_termination(state, earlier);
        law_histories_keep_order(state, earlier);
        law_operations_keep_order(state.apply_all(earlier), ops.last());
    }
}

/// In the whole life of an application at most one process becomes its
/// service.
pub proof fn law_at_most_one_service<H>(tree_kill: TreeKill, ops: Seq<Operation<H>>)
    ensures
        SupervisorModel::<H>::initial(tree_kill).attachments(ops) <= 1,
        SupervisorModel::<H>::initial(tree_kill).attachments(ops) == 1
            ==> SupervisorModel::<H>::initial(tree_kill).apply_all(ops).phase.rank()
            >= Phase::Running.rank(),
    decreases ops.len(),
{
    if ops.len() > 0 {
        let initial = SupervisorModel::<H>::initial(tree_kill);
        let earlier = ops.drop_last();
        law_at_most_one_service::<H>(tree_kill, earlier);
        law_histories_keep_order(initial, earlier);
        law_operations_keep_order(initial.apply_all(earlier), ops.last());
    }
}

/// Every plan ends with the kill of the primary process and then the wait
/// for its exit; where the process group is signalled, that comes first and
/// a pause follows it.
pub proof fn law_plan_kills_then_reaps(pid: u32, tree_kill: TreeKill)
    ensures
        ({
            let plan = termination_plan(pid, tree_kill);
            &&& plan.len() >= 2
            &&& plan[plan.len() - 2] == StopStep::KillPrimary
            &&& plan[plan.len() - 1] == StopStep::AwaitExit
            &&& tree_kill == TreeKill::ProcessGroup ==> plan.len() == 4 && plan[0]
                == (StopStep::SignalGroup { group: pid }) && plan[1] == (StopStep::Pause {
                millis: GRACE_DELAY_MS,
            })
            &&& tree_kill == TreeKill::Unsupported ==> plan.len() == 2
        }),
{
}

/// A supervisor hands out one spawn command in its life: after the first,
/// every further request for one is refused, whatever happened in between.
pub proof fn law_single_spawn_command<H>(
    state: SupervisorModel<H>,
    ops: Seq<Operation<H>>,
    binary_exists: bool,
    verbose: bool,
)
    requires
        state.wf(),
        state.command_issued,
    ensures
        state.apply_all(ops).spawn(binary_exists, verbose).1 is Err,
{
    law_histories_keep_order(state, ops);
}

/// A supervisor that is past `Starting`, be it running, stopped or failed,
/// never asks for a process again and never takes one in.
pub proof fn law_no_spawn_once_past_starting<H>(
    state: SupervisorModel<H>,
    ops: Seq<Operation<H>>,
    binary_exists: bool,
    verbose: bool,
    pid: u32,
    handle: H,
)
    requires
        state.wf(),
        state.phase.rank() > Phase::Starting.rank(),
    ensures
        state.apply_all(ops).spawn(binary_exists, verbose).1 is Err,
        state.apply_all(ops).attach(pid, handle).1 is Err,
{
    law_histories_keep_order(state, ops);
}

/// Once the service has been stopped, or its start has failed, no history
/// brings a service back.
pub proof fn law_stopped_stays_stopped<H>(state: SupervisorModel<H>, ops: Seq<Operation<H>>)
    requires
        state.wf(),
        state.phase.rank() > Phase::Running.rank(),
    ensures
        state.apply_all(ops).process is None,
        state.apply_all(ops).phase != Phase::Running,
{
    law_histories_keep_order(state, ops);
}

/// With the executable missing, a spawn is refused as `BinaryNotFound` in
/// every state; no process is in the state afterwards that was not there
/// before, none would be taken in, and a start that was under way has
/// failed.
pub proof fn law_missing_binary_fails_the_start<H>(state: SupervisorModel<H>, verbose: bool)
    ensures
        ({
            let (after, decision) = state.spawn(false, verbose);
            &&& decision == Err::<SpawnCommandModel, SpawnError>(SpawnError::BinaryNotFound)
            &&& after.process == state.process
            &&& after.command_issued == state.command_issued
            &&& !after.awaits_process()
            &&& state.phase == Phase::Starting ==> after.phase == Phase::BinaryMissing
            &&& state.phase != Phase::Starting ==> after.phase == state.phase
        }),
{
}

/// With every port taken, the start fails before anything is spawned: the
/// supervisor is in `PortExhausted`, and no command was or will be handed
/// out.
pub proof fn law_exhausted_ports_fail_the_start<H>(
    tree_kill: TreeKill,
    error: AllPortsExhausted,
    ops: Seq<Operation<H>>,
    binary_exists: bool,
    verbose: bool,
)
    ensures
        ({
            let failed = SupervisorModel::<H>::initial(tree_kill).launch(
                LaunchMode::Production,
            ).record_allocation(Err(error));
            &&& failed.phase == Phase::PortExhausted
            &&& !failed.command_issued
            &&& failed.apply_all(ops).spawn(binary_exists, verbose).1 is Err
            &&& failed.apply_all(ops).process is None
        }),
{
    let failed = SupervisorModel::<H>::initial(tree_kill).launch(
        LaunchMode::Production,
    ).record_allocation(Err(error));
    law_histories_keep_order(failed, ops);
}

/// A start in which everything goes well ends with the service running on
/// the allocated port, under the process identifier that was reported.
pub proof fn law_successful_start_runs<H>(
    tree_kill: TreeKill,
    port: u16,
    verbose: bool,
    pid: u32,
    handle: H,
)
    ensures
        ({
            let starting = SupervisorModel::<H>::initial(tree_kill).launch(
                LaunchMode::Production,
            ).record_allocation(Ok(port));
            let (commanded, decision) = starting.spawn(true, verbose);
            let (running, taken) = commanded.attach(pid, handle);
            &&& decision == Ok::<SpawnCommandModel, SpawnError>(
                crate::spawn::command_for(port, verbose, tree_kill),
            )
            &&& taken == Ok::<(), H>(())
            &&& running.phase == Phase::Running
            &&& running.process == Some(ServiceProcess { pid, port, handle })
        }),
{
}

} // verus!
