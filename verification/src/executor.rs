//! The compute executor: one reduction run as a machine of states, events and
//! actions.
//!
//! The executor never touches the device. It hands the host one command at a
//! time; the host performs it and reports back with an event, and the executor
//! answers with the next command, with the result of the run, or with the
//! fault that ended it. Whatever the host reports, a view that was taken is
//! released and a buffer that was mapped is unmapped before the run ends.

use vstd::prelude::*;
use crate::command::expected_reply;
use crate::command::prelude;
use crate::command::prelude_command;
use crate::command::reply_to;
use crate::command::script;
use crate::command::script_command;
use crate::command::Backend;
use crate::command::BufferRole;
use crate::command::Command;
use crate::command::Reply;
use crate::command::PRELUDE_LEN;
use crate::command::READ_INDEX;
use crate::command::RELEASE_INDEX;
use crate::command::REQUEST_INDEX;
use crate::command::SCRIPT_LEN;
use crate::command::UNMAP_INDEX;
use crate::command::WAIT_INDEX;
use crate::command::WIDTH_INDEX;
use crate::plan::lemma_plan_wf;
use crate::plan::plan_dispatch;
use crate::plan::plan_for;
use crate::plan::DispatchPlan;
use crate::plan::PlanError;
use crate::staging::MapState;
use crate::staging::Staging;
use crate::words::cast_words_to_bytes;
use crate::words::collect_bytes_to_words;
use crate::words::is_native_image;

verus! {

/// Why a run ended without a result. Every fault is final: nothing is tried
/// again.
#[derive(Clone, Copy, Debug, PartialEq, Eq, Structural)]
pub enum Fault {
    /// The host graphics stack has no adapter to offer.
    NoAdapter,
    /// The adapter refused to give a device.
    DeviceRejected,
    /// The shader did not compile.
    ShaderRejected,
    /// No dispatch could be planned for the input on this device.
    Plan(PlanError),
    /// The mapping of the staging buffer failed.
    MappingFailed,
    /// The mapped range did not have the planned size.
    WrongLength,
    /// The host reported something that does not answer the last command.
    UnexpectedEvent,
}

/// What the host reports to the executor.
#[derive(Debug, PartialEq, Eq)]
pub enum Event {
    /// The run may begin.
    Start,
    /// What the last command asked for was granted, or was not.
    Resolved(bool),
    /// The greatest workgroup width along X that the device reported.
    WorkgroupSize(u32),
    /// The last command was performed.
    Completed,
    /// The bytes of the mapped range.
    Bytes(Vec<u8>),
}

/// An event as contracts see it.
pub enum EventView {
    Start,
    Resolved(bool),
    WorkgroupSize(u32),
    Completed,
    Bytes(Seq<u8>),
}

impl View for Event {
    type V = EventView;

    open spec fn view(&self) -> EventView {
        match *self {
            Event::Start => EventView::Start,
            Event::Resolved(ok) => EventView::Resolved(ok),
            Event::WorkgroupSize(width) => EventView::WorkgroupSize(width),
            Event::Completed => EventView::Completed,
            Event::Bytes(bytes) => EventView::Bytes(bytes@),
        }
    }
}

impl EventView {
    /// The kind of report this event is, if it answers a command at all.
    pub open spec fn kind(self) -> Option<Reply> {
        match self {
            EventView::Start => None,
            EventView::Resolved(_) => Some(Reply::Resolved),
            EventView::WorkgroupSize(_) => Some(Reply::WorkgroupSize),
            EventView::Completed => Some(Reply::Completed),
            EventView::Bytes(_) => Some(Reply::Bytes),
        }
    }
}

/// What the executor asks of the host.
#[derive(Debug, PartialEq, Eq)]
pub enum Action {
    /// Perform this command on the device and report back.
    Perform(Command),
    /// The run is over; these are the words the shader wrote, one per group.
    Finish(Vec<u32>),
    /// The run is over and has no result.
    Abort(Fault),
}

/// An action as contracts see it.
pub enum ActionView {
    Perform(Command),
    Finish(Seq<u32>),
    Abort(Fault),
}

impl View for Action {
    type V = ActionView;

    open spec fn view(&self) -> ActionView {
        match *self {
            Action::Perform(command) => ActionView::Perform(command),
            Action::Finish(words) => ActionView::Finish(words@),
            Action::Abort(fault) => ActionView::Abort(fault),
        }
    }
}

/// Where a run stands.
#[derive(Clone, Copy, Debug, PartialEq, Eq, Structural)]
pub enum Stage {
    /// Nothing was asked of the host yet.
    Idle,
    /// The device is being acquired: the prelude command at `pending` was
    /// handed out and is not answered yet.
    Acquiring { pending: usize },
    /// The script is running: its command at `pending` was handed out and is
    /// not answered yet.
    Running { workgroup_size: u32, plan: DispatchPlan, pending: usize, staging: Staging },
    /// A fault was found while the staging buffer was mapped; the buffer is
    /// being let go before the run ends.
    Draining { fault: Fault, staging: Staging },
    /// The result was handed out.
    Finished,
    /// The run ended with a fault.
    Failed { fault: Fault },
}

/// The state of an executor as contracts see it.
pub struct ExecutorView {
    /// The input sequence.
    pub input: Seq<u32>,
    /// The backend the device is asked of.
    pub backend: Backend,
    /// Where the run stands.
    pub stage: Stage,
    /// The words read from the staging buffer, kept until the buffer is let
    /// go.
    pub result: Option<Seq<u32>>,
}

/// The fault that a refusal of `command` is.
pub open spec fn fault_of(command: Command) -> Fault {
    match command {
        Command::RequestAdapter { .. } => Fault::NoAdapter,
        Command::RequestDevice => Fault::DeviceRejected,
        Command::CompileShader => Fault::ShaderRejected,
        Command::Wait => Fault::MappingFailed,
        _ => Fault::UnexpectedEvent,
    }
}

/// The staging buffer at the moment the script command at `pending` has been
/// handed out: mapped from the request on, viewed while it is read, and
/// unmapped at the end.
pub open spec fn staging_when(plan: DispatchPlan, pending: int) -> Staging {
    let fresh = Staging::fresh(plan.output_bytes);
    if pending < REQUEST_INDEX {
        fresh
    } else if pending <= WAIT_INDEX {
        fresh.requested()
    } else if pending == READ_INDEX {
        fresh.requested().resolved(true).viewed()
    } else if pending == RELEASE_INDEX {
        fresh.requested().resolved(true).viewed().read().released()
    } else {
        fresh.requested().resolved(true).viewed().read().released().unmapped()
    }
}

/// The staging buffer after `command` was handed out.
pub open spec fn staging_after(staging: Staging, command: Command) -> Staging {
    match command {
        Command::RequestMap { .. } => staging.requested(),
        Command::ReadMapped { .. } => staging.viewed(),
        Command::ReleaseView => staging.released(),
        Command::Unmap { .. } => staging.unmapped(),
        _ => staging,
    }
}

impl ExecutorView {
    /// The state before anything happened.
    pub open spec fn initial(input: Seq<u32>, backend: Backend) -> ExecutorView {
        ExecutorView { input, backend, stage: Stage::Idle, result: None }
    }

    /// This state at another stage, with no words held.
    pub open spec fn at(self, stage: Stage) -> ExecutorView {
        ExecutorView { input: self.input, backend: self.backend, stage, result: None }
    }

    /// The staging buffer, while the run has one.
    pub open spec fn staging(self) -> Option<Staging> {
        match self.stage {
            Stage::Running { staging, .. } => Some(staging),
            Stage::Draining { staging, .. } => Some(staging),
            _ => None,
        }
    }

    /// The command that was handed out and is not answered yet, if any.
    pub open spec fn pending_command(self) -> Option<Command> {
        match self.stage {
            Stage::Acquiring { pending } => Some(prelude(self.backend)[pending as int]),
            Stage::Running { plan, pending, .. } => Some(script(plan)[pending as int]),
            _ => None,
        }
    }

    /// Whether the run is over.
    pub open spec fn is_over(self) -> bool {
        self.stage is Finished || self.stage is Failed
    }

    /// What holds of every state a run can be in: the plan is the plan for
    /// the input, the staging buffer stands where the script has brought it,
    /// and words are held exactly while the buffer they came from is let go.
    pub open spec fn wf(self) -> bool {
        match self.stage {
            Stage::Acquiring { pending } => pending < PRELUDE_LEN && self.result is None,
            Stage::Running { workgroup_size, plan, pending, staging } => {
                &&& plan_for(self.input.len(), workgroup_size as nat) == Ok::<
                    DispatchPlan,
                    PlanError,
                >(plan)
                &&& pending < SCRIPT_LEN
                &&& staging == staging_when(plan, pending as int)
                &&& self.result is Some <==> pending >= RELEASE_INDEX
                &&& self.result matches Some(words) ==> words.len() == plan.group_count
            },
            Stage::Draining { fault, staging } => staging.wf() && self.result is None,
            _ => self.result is None,
        }
    }

    /// The end of the run with `fault`.
    pub open spec fn fail(self, fault: Fault) -> (ExecutorView, ActionView) {
        (self.at(Stage::Failed { fault }), ActionView::Abort(fault))
    }

    /// How a run is wound up once a fault is known: a view that is still held
    /// is released, then a buffer that is still mapped is unmapped, and only
    /// then the run ends with the fault.
    pub open spec fn wind_up(self, fault: Fault, staging: Staging) -> (ExecutorView, ActionView) {
        if staging.views > 0 {
            (
                self.at(Stage::Draining { fault, staging: staging.released() }),
                ActionView::Perform(Command::ReleaseView),
            )
        } else if staging.is_mapped() {
            (
                self.at(Stage::Draining { fault, staging: staging.unmapped() }),
                ActionView::Perform(Command::Unmap { buffer: BufferRole::Staging }),
            )
        } else {
            self.fail(fault)
        }
    }

    /// The state and the action that follow on `event`, for every case but
    /// the one in which the bytes of the mapped range arrive with the planned
    /// length (see `steps_to`).
    pub open spec fn next(self, event: EventView) -> (ExecutorView, ActionView) {
        match self.stage {
            Stage::Idle => match event {
                EventView::Start => (
                    self.at(Stage::Acquiring { pending: 0 }),
                    ActionView::Perform(prelude(self.backend)[0]),
                ),
                _ => self.fail(Fault::UnexpectedEvent),
            },
            Stage::Acquiring { pending } => {
                let command = prelude(self.backend)[pending as int];
                if event.kind() != Some(reply_to(command)) {
                    self.fail(Fault::UnexpectedEvent)
                } else {
                    match event {
                        EventView::Resolved(false) => self.fail(fault_of(command)),
                        EventView::WorkgroupSize(width) => match plan_for(
                            self.input.len(),
                            width as nat,
                        ) {
                            Ok(plan) => (
                                self.at(
                                    Stage::Running {
                                        workgroup_size: width,
                                        plan,
                                        pending: 0,
                                        staging: Staging::fresh(plan.output_bytes),
                                    },
                                ),
                                ActionView::Perform(script(plan)[0]),
                            ),
                            Err(error) => self.fail(Fault::Plan(error)),
                        },
                        _ => (
                            self.at(Stage::Acquiring { pending: (pending + 1) as usize }),
                            ActionView::Perform(prelude(self.backend)[pending + 1]),
                        ),
                    }
                }
            },
            Stage::Running { workgroup_size, plan, pending, staging } => {
                let command = script(plan)[pending as int];
                if event.kind() != Some(reply_to(command)) {
                    self.wind_up(Fault::UnexpectedEvent, staging)
                } else if event == EventView::Resolved(false) {
                    self.fail(fault_of(command))
                } else if event is Bytes {
                    self.wind_up(Fault::WrongLength, staging)
                } else if pending == UNMAP_INDEX {
                    (self.at(Stage::Finished), ActionView::Finish(self.result->Some_0))
                } else {
                    let settled = if pending == WAIT_INDEX {
                        staging.resolved(true)
                    } else {
                        staging
                    };
                    let following = script(plan)[pending + 1];
                    (
                        ExecutorView {
                            stage: Stage::Running {
                                workgroup_size,
                                plan,
                                pending: (pending + 1) as usize,
                                staging: staging_after(settled, following),
                            },
                            ..self
                        },
                        ActionView::Perform(following),
                    )
                }
            },
            Stage::Draining { fault, staging } => self.wind_up(fault, staging),
            Stage::Finished => (self, ActionView::Abort(Fault::UnexpectedEvent)),
            Stage::Failed { fault } => (self, ActionView::Abort(fault)),
        }
    }

    /// Whether `event` is the good answer to what this state waits for: the
    /// start of the run, the grant of what was asked for, a workgroup width
    /// that a dispatch can be planned for, the completion of a command, or the
    /// bytes of the mapped range in the planned length.
    pub open spec fn is_granted_by(self, event: EventView) -> bool {
        match self.stage {
            Stage::Idle => event == EventView::Start,
            Stage::Acquiring { pending } => match event {
                EventView::Resolved(ok) => ok && pending != WIDTH_INDEX,
                EventView::WorkgroupSize(width) => pending == WIDTH_INDEX && plan_for(
                    self.input.len(),
                    width as nat,
                ) is Ok,
                _ => false,
            },
            Stage::Running { plan, pending, .. } => match event {
                EventView::Resolved(ok) => ok && pending == WAIT_INDEX,
                EventView::Bytes(bytes) => pending == READ_INDEX && bytes.len()
                    == plan.output_bytes,
                EventView::Completed => pending != WAIT_INDEX && pending != READ_INDEX,
                _ => false,
            },
            _ => false,
        }
    }

    /// Whether the run is on its way: not over, and no fault met.
    pub open spec fn is_on_track(self) -> bool {
        self.stage is Idle || self.stage is Acquiring || self.stage is Running
    }

    /// Whether `event` brings the bytes of the mapped range, in the planned
    /// length, while the executor waits for them.
    pub open spec fn brings_result(self, event: EventView) -> bool {
        &&& self.stage matches Stage::Running { plan, pending, .. }
        &&& pending == READ_INDEX
        &&& event matches EventView::Bytes(bytes)
        &&& bytes.len() == plan.output_bytes
    }
}

/// One step of the executor: from `pre`, on `event`, to `post` with `action`.
///
/// Where the bytes of the mapped range arrive as planned, the executor keeps
/// the words they spell in the byte order of the host, marks the buffer read
/// and asks for the view to be released. Every other step is the function
/// `next`.
pub open spec fn steps_to(
    pre: ExecutorView,
    event: EventView,
    post: ExecutorView,
    action: ActionView,
) -> bool {
    if pre.brings_result(event) {
        &&& post.input == pre.input
        &&& post.backend == pre.backend
        &&& pre.stage matches Stage::Running { workgroup_size, plan, pending, staging }
        &&& post.stage == Stage::Running {
            workgroup_size,
            plan,
            pending: RELEASE_INDEX,
            staging: staging_after(staging.read(), Command::ReleaseView),
        }
        &&& post.result matches Some(words)
        &&& is_native_image(event->Bytes_0, words)
        &&& action == ActionView::Perform(Command::ReleaseView)
    } else {
        (post, action) == pre.next(event)
    }
}

/// The executor of one reduction run.
pub struct Executor {
    input: Vec<u32>,
    backend: Backend,
    stage: Stage,
    result: Option<Vec<u32>>,
}

impl View for Executor {
    type V = ExecutorView;

    closed spec fn view(&self) -> ExecutorView {
        ExecutorView {
            input: self.input@,
            backend: self.backend,
            stage: self.stage,
            result: match self.result {
                Some(words) => Some(words@),
                None => None,
            },
        }
    }
}

/// The fault that a refusal of `command` is.
pub fn refusal_fault(command: Command) -> (fault: Fault)
    ensures
        fault == fault_of(command),
{
    match command {
        Command::RequestAdapter { .. } => Fault::NoAdapter,
        Command::RequestDevice => Fault::DeviceRejected,
        Command::CompileShader => Fault::ShaderRejected,
        Command::Wait => Fault::MappingFailed,
        _ => Fault::UnexpectedEvent,
    }
}

/// Whether `event` is the kind of report that answers `command`.
pub fn answers(event: &Event, command: Command) -> (fits: bool)
    ensures
        fits <==> event@.kind() == Some(reply_to(command)),
{
    let expected = expected_reply(command);
    match event {
        Event::Start => false,
        Event::Resolved(_) => expected == Reply::Resolved,
        Event::WorkgroupSize(_) => expected == Reply::WorkgroupSize,
        Event::Completed => expected == Reply::Completed,
        Event::Bytes(_) => expected == Reply::Bytes,
    }
}

/// Records on the staging buffer that `command` is handed out. A command that
/// the buffer is not ready for cannot be handed out.
fn hand_out(staging: Staging, command: Command) -> (after: Staging)
    requires
        staging.wf(),
        command is RequestMap ==> staging.state == MapState::Unmapped,
        command is ReadMapped ==> staging.is_mapped() && staging.views < u32::MAX,
        command is ReleaseView ==> staging.views > 0,
        command is Unmap ==> staging.is_mapped() && staging.views == 0,
    ensures
        after == staging_after(staging, command),
        after.wf(),
{
    let mut staging = staging;
    match command {
        Command::RequestMap { .. } => staging.request_map(),
        Command::ReadMapped { .. } => staging.open_view(),
        Command::ReleaseView => staging.release_view(),
        Command::Unmap { .. } => staging.unmap(),
        _ => {},
    }
    staging
}

impl Executor {
    #[verifier::type_invariant]
    spec fn inv(self) -> bool {
        self@.wf()
    }

    /// An executor for `input` on a device of `backend`, with nothing asked
    /// of the host yet.
    pub fn new(input: Vec<u32>, backend: Backend) -> (executor: Executor)
        ensures
            executor@ == ExecutorView::initial(input@, backend),
            executor@.wf(),
    {
        Executor { input, backend, stage: Stage::Idle, result: None }
    }

    /// Where the run stands.
    pub fn stage(&self) -> (stage: Stage)
        ensures
            stage == self@.stage,
    {
        self.stage
    }

    /// Number of items in the input.
    pub fn input_len(&self) -> (length: usize)
        ensures
            length == self@.input.len(),
    {
        self.input.len()
    }

    /// The bytes that fill the input buffer: the input sequence as it lies in
    /// host memory.
    pub fn input_bytes(&self) -> (bytes: Vec<u8>)
        ensures
            is_native_image(bytes@, self@.input),
    {
        cast_words_to_bytes(self.input.as_slice())
    }

    /// Takes one step: consumes what the host reports and says what to do
    /// next.
    pub fn step(self, event: Event) -> (next: (Executor, Action))
        ensures
            steps_to(self@, event@, next.0@, next.1@),
            next.0@.wf(),
    {
        proof {
            use_type_invariant(&self);
        }
        let Executor { input, backend, stage, result } = self;
        match stage {
            Stage::Idle => match event {
                Event::Start => {
                    let command = prelude_command(backend, 0);
                    (
                        Executor {
                            input,
                            backend,
                            stage: Stage::Acquiring { pending: 0 },
                            result: None,
                        },
                        Action::Perform(command),
                    )
                },
                _ => Self::fail(input, backend, Fault::UnexpectedEvent),
            },
            Stage::Acquiring { pending } => {
                let command = prelude_command(backend, pending);
                if !answers(&event, command) {
                    return Self::fail(input, backend, Fault::UnexpectedEvent);
                }
                match event {
                    Event::Resolved(false) => Self::fail(input, backend, refusal_fault(command)),
                    Event::WorkgroupSize(width) => match plan_dispatch(input.len(), width) {
                        Ok(plan) => {
                            let staging = Staging::new(plan.output_bytes);
                            let following = script_command(plan, 0);
                            (
                                Executor {
                                    input,
                                    backend,
                                    stage: Stage::Running {
                                        workgroup_size: width,
                                        plan,
                                        pending: 0,
                                        staging,
                                    },
                                    result: None,
                                },
                                Action::Perform(following),
                            )
                        },
                        Err(error) => Self::fail(input, backend, Fault::Plan(error)),
                    },
                    _ => {
                        let following = prelude_command(backend, pending + 1);
                        (
                            Executor {
                                input,
                                backend,
                                stage: Stage::Acquiring { pending: pending + 1 },
                                result: None,
                            },
                            Action::Perform(following),
                        )
                    },
                }
            },
            Stage::Running { workgroup_size, plan, pending, staging } => {
                proof {
                    lemma_plan_wf(input@.len(), workgroup_size as nat);
                }
                let command = script_command(plan, pending);
                if !answers(&event, command) {
                    return Self::let_go(input, backend, Fault::UnexpectedEvent, staging);
                }
                match event {
                    Event::Resolved(false) => Self::fail(input, backend, refusal_fault(command)),
                    Event::Bytes(bytes) => {
                        if bytes.len() as u64 == plan.output_bytes {
                            let words = collect_bytes_to_words(bytes.as_slice());
                            let mut staging = staging;
                            staging.mark_read();
                            let staging = hand_out(staging, Command::ReleaseView);
                            (
                                Executor {
                                    input,
                                    backend,
                                    stage: Stage::Running {
                                        workgroup_size,
                                        plan,
                                        pending: RELEASE_INDEX,
                                        staging,
                                    },
                                    result: Some(words),
                                },
                                Action::Perform(Command::ReleaseView),
                            )
                        } else {
                            Self::let_go(input, backend, Fault::WrongLength, staging)
                        }
                    },
                    _ => {
                        if pending == UNMAP_INDEX {
                            let words = result.unwrap();
                            (
                                Executor { input, backend, stage: Stage::Finished, result: None },
                                Action::Finish(words),
                            )
                        } else {
                            let mut staging = staging;
                            if pending == WAIT_INDEX {
                                staging.resolve(true);
                            }
                            let following = script_command(plan, pending + 1);
                            let staging = hand_out(staging, following);
                            (
                                Executor {
                                    input,
                                    backend,
                                    stage: Stage::Running {
                                        workgroup_size,
                                        plan,
                                        pending: pending + 1,
                                        staging,
                                    },
                                    result,
                                },
                                Action::Perform(following),
                            )
                        }
                    },
                }
            },
            Stage::Draining { fault, staging } => Self::let_go(input, backend, fault, staging),
            Stage::Finished => (
                Executor { input, backend, stage: Stage::Finished, result: None },
                Action::Abort(Fault::UnexpectedEvent),
            ),
            Stage::Failed { fault } => (
                Executor { input, backend, stage: Stage::Failed { fault }, result: None },
                Action::Abort(fault),
            ),
        }
    }

    /// Ends the run with `fault`.
    fn fail(input: Vec<u32>, backend: Backend, fault: Fault) -> (next: (Executor, Action))
        ensures
            (next.0@, next.1@) == ExecutorView::initial(input@, backend).fail(fault),
            next.0@.wf(),
    {
        (
            Executor { input, backend, stage: Stage::Failed { fault }, result: None },
            Action::Abort(fault),
        )
    }

    /// Lets go of the staging buffer, one command at a time, and ends the run
    /// with `fault` once nothing is held.
    fn let_go(input: Vec<u32>, backend: Backend, fault: Fault, staging: Staging) -> (next: (
        Executor,
        Action,
    ))
        requires
            staging.wf(),
        ensures
            (next.0@, next.1@) == ExecutorView::initial(input@, backend).wind_up(fault, staging),
            next.0@.wf(),
    {
        if staging.views > 0 {
            let staging = hand_out(staging, Command::ReleaseView);
            (
                Executor {
                    input,
                    backend,
                    stage: Stage::Draining { fault, staging },
                    result: None,
                },
                Action::Perform(Command::ReleaseView),
            )
        } else if staging.state == MapState::MapReady || staging.state == MapState::Mapped
            || staging.state == MapState::Read {
            let command = Command::Unmap { buffer: BufferRole::Staging };
            let staging = hand_out(staging, command);
            (
                Executor {
                    input,
                    backend,
                    stage: Stage::Draining { fault, staging },
                    result: None,
                },
                Action::Perform(command),
            )
        } else {
            Self::fail(input, backend, fault)
        }
    }
}

} // verus!
