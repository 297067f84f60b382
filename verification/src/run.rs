//! Runs of the executor, and what holds of every one of them.
//!
//! A run is what an executor goes through from its first state on, whatever
//! the host reports to it: the states it is in, the events it gets and the
//! actions it answers with.

use vstd::prelude::*;
use crate::command::prelude;
use crate::command::reply_to;
use crate::command::script;
use crate::command::BufferRole;
use crate::command::Command;
use crate::command::Reply;
use crate::command::PRELUDE_LEN;
use crate::command::READ_INDEX;
use crate::command::RELEASE_INDEX;
use crate::command::UNMAP_INDEX;
use crate::command::WAIT_INDEX;
use crate::command::WIDTH_INDEX;
use crate::executor::fault_of;
use crate::executor::steps_to;
use crate::executor::ActionView;
use crate::executor::EventView;
use crate::executor::ExecutorView;
use crate::executor::Fault;
use crate::executor::Stage;
use crate::plan::groups_needed;
use crate::plan::lemma_plan_wf;
use crate::plan::plan_for;
use crate::words::is_native_image;

verus! {

/// A step leads from a well-formed state to a well-formed state and leaves
/// the input alone.
pub proof fn lemma_step_keeps_wf(
    pre: ExecutorView,
    event: EventView,
    post: ExecutorView,
    action: ActionView,
)
    requires
        pre.wf(),
        steps_to(pre, event, post, action),
    ensures
        post.wf(),
        post.input == pre.input,
        post.backend == pre.backend,
{
    if let Stage::Running { workgroup_size, plan, .. } = pre.stage {
        lemma_plan_wf(pre.input.len(), workgroup_size as nat);
    }
    if let EventView::WorkgroupSize(width) = event {
        lemma_plan_wf(pre.input.len(), width as nat);
    }
}

/// The sizes of a run depend on the length of the input and on the workgroup
/// width alone: two executors that are told the same width for inputs of the
/// same length plan the same dispatch and ask for the same command.
pub proof fn lemma_sizes_decide_plan(
    first: ExecutorView,
    second: ExecutorView,
    width: u32,
    first_post: ExecutorView,
    second_post: ExecutorView,
    first_action: ActionView,
    second_action: ActionView,
)
    requires
        first.stage == (Stage::Acquiring { pending: WIDTH_INDEX }),
        second.stage == (Stage::Acquiring { pending: WIDTH_INDEX }),
        first.input.len() == second.input.len(),
        steps_to(first, EventView::WorkgroupSize(width), first_post, first_action),
        steps_to(second, EventView::WorkgroupSize(width), second_post, second_action),
    ensures
        first_post.stage == second_post.stage,
        first_action == second_action,
{
}

/// A refusal is final: when the host reports that what the pending command
/// asked for was not granted, the run ends at once with the fault of that
/// command, and without a result.
pub proof fn lemma_refusal_is_fatal(pre: ExecutorView, post: ExecutorView, action: ActionView)
    requires
        pre.wf(),
        pre.pending_command() matches Some(command) && reply_to(command) == Reply::Resolved,
        steps_to(pre, EventView::Resolved(false), post, action),
    ensures
        action == ActionView::Abort(fault_of(pre.pending_command()->Some_0)),
        post.stage == (Stage::Failed { fault: fault_of(pre.pending_command()->Some_0) }),
        post.result is None,
{
}

/// A mapping that fails ends the run at once, with the fault and without a
/// result.
pub proof fn lemma_failed_mapping_is_fatal(
    pre: ExecutorView,
    post: ExecutorView,
    action: ActionView,
)
    requires
        pre.wf(),
        pre.stage matches Stage::Running { pending, .. } && pending == WAIT_INDEX,
        steps_to(pre, EventView::Resolved(false), post, action),
    ensures
        action == ActionView::Abort(Fault::MappingFailed),
        post.stage == (Stage::Failed { fault: Fault::MappingFailed }),
        post.result is None,
{
}

/// A run that is over stays over: whatever is reported, the state does not
/// change and the answer is never a command nor a result.
pub proof fn lemma_over_stays_over(
    pre: ExecutorView,
    event: EventView,
    post: ExecutorView,
    action: ActionView,
)
    requires
        pre.wf(),
        pre.is_over(),
        steps_to(pre, event, post, action),
    ensures
        post == pre,
        action is Abort,
        pre.stage matches Stage::Failed { fault } ==> action == ActionView::Abort(fault),
{
}

/// A result is handed out only as the answer to the completed unmap, and it
/// is whole: one word for each group of the plan.
pub proof fn lemma_finish_is_whole(
    pre: ExecutorView,
    event: EventView,
    post: ExecutorView,
    action: ActionView,
)
    requires
        pre.wf(),
        steps_to(pre, event, post, action),
        action is Finish,
    ensures
        pre.stage matches Stage::Running { workgroup_size, plan, pending, .. } && {
            &&& pending == UNMAP_INDEX
            &&& event == EventView::Completed
            &&& pre.result == Some(action->Finish_0)
            &&& action->Finish_0.len() == plan.group_count
            &&& plan.group_count == groups_needed(pre.input.len(), workgroup_size as nat)
        },
        post.stage == Stage::Finished,
{
    if let Stage::Running { workgroup_size, .. } = pre.stage {
        lemma_plan_wf(pre.input.len(), workgroup_size as nat);
    }
}

/// While a view is held, the next answer releases it, whatever is reported.
pub proof fn lemma_view_is_released_next(
    pre: ExecutorView,
    event: EventView,
    post: ExecutorView,
    action: ActionView,
)
    requires
        pre.wf(),
        pre.staging() matches Some(staging) && staging.views > 0,
        steps_to(pre, event, post, action),
    ensures
        action == ActionView::Perform(Command::ReleaseView),
        post.staging() matches Some(staging) && staging.views == pre.staging()->Some_0.views - 1
            && staging.is_mapped(),
{
}

/// While the buffer is mapped and no view is held, the next answer unmaps
/// it, whatever is reported.
pub proof fn lemma_mapped_is_unmapped_next(
    pre: ExecutorView,
    event: EventView,
    post: ExecutorView,
    action: ActionView,
)
    requires
        pre.wf(),
        pre.staging() matches Some(staging) && staging.views == 0 && staging.is_mapped(),
        steps_to(pre, event, post, action),
    ensures
        action == ActionView::Perform(Command::Unmap { buffer: BufferRole::Staging }),
        post.staging() matches Some(staging) && staging.is_released(),
{
}

/// A run ends only with its staging buffer let go: when the answer is a
/// result or a fault, no view was held and nothing was mapped, and the state
/// after it has no staging buffer left.
pub proof fn lemma_ends_released(
    pre: ExecutorView,
    event: EventView,
    post: ExecutorView,
    action: ActionView,
)
    requires
        pre.wf(),
        steps_to(pre, event, post, action),
        action is Finish || action is Abort,
    ensures
        pre.staging() matches Some(staging) ==> staging.views == 0 && !staging.is_mapped(),
        post.staging() is None,
        post.is_over(),
{
}

/// The mapped range is looked at only while it is mapped: the command that
/// reads it is handed out only in answer to a mapping that succeeded.
pub proof fn lemma_read_follows_mapping(
    pre: ExecutorView,
    event: EventView,
    post: ExecutorView,
    action: ActionView,
)
    requires
        pre.wf(),
        steps_to(pre, event, post, action),
        action matches ActionView::Perform(command) && command is ReadMapped,
    ensures
        event == EventView::Resolved(true),
        pre.stage matches Stage::Running { pending, .. } && pending == WAIT_INDEX,
        post.staging() matches Some(staging) && staging.is_mapped() && staging.views == 1,
{
}

/// A good answer moves the run on: the executor hands out the next command of
/// the prelude or of the script, or, after the last one, the result. It never
/// answers a good answer with a fault.
pub proof fn lemma_granted_step_moves_on(
    pre: ExecutorView,
    event: EventView,
    post: ExecutorView,
    action: ActionView,
)
    requires
        pre.wf(),
        pre.is_granted_by(event),
        steps_to(pre, event, post, action),
    ensures
        !(action is Abort),
        action is Finish <==> (pre.stage matches Stage::Running { pending, .. } && pending
            == UNMAP_INDEX),
        action is Perform ==> post.is_on_track() && post.pending_command() == Some(
            action->Perform_0,
        ),
        match pre.stage {
            Stage::Idle => post.stage == (Stage::Acquiring { pending: 0 }),
            Stage::Acquiring { pending } => if pending == WIDTH_INDEX {
                post.stage matches Stage::Running { pending: first, .. } && first == 0
            } else {
                post.stage == (Stage::Acquiring { pending: (pending + 1) as usize })
            },
            Stage::Running { pending, .. } => if pending == UNMAP_INDEX {
                post.stage == Stage::Finished
            } else {
                post.stage matches Stage::Running { pending: following, .. } && following
                    == pending + 1
            },
            _ => true,
        },
{
    if let EventView::WorkgroupSize(width) = event {
        lemma_plan_wf(pre.input.len(), width as nat);
    }
}

/// Only good answers keep a run on its way: where the state after a step is
/// still on track, the state before it was, and the event was the good answer
/// to it.
pub proof fn lemma_on_track_was_granted(
    pre: ExecutorView,
    event: EventView,
    post: ExecutorView,
    action: ActionView,
)
    requires
        pre.wf(),
        steps_to(pre, event, post, action),
        post.is_on_track() || action is Finish,
    ensures
        pre.is_on_track(),
        pre.is_granted_by(event),
{
}

/// A run: the states an executor went through, the events it was given and
/// the actions it answered with, step by step.
pub struct Run {
    /// The states, the first one included: one more than there are steps.
    pub states: Seq<ExecutorView>,
    /// The event of each step.
    pub events: Seq<EventView>,
    /// The action of each step.
    pub actions: Seq<ActionView>,
}

/// Index of the step that answers the workgroup width.
pub open spec fn width_step() -> int {
    WIDTH_INDEX + 1
}

/// Index of the step that answers the script command at `index`: the first
/// step starts the run, the next ones answer the prelude.
pub open spec fn answer_step(index: int) -> int {
    index + PRELUDE_LEN + 1
}

impl Run {
    /// Number of steps taken.
    pub open spec fn steps(self) -> int {
        self.events.len() as int
    }

    /// Whether this is a run of an executor for `input`: it starts in a
    /// first state, and each step is a step of the executor.
    pub open spec fn is_run_on(self, input: Seq<u32>) -> bool {
        &&& self.states.len() == self.events.len() + 1
        &&& self.actions.len() == self.events.len()
        &&& self.states[0] == ExecutorView::initial(input, self.states[0].backend)
        &&& forall|i: int|
            0 <= i < self.events.len() ==> steps_to(
                self.states[i],
                #[trigger] self.events[i],
                self.states[i + 1],
                self.actions[i],
            )
    }

    /// What the state after `at` steps remembers of the steps before: how
    /// far the prelude or the script has come, one command for each step and
    /// in their order, which width was reported, and which bytes the words it
    /// holds were read from.
    pub open spec fn remembers(self, at: int) -> bool {
        match self.states[at].stage {
            Stage::Idle => at == 0,
            Stage::Acquiring { pending } => {
                &&& at == pending + 1
                &&& self.actions[at - 1] == ActionView::Perform(
                    prelude(self.states[at].backend)[pending as int],
                )
            },
            Stage::Running { workgroup_size, plan, pending, .. } => {
                &&& at == answer_step(pending as int)
                &&& self.actions[at - 1] == ActionView::Perform(script(plan)[pending as int])
                &&& self.events[width_step()] == EventView::WorkgroupSize(workgroup_size)
                &&& pending >= RELEASE_INDEX ==> {
                    &&& self.events[answer_step(READ_INDEX as int)] matches EventView::Bytes(bytes)
                    &&& self.states[at].result matches Some(words)
                    &&& is_native_image(bytes, words)
                }
            },
            _ => true,
        }
    }
}

/// Every state of a run is well formed, is a state for the input of the run,
/// and remembers the steps that led to it.
pub proof fn lemma_run_states(run: Run, input: Seq<u32>, at: int)
    requires
        run.is_run_on(input),
        0 <= at <= run.steps(),
    ensures
        run.states[at].wf(),
        run.states[at].input == input,
        run.remembers(at),
    decreases at,
{
    if at > 0 {
        let before = at - 1;
        lemma_run_states(run, input, before);
        let event = run.events[before];
        assert(steps_to(run.states[before], event, run.states[before + 1], run.actions[before]));
        lemma_step_keeps_wf(run.states[before], event, run.states[at], run.actions[before]);
    }
}

/// The result of a run: it is handed out at one step only, the one that
/// answers the completed unmap, and it is the bytes of the mapped range read
/// as words in the byte order of the host, one word for each group that the
/// reported width asks for.
pub proof fn lemma_run_result(run: Run, input: Seq<u32>, at: int)
    requires
        run.is_run_on(input),
        0 <= at < run.steps(),
        run.actions[at] is Finish,
    ensures
        at == answer_step(UNMAP_INDEX as int),
        run.events[width_step()] matches EventView::WorkgroupSize(width) && {
            &&& run.actions[at]->Finish_0.len() == groups_needed(input.len(), width as nat)
            &&& plan_for(input.len(), width as nat) is Ok
        },
        run.events[answer_step(READ_INDEX as int)] matches EventView::Bytes(bytes)
            && is_native_image(bytes, run.actions[at]->Finish_0),
{
    lemma_run_states(run, input, at);
    let event = run.events[at];
    assert(steps_to(run.states[at], event, run.states[at + 1], run.actions[at]));
    lemma_finish_is_whole(run.states[at], event, run.states[at + 1], run.actions[at]);
}

/// When success is owed: a run in which every answer so far was good is on
/// its way, one command further with each step, and with the answer to its
/// last command it hands out the result.
pub proof fn lemma_granted_run_succeeds(run: Run, input: Seq<u32>, at: int)
    requires
        run.is_run_on(input),
        0 <= at <= run.steps(),
        forall|i: int| 0 <= i < at ==> run.states[i].is_granted_by(#[trigger] run.events[i]),
    ensures
        at <= answer_step(UNMAP_INDEX as int) + 1,
        at <= answer_step(UNMAP_INDEX as int) ==> run.states[at].is_on_track(),
        at == answer_step(UNMAP_INDEX as int) + 1 ==> run.states[at].stage == Stage::Finished
            && run.actions[at - 1] is Finish,
        forall|i: int| 0 <= i < at ==> !(#[trigger] run.actions[i] is Abort),
    decreases at,
{
    if at > 0 {
        let before = at - 1;
        lemma_granted_run_succeeds(run, input, before);
        lemma_run_states(run, input, before);
        let event = run.events[before];
        assert(steps_to(run.states[before], event, run.states[before + 1], run.actions[before]));
        assert(run.states[before].is_granted_by(event));
        lemma_granted_step_moves_on(
            run.states[before],
            event,
            run.states[at],
            run.actions[before],
        );
        lemma_run_states(run, input, at);
    }
}

/// Success is owed to good answers only: in a run that hands out a result,
/// every answer up to then was good.
pub proof fn lemma_finished_run_was_granted(run: Run, input: Seq<u32>, at: int, earlier: int)
    requires
        run.is_run_on(input),
        0 <= earlier <= at < run.steps(),
        run.actions[at] is Finish,
    ensures
        run.states[earlier].is_on_track(),
        run.states[earlier].is_granted_by(run.events[earlier]),
    decreases at - earlier,
{
    lemma_run_states(run, input, earlier);
    let event = run.events[earlier];
    assert(steps_to(run.states[earlier], event, run.states[earlier + 1], run.actions[earlier]));
    if earlier < at {
        lemma_finished_run_was_granted(run, input, at, earlier + 1);
    }
    lemma_on_track_was_granted(
        run.states[earlier],
        event,
        run.states[earlier + 1],
        run.actions[earlier],
    );
}

/// Runs on inputs of the same length that are told the same workgroup width
/// plan the same dispatch, whatever the inputs hold: the same number of
/// groups and the same size of output.
pub proof fn lemma_runs_plan_alike(
    first: Run,
    first_input: Seq<u32>,
    first_at: int,
    second: Run,
    second_input: Seq<u32>,
    second_at: int,
)
    requires
        first.is_run_on(first_input),
        second.is_run_on(second_input),
        first_input.len() == second_input.len(),
        0 <= first_at <= first.steps(),
        0 <= second_at <= second.steps(),
        first.states[first_at].stage is Running,
        second.states[second_at].stage is Running,
        first.events[width_step()] == second.events[width_step()],
    ensures
        first.states[first_at].stage->Running_plan == second.states[second_at].stage->Running_plan,
        first.states[first_at].stage->Running_workgroup_size
            == second.states[second_at].stage->Running_workgroup_size,
        first_at == second_at ==> first.actions[first_at - 1] == second.actions[second_at - 1],
{
    lemma_run_states(first, first_input, first_at);
    lemma_run_states(second, second_input, second_at);
}

/// What is read is let go: once the command that reads the mapped range was
/// handed out, the next two answers, whatever the host reports, release the
/// view and then unmap the buffer.
pub proof fn lemma_run_unmap_follows_read(run: Run, input: Seq<u32>, at: int)
    requires
        run.is_run_on(input),
        0 <= at,
        at + 2 < run.steps(),
        run.actions[at] matches ActionView::Perform(command) && command is ReadMapped,
    ensures
        run.actions[at + 1] == ActionView::Perform(Command::ReleaseView),
        run.actions[at + 2] == ActionView::Perform(Command::Unmap { buffer: BufferRole::Staging }),
        run.states[at + 3].staging() matches Some(staging) && staging.is_released(),
{
    lemma_run_states(run, input, at);
    lemma_run_states(run, input, at + 1);
    lemma_run_states(run, input, at + 2);
    let first = run.events[at];
    let second = run.events[at + 1];
    let third = run.events[at + 2];
    assert(steps_to(run.states[at], first, run.states[at + 1], run.actions[at]));
    assert(steps_to(run.states[at + 1], second, run.states[at + 2], run.actions[at + 1]));
    assert(steps_to(run.states[at + 2], third, run.states[at + 3], run.actions[at + 2]));
    lemma_read_follows_mapping(run.states[at], first, run.states[at + 1], run.actions[at]);
    lemma_view_is_released_next(
        run.states[at + 1],
        second,
        run.states[at + 2],
        run.actions[at + 1],
    );
    lemma_mapped_is_unmapped_next(
        run.states[at + 2],
        third,
        run.states[at + 3],
        run.actions[at + 2],
    );
}

/// A run ends with nothing held: at the step that answers with a result or
/// with a fault no view is held and nothing is mapped, and every later step
/// answers with a fault and leaves the state as it is.
pub proof fn lemma_run_end(run: Run, input: Seq<u32>, at: int, later: int)
    requires
        run.is_run_on(input),
        0 <= at < later < run.steps(),
        run.actions[at] is Finish || run.actions[at] is Abort,
    ensures
        run.states[at].staging() matches Some(staging) ==> staging.views == 0
            && !staging.is_mapped(),
        run.states[later] == run.states[at + 1],
        run.states[later].is_over(),
        run.states[later].staging() is None,
        run.actions[later] is Abort,
    decreases later - at,
{
    lemma_run_states(run, input, at);
    let event = run.events[at];
    assert(steps_to(run.states[at], event, run.states[at + 1], run.actions[at]));
    lemma_ends_released(run.states[at], event, run.states[at + 1], run.actions[at]);
    if later > at + 1 {
        let before = later - 1;
        lemma_run_end(run, input, at, before);
        lemma_run_states(run, input, before);
        let middle = run.events[before];
        assert(steps_to(run.states[before], middle, run.states[before + 1], run.actions[before]));
        lemma_over_stays_over(run.states[before], middle, run.states[later], run.actions[before]);
    }
    lemma_run_states(run, input, later);
    let last = run.events[later];
    assert(steps_to(run.states[later], last, run.states[later + 1], run.actions[later]));
    lemma_over_stays_over(run.states[later], last, run.states[later + 1], run.actions[later]);
}

/// A failed mapping leaves the run without a result: the step that learns of
/// it answers with the fault, and no step of the run, before or after, hands
/// out words.
pub proof fn lemma_run_failed_mapping(run: Run, input: Seq<u32>, at: int, other: int)
    requires
        run.is_run_on(input),
        0 <= at < run.steps(),
        0 <= other < run.steps(),
        run.events[at] == EventView::Resolved(false),
        run.states[at].stage matches Stage::Running { pending, .. } && pending == WAIT_INDEX,
    ensures
        run.actions[at] == ActionView::Abort(Fault::MappingFailed),
        !(run.actions[other] is Finish),
{
    lemma_run_states(run, input, at);
    let event = run.events[at];
    assert(steps_to(run.states[at], event, run.states[at + 1], run.actions[at]));
    lemma_failed_mapping_is_fatal(run.states[at], run.states[at + 1], run.actions[at]);
    if other > at {
        lemma_run_end(run, input, at, other);
    } else if other < at {
        if run.actions[other] is Finish {
            lemma_run_result(run, input, other);
            lemma_run_end(run, input, other, at);
        }
    }
}

} // verus!
