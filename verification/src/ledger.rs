//! What a sequence of commands has created, and whether each command uses
//! only what was created for that use.
//!
//! A buffer can be the source of a copy only if it was created as one, can be
//! mapped only if it was created readable, and so on. The commands of a run
//! keep to that, whatever the plan.

use vstd::prelude::*;
use crate::command::commands;
use crate::command::Backend;
use crate::command::BufferRole;
use crate::command::BufferUsage;
use crate::command::Command;
use crate::command::PRELUDE_LEN;
use crate::command::SCRIPT_LEN;
use crate::plan::DispatchPlan;
use crate::plan::WORD_BYTES;

verus! {

/// A buffer as a command created it.
pub struct Created {
    /// Size in bytes, where the command gives one; the input buffer is as
    /// large as the input.
    pub size: Option<u64>,
    /// What it was created for.
    pub usage: BufferUsage,
}

/// The buffer of `role` that `command` creates, if it creates one.
pub open spec fn creation(command: Command, role: BufferRole) -> Option<Created> {
    match command {
        Command::UploadInput { usage } if role == BufferRole::Input => Some(
            Created { size: None, usage },
        ),
        Command::CreateBuffer { role: created, size, usage } if created == role => Some(
            Created { size: Some(size), usage },
        ),
        _ => None,
    }
}

/// The buffer of `role` as the commands before `index` left it: what the
/// last of them that created it made.
pub open spec fn created_before(commands: Seq<Command>, index: int, role: BufferRole) -> Option<
    Created,
>
    decreases index,
{
    if index <= 0 {
        None
    } else if creation(commands[index - 1], role) is Some {
        creation(commands[index - 1], role)
    } else {
        created_before(commands, index - 1, role)
    }
}

/// Whether one of the commands before `index` is `command`.
pub open spec fn issued_before(commands: Seq<Command>, index: int, command: Command) -> bool {
    exists|earlier: int| 0 <= earlier < index && commands[earlier] == command
}

/// Whether the bytes from `offset` on, `size` of them, lie within `created`.
pub open spec fn holds_range(created: Option<Created>, offset: u64, size: u64) -> bool {
    created matches Some(buffer) && buffer.size matches Some(total) && offset + size <= total
}

/// Whether the command at `index` uses only what the commands before it
/// provide.
pub open spec fn is_backed(commands: Seq<Command>, index: int) -> bool {
    match commands[index] {
        Command::RequestDevice => exists|earlier: int|
            0 <= earlier < index && #[trigger] commands[earlier] is RequestAdapter,
        Command::QueryWorkgroupSize => issued_before(commands, index, Command::RequestDevice),
        Command::CompileShader => issued_before(commands, index, Command::RequestDevice),
        Command::UploadInput { .. } => issued_before(commands, index, Command::RequestDevice),
        Command::CreateBuffer { role, size, usage } => {
            &&& issued_before(commands, index, Command::RequestDevice)
            &&& created_before(commands, index, role) is None
            &&& size > 0
        },
        Command::CreateLayout { input_layout, output_layout } => {
            &&& issued_before(commands, index, Command::RequestDevice)
            &&& input_layout.binding != output_layout.binding
        },
        Command::CreateBindGroup { input_binding, output_binding } => {
            &&& created_before(commands, index, input_binding.buffer) matches Some(input)
            &&& input.usage.storage
            &&& created_before(commands, index, output_binding.buffer) matches Some(output)
            &&& output.usage.storage
            &&& exists|earlier: int|
                0 <= earlier < index && (#[trigger] commands[earlier] matches Command::CreateLayout {
                    input_layout,
                    output_layout,
                } && {
                    &&& input_layout.binding == input_binding.binding
                    &&& output_layout.binding == output_binding.binding
                    &&& output_layout.min_binding_size matches Some(least) ==> holds_range(
                        Some(output),
                        0,
                        least,
                    )
                })
        },
        Command::CreatePipeline => {
            &&& issued_before(commands, index, Command::CompileShader)
            &&& exists|earlier: int|
                0 <= earlier < index && #[trigger] commands[earlier] is CreateLayout
        },
        Command::EncodePass { groups_x, groups_y, groups_z, .. } => {
            &&& issued_before(commands, index, Command::CreatePipeline)
            &&& exists|earlier: int|
                0 <= earlier < index && #[trigger] commands[earlier] is CreateBindGroup
            &&& groups_x >= 1 && groups_y >= 1 && groups_z >= 1
        },
        Command::EncodeCopy { source, source_offset, destination, destination_offset, size } => {
            &&& source != destination
            &&& created_before(commands, index, source) matches Some(from) && from.usage.copy_src
            &&& created_before(commands, index, destination) matches Some(to) && to.usage.copy_dst
            &&& holds_range(created_before(commands, index, source), source_offset, size)
            &&& holds_range(created_before(commands, index, destination), destination_offset, size)
            &&& size % WORD_BYTES == 0
        },
        Command::Submit => exists|earlier: int|
            0 <= earlier < index && #[trigger] commands[earlier] is EncodePass,
        Command::RequestMap { buffer, offset, size } => {
            &&& created_before(commands, index, buffer) matches Some(mapped)
                && mapped.usage.map_read
            &&& holds_range(created_before(commands, index, buffer), offset, size)
            &&& issued_before(commands, index, Command::Submit)
        },
        Command::Wait => exists|earlier: int|
            0 <= earlier < index && #[trigger] commands[earlier] is RequestMap,
        Command::ReadMapped { buffer, offset, size } => {
            &&& index >= 2
            &&& commands[index - 1] == Command::Wait
            &&& commands[index - 2] == (Command::RequestMap { buffer, offset, size })
        },
        Command::ReleaseView => index >= 1 && commands[index - 1] is ReadMapped,
        Command::Unmap { buffer } => {
            &&& index >= 2
            &&& commands[index - 1] == Command::ReleaseView
            &&& commands[index - 2] matches Command::ReadMapped { buffer: read, .. } && read
                == buffer
        },
        Command::RequestAdapter { .. } => true,
    }
}

/// Every command of a run uses only what the commands before it provide, for
/// the use it was provided for and within its size: nothing is asked of a
/// device before there is one, the shader is bound to storage buffers, the
/// copy goes from a copy source to a copy destination of the same size, the
/// buffer that is mapped is readable by the host, and the mapped range is
/// read, released and unmapped in that order.
pub proof fn lemma_commands_are_backed(backend: Backend, plan: DispatchPlan, index: int)
    requires
        plan.wf(),
        0 <= index < PRELUDE_LEN + SCRIPT_LEN,
    ensures
        commands(backend, plan).len() == PRELUDE_LEN + SCRIPT_LEN,
        is_backed(commands(backend, plan), index),
{
    let all = commands(backend, plan);
    reveal_with_fuel(created_before, 20);
    assert(all[0] is RequestAdapter);
    assert(all[1] == Command::RequestDevice);
    assert(all[2] == Command::CompileShader);
    assert(all[7] is CreateLayout);
    assert(all[8] == Command::CreatePipeline);
    assert(all[9] is CreateBindGroup);
    assert(all[10] is EncodePass);
    assert(all[12] == Command::Submit);
    assert(all[13] is RequestMap);
}

/// The three buffers of a run are created once each, and the two that hold
/// results are as large as the plan says.
pub proof fn lemma_buffers_created_once(backend: Backend, plan: DispatchPlan)
    ensures
        created_before(commands(backend, plan), PRELUDE_LEN + SCRIPT_LEN, BufferRole::Input)
            matches Some(input) && input.usage.storage && !input.usage.map_read,
        created_before(commands(backend, plan), PRELUDE_LEN + SCRIPT_LEN, BufferRole::Storage)
            matches Some(storage) && storage.size == Some(plan.output_bytes)
            && storage.usage.storage && storage.usage.copy_src,
        created_before(commands(backend, plan), PRELUDE_LEN + SCRIPT_LEN, BufferRole::Staging)
            matches Some(staging) && staging.size == Some(plan.output_bytes)
            && staging.usage.copy_dst && staging.usage.map_read && !staging.usage.storage,
        forall|first: int, second: int, role: BufferRole|
            0 <= first < PRELUDE_LEN + SCRIPT_LEN && 0 <= second < PRELUDE_LEN + SCRIPT_LEN
                && #[trigger] creation(commands(backend, plan)[first], role) is Some
                && #[trigger] creation(commands(backend, plan)[second], role) is Some ==> first
                == second,
{
    reveal_with_fuel(created_before, 20);
}

} // verus!
