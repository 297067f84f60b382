//! The device operations of one reduction run, as plain values.
//!
//! A run is a fixed script of commands whose sizes come from the dispatch
//! plan. The host performs each command on the device and reports back; the
//! script itself never touches the device.

use vstd::prelude::*;
use crate::plan::DispatchPlan;

verus! {

/// The graphics API through which the device is reached.
#[derive(Clone, Copy, Debug, PartialEq, Eq, Structural)]
pub enum Backend {
    /// Vulkan.
    Vulkan,
    /// Metal.
    Metal,
    /// Direct3D 12.
    Dx12,
    /// OpenGL and OpenGL ES.
    Gl,
}

/// The three buffers of a run.
#[derive(Clone, Copy, Debug, PartialEq, Eq, Structural)]
pub enum BufferRole {
    /// Device copy of the input sequence; the shader only reads it.
    Input,
    /// Device buffer the shader writes one word per group into.
    Storage,
    /// Host-readable buffer the results are copied into.
    Staging,
}

/// What a buffer may be used for.
#[derive(Clone, Copy, Debug, PartialEq, Eq, Structural)]
pub struct BufferUsage {
    /// May be bound as a storage buffer.
    pub storage: bool,
    /// May be the source of a copy.
    pub copy_src: bool,
    /// May be the destination of a copy.
    pub copy_dst: bool,
    /// May be mapped for reading by the host.
    pub map_read: bool,
}

/// One slot of the binding layout: a storage buffer visible to the compute
/// stage.
#[derive(Clone, Copy, Debug, PartialEq, Eq, Structural)]
pub struct SlotLayout {
    /// Binding index in group 0.
    pub binding: u32,
    /// Whether the shader may only read the buffer.
    pub read_only: bool,
    /// Least size in bytes of a buffer bound here, if any is demanded.
    pub min_binding_size: Option<u64>,
}

/// The buffer bound to one slot, whole.
#[derive(Clone, Copy, Debug, PartialEq, Eq, Structural)]
pub struct SlotBinding {
    /// Binding index in group 0.
    pub binding: u32,
    /// The buffer bound there.
    pub buffer: BufferRole,
}

/// One operation for the host to perform on the device.
#[derive(Clone, Copy, Debug, PartialEq, Eq, Structural)]
pub enum Command {
    /// Ask the host graphics stack for an adapter of the backend.
    RequestAdapter { backend: Backend },
    /// Ask the adapter for a device and its queue.
    RequestDevice,
    /// Ask the device for its greatest workgroup width along X.
    QueryWorkgroupSize,
    /// Compile the shader source into a module.
    CompileShader,
    /// Create the input buffer, filled with the bytes of the input sequence.
    UploadInput { usage: BufferUsage },
    /// Create an empty buffer.
    CreateBuffer { role: BufferRole, size: u64, usage: BufferUsage },
    /// Create the binding layout with its two slots.
    CreateLayout { input_layout: SlotLayout, output_layout: SlotLayout },
    /// Create the compute pipeline for the entry point over the layout.
    CreatePipeline,
    /// Bind the buffers to the slots of the layout.
    CreateBindGroup { input_binding: SlotBinding, output_binding: SlotBinding },
    /// Record one compute pass: set the pipeline, set the bind group at
    /// `bind_group_index`, dispatch the groups.
    EncodePass { bind_group_index: u32, groups_x: u32, groups_y: u32, groups_z: u32 },
    /// Record a copy between two buffers.
    EncodeCopy {
        source: BufferRole,
        source_offset: u64,
        destination: BufferRole,
        destination_offset: u64,
        size: u64,
    },
    /// Submit what was recorded as one unit.
    Submit,
    /// Request a mapping of a range for reading by the host.
    RequestMap { buffer: BufferRole, offset: u64, size: u64 },
    /// Drive the device until the mapping request has resolved.
    Wait,
    /// Take a view into the mapped range and copy its bytes out.
    ReadMapped { buffer: BufferRole, offset: u64, size: u64 },
    /// Release the view.
    ReleaseView,
    /// Unmap the buffer.
    Unmap { buffer: BufferRole },
}

/// What the host reports after a command.
#[derive(Clone, Copy, Debug, PartialEq, Eq, Structural)]
pub enum Reply {
    /// Whether what was asked for was granted.
    Resolved,
    /// The workgroup width.
    WorkgroupSize,
    /// The bytes of the mapped range.
    Bytes,
    /// Nothing but that it is done.
    Completed,
}

/// Number of commands that come before the plan is known.
pub const PRELUDE_LEN: usize = 4;

/// Index in the prelude of the command that asks for the workgroup width.
pub const WIDTH_INDEX: usize = 3;

/// Number of commands in the script of a run.
pub const SCRIPT_LEN: usize = 14;

/// Index in the script of the command that requests the mapping.
pub const REQUEST_INDEX: usize = 9;

/// Index in the script of the command that waits for the mapping.
pub const WAIT_INDEX: usize = 10;

/// Index in the script of the command that reads the mapped range.
pub const READ_INDEX: usize = 11;

/// Index in the script of the command that releases the view.
pub const RELEASE_INDEX: usize = 12;

/// Index in the script of the command that unmaps the staging buffer.
pub const UNMAP_INDEX: usize = 13;

/// Usage of the input buffer: storage only.
pub open spec fn input_usage() -> BufferUsage {
    BufferUsage { storage: true, copy_src: false, copy_dst: false, map_read: false }
}

/// Usage of the output storage buffer: storage, and the source of a copy.
pub open spec fn storage_usage() -> BufferUsage {
    BufferUsage { storage: true, copy_src: true, copy_dst: false, map_read: false }
}

/// Usage of the staging buffer: destination of a copy, readable by the host.
pub open spec fn staging_usage() -> BufferUsage {
    BufferUsage { storage: false, copy_src: false, copy_dst: true, map_read: true }
}

/// What comes before the plan: get an adapter of `backend`, get a device
/// from it, compile the shader, and ask the device how wide its workgroups
/// may be.
pub open spec fn prelude(backend: Backend) -> Seq<Command> {
    seq![
        Command::RequestAdapter { backend },
        Command::RequestDevice,
        Command::CompileShader,
        Command::QueryWorkgroupSize,
    ]
}

/// The script that runs `plan`, in the order the host performs it: create the
/// three buffers, the layout, the pipeline and the bind group; record the
/// pass and the copy to the staging buffer; submit; map the staging buffer,
/// read it, and release it.
pub open spec fn script(plan: DispatchPlan) -> Seq<Command> {
    seq![
        Command::UploadInput { usage: input_usage() },
        Command::CreateBuffer {
            role: BufferRole::Staging,
            size: plan.output_bytes,
            usage: staging_usage(),
        },
        Command::CreateBuffer {
            role: BufferRole::Storage,
            size: plan.output_bytes,
            usage: storage_usage(),
        },
        Command::CreateLayout {
            input_layout: SlotLayout { binding: 0, read_only: true, min_binding_size: None },
            output_layout: SlotLayout {
                binding: 1,
                read_only: false,
                min_binding_size: Some(plan.output_bytes),
            },
        },
        Command::CreatePipeline,
        Command::CreateBindGroup {
            input_binding: SlotBinding { binding: 0, buffer: BufferRole::Input },
            output_binding: SlotBinding { binding: 1, buffer: BufferRole::Storage },
        },
        Command::EncodePass {
            bind_group_index: 0,
            groups_x: plan.group_count,
            groups_y: 1,
            groups_z: 1,
        },
        Command::EncodeCopy {
            source: BufferRole::Storage,
            source_offset: 0,
            destination: BufferRole::Staging,
            destination_offset: 0,
            size: plan.output_bytes,
        },
        Command::Submit,
        Command::RequestMap { buffer: BufferRole::Staging, offset: 0, size: plan.output_bytes },
        Command::Wait,
        Command::ReadMapped { buffer: BufferRole::Staging, offset: 0, size: plan.output_bytes },
        Command::ReleaseView,
        Command::Unmap { buffer: BufferRole::Staging },
    ]
}

/// Every command of a run that meets no fault, in order: the prelude, then
/// the script.
pub open spec fn commands(backend: Backend, plan: DispatchPlan) -> Seq<Command> {
    prelude(backend) + script(plan)
}

/// What the host reports after `command`.
pub open spec fn reply_to(command: Command) -> Reply {
    match command {
        Command::RequestAdapter { .. } => Reply::Resolved,
        Command::RequestDevice => Reply::Resolved,
        Command::CompileShader => Reply::Resolved,
        Command::Wait => Reply::Resolved,
        Command::QueryWorkgroupSize => Reply::WorkgroupSize,
        Command::ReadMapped { .. } => Reply::Bytes,
        _ => Reply::Completed,
    }
}

/// Name of the shader entry point that the pipeline runs.
pub fn entry_point() -> (name: &'static str)
    ensures
        name@ == "reduce"@,
{
    "reduce"
}

/// The command at `index` of the prelude for `backend`.
pub(crate) fn prelude_command(backend: Backend, index: usize) -> (command: Command)
    requires
        index < PRELUDE_LEN,
    ensures
        command == prelude(backend)[index as int],
{
    if index == 0 {
        Command::RequestAdapter { backend }
    } else if index == 1 {
        Command::RequestDevice
    } else if index == 2 {
        Command::CompileShader
    } else {
        Command::QueryWorkgroupSize
    }
}

/// The command at `index` of the script that runs `plan`.
pub(crate) fn script_command(plan: DispatchPlan, index: usize) -> (command: Command)
    requires
        index < SCRIPT_LEN,
    ensures
        command == script(plan)[index as int],
{
    let size = plan.output_bytes;
    if index == 0 {
        Command::UploadInput {
            usage: BufferUsage { storage: true, copy_src: false, copy_dst: false, map_read: false },
        }
    } else if index == 1 {
        Command::CreateBuffer {
            role: BufferRole::Staging,
            size,
            usage: BufferUsage { storage: false, copy_src: false, copy_dst: true, map_read: true },
        }
    } else if index == 2 {
        Command::CreateBuffer {
            role: BufferRole::Storage,
            size,
            usage: BufferUsage { storage: true, copy_src: true, copy_dst: false, map_read: false },
        }
    } else if index == 3 {
        Command::CreateLayout {
            input_layout: SlotLayout { binding: 0, read_only: true, min_binding_size: None },
            output_layout: SlotLayout {
                binding: 1,
                read_only: false,
                min_binding_size: Some(size),
            },
        }
    } else if index == 4 {
        Command::CreatePipeline
    } else if index == 5 {
        Command::CreateBindGroup {
            input_binding: SlotBinding { binding: 0, buffer: BufferRole::Input },
            output_binding: SlotBinding { binding: 1, buffer: BufferRole::Storage },
        }
    } else if index == 6 {
        Command::EncodePass {
            bind_group_index: 0,
            groups_x: plan.group_count,
            groups_y: 1,
            groups_z: 1,
        }
    } else if index == 7 {
        Command::EncodeCopy {
            source: BufferRole::Storage,
            source_offset: 0,
            destination: BufferRole::Staging,
            destination_offset: 0,
            size,
        }
    } else if index == 8 {
        Command::Submit
    } else if index == REQUEST_INDEX {
        Command::RequestMap { buffer: BufferRole::Staging, offset: 0, size }
    } else if index == WAIT_INDEX {
        Command::Wait
    } else if index == READ_INDEX {
        Command::ReadMapped { buffer: BufferRole::Staging, offset: 0, size }
    } else if index == RELEASE_INDEX {
        Command::ReleaseView
    } else {
        Command::Unmap { buffer: BufferRole::Staging }
    }
}

/// The kind of report that answers `command`.
pub fn expected_reply(command: Command) -> (reply: Reply)
    ensures
        reply == reply_to(command),
{
    match command {
        Command::RequestAdapter { .. } => Reply::Resolved,
        Command::RequestDevice => Reply::Resolved,
        Command::CompileShader => Reply::Resolved,
        Command::Wait => Reply::Resolved,
        Command::QueryWorkgroupSize => Reply::WorkgroupSize,
        Command::ReadMapped { .. } => Reply::Bytes,
        _ => Reply::Completed,
    }
}

} // verus!
