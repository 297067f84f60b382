use gpu_reduce::command::entry_point;
use gpu_reduce::command::expected_reply;
use gpu_reduce::command::Backend;
use gpu_reduce::command::BufferRole;
use gpu_reduce::command::BufferUsage;
use gpu_reduce::command::Command;
use gpu_reduce::command::Reply;
use gpu_reduce::command::SlotBinding;
use gpu_reduce::command::SlotLayout;
use gpu_reduce::command::PRELUDE_LEN;
use gpu_reduce::command::SCRIPT_LEN;
use gpu_reduce::executor::answers;
use gpu_reduce::executor::refusal_fault;
use gpu_reduce::executor::Action;
use gpu_reduce::executor::Event;
use gpu_reduce::executor::Executor;
use gpu_reduce::executor::Fault;
use gpu_reduce::executor::Stage;
use gpu_reduce::plan::DispatchPlan;
use gpu_reduce::plan::PlanError;
use gpu_reduce::staging::MapState;
use gpu_reduce::staging::Staging;

const STORAGE_ONLY: BufferUsage =
    BufferUsage { storage: true, copy_src: false, copy_dst: false, map_read: false };
const STORAGE_AND_COPY: BufferUsage =
    BufferUsage { storage: true, copy_src: true, copy_dst: false, map_read: false };
const COPY_TARGET_READABLE: BufferUsage =
    BufferUsage { storage: false, copy_src: false, copy_dst: true, map_read: true };

/// The script for a plan, written out.
fn expected_script(plan: DispatchPlan) -> Vec<Command> {
    let size = plan.output_bytes;
    vec![
        Command::UploadInput { usage: STORAGE_ONLY },
        Command::CreateBuffer { role: BufferRole::Staging, size, usage: COPY_TARGET_READABLE },
        Command::CreateBuffer { role: BufferRole::Storage, size, usage: STORAGE_AND_COPY },
        Command::CreateLayout {
            input_layout: SlotLayout { binding: 0, read_only: true, min_binding_size: None },
            output_layout: SlotLayout { binding: 1, read_only: false, min_binding_size: Some(size) },
        },
        Command::CreatePipeline,
        Command::CreateBindGroup {
            input_binding: SlotBinding { binding: 0, buffer: BufferRole::Input },
            output_binding: SlotBinding { binding: 1, buffer: BufferRole::Storage },
        },
        Command::EncodePass { bind_group_index: 0, groups_x: plan.group_count, groups_y: 1, groups_z: 1 },
        Command::EncodeCopy {
            source: BufferRole::Storage,
            source_offset: 0,
            destination: BufferRole::Staging,
            destination_offset: 0,
            size,
        },
        Command::Submit,
        Command::RequestMap { buffer: BufferRole::Staging, offset: 0, size },
        Command::Wait,
        Command::ReadMapped { buffer: BufferRole::Staging, offset: 0, size },
        Command::ReleaseView,
        Command::Unmap { buffer: BufferRole::Staging },
    ]
}

/// The event that a well-behaved host answers `command` with, given what the
/// device would say.
fn answer(command: Command, width: u32, mapped: &[u8]) -> Event {
    match expected_reply(command) {
        Reply::Resolved => Event::Resolved(true),
        Reply::WorkgroupSize => Event::WorkgroupSize(width),
        Reply::Bytes => Event::Bytes(mapped.to_vec()),
        Reply::Completed => Event::Completed,
    }
}

/// Drives an executor with a well-behaved host until the run is over.
fn drive(input: Vec<u32>, width: u32, mapped: &[u8]) -> (Vec<Command>, Action) {
    let mut performed = Vec::new();
    let (mut executor, mut action) = Executor::new(input, Backend::Dx12).step(Event::Start);
    for _ in 0..100 {
        match action {
            Action::Perform(command) => {
                performed.push(command);
                let next = executor.step(answer(command, width, mapped));
                executor = next.0;
                action = next.1;
            }
            last => return (performed, last),
        }
    }
    panic!("the run did not end");
}

/// Drives an executor with a well-behaved host until `stop` has been handed
/// out, and returns it with that command pending.
fn drive_until(input: Vec<u32>, width: u32, stop: Command) -> Executor {
    let (mut executor, mut action) = Executor::new(input, Backend::Dx12).step(Event::Start);
    for _ in 0..100 {
        match action {
            Action::Perform(command) if command == stop => return executor,
            Action::Perform(command) => {
                let next = executor.step(answer(command, width, &[]));
                executor = next.0;
                action = next.1;
            }
            other => panic!("the run ended early with {:?}", other),
        }
    }
    panic!("the command was never handed out");
}

fn native_bytes(words: &[u32]) -> Vec<u8> {
    let mut bytes = Vec::new();
    for word in words {
        bytes.extend_from_slice(&word.to_ne_bytes());
    }
    bytes
}

#[test]
fn entry_point_is_reduce() {
    assert_eq!(entry_point(), "reduce");
}

#[test]
fn prelude_acquires_the_device_then_asks_its_width() {
    assert_eq!(PRELUDE_LEN, 4);
    for backend in [Backend::Vulkan, Backend::Metal, Backend::Dx12, Backend::Gl] {
        let mut performed = Vec::new();
        let (mut executor, mut action) = Executor::new(vec![1, 2, 3], backend).step(Event::Start);
        for _ in 0..PRELUDE_LEN {
            match action {
                Action::Perform(command) => {
                    performed.push(command);
                    let next = executor.step(answer(command, 2, &[]));
                    executor = next.0;
                    action = next.1;
                }
                other => panic!("the run ended early with {:?}", other),
            }
        }
        assert_eq!(
            performed,
            vec![
                Command::RequestAdapter { backend },
                Command::RequestDevice,
                Command::CompileShader,
                Command::QueryWorkgroupSize,
            ]
        );
    }
}

#[test]
fn script_is_the_fixed_sequence() {
    let plan = DispatchPlan { group_count: 3, output_bytes: 12 };
    let expected = expected_script(plan);
    assert_eq!(expected.len(), SCRIPT_LEN);
    let (performed, last) = drive(vec![7; 5], 2, &[0; 12]);
    assert_eq!(&performed[PRELUDE_LEN..], &expected[..]);
    assert_eq!(performed.len(), PRELUDE_LEN + SCRIPT_LEN);
    assert_eq!(last, Action::Finish(vec![0, 0, 0]));
}

#[test]
fn replies_match_their_commands() {
    assert_eq!(expected_reply(Command::RequestAdapter { backend: Backend::Gl }), Reply::Resolved);
    assert_eq!(expected_reply(Command::RequestDevice), Reply::Resolved);
    assert_eq!(expected_reply(Command::CompileShader), Reply::Resolved);
    assert_eq!(expected_reply(Command::Wait), Reply::Resolved);
    assert_eq!(expected_reply(Command::QueryWorkgroupSize), Reply::WorkgroupSize);
    assert_eq!(
        expected_reply(Command::ReadMapped { buffer: BufferRole::Staging, offset: 0, size: 4 }),
        Reply::Bytes
    );
    assert_eq!(expected_reply(Command::Submit), Reply::Completed);
    assert_eq!(expected_reply(Command::ReleaseView), Reply::Completed);
    assert!(answers(&Event::Resolved(false), Command::Wait));
    assert!(answers(&Event::Completed, Command::Submit));
    assert!(answers(&Event::Bytes(vec![]), Command::ReadMapped { buffer: BufferRole::Staging, offset: 0, size: 4 }));
    assert!(!answers(&Event::Completed, Command::Wait));
    assert!(!answers(&Event::Start, Command::Submit));
    assert!(!answers(&Event::WorkgroupSize(4), Command::RequestDevice));
}

#[test]
fn refusals_have_their_faults() {
    assert_eq!(refusal_fault(Command::RequestAdapter { backend: Backend::Dx12 }), Fault::NoAdapter);
    assert_eq!(refusal_fault(Command::RequestDevice), Fault::DeviceRejected);
    assert_eq!(refusal_fault(Command::CompileShader), Fault::ShaderRejected);
    assert_eq!(refusal_fault(Command::Wait), Fault::MappingFailed);
    assert_eq!(refusal_fault(Command::Submit), Fault::UnexpectedEvent);
}

#[test]
fn run_of_the_reference_input() {
    let input: Vec<u32> = (1..320_000).collect();
    let written: Vec<u32> = (0..1250u32).map(|group| group.wrapping_mul(2_654_435_761)).collect();
    let mapped = native_bytes(&written);
    assert_eq!(mapped.len(), 5000);

    let (performed, last) = drive(input, 256, &mapped);

    let plan = DispatchPlan { group_count: 1250, output_bytes: 5000 };
    let mut expected = vec![
        Command::RequestAdapter { backend: Backend::Dx12 },
        Command::RequestDevice,
        Command::CompileShader,
        Command::QueryWorkgroupSize,
    ];
    expected.extend(expected_script(plan));
    assert_eq!(performed, expected);
    match last {
        Action::Finish(words) => {
            assert_eq!(words.len(), 1250);
            assert_eq!(words, written);
        }
        other => panic!("expected a result, got {:?}", other),
    }
}

#[test]
fn run_twice_gives_the_same_commands() {
    let mapped = native_bytes(&[3, 10, 24]);
    let first = drive(vec![1, 2, 3, 4, 5, 6, 7, 8, 9], 4, &mapped);
    let second = drive(vec![1, 2, 3, 4, 5, 6, 7, 8, 9], 4, &mapped);
    assert_eq!(first, second);
    assert_eq!(first.1, Action::Finish(vec![3, 10, 24]));
    // Another input of the same length is planned alike.
    let third = drive(vec![9; 9], 4, &mapped);
    assert_eq!(first.0, third.0);
}

#[test]
fn run_unmaps_after_reading() {
    let (performed, last) = drive(vec![5; 10], 4, &native_bytes(&[20, 20, 10]));
    assert_eq!(last, Action::Finish(vec![20, 20, 10]));
    let tail = &performed[performed.len() - 4..];
    assert_eq!(
        tail,
        &[
            Command::Wait,
            Command::ReadMapped { buffer: BufferRole::Staging, offset: 0, size: 12 },
            Command::ReleaseView,
            Command::Unmap { buffer: BufferRole::Staging },
        ]
    );
}

#[test]
fn input_bytes_are_the_memory_of_the_input() {
    let input = vec![1u32, 0x0102_0304, u32::MAX, 0];
    let executor = Executor::new(input.clone(), Backend::Dx12);
    assert_eq!(executor.input_len(), 4);
    let bytes = executor.input_bytes();
    assert_eq!(bytes.len(), 16);
    assert_eq!(bytes, native_bytes(&input));
    let little: Vec<u8> = vec![1, 0, 0, 0, 4, 3, 2, 1, 255, 255, 255, 255, 0, 0, 0, 0];
    let big: Vec<u8> = vec![0, 0, 0, 1, 1, 2, 3, 4, 255, 255, 255, 255, 0, 0, 0, 0];
    assert!(bytes == little || bytes == big);
}

#[test]
fn mapped_bytes_are_read_as_words() {
    let executor = drive_until(
        vec![7; 5],
        2,
        Command::ReadMapped { buffer: BufferRole::Staging, offset: 0, size: 12 },
    );
    let bytes: Vec<u8> = vec![1, 0, 0, 0, 4, 3, 2, 1, 0, 0, 0, 128];
    let (executor, action) = executor.step(Event::Bytes(bytes.clone()));
    assert_eq!(action, Action::Perform(Command::ReleaseView));
    let (executor, action) = executor.step(Event::Completed);
    assert_eq!(action, Action::Perform(Command::Unmap { buffer: BufferRole::Staging }));
    let (executor, action) = executor.step(Event::Completed);
    let little = vec![1u32, 0x0102_0304, 0x8000_0000];
    let big = vec![0x0100_0000u32, 0x0403_0201, 0x0000_0080];
    match action {
        Action::Finish(words) => {
            assert!(words == little || words == big);
            assert_eq!(native_bytes(&words), bytes);
        }
        other => panic!("expected a result, got {:?}", other),
    }
    assert_eq!(executor.stage(), Stage::Finished);
}

#[test]
fn stages_follow_the_script() {
    let executor = Executor::new(vec![1, 2, 3], Backend::Metal);
    assert_eq!(executor.stage(), Stage::Idle);
    let (executor, action) = executor.step(Event::Start);
    assert_eq!(action, Action::Perform(Command::RequestAdapter { backend: Backend::Metal }));
    assert_eq!(executor.stage(), Stage::Acquiring { pending: 0 });
    let (executor, _) = executor.step(Event::Resolved(true));
    assert_eq!(executor.stage(), Stage::Acquiring { pending: 1 });
    let (executor, action) = executor.step(Event::Resolved(true));
    assert_eq!(action, Action::Perform(Command::CompileShader));
    assert_eq!(executor.stage(), Stage::Acquiring { pending: 2 });
    let (executor, action) = executor.step(Event::Resolved(true));
    assert_eq!(action, Action::Perform(Command::QueryWorkgroupSize));
    assert_eq!(executor.stage(), Stage::Acquiring { pending: 3 });
    let (executor, action) = executor.step(Event::WorkgroupSize(2));
    assert_eq!(action, Action::Perform(Command::UploadInput { usage: STORAGE_ONLY }));
    let plan = DispatchPlan { group_count: 2, output_bytes: 8 };
    assert_eq!(
        executor.stage(),
        Stage::Running {
            workgroup_size: 2,
            plan,
            pending: 0,
            staging: Staging { size: 8, state: MapState::Unmapped, views: 0 },
        }
    );
    let executor = drive_until(vec![1, 2, 3], 2, Command::Wait);
    assert_eq!(
        executor.stage(),
        Stage::Running {
            workgroup_size: 2,
            plan,
            pending: 10,
            staging: Staging { size: 8, state: MapState::MapRequested, views: 0 },
        }
    );
    let (executor, _) = executor.step(Event::Resolved(true));
    assert_eq!(
        executor.stage(),
        Stage::Running {
            workgroup_size: 2,
            plan,
            pending: 11,
            staging: Staging { size: 8, state: MapState::Mapped, views: 1 },
        }
    );
    let (executor, _) = executor.step(Event::Bytes(vec![0; 8]));
    assert_eq!(
        executor.stage(),
        Stage::Running {
            workgroup_size: 2,
            plan,
            pending: 12,
            staging: Staging { size: 8, state: MapState::Read, views: 0 },
        }
    );
    let (executor, _) = executor.step(Event::Completed);
    assert_eq!(
        executor.stage(),
        Stage::Running {
            workgroup_size: 2,
            plan,
            pending: 13,
            staging: Staging { size: 8, state: MapState::Unmapped, views: 0 },
        }
    );
}

#[test]
fn mapping_failure_is_fatal() {
    let executor = drive_until((1..320_000).collect(), 256, Command::Wait);
    let (executor, action) = executor.step(Event::Resolved(false));
    assert_eq!(action, Action::Abort(Fault::MappingFailed));
    assert_eq!(executor.stage(), Stage::Failed { fault: Fault::MappingFailed });
    // Nothing follows: no command, no partial result.
    let (executor, action) = executor.step(Event::Bytes(vec![0; 5000]));
    assert_eq!(action, Action::Abort(Fault::MappingFailed));
    let (executor, action) = executor.step(Event::Completed);
    assert_eq!(action, Action::Abort(Fault::MappingFailed));
    assert_eq!(executor.stage(), Stage::Failed { fault: Fault::MappingFailed });
}

#[test]
fn missing_adapter_is_fatal() {
    let (executor, _) = Executor::new(vec![1, 2, 3], Backend::Dx12).step(Event::Start);
    let (executor, action) = executor.step(Event::Resolved(false));
    assert_eq!(action, Action::Abort(Fault::NoAdapter));
    assert_eq!(executor.stage(), Stage::Failed { fault: Fault::NoAdapter });
}

#[test]
fn rejected_device_is_fatal() {
    let executor = drive_until(vec![1, 2, 3], 2, Command::RequestDevice);
    let (executor, action) = executor.step(Event::Resolved(false));
    assert_eq!(action, Action::Abort(Fault::DeviceRejected));
    assert_eq!(executor.stage(), Stage::Failed { fault: Fault::DeviceRejected });
}

#[test]
fn rejected_shader_is_fatal() {
    let executor = drive_until(vec![1, 2, 3], 2, Command::CompileShader);
    let (executor, action) = executor.step(Event::Resolved(false));
    assert_eq!(action, Action::Abort(Fault::ShaderRejected));
    assert_eq!(executor.stage(), Stage::Failed { fault: Fault::ShaderRejected });
}

#[test]
fn empty_input_cannot_be_planned() {
    let executor = drive_until(vec![], 256, Command::QueryWorkgroupSize);
    let (executor, action) = executor.step(Event::WorkgroupSize(256));
    assert_eq!(action, Action::Abort(Fault::Plan(PlanError::EmptyInput)));
    assert_eq!(executor.stage(), Stage::Failed { fault: Fault::Plan(PlanError::EmptyInput) });
}

#[test]
fn zero_width_cannot_be_planned() {
    let executor = drive_until(vec![1, 2, 3], 0, Command::QueryWorkgroupSize);
    let (_, action) = executor.step(Event::WorkgroupSize(0));
    assert_eq!(action, Action::Abort(Fault::Plan(PlanError::ZeroWorkgroupSize)));
}

#[test]
fn wrong_length_is_let_go_then_fatal() {
    let read = Command::ReadMapped { buffer: BufferRole::Staging, offset: 0, size: 12 };
    for length in [0usize, 4, 8, 11, 13, 16] {
        let executor = drive_until(vec![7; 5], 2, read);
        let (executor, action) = executor.step(Event::Bytes(vec![0; length]));
        assert_eq!(action, Action::Perform(Command::ReleaseView));
        assert_eq!(
            executor.stage(),
            Stage::Draining {
                fault: Fault::WrongLength,
                staging: Staging { size: 12, state: MapState::Mapped, views: 0 },
            }
        );
        let (executor, action) = executor.step(Event::Completed);
        assert_eq!(action, Action::Perform(Command::Unmap { buffer: BufferRole::Staging }));
        let (executor, action) = executor.step(Event::Completed);
        assert_eq!(action, Action::Abort(Fault::WrongLength));
        assert_eq!(executor.stage(), Stage::Failed { fault: Fault::WrongLength });
    }
}

#[test]
fn unexpected_event_while_viewed_lets_go_first() {
    let read = Command::ReadMapped { buffer: BufferRole::Staging, offset: 0, size: 12 };
    let executor = drive_until(vec![7; 5], 2, read);
    let (executor, action) = executor.step(Event::Completed);
    assert_eq!(action, Action::Perform(Command::ReleaseView));
    // While letting go, whatever is reported counts as done.
    let (executor, action) = executor.step(Event::Bytes(vec![0; 12]));
    assert_eq!(action, Action::Perform(Command::Unmap { buffer: BufferRole::Staging }));
    let (executor, action) = executor.step(Event::Resolved(false));
    assert_eq!(action, Action::Abort(Fault::UnexpectedEvent));
    assert_eq!(executor.stage(), Stage::Failed { fault: Fault::UnexpectedEvent });
}

#[test]
fn unexpected_event_after_release_still_unmaps() {
    let read = Command::ReadMapped { buffer: BufferRole::Staging, offset: 0, size: 12 };
    let executor = drive_until(vec![7; 5], 2, read);
    let (executor, action) = executor.step(Event::Bytes(vec![0; 12]));
    assert_eq!(action, Action::Perform(Command::ReleaseView));
    let (executor, action) = executor.step(Event::Resolved(true));
    assert_eq!(action, Action::Perform(Command::Unmap { buffer: BufferRole::Staging }));
    let (_, action) = executor.step(Event::Completed);
    assert_eq!(action, Action::Abort(Fault::UnexpectedEvent));
}

#[test]
fn unexpected_event_before_mapping_is_fatal_at_once() {
    let (_, action) = Executor::new(vec![1], Backend::Dx12).step(Event::Completed);
    assert_eq!(action, Action::Abort(Fault::UnexpectedEvent));
    let executor = drive_until(vec![1, 2, 3], 2, Command::Submit);
    let (_, action) = executor.step(Event::Resolved(true));
    assert_eq!(action, Action::Abort(Fault::UnexpectedEvent));
    let executor = drive_until(vec![1, 2, 3], 2, Command::RequestDevice);
    let (_, action) = executor.step(Event::Completed);
    assert_eq!(action, Action::Abort(Fault::UnexpectedEvent));
    let executor = drive_until(vec![1, 2, 3], 2, Command::Wait);
    let (_, action) = executor.step(Event::Start);
    assert_eq!(action, Action::Abort(Fault::UnexpectedEvent));
}

#[test]
fn finished_run_answers_nothing_more() {
    let input = vec![7; 5];
    let (mut executor, mut action) = Executor::new(input, Backend::Dx12).step(Event::Start);
    while let Action::Perform(command) = action {
        let next = executor.step(answer(command, 2, &[0; 12]));
        executor = next.0;
        action = next.1;
    }
    assert_eq!(action, Action::Finish(vec![0, 0, 0]));
    assert_eq!(executor.stage(), Stage::Finished);
    let (executor, action) = executor.step(Event::Completed);
    assert_eq!(action, Action::Abort(Fault::UnexpectedEvent));
    assert_eq!(executor.stage(), Stage::Finished);
}
