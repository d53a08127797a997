use vpio::input::Input;
use vpio::native::{ComponentDescription, Element, Error, Property, Scope, StreamFormat};
use vpio::unit::{Callback, NativeCall, Operation, Reply, Step, VoiceProcessingUnit};

type Unit = VoiceProcessingUnit<&'static str>;
type UnitStep = Step<&'static str, i32>;

/// Runs an operation on prepared replies. Gives the calls that it made and how it ended.
fn run(
    unit: &mut Unit,
    operation: Operation<&'static str>,
    replies: Vec<Reply<i32>>,
) -> (Vec<NativeCall>, Result<(), Error<i32>>) {
    let mut operation = operation;
    let mut calls = Vec::new();
    for reply in replies {
        calls.push(operation.call());
        let step: UnitStep = unit.resume(operation, reply);
        match step {
            Step::Continue(next) => operation = next,
            Step::Finished(result) => return (calls, result),
        }
    }
    panic!("the operation did not finish")
}

fn property(id: u32, scope: Scope, element: Element) -> Property {
    Property { id, scope, element }
}

fn max_frames() -> NativeCall {
    NativeCall::GetFrames(property(14, Scope::Global, Element::Output))
}

fn stream_format() -> NativeCall {
    NativeCall::GetStreamFormat(property(8, Scope::Output, Element::Input))
}

fn input_callback() -> NativeCall {
    NativeCall::SetCallback(
        property(2005, Scope::Global, Element::Output),
        Callback::Capture,
    )
}

fn format_reply(bytes_per_frame: u32) -> Reply<i32> {
    Reply::StreamFormat(Ok(StreamFormat {
        bytes_per_frame,
        channels_per_frame: 2,
    }))
}

fn unit_with_input(bytes_per_frame: u32, frames: u32) -> Unit {
    let (mut unit, _) = Unit::new();
    let operation = unit.set_input_callback("client");
    let (_, result) = run(
        &mut unit,
        operation,
        vec![
            format_reply(bytes_per_frame),
            Reply::Frames(Ok(frames)),
            Reply::Status(Ok(())),
        ],
    );
    assert_eq!(result, Ok(()));
    unit
}

fn input(unit: &Unit) -> &Input<&'static str> {
    unit.input.as_ref().unwrap()
}

#[test]
fn creation_finds_and_instantiates_the_component() {
    let (mut unit, operation) = Unit::new();
    let (calls, result) = run(
        &mut unit,
        operation,
        vec![Reply::Component(true), Reply::Status(Ok(()))],
    );
    assert_eq!(result, Ok(()));
    assert_eq!(
        calls,
        vec![
            NativeCall::FindComponent(ComponentDescription {
                component_type: u32::from_be_bytes(*b"auou"),
                component_sub_type: u32::from_be_bytes(*b"vpio"),
                component_manufacturer: u32::from_be_bytes(*b"appl"),
                component_flags: 0,
                component_flags_mask: 0,
            }),
            NativeCall::InstantiateComponent,
        ]
    );
    assert!(unit.input.is_none());
}

#[test]
fn creation_fails_without_component_or_instance() {
    let (mut unit, operation) = Unit::new();
    let (calls, result) = run(&mut unit, operation, vec![Reply::Component(false)]);
    assert_eq!(calls.len(), 1);
    assert_eq!(result, Err(Error::NoMatchingDefaultAudioUnitFound));

    let (mut unit, operation) = Unit::new();
    let (calls, result) = run(
        &mut unit,
        operation,
        vec![Reply::Component(true), Reply::Status(Err(-50))],
    );
    assert_eq!(calls.len(), 2);
    assert_eq!(result, Err(Error::Native(-50)));
}

#[test]
fn single_call_operations_pass_the_status_on() {
    let mut unit = unit_with_input(8, 2);
    let begin: [fn(&Unit) -> Operation<&'static str>; 5] = [
        |unit| unit.set_property(21, Scope::Group, Element::Input),
        |unit| unit.get_property(29, Scope::Note, Element::Output),
        |unit| unit.set_silent_render_callback(),
        |unit| unit.start(),
        |unit| unit.stop(),
    ];
    let expected = [
        NativeCall::SetProperty(property(21, Scope::Group, Element::Input)),
        NativeCall::GetProperty(property(29, Scope::Note, Element::Output)),
        NativeCall::SetCallback(
            property(23, Scope::Input, Element::Output),
            Callback::SilentRender,
        ),
        NativeCall::Start,
        NativeCall::Stop,
    ];
    for (begin, call) in begin.into_iter().zip(expected) {
        for (status, end) in [(Ok(()), Ok(())), (Err(-10867), Err(Error::Native(-10867)))] {
            let operation = begin(&unit);
            let (calls, result) = run(&mut unit, operation, vec![Reply::Status(status)]);
            assert_eq!(calls, vec![call]);
            assert_eq!(result, end);
            assert_eq!(input(&unit).storage, vec![0, 0]);
        }
    }
}

#[test]
fn installation_allocates_before_it_installs() {
    let (mut unit, _) = Unit::new();
    let operation = unit.set_input_callback("client");
    assert_eq!(operation.call(), stream_format());
    let step: UnitStep = unit.resume(operation, format_reply(8));
    let operation = match step {
        Step::Continue(next) => next,
        Step::Finished(_) => panic!("finished early"),
    };
    assert_eq!(operation.call(), max_frames());
    let step: UnitStep = unit.resume(operation, Reply::Frames(Ok(3)));
    let mut operation = match step {
        Step::Continue(next) => next,
        Step::Finished(_) => panic!("finished early"),
    };
    assert_eq!(operation.call(), input_callback());
    assert!(unit.input.is_none());
    let context = match &mut operation {
        Operation::InstallInput { input } => {
            assert_eq!(input.storage, vec![0, 0, 0]);
            assert_eq!(input.bytes_per_frame, 8);
            assert_eq!(input.channels, 2);
            assert_eq!(input.max_frames, 3);
            assert_eq!(input.client, "client");
            input.storage.as_ptr()
        }
        _ => panic!("no input"),
    };
    let step: UnitStep = unit.resume(operation, Reply::Status(Ok(())));
    assert!(matches!(step, Step::Finished(Ok(()))));
    // The memory that the audio system was given stays where it is.
    assert_eq!(input(&unit).storage.as_ptr(), context);
}

#[test]
fn installation_failures_keep_the_former_input() {
    let cases = vec![
        (
            vec![Reply::StreamFormat(Err(-10879))],
            Err(Error::Native(-10879)),
        ),
        (
            vec![format_reply(8), Reply::Frames(Err(-10866))],
            Err(Error::Native(-10866)),
        ),
        (
            vec![format_reply(0), Reply::Frames(Ok(512))],
            Err(Error::FormatNotSupported),
        ),
        (
            vec![format_reply(8), Reply::Frames(Ok(0))],
            Err(Error::FormatNotSupported),
        ),
        (
            vec![format_reply(8), Reply::Frames(Ok(2_097_153))],
            Err(Error::FormatNotSupported),
        ),
        (
            vec![
                format_reply(8),
                Reply::Frames(Ok(7)),
                Reply::Status(Err(-10851)),
            ],
            Err(Error::Native(-10851)),
        ),
    ];
    for (replies, end) in cases {
        let mut unit = unit_with_input(4, 2);
        let n = replies.len();
        let operation = unit.set_input_callback("other");
        let (calls, result) = run(&mut unit, operation, replies);
        assert_eq!(
            calls,
            vec![stream_format(), max_frames(), input_callback()][..n].to_vec()
        );
        assert_eq!(result, end);
        assert_eq!(input(&unit).client, "client");
        assert_eq!(input(&unit).max_frames, 2);
    }
}

#[test]
fn installation_replaces_the_former_input() {
    let mut unit = unit_with_input(4, 2);
    let operation = unit.set_input_callback("other");
    let (_, result) = run(
        &mut unit,
        operation,
        vec![
            format_reply(8),
            Reply::Frames(Ok(7)),
            Reply::Status(Ok(())),
        ],
    );
    assert_eq!(result, Ok(()));
    assert_eq!(input(&unit).client, "other");
    assert_eq!(input(&unit).storage.len(), 7);
}

#[test]
fn initialization_refreshes_the_frame_limit() {
    let mut unit = unit_with_input(8, 512);
    unit.input.as_mut().unwrap().storage[511] = 4;
    let operation = unit.initialize();
    let (calls, result) = run(
        &mut unit,
        operation,
        vec![Reply::Status(Ok(())), Reply::Frames(Ok(1115))],
    );
    assert_eq!(result, Ok(()));
    assert_eq!(calls, vec![NativeCall::Initialize, max_frames()]);
    assert_eq!(input(&unit).max_frames, 1115);
    assert_eq!(input(&unit).storage.len(), 1115);
    assert_eq!(input(&unit).storage[511], 4);
    assert_eq!(input(&unit).storage[1114], 0);
    let input = unit.input.as_mut().unwrap();
    assert!(input.buffer_list(1115).is_ok());
    assert_eq!(input.buffer_list(1116).err(), Some(-10874));
}

#[test]
fn initialization_failures_keep_the_input() {
    let cases = vec![
        (vec![Reply::Status(Err(-10875))], Err(Error::Native(-10875))),
        (
            vec![Reply::Status(Ok(())), Reply::Frames(Err(-10879))],
            Err(Error::Native(-10879)),
        ),
        (
            vec![Reply::Status(Ok(())), Reply::Frames(Ok(0))],
            Err(Error::FormatNotSupported),
        ),
        (
            vec![Reply::Status(Ok(())), Reply::Frames(Ok(u32::MAX))],
            Err(Error::FormatNotSupported),
        ),
    ];
    for (replies, end) in cases {
        let mut unit = unit_with_input(8, 5);
        let n = replies.len();
        let operation = unit.initialize();
        let (calls, result) = run(&mut unit, operation, replies);
        assert_eq!(calls.len(), n);
        assert_eq!(result, end);
        assert_eq!(input(&unit).max_frames, 5);
        assert_eq!(input(&unit).storage.len(), 5);
    }
}

#[test]
fn initialization_without_input_takes_any_limit() {
    for frames in [0, 512, u32::MAX] {
        let (mut unit, _) = Unit::new();
        let operation = unit.initialize();
        let (calls, result) = run(
            &mut unit,
            operation,
            vec![Reply::Status(Ok(())), Reply::Frames(Ok(frames))],
        );
        assert_eq!(result, Ok(()));
        assert_eq!(calls.len(), 2);
        assert!(unit.input.is_none());
    }
}

#[test]
fn release_makes_every_call_and_keeps_the_input_alive() {
    for status in [Ok(()), Err(-1)] {
        let mut unit = unit_with_input(8, 2);
        let mut operation = unit.release();
        for call in [NativeCall::Stop, NativeCall::Uninitialize] {
            assert_eq!(operation.call(), call);
            let step: UnitStep = unit.resume(operation, Reply::Status(status));
            operation = match step {
                Step::Continue(next) => next,
                Step::Finished(_) => panic!("finished early"),
            };
            assert!(unit.input.is_some());
        }
        assert_eq!(operation.call(), NativeCall::Dispose);
        let step: UnitStep = unit.resume(operation, Reply::Status(status));
        assert!(matches!(step, Step::Finished(Ok(()))));
        assert!(unit.input.is_none());
    }
}
