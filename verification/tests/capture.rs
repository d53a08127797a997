use vpio::capture::{capture, CaptureAction, CaptureEvent};
use vpio::input::Input;
use vpio::native::StreamFormat;

fn input() -> Input<()> {
    let format = StreamFormat {
        bytes_per_frame: 8,
        channels_per_frame: 2,
    };
    Input::allocate((), format, 4).unwrap()
}

/// A whole run. Gives the status returned, the statuses reported and the frames delivered.
fn run(
    input: &mut Input<()>,
    frames: u32,
    rendered: i32,
    delivered: Result<(), ()>,
) -> (i32, Vec<i32>, Vec<(u32, usize)>) {
    let mut reported = Vec::new();
    let mut delivery = Vec::new();
    let mut event = CaptureEvent::Invoked;
    loop {
        event = match capture(input, 1, frames, event) {
            CaptureAction::Render {
                bus,
                frames: asked,
                buffers,
            } => {
                assert_eq!((bus, asked), (1, frames));
                assert_eq!(buffers.number_buffers, 1);
                assert_eq!(buffers.buffer.data_byte_size, frames * 8);
                assert_eq!(buffers.buffer.number_channels, 2);
                buffers.buffer.data[0] = 77;
                CaptureEvent::Rendered(rendered)
            }
            CaptureAction::Deliver {
                bus_number,
                num_frames,
            } => {
                delivery.push((bus_number, num_frames));
                CaptureEvent::Delivered(delivered)
            }
            CaptureAction::Report { status } => {
                reported.push(status);
                CaptureEvent::Reported(status)
            }
            CaptureAction::Return { status } => return (status, reported, delivery),
        };
    }
}

#[test]
fn frames_are_rendered_and_delivered() {
    let mut input = input();
    assert_eq!(run(&mut input, 3, 0, Ok(())), (0, vec![], vec![(1, 3)]));
    assert_eq!(input.storage, vec![77, 0, 0, 0]);
    assert_eq!(run(&mut input, 4, 0, Ok(())), (0, vec![], vec![(1, 4)]));
    assert_eq!(run(&mut input, 0, 0, Ok(())), (0, vec![], vec![(1, 0)]));
    assert_eq!(input.storage.len(), 4);
}

#[test]
fn too_many_frames_are_reported_and_not_rendered() {
    let mut input = input();
    assert_eq!(
        run(&mut input, 5, 0, Ok(())),
        (-10874, vec![-10874], vec![])
    );
    assert_eq!(input.storage, vec![0, 0, 0, 0]);
}

#[test]
fn render_errors_are_reported_and_not_delivered() {
    let mut input = input();
    assert_eq!(
        run(&mut input, 2, -10863, Ok(())),
        (-10863, vec![-10863], vec![])
    );
    assert_eq!(run(&mut input, 2, 1, Err(())), (1, vec![1], vec![]));
}

#[test]
fn a_refusing_client_fails_the_run_unreported() {
    let mut input = input();
    assert_eq!(run(&mut input, 2, 0, Err(())), (-1, vec![], vec![(1, 2)]));
}

#[test]
fn captures_follow_the_format_up_to_the_refreshed_limit() {
    let format = StreamFormat {
        bytes_per_frame: 6,
        channels_per_frame: 3,
    };
    let mut input = Input::allocate((), format, 4).unwrap();
    assert!(input.refresh(9));
    match capture(&mut input, 1, 9, CaptureEvent::Invoked) {
        CaptureAction::Render { buffers, .. } => {
            assert_eq!(buffers.buffer.data_byte_size, 54);
            assert_eq!(buffers.buffer.number_channels, 3);
            assert_eq!(buffers.buffer.data.len(), 7);
        }
        _ => panic!("not rendered"),
    }
    assert!(matches!(
        capture(&mut input, 1, 10, CaptureEvent::Invoked),
        CaptureAction::Report { status: -10874 }
    ));
}
