//! The capture callback: what it does when the audio system announces captured frames.
//!
//! It reads no property, allocates nothing and resizes nothing. All that it ever asks for is to
//! render, to deliver, to report and to return.
use vstd::prelude::*;

use crate::input::{AudioBufferList, Input, frame_bytes, law_refreshed_inputs};
use crate::native::{CLIENT_FAILED, NO_ERR, OsStatus, StreamFormat, TOO_MANY_FRAMES_TO_PROCESS};

verus! {

/// What has just happened in a run of the callback.
#[derive(Debug, PartialEq, Eq)]
pub enum CaptureEvent {
    /// The audio system has called.
    Invoked,
    /// `AudioUnitRender` has returned.
    Rendered(OsStatus),
    /// The client's capture callback has returned.
    Delivered(Result<(), ()>),
    /// The client's error callback has been given this status.
    Reported(OsStatus),
}

/// What a run of the callback does next.
pub enum CaptureAction<'a> {
    /// Call `AudioUnitRender` for these frames of this bus, into these buffers.
    Render { bus: u32, frames: u32, buffers: AudioBufferList<'a> },
    /// Hand the rendered buffers to the client's capture callback.
    Deliver { bus_number: u32, num_frames: usize },
    /// Give the status to the client's error callback.
    Report { status: OsStatus },
    /// Return the status to the audio system.
    Return { status: OsStatus },
}

/// In a run for `frames` frames of `bus`, on `input`, the callback answers `event` with `action`.
pub open spec fn answers<C>(
    input: Input<C>,
    bus: u32,
    frames: u32,
    event: CaptureEvent,
    action: CaptureAction<'_>,
) -> bool {
    match event {
        CaptureEvent::Invoked => if frames <= input.max_frames {
            &&& action matches CaptureAction::Render { bus: b, frames: f, buffers }
            &&& b == bus
            &&& f == frames
            &&& buffers.number_buffers == 1
            &&& buffers.buffer.number_channels == input.channels
            &&& buffers.buffer.data_byte_size == frame_bytes(
                frames as int,
                input.bytes_per_frame as int,
            )
            &&& buffers.buffer.data_byte_size <= 8 * buffers.buffer.data@.len()
            &&& buffers.buffer.data@ == input.storage@
        } else {
            action == (CaptureAction::Report { status: TOO_MANY_FRAMES_TO_PROCESS })
        },
        CaptureEvent::Rendered(status) => if status == NO_ERR {
            action == (CaptureAction::Deliver { bus_number: bus, num_frames: frames as usize })
        } else {
            action == (CaptureAction::Report { status })
        },
        CaptureEvent::Delivered(delivered) => action == (CaptureAction::Return {
            status: if delivered is Ok {
                NO_ERR
            } else {
                CLIENT_FAILED
            },
        }),
        CaptureEvent::Reported(status) => action == (CaptureAction::Return { status }),
    }
}

/// Answers an event of a run for `frames` frames of `bus`. Only what is written through the
/// buffers of a `Render` can change the input, and there only the contents of the storage.
pub fn capture<C>(input: &mut Input<C>, bus: u32, frames: u32, event: CaptureEvent) -> (action:
    CaptureAction<'_>)
    requires
        old(input).wf(),
    ensures
        answers(*old(input), bus, frames, event, action),
        event is Invoked && frames <= old(input).max_frames ==> {
            &&& action matches CaptureAction::Render { bus: b, frames: f, buffers }
            &&& b == bus
            &&& f == frames
            &&& buffers.number_buffers == 1
            &&& buffers.buffer.number_channels == old(input).channels
            &&& buffers.buffer.data_byte_size == frames * old(input).bytes_per_frame
            &&& buffers.buffer.data@ == old(input).storage@
        },
        event is Invoked && frames > old(input).max_frames ==> {
            &&& action matches CaptureAction::Report { status }
            &&& status == -10874
        },
        event matches CaptureEvent::Rendered(rendered) && rendered == 0 ==> {
            &&& action matches CaptureAction::Deliver { bus_number, num_frames }
            &&& bus_number == bus
            &&& num_frames == frames
        },
        event matches CaptureEvent::Rendered(rendered) ==> (rendered != 0 ==> {
            &&& action matches CaptureAction::Report { status }
            &&& status == rendered
        }),
        event matches CaptureEvent::Delivered(Ok(())) ==> {
            &&& action matches CaptureAction::Return { status }
            &&& status == 0
        },
        event matches CaptureEvent::Delivered(Err(())) ==> {
            &&& action matches CaptureAction::Return { status }
            &&& status == -1
        },
        event matches CaptureEvent::Reported(reported) ==> {
            &&& action matches CaptureAction::Return { status }
            &&& status == reported
        },
        match action {
            CaptureAction::Render { buffers, .. } => {
                &&& final(input).storage@ == final(buffers.buffer.data)@
                &&& final(input).client == old(input).client
                &&& final(input).bytes_per_frame == old(input).bytes_per_frame
                &&& final(input).channels == old(input).channels
                &&& final(input).max_frames == old(input).max_frames
                &&& final(buffers.buffer.data)@.len() == old(input).storage@.len() ==> final(input).wf()
            },
            _ => *final(input) == *old(input),
        },
{
    match event {
        CaptureEvent::Invoked => match input.buffer_list(frames) {
            Ok(buffers) => CaptureAction::Render { bus, frames, buffers },
            Err(status) => CaptureAction::Report { status },
        },
        CaptureEvent::Rendered(status) => if status != NO_ERR {
            CaptureAction::Report { status }
        } else {
            CaptureAction::Deliver { bus_number: bus, num_frames: frames as usize }
        },
        CaptureEvent::Delivered(Ok(())) => CaptureAction::Return { status: NO_ERR },
        CaptureEvent::Delivered(Err(())) => CaptureAction::Return { status: CLIENT_FAILED },
        CaptureEvent::Reported(status) => CaptureAction::Return { status },
    }
}

/// What the audio system gets back from a run, given the status of the render call and the answer
/// of the client, where the run gets that far.
pub open spec fn run_status(
    max_frames: u32,
    frames: u32,
    rendered: OsStatus,
    delivered: Result<(), ()>,
) -> OsStatus {
    if frames > max_frames {
        TOO_MANY_FRAMES_TO_PROCESS
    } else if rendered != NO_ERR {
        rendered
    } else if delivered is Err {
        CLIENT_FAILED
    } else {
        NO_ERR
    }
}

/// A run that is for too many frames, or whose render call fails, reports exactly that status to
/// the client's error callback, and returns it: every bounds violation and every native error
/// reaches the client. No such run delivers anything. Every other run delivers, reports nothing,
/// and succeeds exactly when the client does.
pub proof fn law_capture_run<C>(
    input: Input<C>,
    bus: u32,
    frames: u32,
    rendered: OsStatus,
    delivered: Result<(), ()>,
    invoked: CaptureAction<'_>,
    after_render: CaptureAction<'_>,
    last: CaptureAction<'_>,
)
    requires
        answers(input, bus, frames, CaptureEvent::Invoked, invoked),
        answers(input, bus, frames, CaptureEvent::Rendered(rendered), after_render),
        match (invoked, after_render) {
            (CaptureAction::Report { status }, _) => answers(
                input,
                bus,
                frames,
                CaptureEvent::Reported(status),
                last,
            ),
            (_, CaptureAction::Report { status }) => answers(
                input,
                bus,
                frames,
                CaptureEvent::Reported(status),
                last,
            ),
            _ => answers(input, bus, frames, CaptureEvent::Delivered(delivered), last),
        },
    ensures
        last == (CaptureAction::Return {
            status: run_status(input.max_frames, frames, rendered, delivered),
        }),
        invoked matches CaptureAction::Report { status } ==> last == (CaptureAction::Return {
            status,
        }) && status != NO_ERR,
        invoked is Report <==> frames > input.max_frames,
        invoked is Render <==> frames <= input.max_frames,
        after_render is Report <==> rendered != NO_ERR,
        after_render is Deliver <==> rendered == NO_ERR,
        invoked is Render ==> (after_render matches CaptureAction::Report { status } ==> last == (
        CaptureAction::Return { status })),
        // What is rendered is what was announced, into as many bytes as those frames take.
        invoked matches CaptureAction::Render { bus: b, frames: f, buffers } ==> {
            &&& b == bus
            &&& f == frames
            &&& buffers.number_buffers == 1
            &&& buffers.buffer.number_channels == input.channels
            &&& buffers.buffer.data_byte_size == frames * input.bytes_per_frame
            &&& buffers.buffer.data@ == input.storage@
        },
        // What is delivered is what was announced.
        after_render matches CaptureAction::Deliver { bus_number, num_frames } ==> {
            &&& bus_number == bus
            &&& num_frames == frames
        },
        // What is reported is what went wrong.
        invoked matches CaptureAction::Report { status } ==> status == -10874,
        after_render matches CaptureAction::Report { status } ==> status == rendered,
        rendered == 0 <==> after_render is Deliver,
        // What is returned.
        last is Return,
        frames > input.max_frames ==> last->Return_status == -10874,
        frames <= input.max_frames && rendered != 0 ==> last->Return_status == rendered,
        frames <= input.max_frames && rendered == 0 && delivered is Err ==> last->Return_status
            == -1,
        frames <= input.max_frames && rendered == 0 && delivered is Ok ==> last->Return_status
            == 0,
{
}

/// From installation over initialization to capture: whatever limit the input was allocated for, a
/// run gets room for its frames in the format that was read at installation, exactly up to the
/// limit that was read after initialization.
pub proof fn law_capture_follows_format<C>(
    client: C,
    format: StreamFormat,
    installed_limit: u32,
    initialized_limit: u32,
    installed: Input<C>,
    initialized: Input<C>,
    bus: u32,
    frames: u32,
    action: CaptureAction<'_>,
)
    requires
        installed.is_fresh(client, format, installed_limit),
        installed.refreshed(initialized_limit, initialized),
        answers(initialized, bus, frames, CaptureEvent::Invoked, action),
    ensures
        frames > initialized_limit ==> action == (CaptureAction::Report {
            status: TOO_MANY_FRAMES_TO_PROCESS,
        }),
        frames <= initialized_limit ==> {
            &&& action matches CaptureAction::Render { buffers, .. }
            &&& buffers.buffer.data_byte_size == frame_bytes(
                frames as int,
                format.bytes_per_frame as int,
            )
            &&& buffers.buffer.number_channels == format.channels_per_frame
            &&& buffers.buffer.data_byte_size == frames * format.bytes_per_frame
            &&& initialized_limit * format.bytes_per_frame <= 8 * buffers.buffer.data@.len()
        },
{
    law_refreshed_inputs(installed, initialized_limit, initialized);
}

/// A delivery is of the frames that were rendered before it: the client is told of the same bus, of
/// the same number of frames, and so of exactly as many bytes as were made room for.
pub proof fn law_delivery_matches_rendering<C>(
    input: Input<C>,
    bus: u32,
    frames: u32,
    rendering: CaptureAction<'_>,
    delivery: CaptureAction<'_>,
)
    requires
        frames <= input.max_frames,
        answers(input, bus, frames, CaptureEvent::Invoked, rendering),
        answers(input, bus, frames, CaptureEvent::Rendered(0), delivery),
    ensures
        rendering is Render,
        delivery is Deliver,
        delivery->num_frames == rendering->Render_frames,
        delivery->bus_number == rendering->Render_bus,
        delivery->num_frames * input.bytes_per_frame
            == rendering->Render_buffers.buffer.data_byte_size,
{
}

/// Runs for different frames, or on different buses, are told apart by the client: no two
/// announcements lead to the same delivery.
pub proof fn law_deliveries_differ<C>(
    input: Input<C>,
    first: (u32, u32),
    second: (u32, u32),
    first_delivery: CaptureAction<'_>,
    second_delivery: CaptureAction<'_>,
)
    requires
        answers(input, first.0, first.1, CaptureEvent::Rendered(0), first_delivery),
        answers(input, second.0, second.1, CaptureEvent::Rendered(0), second_delivery),
    ensures
        first_delivery is Deliver,
        second_delivery is Deliver,
        first_delivery->bus_number == second_delivery->bus_number <==> first.0 == second.0,
        first_delivery->num_frames == second_delivery->num_frames <==> first.1 == second.1,
{
}

/// Once a run is under way, the input has no say: after a render call, a delivery or a report, the
/// next action follows from what came back, whatever the format, the limit and the storage are.
pub proof fn law_replies_decide<C>(
    input: Input<C>,
    other: Input<C>,
    bus: u32,
    frames: u32,
    event: CaptureEvent,
    action: CaptureAction<'_>,
    other_action: CaptureAction<'_>,
)
    requires
        event !is Invoked,
        answers(input, bus, frames, event, action),
        answers(other, bus, frames, event, other_action),
    ensures
        action !is Render,
        action == other_action,
        event is Delivered || event is Reported ==> action is Return,
        event matches CaptureEvent::Reported(status) ==> action->Return_status == status,
        event matches CaptureEvent::Delivered(Ok(())) ==> action->Return_status == 0,
        event matches CaptureEvent::Delivered(Err(())) ==> action->Return_status == -1,
        event matches CaptureEvent::Rendered(status) ==> (action is Report <==> status != 0),
        event matches CaptureEvent::Rendered(status) ==> (status != 0 ==> action->Report_status
            == status),
{
}

} // verus!
