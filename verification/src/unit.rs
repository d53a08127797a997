//! The voice processing unit: which native calls each operation makes, in which order, and what it
//! does with their replies.
//!
//! A method of [`VoiceProcessingUnit`] begins an operation. The owner makes the native call that
//! [`Operation::call`] names and hands the reply to [`VoiceProcessingUnit::resume`], until the
//! operation finishes.
use vstd::prelude::*;

use crate::input::{
    Input, frame_bytes, law_fresh_inputs, law_refreshed_inputs, storage_supported,
};
use crate::native::{
    ComponentDescription, Element, Error, Property, Scope, StreamFormat,
    PROPERTY_MAXIMUM_FRAMES_PER_SLICE, PROPERTY_SET_INPUT_CALLBACK, PROPERTY_SET_RENDER_CALLBACK,
    PROPERTY_STREAM_FORMAT, UNIT_MANUFACTURER_APPLE, UNIT_SUB_TYPE_VOICE_PROCESSING_IO,
    UNIT_TYPE_OUTPUT,
};

verus! {

/// A callback that the unit installs, with the context it is installed with.
#[derive(Clone, Copy, Debug, PartialEq, Eq, Structural)]
pub enum Callback {
    /// The silent output, with no context.
    SilentRender,
    /// The capture, with the pending input as its context.
    Capture,
}

/// A call into the audio system.
#[derive(Clone, Copy, Debug, PartialEq, Eq, Structural)]
pub enum NativeCall {
    /// `AudioComponentFindNext`, from the start.
    FindComponent(ComponentDescription),
    /// `AudioComponentInstanceNew`, on the component found.
    InstantiateComponent,
    /// `AudioUnitSetProperty`, with the value that the owner holds.
    SetProperty(Property),
    /// `AudioUnitGetProperty`, of a value for the owner.
    GetProperty(Property),
    /// `AudioUnitSetProperty`, with a callback as the value.
    SetCallback(Property, Callback),
    /// `AudioUnitGetProperty`, of a stream format.
    GetStreamFormat(Property),
    /// `AudioUnitGetProperty`, of a number of frames.
    GetFrames(Property),
    /// `AudioUnitInitialize`.
    Initialize,
    /// `AudioOutputUnitStart`.
    Start,
    /// `AudioOutputUnitStop`.
    Stop,
    /// `AudioUnitUninitialize`.
    Uninitialize,
    /// `AudioComponentInstanceDispose`.
    Dispose,
}

/// What a native call came back with.
#[derive(Debug, PartialEq, Eq)]
pub enum Reply<E> {
    /// Whether there is a component.
    Component(bool),
    /// Whether the call succeeded.
    Status(Result<(), E>),
    StreamFormat(Result<StreamFormat, E>),
    Frames(Result<u32, E>),
}

/// An operation under way, named after the native call that it waits for.
pub enum Operation<C> {
    FindComponent,
    InstantiateComponent,
    SetProperty { property: Property },
    GetProperty { property: Property },
    InstallSilence,
    ReadStreamFormat { client: C },
    ReadMaximumFrames { client: C, format: StreamFormat },
    InstallInput { input: Box<Input<C>> },
    Initialize,
    RefreshMaximumFrames,
    Start,
    Stop,
    ReleaseStop,
    ReleaseUninitialize,
    ReleaseDispose,
}

/// How an operation goes on after a reply.
pub enum Step<C, E> {
    Continue(Operation<C>),
    Finished(Result<(), Error<E>>),
}

/// A voice processing unit. It owns the input that its capture callback works on.
pub struct VoiceProcessingUnit<C> {
    pub input: Option<Box<Input<C>>>,
}

/// The component that a voice processing unit is an instance of.
pub open spec fn voice_processing_component() -> ComponentDescription {
    ComponentDescription {
        component_type: UNIT_TYPE_OUTPUT,
        component_sub_type: UNIT_SUB_TYPE_VOICE_PROCESSING_IO,
        component_manufacturer: UNIT_MANUFACTURER_APPLE,
        component_flags: 0,
        component_flags_mask: 0,
    }
}

/// Where the format of the captured samples is read: what leaves the input bus.
pub open spec fn capture_format_property() -> Property {
    Property { id: PROPERTY_STREAM_FORMAT, scope: Scope::Output, element: Element::Input }
}

/// Where the largest number of frames per callback is read.
pub open spec fn maximum_frames_property() -> Property {
    Property {
        id: PROPERTY_MAXIMUM_FRAMES_PER_SLICE,
        scope: Scope::Global,
        element: Element::Output,
    }
}

/// Where the callback that fills the output bus is installed.
pub open spec fn render_callback_property() -> Property {
    Property { id: PROPERTY_SET_RENDER_CALLBACK, scope: Scope::Input, element: Element::Output }
}

/// Where the callback that is told of captured frames is installed.
pub open spec fn input_callback_property() -> Property {
    Property { id: PROPERTY_SET_INPUT_CALLBACK, scope: Scope::Global, element: Element::Output }
}

impl<C> Operation<C> {
    pub open spec fn wf(self) -> bool {
        self matches Operation::InstallInput { input } ==> input.wf()
    }

    /// The native call that the operation waits for.
    pub open spec fn native_call(self) -> NativeCall {
        match self {
            Operation::FindComponent => NativeCall::FindComponent(voice_processing_component()),
            Operation::InstantiateComponent => NativeCall::InstantiateComponent,
            Operation::SetProperty { property } => NativeCall::SetProperty(property),
            Operation::GetProperty { property } => NativeCall::GetProperty(property),
            Operation::InstallSilence => NativeCall::SetCallback(
                render_callback_property(),
                Callback::SilentRender,
            ),
            Operation::ReadStreamFormat { .. } => NativeCall::GetStreamFormat(
                capture_format_property(),
            ),
            Operation::ReadMaximumFrames { .. } | Operation::RefreshMaximumFrames =>
                NativeCall::GetFrames(maximum_frames_property()),
            Operation::InstallInput { .. } => NativeCall::SetCallback(
                input_callback_property(),
                Callback::Capture,
            ),
            Operation::Initialize => NativeCall::Initialize,
            Operation::Start => NativeCall::Start,
            Operation::Stop | Operation::ReleaseStop => NativeCall::Stop,
            Operation::ReleaseUninitialize => NativeCall::Uninitialize,
            Operation::ReleaseDispose => NativeCall::Dispose,
        }
    }

    /// Whether `reply` is of the kind that the operation's native call comes back with.
    pub open spec fn awaits<E>(self, reply: Reply<E>) -> bool {
        match self.native_call() {
            NativeCall::FindComponent(_) => reply is Component,
            NativeCall::GetStreamFormat(_) => reply is StreamFormat,
            NativeCall::GetFrames(_) => reply is Frames,
            _ => reply is Status,
        }
    }

    /// The native call to make next.
    pub fn call(&self) -> (call: NativeCall)
        ensures
            call == self.native_call(),
            self matches Operation::SetProperty { property } ==> call == NativeCall::SetProperty(
                *property,
            ),
            self matches Operation::GetProperty { property } ==> call == NativeCall::GetProperty(
                *property,
            ),
    {
        match self {
            Operation::FindComponent => NativeCall::FindComponent(
                ComponentDescription {
                    component_type: UNIT_TYPE_OUTPUT,
                    component_sub_type: UNIT_SUB_TYPE_VOICE_PROCESSING_IO,
                    component_manufacturer: UNIT_MANUFACTURER_APPLE,
                    component_flags: 0,
                    component_flags_mask: 0,
                },
            ),
            Operation::InstantiateComponent => NativeCall::InstantiateComponent,
            Operation::SetProperty { property } => NativeCall::SetProperty(*property),
            Operation::GetProperty { property } => NativeCall::GetProperty(*property),
            Operation::InstallSilence => NativeCall::SetCallback(
                property(PROPERTY_SET_RENDER_CALLBACK, Scope::Input, Element::Output),
                Callback::SilentRender,
            ),
            Operation::ReadStreamFormat { .. } => NativeCall::GetStreamFormat(
                property(PROPERTY_STREAM_FORMAT, Scope::Output, Element::Input),
            ),
            Operation::ReadMaximumFrames { .. } | Operation::RefreshMaximumFrames =>
                NativeCall::GetFrames(
                property(PROPERTY_MAXIMUM_FRAMES_PER_SLICE, Scope::Global, Element::Output),
            ),
            Operation::InstallInput { .. } => NativeCall::SetCallback(
                property(PROPERTY_SET_INPUT_CALLBACK, Scope::Global, Element::Output),
                Callback::Capture,
            ),
            Operation::Initialize => NativeCall::Initialize,
            Operation::Start => NativeCall::Start,
            Operation::Stop | Operation::ReleaseStop => NativeCall::Stop,
            Operation::ReleaseUninitialize => NativeCall::Uninitialize,
            Operation::ReleaseDispose => NativeCall::Dispose,
        }
    }
}

fn property(id: u32, scope: Scope, element: Element) -> (property: Property)
    ensures
        property == (Property { id, scope, element }),
{
    Property { id, scope, element }
}

/// How an operation that was one native call ends.
pub open spec fn outcome<E>(status: Result<(), E>) -> Result<(), Error<E>> {
    match status {
        Ok(()) => Ok(()),
        Err(error) => Err(Error::Native(error)),
    }
}

/// `operation`, on `before`, is answered by `reply`: it leaves the unit as `after` and goes on with
/// `step`.
pub open spec fn resumes<C, E>(
    before: VoiceProcessingUnit<C>,
    operation: Operation<C>,
    reply: Reply<E>,
    after: VoiceProcessingUnit<C>,
    step: Step<C, E>,
) -> bool {
    match (operation, reply) {
        // Creation: a component is searched, then instantiated.
        (Operation::FindComponent, Reply::Component(found)) => {
            &&& after == before
            &&& step == if found {
                Step::<C, E>::Continue(Operation::InstantiateComponent)
            } else {
                Step::Finished(Err(Error::NoMatchingDefaultAudioUnitFound))
            }
        },
        // Installing the capture: format, frame limit, allocation, then the callback. The input
        // becomes the unit's own only once the audio system has accepted it.
        (Operation::ReadStreamFormat { client }, Reply::StreamFormat(format)) => {
            &&& after == before
            &&& step == match format {
                Ok(format) => Step::<C, E>::Continue(
                    Operation::ReadMaximumFrames { client, format },
                ),
                Err(error) => Step::Finished(Err(Error::Native(error))),
            }
        },
        (Operation::ReadMaximumFrames { client, format }, Reply::Frames(frames)) => {
            &&& after == before
            &&& match frames {
                Ok(frames) => if storage_supported(
                    frame_bytes(frames as int, format.bytes_per_frame as int),
                ) {
                    &&& step matches Step::Continue(Operation::InstallInput { input })
                    &&& input.is_fresh(client, format, frames)
                } else {
                    step == Step::<C, E>::Finished(Err(Error::FormatNotSupported))
                },
                Err(error) => step == Step::<C, E>::Finished(Err(Error::Native(error))),
            }
        },
        (Operation::InstallInput { input }, Reply::Status(status)) => {
            &&& after.input == if status is Ok {
                Some(input)
            } else {
                before.input
            }
            &&& step == Step::<C, E>::Finished(outcome(status))
        },
        // Initialization: the frame limit can have grown, so the storage is refreshed.
        (Operation::Initialize, Reply::Status(status)) => {
            &&& after == before
            &&& step == match status {
                Ok(()) => Step::<C, E>::Continue(Operation::RefreshMaximumFrames),
                Err(error) => Step::Finished(Err(Error::Native(error))),
            }
        },
        (Operation::RefreshMaximumFrames, Reply::Frames(frames)) => match (frames, before.input) {
            (Ok(frames), Some(input)) => if storage_supported(
                frame_bytes(frames as int, input.bytes_per_frame as int),
            ) {
                &&& after.input matches Some(refreshed)
                &&& input.refreshed(frames, *refreshed)
                &&& step == Step::<C, E>::Finished(Ok(()))
            } else {
                &&& after == before
                &&& step == Step::<C, E>::Finished(Err(Error::FormatNotSupported))
            },
            (Ok(_), None) => {
                &&& after == before
                &&& step == Step::<C, E>::Finished(Ok(()))
            },
            (Err(error), _) => {
                &&& after == before
                &&& step == Step::<C, E>::Finished(Err(Error::Native(error)))
            },
        },
        // Release: every call is made, whatever the one before it returned. The input outlives
        // them all.
        (Operation::ReleaseStop, Reply::Status(_)) => {
            &&& after == before
            &&& step == Step::<C, E>::Continue(Operation::ReleaseUninitialize)
        },
        (Operation::ReleaseUninitialize, Reply::Status(_)) => {
            &&& after == before
            &&& step == Step::<C, E>::Continue(Operation::ReleaseDispose)
        },
        (Operation::ReleaseDispose, Reply::Status(_)) => {
            &&& after.input is None
            &&& step == Step::<C, E>::Finished(Ok(()))
        },
        // Everything else is one native call.
        (_, Reply::Status(status)) => {
            &&& after == before
            &&& step == Step::<C, E>::Finished(outcome(status))
        },
        _ => false,
    }
}

impl<C> VoiceProcessingUnit<C> {
    pub open spec fn wf(self) -> bool {
        self.input matches Some(input) ==> input.wf()
    }

    /// Begins to create a unit. The unit, which has no input yet, is there once the operation has
    /// finished with `Ok`. It is left uninitialized, so that devices and callbacks can be
    /// configured first.
    pub fn new() -> (created: (Self, Operation<C>))
        ensures
            created.0.input is None,
            created.0.wf(),
            created.1 == Operation::<C>::FindComponent,
            created.1.native_call() == NativeCall::FindComponent(
                ComponentDescription {
                    component_type: 0x6175_6f75,
                    component_sub_type: 0x7670_696f,
                    component_manufacturer: 0x6170_706c,
                    component_flags: 0,
                    component_flags_mask: 0,
                },
            ),
    {
        (VoiceProcessingUnit { input: None }, Operation::FindComponent)
    }

    /// Begins to set a property to a value that the owner holds.
    pub fn set_property(&self, id: u32, scope: Scope, element: Element) -> (operation: Operation<C>)
        ensures
            operation == (Operation::<C>::SetProperty { property: Property { id, scope, element } }),
            operation.native_call() == NativeCall::SetProperty(Property { id, scope, element }),
    {
        Operation::SetProperty { property: property(id, scope, element) }
    }

    /// Begins to read a property into a value of the owner's.
    pub fn get_property(&self, id: u32, scope: Scope, element: Element) -> (operation: Operation<C>)
        ensures
            operation == (Operation::<C>::GetProperty { property: Property { id, scope, element } }),
            operation.native_call() == NativeCall::GetProperty(Property { id, scope, element }),
    {
        Operation::GetProperty { property: property(id, scope, element) }
    }

    /// Begins to initialize the unit, and to adapt the input to what initialization changed.
    pub fn initialize(&self) -> (operation: Operation<C>)
        ensures
            operation == Operation::<C>::Initialize,
            operation.native_call() == NativeCall::Initialize,
    {
        Operation::Initialize
    }

    /// Begins to start the unit.
    pub fn start(&self) -> (operation: Operation<C>)
        ensures
            operation == Operation::<C>::Start,
            operation.native_call() == NativeCall::Start,
    {
        Operation::Start
    }

    /// Begins to stop the unit.
    pub fn stop(&self) -> (operation: Operation<C>)
        ensures
            operation == Operation::<C>::Stop,
            operation.native_call() == NativeCall::Stop,
    {
        Operation::Stop
    }

    /// Begins to install the silent output.
    pub fn set_silent_render_callback(&self) -> (operation: Operation<C>)
        ensures
            operation == Operation::<C>::InstallSilence,
            operation.native_call() == NativeCall::SetCallback(
                Property { id: 23, scope: Scope::Input, element: Element::Output },
                Callback::SilentRender,
            ),
    {
        Operation::InstallSilence
    }

    /// Begins to install the capture callback, on an input of `client`'s.
    pub fn set_input_callback(&self, client: C) -> (operation: Operation<C>)
        ensures
            operation == (Operation::<C>::ReadStreamFormat { client }),
            operation.native_call() == NativeCall::GetStreamFormat(
                Property { id: 8, scope: Scope::Output, element: Element::Input },
            ),
    {
        Operation::ReadStreamFormat { client }
    }

    /// Begins to give the unit up: to stop, uninitialize and dispose of it.
    pub fn release(&self) -> (operation: Operation<C>)
        ensures
            operation == Operation::<C>::ReleaseStop,
            operation.native_call() == NativeCall::Stop,
    {
        Operation::ReleaseStop
    }

    /// Takes the reply to the operation's native call, and says how the operation goes on.
    pub fn resume<E>(&mut self, operation: Operation<C>, reply: Reply<E>) -> (step: Step<C, E>)
        requires
            old(self).wf(),
            operation.wf(),
            operation.awaits(reply),
        ensures
            final(self).wf(),
            step matches Step::Continue(next) ==> next.wf(),
            resumes(*old(self), operation, reply, *final(self), step),
    {
        match (operation, reply) {
            (Operation::FindComponent, Reply::Component(found)) => if found {
                Step::Continue(Operation::InstantiateComponent)
            } else {
                Step::Finished(Err(Error::NoMatchingDefaultAudioUnitFound))
            },
            (Operation::ReadStreamFormat { client }, Reply::StreamFormat(format)) => match format {
                Ok(format) => Step::Continue(Operation::ReadMaximumFrames { client, format }),
                Err(error) => Step::Finished(Err(Error::Native(error))),
            },
            (Operation::ReadMaximumFrames { client, format }, Reply::Frames(frames)) => match frames {
                Ok(frames) => match Input::allocate(client, format, frames) {
                    Some(input) => Step::Continue(
                        Operation::InstallInput { input: Box::new(input) },
                    ),
                    None => Step::Finished(Err(Error::FormatNotSupported)),
                },
                Err(error) => Step::Finished(Err(Error::Native(error))),
            },
            (Operation::InstallInput { input }, Reply::Status(status)) => {
                if status.is_ok() {
                    self.input = Some(input);
                }
                finished(status)
            },
            (Operation::Initialize, Reply::Status(status)) => match status {
                Ok(()) => Step::Continue(Operation::RefreshMaximumFrames),
                Err(error) => Step::Finished(Err(Error::Native(error))),
            },
            (Operation::RefreshMaximumFrames, Reply::Frames(frames)) => match frames {
                Ok(frames) => self.refresh_input(frames),
                Err(error) => Step::Finished(Err(Error::Native(error))),
            },
            (Operation::ReleaseStop, _) => Step::Continue(Operation::ReleaseUninitialize),
            (Operation::ReleaseUninitialize, _) => Step::Continue(Operation::ReleaseDispose),
            (Operation::ReleaseDispose, _) => {
                self.input = None;
                Step::Finished(Ok(()))
            },
            (_, Reply::Status(status)) => finished(status),
            // No operation awaits any other reply.
            _ => Step::Finished(Ok(())),
        }
    }

    /// Adapts the input, where there is one, to the frame limit that initialization settled on.
    fn refresh_input<E>(&mut self, frames: u32) -> (step: Step<C, E>)
        requires
            old(self).wf(),
        ensures
            final(self).wf(),
            resumes(
                *old(self),
                Operation::RefreshMaximumFrames,
                Reply::Frames(Ok(frames)),
                *final(self),
                step,
            ),
    {
        match &mut self.input {
            Some(input) => if input.refresh(frames) {
                Step::Finished(Ok(()))
            } else {
                Step::Finished(Err(Error::FormatNotSupported))
            },
            None => Step::Finished(Ok(())),
        }
    }
}

/// The end of an operation that was one native call.
fn finished<C, E>(status: Result<(), E>) -> (step: Step<C, E>)
    ensures
        step == Step::<C, E>::Finished(outcome(status)),
{
    match status {
        Ok(()) => Step::Finished(Ok(())),
        Err(error) => Step::Finished(Err(Error::Native(error))),
    }
}

/// The native calls that an operation still makes, at most.
pub open spec fn remaining_calls<C>(operation: Operation<C>) -> nat {
    match operation {
        Operation::ReadStreamFormat { .. } | Operation::ReleaseStop => 3,
        Operation::FindComponent
        | Operation::ReadMaximumFrames { .. }
        | Operation::Initialize
        | Operation::ReleaseUninitialize => 2,
        _ => 1,
    }
}

/// Every reply brings an operation nearer to its end: it finishes after three native calls at most.
pub proof fn law_operations_finish<C, E>(
    before: VoiceProcessingUnit<C>,
    operation: Operation<C>,
    reply: Reply<E>,
    after: VoiceProcessingUnit<C>,
    step: Step<C, E>,
)
    requires
        resumes(before, operation, reply, after, step),
    ensures
        remaining_calls(operation) <= 3,
        step matches Step::Continue(next) ==> remaining_calls(next) < remaining_calls(operation),
{
}

/// An operation that fails leaves the unit as it was. Besides, nothing ever touches the input but
/// the end of an installation, of an initialization or of a release: in particular neither
/// starting nor stopping does.
pub proof fn law_input_is_stable<C, E>(
    before: VoiceProcessingUnit<C>,
    operation: Operation<C>,
    reply: Reply<E>,
    after: VoiceProcessingUnit<C>,
    step: Step<C, E>,
)
    requires
        resumes(before, operation, reply, after, step),
    ensures
        step is Continue ==> after == before,
        step matches Step::Finished(Err(_)) ==> after == before,
        !(operation is InstallInput || operation is RefreshMaximumFrames
            || operation is ReleaseDispose) ==> after == before,
{
}

/// A unit is created exactly when there is a voice processing component and it could be
/// instantiated. It then has no input.
pub proof fn law_creation<C, E>(
    units: (VoiceProcessingUnit<C>, VoiceProcessingUnit<C>, VoiceProcessingUnit<C>),
    found: bool,
    instantiated: Result<(), E>,
    steps: (Step<C, E>, Step<C, E>),
)
    requires
        units.0.input is None,
        resumes(units.0, Operation::FindComponent, Reply::Component(found), units.1, steps.0),
        steps.0 matches Step::Continue(next) ==> resumes(
            units.1,
            next,
            Reply::Status(instantiated),
            units.2,
            steps.1,
        ),
    ensures
        units.1.input is None,
        !found ==> steps.0 == Step::<C, E>::Finished(Err(Error::NoMatchingDefaultAudioUnitFound)),
        found ==> {
            &&& steps.0 == Step::<C, E>::Continue(Operation::InstantiateComponent)
            &&& steps.1 == Step::<C, E>::Finished(outcome(instantiated))
            &&& units.2.input is None
            &&& instantiated is Ok ==> steps.1 == Step::<C, E>::Finished(Ok(()))
            &&& instantiated matches Err(error) ==> steps.1 == Step::<C, E>::Finished(
                Err(Error::Native(error)),
            )
        },
{
}

/// Setting or reading a property, installing the silent output, starting and stopping are one
/// native call each: its result is the operation's, and the unit stays as it is.
pub proof fn law_single_calls<C, E>(
    before: VoiceProcessingUnit<C>,
    operation: Operation<C>,
    status: Result<(), E>,
    after: VoiceProcessingUnit<C>,
    step: Step<C, E>,
)
    requires
        operation is SetProperty || operation is GetProperty || operation is InstallSilence
            || operation is Start || operation is Stop,
        resumes(before, operation, Reply::Status(status), after, step),
    ensures
        after == before,
        step == Step::<C, E>::Finished(outcome(status)),
        status is Ok ==> step == Step::<C, E>::Finished(Ok(())),
        status matches Err(error) ==> step == Step::<C, E>::Finished(Err(Error::Native(error))),
{
}

/// How installing a capture callback ends, given what its native calls come back with.
pub open spec fn installation<E>(
    format: Result<StreamFormat, E>,
    frames: Result<u32, E>,
    installed: Result<(), E>,
) -> Result<(), Error<E>> {
    match (format, frames) {
        (Err(error), _) => Err(Error::Native(error)),
        (Ok(_), Err(error)) => Err(Error::Native(error)),
        (Ok(format), Ok(frames)) => if storage_supported(
            frame_bytes(frames as int, format.bytes_per_frame as int),
        ) {
            outcome(installed)
        } else {
            Err(Error::FormatNotSupported)
        },
    }
}

/// A capture callback is installed exactly when the format and the frame limit can be read, they
/// ask for a supported amount of storage, and the audio system takes the callback. The unit then
/// owns a fresh input for that format and limit; else it keeps what it had.
pub proof fn law_installation<C, E>(
    units: (
        VoiceProcessingUnit<C>,
        VoiceProcessingUnit<C>,
        VoiceProcessingUnit<C>,
        VoiceProcessingUnit<C>,
    ),
    client: C,
    format: Result<StreamFormat, E>,
    frames: Result<u32, E>,
    installed: Result<(), E>,
    steps: (Step<C, E>, Step<C, E>, Step<C, E>),
)
    requires
        resumes(
            units.0,
            Operation::ReadStreamFormat { client },
            Reply::StreamFormat(format),
            units.1,
            steps.0,
        ),
        steps.0 matches Step::Continue(next) ==> resumes(
            units.1,
            next,
            Reply::Frames(frames),
            units.2,
            steps.1,
        ),
        steps.0 is Continue ==> (steps.1 matches Step::Continue(next) ==> resumes(
            units.2,
            next,
            Reply::Status(installed),
            units.3,
            steps.2,
        )),
    ensures
        ({
            let end = installation(format, frames, installed);
            match (steps.0, steps.1) {
                (Step::Finished(result), _) => result == end && end is Err && units.1 == units.0,
                (_, Step::Finished(result)) => result == end && end is Err && units.2 == units.0,
                _ => {
                    &&& steps.2 == Step::<C, E>::Finished(end)
                    &&& end is Ok ==> {
                        &&& units.3.input matches Some(input)
                        &&& input.is_fresh(client, format->Ok_0, frames->Ok_0)
                    }
                    &&& end is Err ==> units.3 == units.0
                },
            }
        }),
        // The format decides whether the frame limit is read.
        format matches Err(error) ==> steps.0 == Step::<C, E>::Finished(Err(Error::Native(error)))
            && units.1 == units.0,
        format is Ok ==> {
            &&& steps.0 matches Step::Continue(next)
            &&& next.native_call() == NativeCall::GetFrames(
                Property { id: 14, scope: Scope::Global, element: Element::Output },
            )
            &&& units.1 == units.0
        },
        // The bytes alone decide whether the callback is registered.
        format is Ok ==> (frames matches Err(error) ==> steps.1 == Step::<C, E>::Finished(
            Err(Error::Native(error)),
        ) && units.2 == units.0),
        format is Ok && frames is Ok && !(0 < frames->Ok_0 * format->Ok_0.bytes_per_frame
            <= 16_777_216) ==> steps.1 == Step::<C, E>::Finished(Err(Error::FormatNotSupported))
            && units.2 == units.0,
        format is Ok && frames is Ok && 0 < frames->Ok_0 * format->Ok_0.bytes_per_frame
            <= 16_777_216 ==> {
            &&& steps.1 matches Step::Continue(next)
            &&& next.native_call() == NativeCall::SetCallback(
                Property { id: 2005, scope: Scope::Global, element: Element::Output },
                Callback::Capture,
            )
            &&& units.2 == units.0
            &&& next matches Operation::InstallInput { input }
            &&& input.client == client
            &&& input.bytes_per_frame == format->Ok_0.bytes_per_frame
            &&& input.channels == format->Ok_0.channels_per_frame
            &&& input.max_frames == frames->Ok_0
            &&& frames->Ok_0 * format->Ok_0.bytes_per_frame <= 8 * input.storage@.len()
            &&& 8 * input.storage@.len() < frames->Ok_0 * format->Ok_0.bytes_per_frame + 8
            &&& forall|i: int| 0 <= i < input.storage@.len() ==> input.storage@[i] == 0
            // The registration decides the rest.
            &&& installed is Ok ==> steps.2 == Step::<C, E>::Finished(Ok(())) && units.3.input
                == Some(input)
            &&& installed matches Err(error) ==> steps.2 == Step::<C, E>::Finished(
                Err(Error::Native(error)),
            ) && units.3.input == units.0.input
        },
{
    if format is Ok && frames is Ok {
        if let Step::Continue(Operation::InstallInput { input }) = steps.1 {
            if steps.0 is Continue {
                law_fresh_inputs(*input, client, format->Ok_0, frames->Ok_0);
            }
        }
    }
}

/// How initializing a unit that has `input` ends, given what its native calls come back with.
pub open spec fn initialization<C, E>(
    input: Option<Box<Input<C>>>,
    initialized: Result<(), E>,
    frames: Result<u32, E>,
) -> Result<(), Error<E>> {
    match (initialized, frames, input) {
        (Err(error), _, _) => Err(Error::Native(error)),
        (Ok(()), Err(error), _) => Err(Error::Native(error)),
        (Ok(()), Ok(frames), Some(input)) => if storage_supported(
            frame_bytes(frames as int, input.bytes_per_frame as int),
        ) {
            Ok(())
        } else {
            Err(Error::FormatNotSupported)
        },
        (Ok(()), Ok(_), None) => Ok(()),
    }
}

/// Initialization reads the frame limit only after the native unit is initialized, and adapts the
/// input, where there is one, to that limit. Where the limit asks for an unsupported amount of
/// storage, or a native call fails, the input stays as it was.
pub proof fn law_initialization<C, E>(
    units: (VoiceProcessingUnit<C>, VoiceProcessingUnit<C>, VoiceProcessingUnit<C>),
    initialized: Result<(), E>,
    frames: Result<u32, E>,
    steps: (Step<C, E>, Step<C, E>),
)
    requires
        units.0.wf(),
        resumes(units.0, Operation::Initialize, Reply::Status(initialized), units.1, steps.0),
        steps.0 matches Step::Continue(next) ==> resumes(
            units.1,
            next,
            Reply::Frames(frames),
            units.2,
            steps.1,
        ),
    ensures
        ({
            let end = initialization(units.0.input, initialized, frames);
            match steps.0 {
                Step::Finished(result) => {
                    &&& result == end
                    &&& initialized is Err
                    &&& units.1 == units.0
                },
                Step::Continue(next) => {
                    &&& next.native_call() == NativeCall::GetFrames(maximum_frames_property())
                    &&& steps.1 == Step::<C, E>::Finished(end)
                    &&& end is Err ==> units.2 == units.0
                    &&& end is Ok ==> match units.0.input {
                        Some(input) => {
                            &&& units.2.input matches Some(adapted)
                            &&& adapted.wf()
                            &&& input.refreshed(frames->Ok_0, *adapted)
                        },
                        None => units.2.input is None,
                    }
                },
            }
        }),
        // The native initialization decides whether the frame limit is read.
        initialized matches Err(error) ==> steps.0 == Step::<C, E>::Finished(
            Err(Error::Native(error)),
        ) && units.1 == units.0,
        initialized is Ok ==> {
            &&& steps.0 matches Step::Continue(next)
            &&& next.native_call() == NativeCall::GetFrames(
                Property { id: 14, scope: Scope::Global, element: Element::Output },
            )
            &&& units.1 == units.0
        },
        initialized is Ok ==> (frames matches Err(error) ==> steps.1 == Step::<C, E>::Finished(
            Err(Error::Native(error)),
        ) && units.2 == units.0),
        // Without an input any limit will do.
        initialized is Ok && frames is Ok && units.0.input is None ==> steps.1 == Step::<
            C,
            E,
        >::Finished(Ok(())) && units.2.input is None,
        // With one, the bytes alone decide, whatever the limit was before.
        initialized is Ok && frames is Ok && units.0.input is Some && !(0 < frames->Ok_0
            * units.0.input->0.bytes_per_frame <= 16_777_216) ==> steps.1 == Step::<
            C,
            E,
        >::Finished(Err(Error::FormatNotSupported)) && units.2 == units.0,
        initialized is Ok && frames is Ok && units.0.input is Some && 0 < frames->Ok_0
            * units.0.input->0.bytes_per_frame <= 16_777_216 ==> {
            let input = units.0.input->0;
            &&& steps.1 == Step::<C, E>::Finished(Ok(()))
            &&& units.2.input matches Some(adapted)
            &&& adapted.max_frames == frames->Ok_0
            &&& adapted.client == input.client
            &&& adapted.bytes_per_frame == input.bytes_per_frame
            &&& adapted.channels == input.channels
            &&& frames->Ok_0 * input.bytes_per_frame <= 8 * adapted.storage@.len()
            &&& 8 * adapted.storage@.len() < frames->Ok_0 * input.bytes_per_frame + 8
            &&& forall|i: int|
                0 <= i < adapted.storage@.len() && i < input.storage@.len() ==> adapted.storage@[i]
                    == input.storage@[i]
            &&& forall|i: int|
                input.storage@.len() <= i < adapted.storage@.len() ==> adapted.storage@[i] == 0
        },
{
    if initialized is Ok && frames is Ok {
        if let (Some(input), Some(adapted)) = (units.0.input, units.2.input) {
            if input.refreshed(frames->Ok_0, *adapted) {
                law_refreshed_inputs(*input, frames->Ok_0, *adapted);
            }
        }
    }
}

/// A release always makes the same three calls, stop, uninitialize and dispose, whatever they come
/// back with, and always succeeds. The input stays alive until the last of them has returned, when
/// the audio system can no longer call back.
pub proof fn law_release<C, E>(
    units: (
        VoiceProcessingUnit<C>,
        VoiceProcessingUnit<C>,
        VoiceProcessingUnit<C>,
        VoiceProcessingUnit<C>,
    ),
    replies: (Result<(), E>, Result<(), E>, Result<(), E>),
    steps: (Step<C, E>, Step<C, E>, Step<C, E>),
)
    requires
        resumes(units.0, Operation::ReleaseStop, Reply::Status(replies.0), units.1, steps.0),
        steps.0 matches Step::Continue(next) ==> resumes(
            units.1,
            next,
            Reply::Status(replies.1),
            units.2,
            steps.1,
        ),
        steps.1 matches Step::Continue(next) ==> resumes(
            units.2,
            next,
            Reply::Status(replies.2),
            units.3,
            steps.2,
        ),
    ensures
        Operation::<C>::ReleaseStop.native_call() == NativeCall::Stop,
        steps.0 matches Step::Continue(next) && next.native_call() == NativeCall::Uninitialize,
        steps.1 matches Step::Continue(next) && next.native_call() == NativeCall::Dispose,
        units.1 == units.0,
        units.2 == units.0,
        units.3.input is None,
        steps.2 == Step::<C, E>::Finished(Ok(())),
{
}

/// A property is set where it is asked to be set: the native call is at that very id, scope and
/// bus, so that no two addresses are ever confused.
pub proof fn law_set_property_addresses<C>(
    id: u32,
    scope: Scope,
    element: Element,
    other: Property,
)
    ensures
        ({
            let property = Property { id, scope, element };
            let call = (Operation::<C>::SetProperty { property }).native_call();
            &&& call matches NativeCall::SetProperty(at)
            &&& at.id == id
            &&& at.scope == scope
            &&& at.element == element
            &&& call == (Operation::<C>::SetProperty { property: other }).native_call() <==> property
                == other
        }),
{
}

/// A property is read where it is asked to be read: the native call is at that very id, scope and
/// bus, so that no two addresses are ever confused.
pub proof fn law_get_property_addresses<C>(
    id: u32,
    scope: Scope,
    element: Element,
    other: Property,
)
    ensures
        ({
            let property = Property { id, scope, element };
            let call = (Operation::<C>::GetProperty { property }).native_call();
            &&& call matches NativeCall::GetProperty(at)
            &&& at.id == id
            &&& at.scope == scope
            &&& at.element == element
            &&& call == (Operation::<C>::GetProperty { property: other }).native_call() <==> property
                == other
        }),
{
}

/// What is set and then read at one address is one property: the two calls name the same place.
pub proof fn law_reads_meet_writes<C>(property: Property)
    ensures
        (Operation::<C>::SetProperty { property }).native_call()->SetProperty_0 == (Operation::<
            C,
        >::GetProperty { property }).native_call()->GetProperty_0,
        (Operation::<C>::SetProperty { property }).native_call() is SetProperty,
        (Operation::<C>::GetProperty { property }).native_call() is GetProperty,
{
}

/// Every native call that carries no address of the caller's is fixed: the Apple voice processing
/// component, the capture format as it leaves the input bus, the global frame limit, silence into
/// the output bus, and capture as the global input callback. What an operation carries along has
/// no part in it.
pub proof fn law_fixed_calls<C>(client: C, format: StreamFormat, input: Box<Input<C>>)
    ensures
        Operation::<C>::FindComponent.native_call() == NativeCall::FindComponent(
            ComponentDescription {
                component_type: 0x6175_6f75,
                component_sub_type: 0x7670_696f,
                component_manufacturer: 0x6170_706c,
                component_flags: 0,
                component_flags_mask: 0,
            },
        ),
        Operation::<C>::InstantiateComponent.native_call() == NativeCall::InstantiateComponent,
        Operation::<C>::InstallSilence.native_call() == NativeCall::SetCallback(
            Property { id: 23, scope: Scope::Input, element: Element::Output },
            Callback::SilentRender,
        ),
        (Operation::ReadStreamFormat { client }).native_call() == NativeCall::GetStreamFormat(
            Property { id: 8, scope: Scope::Output, element: Element::Input },
        ),
        (Operation::ReadMaximumFrames { client, format }).native_call() == NativeCall::GetFrames(
            Property { id: 14, scope: Scope::Global, element: Element::Output },
        ),
        Operation::<C>::RefreshMaximumFrames.native_call() == NativeCall::GetFrames(
            Property { id: 14, scope: Scope::Global, element: Element::Output },
        ),
        (Operation::InstallInput { input }).native_call() == NativeCall::SetCallback(
            Property { id: 2005, scope: Scope::Global, element: Element::Output },
            Callback::Capture,
        ),
        Operation::<C>::Initialize.native_call() == NativeCall::Initialize,
        Operation::<C>::Start.native_call() == NativeCall::Start,
        Operation::<C>::Stop.native_call() == NativeCall::Stop,
        Operation::<C>::ReleaseStop.native_call() == NativeCall::Stop,
        Operation::<C>::ReleaseUninitialize.native_call() == NativeCall::Uninitialize,
        Operation::<C>::ReleaseDispose.native_call() == NativeCall::Dispose,
{
}

/// An operation takes every reply of its kind, success and failure alike: a search whether
/// something was found, a read what was read, and everything else a status.
pub proof fn law_awaited_replies<C, E>(
    operation: Operation<C>,
    found: bool,
    status: Result<(), E>,
    format: Result<StreamFormat, E>,
    frames: Result<u32, E>,
)
    ensures
        operation.awaits(Reply::<E>::Component(found)) <==> operation is FindComponent,
        operation.awaits(Reply::<E>::StreamFormat(format)) <==> operation is ReadStreamFormat,
        operation.awaits(Reply::<E>::Frames(frames)) <==> operation is ReadMaximumFrames
            || operation is RefreshMaximumFrames,
        operation.awaits(Reply::<E>::Status(status)) <==> !(operation is FindComponent
            || operation is ReadStreamFormat || operation is ReadMaximumFrames
            || operation is RefreshMaximumFrames),
{
}

/// A unit, or a pending installation, is well formed exactly when the input that it holds, if any,
/// has the fewest words for at least one byte and at most 16 MiB of frames.
pub proof fn law_well_formed_units<C>(unit: VoiceProcessingUnit<C>, operation: Operation<C>)
    ensures
        unit.wf() <==> (unit.input matches Some(input) ==> {
            &&& 0 < input.max_frames * input.bytes_per_frame <= 16_777_216
            &&& input.max_frames * input.bytes_per_frame <= 8 * input.storage@.len()
            &&& 8 * input.storage@.len() < input.max_frames * input.bytes_per_frame + 8
        }),
        operation.wf() <==> (operation matches Operation::InstallInput { input } ==> {
            &&& 0 < input.max_frames * input.bytes_per_frame <= 16_777_216
            &&& input.max_frames * input.bytes_per_frame <= 8 * input.storage@.len()
            &&& 8 * input.storage@.len() < input.max_frames * input.bytes_per_frame + 8
        }),
{
}

/// The number of channels never decides whether a microphone can be captured: of two formats with
/// frames of the same size, both are taken or both are refused, at every frame limit.
pub proof fn law_channels_do_not_decide<C, E>(
    before: VoiceProcessingUnit<C>,
    client: C,
    bytes_per_frame: u32,
    channels: (u32, u32),
    frames: u32,
    after: (VoiceProcessingUnit<C>, VoiceProcessingUnit<C>),
    steps: (Step<C, E>, Step<C, E>),
)
    requires
        resumes(
            before,
            Operation::ReadMaximumFrames {
                client,
                format: StreamFormat { bytes_per_frame, channels_per_frame: channels.0 },
            },
            Reply::Frames(Ok(frames)),
            after.0,
            steps.0,
        ),
        resumes(
            before,
            Operation::ReadMaximumFrames {
                client,
                format: StreamFormat { bytes_per_frame, channels_per_frame: channels.1 },
            },
            Reply::Frames(Ok(frames)),
            after.1,
            steps.1,
        ),
    ensures
        steps.0 is Continue <==> steps.1 is Continue,
        steps.0 is Continue <==> 0 < frames * bytes_per_frame <= 16_777_216,
        steps.0 matches Step::Finished(end) ==> end == Err::<(), Error<E>>(
            Error::FormatNotSupported,
        ),
        steps.1 matches Step::Finished(end) ==> end == Err::<(), Error<E>>(
            Error::FormatNotSupported,
        ),
{
}

/// The limit that an input had before never decides how initialization ends: two units whose
/// inputs have frames of the same size end alike, and with the same limit.
pub proof fn law_former_limit_does_not_decide<C, E>(
    units: (VoiceProcessingUnit<C>, VoiceProcessingUnit<C>),
    frames: u32,
    after: (VoiceProcessingUnit<C>, VoiceProcessingUnit<C>),
    steps: (Step<C, E>, Step<C, E>),
)
    requires
        units.0.input is Some,
        units.1.input is Some,
        units.0.input->0.bytes_per_frame == units.1.input->0.bytes_per_frame,
        resumes(
            units.0,
            Operation::RefreshMaximumFrames,
            Reply::Frames(Ok(frames)),
            after.0,
            steps.0,
        ),
        resumes(
            units.1,
            Operation::RefreshMaximumFrames,
            Reply::Frames(Ok(frames)),
            after.1,
            steps.1,
        ),
    ensures
        steps.0 == steps.1,
        steps.0 == Step::<C, E>::Finished(Ok(())) <==> 0 < frames
            * units.0.input->0.bytes_per_frame <= 16_777_216,
        steps.0 == Step::<C, E>::Finished(Ok(())) ==> {
            &&& after.0.input matches Some(first)
            &&& after.1.input matches Some(second)
            &&& first.max_frames == frames
            &&& second.max_frames == frames
            &&& first.storage@.len() == second.storage@.len()
        },
{
}

/// Initializing again at the same limit changes nothing: the input that one initialization settled
/// on is what the next one leaves.
pub proof fn law_initialization_settles<C, E>(
    first: VoiceProcessingUnit<C>,
    frames: u32,
    second: VoiceProcessingUnit<C>,
    third: VoiceProcessingUnit<C>,
    steps: (Step<C, E>, Step<C, E>),
)
    requires
        first.wf(),
        first.input is Some,
        resumes(
            first,
            Operation::RefreshMaximumFrames,
            Reply::Frames(Ok(frames)),
            second,
            steps.0,
        ),
        resumes(
            second,
            Operation::RefreshMaximumFrames,
            Reply::Frames(Ok(frames)),
            third,
            steps.1,
        ),
    ensures
        steps.0 == steps.1,
        second.input is Some,
        third.input is Some,
        third.input->0.storage@ == second.input->0.storage@,
        third.input->0.max_frames == second.input->0.max_frames,
        third.input->0.bytes_per_frame == second.input->0.bytes_per_frame,
        third.input->0.channels == second.input->0.channels,
        third.input->0.client == second.input->0.client,
{
    assert(third.input->0.storage@ =~= second.input->0.storage@);
}

/// What an operation that is one native call comes to does not depend on the unit, nor on the
/// operation: the same status ends all of them alike.
pub proof fn law_statuses_decide<C, E>(
    units: (VoiceProcessingUnit<C>, VoiceProcessingUnit<C>),
    operations: (Operation<C>, Operation<C>),
    status: Result<(), E>,
    after: (VoiceProcessingUnit<C>, VoiceProcessingUnit<C>),
    steps: (Step<C, E>, Step<C, E>),
)
    requires
        operations.0 is InstantiateComponent || operations.0 is SetProperty
            || operations.0 is GetProperty || operations.0 is InstallSilence
            || operations.0 is InstallInput || operations.0 is Start || operations.0 is Stop,
        operations.1 is InstantiateComponent || operations.1 is SetProperty
            || operations.1 is GetProperty || operations.1 is InstallSilence
            || operations.1 is InstallInput || operations.1 is Start || operations.1 is Stop,
        resumes(units.0, operations.0, Reply::Status(status), after.0, steps.0),
        resumes(units.1, operations.1, Reply::Status(status), after.1, steps.1),
    ensures
        steps.0 == steps.1,
        status is Ok ==> steps.0 == Step::<C, E>::Finished(Ok(())),
        status matches Err(error) ==> steps.0 == Step::<C, E>::Finished(Err(Error::Native(error))),
        operations.0 matches Operation::InstallInput { input } ==> (status is Ok
            ==> after.0.input == Some(input)),
        operations.0 !is InstallInput || status is Err ==> after.0.input == units.0.input,
{
}

/// Whatever a unit holds, a search that finds a component goes on to instantiate it, and one that
/// finds none ends for that reason.
pub proof fn law_search<C, E>(
    before: VoiceProcessingUnit<C>,
    found: bool,
    after: VoiceProcessingUnit<C>,
    step: Step<C, E>,
)
    requires
        resumes(before, Operation::FindComponent, Reply::Component(found), after, step),
    ensures
        after == before,
        found <==> step is Continue,
        step matches Step::Continue(next) ==> next.native_call()
            == NativeCall::InstantiateComponent,
        step matches Step::Finished(end) ==> end == Err::<(), Error<E>>(
            Error::NoMatchingDefaultAudioUnitFound,
        ),
{
}

} // verus!
