//! Plain mirrors of the Core Audio values that voice processing speaks of.
use vstd::prelude::*;

verus! {

/// A status returned by a native call, or handed to the audio system by a callback. Zero means
/// success.
pub type OsStatus = i32;

/// The status of a successful call (`noErr`).
pub const NO_ERR: OsStatus = 0;

/// `kAudioUnitErr_TooManyFramesToProcess`.
pub const TOO_MANY_FRAMES_TO_PROCESS: OsStatus = -10874;

/// The status a capture callback returns when the client refuses the frames it was given.
pub const CLIENT_FAILED: OsStatus = -1;

/// `kAudioUnitType_Output`, the four characters `auou`.
pub const UNIT_TYPE_OUTPUT: u32 = 0x6175_6f75;

/// `kAudioUnitSubType_VoiceProcessingIO`, the four characters `vpio`.
pub const UNIT_SUB_TYPE_VOICE_PROCESSING_IO: u32 = 0x7670_696f;

/// `kAudioUnitManufacturer_Apple`, the four characters `appl`.
pub const UNIT_MANUFACTURER_APPLE: u32 = 0x6170_706c;

/// `kAudioUnitProperty_StreamFormat`.
pub const PROPERTY_STREAM_FORMAT: u32 = 8;

/// `kAudioUnitProperty_MaximumFramesPerSlice`.
pub const PROPERTY_MAXIMUM_FRAMES_PER_SLICE: u32 = 14;

/// `kAudioUnitProperty_SetRenderCallback`.
pub const PROPERTY_SET_RENDER_CALLBACK: u32 = 23;

/// `kAudioOutputUnitProperty_SetInputCallback`.
pub const PROPERTY_SET_INPUT_CALLBACK: u32 = 2005;

/// `kAudioUnitRenderAction_OutputIsSilence`.
pub const RENDER_ACTION_OUTPUT_IS_SILENCE: u32 = 16;

/// What an audio component is searched by (`AudioComponentDescription`).
#[derive(Clone, Copy, Debug, PartialEq, Eq, Structural)]
pub struct ComponentDescription {
    pub component_type: u32,
    pub component_sub_type: u32,
    pub component_manufacturer: u32,
    pub component_flags: u32,
    pub component_flags_mask: u32,
}

/// The scope of an audio unit property.
#[derive(Clone, Copy, Debug, PartialEq, Eq, Structural)]
pub enum Scope {
    Global,
    Input,
    Output,
    Group,
    Part,
    Note,
    Layer,
    LayerItem,
}

/// The bus of an audio unit property: the output bus leads to the speakers, the input bus comes
/// from the microphone.
#[derive(Clone, Copy, Debug, PartialEq, Eq, Structural)]
pub enum Element {
    Output,
    Input,
}

/// The full address of an audio unit property.
#[derive(Clone, Copy, Debug, PartialEq, Eq, Structural)]
pub struct Property {
    pub id: u32,
    pub scope: Scope,
    pub element: Element,
}

/// The part of `AudioStreamBasicDescription` that decides how large a capture buffer is.
#[derive(Clone, Copy, Debug, PartialEq, Eq, Structural)]
pub struct StreamFormat {
    pub bytes_per_frame: u32,
    pub channels_per_frame: u32,
}

/// Why an operation on a voice processing unit failed. `E` is the error of the native calls.
#[derive(Debug, PartialEq, Eq)]
pub enum Error<E> {
    /// No voice processing component is installed.
    NoMatchingDefaultAudioUnitFound,
    /// The stream format asks for no capture storage at all, or for too much of it.
    FormatNotSupported,
    /// A native call failed.
    Native(E),
}

} // verus!
