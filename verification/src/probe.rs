//! Bounded recordings for listening tests: what is recorded, into how much memory, and whether the
//! result may be kept.
use vstd::prelude::*;

verus! {

/// Samples per second of a probe recording, which has one channel.
pub const SAMPLE_RATE: u32 = 48000;

/// The longest recording, in seconds.
pub const MAX_SECONDS: usize = 60;

/// The seconds by which the preallocated memory exceeds the recording.
pub const SLACK_SECONDS: usize = 3;

/// The voice processing asked of the capture stream.
#[derive(Clone, Copy, Debug, PartialEq, Eq, Structural)]
pub struct VoiceProcessing {
    /// Whether the native processing is bypassed.
    pub bypass: bool,
}

/// A recording to make.
#[derive(Clone, Copy, Debug, PartialEq, Eq)]
pub struct Plan {
    /// `None` for the raw device.
    pub voice: Option<VoiceProcessing>,
    pub seconds: usize,
    /// The samples to preallocate: the whole recording, so that its callback never allocates.
    pub capacity: usize,
}

/// Why there is nothing to record.
#[derive(Clone, Copy, Debug, PartialEq, Eq, Structural)]
pub enum PlanError {
    /// The duration is not one to sixty seconds.
    Duration,
    /// There is no such mode.
    Mode,
}

/// Why a recording is thrown away.
#[derive(Clone, Copy, Debug, PartialEq, Eq, Structural)]
pub enum CaptureFault {
    /// The error callback was called.
    CallbackFailed,
    /// Samples were dropped for want of memory.
    Overflow,
    /// There are no samples, or some that are no finite number.
    Invalid,
}

/// How samples are stored in a file.
#[derive(Clone, Copy, Debug, PartialEq, Eq, Structural)]
pub enum SampleFormat {
    Float,
    Int,
}

/// The header of a recording.
#[derive(Clone, Copy, Debug, PartialEq, Eq, Structural)]
pub struct WavSpec {
    pub channels: u16,
    pub sample_rate: u32,
    pub bits_per_sample: u16,
    pub sample_format: SampleFormat,
}

/// The voice processing that a mode stands for, where there is such a mode.
pub open spec fn mode_voice(mode: Seq<char>) -> Option<Option<VoiceProcessing>> {
    if mode == "raw"@ {
        Some(None)
    } else if mode == "vpio"@ {
        Some(Some(VoiceProcessing { bypass: false }))
    } else if mode == "bypass"@ {
        Some(Some(VoiceProcessing { bypass: true }))
    } else {
        None
    }
}

/// `plan` is what comes of asking for `seconds` seconds in `mode`.
pub open spec fn plans(mode: Seq<char>, seconds: usize, plan: Result<Plan, PlanError>) -> bool {
    match plan {
        Ok(plan) => {
            &&& 1 <= seconds <= MAX_SECONDS
            &&& mode_voice(mode) == Some(plan.voice)
            &&& plan.seconds == seconds
            &&& plan.capacity == (seconds + SLACK_SECONDS) * SAMPLE_RATE
        },
        Err(PlanError::Duration) => !(1 <= seconds <= MAX_SECONDS),
        Err(PlanError::Mode) => 1 <= seconds <= MAX_SECONDS && mode_voice(mode) is None,
    }
}

/// What is wrong with a finished recording, if anything.
pub open spec fn fault(
    errors: usize,
    dropped: usize,
    count: usize,
    finite: bool,
) -> Option<CaptureFault> {
    if errors != 0 {
        Some(CaptureFault::CallbackFailed)
    } else if dropped != 0 {
        Some(CaptureFault::Overflow)
    } else if count == 0 || !finite {
        Some(CaptureFault::Invalid)
    } else {
        None
    }
}

/// `header` describes samples of `sample_size` bytes each.
pub open spec fn describes(
    header: WavSpec,
    channels: u16,
    sample_rate: u32,
    sample_size: usize,
    float: bool,
) -> bool {
    &&& header.channels == channels
    &&& header.sample_rate == sample_rate
    &&& header.bits_per_sample == sample_size * 8
    &&& header.sample_format is Float <==> float
}

/// Plans a recording of `seconds` seconds in `mode`. The memory covers the recording with three
/// seconds to spare.
pub fn plan(mode: &String, seconds: usize) -> (plan: Result<Plan, PlanError>)
    ensures
        match plan {
            Ok(plan) => {
                &&& 1 <= seconds <= MAX_SECONDS
                &&& mode_voice(mode@) == Some(plan.voice)
                &&& plan.seconds == seconds
                &&& plan.capacity == (seconds + SLACK_SECONDS) * SAMPLE_RATE
            },
            Err(PlanError::Duration) => !(1 <= seconds <= MAX_SECONDS),
            Err(PlanError::Mode) => 1 <= seconds <= MAX_SECONDS && mode_voice(mode@) is None,
        },
        plans(mode@, seconds, plan),
        plan is Ok <==> {
            &&& 1 <= seconds <= 60
            &&& mode@ == "raw"@ || mode@ == "vpio"@ || mode@ == "bypass"@
        },
        plan matches Ok(plan) ==> {
            &&& plan.seconds == seconds
            &&& plan.capacity == 48000 * seconds + 144000
            &&& plan.voice is None <==> mode@ == "raw"@
            &&& plan.voice is Some ==> (plan.voice->0.bypass <==> mode@ == "bypass"@)
        },
        plan matches Err(error) ==> (error is Duration <==> seconds < 1 || seconds > 60),
{
    proof {
        law_modes(mode@);
    }
    if seconds < 1 || seconds > MAX_SECONDS {
        return Err(PlanError::Duration);
    }
    let voice: Option<VoiceProcessing> = if *mode == "raw".to_owned() {
        None
    } else if *mode == "vpio".to_owned() {
        Some(VoiceProcessing { bypass: false })
    } else if *mode == "bypass".to_owned() {
        Some(VoiceProcessing { bypass: true })
    } else {
        return Err(PlanError::Mode);
    };
    assert((seconds + SLACK_SECONDS) * SAMPLE_RATE == 48000 * seconds + 144000) by (nonlinear_arith)
        requires
            SLACK_SECONDS == 3,
            SAMPLE_RATE == 48000,
    ;
    Ok(Plan { voice, seconds, capacity: (seconds + SLACK_SECONDS) * SAMPLE_RATE as usize })
}

/// Judges a finished recording by the calls of its error callback, the samples that were dropped,
/// the samples that were kept, and whether those are all finite numbers.
pub fn judge(errors: usize, dropped: usize, count: usize, finite: bool) -> (verdict: Result<
    (),
    CaptureFault,
>)
    ensures
        verdict == if errors != 0 {
            Err::<(), CaptureFault>(CaptureFault::CallbackFailed)
        } else if dropped != 0 {
            Err(CaptureFault::Overflow)
        } else if count == 0 || !finite {
            Err(CaptureFault::Invalid)
        } else {
            Ok(())
        },
        verdict == match fault(errors, dropped, count, finite) {
            Some(fault) => Err::<(), CaptureFault>(fault),
            None => Ok(()),
        },
        verdict is Ok <==> errors == 0 && dropped == 0 && count > 0 && finite,
        verdict matches Err(fault) ==> {
            &&& fault is CallbackFailed <==> errors > 0
            &&& fault is Overflow <==> errors == 0 && dropped > 0
            &&& fault is Invalid <==> errors == 0 && dropped == 0
        },
{
    if errors != 0 {
        Err(CaptureFault::CallbackFailed)
    } else if dropped != 0 {
        Err(CaptureFault::Overflow)
    } else if count > 0 && finite {
        Ok(())
    } else {
        Err(CaptureFault::Invalid)
    }
}

/// The header for samples of `sample_size` bytes each.
pub fn wav_spec(channels: u16, sample_rate: u32, sample_size: usize, float: bool) -> (header:
    WavSpec)
    requires
        sample_size * 8 <= u16::MAX,
    ensures
        header.channels == channels,
        header.sample_rate == sample_rate,
        header.bits_per_sample == sample_size * 8,
        header.sample_format == if float {
            SampleFormat::Float
        } else {
            SampleFormat::Int
        },
        describes(header, channels, sample_rate, sample_size, float),
{
    WavSpec {
        channels,
        sample_rate,
        bits_per_sample: (sample_size * 8) as u16,
        sample_format: if float {
            SampleFormat::Float
        } else {
            SampleFormat::Int
        },
    }
}

/// There are three modes. They are told apart, and one of them alone records the raw device, one
/// alone bypasses the processing.
pub proof fn law_modes(mode: Seq<char>)
    ensures
        mode_voice(mode) is Some <==> mode == "raw"@ || mode == "vpio"@ || mode == "bypass"@,
        mode_voice(mode) == Some(None::<VoiceProcessing>) <==> mode == "raw"@,
        mode_voice(mode) matches Some(Some(voice)) ==> (voice.bypass <==> mode == "bypass"@),
        mode_voice("raw"@) != mode_voice("vpio"@),
        mode_voice("vpio"@) != mode_voice("bypass"@),
        mode_voice("bypass"@) != mode_voice("raw"@),
{
    reveal_strlit("raw");
    reveal_strlit("vpio");
    reveal_strlit("bypass");
    assert("raw"@.len() == 3);
    assert("vpio"@.len() == 4);
    assert("bypass"@.len() == 6);
}

/// Every duration of one to sixty seconds can be recorded in every mode, and nothing else can. A
/// wrong duration is told before a wrong mode.
pub proof fn law_plans(mode: Seq<char>, seconds: usize, plan: Result<Plan, PlanError>)
    requires
        plans(mode, seconds, plan),
    ensures
        plan is Ok <==> 1 <= seconds <= 60 && (mode == "raw"@ || mode == "vpio"@ || mode
            == "bypass"@),
        plan matches Err(error) ==> (error is Duration <==> seconds < 1 || seconds > 60),
        plan matches Ok(plan) ==> {
            &&& plan.seconds == seconds
            &&& plan.voice is None <==> mode == "raw"@
            &&& plan.voice is Some ==> (plan.voice->0.bypass <==> mode == "bypass"@)
        },
{
    law_modes(mode);
}

/// The memory grows with the recording, whatever the modes: every further second takes 48000 more
/// samples, and a recording always has three seconds to spare.
pub proof fn law_capacity(
    modes: (Seq<char>, Seq<char>),
    seconds: (usize, usize),
    planned: (Plan, Plan),
)
    requires
        plans(modes.0, seconds.0, Ok(planned.0)),
        plans(modes.1, seconds.1, Ok(planned.1)),
    ensures
        planned.0.capacity - planned.1.capacity == 48000 * (seconds.0 - seconds.1),
        planned.0.capacity - 48000 * planned.0.seconds == 3 * 48000,
{
}

/// A recording is kept exactly when no callback failed, nothing was dropped, and there is something
/// that is all finite. Whatever goes wrong besides never makes a recording worth keeping.
pub proof fn law_judgement(
    errors: usize,
    dropped: usize,
    count: usize,
    finite: bool,
    more_errors: usize,
    more_dropped: usize,
)
    requires
        errors <= more_errors,
        dropped <= more_dropped,
    ensures
        fault(errors, dropped, count, finite) is None <==> errors == 0 && dropped == 0 && count > 0
            && finite,
        fault(errors, dropped, count, finite) == Some(CaptureFault::CallbackFailed) <==> errors > 0,
        fault(errors, dropped, count, finite) == Some(CaptureFault::Overflow) <==> errors == 0
            && dropped > 0,
        fault(errors, dropped, count, finite) is Some ==> fault(
            more_errors,
            more_dropped,
            count,
            finite,
        ) is Some,
{
}

/// A header says all that it was made from: eight bits for every byte of a sample, and no two kinds
/// of samples share a header.
pub proof fn law_headers(
    headers: (WavSpec, WavSpec),
    channels: (u16, u16),
    sample_rate: (u32, u32),
    sample_size: (usize, usize),
    float: (bool, bool),
)
    requires
        describes(headers.0, channels.0, sample_rate.0, sample_size.0, float.0),
        describes(headers.1, channels.1, sample_rate.1, sample_size.1, float.1),
    ensures
        headers.0.bits_per_sample == 8 * sample_size.0,
        headers.0.channels == channels.0,
        headers.0.sample_rate == sample_rate.0,
        headers.0.sample_format == SampleFormat::Float <==> float.0,
        headers.0 == headers.1 <==> {
            &&& channels.0 == channels.1
            &&& sample_rate.0 == sample_rate.1
            &&& sample_size.0 == sample_size.1
            &&& float.0 == float.1
        },
{
}

} // verus!
