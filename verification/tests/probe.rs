use vpio::probe::{
    judge, plan, wav_spec, CaptureFault, Plan, PlanError, SampleFormat, VoiceProcessing, WavSpec,
    SAMPLE_RATE,
};

#[test]
fn modes_choose_the_voice_processing() {
    let voice = |mode: &str| plan(&mode.to_string(), 18).map(|plan| plan.voice);
    assert_eq!(voice("raw"), Ok(None));
    assert_eq!(voice("vpio"), Ok(Some(VoiceProcessing { bypass: false })));
    assert_eq!(voice("bypass"), Ok(Some(VoiceProcessing { bypass: true })));
    assert_eq!(voice("RAW"), Err(PlanError::Mode));
    assert_eq!(voice(""), Err(PlanError::Mode));
}

#[test]
fn durations_are_bounded() {
    let raw = "raw".to_string();
    assert_eq!(plan(&raw, 0), Err(PlanError::Duration));
    assert_eq!(plan(&raw, 61), Err(PlanError::Duration));
    assert_eq!(plan(&"none".to_string(), 61), Err(PlanError::Duration));
    assert_eq!(
        plan(&raw, 1),
        Ok(Plan {
            voice: None,
            seconds: 1,
            capacity: 192000,
        })
    );
    assert_eq!(plan(&raw, 18).unwrap().capacity, 1008000);
    assert_eq!(plan(&raw, 60).unwrap().capacity, 3024000);
}

#[test]
fn recordings_are_judged() {
    assert_eq!(judge(0, 0, 1, true), Ok(()));
    assert_eq!(judge(1, 1, 0, false), Err(CaptureFault::CallbackFailed));
    assert_eq!(judge(0, 1, 0, false), Err(CaptureFault::Overflow));
    assert_eq!(judge(0, 0, 0, true), Err(CaptureFault::Invalid));
    assert_eq!(judge(0, 0, 5, false), Err(CaptureFault::Invalid));
}

#[test]
fn headers_describe_the_samples() {
    assert_eq!(
        wav_spec(1, SAMPLE_RATE, 4, true),
        WavSpec {
            channels: 1,
            sample_rate: 48000,
            bits_per_sample: 32,
            sample_format: SampleFormat::Float,
        }
    );
    let integer = wav_spec(2, 44100, 2, false);
    assert_eq!(integer.bits_per_sample, 16);
    assert_eq!(integer.sample_format, SampleFormat::Int);
}
