use dictator::error::AudioError;
use dictator::recorder::{list_devices, AudioRecorder};
use dictator::negotiate::{SampleEncoding, SupportedConfigRange};
use dictator::session::{RecorderSharedState, StreamSlot};

fn mono16k() -> Vec<SupportedConfigRange> {
    vec![SupportedConfigRange { channels: 1, min_sample_rate: 8000, max_sample_rate: 48000, encoding: SampleEncoding::F32 }]
}

#[test]
fn append_keeps_delivery_order() {
    let mut s: RecorderSharedState<i16> = RecorderSharedState::new();
    assert_eq!(s.begin(false), Ok(()));
    s.append(&[1, 2]);
    s.append(&[3]);
    s.append(&[]);
    s.append(&[4, 5]);
    assert_eq!(s.len(), 5);
    assert_eq!(s.drain(), vec![1, 2, 3, 4, 5]);
    assert!(!s.is_recording());
    assert_eq!(s.len(), 0);
}

#[test]
fn append_ignored_when_not_recording() {
    let mut s: RecorderSharedState<i16> = RecorderSharedState::new();
    s.append(&[7, 8]);
    assert_eq!(s.len(), 0);
    assert!(s.drain().is_empty());
}

#[test]
fn begin_clears_previous_samples() {
    let mut s: RecorderSharedState<i16> = RecorderSharedState::new();
    assert_eq!(s.begin(false), Ok(()));
    s.append(&[1, 2, 3]);
    s.abort();
    assert_eq!(s.len(), 0);
    assert!(!s.is_recording());
    assert_eq!(s.begin(false), Ok(()));
    assert_eq!(s.len(), 0);
    assert!(s.is_recording());
}

#[test]
fn begin_refuses_when_stream_held_or_flag_set() {
    let mut s: RecorderSharedState<i16> = RecorderSharedState::new();
    assert_eq!(s.begin(true), Err(AudioError::AlreadyRecording));
    assert!(!s.is_recording());
    assert_eq!(s.begin(false), Ok(()));
    s.append(&[9]);
    assert_eq!(s.begin(false), Err(AudioError::AlreadyRecording));
    assert_eq!(s.len(), 1);
    assert!(s.is_recording());
}

#[test]
fn stream_slot_take_when_empty() {
    let mut slot: StreamSlot<u32> = StreamSlot::new();
    assert!(!slot.is_occupied());
    assert_eq!(slot.take(), Err(AudioError::NotRecording));
    slot.store(5);
    assert!(slot.is_occupied());
    assert_eq!(slot.take(), Ok(5));
    assert!(!slot.is_occupied());
}

#[test]
fn start_twice_reports_already_recording() {
    let configs = mono16k();
    let mut rec: AudioRecorder<u32> = AudioRecorder::new(Some(&configs)).unwrap();
    let mut shared: RecorderSharedState<f32> = RecorderSharedState::new();
    assert_eq!(rec.start_recording(&mut shared), Ok(()));
    assert_eq!(rec.stream_started(&mut shared, Ok(1)), Ok(()));
    shared.append(&[0.25, -0.25]);
    assert_eq!(rec.start_recording(&mut shared), Err(AudioError::AlreadyRecording));
    assert!(rec.is_stream_open());
    assert!(shared.is_recording());
    assert_eq!(shared.len(), 2);
    assert_eq!(rec.stop_recording(), Ok(1));
    assert_eq!(rec.stream_stopped(&mut shared, Ok(())), Ok(vec![0.25, -0.25]));
}

#[test]
fn stop_without_start_reports_not_recording() {
    let configs = mono16k();
    let mut rec: AudioRecorder<u32> = AudioRecorder::new(Some(&configs)).unwrap();
    assert_eq!(rec.stop_recording(), Err(AudioError::NotRecording));
    assert!(!rec.is_stream_open());
}

#[test]
fn start_then_stop_without_callbacks_gives_no_samples() {
    let configs = mono16k();
    let mut rec: AudioRecorder<u32> = AudioRecorder::new(Some(&configs)).unwrap();
    let mut shared: RecorderSharedState<f32> = RecorderSharedState::new();
    assert_eq!(rec.start_recording(&mut shared), Ok(()));
    assert_eq!(rec.stream_started(&mut shared, Ok(3)), Ok(()));
    assert_eq!(rec.stop_recording(), Ok(3));
    let samples = rec.stream_stopped(&mut shared, Ok(())).unwrap();
    assert!(samples.is_empty());
    assert_eq!(rec.format().sample_rate, 16000);
}

#[test]
fn blocks_out_of_range_are_buffered_in_order() {
    let configs = mono16k();
    let mut rec: AudioRecorder<u32> = AudioRecorder::new(Some(&configs)).unwrap();
    let mut shared: RecorderSharedState<f32> = RecorderSharedState::new();
    assert_eq!(rec.start_recording(&mut shared), Ok(()));
    assert_eq!(rec.stream_started(&mut shared, Ok(1)), Ok(()));
    shared.append(&[0.5, -0.5]);
    shared.append(&[1.5, -1.5]);
    rec.stop_recording().unwrap();
    let samples = rec.stream_stopped(&mut shared, Ok(())).unwrap();
    assert_eq!(samples, vec![0.5, -0.5, 1.5, -1.5]);
    shared.append(&[0.1]);
    assert_eq!(shared.len(), 0);
}

#[test]
fn driver_refusal_rolls_back_to_idle() {
    let configs = mono16k();
    let mut rec: AudioRecorder<u32> = AudioRecorder::new(Some(&configs)).unwrap();
    let mut shared: RecorderSharedState<f32> = RecorderSharedState::new();
    assert_eq!(rec.start_recording(&mut shared), Ok(()));
    let err = AudioError::BuildStreamError("device busy".to_string());
    assert_eq!(rec.stream_started(&mut shared, Err(AudioError::BuildStreamError("device busy".to_string()))), Err(err));
    assert!(!rec.is_stream_open());
    assert!(!shared.is_recording());
    assert_eq!(rec.start_recording(&mut shared), Ok(()));
}

#[test]
fn pause_failure_is_passed_on() {
    let configs = mono16k();
    let mut rec: AudioRecorder<u32> = AudioRecorder::new(Some(&configs)).unwrap();
    let mut shared: RecorderSharedState<f32> = RecorderSharedState::new();
    rec.start_recording(&mut shared).unwrap();
    rec.stream_started(&mut shared, Ok(1)).unwrap();
    shared.append(&[0.5]);
    rec.stop_recording().unwrap();
    let r = rec.stream_stopped(&mut shared, Err(AudioError::PauseStreamError("stuck".to_string())));
    assert_eq!(r, Err(AudioError::PauseStreamError("stuck".to_string())));
    assert_eq!(shared.len(), 0);
    assert!(!shared.is_recording());
    assert!(!rec.is_stream_open());
    assert_eq!(rec.start_recording(&mut shared), Ok(()));
}

#[test]
fn recorder_without_device() {
    let r: Result<AudioRecorder<u32>, AudioError> = AudioRecorder::new(None);
    assert!(matches!(r, Err(AudioError::NoDefaultInputDevice)));
    let none: Vec<SupportedConfigRange> = vec![];
    let r: Result<AudioRecorder<u32>, AudioError> = AudioRecorder::new(Some(&none));
    assert!(matches!(r, Err(AudioError::NoSupportedConfig)));
}

#[test]
fn device_names_skip_unreadable() {
    let r = list_devices(Ok(vec![Some("Mic".to_string()), None, Some("USB".to_string())]));
    assert_eq!(r, Ok(vec!["Mic".to_string(), "USB".to_string()]));
    assert_eq!(list_devices(Err("no host".to_string())), Err("no host".to_string()));
}

#[test]
fn many_blocks_reach_the_snapshot_exactly_once() {
    let configs = mono16k();
    let mut rec: AudioRecorder<u32> = AudioRecorder::new(Some(&configs)).unwrap();
    let mut shared: RecorderSharedState<i16> = RecorderSharedState::new();
    rec.start_recording(&mut shared).unwrap();
    rec.stream_started(&mut shared, Ok(1)).unwrap();
    let mut expected: Vec<i16> = Vec::new();
    for b in 0..200i16 {
        let block: Vec<i16> = (0..(b % 7)).map(|k| b * 10 + k).collect();
        shared.append(&block);
        expected.extend_from_slice(&block);
    }
    rec.stop_recording().unwrap();
    assert_eq!(rec.stream_stopped(&mut shared, Ok(())).unwrap(), expected);
    shared.append(&[1, 2, 3]);
    assert_eq!(shared.drain(), Vec::<i16>::new());
}
