use record_screen::capture::CaptureError;
use record_screen::macos::composite::{
    composite_audio_kind, composite_stream_plans, next_drained_sample, note_appended, note_mix, requeue,
    CompositeAudioDrainStats, CompositeAudioKind, CompositeAudioQueue, DrainedSample,
};
use std::collections::VecDeque;

fn stats() -> CompositeAudioDrainStats {
    CompositeAudioDrainStats {
        primary_dequeued_samples: 0,
        secondary_dequeued_samples: 0,
        appended_samples: 0,
        appended_frames: 0,
        silent_secondary_mixes: 0,
    }
}

#[test]
fn composite_lane_needs_more_than_one_display() {
    match composite_stream_plans(1, true, true, None) {
        Err(CaptureError::BackendUnavailable(m)) => assert_eq!(
            m,
            "Native desktop composition on macOS only activates when more than one display is attached."
        ),
        other => panic!("unexpected {other:?}"),
    }
}

#[test]
fn first_display_owns_the_audio() {
    let plans = composite_stream_plans(3, true, true, Some("BuiltInMic")).expect("plans");
    assert_eq!(plans.len(), 3);
    assert!(plans[0].captures_system_audio && plans[0].captures_microphone);
    assert_eq!(plans[0].system_audio_queue, Some(CompositeAudioQueue::Secondary));
    assert_eq!(plans[0].microphone_queue, Some(CompositeAudioQueue::Primary));
    assert_eq!(plans[0].system_audio_format, Some((48_000, 2)));
    assert_eq!(plans[0].microphone_device_id.as_deref(), Some("BuiltInMic"));
    assert!(!plans[1].captures_system_audio && !plans[2].captures_microphone);
    let system_only = composite_stream_plans(2, true, false, Some("BuiltInMic")).expect("plans");
    assert_eq!(system_only[0].system_audio_queue, Some(CompositeAudioQueue::Primary));
    assert_eq!(system_only[0].microphone_device_id, None);
    assert_eq!(composite_audio_kind(false, false), None);
    assert_eq!(composite_audio_kind(false, true), Some(CompositeAudioKind::Microphone));
}

#[test]
fn mixed_drain_pairs_queue_heads_and_requeues_to_primary() {
    let mut primary: VecDeque<u32> = VecDeque::from(vec![1]);
    let mut secondary: VecDeque<u32> = VecDeque::from(vec![10, 11]);
    let mut s = stats();
    let first = next_drained_sample(CompositeAudioKind::Mixed, &mut primary, &mut secondary, &mut s);
    assert_eq!(first, Some(DrainedSample::Mixed { primary: 1, secondary: Some(10) }));
    let second = next_drained_sample(CompositeAudioKind::Mixed, &mut primary, &mut secondary, &mut s)
        .expect("secondary head");
    assert_eq!(second, DrainedSample::Mixed { primary: 11, secondary: None });
    assert_eq!((s.primary_dequeued_samples, s.secondary_dequeued_samples), (1, 2));
    note_mix(&second, &mut s);
    assert_eq!(s.silent_secondary_mixes, 1);
    requeue(second, true, &mut primary, &mut secondary);
    assert_eq!(primary, VecDeque::from(vec![11]));
    assert!(secondary.is_empty());
    assert_eq!(next_drained_sample(CompositeAudioKind::SystemAudio, &mut VecDeque::<u32>::new(), &mut secondary, &mut s), None);
    note_appended(&mut s, 480);
    note_appended(&mut s, -5);
    assert_eq!((s.appended_samples, s.appended_frames), (2, 480));
}
