//! Lifecycle state machine and stop pipeline tests.

use bigbrother::lifecycle::{
    estimate_verification_tokens, plan_combine, settle_grid, CombinePlan, RecordingError,
};
use bigbrother::artifacts::{usable_artifacts, ArtifactProbe};
use bigbrother::capture::combined_file;
use bigbrother::lifecycle::recording_prefix_name;
use bigbrother::models::{Recording, RecordingStatus};

#[test]
fn start_twice_refused_and_state_untouched() {
    let mut status = RecordingStatus::idle();
    status.try_start(7).expect("first start commits");
    assert!(status.is_recording);
    assert_eq!(status.task_id, Some(7));

    let second = status.try_start(8);
    assert_eq!(second, Err(RecordingError::AlreadyRecording));
    assert!(status.is_recording);
    assert!(!status.is_paused);
    assert_eq!(status.duration, 0);
    assert_eq!(status.task_id, Some(7));
}

#[test]
fn start_guard_refuses_while_recording() {
    let mut status = RecordingStatus::idle();
    assert!(status.start_guard().is_ok());
    status.try_start(1).unwrap();
    assert_eq!(status.start_guard(), Err(RecordingError::AlreadyRecording));
}

#[test]
fn second_stop_observes_not_recording() {
    let mut status = RecordingStatus::idle();
    status.try_start(3).unwrap();
    status.update_duration(42);

    let first = status.take_stop();
    assert_eq!(first, Ok((3, 42)));
    assert!(!status.is_recording);
    assert_eq!(status.task_id, None);

    let second = status.take_stop();
    assert_eq!(second, Err(RecordingError::NotRecording));
    assert!(!status.is_recording);
}

#[test]
fn pause_resume_require_a_recording() {
    let mut status = RecordingStatus::idle();
    assert_eq!(status.pause(), Err(RecordingError::NotRecording));
    assert_eq!(status.resume(), Err(RecordingError::NotRecording));
    assert!(!status.is_recording && !status.is_paused);

    status.try_start(5).unwrap();
    status.pause().expect("pause after start");
    assert!(status.is_paused);
    assert!(status.is_recording);
    assert_eq!(status.task_id, Some(5));

    status.resume().expect("resume after pause");
    assert!(!status.is_paused);
    assert!(status.is_recording);
}

#[test]
fn stop_with_no_usable_artifacts_fails_and_stays_idle() {
    let mut status = RecordingStatus::idle();
    status.try_start(9).unwrap();
    status.take_stop().expect("flip to idle");

    let usable: Vec<String> = vec![];
    let plan = plan_combine(&usable, &"p_combined.mp4".to_string());
    assert!(matches!(plan, Err(RecordingError::NoUsableArtifacts)));

    // The flip already reset the status; the failed validation changes nothing.
    assert!(!status.is_recording);
    assert!(!status.is_paused);
    assert_eq!(status.duration, 0);
    assert_eq!(status.task_id, None);
}

#[test]
fn single_artifact_needs_no_compositor() {
    let usable = vec!["p_display_0.mp4".to_string()];
    let plan = plan_combine(&usable, &"p_combined.mp4".to_string()).unwrap();
    match plan {
        CombinePlan::Single { path } => assert_eq!(path, "p_display_0.mp4"),
        CombinePlan::Grid { .. } => panic!("one artifact must not invoke the compositor"),
    }
}

#[test]
fn several_artifacts_plan_a_grid_pass() {
    let usable = vec![
        "p_display_0.mp4".to_string(),
        "p_display_1.mp4".to_string(),
        "p_webcam.mp4".to_string(),
    ];
    let plan = plan_combine(&usable, &"p_combined.mp4".to_string()).unwrap();
    match plan {
        CombinePlan::Grid { inputs, output } => {
            assert_eq!(inputs, usable);
            assert_eq!(output, "p_combined.mp4");
        }
        CombinePlan::Single { .. } => panic!("three artifacts must composite"),
    }
}

#[test]
fn successful_composite_deletes_temporaries() {
    let inputs = vec!["p_display_0.mp4".to_string(), "p_webcam.mp4".to_string()];
    let settled = settle_grid(&inputs, &"p_combined.mp4".to_string(), &Ok(()));
    assert_eq!(settled.final_path, "p_combined.mp4");
    assert!(settled.delete_temps);
    assert!(settled.composite_error.is_none());
    assert!(settled.fallback_copy.is_none());
}

#[test]
fn failed_composite_preserves_temporaries_and_degrades() {
    let inputs = vec!["p_display_0.mp4".to_string(), "p_webcam.mp4".to_string()];
    let settled = settle_grid(
        &inputs,
        &"p_combined.mp4".to_string(),
        &Err("encoder exited with code 1".to_string()),
    );
    assert_eq!(settled.final_path, "p_combined.mp4");
    assert!(!settled.delete_temps);
    assert_eq!(
        settled.composite_error,
        Some("encoder exited with code 1".to_string())
    );
    assert_eq!(
        settled.fallback_copy,
        Some(("p_display_0.mp4".to_string(), "p_combined.mp4".to_string()))
    );
}

#[test]
fn full_stop_cycle_two_displays_and_webcam() {
    let prefix = recording_prefix_name_for_test();
    let probes = vec![
        ArtifactProbe { path: format!("{prefix}_display_0.mp4"), size: Some(1000) },
        ArtifactProbe { path: format!("{prefix}_display_1.mp4"), size: Some(900) },
    ];
    let webcam = Some(ArtifactProbe { path: format!("{prefix}_webcam.mp4"), size: Some(800) });
    let usable = usable_artifacts(&probes, &webcam);
    assert_eq!(usable.len(), 3);

    let combined = combined_file(&prefix);
    assert_eq!(combined, format!("{prefix}_combined.mp4"));
    let plan = plan_combine(&usable, &combined).unwrap();
    let (inputs, output) = match plan {
        CombinePlan::Grid { inputs, output } => (inputs, output),
        CombinePlan::Single { .. } => panic!("three artifacts must composite"),
    };
    assert_eq!(output, combined);

    // Composite succeeded: one output at the combined path, temporaries gone.
    let ok = settle_grid(&inputs, &output, &Ok(()));
    assert_eq!(ok.final_path, combined);
    assert!(ok.delete_temps);

    // Composite failed: temporaries stay, and the result degrades to a copy
    // of the first display artifact at the combined path.
    let failed = settle_grid(&inputs, &output, &Err("boom".to_string()));
    assert!(!failed.delete_temps);
    assert_eq!(
        failed.fallback_copy,
        Some((format!("{prefix}_display_0.mp4"), combined.clone()))
    );
    assert_eq!(failed.final_path, combined);
}

fn recording_prefix_name_for_test() -> String {
    recording_prefix_name(1, "20250101_120000")
}

#[test]
fn error_messages_name_the_failed_stage() {
    assert_eq!(
        RecordingError::AlreadyRecording.message(),
        "Recording already in progress"
    );
    assert_eq!(
        RecordingError::NotRecording.message(),
        "No recording in progress"
    );
    assert_eq!(
        RecordingError::NoUsableArtifacts.message(),
        "No valid video files were recorded"
    );
    assert_eq!(
        RecordingError::Spawn { detail: "no encoder".to_string() }.message(),
        "Failed to start display recording: no encoder"
    );
    assert_eq!(
        RecordingError::Composite { detail: "bad frame".to_string() }.message(),
        "FFmpeg failed: bad frame"
    );
    assert_eq!(
        RecordingError::Persistence { detail: "store gone".to_string() }.message(),
        "Failed to update recording record: store gone"
    );
}

#[test]
fn update_duration_touches_nothing_else() {
    let mut status = RecordingStatus::idle();
    status.try_start(2).unwrap();
    status.update_duration(125);
    assert_eq!(status.duration, 125);
    assert!(status.is_recording);
    assert_eq!(status.task_id, Some(2));
}

#[test]
fn token_estimate_samples_one_frame_per_ten_seconds() {
    assert_eq!(estimate_verification_tokens(0), 500);
    assert_eq!(estimate_verification_tokens(95), 9500);
    // Capped at twenty frames.
    assert_eq!(estimate_verification_tokens(200), 20500);
    assert_eq!(estimate_verification_tokens(100_000), 20500);
}

#[test]
fn begun_recording_carries_the_recording_marker() {
    let r = Recording::begun(4, "2025-01-01T12:00:00Z".to_string(), "p_combined.mp4".to_string());
    assert_eq!(r.id, None);
    assert_eq!(r.task_id, 4);
    assert_eq!(r.duration, 0);
    assert_eq!(r.start_time, "2025-01-01T12:00:00Z");
    assert_eq!(r.end_time, None);
    assert_eq!(r.file_path, "p_combined.mp4");
    assert_eq!(r.status, "recording");
}

#[test]
fn completed_recording_keeps_identity_and_start() {
    let mut r = Recording::begun(4, "start".to_string(), "p_combined.mp4".to_string());
    r.completed(120, "end".to_string(), "p_display_0.mp4".to_string());
    assert_eq!(r.id, None);
    assert_eq!(r.task_id, 4);
    assert_eq!(r.duration, 120);
    assert_eq!(r.start_time, "start");
    assert_eq!(r.end_time, Some("end".to_string()));
    assert_eq!(r.file_path, "p_display_0.mp4");
    assert_eq!(r.status, "completed");
}

#[test]
fn status_snapshot_copies_every_field() {
    let mut status = RecordingStatus::idle();
    status.try_start(11).unwrap();
    status.update_duration(5);
    status.pause().unwrap();
    let snap = status.snapshot();
    assert!(snap.is_recording && snap.is_paused);
    assert_eq!(snap.duration, 5);
    assert_eq!(snap.task_id, Some(11));
}
