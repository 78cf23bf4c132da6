//! Capture planning, artifact validation and naming tests.

use bigbrother::artifacts::{usable_artifacts, ArtifactProbe};
use bigbrother::capture::{
    combined_file, display_file, encoder_program, stop_sequence, webcam_file, webcam_input,
    ScreenRecorder, StopStep, SETTLE_SECONDS, SIGNAL_GRACE_MILLIS, STOP_SIGNAL_BYTE,
};
use bigbrother::lifecycle::recording_prefix_name;
use bigbrother::sources::{enumerate_displays, DisplayInfo, WebcamInfo};

fn one_display() -> DisplayInfo {
    DisplayInfo {
        id: 0,
        name: "Primary Display".to_string(),
        width: 1920,
        height: 1080,
        is_primary: true,
    }
}

#[test]
fn artifact_file_names_follow_the_convention() {
    assert_eq!(display_file("p", 0), "p_display_0.mp4");
    assert_eq!(display_file("p", 12), "p_display_12.mp4");
    assert_eq!(webcam_file("p"), "p_webcam.mp4");
    assert_eq!(combined_file("p"), "p_combined.mp4");
}

#[test]
fn prefix_name_combines_task_and_suffix() {
    assert_eq!(recording_prefix_name(42, "20250101_120000"), "task_42_rec_20250101_120000");
    assert_eq!(recording_prefix_name(-3, "s"), "task_-3_rec_s");
}

#[test]
fn spawn_plan_one_command_per_display_then_webcam() {
    let recorder = ScreenRecorder::new(
        vec![one_display(), one_display()],
        Some(WebcamInfo { id: "cam".to_string(), name: "Integrated Camera".to_string() }),
        "p".to_string(),
    );
    let plan = recorder.spawn_plan();
    assert_eq!(plan.len(), 3);

    let expected_display_0: Vec<String> = vec![
        "-y", "-f", "gdigrab", "-framerate", "5", "-i", "desktop", "-c:v", "libx264", "-preset",
        "veryfast", "-crf", "28", "-pix_fmt", "yuv420p", "p_display_0.mp4",
    ]
    .into_iter()
    .map(|s| s.to_string())
    .collect();
    assert_eq!(plan[0].args, expected_display_0);
    assert_eq!(plan[0].output_file, "p_display_0.mp4");
    assert!(plan[0].required);

    assert_eq!(plan[1].output_file, "p_display_1.mp4");
    assert!(plan[1].required);

    let expected_webcam: Vec<String> = vec![
        "-y", "-f", "dshow", "-video_size", "640x480", "-framerate", "5", "-i",
        "video=Integrated Camera", "-c:v", "libx264", "-preset", "veryfast", "-crf", "28",
        "-pix_fmt", "yuv420p", "p_webcam.mp4",
    ]
    .into_iter()
    .map(|s| s.to_string())
    .collect();
    assert_eq!(plan[2].args, expected_webcam);
    assert_eq!(plan[2].output_file, "p_webcam.mp4");
    assert!(!plan[2].required, "webcam spawn failure must not block screen capture");
}

#[test]
fn webcam_input_addresses_placeholder_by_index() {
    assert_eq!(webcam_input(&"Default Webcam".to_string()), "0");
    assert_eq!(webcam_input(&"Logi C920".to_string()), "video=Logi C920");
}

#[test]
fn stop_sequence_signals_all_then_waits_in_order() {
    let steps = stop_sequence(2, true);
    assert_eq!(
        steps,
        vec![
            StopStep::SignalDisplay { index: 0 },
            StopStep::SignalDisplay { index: 1 },
            StopStep::SignalWebcam,
            StopStep::WaitDisplay { index: 0 },
            StopStep::WaitDisplay { index: 1 },
            StopStep::WaitWebcam,
        ]
    );

    let no_webcam = stop_sequence(1, false);
    assert_eq!(
        no_webcam,
        vec![StopStep::SignalDisplay { index: 0 }, StopStep::WaitDisplay { index: 0 }]
    );
}

#[test]
fn stop_plan_matches_session_shape() {
    let recorder = ScreenRecorder::new(vec![one_display()], None, "p".to_string());
    assert_eq!(
        recorder.stop_plan(),
        vec![StopStep::SignalDisplay { index: 0 }, StopStep::WaitDisplay { index: 0 }]
    );
}

#[test]
fn shutdown_constants_match_the_design() {
    assert_eq!(STOP_SIGNAL_BYTE, b'q');
    assert_eq!(SIGNAL_GRACE_MILLIS, 100);
    assert_eq!(SETTLE_SECONDS, 5);
    assert_eq!(encoder_program(), "ffmpeg");
}

#[test]
fn portable_display_enumeration_is_refused() {
    let r = enumerate_displays();
    assert_eq!(r.unwrap_err(), "Display enumeration only supported on Windows");
}

#[test]
fn zero_byte_artifact_excluded_but_probing_continues() {
    let probes = vec![
        ArtifactProbe { path: "p_display_0.mp4".to_string(), size: Some(500) },
        ArtifactProbe { path: "p_display_1.mp4".to_string(), size: Some(0) },
    ];
    let usable = usable_artifacts(&probes, &None);
    assert_eq!(usable, vec!["p_display_0.mp4".to_string()]);
}

#[test]
fn missing_index_gap_ends_the_display_set() {
    // Index 1 is missing, so index 2 is never considered even though its
    // file exists with data.
    let probes = vec![
        ArtifactProbe { path: "p_display_0.mp4".to_string(), size: Some(500) },
        ArtifactProbe { path: "p_display_1.mp4".to_string(), size: None },
        ArtifactProbe { path: "p_display_2.mp4".to_string(), size: Some(700) },
    ];
    let usable = usable_artifacts(&probes, &None);
    assert_eq!(usable, vec!["p_display_0.mp4".to_string()]);
}

#[test]
fn webcam_artifact_appended_after_displays() {
    let probes = vec![ArtifactProbe { path: "p_display_0.mp4".to_string(), size: Some(500) }];
    let webcam = Some(ArtifactProbe { path: "p_webcam.mp4".to_string(), size: Some(300) });
    let usable = usable_artifacts(&probes, &webcam);
    assert_eq!(
        usable,
        vec!["p_display_0.mp4".to_string(), "p_webcam.mp4".to_string()]
    );

    let empty_webcam = Some(ArtifactProbe { path: "p_webcam.mp4".to_string(), size: Some(0) });
    let usable = usable_artifacts(&probes, &empty_webcam);
    assert_eq!(usable, vec!["p_display_0.mp4".to_string()]);
}

#[test]
fn validator_with_nothing_on_disk_finds_nothing() {
    let probes = vec![ArtifactProbe { path: "p_display_0.mp4".to_string(), size: None }];
    let usable = usable_artifacts(&probes, &None);
    assert!(usable.is_empty());
}
