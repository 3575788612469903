use hyprnote::screen::{
    first_linux_tool, linux_capture_step, macos_capture_step, ping, recording_target, screenshot_target,
    windows_capture_error, CaptureStep, RecordingState, ScreenError, ScreenshotTool, ToolOutcome,
};

#[test]
fn ping_answers_pong() {
    assert_eq!(ping().unwrap(), "pong");
}

#[test]
fn recording_lifecycle() {
    let mut state = RecordingState::new();
    assert!(!state.status().is_recording);
    assert!(state.ensure_idle().is_ok());
    let started = state.record_started("session-1", "/tmp/out/recording_x.mp4".to_string(), "recording_x.mp4".to_string());
    assert_eq!(started.path, "/tmp/out/recording_x.mp4");
    assert_eq!(started.filename, "recording_x.mp4");
    let status = state.status();
    assert!(status.is_recording);
    assert_eq!(status.session_id.as_deref(), Some("session-1"));
    assert_eq!(status.output_path.as_deref(), Some("/tmp/out/recording_x.mp4"));
    match state.ensure_idle() {
        Err(ScreenError::Capture(m)) => assert_eq!(m, "Already recording"),
        other => panic!("unexpected {other:?}"),
    }
    let stopped = state.stop().unwrap();
    assert_eq!(stopped.path, "/tmp/out/recording_x.mp4");
    assert_eq!(stopped.filename, "recording_x.mp4");
    let status = state.status();
    assert!(!status.is_recording);
    assert_eq!(status.session_id, None);
    assert_eq!(status.output_path, None);
    assert!(state.stop().is_none());
}

#[test]
fn capture_targets_are_fresh_files_in_the_directory() {
    let a = screenshot_target("/tmp/shots");
    assert!(a.filename.starts_with("screenshot_") && a.filename.ends_with(".png"));
    assert_eq!(a.filename.len(), "screenshot_".len() + 36 + ".png".len());
    let id: Vec<char> = a.filename["screenshot_".len()..a.filename.len() - 4].chars().collect();
    for (i, c) in id.iter().enumerate() {
        if [8, 13, 18, 23].contains(&i) {
            assert_eq!(*c, '-');
        } else {
            assert!(c.is_ascii_hexdigit() && !c.is_ascii_uppercase());
        }
    }
    assert_eq!(id[14], '4');
    assert!(['8', '9', 'a', 'b'].contains(&id[19]));
    assert_eq!(a.path, format!("/tmp/shots/{}", a.filename));
    let b = screenshot_target("/tmp/shots");
    assert_ne!(a.filename, b.filename);
    let r = recording_target("out/");
    assert!(r.filename.starts_with("recording_") && r.filename.ends_with(".mp4"));
    assert_eq!(r.path, format!("out/{}", r.filename));
}

#[test]
fn linux_capture_tries_each_tool_in_turn() {
    assert_eq!(first_linux_tool(), ScreenshotTool::Grim);
    assert!(matches!(linux_capture_step(ScreenshotTool::Grim, ToolOutcome::Succeeded), CaptureStep::Done));
    assert!(matches!(
        linux_capture_step(ScreenshotTool::Grim, ToolOutcome::CouldNotRun("no grim".to_string())),
        CaptureStep::Run(ScreenshotTool::Scrot)
    ));
    assert!(matches!(linux_capture_step(ScreenshotTool::Scrot, ToolOutcome::Failed), CaptureStep::Run(ScreenshotTool::Import)));
    match linux_capture_step(ScreenshotTool::Import, ToolOutcome::Failed) {
        CaptureStep::Fail(ScreenError::Capture(m)) => {
            assert_eq!(m, "No screenshot tool available (tried grim, scrot, import)")
        }
        other => panic!("unexpected {other:?}"),
    }
    match linux_capture_step(ScreenshotTool::Import, ToolOutcome::CouldNotRun("not found".to_string())) {
        CaptureStep::Fail(ScreenError::Io(m)) => assert_eq!(m, "not found"),
        other => panic!("unexpected {other:?}"),
    }
}

#[test]
fn macos_and_windows_capture_outcomes() {
    assert!(macos_capture_step(ToolOutcome::Succeeded).is_ok());
    assert!(matches!(macos_capture_step(ToolOutcome::Failed), Err(ScreenError::Capture(m)) if m == "screencapture command failed"));
    assert!(matches!(macos_capture_step(ToolOutcome::CouldNotRun("e".to_string())), Err(ScreenError::Io(m)) if m == "e"));
    assert!(matches!(windows_capture_error(), ScreenError::Capture(m) if m == "Windows screenshot not yet supported"));
}
