use bevy_tutorial::tutorial_capture::{tutorial_capture_enabled, FrameAction, TutorialScreenshot};

fn captured_path(action: FrameAction) -> Option<String> {
    match action {
        FrameAction::Wait => None,
        FrameAction::Capture(path) => Some(path),
    }
}

#[test]
fn capture_switch_accepts_each_listed_value() {
    for value in ["1", "true", "TRUE", "yes", "YES", "on", "ON"] {
        assert!(tutorial_capture_enabled(Some(value)), "{value} should enable capture");
    }
}

#[test]
fn capture_switch_rejects_other_values() {
    for value in ["0", "false", "", "True", "Yes", "On", "on ", " 1", "yes!", "ONE", "11", "tru"] {
        assert!(!tutorial_capture_enabled(Some(value)), "{value:?} should not enable capture");
    }
}

#[test]
fn capture_switch_unset_is_off() {
    assert!(!tutorial_capture_enabled(None));
}

#[test]
fn capture_switch_non_ascii_value_is_off() {
    assert!(!tutorial_capture_enabled(Some("ön")));
    assert!(!tutorial_capture_enabled(Some("１")));
}

#[test]
fn screenshot_taken_at_target_frame() {
    let mut shot = TutorialScreenshot::new("assets/screenshots/ch18-projectiles.png".to_string(), 20);
    for _ in 1..20 {
        assert_eq!(captured_path(shot.advance_frame()), None);
    }
    assert_eq!(
        captured_path(shot.advance_frame()),
        Some("assets/screenshots/ch18-projectiles.png".to_string())
    );
    for _ in 0..10 {
        assert_eq!(captured_path(shot.advance_frame()), None);
    }
}

#[test]
fn screenshot_with_target_zero_taken_in_first_frame() {
    let mut shot = TutorialScreenshot::new("zero.png".to_string(), 0);
    assert_eq!(captured_path(shot.advance_frame()), Some("zero.png".to_string()));
    assert_eq!(captured_path(shot.advance_frame()), None);
}

#[test]
fn screenshot_with_target_one_taken_in_first_frame() {
    let mut shot = TutorialScreenshot::new("one.png".to_string(), 1);
    assert_eq!(captured_path(shot.advance_frame()), Some("one.png".to_string()));
    assert_eq!(captured_path(shot.advance_frame()), None);
}

#[test]
fn screenshot_taken_exactly_once_over_many_frames() {
    for target in [0u32, 1, 2, 3, 7, 50] {
        let mut shot = TutorialScreenshot::new(format!("shot-{target}.png"), target);
        let mut captures = Vec::new();
        for frame in 1..=200u32 {
            if let Some(path) = captured_path(shot.advance_frame()) {
                captures.push((frame, path));
            }
        }
        assert_eq!(captures, vec![(target.max(1), format!("shot-{target}.png"))]);
    }
}

#[test]
fn screenshot_with_large_target_waits() {
    let mut shot = TutorialScreenshot::new("far.png".to_string(), u32::MAX);
    for _ in 0..1000 {
        assert_eq!(captured_path(shot.advance_frame()), None);
    }
}
