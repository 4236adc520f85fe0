use subtitle_ui::{App, ModelQuality};

#[test]
fn new_session_starts_with_both_switches_on_and_no_video() {
    let app = App::new();
    assert_eq!(app.input_file(), &None);
    assert_eq!(app.model(), ModelQuality::Medium);
    assert!(app.output_srt_file());
    assert!(app.only_output_srt());
}

#[test]
fn setters_overwrite_their_own_field_only() {
    let mut app = App::new();
    app.set_output_srt_file(false);
    assert!(!app.output_srt_file());
    assert!(app.only_output_srt());
    app.set_only_output_srt(false);
    assert!(!app.output_srt_file());
    assert!(!app.only_output_srt());
    app.set_output_srt_file(true);
    assert!(app.output_srt_file());
    assert!(!app.only_output_srt());
    app.set_model(ModelQuality::Medium);
    assert_eq!(app.model(), ModelQuality::Medium);
    assert_eq!(app.input_file(), &None);
}

#[test]
fn only_srt_without_srt_output_is_accepted() {
    let mut app = App::new();
    app.set_output_srt_file(false);
    app.set_only_output_srt(true);
    assert_eq!(
        app.get_command(),
        "auto_subtitle --model medium --output_srt false --verbose true --srt_only true -o '' ''"
    );
}

#[test]
fn last_input_file_wins() {
    let mut app = App::new();
    app.set_input_file(Some("/a/first.mp4".to_string()));
    app.set_input_file(Some("/b/second.mp4".to_string()));
    assert_eq!(app.input_file(), &Some("/b/second.mp4".to_string()));
    app.set_input_file(None);
    assert_eq!(app.input_file(), &None);
}

#[test]
fn one_click_flips_a_switch() {
    let mut app = App::new();
    app.toggle_output_srt_file();
    assert!(!app.output_srt_file());
    assert!(app.only_output_srt());
    app.toggle_only_output_srt();
    assert!(!app.output_srt_file());
    assert!(!app.only_output_srt());
}

#[test]
fn every_click_counts() {
    let mut app = App::new();
    app.toggle_output_srt_file();
    app.toggle_output_srt_file();
    app.toggle_output_srt_file();
    assert!(!app.output_srt_file());
}

#[test]
fn two_clicks_restore_the_command() {
    let mut app = App::new();
    app.set_input_file(Some("/a/b/video.mp4".to_string()));
    let before = app.get_command();
    app.toggle_output_srt_file();
    assert_ne!(app.get_command(), before);
    app.toggle_output_srt_file();
    assert_eq!(app.get_command(), before);
    app.toggle_only_output_srt();
    assert_ne!(app.get_command(), before);
    app.toggle_only_output_srt();
    assert_eq!(app.get_command(), before);
    assert_eq!(app.get_command().as_bytes(), before.as_bytes());
}

#[test]
fn selecting_the_active_model_changes_nothing() {
    let mut app = App::new();
    app.set_input_file(Some("/a/b/video.mp4".to_string()));
    let before = app.get_command();
    let changed = app.select_model(app.model());
    assert!(!changed);
    assert_eq!(app.model(), ModelQuality::Medium);
    assert_eq!(app.get_command(), before);
    assert_eq!(app.input_file(), &Some("/a/b/video.mp4".to_string()));
    assert!(app.output_srt_file());
    assert!(app.only_output_srt());
}

#[test]
fn picked_file_becomes_the_input() {
    let mut app = App::new();
    app.file_picked(Some("/a/b/video.mp4".to_string()));
    assert_eq!(app.input_file(), &Some("/a/b/video.mp4".to_string()));
    app.file_picked(Some("/c/other.mp4".to_string()));
    assert_eq!(app.input_file(), &Some("/c/other.mp4".to_string()));
    assert_eq!(
        app.get_command(),
        "auto_subtitle --model medium --output_srt true --verbose true --srt_only true -o '/c/out' '/c/other.mp4'"
    );
}

#[test]
fn cancelled_dialog_keeps_the_input() {
    let mut app = App::new();
    app.file_picked(None);
    assert_eq!(app.input_file(), &None);
    app.file_picked(Some("/a/b/video.mp4".to_string()));
    let before = app.get_command();
    app.file_picked(None);
    assert_eq!(app.input_file(), &Some("/a/b/video.mp4".to_string()));
    assert_eq!(app.get_command(), before);
    assert!(app.output_srt_file());
    assert!(app.only_output_srt());
}
