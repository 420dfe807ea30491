use video_clipper::command::CommandOutcome;
use video_clipper::media::{
    ffmpeg_missing, frame_args, frame_dir, frame_file_name, frame_response, frames_args, frames_dir, frames_folder,
    frames_pattern, frames_response, video_dir, video_stem,
};

#[test]
fn video_parts() {
    assert_eq!(video_dir("/tmp/clips/a.mp4"), "/tmp/clips");
    assert_eq!(video_stem("/tmp/clips/a.mp4"), "a");
    assert_eq!(video_dir("a.mp4"), "");
    assert_eq!(video_dir("/"), ".");
    assert_eq!(video_stem("/"), "video");
    assert_eq!(video_stem("/tmp/archive.tar.gz"), "archive.tar");
}

#[test]
fn frames_directory_names() {
    assert_eq!(frames_folder("clip", "30"), "clip_frames_30fps");
    assert_eq!(frames_dir("/tmp/clips/a.mp4", "60"), "/tmp/clips/a_frames_60fps");
    assert_eq!(frames_dir("a.mp4", "1"), "a_frames_1fps");
    assert_eq!(frames_pattern("/tmp/x"), "/tmp/x/%04d.png");
    assert_eq!(frame_dir("/v/rec.mp4"), "/v/rec_frames");
}

#[test]
fn single_frame_name_has_no_dots() {
    assert_eq!(frame_file_name("1.500"), "frame_1_500_png");
    assert_eq!(frame_file_name("12.034"), "frame_12_034_png");
    assert!(!frame_file_name("0.000").contains('.'));
}

#[test]
fn ffmpeg_command_lines() {
    assert_eq!(
        frames_args("1.5", "/v.mp4", "2", "30", "/o/%04d.png"),
        vec!["-y", "-ss", "1.5", "-i", "/v.mp4", "-t", "2", "-r", "30", "/o/%04d.png"]
    );
    assert_eq!(frame_args("3", "/v.mp4", "/o/f"), vec!["-y", "-ss", "3", "-i", "/v.mp4", "-frames:v", "1", "/o/f"]);
}

#[test]
fn ffmpeg_answers() {
    let ok = CommandOutcome::Finished { success: true, stdout: vec![], stderr: b"noise".to_vec() };
    let r = frames_response(&ok, "/o");
    assert!(r.success);
    assert_eq!(r.message, "Successfully extracted frames to /o");
    assert_eq!(r.data.as_deref(), Some("/o"));
    let r = frame_response(&ok, "/o/f");
    assert_eq!(r.message, "Successfully extracted single frame to /o/f");

    let bad = CommandOutcome::Finished { success: false, stdout: vec![], stderr: b"No such file".to_vec() };
    let r = frames_response(&bad, "/o");
    assert!(!r.success);
    assert_eq!(r.error.as_deref(), Some("ffmpeg failed: No such file"));

    let missing = CommandOutcome::NotStarted { error: "permission denied".to_string() };
    assert_eq!(frame_response(&missing, "/o").error.as_deref(), Some("Failed to execute ffmpeg: permission denied"));

    assert_eq!(
        ffmpeg_missing().error.as_deref(),
        Some("ffmpeg binary not found. Please install ffmpeg and make sure it is in your system path.")
    );
}
