use video_clipper::device::Device;
use video_clipper::session::{
    boot_check_args, device_not_responding, is_ios_device, pull_args, recorder_not_started, recording_file,
    remove_remote_args, screenrecord_args, screenrecord_exited, simulator_record_args, wake_args,
    wants_wifi_connect, xcrun_missing, Platform, Session,
};

#[test]
fn loading_a_video() {
    let mut s = Session::new();
    let r = s.load_video("/tmp/missing.mp4".to_string(), false);
    assert!(!r.success);
    assert_eq!(r.error.as_deref(), Some("File does not exist"));
    assert!(s.video_path.is_none());
    assert_eq!(s.loaded_video().unwrap_err().error.as_deref(), Some("No video loaded"));

    let r = s.load_video("/tmp/a.mp4".to_string(), true);
    assert!(r.success);
    assert_eq!(r.message, "Video loaded: /tmp/a.mp4");
    assert_eq!(r.data.as_deref(), Some("/tmp/a.mp4"));
    assert!(r.error.is_none());
    assert_eq!(s.loaded_video().unwrap(), "/tmp/a.mp4");
}

#[test]
fn start_then_stop_recording() {
    let mut s = Session::new();
    assert!(s.claim_recorder(false).is_ok());
    let r = s.recording_started(Platform::Ios);
    assert!(r.success);
    assert_eq!(r.message, "iOS Simulator recording started");
    assert_eq!(r.data.as_deref(), Some("recording"));
    // A second start while the recorder still runs is refused.
    let refused = s.claim_recorder(true).unwrap_err();
    assert_eq!(refused.error.as_deref(), Some("Already recording"));
    assert!(s.recording);
    assert_eq!(s.stop_recording().unwrap(), Platform::Ios);
    assert!(!s.recording);
    let again = s.stop_recording().unwrap_err();
    assert_eq!(again.error.as_deref(), Some("Not recording"));
}

#[test]
fn exited_recorder_is_replaced() {
    let mut s = Session::new();
    s.recording_started(Platform::Android);
    assert!(s.claim_recorder(false).is_ok());
    assert!(!s.recording);
    assert_eq!(s.platform, Some(Platform::Android));
}

#[test]
fn stop_defaults_to_android() {
    let mut s = Session { video_path: None, recording: true, platform: None };
    assert_eq!(s.stop_recording().unwrap(), Platform::Android);
}

#[test]
fn saved_recording_becomes_loaded_video() {
    let mut s = Session::new();
    let path = recording_file(Platform::Android);
    assert_eq!(path, "/Users/bassem/Documents/projects/video-clipper/recordings/android_record.mp4");
    let r = s.recording_saved(Platform::Android, path.clone(), true);
    assert_eq!(r.message, "Android recording saved");
    assert_eq!(s.video_path.as_deref(), Some(path.as_str()));
    let r = s.recording_saved(Platform::Ios, recording_file(Platform::Ios), false);
    assert_eq!(r.error.as_deref(), Some("iOS recording file not found after stopping"));
    assert_eq!(s.video_path.as_deref(), Some(path.as_str()));
    let r = s.recording_saved(Platform::Android, "x".to_string(), false);
    assert_eq!(r.error.as_deref(), Some("Failed to pull recording from Android"));
    let r = s.recording_saved(Platform::Ios, "/r/ios_record.mp4".to_string(), true);
    assert_eq!(r.message, "iOS recording saved");
    assert_eq!(r.data.as_deref(), Some("/r/ios_record.mp4"));
}

#[test]
fn adb_command_lines() {
    assert_eq!(boot_check_args(Some("emu")), vec!["-s", "emu", "shell", "getprop", "sys.boot_completed"]);
    assert_eq!(boot_check_args(None), vec!["shell", "getprop", "sys.boot_completed"]);
    assert_eq!(wake_args(None), vec!["shell", "input", "keyevent", "224"]);
    assert_eq!(screenrecord_args(Some("d")), vec!["-s", "d", "shell", "screenrecord", "/sdcard/clip_record.mp4"]);
    assert_eq!(pull_args(None, "/l.mp4"), vec!["pull", "/sdcard/clip_record.mp4", "/l.mp4"]);
    assert_eq!(remove_remote_args(Some("d")), vec!["-s", "d", "shell", "rm", "/sdcard/clip_record.mp4"]);
    assert_eq!(simulator_record_args("U1", "/x.mp4"), vec!["simctl", "io", "U1", "recordVideo", "--force", "/x.mp4"]);
}

#[test]
fn device_kinds() {
    let sims = vec![Device {
        name: "U1".to_string(),
        state: "device".to_string(),
        display_name: "iPhone".to_string(),
        platform: "ios".to_string(),
    }];
    assert!(is_ios_device(Some("U1"), &sims));
    assert!(!is_ios_device(Some("U2"), &sims));
    assert!(!is_ios_device(None, &sims));
    assert!(wants_wifi_connect(Some("192.168.1.5:5555")));
    assert!(!wants_wifi_connect(Some("emulator-5554")));
    assert!(!wants_wifi_connect(None));
}

#[test]
fn screenrecord_exit_reasons() {
    let locked = screenrecord_exited(Some("ERROR: INVALID_LAYER_STACK\n"));
    assert_eq!(locked.error.as_deref(), Some("Device screen is locked or turned off. Please unlock the screen and try again."));
    let other = screenrecord_exited(Some("  boom \n"));
    assert_eq!(other.error.as_deref(), Some("screenrecord error: boom"));
    let default = "screenrecord exited prematurely. Please make sure your phone's screen is ON and UNLOCKED.";
    assert_eq!(screenrecord_exited(Some(" \n ")).error.as_deref(), Some(default));
    assert_eq!(screenrecord_exited(None).error.as_deref(), Some(default));
}

#[test]
fn failure_answers() {
    assert_eq!(xcrun_missing().error.as_deref(), Some("xcrun not found"));
    assert_eq!(device_not_responding().error.as_deref(), Some("Selected ADB device is not connected or not responding."));
    let r = recorder_not_started(Platform::Ios, "no such file");
    assert_eq!(r.error.as_deref(), Some("Failed to start simctl recordVideo: no such file"));
    assert!(!r.success);
    assert_eq!(r.message, "");
    let r = recorder_not_started(Platform::Android, "e");
    assert_eq!(r.error.as_deref(), Some("Failed to start screenrecord: e"));
}
