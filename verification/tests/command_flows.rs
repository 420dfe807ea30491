use video_clipper::command::CommandOutcome;
use video_clipper::device::Device;
use video_clipper::flow::{Action, Event};
use video_clipper::image::{ClipboardJob, Desktop, SaveImage};
use video_clipper::media::FfmpegJob;
use video_clipper::pairing::PairRequest;
use video_clipper::session::{Platform, Session, StartRecording, StopRecording, StopStage};

fn ok_run(out: &str) -> Event {
    Event::Ran(CommandOutcome::Finished { success: true, stdout: out.as_bytes().to_vec(), stderr: vec![] })
}

fn failed_run(err: &str) -> Event {
    Event::Ran(CommandOutcome::Finished { success: false, stdout: vec![], stderr: err.as_bytes().to_vec() })
}

fn done(a: Action) -> (video_clipper::response::ApiResponse, bool) {
    match a {
        Action::Done { response, keep_recorder } => (response, keep_recorder),
        other => panic!("expected the end, got {:?}", other),
    }
}

fn run_args(a: &Action) -> (String, Vec<String>) {
    match a {
        Action::Run { program, args } | Action::Spawn { program, args } => {
            (program.clone(), args.clone())
        }
        other => panic!("expected a command, got {:?}", other),
    }
}

fn sim() -> Vec<Device> {
    vec![Device {
        name: "U1".to_string(),
        state: "device".to_string(),
        display_name: "iPhone".to_string(),
        platform: "ios".to_string(),
    }]
}

#[test]
fn android_recording_starts_in_order() {
    let mut s = Session::new();
    let (mut m, a) = StartRecording::new(Some("10.0.0.2:5555".to_string()), &vec![]);
    assert_eq!(m.platform, Platform::Android);
    assert!(matches!(a, Action::FindTool { ref name } if name == "adb"));
    let a = m.next(&mut s, Event::Tool(Some("/bin/adb".to_string())));
    assert!(matches!(a, Action::CheckRecorder));
    let a = m.next(&mut s, Event::Running(false));
    assert!(matches!(a, Action::ReleaseRecorder));
    let a = m.next(&mut s, Event::Ack);
    assert_eq!(run_args(&a), ("/bin/adb".to_string(), vec!["connect".to_string(), "10.0.0.2:5555".to_string()]));
    let a = m.next(&mut s, failed_run("whatever"));
    assert_eq!(run_args(&a).1, vec!["-s", "10.0.0.2:5555", "shell", "getprop", "sys.boot_completed"]);
    let a = m.next(&mut s, ok_run("1\n"));
    assert_eq!(run_args(&a).1, vec!["-s", "10.0.0.2:5555", "shell", "input", "keyevent", "224"]);
    let a = m.next(&mut s, ok_run(""));
    assert!(matches!(a, Action::Spawn { .. }));
    assert_eq!(run_args(&a).1, vec!["-s", "10.0.0.2:5555", "shell", "screenrecord", "/sdcard/clip_record.mp4"]);
    let a = m.next(&mut s, Event::Spawned(Ok(())));
    assert!(matches!(a, Action::Watch));
    let (r, keep) = done(m.next(&mut s, Event::Watched(None)));
    assert!(keep && r.success);
    assert_eq!(r.message, "Recording started");
    assert_eq!(r.data.as_deref(), Some("recording"));
    assert!(s.recording);
    assert_eq!(s.platform, Some(Platform::Android));
}

#[test]
fn android_start_failures() {
    // No adb: refused before touching a held recorder.
    let mut s = Session { video_path: None, recording: true, platform: Some(Platform::Ios) };
    let (mut m, _) = StartRecording::new(None, &vec![]);
    let (r, keep) = done(m.next(&mut s, Event::Tool(None)));
    assert!(!keep);
    assert_eq!(r.error.as_deref(), Some("ADB not installed"));
    assert!(s.recording);

    // A recorder still running.
    let (mut m, _) = StartRecording::new(None, &vec![]);
    m.next(&mut s, Event::Tool(Some("adb".to_string())));
    let (r, _) = done(m.next(&mut s, Event::Running(true)));
    assert_eq!(r.error.as_deref(), Some("Already recording"));
    assert!(s.recording);

    // Device not answering; no connect step without a colon.
    let (mut m, _) = StartRecording::new(Some("emulator-5554".to_string()), &vec![]);
    m.next(&mut s, Event::Tool(Some("adb".to_string())));
    m.next(&mut s, Event::Running(false));
    assert!(!s.recording);
    let a = m.next(&mut s, Event::Ack);
    assert_eq!(run_args(&a).1, vec!["-s", "emulator-5554", "shell", "getprop", "sys.boot_completed"]);
    let (r, keep) = done(m.next(&mut s, failed_run("error: device offline")));
    assert!(!keep);
    assert_eq!(r.error.as_deref(), Some("Selected ADB device is not connected or not responding."));
    assert_eq!(s.platform, Some(Platform::Ios));

    // The recorder exits at once.
    let (mut m, _) = StartRecording::new(None, &vec![]);
    m.next(&mut s, Event::Tool(Some("adb".to_string())));
    m.next(&mut s, Event::Running(false));
    m.next(&mut s, Event::Ack);
    m.next(&mut s, ok_run("1"));
    m.next(&mut s, ok_run(""));
    m.next(&mut s, Event::Spawned(Ok(())));
    let (r, keep) = done(m.next(&mut s, Event::Watched(Some(Some("INVALID_LAYER_STACK".to_string())))));
    assert!(!keep);
    assert_eq!(r.error.as_deref(), Some("Device screen is locked or turned off. Please unlock the screen and try again."));
    assert_eq!(s.platform, Some(Platform::Ios));
    assert!(!s.recording);
}

#[test]
fn simulator_recording_starts() {
    let mut s = Session::new();
    let (mut m, a) = StartRecording::new(Some("U1".to_string()), &sim());
    assert_eq!(m.platform, Platform::Ios);
    assert!(matches!(a, Action::FindTool { ref name } if name == "xcrun"));
    m.next(&mut s, Event::Tool(Some("/usr/bin/xcrun".to_string())));
    m.next(&mut s, Event::Running(false));
    let a = m.next(&mut s, Event::Ack);
    match a {
        Action::PrepareFile { dir, file } => {
            assert_eq!(dir, "/Users/bassem/Documents/projects/video-clipper/recordings");
            assert_eq!(file, "/Users/bassem/Documents/projects/video-clipper/recordings/ios_record.mp4");
        }
        other => panic!("{:?}", other),
    }
    let a = m.next(&mut s, Event::Ack);
    assert_eq!(
        run_args(&a).1,
        vec![
            "simctl",
            "io",
            "U1",
            "recordVideo",
            "--force",
            "/Users/bassem/Documents/projects/video-clipper/recordings/ios_record.mp4"
        ]
    );
    let (r, keep) = done(m.next(&mut s, Event::Spawned(Ok(()))));
    assert!(keep);
    assert_eq!(r.message, "iOS Simulator recording started");
    assert_eq!(s.platform, Some(Platform::Ios));

    let mut s2 = Session::new();
    let (mut m, _) = StartRecording::new(Some("U1".to_string()), &sim());
    let (r, _) = done(m.next(&mut s2, Event::Tool(None)));
    assert_eq!(r.error.as_deref(), Some("xcrun not found"));
    let (mut m, _) = StartRecording::new(Some("U1".to_string()), &sim());
    m.next(&mut s2, Event::Tool(Some("x".to_string())));
    m.next(&mut s2, Event::Running(false));
    m.next(&mut s2, Event::Ack);
    m.next(&mut s2, Event::Ack);
    let (r, keep) = done(m.next(&mut s2, Event::Spawned(Err("denied".to_string()))));
    assert!(!keep);
    assert_eq!(r.error.as_deref(), Some("Failed to start simctl recordVideo: denied"));
}

#[test]
fn stopping_recordings() {
    let mut s = Session::new();
    let (m, a) = StopRecording::new(&mut s, None);
    assert_eq!(m.stage, StopStage::Finished);
    assert_eq!(done(a).0.error.as_deref(), Some("Not recording"));

    let mut s = Session { video_path: None, recording: true, platform: Some(Platform::Ios) };
    let (mut m, a) = StopRecording::new(&mut s, None);
    assert!(matches!(a, Action::EndRecorder { gentle: true }));
    assert!(!s.recording);
    let a = m.next(&mut s, Event::Ack);
    assert!(matches!(a, Action::CheckExists { .. }));
    let (r, keep) = done(m.next(&mut s, Event::Exists(true)));
    assert!(!keep);
    assert_eq!(r.message, "iOS recording saved");
    assert_eq!(s.video_path.as_deref(), Some("/Users/bassem/Documents/projects/video-clipper/recordings/ios_record.mp4"));

    let mut s = Session { video_path: None, recording: true, platform: Some(Platform::Android) };
    let (mut m, a) = StopRecording::new(&mut s, Some("d1".to_string()));
    assert!(matches!(a, Action::FindTool { .. }));
    assert!(matches!(m.next(&mut s, Event::Tool(Some("adb".to_string()))), Action::EndRecorder { gentle: false }));
    assert!(matches!(m.next(&mut s, Event::Ack), Action::MakeDir { .. }));
    let a = m.next(&mut s, Event::Ack);
    assert_eq!(
        run_args(&a).1,
        vec![
            "-s",
            "d1",
            "pull",
            "/sdcard/clip_record.mp4",
            "/Users/bassem/Documents/projects/video-clipper/recordings/android_record.mp4"
        ]
    );
    let a = m.next(&mut s, ok_run(""));
    assert_eq!(run_args(&a).1, vec!["-s", "d1", "shell", "rm", "/sdcard/clip_record.mp4"]);
    let (r, _) = done(m.next(&mut s, failed_run("")));
    assert_eq!(r.message, "Android recording saved");

    let mut s = Session { video_path: None, recording: true, platform: None };
    let (mut m, _) = StopRecording::new(&mut s, None);
    let (r, _) = done(m.next(&mut s, Event::Tool(None)));
    assert_eq!(r.error.as_deref(), Some("ADB not installed"));
    let mut s = Session { video_path: None, recording: true, platform: None };
    let (mut m, _) = StopRecording::new(&mut s, None);
    m.next(&mut s, Event::Tool(Some("adb".to_string())));
    m.next(&mut s, Event::Ack);
    m.next(&mut s, Event::Ack);
    let (r, _) = done(m.next(&mut s, failed_run("no such file")));
    assert_eq!(r.error.as_deref(), Some("Failed to pull recording from Android"));
    assert!(s.video_path.is_none());
}

#[test]
fn pairing_flow() {
    let (mut p, a) = PairRequest::new("192.168.1.5:37000".to_string(), "123456".to_string());
    assert!(matches!(a, Action::FindTool { .. }));
    let a = p.next(Event::Tool(Some("adb".to_string())));
    assert_eq!(run_args(&a).1, vec!["pair", "192.168.1.5:37000", "123456"]);
    let a = p.next(ok_run("Successfully paired to 192.168.1.5:37000\n"));
    assert!(matches!(a, Action::Pause { millis: 1000 }));
    let a = p.next(Event::Ack);
    assert_eq!(run_args(&a).1, vec!["mdns", "services"]);
    let mdns = "adb-X\t_adb-tls-connect._tcp\t192.168.1.5:41000\nadb-Z\t_adb-tls-connect._tcp\t192.168.1.5:42000\n";
    let a = p.next(ok_run(mdns));
    assert_eq!(run_args(&a).1, vec!["connect", "192.168.1.5:41000"]);
    let a = p.next(ok_run("failed to connect"));
    assert_eq!(run_args(&a).1, vec!["connect", "192.168.1.5:42000"]);
    let (r, _) = done(p.next(ok_run("connected to 192.168.1.5:42000")));
    assert_eq!(r.needs_manual_connect, Some(false));
    assert_eq!(r.data.as_deref(), Some("connected"));

    let (mut p, _) = PairRequest::new("h:1".to_string(), "0".to_string());
    p.next(Event::Tool(Some("adb".to_string())));
    let (r, _) = done(p.next(failed_run("Failed: Wrong password\n")));
    assert_eq!(r.error.as_deref(), Some("Failed: Wrong password\n"));
    assert!(r.needs_manual_connect.is_none());

    let (mut p, _) = PairRequest::new("h:1".to_string(), "0".to_string());
    assert_eq!(done(p.next(Event::Tool(None))).0.error.as_deref(), Some("ADB not installed"));

    let (mut p, _) = PairRequest::new("h:1".to_string(), "0".to_string());
    p.next(Event::Tool(Some("adb".to_string())));
    p.next(ok_run("Successfully paired"));
    p.next(Event::Ack);
    let (r, _) = done(p.next(ok_run("nothing advertised")));
    assert_eq!(r.needs_manual_connect, Some(true));
    assert_eq!(r.data.as_deref(), Some("paired"));
}

#[test]
fn frames_flow() {
    let s = Session::new();
    let (_, a) = FfmpegJob::frames(&s, "30", "0", "1");
    assert_eq!(done(a).0.error.as_deref(), Some("No video loaded"));

    let s = Session { video_path: Some("/v/clip.mp4".to_string()), recording: false, platform: None };
    let (mut j, a) = FfmpegJob::frames(&s, "30", "1.5", "2");
    assert!(matches!(a, Action::MakeDir { ref dir } if dir == "/v/clip_frames_30fps"));
    assert!(matches!(j.next(Event::Ack), Action::FindTool { ref name } if name == "ffmpeg"));
    let a = j.next(Event::Tool(Some("/usr/bin/ffmpeg".to_string())));
    assert_eq!(
        run_args(&a),
        (
            "/usr/bin/ffmpeg".to_string(),
            vec!["-y", "-ss", "1.5", "-i", "/v/clip.mp4", "-t", "2", "-r", "30", "/v/clip_frames_30fps/%04d.png"]
                .into_iter()
                .map(String::from)
                .collect()
        )
    );
    let (r, _) = done(j.next(ok_run("")));
    assert_eq!(r.message, "Successfully extracted frames to /v/clip_frames_30fps");

    let (mut j, _) = FfmpegJob::frame(&s, "0.5", "0.500");
    j.next(Event::Ack);
    let (r, _) = done(j.next(Event::Tool(None)));
    assert_eq!(
        r.error.as_deref(),
        Some("ffmpeg binary not found. Please install ffmpeg and make sure it is in your system path.")
    );
    let (mut j, _) = FfmpegJob::frame(&s, "0.5", "0.500");
    j.next(Event::Ack);
    let a = j.next(Event::Tool(Some("ff".to_string())));
    assert_eq!(run_args(&a).1.last().unwrap(), "/v/clip_frames/frame_0_500_png");
    let (r, _) = done(j.next(failed_run("bad")));
    assert_eq!(r.error.as_deref(), Some("ffmpeg failed: bad"));
}

#[test]
fn save_flow() {
    let (mut save, a) = SaveImage::new("data:image/png;base64,aGVsbG8=", "/v/clip.mp4", true);
    match a {
        Action::WriteFile { path, bytes } => {
            assert_eq!(path, "/v/clip_grid.png");
            assert_eq!(bytes, b"hello".to_vec());
        }
        other => panic!("{:?}", other),
    }
    let (r, _) = done(save.next(Event::Written(Ok(()))));
    assert_eq!(r.message, "Grid image saved: clip_grid.png");
    let (_, a) = SaveImage::new("!!", "/v/clip.mp4", true);
    assert!(!done(a).0.success);
}

#[test]
fn clipboard_flow() {
    let (mut job, a) = ClipboardJob::new("data:image/png;base64,aGVsbG8=", Desktop::Linux);
    match a {
        Action::Feed { ref program, ref args, ref input } => {
            assert_eq!(program, "xclip");
            assert_eq!(args, &vec!["-selection", "clipboard", "-t", "image/png", "-i"]);
            assert_eq!(input, &b"hello".to_vec());
        }
        ref other => panic!("{:?}", other),
    }
    // On Linux the tool's outcome is not reported.
    let (r, _) = done(job.next(failed_run("no display")));
    assert_eq!(r.message, "Copied to clipboard");

    let (mut job, a) = ClipboardJob::new("aGVsbG8=", Desktop::MacOs);
    match a {
        Action::Feed { ref program, ref args, ref input } => {
            assert_eq!(program, "osascript");
            assert_eq!(args, &vec!["-"]);
            assert_eq!(
                String::from_utf8(input.clone()).unwrap(),
                "set the clipboard to \u{ab}data PNGf68656C6C6F\u{bb}"
            );
        }
        ref other => panic!("{:?}", other),
    }
    let (r, _) = done(job.next(failed_run("no access")));
    assert_eq!(r.error.as_deref(), Some("no access"));

    let (mut job, a) = ClipboardJob::new("aGVsbG8=", Desktop::Windows);
    match a {
        Action::Feed { ref program, ref args, ref input } => {
            assert_eq!(program, "powershell");
            assert_eq!(args, &vec!["-NoProfile", "-STA", "-Command", "-"]);
            assert!(String::from_utf8(input.clone()).unwrap().contains("FromBase64String('aGVsbG8=')"));
        }
        ref other => panic!("{:?}", other),
    }
    let (r, _) = done(job.next(ok_run("")));
    assert!(r.success);
    let (mut job, _) = ClipboardJob::new("aGVsbG8=", Desktop::Windows);
    let gone = Event::Ran(CommandOutcome::NotStarted { error: "not found".to_string() });
    assert_eq!(done(job.next(gone)).0.error.as_deref(), Some("not found"));

    let (_, a) = ClipboardJob::new("aGVsbG8=", Desktop::Other);
    assert!(done(a).0.success);
    let (_, a) = ClipboardJob::new("$$", Desktop::Linux);
    assert!(!done(a).0.success);
}
