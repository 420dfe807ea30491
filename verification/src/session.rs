//! The recording session: which video is loaded, whether a recording runs
//! and on which platform, and the commands that start, check and end a
//! recording.
//!
//! The running recorder process itself is held by the caller; the session
//! records whether there is one.

use vstd::prelude::*;

use crate::device::{device_views, listed, Device};
use crate::locate::{join, path_join};
use crate::command::CommandOutcome;
use crate::flow::{arg_views, run, Action, ActionView, Event};
use crate::response::{failed, opt_view, succeeded, ApiResponse, ResponseView};
use crate::text::{chars_of, contains, contains_chars, string_of, trim, trim_chars};

verus! {

/// The platform a recording runs on.
#[derive(Debug, Clone, Copy, PartialEq, Eq, Structural)]
pub enum Platform {
    Android,
    Ios,
}

/// The state shared by the commands.
#[derive(Debug, Clone)]
pub struct Session {
    /// The video that frames are taken from.
    pub video_path: Option<String>,
    /// Whether a recorder process is held.
    pub recording: bool,
    /// The platform of the last recording started.
    pub platform: Option<Platform>,
}

/// The mathematical content of a [`Session`].
pub struct SessionView {
    pub video_path: Option<Seq<char>>,
    pub recording: bool,
    pub platform: Option<Platform>,
}

impl View for Session {
    type V = SessionView;

    open spec fn view(&self) -> SessionView {
        SessionView {
            video_path: opt_view(self.video_path),
            recording: self.recording,
            platform: self.platform,
        }
    }
}

/// The session after loading `path`, which is on disk when `on_disk`.
pub open spec fn after_load(s: SessionView, path: Seq<char>, on_disk: bool) -> SessionView {
    if on_disk {
        SessionView { video_path: Some(path), ..s }
    } else {
        s
    }
}

/// The session after a recording started on `platform`.
pub open spec fn after_start(s: SessionView, platform: Platform) -> SessionView {
    SessionView { recording: true, platform: Some(platform), ..s }
}

/// The platform a stop request ends the recording on, when one runs: the
/// platform of the last recording started, Android when none is known.
pub open spec fn stop_platform(s: SessionView) -> Option<Platform> {
    if s.recording {
        Some(
            match s.platform {
                Some(p) => p,
                None => Platform::Android,
            },
        )
    } else {
        None
    }
}

/// The session once the running recorder has been taken to be stopped.
pub open spec fn after_stop(s: SessionView) -> SessionView {
    SessionView { recording: false, ..s }
}

/// The session after a stopped recording was kept (`saved`) at `path`.
pub open spec fn after_saved(s: SessionView, path: Seq<char>, saved: bool) -> SessionView {
    if saved {
        SessionView { video_path: Some(path), ..s }
    } else {
        s
    }
}

/// The message of a started recording.
pub open spec fn started_message(platform: Platform) -> Seq<char> {
    match platform {
        Platform::Ios => "iOS Simulator recording started"@,
        Platform::Android => "Recording started"@,
    }
}

/// The message of a kept recording.
pub open spec fn saved_message(platform: Platform) -> Seq<char> {
    match platform {
        Platform::Ios => "iOS recording saved"@,
        Platform::Android => "Android recording saved"@,
    }
}

/// The error of a recording that could not be kept.
pub open spec fn lost_message(platform: Platform) -> Seq<char> {
    match platform {
        Platform::Ios => "iOS recording file not found after stopping"@,
        Platform::Android => "Failed to pull recording from Android"@,
    }
}

impl Session {
    /// A session with no video and no recording.
    pub fn new() -> (s: Session)
        ensures
            s@.video_path is None,
            !s@.recording,
            s@.platform is None,
    {
        Session { video_path: None, recording: false, platform: None }
    }

    /// Loads the video at `path`, which is on disk when `on_disk`.
    pub fn load_video(&mut self, path: String, on_disk: bool) -> (r: ApiResponse)
        ensures
            final(self)@ == after_load(old(self)@, path@, on_disk),
            r@ == if on_disk {
                succeeded("Video loaded: "@ + path@, Some(path@))
            } else {
                failed("File does not exist"@)
            },
    {
        if !on_disk {
            return ApiResponse::failure_str("File does not exist");
        }
        let mut message = String::from_str("Video loaded: ");
        message.append(path.as_str());
        let data = path.clone();
        self.video_path = Some(path);
        ApiResponse::success(message, Some(data))
    }

    /// The loaded video, or the failure to answer with when none is.
    pub fn loaded_video(&self) -> (r: Result<String, ApiResponse>)
        ensures
            match self@.video_path {
                Some(p) => r matches Ok(v) && v@ == p,
                None => r matches Err(resp) && resp@ == failed("No video loaded"@),
            },
    {
        match &self.video_path {
            Some(p) => Ok(p.clone()),
            None => Err(ApiResponse::failure_str("No video loaded")),
        }
    }

    /// Makes room for a new recording. When a recorder is held and
    /// `still_running` says it has not exited, the request is refused and
    /// nothing changes; otherwise the held recorder, if any, is let go.
    pub fn claim_recorder(&mut self, still_running: bool) -> (r: Result<(), ApiResponse>)
        ensures
            old(self)@.recording && still_running ==> final(self)@ == old(self)@,
            old(self)@.recording && still_running ==> (r matches Err(resp) && resp@ == failed(
                "Already recording"@,
            )),
            !(old(self)@.recording && still_running) ==> r is Ok && final(self)@ == after_stop(
                old(self)@,
            ),
    {
        if self.recording && still_running {
            return Err(ApiResponse::failure_str("Already recording"));
        }
        self.recording = false;
        Ok(())
    }

    /// Records that a recorder was started on `platform`.
    pub fn recording_started(&mut self, platform: Platform) -> (r: ApiResponse)
        ensures
            final(self)@ == after_start(old(self)@, platform),
            r@ == succeeded(started_message(platform), Some("recording"@)),
    {
        self.recording = true;
        self.platform = Some(platform);
        let message = match platform {
            Platform::Ios => String::from_str("iOS Simulator recording started"),
            Platform::Android => String::from_str("Recording started"),
        };
        ApiResponse::success(message, Some(String::from_str("recording")))
    }

    /// Takes the running recorder to stop it: its platform, or the failure
    /// to answer with when no recording runs (the session then stays).
    pub fn stop_recording(&mut self) -> (r: Result<Platform, ApiResponse>)
        ensures
            match stop_platform(old(self)@) {
                Some(p) => r == Ok::<Platform, ApiResponse>(p) && final(self)@ == after_stop(
                    old(self)@,
                ),
                None => final(self)@ == old(self)@ && (r matches Err(resp) && resp@ == failed(
                    "Not recording"@,
                )),
            },
    {
        let platform = match self.platform {
            Some(p) => p,
            None => Platform::Android,
        };
        if !self.recording {
            return Err(ApiResponse::failure_str("Not recording"));
        }
        self.recording = false;
        Ok(platform)
    }

    /// Records how a stopped recording on `platform` ended: kept at `path`
    /// (`saved`: the simulator's file exists, or the pull from the device
    /// succeeded), or lost.
    pub fn recording_saved(&mut self, platform: Platform, path: String, saved: bool) -> (r:
        ApiResponse)
        ensures
            final(self)@ == after_saved(old(self)@, path@, saved),
            r@ == if saved {
                succeeded(saved_message(platform), Some(path@))
            } else {
                failed(lost_message(platform))
            },
    {
        if !saved {
            return match platform {
                Platform::Ios => ApiResponse::failure_str(
                    "iOS recording file not found after stopping",
                ),
                Platform::Android => ApiResponse::failure_str(
                    "Failed to pull recording from Android",
                ),
            };
        }
        let data = path.clone();
        self.video_path = Some(path);
        let message = match platform {
            Platform::Ios => String::from_str("iOS recording saved"),
            Platform::Android => String::from_str("Android recording saved"),
        };
        ApiResponse::success(message, Some(data))
    }
}


// ---------------------------------------------------------------------
// Commands around a recording
// ---------------------------------------------------------------------

/// The directory recordings are kept in.
pub open spec fn recordings_dir() -> Seq<char> {
    "/Users/bassem/Documents/projects/video-clipper/recordings"@
}

/// The file a recording on `platform` is kept in.
pub open spec fn recording_file_spec(platform: Platform) -> Seq<char> {
    path_join(
        recordings_dir(),
        match platform {
            Platform::Ios => "ios_record.mp4"@,
            Platform::Android => "android_record.mp4"@,
        },
    )
}

/// The file a recording on `platform` is kept in.
pub fn recording_file(platform: Platform) -> (r: String)
    ensures
        r@ == recording_file_spec(platform),
{
    let name = match platform {
        Platform::Ios => "ios_record.mp4",
        Platform::Android => "android_record.mp4",
    };
    join("/Users/bassem/Documents/projects/video-clipper/recordings", name)
}

/// Where the device keeps a screen recording while it runs.
pub open spec fn remote_recording() -> Seq<char> {
    "/sdcard/clip_record.mp4"@
}


/// `rest`, aimed at the device `device_id` when one is given (`-s <id>`).
pub open spec fn for_device(device_id: Option<Seq<char>>, rest: Seq<Seq<char>>) -> Seq<Seq<char>> {
    match device_id {
        Some(id) => seq!["-s"@, id] + rest,
        None => rest,
    }
}

/// The view of an optional device identifier.
pub open spec fn id_view(device_id: Option<&str>) -> Option<Seq<char>> {
    match device_id {
        Some(id) => Some(id@),
        None => None,
    }
}

fn push_arg(args: &mut Vec<String>, a: &str)
    ensures
        arg_views(final(args)@) == arg_views(old(args)@).push(a@),
{
    let ghost before = args@;
    args.push(String::from_str(a));
    assert(arg_views(args@) =~= arg_views(before).push(a@));
}

/// The start of an `adb` command line aimed at `device_id`.
fn device_prefix(device_id: Option<&str>) -> (args: Vec<String>)
    ensures
        arg_views(args@) == for_device(id_view(device_id), Seq::empty()),
{
    let mut args: Vec<String> = Vec::new();
    match device_id {
        Some(id) => {
            push_arg(&mut args, "-s");
            push_arg(&mut args, id);
            assert(arg_views(args@) =~= seq!["-s"@, id@] + Seq::<Seq<char>>::empty());
        },
        None => {
            assert(arg_views(args@) =~= Seq::<Seq<char>>::empty());
        },
    }
    args
}

/// The `adb` arguments that ask whether the device has booted.
pub fn boot_check_args(device_id: Option<&str>) -> (args: Vec<String>)
    ensures
        arg_views(args@) == for_device(
            id_view(device_id),
            seq!["shell"@, "getprop"@, "sys.boot_completed"@],
        ),
{
    let mut args = device_prefix(device_id);
    push_arg(&mut args, "shell");
    push_arg(&mut args, "getprop");
    push_arg(&mut args, "sys.boot_completed");
    assert(arg_views(args@) =~= for_device(
        id_view(device_id),
        seq!["shell"@, "getprop"@, "sys.boot_completed"@],
    ));
    args
}

/// The `adb` arguments that wake the device's screen (key event 224).
pub fn wake_args(device_id: Option<&str>) -> (args: Vec<String>)
    ensures
        arg_views(args@) == for_device(
            id_view(device_id),
            seq!["shell"@, "input"@, "keyevent"@, "224"@],
        ),
{
    let mut args = device_prefix(device_id);
    push_arg(&mut args, "shell");
    push_arg(&mut args, "input");
    push_arg(&mut args, "keyevent");
    push_arg(&mut args, "224");
    assert(arg_views(args@) =~= for_device(
        id_view(device_id),
        seq!["shell"@, "input"@, "keyevent"@, "224"@],
    ));
    args
}

/// The `adb` arguments that record the device's screen.
pub fn screenrecord_args(device_id: Option<&str>) -> (args: Vec<String>)
    ensures
        arg_views(args@) == for_device(
            id_view(device_id),
            seq!["shell"@, "screenrecord"@, remote_recording()],
        ),
{
    let mut args = device_prefix(device_id);
    push_arg(&mut args, "shell");
    push_arg(&mut args, "screenrecord");
    push_arg(&mut args, "/sdcard/clip_record.mp4");
    assert(arg_views(args@) =~= for_device(
        id_view(device_id),
        seq!["shell"@, "screenrecord"@, remote_recording()],
    ));
    args
}

/// The `adb` arguments that copy the recording from the device to `local`.
pub fn pull_args(device_id: Option<&str>, local: &str) -> (args: Vec<String>)
    ensures
        arg_views(args@) == for_device(id_view(device_id), seq!["pull"@, remote_recording(), local@]),
{
    let mut args = device_prefix(device_id);
    push_arg(&mut args, "pull");
    push_arg(&mut args, "/sdcard/clip_record.mp4");
    push_arg(&mut args, local);
    assert(arg_views(args@) =~= for_device(
        id_view(device_id),
        seq!["pull"@, remote_recording(), local@],
    ));
    args
}

/// The `adb` arguments that delete the recording on the device.
pub fn remove_remote_args(device_id: Option<&str>) -> (args: Vec<String>)
    ensures
        arg_views(args@) == for_device(id_view(device_id), seq!["shell"@, "rm"@, remote_recording()]),
{
    let mut args = device_prefix(device_id);
    push_arg(&mut args, "shell");
    push_arg(&mut args, "rm");
    push_arg(&mut args, "/sdcard/clip_record.mp4");
    assert(arg_views(args@) =~= for_device(
        id_view(device_id),
        seq!["shell"@, "rm"@, remote_recording()],
    ));
    args
}

/// The `xcrun` arguments that record simulator `device_id` into `local`.
pub fn simulator_record_args(device_id: &str, local: &str) -> (args: Vec<String>)
    ensures
        arg_views(args@) == seq![
            "simctl"@,
            "io"@,
            device_id@,
            "recordVideo"@,
            "--force"@,
            local@,
        ],
{
    let mut args: Vec<String> = Vec::new();
    push_arg(&mut args, "simctl");
    push_arg(&mut args, "io");
    push_arg(&mut args, device_id);
    push_arg(&mut args, "recordVideo");
    push_arg(&mut args, "--force");
    push_arg(&mut args, local);
    assert(arg_views(args@) =~= seq![
        "simctl"@,
        "io"@,
        device_id@,
        "recordVideo"@,
        "--force"@,
        local@,
    ]);
    args
}

/// Whether `device_id` names one of the simulators `sims`.
pub fn is_ios_device(device_id: Option<&str>, sims: &Vec<Device>) -> (b: bool)
    ensures
        b == match device_id {
            Some(id) => listed(device_views(sims@), id@),
            None => false,
        },
{
    match device_id {
        None => false,
        Some(id) => {
            let target = String::from_str(id);
            let mut i: usize = 0;
            while i < sims.len()
                invariant
                    i <= sims@.len(),
                    target@ == id@,
                    device_id == Some(id),
                    forall|k: int| 0 <= k < i ==> sims@[k].name@ != id@,
                decreases sims@.len() - i,
            {
                if sims[i].name == target {
                    assert(device_views(sims@)[i as int].name == id@);
                    assert(listed(device_views(sims@), id@));
                    return true;
                }
                i = i + 1;
            }
            false
        },
    }
}

/// Whether a device is reached over Wi-Fi (its identifier is an address
/// with a colon), so that it is connected before recording.
pub fn wants_wifi_connect(device_id: Option<&str>) -> (b: bool)
    ensures
        b == match device_id {
            Some(id) => contains(id@, ":"@),
            None => false,
        },
{
    match device_id {
        None => false,
        Some(id) => {
            let c = chars_of(id);
            let colon = chars_of(":");
            contains_chars(&c, &colon)
        },
    }
}

/// Why screen recording stopped right after it started, from what it
/// printed on its error stream (`None` when that could not be read).
pub open spec fn exit_message(stderr: Option<Seq<char>>) -> Seq<char> {
    match stderr {
        Some(e) if trim(e).len() > 0 => if contains(e, "INVALID_LAYER_STACK"@) {
            "Device screen is locked or turned off. Please unlock the screen and try again."@
        } else {
            "screenrecord error: "@ + trim(e)
        },
        _ => "screenrecord exited prematurely. Please make sure your phone's screen is ON and UNLOCKED."@,
    }
}

/// The answer when screen recording stopped right after it started; see
/// [`exit_message`].
pub fn screenrecord_exited(stderr: Option<&str>) -> (r: ApiResponse)
    ensures
        r@ == failed(
            exit_message(
                match stderr {
                    Some(e) => Some(e@),
                    None => None,
                },
            ),
        ),
{
    match stderr {
        Some(e) => {
            let c = chars_of(e);
            let t = trim_chars(&c);
            if t.len() > 0 {
                let marker = chars_of("INVALID_LAYER_STACK");
                if contains_chars(&c, &marker) {
                    return ApiResponse::failure_str(
                        "Device screen is locked or turned off. Please unlock the screen and try again.",
                    );
                }
                let mut m = String::from_str("screenrecord error: ");
                let tail = string_of(&t);
                m.append(tail.as_str());
                return ApiResponse::failure(m);
            }
        },
        None => {},
    }
    ApiResponse::failure_str(
        "screenrecord exited prematurely. Please make sure your phone's screen is ON and UNLOCKED.",
    )
}

/// The answer when the simulator tools cannot be found.
pub fn xcrun_missing() -> (r: ApiResponse)
    ensures
        r@ == failed("xcrun not found"@),
{
    ApiResponse::failure_str("xcrun not found")
}

/// The answer when the chosen device does not answer.
pub fn device_not_responding() -> (r: ApiResponse)
    ensures
        r@ == failed("Selected ADB device is not connected or not responding."@),
{
    ApiResponse::failure_str("Selected ADB device is not connected or not responding.")
}

/// The answer when the recorder for `platform` could not be started.
pub fn recorder_not_started(platform: Platform, error: &str) -> (r: ApiResponse)
    ensures
        r@ == failed(
            match platform {
                Platform::Ios => "Failed to start simctl recordVideo: "@,
                Platform::Android => "Failed to start screenrecord: "@,
            } + error@,
        ),
{
    let mut m = match platform {
        Platform::Ios => String::from_str("Failed to start simctl recordVideo: "),
        Platform::Android => String::from_str("Failed to start screenrecord: "),
    };
    m.append(error);
    ApiResponse::failure(m)
}


// ---------------------------------------------------------------------
// Starting a recording, step by step
// ---------------------------------------------------------------------

/// Where starting a recording stands.
#[derive(Debug, Clone, Copy, PartialEq, Eq, Structural)]
pub enum StartStage {
    Locate,
    Claim,
    Release,
    Prepare,
    Connect,
    CheckBoot,
    Wake,
    Spawn,
    Watch,
    Finished,
}

/// A request to start recording the device `device_id` on `platform`,
/// with the tool found at `tool`.
#[derive(Debug)]
pub struct StartRecording {
    pub device_id: Option<String>,
    pub platform: Platform,
    pub tool: String,
    pub stage: StartStage,
}

/// The mathematical content of a [`StartRecording`].
pub struct StartView {
    pub device_id: Option<Seq<char>>,
    pub platform: Platform,
    pub tool: Seq<char>,
    pub stage: StartStage,
}

impl View for StartRecording {
    type V = StartView;

    open spec fn view(&self) -> StartView {
        StartView {
            device_id: opt_view(self.device_id),
            platform: self.platform,
            tool: self.tool@,
            stage: self.stage,
        }
    }
}

/// The tool each platform records with.
pub open spec fn tool_name(platform: Platform) -> Seq<char> {
    match platform {
        Platform::Ios => "xcrun"@,
        Platform::Android => "adb"@,
    }
}

/// The error when the tool for `platform` cannot be found.
pub open spec fn tool_missing(platform: Platform) -> Seq<char> {
    match platform {
        Platform::Ios => "xcrun not found"@,
        Platform::Android => "ADB not installed"@,
    }
}

/// The error when the recorder for `platform` could not be started.
pub open spec fn recorder_error(platform: Platform, error: Seq<char>) -> Seq<char> {
    let prefix = match platform {
        Platform::Ios => "Failed to start simctl recordVideo: "@,
        Platform::Android => "Failed to start screenrecord: "@,
    };
    prefix + error
}

/// The device identifier as text (empty when none is given).
pub open spec fn id_text(id: Option<Seq<char>>) -> Seq<char> {
    match id {
        Some(i) => i,
        None => Seq::empty(),
    }
}

/// The report expected at each stage of starting a recording.
pub open spec fn start_expects(stage: StartStage, e: Event) -> bool {
    match stage {
        StartStage::Locate => e is Tool,
        StartStage::Claim => e is Running,
        StartStage::Release | StartStage::Prepare => e is Ack,
        StartStage::Connect | StartStage::CheckBoot | StartStage::Wake => e is Ran,
        StartStage::Spawn => e is Spawned,
        StartStage::Watch => e is Watched,
        StartStage::Finished => false,
    }
}

/// `m` moved to `stage`.
pub open spec fn start_at(m: StartView, stage: StartStage) -> StartView {
    StartView { stage, ..m }
}

/// The request that checks whether the device has booted.
pub open spec fn boot_check(m: StartView) -> ActionView {
    ActionView::Run(
        m.tool,
        for_device(m.device_id, seq!["shell"@, "getprop"@, "sys.boot_completed"@]),
    )
}

/// One step of starting a recording: from where it stands (`m`), the
/// session `s` and the report `e`, where it goes, what the session becomes
/// and what is asked next.
pub open spec fn start_step(m: StartView, s: SessionView, e: Event) -> (StartView, SessionView, ActionView) {
    let done = start_at(m, StartStage::Finished);
    match m.stage {
        StartStage::Locate => match e {
            Event::Tool(Some(p)) => (
                StartView { tool: p@, stage: StartStage::Claim, ..m },
                s,
                ActionView::CheckRecorder,
            ),
            _ => (done, s, ActionView::Done(failed(tool_missing(m.platform)), false)),
        },
        StartStage::Claim => match e {
            Event::Running(running) => if s.recording && running {
                (done, s, ActionView::Done(failed("Already recording"@), false))
            } else {
                (start_at(m, StartStage::Release), after_stop(s), ActionView::ReleaseRecorder)
            },
            _ => (done, s, ActionView::CheckRecorder),
        },
        StartStage::Release => match m.platform {
            Platform::Ios => (
                start_at(m, StartStage::Prepare),
                s,
                ActionView::PrepareFile(recordings_dir(), recording_file_spec(Platform::Ios)),
            ),
            Platform::Android => if contains(id_text(m.device_id), ":"@) {
                (
                    start_at(m, StartStage::Connect),
                    s,
                    ActionView::Run(m.tool, seq!["connect"@, id_text(m.device_id)]),
                )
            } else {
                (start_at(m, StartStage::CheckBoot), s, boot_check(m))
            },
        },
        StartStage::Prepare => (
            start_at(m, StartStage::Spawn),
            s,
            ActionView::Spawn(
                m.tool,
                seq![
                    "simctl"@,
                    "io"@,
                    id_text(m.device_id),
                    "recordVideo"@,
                    "--force"@,
                    recording_file_spec(Platform::Ios),
                ],
            ),
        ),
        StartStage::Connect => (start_at(m, StartStage::CheckBoot), s, boot_check(m)),
        StartStage::CheckBoot => match e {
            Event::Ran(CommandOutcome::Finished { success: true, .. }) => (
                start_at(m, StartStage::Wake),
                s,
                ActionView::Run(
                    m.tool,
                    for_device(m.device_id, seq!["shell"@, "input"@, "keyevent"@, "224"@]),
                ),
            ),
            _ => (
                done,
                s,
                ActionView::Done(
                    failed("Selected ADB device is not connected or not responding."@),
                    false,
                ),
            ),
        },
        StartStage::Wake => (
            start_at(m, StartStage::Spawn),
            s,
            ActionView::Spawn(
                m.tool,
                for_device(m.device_id, seq!["shell"@, "screenrecord"@, remote_recording()]),
            ),
        ),
        StartStage::Spawn => match e {
            Event::Spawned(Err(err)) => (
                done,
                s,
                ActionView::Done(failed(recorder_error(m.platform, err@)), false),
            ),
            _ => match m.platform {
                Platform::Ios => (
                    done,
                    after_start(s, Platform::Ios),
                    ActionView::Done(
                        succeeded(started_message(Platform::Ios), Some("recording"@)),
                        true,
                    ),
                ),
                Platform::Android => (start_at(m, StartStage::Watch), s, ActionView::Watch),
            },
        },
        StartStage::Watch => match e {
            Event::Watched(Some(err)) => (
                done,
                s,
                ActionView::Done(
                    failed(
                        exit_message(
                            match err {
                                Some(t) => Some(t@),
                                None => None,
                            },
                        ),
                    ),
                    false,
                ),
            ),
            _ => (
                done,
                after_start(s, m.platform),
                ActionView::Done(succeeded(started_message(m.platform), Some("recording"@)), true),
            ),
        },
        StartStage::Finished => (m, s, ActionView::Watch),
    }
}

fn start_done(me: &mut StartRecording, response: ApiResponse, keep: bool) -> (a: Action)
    ensures
        final(me)@ == start_at(old(me)@, StartStage::Finished),
        a@ == ActionView::Done(response@, keep),
{
    me.stage = StartStage::Finished;
    Action::Done { response, keep_recorder: keep }
}

fn boot_check_action(me: &StartRecording) -> (a: Action)
    ensures
        a@ == boot_check(me@),
{
    let id = match &me.device_id {
        Some(i) => Some(i.as_str()),
        None => None,
    };
    let args = boot_check_args(id);
    run(&me.tool, args)
}

impl StartRecording {
    /// Begins starting a recording of `device_id`: on the simulator when it
    /// names one of `sims`, otherwise over ADB. The first request looks for
    /// the platform's tool.
    pub fn new(device_id: Option<String>, sims: &Vec<Device>) -> (r: (StartRecording, Action))
        ensures
            r.0@.device_id == opt_view(device_id),
            r.0@.platform == (if (match device_id {
                Some(id) => listed(device_views(sims@), id@),
                None => false,
            }) {
                Platform::Ios
            } else {
                Platform::Android
            }),
            r.0@.stage == StartStage::Locate,
            r.1@ == ActionView::FindTool(tool_name(r.0@.platform)),
    {
        let id = match &device_id {
            Some(i) => Some(i.as_str()),
            None => None,
        };
        let platform = if is_ios_device(id, sims) {
            Platform::Ios
        } else {
            Platform::Android
        };
        let name = match platform {
            Platform::Ios => String::from_str("xcrun"),
            Platform::Android => String::from_str("adb"),
        };
        (
            StartRecording { device_id, platform, tool: String::new(), stage: StartStage::Locate },
            Action::FindTool { name },
        )
    }

    /// Takes the report `event` on the last request and gives the next one;
    /// see [`start_step`].
    pub fn next(&mut self, session: &mut Session, event: Event) -> (a: Action)
        requires
            start_expects(old(self)@.stage, event),
        ensures
            (final(self)@, final(session)@, a@) == start_step(old(self)@, old(session)@, event),
    {
        match self.stage {
            StartStage::Locate => match event {
                Event::Tool(Some(p)) => {
                    self.tool = p;
                    self.stage = StartStage::Claim;
                    Action::CheckRecorder
                },
                _ => {
                    let r = match self.platform {
                        Platform::Ios => xcrun_missing(),
                        Platform::Android => ApiResponse::failure_str("ADB not installed"),
                    };
                    start_done(self, r, false)
                },
            },
            StartStage::Claim => match event {
                Event::Running(running) => match session.claim_recorder(running) {
                    Err(r) => start_done(self, r, false),
                    Ok(()) => {
                        self.stage = StartStage::Release;
                        Action::ReleaseRecorder
                    },
                },
                _ => {
                    self.stage = StartStage::Finished;
                    Action::CheckRecorder
                },
            },
            StartStage::Release => match self.platform {
                Platform::Ios => {
                    self.stage = StartStage::Prepare;
                    Action::PrepareFile {
                        dir: String::from_str(
                            "/Users/bassem/Documents/projects/video-clipper/recordings",
                        ),
                        file: recording_file(Platform::Ios),
                    }
                },
                Platform::Android => {
                    let id = match &self.device_id {
                        Some(i) => Some(i.as_str()),
                        None => None,
                    };
                    proof {
                        reveal_strlit(":");
                    }
                    if wants_wifi_connect(id) {
                        self.stage = StartStage::Connect;
                        let mut args: Vec<String> = Vec::new();
                        push_arg(&mut args, "connect");
                        push_arg(&mut args, id.unwrap());
                        assert(arg_views(args@) =~= seq!["connect"@, id_text(self@.device_id)]);
                        run(&self.tool, args)
                    } else {
                        self.stage = StartStage::CheckBoot;
                        boot_check_action(self)
                    }
                },
            },
            StartStage::Prepare => {
                self.stage = StartStage::Spawn;
                let file = recording_file(Platform::Ios);
                let id = match &self.device_id {
                    Some(i) => i.as_str(),
                    None => "",
                };
                proof {
                    reveal_strlit("");
                }
                assert(id@ == id_text(self@.device_id));
                let args = simulator_record_args(id, file.as_str());
                Action::Spawn { program: self.tool.clone(), args }
            },
            StartStage::Connect => {
                self.stage = StartStage::CheckBoot;
                boot_check_action(self)
            },
            StartStage::CheckBoot => {
                let booted = match &event {
                    Event::Ran(CommandOutcome::Finished { success, .. }) => *success,
                    _ => false,
                };
                if booted {
                    self.stage = StartStage::Wake;
                    let id = match &self.device_id {
                        Some(i) => Some(i.as_str()),
                        None => None,
                    };
                    run(&self.tool, wake_args(id))
                } else {
                    start_done(self, device_not_responding(), false)
                }
            },
            StartStage::Wake => {
                self.stage = StartStage::Spawn;
                let id = match &self.device_id {
                    Some(i) => Some(i.as_str()),
                    None => None,
                };
                let args = screenrecord_args(id);
                Action::Spawn { program: self.tool.clone(), args }
            },
            StartStage::Spawn => match event {
                Event::Spawned(Err(e)) => {
                    let r = recorder_not_started(self.platform, e.as_str());
                    start_done(self, r, false)
                },
                _ => match self.platform {
                    Platform::Ios => {
                        let r = session.recording_started(Platform::Ios);
                        start_done(self, r, true)
                    },
                    Platform::Android => {
                        self.stage = StartStage::Watch;
                        Action::Watch
                    },
                },
            },
            StartStage::Watch => match event {
                Event::Watched(Some(err)) => {
                    let r = match &err {
                        Some(t) => screenrecord_exited(Some(t.as_str())),
                        None => screenrecord_exited(None),
                    };
                    start_done(self, r, false)
                },
                _ => {
                    let r = session.recording_started(self.platform);
                    start_done(self, r, true)
                },
            },
            StartStage::Finished => Action::Watch,
        }
    }
}


// ---------------------------------------------------------------------
// Stopping a recording, step by step
// ---------------------------------------------------------------------

/// Where stopping a recording stands.
#[derive(Debug, Clone, Copy, PartialEq, Eq, Structural)]
pub enum StopStage {
    Locate,
    End,
    Check,
    Prepare,
    Pull,
    Remove,
    Finished,
}

/// A request to stop the recording of `device_id` running on `platform`,
/// with `adb` found at `tool`.
#[derive(Debug)]
pub struct StopRecording {
    pub device_id: Option<String>,
    pub platform: Platform,
    pub tool: String,
    pub stage: StopStage,
}

/// The mathematical content of a [`StopRecording`].
pub struct StopView {
    pub device_id: Option<Seq<char>>,
    pub platform: Platform,
    pub tool: Seq<char>,
    pub stage: StopStage,
}

impl View for StopRecording {
    type V = StopView;

    open spec fn view(&self) -> StopView {
        StopView {
            device_id: opt_view(self.device_id),
            platform: self.platform,
            tool: self.tool@,
            stage: self.stage,
        }
    }
}

/// The answer once a stopped recording on `platform` was kept at `path`
/// (`saved`) or lost.
pub open spec fn saved_answer(platform: Platform, path: Seq<char>, saved: bool) -> ResponseView {
    if saved {
        succeeded(saved_message(platform), Some(path))
    } else {
        failed(lost_message(platform))
    }
}

/// The report expected at each stage of stopping a recording.
pub open spec fn stop_expects(stage: StopStage, e: Event) -> bool {
    match stage {
        StopStage::Locate => e is Tool,
        StopStage::End | StopStage::Prepare => e is Ack,
        StopStage::Check => e is Exists,
        StopStage::Pull | StopStage::Remove => e is Ran,
        StopStage::Finished => false,
    }
}

/// `m` moved to `stage`.
pub open spec fn stop_at(m: StopView, stage: StopStage) -> StopView {
    StopView { stage, ..m }
}

/// The end of stopping a recording: the recording kept (`saved`) or lost.
pub open spec fn stop_saved(m: StopView, s: SessionView, saved: bool) -> (StopView, SessionView, ActionView) {
    let path = recording_file_spec(m.platform);
    (
        stop_at(m, StopStage::Finished),
        after_saved(s, path, saved),
        ActionView::Done(saved_answer(m.platform, path, saved), false),
    )
}

/// One step of stopping a recording: from where it stands (`m`), the
/// session `s` and the report `e`, where it goes, what the session becomes
/// and what is asked next.
pub open spec fn stop_step(m: StopView, s: SessionView, e: Event) -> (StopView, SessionView, ActionView) {
    match m.stage {
        StopStage::Locate => match e {
            Event::Tool(Some(p)) => (
                StopView { tool: p@, stage: StopStage::End, ..m },
                s,
                ActionView::EndRecorder(false),
            ),
            _ => (
                stop_at(m, StopStage::Finished),
                s,
                ActionView::Done(failed("ADB not installed"@), false),
            ),
        },
        StopStage::End => match m.platform {
            Platform::Ios => (
                stop_at(m, StopStage::Check),
                s,
                ActionView::CheckExists(recording_file_spec(Platform::Ios)),
            ),
            Platform::Android => (
                stop_at(m, StopStage::Prepare),
                s,
                ActionView::MakeDir(recordings_dir()),
            ),
        },
        StopStage::Check => match e {
            Event::Exists(b) => stop_saved(m, s, b),
            _ => stop_saved(m, s, false),
        },
        StopStage::Prepare => (
            stop_at(m, StopStage::Pull),
            s,
            ActionView::Run(
                m.tool,
                for_device(
                    m.device_id,
                    seq!["pull"@, remote_recording(), recording_file_spec(m.platform)],
                ),
            ),
        ),
        StopStage::Pull => match e {
            Event::Ran(CommandOutcome::Finished { success: true, .. }) => (
                stop_at(m, StopStage::Remove),
                s,
                ActionView::Run(m.tool, for_device(m.device_id, seq!["shell"@, "rm"@, remote_recording()])),
            ),
            _ => stop_saved(m, s, false),
        },
        StopStage::Remove => stop_saved(m, s, true),
        StopStage::Finished => (m, s, ActionView::Watch),
    }
}

impl StopRecording {
    /// Begins stopping the recording of `device_id`. When none runs the
    /// request ends at once; otherwise the session lets go of the recorder,
    /// and the first request ends the simulator's recorder gently, or looks
    /// for `adb` first on Android.
    pub fn new(session: &mut Session, device_id: Option<String>) -> (r: (StopRecording, Action))
        ensures
            r.0@.device_id == opt_view(device_id),
            match stop_platform(old(session)@) {
                None => {
                    &&& final(session)@ == old(session)@
                    &&& r.0@.stage == StopStage::Finished
                    &&& r.1@ == ActionView::Done(failed("Not recording"@), false)
                },
                Some(p) => {
                    &&& final(session)@ == after_stop(old(session)@)
                    &&& r.0@.platform == p
                    &&& r.0@.stage == (if p == Platform::Ios {
                        StopStage::End
                    } else {
                        StopStage::Locate
                    })
                    &&& r.1@ == (if p == Platform::Ios {
                        ActionView::EndRecorder(true)
                    } else {
                        ActionView::FindTool("adb"@)
                    })
                },
            },
    {
        match session.stop_recording() {
            Err(r) => (
                StopRecording {
                    device_id,
                    platform: Platform::Android,
                    tool: String::new(),
                    stage: StopStage::Finished,
                },
                Action::Done { response: r, keep_recorder: false },
            ),
            Ok(Platform::Ios) => (
                StopRecording {
                    device_id,
                    platform: Platform::Ios,
                    tool: String::new(),
                    stage: StopStage::End,
                },
                Action::EndRecorder { gentle: true },
            ),
            Ok(Platform::Android) => (
                StopRecording {
                    device_id,
                    platform: Platform::Android,
                    tool: String::new(),
                    stage: StopStage::Locate,
                },
                Action::FindTool { name: String::from_str("adb") },
            ),
        }
    }

    fn saved(&mut self, session: &mut Session, saved: bool) -> (a: Action)
        ensures
            (final(self)@, final(session)@, a@) == stop_saved(old(self)@, old(session)@, saved),
    {
        self.stage = StopStage::Finished;
        let path = recording_file(self.platform);
        let r = session.recording_saved(self.platform, path, saved);
        Action::Done { response: r, keep_recorder: false }
    }

    /// Takes the report `event` on the last request and gives the next one;
    /// see [`stop_step`].
    pub fn next(&mut self, session: &mut Session, event: Event) -> (a: Action)
        requires
            stop_expects(old(self)@.stage, event),
        ensures
            (final(self)@, final(session)@, a@) == stop_step(old(self)@, old(session)@, event),
    {
        match self.stage {
            StopStage::Locate => match event {
                Event::Tool(Some(p)) => {
                    self.tool = p;
                    self.stage = StopStage::End;
                    Action::EndRecorder { gentle: false }
                },
                _ => {
                    self.stage = StopStage::Finished;
                    Action::Done {
                        response: ApiResponse::failure_str("ADB not installed"),
                        keep_recorder: false,
                    }
                },
            },
            StopStage::End => match self.platform {
                Platform::Ios => {
                    self.stage = StopStage::Check;
                    Action::CheckExists { path: recording_file(Platform::Ios) }
                },
                Platform::Android => {
                    self.stage = StopStage::Prepare;
                    Action::MakeDir {
                        dir: String::from_str(
                            "/Users/bassem/Documents/projects/video-clipper/recordings",
                        ),
                    }
                },
            },
            StopStage::Check => match event {
                Event::Exists(b) => self.saved(session, b),
                _ => self.saved(session, false),
            },
            StopStage::Prepare => {
                self.stage = StopStage::Pull;
                let id = match &self.device_id {
                    Some(i) => Some(i.as_str()),
                    None => None,
                };
                let file = recording_file(self.platform);
                run(&self.tool, pull_args(id, file.as_str()))
            },
            StopStage::Pull => {
                let pulled = match &event {
                    Event::Ran(CommandOutcome::Finished { success, .. }) => *success,
                    _ => false,
                };
                if pulled {
                    self.stage = StopStage::Remove;
                    let id = match &self.device_id {
                        Some(i) => Some(i.as_str()),
                        None => None,
                    };
                    run(&self.tool, remove_remote_args(id))
                } else {
                    self.saved(session, false)
                }
            },
            StopStage::Remove => self.saved(session, true),
            StopStage::Finished => Action::Watch,
        }
    }
}

// ---------------------------------------------------------------------
// Laws
/// Stopping a recording never changes the platform or the recording flag
/// after it began, and no end of it holds a recorder. When it succeeds, the
/// recording file of its platform becomes the loaded video; every answer
/// is consistent.
pub proof fn lemma_stop_outcome(m: StopView, s: SessionView, e: Event)
    requires
        stop_expects(m.stage, e),
    ensures
        ({
            let (m2, s2, a) = stop_step(m, s, e);
            &&& s2.platform == s.platform
            &&& s2.recording == s.recording
            &&& m2.platform == m.platform
            &&& (a matches ActionView::Done(r, keep) ==> {
                &&& !keep
                &&& r.consistent()
                &&& m2.stage == StopStage::Finished
                &&& r.success ==> s2.video_path == Some(recording_file_spec(m.platform))
                &&& !r.success ==> s2.video_path == s.video_path
            })
        }),
{
}

/// Stopping a recording reports success only when the recording was kept:
/// after the simulator's recorder ended, only when its file was found, and
/// on Android only after `adb pull` succeeded. A missing file is answered
/// with the platform's "not found" error and leaves the session as it was;
/// a found one becomes the loaded video.
pub proof fn lemma_stop_success_needs_file(m: StopView, s: SessionView, e: Event)
    requires
        stop_expects(m.stage, e),
    ensures
        ({
            let (m2, s2, a) = stop_step(m, s, e);
            &&& (a matches ActionView::Done(r, _) && r.success) ==> ((m.stage == StopStage::Check
                && e == Event::Exists(true)) || m.stage == StopStage::Remove)
            &&& m2.stage == StopStage::Remove ==> (m.stage == StopStage::Pull && e matches Event::Ran(
                CommandOutcome::Finished { success: true, .. },
            ))
            &&& (m.stage == StopStage::Check && e == Event::Exists(false)) ==> {
                &&& s2 == s
                &&& a matches ActionView::Done(r, keep) && !keep && !r.success && r.error == Some(
                    lost_message(m.platform),
                )
            }
            &&& (m.stage == StopStage::Check && e == Event::Exists(true)) ==> {
                &&& s2.video_path == Some(recording_file_spec(m.platform))
                &&& a matches ActionView::Done(r, _) && r.success && r.data == Some(
                    recording_file_spec(m.platform),
                )
            }
            &&& (m.platform == Platform::Ios && m.stage == StopStage::Check && e == Event::Exists(
                false,
            )) ==> a == ActionView::Done(
                failed("iOS recording file not found after stopping"@),
                false,
            )
        }),
{
}

/// Every step of starting a recording keeps the loaded video; only a
/// successful end changes the platform. An end keeps the new recorder
/// exactly when it succeeds; a success marks the session recording on the
/// request's platform and answers with `recording`; every answer is
/// consistent.
pub proof fn lemma_start_outcome(m: StartView, s: SessionView, e: Event)
    requires
        start_expects(m.stage, e),
    ensures
        ({
            let (m2, s2, a) = start_step(m, s, e);
            &&& s2.video_path == s.video_path
            &&& m2.platform == m.platform
            &&& (s2.platform == s.platform || (a matches ActionView::Done(r, keep) && keep
                && r.success))
            &&& (a matches ActionView::Done(r, keep) ==> {
                &&& keep == r.success
                &&& r.consistent()
                &&& m2.stage == StartStage::Finished
                &&& r.success ==> r.data == Some("recording"@) && s2.recording && s2.platform
                    == Some(m.platform)
            })
        }),
{
}

// ---------------------------------------------------------------------

/// Loading an existing video makes it the loaded one; loading a missing
/// one changes nothing.
pub proof fn lemma_load_then_read(s: SessionView, path: Seq<char>, on_disk: bool)
    ensures
        on_disk ==> after_load(s, path, on_disk).video_path == Some(path),
        !on_disk ==> after_load(s, path, on_disk) == s,
        after_load(s, path, on_disk).recording == s.recording,
{
}

/// Stopping a recording that was started ends it on the platform it was
/// started on, and a second stop finds nothing to stop.
pub proof fn lemma_start_then_stop(s: SessionView, platform: Platform)
    ensures
        stop_platform(after_start(s, platform)) == Some(platform),
        stop_platform(after_stop(after_start(s, platform))) is None,
        after_stop(after_start(s, platform)).video_path == s.video_path,
{
}

/// A kept recording becomes the loaded video.
pub proof fn lemma_saved_becomes_loaded(s: SessionView, path: Seq<char>)
    ensures
        after_saved(s, path, true).video_path == Some(path),
        after_saved(s, path, true).recording == s.recording,
{
}

} // verus!
