//! Where frames and images taken from a video are written, the `ffmpeg`
//! command lines that write them, and the answers given afterwards.

use vstd::prelude::*;

use crate::command::CommandOutcome;
use crate::flow::{arg_views, Action, ActionView, Event};
use crate::session::Session;
use crate::locate::{join, path_join};
use crate::response::{failed, succeeded, ApiResponse};
use crate::text::{chars_of, decode_lossy, replace_all, replace_chars, string_of, utf8_lossy};

verus! {

// ---------------------------------------------------------------------
// Path parts, as std computes them
// ---------------------------------------------------------------------

/// What `Path::parent` gives for a path, as text.
pub uninterp spec fn path_parent(path: Seq<char>) -> Option<Seq<char>>;

/// What `Path::file_stem` gives for a path, as text.
pub uninterp spec fn path_file_stem(path: Seq<char>) -> Option<Seq<char>>;

/// What `Path::file_name` gives for a path, as text.
pub uninterp spec fn path_file_name(path: Seq<char>) -> Option<Seq<char>>;

/// The directory part of `path`.
///
/// Trusted: calls `Path::parent` and turns the result into text. The
/// contract names the result `path_parent` of the path; how std splits a
/// path into components is not stated.
#[verifier::external_body]
fn parent_of(path: &str) -> (r: Option<String>)
    ensures
        match r {
            Some(p) => path_parent(path@) == Some(p@),
            None => path_parent(path@) is None,
        },
{
    match std::path::Path::new(path).parent() {
        Some(p) => Some(p.to_string_lossy().into_owned()),
        None => None,
    }
}

/// The file name of `path` without its extension.
///
/// Trusted: calls `Path::file_stem` and turns the result into text. The
/// contract names the result `path_file_stem` of the path; the rules for
/// where the extension starts are not stated.
#[verifier::external_body]
fn file_stem_of(path: &str) -> (r: Option<String>)
    ensures
        match r {
            Some(p) => path_file_stem(path@) == Some(p@),
            None => path_file_stem(path@) is None,
        },
{
    match std::path::Path::new(path).file_stem() {
        Some(p) => Some(p.to_string_lossy().into_owned()),
        None => None,
    }
}

/// The final component of `path`.
///
/// Trusted: calls `Path::file_name` and turns the result into text. The
/// contract names the result `path_file_name` of the path; how std finds
/// the final component is not stated.
#[verifier::external_body]
fn file_name_of(path: &str) -> (r: Option<String>)
    ensures
        match r {
            Some(p) => path_file_name(path@) == Some(p@),
            None => path_file_name(path@) is None,
        },
{
    match std::path::Path::new(path).file_name() {
        Some(p) => Some(p.to_string_lossy().into_owned()),
        None => None,
    }
}

/// The directory outputs derived from `video` are written to: the video's
/// own directory, or `.` when it has none.
pub open spec fn video_dir_spec(video: Seq<char>) -> Seq<char> {
    match path_parent(video) {
        Some(d) => d,
        None => "."@,
    }
}

/// The name outputs derived from `video` start with: the video's file
/// name without extension, or `video` when it has none.
pub open spec fn video_stem_spec(video: Seq<char>) -> Seq<char> {
    match path_file_stem(video) {
        Some(s) => s,
        None => "video"@,
    }
}

/// The directory outputs derived from `video` are written to.
pub fn video_dir(video: &str) -> (r: String)
    ensures
        r@ == video_dir_spec(video@),
{
    match parent_of(video) {
        Some(d) => d,
        None => String::from_str("."),
    }
}

/// The name outputs derived from `video` start with.
pub fn video_stem(video: &str) -> (r: String)
    ensures
        r@ == video_stem_spec(video@),
{
    match file_stem_of(video) {
        Some(s) => s,
        None => String::from_str("video"),
    }
}

/// The final component of `path`, or nothing when it has none.
pub fn file_name_or_empty(path: &str) -> (r: String)
    ensures
        r@ == match path_file_name(path@) {
            Some(n) => n,
            None => Seq::<char>::empty(),
        },
{
    match file_name_of(path) {
        Some(n) => n,
        None => String::new(),
    }
}

// ---------------------------------------------------------------------
// Frames
// ---------------------------------------------------------------------

/// The folder that frames sampled at `fps` frames per second go into.
pub open spec fn frames_folder_spec(stem: Seq<char>, fps: Seq<char>) -> Seq<char> {
    stem + "_frames_"@ + fps + "fps"@
}

/// The folder that frames sampled at `fps` frames per second go into.
pub fn frames_folder(stem: &str, fps: &str) -> (r: String)
    ensures
        r@ == frames_folder_spec(stem@, fps@),
{
    let mut r = String::from_str(stem);
    r.append("_frames_");
    r.append(fps);
    r.append("fps");
    r
}

/// The directory that frames of `video` sampled at `fps` go into.
pub fn frames_dir(video: &str, fps: &str) -> (r: String)
    ensures
        r@ == path_join(video_dir_spec(video@), frames_folder_spec(video_stem_spec(video@), fps@)),
{
    let dir = video_dir(video);
    let stem = video_stem(video);
    let folder = frames_folder(stem.as_str(), fps);
    join(dir.as_str(), folder.as_str())
}

/// The file pattern `ffmpeg` numbers frames in `dir` by.
pub fn frames_pattern(dir: &str) -> (r: String)
    ensures
        r@ == path_join(dir@, "%04d.png"@),
{
    join(dir, "%04d.png")
}

/// The directory that single frames of `video` go into.
pub fn frame_dir(video: &str) -> (r: String)
    ensures
        r@ == path_join(video_dir_spec(video@), video_stem_spec(video@) + "_frames"@),
{
    let dir = video_dir(video);
    let mut folder = video_stem(video);
    folder.append("_frames");
    join(dir.as_str(), folder.as_str())
}

/// The name of the single frame taken at the time written as `time_text`
/// (the time in seconds with three decimals): `frame_<time>.png` with every
/// dot made an underscore, the one before `png` included.
pub open spec fn frame_file_name_spec(time_text: Seq<char>) -> Seq<char> {
    replace_all("frame_"@ + time_text + ".png"@, "."@, "_"@)
}

/// The name of the single frame taken at the time written as `time_text`.
pub fn frame_file_name(time_text: &str) -> (r: String)
    ensures
        r@ == frame_file_name_spec(time_text@),
{
    let mut raw = String::from_str("frame_");
    raw.append(time_text);
    raw.append(".png");
    let c = chars_of(raw.as_str());
    let dot = chars_of(".");
    let underscore = chars_of("_");
    proof {
        reveal_strlit(".");
    }
    let replaced = replace_chars(&c, &dot, &underscore);
    string_of(&replaced)
}

/// Where the single frame named `name` is written in the directory `dir`.
pub fn frame_path(dir: &str, name: &str) -> (r: String)
    ensures
        r@ == path_join(dir@, name@),
{
    join(dir, name)
}

/// The `ffmpeg` arguments that write the frames of `video` from `start`
/// for `duration` seconds (both written out), sampled at `fps`, into the
/// files of `pattern`.
pub fn frames_args(start: &str, video: &str, duration: &str, fps: &str, pattern: &str) -> (args:
    Vec<String>)
    ensures
        arg_views(args@) == seq![
            "-y"@,
            "-ss"@,
            start@,
            "-i"@,
            video@,
            "-t"@,
            duration@,
            "-r"@,
            fps@,
            pattern@,
        ],
{
    let args: Vec<String> = vec![
        String::from_str("-y"),
        String::from_str("-ss"),
        String::from_str(start),
        String::from_str("-i"),
        String::from_str(video),
        String::from_str("-t"),
        String::from_str(duration),
        String::from_str("-r"),
        String::from_str(fps),
        String::from_str(pattern),
    ];
    assert(arg_views(args@) =~= seq![
        "-y"@,
        "-ss"@,
        start@,
        "-i"@,
        video@,
        "-t"@,
        duration@,
        "-r"@,
        fps@,
        pattern@,
    ]);
    args
}

/// The `ffmpeg` arguments that write the frame of `video` at `time`
/// (written out) to `output`.
pub fn frame_args(time: &str, video: &str, output: &str) -> (args: Vec<String>)
    ensures
        arg_views(args@) == seq![
            "-y"@,
            "-ss"@,
            time@,
            "-i"@,
            video@,
            "-frames:v"@,
            "1"@,
            output@,
        ],
{
    let args: Vec<String> = vec![
        String::from_str("-y"),
        String::from_str("-ss"),
        String::from_str(time),
        String::from_str("-i"),
        String::from_str(video),
        String::from_str("-frames:v"),
        String::from_str("1"),
        String::from_str(output),
    ];
    assert(arg_views(args@) =~= seq![
        "-y"@,
        "-ss"@,
        time@,
        "-i"@,
        video@,
        "-frames:v"@,
        "1"@,
        output@,
    ]);
    args
}

/// The answer when `ffmpeg` cannot be found.
pub fn ffmpeg_missing() -> (r: ApiResponse)
    ensures
        r@ == failed(
            "ffmpeg binary not found. Please install ffmpeg and make sure it is in your system path."@,
        ),
{
    ApiResponse::failure_str(
        "ffmpeg binary not found. Please install ffmpeg and make sure it is in your system path.",
    )
}

/// The answer after running `ffmpeg` to write to `target`: on success the
/// message `done` followed by the target, which is also the data.
pub open spec fn ffmpeg_answer(outcome: CommandOutcome, done: Seq<char>, target: Seq<char>) -> crate::response::ResponseView {
    match outcome {
        CommandOutcome::Finished { success, stderr, .. } => if success {
            succeeded(done + target, Some(target))
        } else {
            failed("ffmpeg failed: "@ + decode_lossy(stderr@))
        },
        CommandOutcome::NotStarted { error } => failed("Failed to execute ffmpeg: "@ + error@),
    }
}

fn ffmpeg_response(outcome: &CommandOutcome, done: &str, target: &str) -> (r: ApiResponse)
    ensures
        r@ == ffmpeg_answer(*outcome, done@, target@),
{
    match outcome {
        CommandOutcome::Finished { success, stderr, .. } => {
            if *success {
                let mut m = String::from_str(done);
                m.append(target);
                ApiResponse::success(m, Some(String::from_str(target)))
            } else {
                let mut m = String::from_str("ffmpeg failed: ");
                let err = utf8_lossy(stderr.as_slice());
                m.append(err.as_str());
                ApiResponse::failure(m)
            }
        },
        CommandOutcome::NotStarted { error } => {
            let mut m = String::from_str("Failed to execute ffmpeg: ");
            m.append(error.as_str());
            ApiResponse::failure(m)
        },
    }
}

/// The answer after writing frames into `dir`.
pub fn frames_response(outcome: &CommandOutcome, dir: &str) -> (r: ApiResponse)
    ensures
        r@ == ffmpeg_answer(*outcome, "Successfully extracted frames to "@, dir@),
{
    ffmpeg_response(outcome, "Successfully extracted frames to ", dir)
}

/// The answer after writing a single frame to `path`.
pub fn frame_response(outcome: &CommandOutcome, path: &str) -> (r: ApiResponse)
    ensures
        r@ == ffmpeg_answer(*outcome, "Successfully extracted single frame to "@, path@),
{
    ffmpeg_response(outcome, "Successfully extracted single frame to ", path)
}


// ---------------------------------------------------------------------
// Taking frames, step by step
// ---------------------------------------------------------------------

/// The directory that frames of `video` sampled at `fps` go into.
pub open spec fn frames_dir_spec(video: Seq<char>, fps: Seq<char>) -> Seq<char> {
    path_join(video_dir_spec(video), frames_folder_spec(video_stem_spec(video), fps))
}

/// The directory that single frames of `video` go into.
pub open spec fn frame_dir_spec(video: Seq<char>) -> Seq<char> {
    path_join(video_dir_spec(video), video_stem_spec(video) + "_frames"@)
}

/// Where taking frames stands.
#[derive(Debug, Clone, Copy, PartialEq, Eq, Structural)]
pub enum JobStage {
    MakeDir,
    Locate,
    Run,
    Finished,
}

/// A request to write frames with `ffmpeg`: the directory `dir` is
/// created, then `ffmpeg` is looked for and run with `args`; on success the
/// answer is `done_message` followed by `target`.
#[derive(Debug)]
pub struct FfmpegJob {
    pub dir: String,
    pub target: String,
    pub done_message: String,
    pub args: Vec<String>,
    pub stage: JobStage,
}

/// The mathematical content of an [`FfmpegJob`].
pub struct JobView {
    pub dir: Seq<char>,
    pub target: Seq<char>,
    pub done_message: Seq<char>,
    pub args: Seq<Seq<char>>,
    pub stage: JobStage,
}

impl View for FfmpegJob {
    type V = JobView;

    open spec fn view(&self) -> JobView {
        JobView {
            dir: self.dir@,
            target: self.target@,
            done_message: self.done_message@,
            args: arg_views(self.args@),
            stage: self.stage,
        }
    }
}

/// The report expected at each stage of taking frames.
pub open spec fn job_expects(stage: JobStage, e: Event) -> bool {
    match stage {
        JobStage::MakeDir => e is Ack,
        JobStage::Locate => e is Tool,
        JobStage::Run => e is Ran,
        JobStage::Finished => false,
    }
}

/// One step of taking frames.
pub open spec fn job_step(j: JobView, e: Event) -> (JobView, ActionView) {
    let done = JobView { stage: JobStage::Finished, ..j };
    match j.stage {
        JobStage::MakeDir => (JobView { stage: JobStage::Locate, ..j }, ActionView::FindTool("ffmpeg"@)),
        JobStage::Locate => match e {
            Event::Tool(Some(p)) => (JobView { stage: JobStage::Run, ..j }, ActionView::Run(p@, j.args)),
            _ => (
                done,
                ActionView::Done(
                    failed(
                        "ffmpeg binary not found. Please install ffmpeg and make sure it is in your system path."@,
                    ),
                    false,
                ),
            ),
        },
        JobStage::Run => match e {
            Event::Ran(o) => (done, ActionView::Done(ffmpeg_answer(o, j.done_message, j.target), false)),
            _ => (j, ActionView::Watch),
        },
        JobStage::Finished => (j, ActionView::Watch),
    }
}

/// A job that ends at once with `response`.
fn job_refused(response: ApiResponse) -> (r: (FfmpegJob, Action))
    ensures
        r.0@.stage == JobStage::Finished,
        r.1@ == ActionView::Done(response@, false),
{
    (
        FfmpegJob {
            dir: String::new(),
            target: String::new(),
            done_message: String::new(),
            args: Vec::new(),
            stage: JobStage::Finished,
        },
        Action::Done { response, keep_recorder: false },
    )
}

impl FfmpegJob {
    /// Takes the frames of the loaded video from the time written `start`
    /// for the `duration` written out, sampled at `fps`, into their own
    /// directory; fails at once when no video is loaded.
    pub fn frames(session: &Session, fps: &str, start: &str, duration: &str) -> (r: (
        FfmpegJob,
        Action,
    ))
        ensures
            match session@.video_path {
                None => r.0@.stage == JobStage::Finished && r.1@ == ActionView::Done(
                    failed("No video loaded"@),
                    false,
                ),
                Some(v) => {
                    let dir = frames_dir_spec(v, fps@);
                    &&& r.0@.dir == dir
                    &&& r.0@.target == dir
                    &&& r.0@.done_message == "Successfully extracted frames to "@
                    &&& r.0@.args == seq![
                        "-y"@,
                        "-ss"@,
                        start@,
                        "-i"@,
                        v,
                        "-t"@,
                        duration@,
                        "-r"@,
                        fps@,
                        path_join(dir, "%04d.png"@),
                    ]
                    &&& r.0@.stage == JobStage::MakeDir
                    &&& r.1@ == ActionView::MakeDir(dir)
                },
            },
    {
        match session.loaded_video() {
            Err(resp) => job_refused(resp),
            Ok(video) => {
                let dir = frames_dir(video.as_str(), fps);
                let pattern = frames_pattern(dir.as_str());
                let args = frames_args(start, video.as_str(), duration, fps, pattern.as_str());
                (
                    FfmpegJob {
                        dir: dir.clone(),
                        target: dir.clone(),
                        done_message: String::from_str("Successfully extracted frames to "),
                        args,
                        stage: JobStage::MakeDir,
                    },
                    Action::MakeDir { dir },
                )
            },
        }
    }

    /// Takes the frame of the loaded video at the time written `time`,
    /// named after the time written with three decimals (`time_fixed`);
    /// fails at once when no video is loaded.
    pub fn frame(session: &Session, time: &str, time_fixed: &str) -> (r: (FfmpegJob, Action))
        ensures
            match session@.video_path {
                None => r.0@.stage == JobStage::Finished && r.1@ == ActionView::Done(
                    failed("No video loaded"@),
                    false,
                ),
                Some(v) => {
                    let dir = frame_dir_spec(v);
                    let target = path_join(dir, frame_file_name_spec(time_fixed@));
                    &&& r.0@.dir == dir
                    &&& r.0@.target == target
                    &&& r.0@.done_message == "Successfully extracted single frame to "@
                    &&& r.0@.args == seq![
                        "-y"@,
                        "-ss"@,
                        time@,
                        "-i"@,
                        v,
                        "-frames:v"@,
                        "1"@,
                        target,
                    ]
                    &&& r.0@.stage == JobStage::MakeDir
                    &&& r.1@ == ActionView::MakeDir(dir)
                },
            },
    {
        match session.loaded_video() {
            Err(resp) => job_refused(resp),
            Ok(video) => {
                let dir = frame_dir(video.as_str());
                let name = frame_file_name(time_fixed);
                let target = frame_path(dir.as_str(), name.as_str());
                let args = frame_args(time, video.as_str(), target.as_str());
                (
                    FfmpegJob {
                        dir: dir.clone(),
                        target,
                        done_message: String::from_str("Successfully extracted single frame to "),
                        args,
                        stage: JobStage::MakeDir,
                    },
                    Action::MakeDir { dir },
                )
            },
        }
    }

    /// Takes the report `event` on the last request and gives the next one;
    /// see [`job_step`].
    pub fn next(&mut self, event: Event) -> (a: Action)
        requires
            job_expects(old(self)@.stage, event),
        ensures
            (final(self)@, a@) == job_step(old(self)@, event),
    {
        match self.stage {
            JobStage::MakeDir => {
                self.stage = JobStage::Locate;
                Action::FindTool { name: String::from_str("ffmpeg") }
            },
            JobStage::Locate => match event {
                Event::Tool(Some(p)) => {
                    self.stage = JobStage::Run;
                    let args = clone_args(&self.args);
                    Action::Run { program: p, args }
                },
                _ => {
                    self.stage = JobStage::Finished;
                    Action::Done { response: ffmpeg_missing(), keep_recorder: false }
                },
            },
            JobStage::Run => match event {
                Event::Ran(o) => {
                    self.stage = JobStage::Finished;
                    let r = ffmpeg_response(&o, self.done_message.as_str(), self.target.as_str());
                    Action::Done { response: r, keep_recorder: false }
                },
                _ => Action::Watch,
            },
            JobStage::Finished => Action::Watch,
        }
    }
}

/// A copy of a list of arguments.
fn clone_args(args: &Vec<String>) -> (r: Vec<String>)
    ensures
        arg_views(r@) == arg_views(args@),
{
    let mut r: Vec<String> = Vec::new();
    let mut i: usize = 0;
    while i < args.len()
        invariant
            i <= args@.len(),
            arg_views(r@) == arg_views(args@).take(i as int),
        decreases args@.len() - i,
    {
        let ghost before = r@;
        r.push(args[i].clone());
        i = i + 1;
        assert(arg_views(r@) =~= arg_views(before).push(args@[i - 1]@));
        assert(arg_views(args@).take(i as int) =~= arg_views(args@).take(i - 1).push(args@[i - 1]@));
    }
    assert(arg_views(args@).take(args@.len() as int) =~= arg_views(args@));
    r
}

/// Frames are written only after their directory was requested and
/// `ffmpeg` was looked for; every answer is consistent and holds no
/// recorder.
pub proof fn lemma_job_order(j: JobView, e: Event)
    requires
        job_expects(j.stage, e),
    ensures
        ({
            let (j2, a) = job_step(j, e);
            &&& (a is Run ==> j.stage == JobStage::Locate)
            &&& (a is FindTool ==> j.stage == JobStage::MakeDir)
            &&& (a matches ActionView::Done(r, keep) ==> !keep && r.consistent() && j2.stage
                == JobStage::Finished)
        }),
{
}

// ---------------------------------------------------------------------
// Laws
// ---------------------------------------------------------------------

proof fn lemma_replace_dots(s: Seq<char>)
    ensures
        !replace_all(s, "."@, "_"@).contains('.'),
    decreases s.len(),
{
    reveal_strlit(".");
    reveal_strlit("_");
    if s.len() > 0 {
        if crate::text::starts_with(s, "."@) {
            lemma_replace_dots(s.skip(1));
            assert(replace_all(s, "."@, "_"@) == "_"@ + replace_all(s.skip(1), "."@, "_"@));
        } else {
            lemma_replace_dots(s.drop_first());
            assert(s[0] != '.') by {
                if s[0] == '.' {
                    assert(s.take(1) =~= "."@);
                }
            }
            assert(replace_all(s, "."@, "_"@) == seq![s[0]] + replace_all(
                s.drop_first(),
                "."@,
                "_"@,
            ));
        }
    }
}

/// A single frame's file name holds no dot: every dot of the time and of
/// the extension becomes an underscore.
pub proof fn lemma_frame_file_name_has_no_dot(time_text: Seq<char>)
    ensures
        !frame_file_name_spec(time_text).contains('.'),
{
    lemma_replace_dots("frame_"@ + time_text + ".png"@);
}

} // verus!
