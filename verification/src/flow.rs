//! The requests a multi-step command makes of the program around it, and
//! what the program reports back. A command is a state machine: each step
//! takes the report of the last request and gives the next request, until
//! it is done with an answer.

use vstd::prelude::*;

use crate::command::CommandOutcome;
use crate::response::{ApiResponse, ResponseView};

verus! {

/// What the program is asked to do next.
#[derive(Debug)]
pub enum Action {
    /// Look for the tool `name`; report [`Event::Tool`].
    FindTool { name: String },
    /// Tell whether the recorder held from before still runs; report
    /// [`Event::Running`] (`false` when none is held).
    CheckRecorder,
    /// Let go of the recorder held from before, if any; report [`Event::Ack`].
    ReleaseRecorder,
    /// End the recorder being stopped and wait for it, interrupting it
    /// gently (so that it can finish its file) when `gentle`, then pause for
    /// a second; report [`Event::Ack`].
    EndRecorder { gentle: bool },
    /// Pause for `millis` milliseconds; report [`Event::Ack`].
    Pause { millis: u64 },
    /// Create the directory `dir` and remove an old `file`; report
    /// [`Event::Ack`].
    PrepareFile { dir: String, file: String },
    /// Create the directory `dir`; report [`Event::Ack`].
    MakeDir { dir: String },
    /// Tell whether `path` exists; report [`Event::Exists`].
    CheckExists { path: String },
    /// Write `bytes` to the file `path`; report [`Event::Written`].
    WriteFile { path: String, bytes: Vec<u8> },
    /// Run `program` with `args` to its end, with `input` on its standard
    /// input; report [`Event::Ran`].
    Feed { program: String, args: Vec<String>, input: Vec<u8> },
    /// Run `program` with `args` to its end; report [`Event::Ran`].
    Run { program: String, args: Vec<String> },
    /// Start `program` with `args` as the recorder, its error stream piped;
    /// report [`Event::Spawned`].
    Spawn { program: String, args: Vec<String> },
    /// Wait a moment and tell whether the new recorder exited; report
    /// [`Event::Watched`].
    Watch,
    /// The command is over: answer with `response`; hold on to the new
    /// recorder when `keep_recorder`, and otherwise hold none from this
    /// command.
    Done { response: ApiResponse, keep_recorder: bool },
}

/// What the program reports back.
#[derive(Debug)]
pub enum Event {
    /// Where the tool was found, if anywhere.
    Tool(Option<String>),
    /// Whether the held recorder still runs.
    Running(bool),
    /// The request was carried out.
    Ack,
    /// Whether the path exists.
    Exists(bool),
    /// Whether the file was written, or why not.
    Written(Result<(), String>),
    /// What running the command gave back.
    Ran(CommandOutcome),
    /// Whether the recorder started, or why not.
    Spawned(Result<(), String>),
    /// `None` when the recorder still runs; otherwise it exited, with what
    /// it wrote on its error stream when that could be read.
    Watched(Option<Option<String>>),
}

/// The views of a list of arguments.
pub open spec fn arg_views(v: Seq<String>) -> Seq<Seq<char>> {
    v.map_values(|s: String| s@)
}

/// The mathematical content of an [`Action`].
pub enum ActionView {
    FindTool(Seq<char>),
    CheckRecorder,
    ReleaseRecorder,
    EndRecorder(bool),
    Pause(u64),
    PrepareFile(Seq<char>, Seq<char>),
    MakeDir(Seq<char>),
    CheckExists(Seq<char>),
    WriteFile(Seq<char>, Seq<u8>),
    Feed(Seq<char>, Seq<Seq<char>>, Seq<u8>),
    Run(Seq<char>, Seq<Seq<char>>),
    Spawn(Seq<char>, Seq<Seq<char>>),
    Watch,
    Done(ResponseView, bool),
}

impl View for Action {
    type V = ActionView;

    open spec fn view(&self) -> ActionView {
        match self {
            Action::FindTool { name } => ActionView::FindTool(name@),
            Action::CheckRecorder => ActionView::CheckRecorder,
            Action::ReleaseRecorder => ActionView::ReleaseRecorder,
            Action::EndRecorder { gentle } => ActionView::EndRecorder(*gentle),
            Action::Pause { millis } => ActionView::Pause(*millis),
            Action::PrepareFile { dir, file } => ActionView::PrepareFile(dir@, file@),
            Action::MakeDir { dir } => ActionView::MakeDir(dir@),
            Action::CheckExists { path } => ActionView::CheckExists(path@),
            Action::WriteFile { path, bytes } => ActionView::WriteFile(path@, bytes@),
            Action::Feed { program, args, input } => ActionView::Feed(
                program@,
                arg_views(args@),
                input@,
            ),
            Action::Run { program, args } => ActionView::Run(
                program@,
                arg_views(args@),
            ),
            Action::Spawn { program, args } => ActionView::Spawn(
                program@,
                arg_views(args@),
            ),
            Action::Watch => ActionView::Watch,
            Action::Done { response, keep_recorder } => ActionView::Done(response@, *keep_recorder),
        }
    }
}

/// The request to run `program` with `args`.
pub fn run(program: &String, args: Vec<String>) -> (a: Action)
    ensures
        a@ == ActionView::Run(program@, arg_views(args@)),
{
    Action::Run { program: program.clone(), args }
}

} // verus!
