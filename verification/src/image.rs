//! Images handed over by the interface as Base64 text (possibly a `data:`
//! URL): decoding them, where they are saved, and putting them on the
//! clipboard.

use vstd::prelude::*;

use crate::command::CommandOutcome;
use crate::flow::{arg_views, Action, ActionView, Event};
use crate::response::ResponseView;
use crate::locate::{join, path_join};
use crate::media::{file_name_or_empty, path_file_name, video_dir, video_dir_spec, video_stem, video_stem_spec};
use crate::response::{failed, succeeded, ApiResponse};
use vstd::utf8::encode_utf8;
use crate::text::{chars_of, decode_lossy, replace_all, replace_chars, string_of, trim, trim_chars, utf8_lossy};

verus! {

/// The header of a PNG data URL.
pub open spec fn png_header() -> Seq<char> {
    "data:image/png;base64,"@
}

/// The header of a JPEG data URL.
pub open spec fn jpeg_header() -> Seq<char> {
    "data:image/jpeg;base64,"@
}

/// The Base64 payload of an image as the interface sends it: the PNG and
/// JPEG data URL headers removed wherever they occur, then surrounding
/// whitespace removed.
pub open spec fn payload(data: Seq<char>) -> Seq<char> {
    trim(replace_all(replace_all(data, png_header(), Seq::empty()), jpeg_header(), Seq::empty()))
}

/// The Base64 payload of an image as the interface sends it.
pub fn clean_base64(data: &str) -> (r: String)
    ensures
        r@ == payload(data@),
{
    let c = chars_of(data);
    let png = chars_of("data:image/png;base64,");
    let jpeg = chars_of("data:image/jpeg;base64,");
    let none: Vec<char> = Vec::new();
    proof {
        reveal_strlit("data:image/png;base64,");
        reveal_strlit("data:image/jpeg;base64,");
    }
    assert(none@ =~= Seq::<char>::empty());
    let a = replace_chars(&c, &png, &none);
    let b = replace_chars(&a, &jpeg, &none);
    let t = trim_chars(&b);
    string_of(&t)
}

/// What the standard Base64 engine of the `base64` crate makes of a text:
/// the decoded bytes, or the text of the error it reports.
pub uninterp spec fn standard_decode(text: Seq<char>) -> Result<Seq<u8>, Seq<char>>;

/// Decodes Base64 text with the standard alphabet and padding.
///
/// Trusted: calls `base64::Engine::decode` on `BASE64_STANDARD` and, on
/// failure, the `Display` text of its `DecodeError`. The contract names the
/// outcome `standard_decode` of the text; which texts decode, and to what,
/// is not stated.
#[verifier::external_body]
fn decode_standard(text: &str) -> (r: Result<Vec<u8>, String>)
    ensures
        match r {
            Ok(v) => standard_decode(text@) == Ok::<Seq<u8>, Seq<char>>(v@),
            Err(e) => standard_decode(text@) == Err::<Seq<u8>, Seq<char>>(e@),
        },
{
    match base64::Engine::decode(&base64::prelude::BASE64_STANDARD, text) {
        Ok(v) => Ok(v),
        Err(e) => Err(e.to_string()),
    }
}

/// The image bytes sent as `data`, or the failure to answer with when its
/// payload is not valid Base64.
pub fn decode_image(data: &str) -> (r: Result<Vec<u8>, ApiResponse>)
    ensures
        match standard_decode(payload(data@)) {
            Ok(bytes) => r matches Ok(v) && v@ == bytes,
            Err(e) => r matches Err(resp) && resp@ == failed(e),
        },
{
    let text = clean_base64(data);
    match decode_standard(text.as_str()) {
        Ok(v) => Ok(v),
        Err(e) => Err(ApiResponse::failure(e)),
    }
}

/// The name a saved image gets: a grid of frames or a single frame.
pub open spec fn image_name_spec(stem: Seq<char>, is_grid: bool) -> Seq<char> {
    stem + if is_grid {
        "_grid.png"@
    } else {
        "_frame.png"@
    }
}

/// The name a saved image taken from a video named `stem` gets.
pub fn image_name(stem: &str, is_grid: bool) -> (r: String)
    ensures
        r@ == image_name_spec(stem@, is_grid),
{
    let mut r = String::from_str(stem);
    if is_grid {
        r.append("_grid.png");
    } else {
        r.append("_frame.png");
    }
    r
}

/// Where an image taken from `video` is saved: beside the video.
pub open spec fn image_path_spec(video: Seq<char>, is_grid: bool) -> Seq<char> {
    path_join(video_dir_spec(video), image_name_spec(video_stem_spec(video), is_grid))
}

/// Where an image taken from `video` is saved.
pub fn image_path(video: &str, is_grid: bool) -> (r: String)
    ensures
        r@ == image_path_spec(video@, is_grid),
{
    let dir = video_dir(video);
    let stem = video_stem(video);
    let name = image_name(stem.as_str(), is_grid);
    join(dir.as_str(), name.as_str())
}

/// The answer after writing an image to `path`, whose final component is
/// `name`: the failure text of the write, or a success naming the file,
/// with the path as data.
pub fn image_saved_as(write: Result<(), String>, path: &str, name: &str) -> (r: ApiResponse)
    ensures
        r@ == match write {
            Err(e) => failed(e@),
            Ok(()) => succeeded("Grid image saved: "@ + name@, Some(path@)),
        },
{
    match write {
        Err(e) => ApiResponse::failure(e),
        Ok(()) => {
            let mut m = String::from_str("Grid image saved: ");
            m.append(name);
            ApiResponse::success(m, Some(String::from_str(path)))
        },
    }
}

/// The answer after writing an image to `path`; see [`image_saved_as`].
pub fn image_saved(write: Result<(), String>, path: &str) -> (r: ApiResponse)
    ensures
        r@ == match write {
            Err(e) => failed(e@),
            Ok(()) => succeeded(
                "Grid image saved: "@ + match path_file_name(path@) {
                    Some(n) => n,
                    None => Seq::<char>::empty(),
                },
                Some(path@),
            ),
        },
{
    let name = file_name_or_empty(path);
    image_saved_as(write, path, name.as_str())
}

// ---------------------------------------------------------------------
// Saving an image, step by step
// ---------------------------------------------------------------------

/// Where saving an image stands.
#[derive(Debug, Clone, Copy, PartialEq, Eq, Structural)]
pub enum SaveStage {
    Write,
    Finished,
}

/// A request to save an image at `path`.
#[derive(Debug)]
pub struct SaveImage {
    pub path: String,
    pub stage: SaveStage,
}

/// The answer after writing an image to `path` (see [`image_saved`]).
pub open spec fn saved_image_answer(write: Result<(), String>, path: Seq<char>) -> ResponseView {
    match write {
        Err(e) => failed(e@),
        Ok(()) => succeeded(
            "Grid image saved: "@ + match path_file_name(path) {
                Some(n) => n,
                None => Seq::<char>::empty(),
            },
            Some(path),
        ),
    }
}

impl SaveImage {
    /// Begins saving the image sent as `data`, taken from `video`, beside
    /// the video: it fails at once when the data is not valid Base64, and
    /// otherwise asks for the bytes to be written.
    pub fn new(data: &str, video: &str, is_grid: bool) -> (r: (SaveImage, Action))
        ensures
            match standard_decode(payload(data@)) {
                Err(e) => r.0.stage == SaveStage::Finished && r.1@ == ActionView::Done(failed(e), false),
                Ok(bytes) => {
                    &&& r.0.path@ == image_path_spec(video@, is_grid)
                    &&& r.0.stage == SaveStage::Write
                    &&& r.1@ == ActionView::WriteFile(image_path_spec(video@, is_grid), bytes)
                },
            },
    {
        match decode_image(data) {
            Err(resp) => (
                SaveImage { path: String::new(), stage: SaveStage::Finished },
                Action::Done { response: resp, keep_recorder: false },
            ),
            Ok(bytes) => {
                let path = image_path(video, is_grid);
                (
                    SaveImage { path: path.clone(), stage: SaveStage::Write },
                    Action::WriteFile { path, bytes },
                )
            },
        }
    }

    /// Takes the report on writing the image and gives the answer.
    pub fn next(&mut self, event: Event) -> (a: Action)
        requires
            old(self).stage == SaveStage::Write,
            event is Written,
        ensures
            final(self).stage == SaveStage::Finished,
            a@ == ActionView::Done(saved_image_answer(event->Written_0, old(self).path@), false),
    {
        self.stage = SaveStage::Finished;
        match event {
            Event::Written(w) => Action::Done {
                response: image_saved(w, self.path.as_str()),
                keep_recorder: false,
            },
            _ => Action::Watch,
        }
    }
}

// ---------------------------------------------------------------------
// Putting an image on the clipboard, step by step
// ---------------------------------------------------------------------

/// Whether the clipboard command went through, from what it gave back: the
/// failure to answer with when it could not start or did not succeed (its
/// error stream, decoded), `None` otherwise.
pub fn clipboard_failure(outcome: &CommandOutcome) -> (r: Option<ApiResponse>)
    ensures
        match *outcome {
            CommandOutcome::NotStarted { error } => r matches Some(resp) && resp@ == failed(error@),
            CommandOutcome::Finished { success, stderr, .. } => if success {
                r is None
            } else {
                r matches Some(resp) && resp@ == failed(decode_lossy(stderr@))
            },
        },
{
    match outcome {
        CommandOutcome::NotStarted { error } => Some(ApiResponse::failure(error.clone())),
        CommandOutcome::Finished { success, stderr, .. } => {
            if *success {
                None
            } else {
                Some(ApiResponse::failure(utf8_lossy(stderr.as_slice())))
            }
        },
    }
}

/// The answer once the image is on the clipboard.
pub fn copied_to_clipboard() -> (r: ApiResponse)
    ensures
        r@ == succeeded("Copied to clipboard"@, None),
{
    ApiResponse::success(String::from_str("Copied to clipboard"), None)
}

/// The sixteen hexadecimal digits, upper case.
pub open spec fn hex_digits() -> Seq<char> {
    seq!['0', '1', '2', '3', '4', '5', '6', '7', '8', '9', 'A', 'B', 'C', 'D', 'E', 'F']
}

/// `bytes` written in upper-case hexadecimal, two digits a byte.
pub open spec fn hex_upper(bytes: Seq<u8>) -> Seq<char>
    decreases bytes.len(),
{
    if bytes.len() == 0 {
        Seq::empty()
    } else {
        let b = bytes.last();
        hex_upper(bytes.drop_last()) + seq![hex_digits()[(b / 16) as int], hex_digits()[(b % 16) as int]]
    }
}

/// `bytes` written in upper-case hexadecimal.
pub fn hex_text(bytes: &[u8]) -> (r: String)
    ensures
        r@ == hex_upper(bytes@),
{
    let digits: Vec<char> = vec!['0', '1', '2', '3', '4', '5', '6', '7', '8', '9', 'A', 'B', 'C', 'D', 'E', 'F'];
    assert(digits@ =~= hex_digits());
    let mut r = String::new();
    let mut i: usize = 0;
    while i < bytes.len()
        invariant
            i <= bytes@.len(),
            digits@ == hex_digits(),
            r@ == hex_upper(bytes@.take(i as int)),
        decreases bytes@.len() - i,
    {
        let b = bytes[i];
        crate::text::push_char(&mut r, digits[(b / 16) as usize]);
        crate::text::push_char(&mut r, digits[(b % 16) as usize]);
        assert(bytes@.take(i + 1).drop_last() =~= bytes@.take(i as int));
        assert(bytes@.take(i + 1).last() == b);
        i = i + 1;
        assert(r@ =~= hex_upper(bytes@.take(i as int)));
    }
    assert(bytes@.take(bytes@.len() as int) =~= bytes@);
    r
}

/// The AppleScript that puts a PNG image, written in hexadecimal as `hex`,
/// on the clipboard, as a data literal.
pub open spec fn macos_script(hex: Seq<char>) -> Seq<char> {
    "set the clipboard to \u{ab}data PNGf"@ + hex + "\u{bb}"@
}

/// The AppleScript that puts the PNG image `bytes` on the clipboard.
pub fn macos_clipboard_script(bytes: &[u8]) -> (r: String)
    ensures
        r@ == macos_script(hex_upper(bytes@)),
{
    let mut r = String::from_str("set the clipboard to \u{ab}data PNGf");
    let hex = hex_text(bytes);
    r.append(hex.as_str());
    r.append("\u{bb}");
    r
}

/// The PowerShell script that puts the image written in Base64 as `b64`
/// on the clipboard, building it in memory.
pub open spec fn windows_script(b64: Seq<char>) -> Seq<char> {
    "Add-Type -AssemblyName System.Windows.Forms; Add-Type -AssemblyName System.Drawing; $bytes = [Convert]::FromBase64String('"@
        + b64
        + "'); $stream = New-Object System.IO.MemoryStream(,$bytes); [System.Windows.Forms.Clipboard]::SetImage([System.Drawing.Image]::FromStream($stream))"@
}

/// The PowerShell script that puts the image written in Base64 as `b64`
/// on the clipboard.
pub fn windows_clipboard_script(b64: &str) -> (r: String)
    ensures
        r@ == windows_script(b64@),
{
    let mut r = String::from_str(
        "Add-Type -AssemblyName System.Windows.Forms; Add-Type -AssemblyName System.Drawing; $bytes = [Convert]::FromBase64String('",
    );
    r.append(b64);
    r.append(
        "'); $stream = New-Object System.IO.MemoryStream(,$bytes); [System.Windows.Forms.Clipboard]::SetImage([System.Drawing.Image]::FromStream($stream))",
    );
    r
}

/// The `xclip` arguments that put a PNG image read from standard input on
/// the clipboard.
pub open spec fn xclip_arg_list() -> Seq<Seq<char>> {
    seq!["-selection"@, "clipboard"@, "-t"@, "image/png"@, "-i"@]
}

/// The `xclip` arguments that put a PNG image read from standard input on
/// the clipboard.
pub fn xclip_args() -> (args: Vec<String>)
    ensures
        arg_views(args@) == xclip_arg_list(),
{
    let args: Vec<String> = vec![
        String::from_str("-selection"),
        String::from_str("clipboard"),
        String::from_str("-t"),
        String::from_str("image/png"),
        String::from_str("-i"),
    ];
    assert(arg_views(args@) =~= xclip_arg_list());
    args
}

/// The UTF-8 bytes of `s`.
fn text_bytes(s: &str) -> (b: Vec<u8>)
    ensures
        b@ == encode_utf8(s@),
{
    vstd::slice::slice_to_vec(s.as_bytes())
}

/// The desktop the program runs on, which decides how the clipboard is
/// reached.
#[derive(Debug, Clone, Copy, PartialEq, Eq, Structural)]
pub enum Desktop {
    MacOs,
    Windows,
    Linux,
    Other,
}

/// Where putting an image on the clipboard stands.
#[derive(Debug, Clone, Copy, PartialEq, Eq, Structural)]
pub enum ClipStage {
    Copy,
    Finished,
}

/// A request to put an image on the clipboard of `desktop`.
#[derive(Debug)]
pub struct ClipboardJob {
    pub desktop: Desktop,
    pub stage: ClipStage,
}

/// How the image `bytes`, sent as the Base64 text `b64`, reaches the
/// clipboard of `desktop`: through the clipboard tool's standard input,
/// never through a file. Without a known clipboard tool the image is taken
/// as copied.
pub open spec fn clip_request(desktop: Desktop, b64: Seq<char>, bytes: Seq<u8>) -> ActionView {
    match desktop {
        Desktop::MacOs => ActionView::Feed(
            "osascript"@,
            seq!["-"@],
            encode_utf8(macos_script(hex_upper(bytes))),
        ),
        Desktop::Windows => ActionView::Feed(
            "powershell"@,
            seq!["-NoProfile"@, "-STA"@, "-Command"@, "-"@],
            encode_utf8(windows_script(b64)),
        ),
        Desktop::Linux => ActionView::Feed("xclip"@, xclip_arg_list(), bytes),
        Desktop::Other => ActionView::Done(succeeded("Copied to clipboard"@, None), false),
    }
}

/// The report expected at each stage.
pub open spec fn clip_expects(m: ClipboardJob, e: Event) -> bool {
    m.stage == ClipStage::Copy && e is Ran
}

/// The answer once the clipboard tool of `desktop` gave back `outcome`:
/// on Linux the image is taken as copied whatever the tool did; elsewhere
/// a tool that could not start or failed is reported.
pub open spec fn clip_answer(desktop: Desktop, outcome: CommandOutcome) -> ResponseView {
    if desktop == Desktop::Linux {
        succeeded("Copied to clipboard"@, None)
    } else {
        match outcome {
            CommandOutcome::NotStarted { error } => failed(error@),
            CommandOutcome::Finished { success, stderr, .. } => if success {
                succeeded("Copied to clipboard"@, None)
            } else {
                failed(decode_lossy(stderr@))
            },
        }
    }
}

impl ClipboardJob {
    /// Begins putting the image sent as `data` on the clipboard of
    /// `desktop`: it fails at once when the data is not valid Base64, and
    /// otherwise hands the image to the clipboard tool (see
    /// [`clip_request`]).
    pub fn new(data: &str, desktop: Desktop) -> (r: (ClipboardJob, Action))
        ensures
            r.0.desktop == desktop,
            match standard_decode(payload(data@)) {
                Err(e) => r.0.stage == ClipStage::Finished && r.1@ == ActionView::Done(
                    failed(e),
                    false,
                ),
                Ok(bytes) => {
                    &&& r.1@ == clip_request(desktop, payload(data@), bytes)
                    &&& r.0.stage == (if desktop == Desktop::Other {
                        ClipStage::Finished
                    } else {
                        ClipStage::Copy
                    })
                },
            },
    {
        let text = clean_base64(data);
        let bytes = match decode_standard(text.as_str()) {
            Err(e) => {
                return (
                    ClipboardJob { desktop, stage: ClipStage::Finished },
                    Action::Done { response: ApiResponse::failure(e), keep_recorder: false },
                );
            },
            Ok(b) => b,
        };
        match desktop {
            Desktop::MacOs => {
                let script = macos_clipboard_script(bytes.as_slice());
                let input = text_bytes(script.as_str());
                let args: Vec<String> = vec![String::from_str("-")];
                assert(arg_views(args@) =~= seq!["-"@]);
                (
                    ClipboardJob { desktop, stage: ClipStage::Copy },
                    Action::Feed { program: String::from_str("osascript"), args, input },
                )
            },
            Desktop::Windows => {
                let script = windows_clipboard_script(text.as_str());
                let input = text_bytes(script.as_str());
                let args: Vec<String> = vec![
                    String::from_str("-NoProfile"),
                    String::from_str("-STA"),
                    String::from_str("-Command"),
                    String::from_str("-"),
                ];
                assert(arg_views(args@) =~= seq!["-NoProfile"@, "-STA"@, "-Command"@, "-"@]);
                (
                    ClipboardJob { desktop, stage: ClipStage::Copy },
                    Action::Feed { program: String::from_str("powershell"), args, input },
                )
            },
            Desktop::Linux => (
                ClipboardJob { desktop, stage: ClipStage::Copy },
                Action::Feed { program: String::from_str("xclip"), args: xclip_args(), input: bytes },
            ),
            Desktop::Other => (
                ClipboardJob { desktop, stage: ClipStage::Finished },
                Action::Done { response: copied_to_clipboard(), keep_recorder: false },
            ),
        }
    }

    /// Takes what the clipboard tool gave back and gives the answer (see
    /// [`clip_answer`]).
    pub fn next(&mut self, event: Event) -> (a: Action)
        requires
            clip_expects(*old(self), event),
        ensures
            final(self).desktop == old(self).desktop,
            final(self).stage == ClipStage::Finished,
            a@ == ActionView::Done(clip_answer(old(self).desktop, event->Ran_0), false),
    {
        self.stage = ClipStage::Finished;
        match event {
            Event::Ran(o) => {
                if self.desktop == Desktop::Linux {
                    return Action::Done { response: copied_to_clipboard(), keep_recorder: false };
                }
                let r = match clipboard_failure(&o) {
                    Some(f) => f,
                    None => copied_to_clipboard(),
                };
                Action::Done { response: r, keep_recorder: false }
            },
            _ => Action::Watch,
        }
    }
}

/// Putting an image on the clipboard writes no file: the image reaches the
/// clipboard tool on its standard input, and the only other requests are
/// the answers, which are consistent and hold no recorder.
pub proof fn lemma_clipboard_writes_no_file(desktop: Desktop, b64: Seq<char>, bytes: Seq<u8>, outcome: CommandOutcome)
    ensures
        clip_request(desktop, b64, bytes) is Feed || clip_request(desktop, b64, bytes) is Done,
        clip_request(desktop, b64, bytes) matches ActionView::Done(r, keep) ==> !keep && r.success,
        desktop == Desktop::Linux ==> clip_request(desktop, b64, bytes) == ActionView::Feed(
            "xclip"@,
            xclip_arg_list(),
            bytes,
        ),
        clip_answer(desktop, outcome).consistent(),
{
}

// ---------------------------------------------------------------------
// Laws
// ---------------------------------------------------------------------

/// The hexadecimal text of the image bytes is their standard upper-case
/// hexadecimal: two characters a byte, the digit of the high nibble first,
/// so that reading the hex back gives the bytes unchanged.
pub proof fn lemma_hex_upper_digits(bytes: Seq<u8>)
    ensures
        hex_upper(bytes).len() == 2 * bytes.len(),
        forall|i: int|
            0 <= i < bytes.len() ==> {
                &&& #[trigger] hex_upper(bytes)[2 * i] == seq![
                    '0', '1', '2', '3', '4', '5', '6', '7', '8', '9', 'A', 'B', 'C', 'D', 'E', 'F',
                ][(bytes[i] / 16) as int]
                &&& hex_upper(bytes)[2 * i + 1] == seq![
                    '0', '1', '2', '3', '4', '5', '6', '7', '8', '9', 'A', 'B', 'C', 'D', 'E', 'F',
                ][(bytes[i] % 16) as int]
            },
    decreases bytes.len(),
{
    if bytes.len() > 0 {
        let prev = bytes.drop_last();
        lemma_hex_upper_digits(prev);
        let h = hex_upper(bytes);
        assert(h == hex_upper(prev) + seq![
            hex_digits()[(bytes.last() / 16) as int],
            hex_digits()[(bytes.last() % 16) as int],
        ]);
        assert forall|i: int| 0 <= i < bytes.len() implies {
            &&& #[trigger] hex_upper(bytes)[2 * i] == seq![
                '0', '1', '2', '3', '4', '5', '6', '7', '8', '9', 'A', 'B', 'C', 'D', 'E', 'F',
            ][(bytes[i] / 16) as int]
            &&& hex_upper(bytes)[2 * i + 1] == seq![
                '0', '1', '2', '3', '4', '5', '6', '7', '8', '9', 'A', 'B', 'C', 'D', 'E', 'F',
            ][(bytes[i] % 16) as int]
        } by {
            if i < prev.len() {
                assert(prev[i] == bytes[i]);
                assert(hex_upper(prev)[2 * i] == h[2 * i]);
            }
        }
    }
}

/// A saved image goes beside its video, whatever its kind: in the video's
/// directory, named after the video's stem with `_frame.png` for a single
/// frame or `_grid.png` for a grid.
pub proof fn lemma_image_beside_video(video: Seq<char>)
    ensures
        image_path_spec(video, false) == path_join(
            video_dir_spec(video),
            video_stem_spec(video) + "_frame.png"@,
        ),
        image_path_spec(video, true) == path_join(
            video_dir_spec(video),
            video_stem_spec(video) + "_grid.png"@,
        ),
{
}


proof fn lemma_replace_absent(s: Seq<char>, pat: Seq<char>, rep: Seq<char>)
    requires
        pat.len() > 0,
        !crate::text::contains(s, pat),
    ensures
        replace_all(s, pat, rep) == s,
    decreases s.len(),
{
    if s.len() > 0 {
        if crate::text::starts_with(s, pat) {
            assert(crate::text::occurs_at(s, pat, 0));
        }
        assert forall|i: int| !crate::text::occurs_at(s.drop_first(), pat, i) by {
            if crate::text::occurs_at(s.drop_first(), pat, i) {
                assert(s.subrange(i + 1, i + 1 + pat.len()) =~= s.drop_first().subrange(
                    i,
                    i + pat.len(),
                ));
                assert(crate::text::occurs_at(s, pat, i + 1));
            }
        }
        lemma_replace_absent(s.drop_first(), pat, rep);
        assert(seq![s[0]] + s.drop_first() =~= s);
    }
}

proof fn lemma_replace_leading(h: Seq<char>, p: Seq<char>, rep: Seq<char>)
    requires
        h.len() > 0,
    ensures
        replace_all(h + p, h, rep) == rep + replace_all(p, h, rep),
{
    assert((h + p).take(h.len() as int) =~= h);
    assert((h + p).skip(h.len() as int) =~= p);
}

proof fn lemma_replace_after_prefix(h: Seq<char>, p: Seq<char>, pat: Seq<char>, rep: Seq<char>)
    requires
        pat.len() > 0,
        forall|i: int| 0 <= i < h.len() ==> !crate::text::occurs_at(h + p, pat, i),
    ensures
        replace_all(h + p, pat, rep) == h + replace_all(p, pat, rep),
    decreases h.len(),
{
    if h.len() > 0 {
        let w = h + p;
        assert(!crate::text::starts_with(w, pat)) by {
            if crate::text::starts_with(w, pat) {
                assert(w.subrange(0, pat.len() as int) =~= w.take(pat.len() as int));
                assert(crate::text::occurs_at(w, pat, 0));
            }
        }
        let t = h.drop_first();
        assert(w.drop_first() =~= t + p);
        assert forall|i: int| 0 <= i < t.len() implies !crate::text::occurs_at(t + p, pat, i) by {
            if crate::text::occurs_at(t + p, pat, i) {
                assert(w.subrange(i + 1, i + 1 + pat.len()) =~= (t + p).subrange(i, i + pat.len()));
                assert(crate::text::occurs_at(w, pat, i + 1));
            }
        }
        lemma_replace_after_prefix(t, p, pat, rep);
        assert(seq![w[0]] + (t + replace_all(p, pat, rep)) =~= h + replace_all(p, pat, rep));
    } else {
        assert(h + p =~= p);
        assert(h + replace_all(p, pat, rep) =~= replace_all(p, pat, rep));
    }
}

/// A PNG header starts nowhere within a JPEG header, whatever follows it.
proof fn lemma_no_png_in_jpeg(q: Seq<char>)
    ensures
        forall|i: int|
            0 <= i < jpeg_header().len() ==> !crate::text::occurs_at(jpeg_header() + q, png_header(), i),
{
    reveal_strlit("data:image/png;base64,");
    reveal_strlit("data:image/jpeg;base64,");
    assert forall|i: int|
        0 <= i < jpeg_header().len() implies !crate::text::occurs_at(jpeg_header() + q, png_header(), i) by {
        if crate::text::occurs_at(jpeg_header() + q, png_header(), i) {
            let w = jpeg_header() + q;
            if i == 0 {
                assert(w.subrange(0, png_header().len() as int)[11] == png_header()[11]);
            } else {
                assert(w.subrange(i, i + png_header().len())[0] == png_header()[0]);
                assert(w[i] == 'd');
            }
        }
    }
}

/// A PNG or JPEG data URL header in front of an image's Base64 text is
/// removed: the payload is the same as that of the bare text. When the
/// text holds no header of its own, its payload is the text trimmed.
pub proof fn lemma_payload_of_data_url(p: Seq<char>)
    ensures
        payload(png_header() + p) == payload(p),
        payload(jpeg_header() + p) == payload(p),
        !crate::text::contains(p, png_header()) && !crate::text::contains(p, jpeg_header())
            ==> payload(p) == trim(p),
{
    reveal_strlit("data:image/png;base64,");
    reveal_strlit("data:image/jpeg;base64,");
    let e = Seq::<char>::empty();
    let q = replace_all(p, png_header(), e);
    lemma_replace_leading(png_header(), p, e);
    assert(e + q =~= q);
    lemma_no_png_in_jpeg(p);
    lemma_replace_after_prefix(jpeg_header(), p, png_header(), e);
    lemma_replace_leading(jpeg_header(), q, e);
    assert(e + replace_all(q, jpeg_header(), e) =~= replace_all(q, jpeg_header(), e));
    if !crate::text::contains(p, png_header()) && !crate::text::contains(p, jpeg_header()) {
        lemma_replace_absent(p, png_header(), e);
        lemma_replace_absent(p, jpeg_header(), e);
    }
}

} // verus!
