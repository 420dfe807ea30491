//! Pairing with, connecting to and disconnecting from devices over
//! wireless ADB: what the replies of `adb pair`, `adb connect` and
//! `adb disconnect` mean, and which advertised addresses a freshly paired
//! device may be reached at.

use vstd::prelude::*;

use crate::command::{combined_output, combined_text, output_string, CommandOutcome};
use crate::flow::{arg_views, run, Action, ActionView, Event};
use crate::response::{failed, succeeded, ApiResponse, ResponseView};
use crate::text::{
    ascii_lower, chars_of, contains, contains_chars, decode_lossy, is_ascii_text, lemma_split_on_nonempty, lines, lines_of,
    lowercase, split_chars, split_on, string_of, to_lowercase, views, words, words_of,
};

verus! {

// ---------------------------------------------------------------------
// Replies
// ---------------------------------------------------------------------

/// The answer when the ADB binary cannot be found.
pub fn adb_missing() -> (r: ApiResponse)
    ensures
        r@ == failed("ADB not installed"@),
{
    ApiResponse::failure_str("ADB not installed")
}

/// `adb pair` reports success: its text says `Successfully paired`, or its
/// lowercase form `lowered` holds `successfully`.
pub open spec fn pair_reported(text: Seq<char>, lowered: Seq<char>) -> bool {
    contains(text, "Successfully paired"@) || contains(lowered, "successfully"@)
}

/// Whether the text of `adb pair`, with its lowercase form `lowered`,
/// reports success.
pub fn pair_reply_succeeded(text: &str, lowered: &str) -> (b: bool)
    ensures
        b == pair_reported(text@, lowered@),
{
    let t = chars_of(text);
    let l = chars_of(lowered);
    let exact = chars_of("Successfully paired");
    let word = chars_of("successfully");
    contains_chars(&t, &exact) || contains_chars(&l, &word)
}

/// Whether the text of `adb pair` reports success: exactly when its
/// lowercase form holds `successfully` (a text saying `Successfully paired`
/// does so too).
pub fn pair_succeeded(text: &str) -> (b: bool)
    ensures
        b == contains(lowercase(text@), "successfully"@),
        b == pair_reported(text@, lowercase(text@)),
{
    let lowered = to_lowercase(text);
    let b = pair_reply_succeeded(text, lowered.as_str());
    proof {
        if contains(text@, "Successfully paired"@) {
            reveal_strlit("Successfully paired");
            reveal_strlit("successfully paired");
            reveal_strlit("successfully");
            let w = "Successfully paired"@;
            assert(is_ascii_text(w));
            assert(contains(lowered@, ascii_lower(w)));
            assert(ascii_lower(w) =~= "successfully paired"@);
            let i = choose|i: int| crate::text::occurs_at(lowered@, "successfully paired"@, i);
            assert(lowered@.subrange(i, i + 12) =~= "successfully"@) by {
                assert forall|k: int| 0 <= k < 12 implies lowered@.subrange(i, i + 12)[k]
                    == "successfully"@[k] by {
                    assert(lowered@.subrange(i, i + 19)[k] == "successfully paired"@[k]);
                }
            }
            assert(crate::text::occurs_at(lowered@, "successfully"@, i));
        }
    }
    b
}

/// What `adb pair` gave back decides whether pairing went through: when it
/// ran and reported success the result is `Ok`, otherwise the failure to
/// answer with (why it could not start, or everything it printed).
pub fn pair_outcome(outcome: &CommandOutcome) -> (r: Result<(), ApiResponse>)
    ensures
        match outcome {
            CommandOutcome::NotStarted { error } => r matches Err(resp) && resp@ == failed(error@),
            CommandOutcome::Finished { stdout, stderr, .. } => {
                let text = combined_text(stdout@, stderr@);
                if contains(lowercase(text), "successfully"@) {
                    r is Ok
                } else {
                    r matches Err(resp) && resp@ == failed(text)
                }
            },
        },
{
    match outcome {
        CommandOutcome::NotStarted { error } => Err(ApiResponse::failure(error.clone())),
        CommandOutcome::Finished { stdout, stderr, .. } => {
            let text = combined_output(stdout.as_slice(), stderr.as_slice());
            if pair_succeeded(text.as_str()) {
                Ok(())
            } else {
                Err(ApiResponse::failure(text))
            }
        },
    }
}

/// The answer after a successful pairing: connected to an advertised
/// address, or asking for the main port to be entered by hand.
pub open spec fn paired_answer(auto_connected: bool) -> ResponseView {
    if auto_connected {
        ResponseView {
            success: true,
            message: "Successfully paired and auto-connected!"@,
            data: Some("connected"@),
            error: None,
            needs_manual_connect: Some(false),
        }
    } else {
        ResponseView {
            success: true,
            message: "Paired successfully, but auto-connect failed. Please enter the main port."@,
            data: Some("paired"@),
            error: None,
            needs_manual_connect: Some(true),
        }
    }
}

/// The answer after a successful pairing, depending on whether connecting
/// to one of the advertised addresses went through.
pub fn paired_response(auto_connected: bool) -> (r: ApiResponse)
    ensures
        r@ == paired_answer(auto_connected),
{
    if auto_connected {
        ApiResponse {
            success: true,
            message: String::from_str("Successfully paired and auto-connected!"),
            data: Some(String::from_str("connected")),
            error: None,
            needs_manual_connect: Some(false),
        }
    } else {
        ApiResponse {
            success: true,
            message: String::from_str(
                "Paired successfully, but auto-connect failed. Please enter the main port.",
            ),
            data: Some(String::from_str("paired")),
            error: None,
            needs_manual_connect: Some(true),
        }
    }
}

/// `adb connect` reports a connection: the lowercase form of its text
/// holds `connected` or `already connected`.
pub open spec fn connect_reported(lowered: Seq<char>) -> bool {
    contains(lowered, "connected"@) || contains(lowered, "already connected"@)
}

/// The answer to a connection request that ran and printed `text`, whose
/// lowercase form is `lowered`.
pub fn connect_reply(text: &str, lowered: &str) -> (r: ApiResponse)
    ensures
        r@ == if connect_reported(lowered@) {
            succeeded(text@, Some("connected"@))
        } else {
            failed(text@)
        },
{
    let l = chars_of(lowered);
    let word = chars_of("connected");
    let already = chars_of("already connected");
    if contains_chars(&l, &word) || contains_chars(&l, &already) {
        ApiResponse::success(String::from_str(text), Some(String::from_str("connected")))
    } else {
        ApiResponse::failure(String::from_str(text))
    }
}

/// The answer to a connection request, from what `adb connect` gave back.
pub fn connect_response(outcome: &CommandOutcome) -> (r: ApiResponse)
    ensures
        match outcome {
            CommandOutcome::NotStarted { error } => r@ == failed(error@),
            CommandOutcome::Finished { stdout, stderr, .. } => {
                let text = combined_text(stdout@, stderr@);
                r@ == if connect_reported(lowercase(text)) {
                    succeeded(text, Some("connected"@))
                } else {
                    failed(text)
                }
            },
        },
{
    match outcome {
        CommandOutcome::NotStarted { error } => ApiResponse::failure(error.clone()),
        CommandOutcome::Finished { stdout, stderr, .. } => {
            let text = combined_output(stdout.as_slice(), stderr.as_slice());
            let lowered = to_lowercase(text.as_str());
            connect_reply(text.as_str(), lowered.as_str())
        },
    }
}

/// Whether `adb connect` to an advertised address went through, from the
/// lowercase form `lowered` of its standard output.
pub fn auto_connect_reply(lowered: &str) -> (b: bool)
    ensures
        b == contains(lowered@, "connected"@),
{
    let l = chars_of(lowered);
    let word = chars_of("connected");
    contains_chars(&l, &word)
}

/// Whether `adb connect` to an advertised address went through, from its
/// standard output.
pub fn auto_connected(stdout: &[u8]) -> (b: bool)
    ensures
        b == contains(lowercase(decode_lossy(stdout@)), "connected"@),
{
    let text = output_string(stdout);
    let lowered = to_lowercase(text.as_str());
    auto_connect_reply(lowered.as_str())
}

/// The answer to a disconnection request, from what `adb disconnect` gave
/// back: it succeeds whenever the command ran, whatever it printed.
pub fn disconnect_response(outcome: &CommandOutcome) -> (r: ApiResponse)
    ensures
        match outcome {
            CommandOutcome::NotStarted { error } => r@ == failed(error@),
            CommandOutcome::Finished { .. } => r@ == succeeded("Disconnected"@, None),
        },
{
    match outcome {
        CommandOutcome::NotStarted { error } => ApiResponse::failure(error.clone()),
        CommandOutcome::Finished { .. } => {
            ApiResponse::success(String::from_str("Disconnected"), None)
        },
    }
}

// ---------------------------------------------------------------------
// Addresses to try after pairing
// ---------------------------------------------------------------------

/// The host part of `ip:port`: the text before the first colon.
pub open spec fn host_of(ip_port: Seq<char>) -> Seq<char> {
    split_on(ip_port, ':')[0]
}

/// The host part of the address a device was paired at.
pub fn pairing_host(ip_port: &str) -> (r: String)
    ensures
        r@ == host_of(ip_port@),
{
    let c = chars_of(ip_port);
    let pieces = split_chars(&c, ':');
    proof {
        lemma_split_on_nonempty(c@, ':');
    }
    string_of(&pieces[0])
}

/// Whether word `w` of an advertisement is an address on `host`.
pub open spec fn address_on(w: Seq<char>, host: Seq<char>) -> bool {
    contains(w, host) && contains(w, ":"@)
}

/// The words among `ws` that are addresses on `host`, in order.
pub open spec fn addresses_in(ws: Seq<Seq<char>>, host: Seq<char>) -> Seq<Seq<char>>
    decreases ws.len(),
{
    if ws.len() == 0 {
        Seq::empty()
    } else if address_on(ws.last(), host) {
        addresses_in(ws.drop_last(), host).push(ws.last())
    } else {
        addresses_in(ws.drop_last(), host)
    }
}

/// Whether line `line` of `adb mdns services` advertises a TLS connection
/// service on `host`.
pub open spec fn advertises(line: Seq<char>, host: Seq<char>) -> bool {
    contains(line, host) && contains(line, "_adb-tls-connect"@)
}

/// The addresses on `host` advertised by lines `0 .. k` of `ls`.
pub open spec fn advertised_upto(ls: Seq<Seq<char>>, host: Seq<char>, k: int) -> Seq<Seq<char>>
    decreases k,
{
    if k <= 0 {
        Seq::empty()
    } else if advertises(ls[k - 1], host) {
        advertised_upto(ls, host, k - 1) + addresses_in(words(ls[k - 1]), host)
    } else {
        advertised_upto(ls, host, k - 1)
    }
}

/// The addresses on `host` that `adb mdns services` printed as `out`
/// advertises, in the order in which connecting to them is tried.
pub open spec fn advertised_addresses(out: Seq<char>, host: Seq<char>) -> Seq<Seq<char>> {
    advertised_upto(lines(out), host, lines(out).len() as int)
}

/// The words of `ws` that are addresses on `host`.
fn addresses_in_of(ws: &Vec<Vec<char>>, host: &[char]) -> (r: Vec<Vec<char>>)
    ensures
        views(r@) == addresses_in(views(ws@), host@),
{
    let colon = chars_of(":");
    let mut r: Vec<Vec<char>> = Vec::new();
    let mut i: usize = 0;
    assert(views(ws@).take(0) =~= Seq::<Seq<char>>::empty());
    while i < ws.len()
        invariant
            i <= ws@.len(),
            colon@ == ":"@,
            views(r@) == addresses_in(views(ws@).take(i as int), host@),
        decreases ws@.len() - i,
    {
        assert(views(ws@).take(i + 1).drop_last() =~= views(ws@).take(i as int));
        assert(views(ws@).take(i + 1).last() == ws@[i as int]@);
        if contains_chars(&ws[i], host) && contains_chars(&ws[i], &colon) {
            let ghost before = r@;
            r.push(ws[i].clone());
            assert(views(r@) =~= views(before).push(ws@[i as int]@));
        }
        i = i + 1;
    }
    assert(views(ws@).take(ws@.len() as int) =~= views(ws@));
    r
}

/// The addresses on `host` that the output `out` of `adb mdns services`
/// advertises, in the order in which connecting to them is tried; the
/// first connection that goes through ends the attempts.
pub fn advertised_addresses_of(out: &str, host: &str) -> (r: Vec<String>)
    ensures
        arg_views(r@) == advertised_addresses(out@, host@),
{
    let text = chars_of(out);
    let h = chars_of(host);
    let ls = lines_of(&text);
    let marker = chars_of("_adb-tls-connect");
    let mut r: Vec<String> = Vec::new();
    let mut k: usize = 0;
    while k < ls.len()
        invariant
            k <= ls@.len(),
            marker@ == "_adb-tls-connect"@,
            h@ == host@,
            arg_views(r@) == advertised_upto(views(ls@), host@, k as int),
        decreases ls@.len() - k,
    {
        if contains_chars(&ls[k], &h) && contains_chars(&ls[k], &marker) {
            let ws = words_of(&ls[k]);
            let found = addresses_in_of(&ws, &h);
            let ghost base = arg_views(r@);
            let mut j: usize = 0;
            while j < found.len()
                invariant
                    j <= found@.len(),
                    arg_views(r@) == base + views(found@).take(j as int),
                decreases found@.len() - j,
            {
                let ghost before = r@;
                r.push(string_of(&found[j]));
                j = j + 1;
                assert(arg_views(r@) =~= arg_views(before).push(
                    found@[j - 1]@,
                ));
                assert(views(found@).take(j as int) =~= views(found@).take(j - 1).push(
                    found@[j - 1]@,
                ));
            }
            assert(views(found@).take(found@.len() as int) =~= views(found@));
        }
        k = k + 1;
    }
    r
}


// ---------------------------------------------------------------------
// Pairing, step by step
// ---------------------------------------------------------------------

/// Where pairing stands.
#[derive(Debug, Clone, Copy, PartialEq, Eq, Structural)]
pub enum PairStage {
    Locate,
    Pair,
    Wait,
    Discover,
    Connect,
    Finished,
}

/// A request to pair with the device at `ip_port` using `code`, with
/// `adb` found at `tool`; after pairing, the advertised `addresses` are
/// tried in order, `next` being the one tried last.
#[derive(Debug)]
pub struct PairRequest {
    pub ip_port: String,
    pub code: String,
    pub tool: String,
    pub addresses: Vec<String>,
    pub next: usize,
    pub stage: PairStage,
}

/// The mathematical content of a [`PairRequest`].
pub struct PairView {
    pub ip_port: Seq<char>,
    pub code: Seq<char>,
    pub tool: Seq<char>,
    pub addresses: Seq<Seq<char>>,
    pub next: int,
    pub stage: PairStage,
}

impl View for PairRequest {
    type V = PairView;

    open spec fn view(&self) -> PairView {
        PairView {
            ip_port: self.ip_port@,
            code: self.code@,
            tool: self.tool@,
            addresses: arg_views(self.addresses@),
            next: self.next as int,
            stage: self.stage,
        }
    }
}

/// The report expected at each stage of pairing.
pub open spec fn pair_expects(stage: PairStage, e: Event) -> bool {
    match stage {
        PairStage::Locate => e is Tool,
        PairStage::Wait => e is Ack,
        PairStage::Pair | PairStage::Discover | PairStage::Connect => e is Ran,
        PairStage::Finished => false,
    }
}

/// Tries the advertised address `i`, or ends without a connection when
/// none is left.
pub open spec fn pair_try(m: PairView, i: int) -> (PairView, ActionView) {
    if 0 <= i < m.addresses.len() {
        (
            PairView { next: i, stage: PairStage::Connect, ..m },
            ActionView::Run(m.tool, seq!["connect"@, m.addresses[i]]),
        )
    } else {
        (
            PairView { stage: PairStage::Finished, ..m },
            ActionView::Done(paired_answer(false), false),
        )
    }
}

/// One step of pairing: from where it stands (`m`) and the report `e`,
/// where it goes and what is asked next.
pub open spec fn pair_step(m: PairView, e: Event) -> (PairView, ActionView) {
    let done = PairView { stage: PairStage::Finished, ..m };
    match m.stage {
        PairStage::Locate => match e {
            Event::Tool(Some(p)) => (
                PairView { tool: p@, stage: PairStage::Pair, ..m },
                ActionView::Run(p@, seq!["pair"@, m.ip_port, m.code]),
            ),
            _ => (done, ActionView::Done(failed("ADB not installed"@), false)),
        },
        PairStage::Pair => match e {
            Event::Ran(CommandOutcome::NotStarted { error }) => (
                done,
                ActionView::Done(failed(error@), false),
            ),
            Event::Ran(CommandOutcome::Finished { stdout, stderr, .. }) => {
                let text = combined_text(stdout@, stderr@);
                if contains(lowercase(text), "successfully"@) {
                    (PairView { stage: PairStage::Wait, ..m }, ActionView::Pause(1000))
                } else {
                    (done, ActionView::Done(failed(text), false))
                }
            },
            _ => (m, ActionView::Watch),
        },
        PairStage::Wait => (
            PairView { stage: PairStage::Discover, ..m },
            ActionView::Run(m.tool, seq!["mdns"@, "services"@]),
        ),
        PairStage::Discover => match e {
            Event::Ran(CommandOutcome::Finished { stdout, .. }) => pair_try(
                PairView {
                    addresses: advertised_addresses(decode_lossy(stdout@), host_of(m.ip_port)),
                    ..m
                },
                0,
            ),
            _ => (done, ActionView::Done(paired_answer(false), false)),
        },
        PairStage::Connect => match e {
            Event::Ran(CommandOutcome::Finished { stdout, .. }) if contains(
                lowercase(decode_lossy(stdout@)),
                "connected"@,
            ) => (done, ActionView::Done(paired_answer(true), false)),
            _ => pair_try(
                m,
                if m.next < m.addresses.len() {
                    m.next + 1
                } else {
                    m.addresses.len() as int
                },
            ),
        },
        PairStage::Finished => (m, ActionView::Watch),
    }
}

impl PairRequest {
    /// Begins pairing with the device at `ip_port` using `code`; the first
    /// request looks for `adb`.
    pub fn new(ip_port: String, code: String) -> (r: (PairRequest, Action))
        ensures
            r.0@.ip_port == ip_port@,
            r.0@.code == code@,
            r.0@.stage == PairStage::Locate,
            r.1@ == ActionView::FindTool("adb"@),
    {
        (
            PairRequest {
                ip_port,
                code,
                tool: String::new(),
                addresses: Vec::new(),
                next: 0,
                stage: PairStage::Locate,
            },
            Action::FindTool { name: String::from_str("adb") },
        )
    }

    fn try_address(&mut self, i: usize) -> (a: Action)
        ensures
            (final(self)@, a@) == pair_try(old(self)@, i as int),
    {
        if i < self.addresses.len() {
            self.next = i;
            self.stage = PairStage::Connect;
            let mut args: Vec<String> = Vec::new();
            args.push(String::from_str("connect"));
            args.push(self.addresses[i].clone());
            assert(arg_views(args@) =~= seq!["connect"@, self@.addresses[i as int]]);
            run(&self.tool, args)
        } else {
            self.stage = PairStage::Finished;
            Action::Done { response: paired_response(false), keep_recorder: false }
        }
    }

    /// Takes the report `event` on the last request and gives the next one;
    /// see [`pair_step`].
    pub fn next(&mut self, event: Event) -> (a: Action)
        requires
            pair_expects(old(self)@.stage, event),
        ensures
            (final(self)@, a@) == pair_step(old(self)@, event),
    {
        match self.stage {
            PairStage::Locate => match event {
                Event::Tool(Some(p)) => {
                    self.tool = p;
                    self.stage = PairStage::Pair;
                    let mut args: Vec<String> = Vec::new();
                    args.push(String::from_str("pair"));
                    args.push(self.ip_port.clone());
                    args.push(self.code.clone());
                    assert(arg_views(args@) =~= seq!["pair"@, self@.ip_port, self@.code]);
                    run(&self.tool, args)
                },
                _ => {
                    self.stage = PairStage::Finished;
                    Action::Done { response: adb_missing(), keep_recorder: false }
                },
            },
            PairStage::Pair => match pair_outcome(&event_outcome(event)) {
                Err(r) => {
                    self.stage = PairStage::Finished;
                    Action::Done { response: r, keep_recorder: false }
                },
                Ok(()) => {
                    self.stage = PairStage::Wait;
                    Action::Pause { millis: 1000 }
                },
            },
            PairStage::Wait => {
                self.stage = PairStage::Discover;
                let mut args: Vec<String> = Vec::new();
                args.push(String::from_str("mdns"));
                args.push(String::from_str("services"));
                assert(arg_views(args@) =~= seq!["mdns"@, "services"@]);
                run(&self.tool, args)
            },
            PairStage::Discover => match event {
                Event::Ran(CommandOutcome::Finished { stdout, .. }) => {
                    let text = output_string(stdout.as_slice());
                    let host = pairing_host(self.ip_port.as_str());
                    self.addresses = advertised_addresses_of(text.as_str(), host.as_str());
                    self.try_address(0)
                },
                _ => {
                    self.stage = PairStage::Finished;
                    Action::Done { response: paired_response(false), keep_recorder: false }
                },
            },
            PairStage::Connect => {
                let connected = match &event {
                    Event::Ran(CommandOutcome::Finished { stdout, .. }) => auto_connected(
                        stdout.as_slice(),
                    ),
                    _ => false,
                };
                if connected {
                    self.stage = PairStage::Finished;
                    Action::Done { response: paired_response(true), keep_recorder: false }
                } else {
                    let i = if self.next < self.addresses.len() {
                        self.next + 1
                    } else {
                        self.addresses.len()
                    };
                    self.try_address(i)
                }
            },
            PairStage::Finished => Action::Watch,
        }
    }
}

/// The command outcome a report carries (a report of another kind counts
/// as a command that could not start).
fn event_outcome(e: Event) -> (o: CommandOutcome)
    ensures
        e matches Event::Ran(x) ==> o == x,
{
    match e {
        Event::Ran(x) => x,
        _ => CommandOutcome::NotStarted { error: String::new() },
    }
}

/// The answers of pairing have one shape: a success says whether a manual
/// connection is needed and carries no error, a failure carries an error
/// and says nothing of a manual connection; an automatic connection is
/// reported exactly when no manual one is needed. When `adb` is not found
/// the answer is that it is not installed, and a failed pairing is answered
/// at once with its reason.
pub proof fn lemma_pair_answers(m: PairView, e: Event)
    requires
        pair_expects(m.stage, e),
    ensures
        ({
            let (m2, a) = pair_step(m, e);
            &&& (a matches ActionView::Done(r, keep) ==> {
                &&& !keep
                &&& r.consistent()
                &&& r.success == (r.needs_manual_connect is Some)
                &&& r.success == (r.error is None)
                &&& (r.needs_manual_connect == Some(false)) == (r.data == Some("connected"@))
                &&& m2.stage == PairStage::Finished
            })
            &&& (m.stage == PairStage::Locate && e == Event::Tool(None)) ==> a == ActionView::Done(
                failed("ADB not installed"@),
                false,
            )
        }),
{
    reveal_strlit("connected");
    reveal_strlit("paired");
    assert("paired"@.len() != "connected"@.len());
    assert(paired_answer(false).data != Some("connected"@));
}

// ---------------------------------------------------------------------
// Laws
// ---------------------------------------------------------------------

/// Whether the report `e` is a finished `adb connect` whose output,
/// lowercased, says `connected`.
pub open spec fn connect_went_through(e: Event) -> bool {
    e matches Event::Ran(CommandOutcome::Finished { stdout, .. }) && contains(
        lowercase(decode_lossy(stdout@)),
        "connected"@,
    )
}

/// Pairing says the device was connected automatically (no manual
/// connection needed) only in the step that takes an `adb connect` report
/// saying `connected`, and then always. Any other connect report tries the
/// next advertised address, or, when none is left, ends saying that
/// pairing worked but the main port has to be entered.
pub proof fn lemma_auto_connect_only_when_connected(m: PairView, e: Event)
    requires
        pair_expects(m.stage, e),
        m.next >= 0,
    ensures
        ({
            let (m2, a) = pair_step(m, e);
            &&& (a matches ActionView::Done(r, _) && r.needs_manual_connect == Some(false)) ==> (
            m.stage == PairStage::Connect && connect_went_through(e))
            &&& (m.stage == PairStage::Connect && connect_went_through(e)) ==> (a matches ActionView::Done(
                r,
                keep,
            ) && !keep && r.success && r.needs_manual_connect == Some(false) && r.data == Some(
                "connected"@,
            ) && r.message == "Successfully paired and auto-connected!"@)
            &&& (m.stage == PairStage::Connect && !connect_went_through(e) && m.next + 1
                < m.addresses.len()) ==> {
                &&& a == ActionView::Run(m.tool, seq!["connect"@, m.addresses[m.next + 1]])
                &&& m2.stage == PairStage::Connect
                &&& m2.next == m.next + 1
            }
            &&& (m.stage == PairStage::Connect && !connect_went_through(e) && m.next + 1
                >= m.addresses.len()) ==> (a matches ActionView::Done(r, keep) && !keep && r.success
                && r.needs_manual_connect == Some(true) && r.data == Some("paired"@) && r.message
                == "Paired successfully, but auto-connect failed. Please enter the main port."@)
        }),
{
}

/// A reply that says `already connected` also says `connected`, so a
/// connection request succeeds exactly when the lowercase reply holds
/// `connected`.
pub proof fn lemma_connect_reported(lowered: Seq<char>)
    ensures
        connect_reported(lowered) == contains(lowered, "connected"@),
{
    reveal_strlit("connected");
    reveal_strlit("already connected");
    if contains(lowered, "already connected"@) {
        let i = choose|i: int| crate::text::occurs_at(lowered, "already connected"@, i);
        assert(lowered.subrange(i + 8, i + 8 + "connected"@.len()) =~= "connected"@) by {
            assert forall|k: int| 0 <= k < 9 implies lowered.subrange(i + 8, i + 17)[k]
                == "connected"@[k] by {
                assert(lowered.subrange(i, i + 17)[k + 8] == "already connected"@[k + 8]);
            }
        }
        assert(crate::text::occurs_at(lowered, "connected"@, i + 8));
    }
}

} // verus!
