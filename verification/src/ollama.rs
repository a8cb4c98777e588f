//! Talking to an Ollama server: its endpoints, the model list and the
//! progress of pulling a model.

use crate::sizes::{push_size, size_text};
use crate::text::{
    byte_prefix, floor_boundary, same_text, strip_trailing, text_of_range, texts, to_chars, trim,
    trim_end_matches_char, trimmed,
};
use vstd::prelude::*;
use vstd::string::*;
use vstd::utf8::{decode_utf8, encode_utf8};

verus! {

/// One entry of the server's model list.
#[derive(Clone, Debug)]
pub struct OllamaTag {
    pub name: String,
}

/// The server's answer to a request for its model list.
#[derive(Clone, Debug)]
pub struct OllamaTagsResp {
    pub models: Vec<OllamaTag>,
}

/// One message of a chat.
#[derive(Clone, Debug)]
pub struct ChatMessage {
    pub role: String,
    pub content: String,
}

/// A progress report of a model pull.
#[derive(Clone, Debug)]
pub struct PullProgressPayload {
    pub progress: u32,
    pub message: String,
}

/// Mathematical form of a [`PullProgressPayload`].
pub struct PullProgressModel {
    pub progress: u32,
    pub message: Seq<char>,
}

impl View for PullProgressPayload {
    type V = PullProgressModel;

    open spec fn view(&self) -> PullProgressModel {
        PullProgressModel { progress: self.progress, message: self.message@ }
    }
}

/// The address of the server: the local default where the caller gives
/// nothing but white space, else the caller's address without trailing
/// slashes.
pub open spec fn base_of(base_url: Seq<char>) -> Seq<char> {
    if trimmed(base_url).len() == 0 {
        "http://127.0.0.1:11434"@
    } else {
        strip_trailing(base_url, '/')
    }
}

/// The address of the Ollama server to talk to.
pub fn ollama_base(base_url: &str) -> (base: String)
    ensures
        base@ == base_of(base_url@),
{
    let t = trim(base_url);
    if t.as_str().unicode_len() == 0 {
        String::from_str("http://127.0.0.1:11434")
    } else {
        trim_end_matches_char(base_url, '/')
    }
}

/// The URL of an endpoint of the server at `base_url`; `path` is the
/// endpoint's path, such as `/api/tags`.
pub fn endpoint(base_url: &str, path: &str) -> (url: String)
    ensures
        url@ == base_of(base_url@) + path@,
{
    let mut url = ollama_base(base_url);
    url.append(path);
    url
}

/// The names in a model list, in order.
pub fn tag_names(resp: &OllamaTagsResp) -> (names: Vec<String>)
    ensures
        names@.len() == resp.models@.len(),
        forall|i: int| 0 <= i < names@.len() ==> names@[i]@ == resp.models@[i].name@,
{
    let mut names: Vec<String> = Vec::new();
    let mut i: usize = 0;
    while i < resp.models.len()
        invariant
            i <= resp.models.len(),
            names@.len() == i,
            forall|k: int| 0 <= k < i ==> names@[k]@ == resp.models@[k].name@,
        decreases resp.models.len() - i,
    {
        names.push(resp.models[i].name.clone());
        i = i + 1;
    }
    names
}

/// The text member `key` of the JSON object written in `line`, as
/// `serde_json` reads it: `None` where `line` is not JSON, `Some(None)` where
/// it is but holds no text under `key`.
pub uninterp spec fn json_text_member(line: Seq<char>, key: Seq<char>) -> Option<Option<Seq<char>>>;

/// The member `key` of the JSON object written in `line` as a non-negative
/// integer, as `serde_json` reads it: `None` where `line` is not JSON,
/// `Some(None)` where it is but holds no such number under `key`.
pub uninterp spec fn json_count_member(line: Seq<char>, key: Seq<char>) -> Option<Option<u64>>;

/// Parses `line` with `serde_json::from_str` into a `serde_json::Value`,
/// looks `key` up with `Value::get` and takes the text with
/// `Value::as_str`. The outcome depends on `line` and `key` alone; the
/// contract names it and claims nothing else about it.
#[verifier::external_body]
fn read_text_member(line: &str, key: &str) -> (r: Option<Option<String>>)
    ensures
        match r {
            Some(Some(text)) => json_text_member(line@, key@) == Some(Some(text@)),
            Some(None) => json_text_member(line@, key@) == Some(None::<Seq<char>>),
            None => json_text_member(line@, key@) is None,
        },
{
    let value: serde_json::Value = serde_json::from_str(line).ok()?;
    match value.get(key) {
        Some(member) => match member.as_str() {
            Some(text) => Some(Some(text.to_string())),
            None => Some(None),
        },
        None => Some(None),
    }
}

/// Parses `line` with `serde_json::from_str` into a `serde_json::Value`,
/// looks `key` up with `Value::get` and takes the number with
/// `Value::as_u64`. The outcome depends on `line` and `key` alone; the
/// contract names it and claims nothing else about it.
#[verifier::external_body]
fn read_count_member(line: &str, key: &str) -> (r: Option<Option<u64>>)
    ensures
        r == json_count_member(line@, key@),
{
    let value: serde_json::Value = serde_json::from_str(line).ok()?;
    match value.get(key) {
        Some(member) => Some(member.as_u64()),
        None => Some(None),
    }
}

/// What one line of the pull stream says.
#[derive(Clone, Debug)]
pub struct PullStatus {
    pub status: String,
    pub total: u64,
    pub completed: u64,
    pub digest: String,
}

/// Mathematical form of a [`PullStatus`].
pub struct PullStatusModel {
    pub status: Seq<char>,
    pub total: u64,
    pub completed: u64,
    pub digest: Seq<char>,
}

impl View for PullStatus {
    type V = PullStatusModel;

    open spec fn view(&self) -> PullStatusModel {
        PullStatusModel {
            status: self.status@,
            total: self.total,
            completed: self.completed,
            digest: self.digest@,
        }
    }
}

/// The status that a line holds, if the line is JSON: every member that is
/// missing or of another type counts as empty or zero.
pub open spec fn status_of_line(line: Seq<char>) -> Option<PullStatusModel> {
    match json_text_member(line, "status"@) {
        None => None,
        Some(status) => Some(
            PullStatusModel {
                status: match status {
                    Some(s) => s,
                    None => Seq::empty(),
                },
                total: match json_count_member(line, "total"@) {
                    Some(Some(n)) => n,
                    _ => 0,
                },
                completed: match json_count_member(line, "completed"@) {
                    Some(Some(n)) => n,
                    _ => 0,
                },
                digest: match json_text_member(line, "digest"@) {
                    Some(Some(d)) => d,
                    _ => Seq::empty(),
                },
            },
        ),
    }
}

/// Puts a status together from the members read off a line.
pub fn pull_status(
    status: Option<String>,
    total: Option<u64>,
    completed: Option<u64>,
    digest: Option<String>,
) -> (s: PullStatus)
    ensures
        s@ == (PullStatusModel {
            status: match status {
                Some(t) => t@,
                None => Seq::empty(),
            },
            total: match total {
                Some(n) => n,
                None => 0,
            },
            completed: match completed {
                Some(n) => n,
                None => 0,
            },
            digest: match digest {
                Some(t) => t@,
                None => Seq::empty(),
            },
        }),
{
    PullStatus {
        status: match status {
            Some(t) => t,
            None => String::new(),
        },
        total: match total {
            Some(n) => n,
            None => 0,
        },
        completed: match completed {
            Some(n) => n,
            None => 0,
        },
        digest: match digest {
            Some(t) => t,
            None => String::new(),
        },
    }
}

/// Reads the status off one line of the pull stream; `None` for a line that
/// is not JSON.
pub fn read_pull_status(line: &str) -> (r: Option<PullStatus>)
    ensures
        match r {
            Some(s) => status_of_line(line@) == Some(s@),
            None => status_of_line(line@) is None,
        },
{
    let status = match read_text_member(line, "status") {
        Some(s) => s,
        None => {
            return None;
        },
    };
    let total = match read_count_member(line, "total") {
        Some(n) => n,
        None => None,
    };
    let completed = match read_count_member(line, "completed") {
        Some(n) => n,
        None => None,
    };
    let digest = match read_text_member(line, "digest") {
        Some(d) => d,
        None => None,
    };
    Some(pull_status(status, total, completed, digest))
}

/// A pull is reported at most once per this many milliseconds.
pub const PULL_EMIT_INTERVAL_MS: u64 = 100;

/// The largest percentage that a pull reports before it has succeeded.
pub const PULL_PERCENT_CAP: u32 = 99;

/// How much of a digest is shown, in bytes.
pub const DIGEST_SHOWN: usize = 12;

/// The percentage of a pull: the completed fraction of 99, or zero while
/// the total is unknown.
pub open spec fn pull_percent_of(completed: u64, total: u64) -> u32 {
    if total > 0 {
        if completed >= total {
            PULL_PERCENT_CAP
        } else {
            ((completed * PULL_PERCENT_CAP) / (total as int)) as u32
        }
    } else {
        0
    }
}

/// The percentage to report for a pull.
pub fn pull_percent(completed: u64, total: u64) -> (percent: u32)
    ensures
        percent == pull_percent_of(completed, total),
        percent <= PULL_PERCENT_CAP,
{
    if total > 0 {
        if completed >= total {
            PULL_PERCENT_CAP
        } else {
            let scaled: u128 = (completed as u128) * 99;
            let q: u128 = scaled / (total as u128);
            assert(q <= 99) by (nonlinear_arith)
                requires
                    q == (completed * 99) / (total as int),
                    0 <= completed < total,
            ;
            q as u32
        }
    } else {
        0
    }
}

/// The word for a status; a status without a word of its own stands for
/// itself.
pub open spec fn status_word(status: Seq<char>) -> Seq<char> {
    if status == "pulling"@ || status == "downloading"@ {
        "Загрузка"@
    } else if status == "verifying"@ {
        "Проверяем"@
    } else if status == "writing"@ {
        "Записываем"@
    } else if status == "success"@ {
        "Готово"@
    } else {
        status
    }
}

/// What is shown of a digest: nothing of an empty one, else a space and
/// the digest, cut to its first twelve bytes where it is longer.
pub open spec fn shown_digest(digest: Seq<char>) -> Seq<char> {
    if digest.len() == 0 {
        Seq::empty()
    } else if encode_utf8(digest).len() > DIGEST_SHOWN {
        " "@ + decode_utf8(
            encode_utf8(digest).subrange(0, floor_boundary(encode_utf8(digest), DIGEST_SHOWN as int)),
        )
    } else {
        " "@ + digest
    }
}

/// The message of a pull report.
pub open spec fn pull_text(s: PullStatusModel) -> Seq<char> {
    if s.total > 0 {
        status_word(s.status) + shown_digest(s.digest) + ": "@ + size_text(s.completed as nat)
            + " из "@ + size_text(s.total as nat)
    } else if s.status.len() > 0 {
        status_word(s.status) + shown_digest(s.digest)
    } else {
        Seq::empty()
    }
}

fn word_for(status: &str) -> (word: String)
    ensures
        word@ == status_word(status@),
{
    if same_text(status, "pulling") || same_text(status, "downloading") {
        String::from_str("Загрузка")
    } else if same_text(status, "verifying") {
        String::from_str("Проверяем")
    } else if same_text(status, "writing") {
        String::from_str("Записываем")
    } else if same_text(status, "success") {
        String::from_str("Готово")
    } else {
        String::from_str(status)
    }
}

fn digest_text(digest: &str) -> (shown: String)
    ensures
        shown@ == shown_digest(digest@),
{
    let len = digest.as_bytes().len();
    if digest.unicode_len() == 0 {
        String::new()
    } else if len > DIGEST_SHOWN {
        let mut shown = String::from_str(" ");
        let head = byte_prefix(digest, DIGEST_SHOWN);
        shown.append(head.as_str());
        shown
    } else {
        let mut shown = String::from_str(" ");
        shown.append(digest);
        shown
    }
}

/// Builds the message of a pull report.
pub fn pull_message(s: &PullStatus) -> (m: String)
    ensures
        m@ == pull_text(s@),
{
    if s.total > 0 {
        let mut m = word_for(s.status.as_str());
        let shown = digest_text(s.digest.as_str());
        m.append(shown.as_str());
        m.append(": ");
        push_size(&mut m, s.completed);
        m.append(" из ");
        push_size(&mut m, s.total);
        m
    } else if s.status.as_str().unicode_len() > 0 {
        let mut m = word_for(s.status.as_str());
        let shown = digest_text(s.digest.as_str());
        m.append(shown.as_str());
        m
    } else {
        String::new()
    }
}

/// What follows from one status line.
#[derive(Clone, Debug)]
pub struct PullStep {
    /// The report to emit now, if one is due.
    pub report: Option<PullProgressPayload>,
    /// Whether the pull has succeeded; the closing report follows and the
    /// stream is not read any further.
    pub succeeded: bool,
}

/// A status is reported when the last report lies long enough back, and in
/// any case when it is the success; the success also ends the pull.
pub open spec fn pull_step_of(s: PullStatusModel, idle_ms: u64) -> (Option<PullProgressModel>, bool) {
    let succeeded = s.status == "success"@;
    (
        if idle_ms >= PULL_EMIT_INTERVAL_MS || succeeded {
            Some(
                PullProgressModel {
                    progress: pull_percent_of(s.completed, s.total),
                    message: pull_text(s),
                },
            )
        } else {
            None
        },
        succeeded,
    )
}

/// Decides what follows from a status that arrives `idle_ms` milliseconds
/// after the last report.
pub fn pull_step(s: &PullStatus, idle_ms: u64) -> (step: PullStep)
    ensures
        (
            match step.report {
                Some(p) => Some(p@),
                None => None,
            },
            step.succeeded,
        ) == pull_step_of(s@, idle_ms),
{
    let succeeded = same_text(s.status.as_str(), "success");
    let report = if idle_ms >= PULL_EMIT_INTERVAL_MS || succeeded {
        Some(
            PullProgressPayload {
                progress: pull_percent(s.completed, s.total),
                message: pull_message(s),
            },
        )
    } else {
        None
    };
    PullStep { report, succeeded }
}

/// The report that closes a successful pull.
pub fn pull_completed() -> (p: PullProgressPayload)
    ensures
        p@ == (PullProgressModel { progress: 100, message: "Модель загружена"@ }),
{
    PullProgressPayload { progress: 100, message: String::from_str("Модель загружена") }
}

/// The error of a pull whose stream ended without a success.
pub fn pull_ended_early() -> (m: String)
    ensures
        m@ == "Поток загрузки модели завершился без статуса успеха"@,
{
    String::from_str("Поток загрузки модели завершился без статуса успеха")
}

/// The lines of `s` that end in a line feed, and what follows the last line
/// feed.
pub open spec fn line_scan(s: Seq<char>) -> (Seq<Seq<char>>, Seq<char>)
    decreases s.len(),
{
    if s.len() == 0 {
        (Seq::empty(), Seq::empty())
    } else {
        let before = line_scan(s.drop_last());
        if s.last() == '\n' {
            (before.0.push(before.1), Seq::empty())
        } else {
            (before.0, before.1.push(s.last()))
        }
    }
}

/// The lines of `lines` that hold more than white space, each without the
/// white space around it.
pub open spec fn nonblank(lines: Seq<Seq<char>>) -> Seq<Seq<char>>
    decreases lines.len(),
{
    if lines.len() == 0 {
        Seq::empty()
    } else if trimmed(lines.last()).len() > 0 {
        nonblank(lines.drop_last()).push(trimmed(lines.last()))
    } else {
        nonblank(lines.drop_last())
    }
}

/// The status lines that a chunk of the pull stream holds: its lines, cut
/// at line feeds, without surrounding white space and without the blank
/// ones.
pub open spec fn pull_lines_of(chunk: Seq<char>) -> Seq<Seq<char>> {
    nonblank(line_scan(chunk).0.push(line_scan(chunk).1))
}

/// Cuts a chunk of the pull stream into its status lines.
pub fn pull_lines(chunk: &str) -> (lines: Vec<String>)
    ensures
        texts(lines@) == pull_lines_of(chunk@),
{
    let v = to_chars(chunk);
    let mut lines: Vec<String> = Vec::new();
    let mut start: usize = 0;
    let mut i: usize = 0;
    assert(texts(lines@) =~= Seq::<Seq<char>>::empty());
    assert(v@.take(0) =~= Seq::<char>::empty());
    assert(v@.subrange(0, 0) =~= Seq::<char>::empty());
    while i < v.len()
        invariant
            start <= i <= v.len(),
            texts(lines@) == nonblank(line_scan(v@.take(i as int)).0),
            line_scan(v@.take(i as int)).1 == v@.subrange(start as int, i as int),
        decreases v.len() - i,
    {
        let ghost upto = v@.take(i + 1);
        let ghost before = line_scan(v@.take(i as int));
        proof {
            assert(upto.drop_last() =~= v@.take(i as int));
            assert(upto.last() == v@[i as int]);
        }
        if v[i] == '\n' {
            let raw = text_of_range(&v, start, i);
            let line = trim(raw.as_str());
            let ghost old_lines = texts(lines@);
            proof {
                assert(before.0.push(before.1).drop_last() =~= before.0);
            }
            if line.as_str().unicode_len() > 0 {
                lines.push(line);
                assert(texts(lines@) =~= old_lines.push(trimmed(before.1)));
            }
            start = i + 1;
            assert(v@.subrange(start as int, i + 1) =~= Seq::<char>::empty());
        } else {
            assert(v@.subrange(start as int, i + 1) =~= before.1.push(v@[i as int]));
        }
        i = i + 1;
    }
    assert(v@.take(v.len() as int) =~= v@);
    let ghost done = line_scan(v@);
    let raw = text_of_range(&v, start, v.len());
    let line = trim(raw.as_str());
    let ghost old_lines = texts(lines@);
    proof {
        assert(done.0.push(done.1).drop_last() =~= done.0);
    }
    if line.as_str().unicode_len() > 0 {
        lines.push(line);
        assert(texts(lines@) =~= old_lines.push(trimmed(done.1)));
    }
    lines
}

} // verus!
