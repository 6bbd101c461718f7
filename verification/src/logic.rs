//! Supervision of one download: what its process is started with, and what
//! its output means.

use vstd::prelude::*;
use crate::text::{
    all_digits, chars_of, check_digit, decimal_value, digit_value, is_blank, is_digit, lines_of,
    lemma_blank_trims_to_nothing, prefixed, rows, split_chars, split_lines, split_on, trim_chars,
    value_of_digit,
};
use crate::types::{Feedback, Message, Percent};

verus! {

/// What a search for `pattern` in `haystack` captures: `None` where the
/// pattern is no valid expression or matches nowhere; else, for the leftmost
/// match, the text of each capture group in the order of their opening
/// brackets, the whole match first, with `None` for a group that took no
/// part in the match.
pub uninterp spec fn regex_captures(pattern: Seq<char>, haystack: Seq<char>) -> Option<
    Seq<Option<Seq<char>>>,
>;

/// The texts of captured groups, each as its characters.
pub open spec fn group_texts(groups: Seq<Option<String>>) -> Seq<Option<Seq<char>>> {
    Seq::new(
        groups.len(),
        |i: int|
            match groups[i] {
                Some(t) => Some(t@),
                None => None,
            },
    )
}

/// What was captured, each text as its characters.
pub open spec fn captures_view(found: Option<Vec<Option<String>>>) -> Option<
    Seq<Option<Seq<char>>>,
> {
    match found {
        Some(groups) => Some(group_texts(groups@)),
        None => None,
    }
}

/// Searches `haystack` for `pattern` with `Regex::captures` of the regex
/// crate, after compiling the pattern with `Regex::new`. The contract only
/// names the outcome: it is a function of the two texts.
#[verifier::external_body]
pub(crate) fn find_captures(pattern: &str, haystack: &str) -> (found: Option<Vec<Option<String>>>)
    ensures
        captures_view(found) == regex_captures(pattern@, haystack@),
{
    let re = regex::Regex::new(pattern).ok()?;
    let caps = re.captures(haystack)?;
    Some(caps.iter().map(|m| m.map(|t| t.as_str().to_owned())).collect())
}

/// `v`, or the largest machine number if `v` is larger still.
pub open spec fn saturate(v: nat) -> u64 {
    if v > u64::MAX {
        u64::MAX
    } else {
        v as u64
    }
}

/// The thousandths that the digits after a decimal point write: the first
/// three of them count, and missing ones are zeros.
pub open spec fn fraction_thousandths(frac: Seq<char>) -> nat {
    decimal_value((frac + seq!['0', '0', '0']).subrange(0, 3))
}

/// Whether `s` writes a decimal number: digits, or digits, a point and
/// digits.
pub open spec fn is_decimal_text(s: Seq<char>) -> bool {
    let p = split_on(s, '.');
    ||| p.len() == 1 && p[0].len() > 0 && all_digits(p[0])
    ||| p.len() == 2 && p[0].len() > 0 && all_digits(p[0]) && p[1].len() > 0 && all_digits(p[1])
}

/// The number that a decimal text writes, in thousandths; digits after the
/// third behind the point are dropped.
pub open spec fn thousandths_of(s: Seq<char>) -> nat {
    let p = split_on(s, '.');
    decimal_value(p[0]) * 1000 + if p.len() == 2 {
        fraction_thousandths(p[1])
    } else {
        0
    }
}

/// The percentage that `s` writes, if it writes a decimal number; a number
/// too large for the machine counts as the largest.
pub open spec fn percent_of_text(s: Seq<char>) -> Option<Percent> {
    if is_decimal_text(s) {
        Some(Percent { thousandths: saturate(thousandths_of(s)) })
    } else {
        None
    }
}

/// Three digits write hundreds, tens and ones.
proof fn lemma_three_digits(t: Seq<char>)
    requires
        t.len() == 3,
    ensures
        decimal_value(t) == 100 * digit_value(t[0]) + 10 * digit_value(t[1]) + digit_value(t[2]),
{
    let t2 = t.drop_last();
    let t1 = t2.drop_last();
    let t0 = t1.drop_last();
    assert(t0.len() == 0);
    assert(decimal_value(t0) == 0);
    assert(decimal_value(t1) == 10 * decimal_value(t0) + digit_value(t1.last()));
    assert(decimal_value(t2) == 10 * decimal_value(t1) + digit_value(t2.last()));
    assert(decimal_value(t) == 10 * decimal_value(t2) + digit_value(t.last()));
}

/// The number that the digits of `s` write, capped at the largest machine
/// number; `None` if `s` holds anything but digits.
fn digits_saturating(s: &Vec<char>) -> (r: Option<u64>)
    ensures
        r is Some <==> all_digits(s@),
        r is Some ==> r->0 == saturate(decimal_value(s@)),
{
    let mut acc: u64 = 0;
    let mut over: bool = false;
    let mut i: usize = 0;
    while i < s.len()
        invariant
            i <= s.len(),
            all_digits(s@.subrange(0, i as int)),
            !over ==> acc == decimal_value(s@.subrange(0, i as int)),
            over ==> decimal_value(s@.subrange(0, i as int)) > u64::MAX,
        decreases s.len() - i,
    {
        let c = s[i];
        proof {
            assert(s@.subrange(0, i + 1).drop_last() =~= s@.subrange(0, i as int));
            assert(s@.subrange(0, i + 1).last() == c);
        }
        if !check_digit(c) {
            assert(!all_digits(s@)) by {
                assert(!is_digit(s@[i as int]));
            }
            return None;
        }
        if !over {
            let d = value_of_digit(c) as u64;
            let next = match acc.checked_mul(10) {
                Some(m) => m.checked_add(d),
                None => None,
            };
            match next {
                Some(v) => {
                    acc = v;
                },
                None => {
                    over = true;
                },
            }
        }
        assert(all_digits(s@.subrange(0, i + 1))) by {
            assert forall|j: int| 0 <= j < i + 1 implies is_digit(
                #[trigger] s@.subrange(0, i + 1)[j],
            ) by {
                if j < i {
                    assert(s@.subrange(0, i as int)[j] == s@[j]);
                }
            }
        }
        i += 1;
    }
    assert(s@.subrange(0, s.len() as int) =~= s@);
    if over {
        Some(u64::MAX)
    } else {
        Some(acc)
    }
}

/// The thousandths written by the digits `frac` that follow a decimal point.
fn fraction_of(frac: &Vec<char>) -> (r: u64)
    requires
        all_digits(frac@),
    ensures
        r == fraction_thousandths(frac@),
        r <= 999,
{
    let d0: u64 = if frac.len() > 0 {
        value_of_digit(frac[0]) as u64
    } else {
        0
    };
    let d1: u64 = if frac.len() > 1 {
        value_of_digit(frac[1]) as u64
    } else {
        0
    };
    let d2: u64 = if frac.len() > 2 {
        value_of_digit(frac[2]) as u64
    } else {
        0
    };
    proof {
        let t = (frac@ + seq!['0', '0', '0']).subrange(0, 3);
        lemma_three_digits(t);
        assert(digit_value('0') == 0);
    }
    100 * d0 + 10 * d1 + d2
}

/// Reads a percentage from its decimal text, as `percent_of_text` says.
pub fn parse_percent(text: &str) -> (r: Option<Percent>)
    ensures
        r == percent_of_text(text@),
{
    let chars = chars_of(text);
    let p = split_chars(&chars, '.');
    assert(forall|i: int| 0 <= i < p@.len() ==> rows(p@)[i] == #[trigger] p@[i]@);
    if p.len() != 1 && p.len() != 2 {
        return None;
    }
    if p[0].len() == 0 {
        return None;
    }
    let whole = match digits_saturating(&p[0]) {
        Some(w) => w,
        None => {
            return None;
        },
    };
    let frac: u64 = if p.len() == 2 {
        if p[1].len() == 0 {
            return None;
        }
        match digits_saturating(&p[1]) {
            Some(_) => fraction_of(&p[1]),
            None => {
                return None;
            },
        }
    } else {
        0
    };
    let total = match whole.checked_mul(1000) {
        Some(m) => m.checked_add(frac),
        None => None,
    };
    match total {
        Some(t) => Some(Percent { thousandths: t }),
        None => Some(Percent { thousandths: u64::MAX }),
    }
}

/// One progress observation: how far, how much in all, how fast.
#[derive(Debug, Clone, PartialEq, Eq)]
pub struct Progress {
    pub percent: Percent,
    pub size: String,
    pub speed: String,
}

/// A `Progress` with each text as its characters.
pub struct ProgressView {
    pub percent: Percent,
    pub size: Seq<char>,
    pub speed: Seq<char>,
}

impl View for Progress {
    type V = ProgressView;

    open spec fn view(&self) -> ProgressView {
        ProgressView { percent: self.percent, size: self.size@, speed: self.speed@ }
    }
}

/// What an optional observation holds.
pub open spec fn progress_view(p: Option<Progress>) -> Option<ProgressView> {
    match p {
        Some(p) => Some(p@),
        None => None,
    }
}

/// The expression that a progress line of the download tool matches: a
/// percentage, `of` and a size, and optionally `at` and a speed.
pub const PROGRESS_PATTERN: &'static str =
    r"(\d+(?:\.\d+)?)%\s+of\s+([~0-9a-zA-Z\.]+)(?:\s+at\s+([0-9a-zA-Z\./]+))?";

/// The text of group `i`, if there is such a group and it took part in the
/// match.
pub open spec fn group_at(groups: Seq<Option<Seq<char>>>, i: int) -> Option<Seq<char>> {
    if 0 <= i < groups.len() {
        groups[i]
    } else {
        None
    }
}

/// The text of group `i`, or `?` where `group_at` has none.
pub open spec fn group_or_unknown(groups: Seq<Option<Seq<char>>>, i: int) -> Seq<char> {
    match group_at(groups, i) {
        Some(t) => t,
        None => "?"@,
    }
}

/// The observation that the captures of a progress line stand for: none
/// without a match, without the percentage group, or where that group
/// writes no decimal number; else the percentage of group 1, the size of
/// group 2 and the speed of group 3, each of the two `?` if it is missing.
pub open spec fn progress_of_captures(found: Option<Seq<Option<Seq<char>>>>) -> Option<
    ProgressView,
> {
    match found {
        None => None,
        Some(groups) => match group_at(groups, 1) {
            None => None,
            Some(text) => match percent_of_text(text) {
                None => None,
                Some(percent) => Some(
                    ProgressView {
                        percent,
                        size: group_or_unknown(groups, 2),
                        speed: group_or_unknown(groups, 3),
                    },
                ),
            },
        },
    }
}

/// A copy of the text of group `i`, or `?`.
fn group_text(groups: &Vec<Option<String>>, i: usize) -> (r: String)
    ensures
        r@ == group_or_unknown(group_texts(groups@), i as int),
{
    if i < groups.len() {
        match &groups[i] {
            Some(t) => t.clone(),
            None => "?".to_owned(),
        }
    } else {
        "?".to_owned()
    }
}

/// Turns what was captured from a progress line into an observation, as
/// `progress_of_captures` says.
pub fn progress_from_captures(found: &Option<Vec<Option<String>>>) -> (r: Option<Progress>)
    ensures
        progress_view(r) == progress_of_captures(captures_view(*found)),
{
    match found {
        None => None,
        Some(groups) => {
            if groups.len() <= 1 {
                return None;
            }
            match &groups[1] {
                None => None,
                Some(text) => match parse_percent(text.as_str()) {
                    None => None,
                    Some(percent) => Some(
                        Progress {
                            percent,
                            size: group_text(groups, 2),
                            speed: group_text(groups, 3),
                        },
                    ),
                },
            }
        },
    }
}

/// Reads one line of the download tool's output: the observation that the
/// line's captures under `PROGRESS_PATTERN` stand for, or `None` for a line
/// that reports no progress.
pub fn parse_progress_line(line: &str) -> (r: Option<Progress>)
    ensures
        progress_view(r) == progress_of_captures(regex_captures(PROGRESS_PATTERN@, line@)),
{
    let found = find_captures(PROGRESS_PATTERN, line);
    progress_from_captures(&found)
}

/// What is reported when a download failed and left no message.
pub open spec fn unknown_failure() -> Seq<char> {
    "Unknown error (Non-zero exit)"@
}

/// The last line of `lines` that is not empty, or the empty text if there
/// is none.
pub open spec fn last_nonempty(lines: Seq<Seq<char>>) -> Seq<char>
    decreases lines.len(),
{
    if lines.len() == 0 {
        Seq::empty()
    } else if lines.last().len() > 0 {
        lines.last()
    } else {
        last_nonempty(lines.drop_last())
    }
}

/// The reason given for a failed download whose error output was
/// `error_text`: its last line that is not empty, or a fixed text where the
/// output holds nothing but white space.
pub open spec fn reason_of(error_text: Seq<char>) -> Seq<char> {
    if is_blank(error_text) {
        unknown_failure()
    } else {
        last_nonempty(lines_of(error_text))
    }
}

/// Derives the reason of a failure from the error output of the process, as
/// `reason_of` says.
pub fn failure_reason(error_text: &str) -> (r: String)
    ensures
        r@ == reason_of(error_text@),
{
    let chars = chars_of(error_text);
    let kept = trim_chars(&chars);
    proof {
        lemma_blank_trims_to_nothing(chars@);
    }
    if kept.len() == 0 {
        return "Unknown error (Non-zero exit)".to_owned();
    }
    let lines = split_lines(&chars);
    let mut i: usize = lines.len();
    assert(rows(lines@).subrange(0, i as int) =~= rows(lines@));
    while i > 0
        invariant
            i <= lines.len(),
            !is_blank(error_text@),
            rows(lines@) == lines_of(error_text@),
            last_nonempty(rows(lines@)) == last_nonempty(rows(lines@).subrange(0, i as int)),
        decreases i,
    {
        proof {
            let head = rows(lines@).subrange(0, i as int);
            assert(head.last() == lines@[i - 1]@);
            assert(head.drop_last() =~= rows(lines@).subrange(0, i - 1));
            assert(last_nonempty(head) == if head.last().len() > 0 {
                head.last()
            } else {
                last_nonempty(head.drop_last())
            });
        }
        if lines[i - 1].len() > 0 {
            return crate::text::string_of(&lines[i - 1]);
        }
        i -= 1;
    }
    proof {
        assert(rows(lines@).subrange(0, 0).len() == 0);
    }
    String::new()
}

/// Where the supervision of one download stands.
#[derive(Debug, Clone, Copy, PartialEq, Eq, Structural)]
pub enum SupervisorState {
    /// The process is to be started.
    Starting,
    /// The process runs and its output is read.
    Running,
    /// The download has ended; nothing more is reported.
    Finished,
}

/// What the supervisor of a download is told about its process.
#[derive(Debug, Clone, PartialEq, Eq)]
pub enum ProcessEvent {
    /// The process was started.
    Started,
    /// The process could not be started; the text says why.
    StartFailed(String),
    /// The process printed this line.
    Line(String),
    /// Reading the output failed; the text says why.
    ReadFailed(String),
    /// The output ended and the process was waited for: whether it exited
    /// with success, and, if not, all of its error output.
    Exited { success: bool, error_text: String },
}

/// What the caller does next for a download.
#[derive(Debug, Clone, Copy, PartialEq, Eq, Structural)]
pub enum SupervisorAction {
    /// Start the process and report `Started` or `StartFailed`.
    Start,
    /// Read the next line and report `Line`, `ReadFailed` or, at the end of
    /// the output, `Exited`.
    Read,
    /// Nothing, ever.
    Rest,
}

/// What the supervisor of job `id` reports for a line of output: the
/// progress that the line shows, or nothing.
pub open spec fn line_feedback(id: usize, line: Seq<char>) -> Feedback {
    match progress_of_captures(regex_captures(PROGRESS_PATTERN@, line)) {
        Some(p) => Feedback::Progress { id, percent: p.percent, speed: p.speed, size: p.size },
        None => Feedback::Ignore,
    }
}

/// What the supervisor of job `id` reports on `event` in `state`, and the
/// state it is in afterwards.
///
/// Starting: a start reports zero progress and runs; a failed start
/// reports the failure and ends. Running: a line reports its progress, if
/// any; a failed read reports the failure and ends; an exit reports success
/// or the reason of the failure and ends. Finished: nothing is reported and
/// nothing changes. An event that does not fit the state is passed over.
pub open spec fn supervised(id: usize, state: SupervisorState, event: ProcessEvent) -> (
    Feedback,
    SupervisorState,
) {
    match state {
        SupervisorState::Starting => match event {
            ProcessEvent::Started => (
                Feedback::Progress {
                    id,
                    percent: Percent { thousandths: 0 },
                    speed: Seq::empty(),
                    size: Seq::empty(),
                },
                SupervisorState::Running,
            ),
            ProcessEvent::StartFailed(why) => (
                Feedback::Failed { id, reason: "Startup Fail: "@ + why@ },
                SupervisorState::Finished,
            ),
            _ => (Feedback::Ignore, SupervisorState::Starting),
        },
        SupervisorState::Running => match event {
            ProcessEvent::Line(line) => (line_feedback(id, line@), SupervisorState::Running),
            ProcessEvent::ReadFailed(why) => (
                Feedback::Failed { id, reason: "IO Error: "@ + why@ },
                SupervisorState::Finished,
            ),
            ProcessEvent::Exited { success, error_text } => if success {
                (Feedback::Finished { id }, SupervisorState::Finished)
            } else {
                (Feedback::Failed { id, reason: reason_of(error_text@) }, SupervisorState::Finished)
            },
            _ => (Feedback::Ignore, SupervisorState::Running),
        },
        SupervisorState::Finished => (Feedback::Ignore, SupervisorState::Finished),
    }
}

impl SupervisorState {
    /// What the caller does next in this state.
    pub fn action(&self) -> (r: SupervisorAction)
        ensures
            r == match *self {
                SupervisorState::Starting => SupervisorAction::Start,
                SupervisorState::Running => SupervisorAction::Read,
                SupervisorState::Finished => SupervisorAction::Rest,
            },
    {
        match self {
            SupervisorState::Starting => SupervisorAction::Start,
            SupervisorState::Running => SupervisorAction::Read,
            SupervisorState::Finished => SupervisorAction::Rest,
        }
    }
}

/// The message for an optional observation of job `id`.
pub fn progress_message(id: usize, seen: Option<Progress>) -> (m: Message)
    ensures
        m.feedback() == match progress_view(seen) {
            Some(p) => Feedback::Progress { id, percent: p.percent, speed: p.speed, size: p.size },
            None => Feedback::Ignore,
        },
{
    match seen {
        Some(p) => Message::DownloadProgress(id, p.percent, p.speed, p.size),
        None => Message::Ignore,
    }
}

/// One step of the supervision of job `id`: takes in what happened to the
/// process and gives the message for the queue and the next state, as
/// `supervised` says.
pub fn supervise(id: usize, state: SupervisorState, event: ProcessEvent) -> (r: (
    Message,
    SupervisorState,
))
    ensures
        r.0.feedback() == supervised(id, state, event).0,
        r.1 == supervised(id, state, event).1,
{
    match state {
        SupervisorState::Starting => match event {
            ProcessEvent::Started => (
                Message::DownloadProgress(id, Percent::zero(), String::new(), String::new()),
                SupervisorState::Running,
            ),
            ProcessEvent::StartFailed(why) => (
                Message::DownloadFailed(id, prefixed("Startup Fail: ", why.as_str())),
                SupervisorState::Finished,
            ),
            _ => (Message::Ignore, SupervisorState::Starting),
        },
        SupervisorState::Running => match event {
            ProcessEvent::Line(line) => (
                progress_message(id, parse_progress_line(line.as_str())),
                SupervisorState::Running,
            ),
            ProcessEvent::ReadFailed(why) => (
                Message::DownloadFailed(id, prefixed("IO Error: ", why.as_str())),
                SupervisorState::Finished,
            ),
            ProcessEvent::Exited { success, error_text } => if success {
                (Message::DownloadFinished(id), SupervisorState::Finished)
            } else {
                (
                    Message::DownloadFailed(id, failure_reason(error_text.as_str())),
                    SupervisorState::Finished,
                )
            },
            _ => (Message::Ignore, SupervisorState::Running),
        },
        SupervisorState::Finished => (Message::Ignore, SupervisorState::Finished),
    }
}

/// The end is final: a supervisor that has finished reports nothing and
/// stays finished, whatever it is told.
pub proof fn lemma_finished_is_absorbing(id: usize, event: ProcessEvent)
    ensures
        supervised(id, SupervisorState::Finished, event) == (
            Feedback::Ignore,
            SupervisorState::Finished,
        ),
{
}

} // verus!
