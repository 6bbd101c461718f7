//! What an analysis of an address reports, and what it means for the queue.

use vstd::prelude::*;
use crate::text::prefixed;

verus! {

/// One entry of a playlist as the analysis describes it.
#[derive(Debug, Clone, PartialEq, Eq)]
pub struct ProbeEntry {
    pub id: Option<String>,
    pub title: Option<String>,
}

/// The description that an analysis gives of an address: the fields that
/// the engine reads, each absent where the description has no such field of
/// the right kind.
#[derive(Debug, Clone, PartialEq, Eq)]
pub struct ProbeReport {
    pub is_live: Option<bool>,
    pub webpage_url: Option<String>,
    pub url: Option<String>,
    pub title: Option<String>,
    pub entries: Option<Vec<ProbeEntry>>,
}

/// An optional text as its characters.
pub open spec fn text_view(t: Option<String>) -> Option<Seq<char>> {
    match t {
        Some(t) => Some(t@),
        None => None,
    }
}

/// A `ProbeEntry` with each text as its characters.
pub struct EntryView {
    pub id: Option<Seq<char>>,
    pub title: Option<Seq<char>>,
}

impl View for ProbeEntry {
    type V = EntryView;

    open spec fn view(&self) -> EntryView {
        EntryView { id: text_view(self.id), title: text_view(self.title) }
    }
}

/// A `ProbeReport` with each text as its characters.
pub struct ReportView {
    pub is_live: Option<bool>,
    pub webpage_url: Option<Seq<char>>,
    pub url: Option<Seq<char>>,
    pub title: Option<Seq<char>>,
    pub entries: Option<Seq<EntryView>>,
}

impl View for ProbeReport {
    type V = ReportView;

    open spec fn view(&self) -> ReportView {
        ReportView {
            is_live: self.is_live,
            webpage_url: text_view(self.webpage_url),
            url: text_view(self.url),
            title: text_view(self.title),
            entries: match self.entries {
                Some(e) => Some(Seq::new(e@.len(), |i: int| e@[i]@)),
                None => None,
            },
        }
    }
}

/// The outcome of reading a description, as plain values.
pub open spec fn reading_view(r: Result<ProbeReport, String>) -> Result<ReportView, Seq<char>> {
    match r {
        Ok(report) => Ok(report@),
        Err(e) => Err(e@),
    }
}

/// What reading `text` as a JSON description gives: the fields `is_live`
/// (a boolean), `webpage_url`, `url`, `title` (strings) and `entries` (an
/// array, of each element the strings `id` and `title`) of a text that is
/// valid JSON, or the parser's message for one that is not.
pub uninterp spec fn json_description(text: Seq<char>) -> Result<ReportView, Seq<char>>;

/// Reads a description with `serde_json::from_str` and picks the fields with
/// `Value::get`, `as_bool`, `as_str` and `as_array`; an error of the parser
/// is handed on as its text. The contract only names the outcome: it is a
/// function of the text.
#[verifier::external_body]
fn read_description(text: &str) -> (r: Result<ProbeReport, String>)
    ensures
        reading_view(r) == json_description(text@),
{
    let v: serde_json::Value = serde_json::from_str(text).map_err(|e| e.to_string())?;
    let s = |x: &serde_json::Value, k: &str| x.get(k).and_then(|y| y.as_str()).map(String::from);
    let entries = v.get("entries").and_then(|y| y.as_array());
    Ok(ProbeReport {
        is_live: v.get("is_live").and_then(|y| y.as_bool()),
        webpage_url: s(&v, "webpage_url"),
        url: s(&v, "url"),
        title: s(&v, "title"),
        entries: entries.map(|a| a.iter().map(|e| ProbeEntry { id: s(e, "id"), title: s(e, "title") }).collect()),
    })
}

/// How the process that analyses an address ended.
#[derive(Debug, Clone, PartialEq, Eq)]
pub enum ProbeRun {
    /// The process could not be run; the text says why.
    Unstarted(String),
    /// The process ran and left this output.
    Exited { success: bool, stdout: String, stderr: String },
}

/// What an analysis run yields: the description that a successful run
/// printed, or an error text: why the process could not be run, the error
/// output of a run that failed, or why its output is no JSON.
pub open spec fn run_result(run: ProbeRun) -> Result<ReportView, Seq<char>> {
    match run {
        ProbeRun::Unstarted(why) => Err("Execution failed: "@ + why@),
        ProbeRun::Exited { success, stdout, stderr } => if !success {
            Err(stderr@)
        } else {
            description_result(json_description(stdout@))
        },
    }
}

/// The outcome of reading a description, with the parser's message marked
/// as such.
pub open spec fn description_result(read: Result<ReportView, Seq<char>>) -> Result<
    ReportView,
    Seq<char>,
> {
    match read {
        Ok(report) => Ok(report),
        Err(why) => Err("JSON Parse Error: "@ + why),
    }
}

/// Marks the parser's message of a failed reading, as `description_result`
/// says.
pub fn mark_reading(read: Result<ProbeReport, String>) -> (r: Result<ProbeReport, String>)
    ensures
        reading_view(r) == description_result(reading_view(read)),
{
    match read {
        Ok(report) => Ok(report),
        Err(why) => Err(prefixed("JSON Parse Error: ", why.as_str())),
    }
}

/// Turns the end of an analysis run into a description or an error text,
/// as `run_result` says.
pub fn read_analysis(run: &ProbeRun) -> (r: Result<ProbeReport, String>)
    ensures
        reading_view(r) == run_result(*run),
{
    match run {
        ProbeRun::Unstarted(why) => Err(prefixed("Execution failed: ", why.as_str())),
        ProbeRun::Exited { success, stdout, stderr } => {
            if !*success {
                Err(stderr.clone())
            } else {
                mark_reading(read_description(stdout.as_str()))
            }
        },
    }
}

/// One video to enqueue.
#[derive(Debug, Clone, PartialEq, Eq)]
pub struct Found {
    pub url: String,
    pub title: String,
}

/// A `Found` with each text as its characters.
pub struct FoundView {
    pub url: Seq<char>,
    pub title: Seq<char>,
}

impl View for Found {
    type V = FoundView;

    open spec fn view(&self) -> FoundView {
        FoundView { url: self.url@, title: self.title@ }
    }
}

/// What a description means for the queue.
#[derive(Debug, Clone, PartialEq, Eq)]
pub enum Analysis {
    /// A live stream at this address: nothing is enqueued until it is
    /// decided from where to record.
    Live(String),
    /// A playlist: its videos, in order.
    Playlist(Vec<Found>),
    /// One video.
    Single(Found),
}

/// An `Analysis` as plain values.
pub enum AnalysisView {
    Live(Seq<char>),
    Playlist(Seq<FoundView>),
    Single(FoundView),
}

/// The videos of a vector as plain values, in order.
pub open spec fn found_views(v: Seq<Found>) -> Seq<FoundView> {
    Seq::new(v.len(), |i: int| v[i]@)
}

impl View for Analysis {
    type V = AnalysisView;

    open spec fn view(&self) -> AnalysisView {
        match self {
            Analysis::Live(url) => AnalysisView::Live(url@),
            Analysis::Playlist(videos) => AnalysisView::Playlist(found_views(videos@)),
            Analysis::Single(video) => AnalysisView::Single(video@),
        }
    }
}

/// The address under which a video with the given id is watched.
pub open spec fn watch_url(id: Seq<char>) -> Seq<char> {
    "https://www.youtube.com/watch?v="@ + id
}

/// `t` if there is one, else `fallback`.
pub open spec fn text_or(t: Option<Seq<char>>, fallback: Seq<char>) -> Seq<char> {
    match t {
        Some(t) => t,
        None => fallback,
    }
}

/// The videos of a playlist: one for each entry that has an id, in order,
/// under its watch address and its title, or `Unknown Title`.
pub open spec fn playlist_videos(entries: Seq<EntryView>) -> Seq<FoundView>
    decreases entries.len(),
{
    if entries.len() == 0 {
        Seq::empty()
    } else {
        let before = playlist_videos(entries.drop_last());
        match entries.last().id {
            Some(id) => before.push(
                FoundView {
                    url: watch_url(id),
                    title: text_or(entries.last().title, "Unknown Title"@),
                },
            ),
            None => before,
        }
    }
}

/// The address of the page that a description is about: its `webpage_url`,
/// else its `url`.
pub open spec fn page_of(report: ReportView) -> Option<Seq<char>> {
    if report.webpage_url is Some {
        report.webpage_url
    } else {
        report.url
    }
}

/// Whether a description is that of a live stream with a known address.
pub open spec fn is_live_page(report: ReportView) -> bool {
    report.is_live == Some(true) && page_of(report) is Some
}

/// What a description means: a live stream if it says so and gives an
/// address; else a playlist if it has entries; else one video, under the
/// page's address or, failing that, the address that was asked for, and
/// under its title or `Video`.
pub open spec fn meaning(report: ReportView, asked: Seq<char>) -> AnalysisView {
    if is_live_page(report) {
        AnalysisView::Live(page_of(report)->0)
    } else {
        match report.entries {
            Some(entries) => AnalysisView::Playlist(playlist_videos(entries)),
            None => AnalysisView::Single(
                FoundView {
                    url: text_or(page_of(report), asked),
                    title: text_or(report.title, "Video"@),
                },
            ),
        }
    }
}

/// A copy of `t`, or of `fallback` where there is none.
fn copy_or(t: &Option<String>, fallback: &str) -> (r: String)
    ensures
        r@ == text_or(text_view(*t), fallback@),
{
    match t {
        Some(t) => t.clone(),
        None => fallback.to_owned(),
    }
}

/// The videos of a playlist, as `playlist_videos` says.
fn collect_videos(entries: &Vec<ProbeEntry>) -> (r: Vec<Found>)
    ensures
        found_views(r@) == playlist_videos(Seq::new(entries@.len(), |i: int| entries@[i]@)),
{
    let ghost all = Seq::new(entries@.len(), |i: int| entries@[i]@);
    let mut out: Vec<Found> = Vec::new();
    let mut i: usize = 0;
    assert(found_views(out@) =~= playlist_videos(all.subrange(0, 0)));
    while i < entries.len()
        invariant
            i <= entries.len(),
            all == Seq::new(entries@.len(), |i: int| entries@[i]@),
            found_views(out@) == playlist_videos(all.subrange(0, i as int)),
        decreases entries.len() - i,
    {
        proof {
            let head = all.subrange(0, i + 1);
            assert(head.drop_last() =~= all.subrange(0, i as int));
            assert(head.last() == entries@[i as int]@);
        }
        let entry = &entries[i];
        match &entry.id {
            Some(id) => {
                let video = Found {
                    url: prefixed("https://www.youtube.com/watch?v=", id.as_str()),
                    title: copy_or(&entry.title, "Unknown Title"),
                };
                let ghost old_out = out@;
                out.push(video);
                assert(found_views(out@) =~= found_views(old_out).push(video@));
            },
            None => {},
        }
        i += 1;
    }
    assert(all.subrange(0, entries.len() as int) =~= all);
    out
}

/// Says what a description means for the queue, as `meaning` says; `asked`
/// is the address that was analysed.
pub fn interpret(report: &ProbeReport, asked: &str) -> (r: Analysis)
    ensures
        r@ == meaning(report@, asked@),
{
    let page: &Option<String> = if report.webpage_url.is_some() {
        &report.webpage_url
    } else {
        &report.url
    };
    assert(text_view(*page) == page_of(report@));
    let live = match report.is_live {
        Some(flag) => flag,
        None => false,
    };
    if live {
        match page {
            Some(url) => {
                return Analysis::Live(url.clone());
            },
            None => {},
        }
    }
    match &report.entries {
        Some(entries) => Analysis::Playlist(collect_videos(entries)),
        None => Analysis::Single(
            Found { url: copy_or(page, asked), title: copy_or(&report.title, "Video") },
        ),
    }
}

} // verus!
