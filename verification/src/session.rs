//! The engine as a whole: the scheduler together with the settings and the
//! state of the dialogue with the user, driven by messages.

use vstd::prelude::*;
use crate::analysis::{
    found_views, interpret, meaning, reading_view, Analysis, AnalysisView, Found,
    FoundView, ProbeReport, ReportView,
};
use crate::command::{arg_views, build_download_args, download_args, CmdArg};
use crate::scheduler::{
    keeps_jobs, keeps_proxies, lemma_first_queued_from, lemma_progress_wf,
    lemma_tick_respects_budget, lemma_with_job_wf, Scheduler, SchedulerView,
};
use crate::text::{
    chars_of, decimal_text, is_blank, lemma_blank_trims_to_nothing, number_chars, prefixed,
    string_of,
    trim_chars, trimmed,
};
use crate::tools::{format_proxy, proxy_uri};
use crate::types::{AdvOptions, AppTab, Message, OptionsView};

verus! {

/// What the caller is asked to do after a message was taken in.
#[derive(Debug, Clone, PartialEq, Eq)]
pub enum Command {
    /// Nothing.
    Idle,
    /// Analyse the address, through the proxy if one is given and with the
    /// cookie file if one is set, and answer with `AnalysisFinished`.
    Analyze { url: String, proxy: Option<String> },
    /// Let the user pick a cookie file and answer with `CookieFilePicked`.
    PickCookieFile,
    /// Let the user pick a directory and answer with `OutputDirPicked`.
    PickOutputDir,
    /// Let the user pick a file, read it and answer with `ProxyListLoaded`.
    PickProxyList,
    /// Bring the tools up to date and answer with `ToolInstalled`.
    UpdateTools,
    /// Send the engine `CheckForUpdates`.
    CheckForUpdates,
}

/// A `Command` as plain values.
pub enum CommandView {
    Idle,
    Analyze { url: Seq<char>, proxy: Option<Seq<char>> },
    PickCookieFile,
    PickOutputDir,
    PickProxyList,
    UpdateTools,
    CheckForUpdates,
}

impl View for Command {
    type V = CommandView;

    open spec fn view(&self) -> CommandView {
        match self {
            Command::Idle => CommandView::Idle,
            Command::Analyze { url, proxy } => CommandView::Analyze {
                url: url@,
                proxy: match proxy {
                    Some(p) => Some(p@),
                    None => None,
                },
            },
            Command::PickCookieFile => CommandView::PickCookieFile,
            Command::PickOutputDir => CommandView::PickOutputDir,
            Command::PickProxyList => CommandView::PickProxyList,
            Command::UpdateTools => CommandView::UpdateTools,
            Command::CheckForUpdates => CommandView::CheckForUpdates,
        }
    }
}

/// The engine as plain values.
pub struct SessionView {
    pub current_tab: AppTab,
    pub input_url: Seq<char>,
    pub cookie_path: Option<std::path::PathBuf>,
    pub output_dir: std::path::PathBuf,
    pub scheduler: SchedulerView,
    pub max_concurrent_input: Seq<char>,
    pub settings: OptionsView,
    pub tool_status: Seq<char>,
    pub is_analyzing: bool,
    pub modal_live_url: Option<Seq<char>>,
}

/// Whether `c` is numeric: a character of one of the Unicode categories
/// `Nd`, `Nl` and `No`.
pub uninterp spec fn unicode_numeric(c: char) -> bool;

/// Whether every character of `s` is numeric.
pub open spec fn all_numeric(s: Seq<char>) -> bool {
    forall|i: int| 0 <= i < s.len() ==> unicode_numeric(#[trigger] s[i])
}

/// Tests a character with `char::is_numeric` of the standard library. The
/// contract only names the outcome.
#[verifier::external_body]
fn check_numeric(c: char) -> (r: bool)
    ensures
        r == unicode_numeric(c),
{
    c.is_numeric()
}

/// The scheduler with each of `videos` enqueued in order, under `options`.
pub open spec fn enqueue_all(s: SchedulerView, videos: Seq<FoundView>, options: OptionsView) -> SchedulerView
    decreases videos.len(),
{
    if videos.len() == 0 {
        s
    } else {
        enqueue_all(s, videos.drop_last(), options).enqueue(
            videos.last().url,
            videos.last().title,
            options,
        )
    }
}

/// The settings of a live recording: the settings in effect, with the flag
/// that records from the start appended to the free-form arguments where
/// that was chosen.
pub open spec fn live_options(settings: OptionsView, from_start: bool) -> OptionsView {
    if from_start {
        OptionsView { custom_args: settings.custom_args + " --live-from-start"@, ..settings }
    } else {
        settings
    }
}

/// A message's analysis result as plain values.
pub open spec fn result_view(r: Result<String, String>) -> Result<Seq<char>, Seq<char>> {
    match r {
        Ok(t) => Ok(t@),
        Err(e) => Err(e@),
    }
}

/// The settings after `msg`, if it changes a setting.
pub open spec fn setting_changed(o: OptionsView, msg: Message) -> OptionsView {
    match msg {
        Message::AudioFmtChanged(v) => OptionsView { audio_fmt: v, ..o },
        Message::ContainerChanged(v) => OptionsView { container: v, ..o },
        Message::VideoTypeChanged(v) => OptionsView { video_type: v, ..o },
        Message::FilenameStyleChanged(v) => OptionsView { filename_style: v, ..o },
        Message::ToggleEmbedSubs(v) => OptionsView { embed_subs: v, ..o },
        Message::SubLangsChanged(v) => OptionsView { sub_langs: v@, ..o },
        Message::ToggleEmbedMeta(v) => OptionsView { embed_meta: v, ..o },
        Message::ToggleEmbedThumb(v) => OptionsView { embed_thumb: v, ..o },
        Message::ToggleSponsorBlock(v) => OptionsView { sponsorblock: v, ..o },
        Message::PlaylistItemsChanged(v) => OptionsView { playlist_items: v@, ..o },
        Message::RateLimitChanged(v) => OptionsView { rate_limit: v@, ..o },
        Message::CustomArgsChanged(v) => OptionsView { custom_args: v@, ..o },
        _ => o,
    }
}

/// The scheduler after `msg`, if it goes to the scheduler.
pub open spec fn scheduled(s: SchedulerView, msg: Message) -> SchedulerView {
    match msg {
        Message::ManualProxyChanged(t) => SchedulerView { manual: t@, ..s },
        Message::ProxyProtocolChanged(p) => SchedulerView { protocol: p, ..s },
        Message::RetryDownload(id) => s.retry(id),
        Message::CancelDownload(id) => s.cancel(id),
        Message::Tick => s.tick(),
        Message::DownloadProgress(id, percent, speed, size) => s.progress(id, percent, speed@, size@),
        Message::DownloadFinished(id) => s.finished(id),
        Message::DownloadFailed(id, reason) => s.failed(id, reason@),
        Message::ProxyListLoaded(text) => match text {
            Some(t) => SchedulerView { pool: crate::scheduler::pool_of_text(t@), ..s },
            None => s,
        },
        _ => s,
    }
}

impl SessionView {
    /// What holds of every session: its scheduler is well-formed.
    pub open spec fn wf(self) -> bool {
        self.scheduler.wf()
    }

    /// The session at the start, with downloads going to `output_dir`.
    pub open spec fn initial(output_dir: std::path::PathBuf) -> SessionView {
        SessionView {
            current_tab: AppTab::Dashboard,
            input_url: Seq::empty(),
            cookie_path: None,
            output_dir,
            scheduler: SchedulerView::initial(),
            max_concurrent_input: "3"@,
            settings: OptionsView::initial(),
            tool_status: "Initializing..."@,
            is_analyzing: false,
            modal_live_url: None,
        }
    }

    /// Whether a request to add the address is taken up: an address is
    /// entered and no analysis is under way.
    pub open spec fn can_analyze(self) -> bool {
        !is_blank(self.input_url) && !self.is_analyzing
    }

    /// The proxy that an analysis goes through: the manual proxy, if set.
    pub open spec fn analysis_proxy(self) -> Option<Seq<char>> {
        if self.scheduler.manual.len() > 0 {
            Some(proxy_uri(self.scheduler.manual, self.scheduler.protocol.scheme()))
        } else {
            None
        }
    }

    /// The session after a request to add the address that is entered.
    pub open spec fn add_requested(self) -> SessionView {
        if self.can_analyze() {
            SessionView { is_analyzing: true, tool_status: "Analyzing Link..."@, ..self }
        } else {
            self
        }
    }

    /// The session after an analysis ended with `result`. A live stream
    /// waits for the decision from where to record; a playlist's videos and
    /// a single video are enqueued under the settings in effect.
    pub open spec fn analysis_finished(self, result: Result<ReportView, Seq<char>>) -> SessionView {
        let base = SessionView { is_analyzing: false, tool_status: "Analysis Complete"@, ..self };
        match result {
            Err(why) => SessionView { tool_status: "Analysis Failed: "@ + why, ..base },
            Ok(report) => match meaning(report, self.input_url) {
                AnalysisView::Live(url) => SessionView {
                    modal_live_url: Some(url),
                    input_url: Seq::empty(),
                    ..base
                },
                AnalysisView::Playlist(videos) => SessionView {
                    scheduler: enqueue_all(self.scheduler, videos, self.settings),
                    tool_status: "Added "@ + decimal_text(videos.len()) + " videos"@,
                    input_url: Seq::empty(),
                    current_tab: AppTab::Dashboard,
                    ..base
                },
                AnalysisView::Single(video) => SessionView {
                    scheduler: self.scheduler.enqueue(video.url, video.title, self.settings),
                    input_url: Seq::empty(),
                    current_tab: AppTab::Dashboard,
                    ..base
                },
            },
        }
    }

    /// The session after it was decided from where to record the live
    /// stream that waits: exactly one job is enqueued. Without a stream
    /// that waits nothing changes.
    pub open spec fn live_decided(self, from_start: bool) -> SessionView {
        match self.modal_live_url {
            Some(url) => SessionView {
                scheduler: self.scheduler.enqueue(
                    url,
                    "Live Stream"@,
                    live_options(self.settings, from_start),
                ),
                modal_live_url: None,
                current_tab: AppTab::Dashboard,
                ..self
            },
            None => self,
        }
    }

    /// The session after the budget was entered as `text`: a text of
    /// numeric characters is shown and, where it writes a number, applied;
    /// any other text is rejected.
    pub open spec fn limit_entered(self, text: Seq<char>) -> SessionView {
        if all_numeric(text) {
            SessionView {
                max_concurrent_input: text,
                scheduler: self.scheduler.with_limit_text(text),
                ..self
            }
        } else {
            self
        }
    }

    /// The session with other settings.
    pub open spec fn with_settings(self, settings: OptionsView) -> SessionView {
        SessionView { settings, ..self }
    }

    /// The session with another scheduler.
    pub open spec fn with_scheduler(self, scheduler: SchedulerView) -> SessionView {
        SessionView { scheduler, ..self }
    }

    /// The session with another status line.
    pub open spec fn with_status(self, tool_status: Seq<char>) -> SessionView {
        SessionView { tool_status, ..self }
    }

    /// The session after a message of the dialogue with the user.
    pub open spec fn conversed(self, msg: Message) -> SessionView {
        match msg {
            Message::TabChanged(tab) => SessionView { current_tab: tab, ..self },
            Message::UrlChanged(t) => SessionView { input_url: t@, ..self },
            Message::MaxConcurrentChanged(t) => self.limit_entered(t@),
            Message::RequestAddUrl => self.add_requested(),
            Message::AnalysisFinished(result) => self.analysis_finished(reading_view(result)),
            Message::LiveDecision(from_start) => self.live_decided(from_start),
            Message::CloseModal => SessionView { modal_live_url: None, ..self },
            Message::CookieFilePicked(path) => SessionView { cookie_path: path, ..self },
            Message::OutputDirPicked(path) => match path {
                Some(dir) => SessionView { output_dir: dir, ..self },
                None => self,
            },
            Message::CheckForUpdates => self.with_status("Checking updates..."@),
            Message::ToolInstalled(result) => match result {
                Ok(status) => self.with_status(status@),
                Err(why) => self.with_status("Error: "@ + why@),
            },
            _ => self,
        }
    }

    /// The session after `msg` was taken in: a change of a setting changes
    /// the settings, a message for the scheduler changes the scheduler, and
    /// any other message changes the rest as `conversed` says.
    pub open spec fn after(self, msg: Message) -> SessionView {
        if is_setting(msg) {
            self.with_settings(setting_changed(self.settings, msg))
        } else if is_scheduling(msg) {
            self.with_scheduler(scheduled(self.scheduler, msg))
        } else {
            self.conversed(msg)
        }
    }

    /// What the caller is asked to do after `msg` was taken in.
    pub open spec fn command(self, msg: Message) -> CommandView {
        match msg {
            Message::RequestAddUrl => if self.can_analyze() {
                CommandView::Analyze { url: trimmed(self.input_url), proxy: self.analysis_proxy() }
            } else {
                CommandView::Idle
            },
            Message::PickCookieFile => CommandView::PickCookieFile,
            Message::PickOutputDir => CommandView::PickOutputDir,
            Message::PickProxyList => CommandView::PickProxyList,
            Message::CheckForUpdates => CommandView::UpdateTools,
            _ => CommandView::Idle,
        }
    }
}

/// The engine: the scheduler, the settings in effect and the state of the
/// dialogue with the user.
#[derive(Debug)]
pub struct Session {
    pub current_tab: AppTab,
    pub input_url: String,
    pub cookie_path: Option<std::path::PathBuf>,
    pub output_dir: std::path::PathBuf,
    pub scheduler: Scheduler,
    pub max_concurrent_input: String,
    pub settings: AdvOptions,
    pub tool_status: String,
    pub is_analyzing: bool,
    pub modal_live_url: Option<String>,
}

impl View for Session {
    type V = SessionView;

    open spec fn view(&self) -> SessionView {
        SessionView {
            current_tab: self.current_tab,
            input_url: self.input_url@,
            cookie_path: self.cookie_path,
            output_dir: self.output_dir,
            scheduler: self.scheduler@,
            max_concurrent_input: self.max_concurrent_input@,
            settings: self.settings@,
            tool_status: self.tool_status@,
            is_analyzing: self.is_analyzing,
            modal_live_url: match self.modal_live_url {
                Some(url) => Some(url@),
                None => None,
            },
        }
    }
}

/// Whether every character of `text` is numeric.
fn check_all_numeric(text: &str) -> (r: bool)
    ensures
        r == all_numeric(text@),
{
    let chars = chars_of(text);
    let mut i: usize = 0;
    while i < chars.len()
        invariant
            i <= chars.len(),
            chars@ == text@,
            forall|j: int| 0 <= j < i ==> unicode_numeric(#[trigger] text@[j]),
        decreases chars.len() - i,
    {
        if !check_numeric(chars[i]) {
            return false;
        }
        i += 1;
    }
    true
}

impl Session {
    /// Whether the session is in a state that its operations keep up.
    pub open spec fn wf(&self) -> bool {
        self@.wf()
    }

    /// The session at the start, with downloads going to `output_dir`, and
    /// the request to look for updates of the tools.
    pub fn new(output_dir: std::path::PathBuf) -> (r: (Session, Command))
        ensures
            r.0.wf(),
            r.0@ == SessionView::initial(output_dir),
            r.1@ == CommandView::CheckForUpdates,
    {
        (
            Session {
                current_tab: AppTab::Dashboard,
                input_url: String::new(),
                cookie_path: None,
                output_dir,
                scheduler: Scheduler::new(),
                max_concurrent_input: "3".to_owned(),
                settings: AdvOptions::default(),
                tool_status: "Initializing...".to_owned(),
                is_analyzing: false,
                modal_live_url: None,
            },
            Command::CheckForUpdates,
        )
    }

    /// Takes up a request to add the address that is entered.
    fn request_add(&mut self) -> (cmd: Command)
        requires
            old(self).wf(),
        ensures
            final(self).wf(),
            final(self)@ == old(self)@.add_requested(),
            cmd@ == old(self)@.command(Message::RequestAddUrl),
    {
        let url = trim_chars(&chars_of(self.input_url.as_str()));
        proof {
            lemma_blank_trims_to_nothing(self.input_url@);
        }
        if url.len() > 0 && !self.is_analyzing {
            self.is_analyzing = true;
            self.tool_status = "Analyzing Link...".to_owned();
            let proxy = if !self.scheduler.manual_proxy().as_str().is_empty() {
                Some(
                    format_proxy(
                        self.scheduler.manual_proxy().as_str(),
                        self.scheduler.selected_proxy_proto(),
                    ),
                )
            } else {
                None
            };
            Command::Analyze { url: string_of(&url), proxy }
        } else {
            Command::Idle
        }
    }

    /// Enqueues each of `videos` under the settings in effect.
    fn enqueue_videos(&mut self, videos: &Vec<Found>)
        requires
            old(self).wf(),
        ensures
            final(self).wf(),
            final(self)@ == old(self)@.with_scheduler(
                enqueue_all(old(self)@.scheduler, found_views(videos@), old(self)@.settings),
            ),
    {
        let mut i: usize = 0;
        assert(found_views(videos@).subrange(0, 0) =~= Seq::empty());
        while i < videos.len()
            invariant
                i <= videos.len(),
                self.wf(),
                self@ == old(self)@.with_scheduler(
                    enqueue_all(
                        old(self)@.scheduler,
                        found_views(videos@).subrange(0, i as int),
                        old(self)@.settings,
                    ),
                ),
            decreases videos.len() - i,
        {
            proof {
                let head = found_views(videos@).subrange(0, i + 1);
                assert(head.drop_last() =~= found_views(videos@).subrange(0, i as int));
                assert(head.last() == videos@[i as int]@);
            }
            let video = &videos[i];
            self.scheduler.enqueue(video.url.clone(), video.title.clone(), self.settings.snapshot());
            i += 1;
        }
        assert(found_views(videos@).subrange(0, videos.len() as int) =~= found_views(videos@));
    }

    /// Takes in the end of an analysis.
    fn finish_analysis(&mut self, result: Result<ProbeReport, String>)
        requires
            old(self).wf(),
        ensures
            final(self).wf(),
            final(self)@ == old(self)@.analysis_finished(reading_view(result)),
    {
        self.is_analyzing = false;
        self.tool_status = "Analysis Complete".to_owned();
        match result {
            Err(why) => {
                self.tool_status = prefixed("Analysis Failed: ", why.as_str());
            },
            Ok(report) => match interpret(&report, self.input_url.as_str()) {
                Analysis::Live(url) => {
                    self.modal_live_url = Some(url);
                    self.input_url = String::new();
                },
                Analysis::Playlist(videos) => {
                    self.enqueue_videos(&videos);
                    let count = string_of(&number_chars(videos.len() as u64));
                    let mut status = prefixed("Added ", count.as_str());
                    status.append(" videos");
                    self.tool_status = status;
                    self.input_url = String::new();
                    self.current_tab = AppTab::Dashboard;
                },
                Analysis::Single(video) => {
                    self.scheduler.enqueue(video.url, video.title, self.settings.snapshot());
                    self.input_url = String::new();
                    self.current_tab = AppTab::Dashboard;
                },
            },
        }
    }

    /// Takes in the decision from where to record a live stream.
    fn decide_live(&mut self, from_start: bool)
        requires
            old(self).wf(),
        ensures
            final(self).wf(),
            final(self)@ == old(self)@.live_decided(from_start),
    {
        let waiting = self.modal_live_url.take();
        match waiting {
            Some(url) => {
                let mut options = self.settings.snapshot();
                if from_start {
                    options.custom_args.append(" --live-from-start");
                }
                self.scheduler.enqueue(url, "Live Stream".to_owned(), options);
                self.current_tab = AppTab::Dashboard;
            },
            None => {},
        }
    }

    /// Takes in the budget as it was entered.
    fn enter_limit(&mut self, text: String)
        requires
            old(self).wf(),
        ensures
            final(self).wf(),
            final(self)@ == old(self)@.limit_entered(text@),
    {
        if check_all_numeric(text.as_str()) {
            self.scheduler.set_max_concurrent_text(text.as_str());
            self.max_concurrent_input = text;
        }
    }

    /// Takes in a message of the dialogue with the user.
    fn converse(&mut self, message: Message) -> (cmd: Command)
        requires
            old(self).wf(),
            !is_setting(message),
            !is_scheduling(message),
        ensures
            final(self).wf(),
            final(self)@ == old(self)@.after(message),
            cmd@ == old(self)@.command(message),
    {
        match message {
            Message::TabChanged(tab) => {
                self.current_tab = tab;
                Command::Idle
            },
            Message::UrlChanged(text) => {
                self.input_url = text;
                Command::Idle
            },
            Message::MaxConcurrentChanged(text) => {
                self.enter_limit(text);
                Command::Idle
            },
            Message::RequestAddUrl => self.request_add(),
            Message::AnalysisFinished(result) => {
                self.finish_analysis(result);
                Command::Idle
            },
            Message::LiveDecision(from_start) => {
                self.decide_live(from_start);
                Command::Idle
            },
            Message::CloseModal => {
                self.modal_live_url = None;
                Command::Idle
            },
            Message::PickCookieFile => Command::PickCookieFile,
            Message::CookieFilePicked(path) => {
                self.cookie_path = path;
                Command::Idle
            },
            Message::PickOutputDir => Command::PickOutputDir,
            Message::OutputDirPicked(path) => {
                match path {
                    Some(dir) => {
                        self.output_dir = dir;
                    },
                    None => {},
                }
                Command::Idle
            },
            Message::PickProxyList => Command::PickProxyList,
            Message::CheckForUpdates => {
                self.tool_status = "Checking updates...".to_owned();
                Command::UpdateTools
            },
            Message::ToolInstalled(result) => {
                match result {
                    Ok(status) => {
                        self.tool_status = status;
                    },
                    Err(why) => {
                        self.tool_status = prefixed("Error: ", why.as_str());
                    },
                }
                Command::Idle
            },
            _ => Command::Idle,
        }
    }

    /// The argument vector for the download of job `id`, built from the
    /// job's own address, proxy and options and from whether a cookie file
    /// is set; `local_ffmpeg` says whether a local copy of the converter is
    /// present. `None` for an id that names no job.
    pub fn download_args(&self, id: usize, local_ffmpeg: bool) -> (r: Option<Vec<CmdArg>>)
        requires
            self.wf(),
        ensures
            r is Some == self@.scheduler.has_job(id),
            r is Some ==> arg_views(r->0@) == download_args(
                self@.scheduler.queue[id as int].url,
                self@.scheduler.queue[id as int].assigned_proxy,
                self@.cookie_path is Some,
                local_ffmpeg,
                self@.scheduler.queue[id as int].options,
            ),
    {
        match self.scheduler.job(id) {
            Some(job) => Some(
                build_download_args(
                    job.url.as_str(),
                    &job.assigned_proxy,
                    self.cookie_path.is_some(),
                    local_ffmpeg,
                    &job.options,
                ),
            ),
            None => None,
        }
    }

    /// Takes in one message: changes the state as `after` says and asks
    /// the caller for what `command` says.
    pub fn update(&mut self, message: Message) -> (cmd: Command)
        requires
            old(self).wf(),
        ensures
            final(self).wf(),
            final(self)@ == old(self)@.after(message),
            cmd@ == old(self)@.command(message),
    {
        if message.is_setting() {
            change_setting(&mut self.settings, message);
            Command::Idle
        } else if message.is_scheduling() {
            schedule(&mut self.scheduler, message);
            Command::Idle
        } else {
            self.converse(message)
        }
    }
}

/// Whether `message` changes a setting.
pub open spec fn is_setting(message: Message) -> bool {
    message is AudioFmtChanged || message is ContainerChanged || message is VideoTypeChanged
        || message is FilenameStyleChanged || message is ToggleEmbedSubs
        || message is SubLangsChanged || message is ToggleEmbedMeta || message is ToggleEmbedThumb
        || message is ToggleSponsorBlock || message is PlaylistItemsChanged
        || message is RateLimitChanged || message is CustomArgsChanged
}

/// Whether `message` goes to the scheduler.
pub open spec fn is_scheduling(message: Message) -> bool {
    message is ManualProxyChanged || message is ProxyProtocolChanged || message is RetryDownload
        || message is CancelDownload || message is Tick || message is DownloadProgress
        || message is DownloadFinished || message is DownloadFailed || message is ProxyListLoaded
}

impl Message {
    /// Whether the message changes a setting.
    pub fn is_setting(&self) -> (r: bool)
        ensures
            r == is_setting(*self),
    {
        match self {
            Message::AudioFmtChanged(_) => true,
            Message::ContainerChanged(_) => true,
            Message::VideoTypeChanged(_) => true,
            Message::FilenameStyleChanged(_) => true,
            Message::ToggleEmbedSubs(_) => true,
            Message::SubLangsChanged(_) => true,
            Message::ToggleEmbedMeta(_) => true,
            Message::ToggleEmbedThumb(_) => true,
            Message::ToggleSponsorBlock(_) => true,
            Message::PlaylistItemsChanged(_) => true,
            Message::RateLimitChanged(_) => true,
            Message::CustomArgsChanged(_) => true,
            _ => false,
        }
    }

    /// Whether the message goes to the scheduler.
    pub fn is_scheduling(&self) -> (r: bool)
        ensures
            r == is_scheduling(*self),
    {
        match self {
            Message::ManualProxyChanged(_) => true,
            Message::ProxyProtocolChanged(_) => true,
            Message::RetryDownload(_) => true,
            Message::CancelDownload(_) => true,
            Message::Tick => true,
            Message::DownloadProgress(_, _, _, _) => true,
            Message::DownloadFinished(_) => true,
            Message::DownloadFailed(_, _) => true,
            Message::ProxyListLoaded(_) => true,
            _ => false,
        }
    }
}

/// Takes in a change of the settings.
fn change_setting(settings: &mut AdvOptions, message: Message)
    requires
        is_setting(message),
    ensures
        final(settings)@ == setting_changed(old(settings)@, message),
{
    match message {
        Message::AudioFmtChanged(v) => {
            settings.audio_fmt = v;
        },
        Message::ContainerChanged(v) => {
            settings.container = v;
        },
        Message::VideoTypeChanged(v) => {
            settings.video_type = v;
        },
        Message::FilenameStyleChanged(v) => {
            settings.filename_style = v;
        },
        Message::ToggleEmbedSubs(v) => {
            settings.embed_subs = v;
        },
        Message::SubLangsChanged(v) => {
            settings.sub_langs = v;
        },
        Message::ToggleEmbedMeta(v) => {
            settings.embed_meta = v;
        },
        Message::ToggleEmbedThumb(v) => {
            settings.embed_thumb = v;
        },
        Message::ToggleSponsorBlock(v) => {
            settings.sponsorblock = v;
        },
        Message::PlaylistItemsChanged(v) => {
            settings.playlist_items = v;
        },
        Message::RateLimitChanged(v) => {
            settings.rate_limit = v;
        },
        Message::CustomArgsChanged(v) => {
            settings.custom_args = v;
        },
        _ => {},
    }
}

/// Takes in a message that goes to the scheduler.
fn schedule(scheduler: &mut Scheduler, message: Message)
    requires
        old(scheduler).wf(),
        is_scheduling(message),
    ensures
        final(scheduler).wf(),
        final(scheduler)@ == scheduled(old(scheduler)@, message),
{
    match message {
        Message::ManualProxyChanged(text) => {
            scheduler.set_manual_proxy(text);
        },
        Message::ProxyProtocolChanged(protocol) => {
            scheduler.set_proxy_protocol(protocol);
        },
        Message::RetryDownload(id) => {
            scheduler.retry(id);
        },
        Message::CancelDownload(id) => {
            scheduler.cancel(id);
        },
        Message::Tick => {
            scheduler.tick();
        },
        Message::DownloadProgress(id, percent, speed, size) => {
            scheduler.report_progress(id, percent, speed, size);
        },
        Message::DownloadFinished(id) => {
            scheduler.report_finished(id);
        },
        Message::DownloadFailed(id, reason) => {
            scheduler.report_failed(id, reason);
        },
        Message::ProxyListLoaded(text) => {
            match text {
                Some(t) => {
                    scheduler.load_proxy_list(t.as_str());
                },
                None => {},
            }
        },
        _ => {},
    }
}

/// Whatever message goes to the scheduler, the scheduler stays well-formed,
/// the budget stays as it is, an active count within the budget stays
/// within it, and every job stays in its place with the id, address, title
/// and options that it was created with. Only a tick gives a job a proxy.
pub proof fn lemma_scheduled_keeps_jobs(s: SchedulerView, msg: Message)
    requires
        s.wf(),
    ensures
        scheduled(s, msg).wf(),
        scheduled(s, msg).max_concurrent == s.max_concurrent,
        s.active <= s.max_concurrent ==> scheduled(s, msg).active <= s.max_concurrent,
        scheduled(s, msg).queue.len() == s.queue.len(),
        keeps_jobs(s.queue, scheduled(s, msg).queue),
        !(msg is Tick) ==> keeps_proxies(s.queue, scheduled(s, msg).queue),
{
    match msg {
        Message::Tick => {
            lemma_tick_respects_budget(s);
            lemma_first_queued_from(s.queue, 0);
        },
        Message::RetryDownload(id) => {
            if s.has_job(id) {
                lemma_with_job_wf(s, id, s.queue[id as int].requeued());
            }
        },
        Message::CancelDownload(id) => {
            if s.has_job(id) {
                lemma_with_job_wf(s, id, s.queue[id as int].cancelled());
            }
        },
        Message::DownloadFinished(id) => {
            if s.has_job(id) {
                lemma_with_job_wf(s, id, s.queue[id as int].completed());
            }
        },
        Message::DownloadFailed(id, reason) => {
            if s.has_job(id) {
                lemma_with_job_wf(s, id, s.queue[id as int].broken(reason@));
            }
        },
        Message::DownloadProgress(id, percent, speed, size) => {
            lemma_progress_wf(s, id, percent, speed@, size@);
        },
        _ => {},
    }
}

} // verus!
