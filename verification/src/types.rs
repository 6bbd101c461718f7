//! The option and job types that the engine works on.

use vstd::prelude::*;
use crate::analysis::ProbeReport;
use crate::text::{decimal_text, number_chars, prefixed, push_char, string_of};

verus! {

/// The tab of the settings surface that is shown.
#[derive(Debug, Clone, Copy, PartialEq, Eq, Structural)]
pub enum AppTab {
    Dashboard,
    Audio,
    Video,
    Advanced,
}

impl Default for AppTab {
    fn default() -> (r: Self)
        ensures
            r == AppTab::Dashboard,
    {
        AppTab::Dashboard
    }
}

/// The URI scheme that a proxy is addressed with.
#[derive(Debug, Clone, Copy, PartialEq, Eq, Structural)]
pub enum ProxyProtocol {
    Socks5,
    Socks4,
    Http,
    Https,
}

impl Default for ProxyProtocol {
    fn default() -> (r: Self)
        ensures
            r == ProxyProtocol::Socks5,
    {
        ProxyProtocol::Socks5
    }
}

impl ProxyProtocol {
    /// The scheme as it is written in a proxy URI.
    pub open spec fn scheme(self) -> Seq<char> {
        match self {
            ProxyProtocol::Socks5 => "socks5"@,
            ProxyProtocol::Socks4 => "socks4"@,
            ProxyProtocol::Http => "http"@,
            ProxyProtocol::Https => "https"@,
        }
    }

    /// Every protocol, in the order in which a picker offers them.
    pub fn all() -> (r: [ProxyProtocol; 4])
        ensures
            r@ == seq![
                ProxyProtocol::Socks5,
                ProxyProtocol::Socks4,
                ProxyProtocol::Http,
                ProxyProtocol::Https,
            ],
    {
        [ProxyProtocol::Socks5, ProxyProtocol::Socks4, ProxyProtocol::Http, ProxyProtocol::Https]
    }

    /// The scheme as text.
    pub fn as_str(&self) -> (r: &'static str)
        ensures
            r@ == self.scheme(),
    {
        match self {
            ProxyProtocol::Socks5 => "socks5",
            ProxyProtocol::Socks4 => "socks4",
            ProxyProtocol::Http => "http",
            ProxyProtocol::Https => "https",
        }
    }
}

/// The audio codec to extract, or `Video` to keep the video.
#[derive(Debug, Clone, Copy, PartialEq, Eq, Structural)]
pub enum AudioFormat {
    Video,
    Mp3,
    Aac,
    M4a,
    Wav,
    Flac,
    Opus,
}

impl Default for AudioFormat {
    fn default() -> (r: Self)
        ensures
            r == AudioFormat::Video,
    {
        AudioFormat::Video
    }
}

impl AudioFormat {
    /// The label of the format; for a codec it is also the codec's name on
    /// the command line.
    pub open spec fn label(self) -> Seq<char> {
        match self {
            AudioFormat::Video => "Video (Default)"@,
            AudioFormat::Mp3 => "mp3"@,
            AudioFormat::Aac => "aac"@,
            AudioFormat::M4a => "m4a"@,
            AudioFormat::Wav => "wav"@,
            AudioFormat::Flac => "flac"@,
            AudioFormat::Opus => "opus"@,
        }
    }

    /// Every format, in the order in which a picker offers them.
    pub fn all() -> (r: [AudioFormat; 7])
        ensures
            r@ == seq![
                AudioFormat::Video,
                AudioFormat::Mp3,
                AudioFormat::Aac,
                AudioFormat::M4a,
                AudioFormat::Wav,
                AudioFormat::Flac,
                AudioFormat::Opus,
            ],
    {
        [
            AudioFormat::Video,
            AudioFormat::Mp3,
            AudioFormat::Aac,
            AudioFormat::M4a,
            AudioFormat::Wav,
            AudioFormat::Flac,
            AudioFormat::Opus,
        ]
    }

    /// The label as text.
    pub fn as_str(&self) -> (r: &'static str)
        ensures
            r@ == self.label(),
    {
        match self {
            AudioFormat::Video => "Video (Default)",
            AudioFormat::Mp3 => "mp3",
            AudioFormat::Aac => "aac",
            AudioFormat::M4a => "m4a",
            AudioFormat::Wav => "wav",
            AudioFormat::Flac => "flac",
            AudioFormat::Opus => "opus",
        }
    }
}

/// The container that video and audio are merged into.
#[derive(Debug, Clone, Copy, PartialEq, Eq, Structural)]
pub enum Container {
    Mp4,
    Mkv,
    Webm,
}

impl Default for Container {
    fn default() -> (r: Self)
        ensures
            r == Container::Mp4,
    {
        Container::Mp4
    }
}

impl Container {
    /// The container's name on the command line.
    pub open spec fn label(self) -> Seq<char> {
        match self {
            Container::Mp4 => "mp4"@,
            Container::Mkv => "mkv"@,
            Container::Webm => "webm"@,
        }
    }

    /// Every container, in the order in which a picker offers them.
    pub fn all() -> (r: [Container; 3])
        ensures
            r@ == seq![Container::Mp4, Container::Mkv, Container::Webm],
    {
        [Container::Mp4, Container::Mkv, Container::Webm]
    }

    /// The container's name as text.
    pub fn as_str(&self) -> (r: &'static str)
        ensures
            r@ == self.label(),
    {
        match self {
            Container::Mp4 => "mp4",
            Container::Mkv => "mkv",
            Container::Webm => "webm",
        }
    }
}

/// Which kind of video stream is preferred when several are offered.
#[derive(Debug, Clone, Copy, PartialEq, Eq, Structural)]
pub enum VideoType {
    Normal,
    VR360,
    ThreeD,
}

impl Default for VideoType {
    fn default() -> (r: Self)
        ensures
            r == VideoType::Normal,
    {
        VideoType::Normal
    }
}

impl VideoType {
    /// The label shown for the preference.
    pub open spec fn label(self) -> Seq<char> {
        match self {
            VideoType::Normal => "Normal / Best"@,
            VideoType::VR360 => "Prefer VR / 360\u{b0}"@,
            VideoType::ThreeD => "Prefer 3D"@,
        }
    }

    /// Every preference, in the order in which a picker offers them.
    pub fn all() -> (r: [VideoType; 3])
        ensures
            r@ == seq![VideoType::Normal, VideoType::VR360, VideoType::ThreeD],
    {
        [VideoType::Normal, VideoType::VR360, VideoType::ThreeD]
    }

    /// The label as text.
    pub fn as_str(&self) -> (r: &'static str)
        ensures
            r@ == self.label(),
    {
        match self {
            VideoType::Normal => "Normal / Best",
            VideoType::VR360 => "Prefer VR / 360\u{b0}",
            VideoType::ThreeD => "Prefer 3D",
        }
    }
}

/// How the downloaded file is named.
#[derive(Debug, Clone, Copy, PartialEq, Eq, Structural)]
pub enum FilenameTemplate {
    Default,
    Clean,
    Channel,
    Numbered,
}

impl Default for FilenameTemplate {
    fn default() -> (r: Self)
        ensures
            r == FilenameTemplate::Default,
    {
        FilenameTemplate::Default
    }
}

impl FilenameTemplate {
    /// The label shown for the template.
    pub open spec fn label(self) -> Seq<char> {
        match self {
            FilenameTemplate::Default => "Default (Title [ID])"@,
            FilenameTemplate::Clean => "Clean (Title only)"@,
            FilenameTemplate::Channel => "Channel - Title"@,
            FilenameTemplate::Numbered => "Playlist Index - Title"@,
        }
    }

    /// The output template handed to the download tool; `None` for the
    /// default template, which leaves the naming to the tool.
    pub open spec fn cmd_arg(self) -> Option<Seq<char>> {
        match self {
            FilenameTemplate::Default => None,
            FilenameTemplate::Clean => Some("%(title)s.%(ext)s"@),
            FilenameTemplate::Channel => Some("%(uploader)s - %(title)s.%(ext)s"@),
            FilenameTemplate::Numbered => Some("%(playlist_index)s - %(title)s.%(ext)s"@),
        }
    }

    /// Every template, in the order in which a picker offers them.
    pub fn all() -> (r: [FilenameTemplate; 4])
        ensures
            r@ == seq![
                FilenameTemplate::Default,
                FilenameTemplate::Clean,
                FilenameTemplate::Channel,
                FilenameTemplate::Numbered,
            ],
    {
        [
            FilenameTemplate::Default,
            FilenameTemplate::Clean,
            FilenameTemplate::Channel,
            FilenameTemplate::Numbered,
        ]
    }

    /// The label as text.
    pub fn as_str(&self) -> (r: &'static str)
        ensures
            r@ == self.label(),
    {
        match self {
            FilenameTemplate::Default => "Default (Title [ID])",
            FilenameTemplate::Clean => "Clean (Title only)",
            FilenameTemplate::Channel => "Channel - Title",
            FilenameTemplate::Numbered => "Playlist Index - Title",
        }
    }

    /// The output template as text, as `cmd_arg` says.
    pub fn to_cmd_arg(&self) -> (r: Option<String>)
        ensures
            r is Some == self.cmd_arg() is Some,
            r is Some ==> r->0@ == self.cmd_arg()->0,
    {
        match self {
            FilenameTemplate::Default => None,
            FilenameTemplate::Clean => Some("%(title)s.%(ext)s".to_owned()),
            FilenameTemplate::Channel => Some("%(uploader)s - %(title)s.%(ext)s".to_owned()),
            FilenameTemplate::Numbered => Some(
                "%(playlist_index)s - %(title)s.%(ext)s".to_owned(),
            ),
        }
    }
}

/// A share of a download, kept in thousandths of a percent so that it is an
/// exact integer: `42.5%` is `42_500`.
#[derive(Debug, Clone, Copy, PartialEq, Eq, Structural)]
pub struct Percent {
    pub thousandths: u64,
}

/// One percent, in the unit of `Percent`.
pub const THOUSANDTHS_PER_PERCENT: u64 = 1000;

/// The whole download, in the unit of `Percent`.
pub const FULL_THOUSANDTHS: u64 = 100_000;

impl Percent {
    /// Nothing downloaded yet.
    pub fn zero() -> (r: Percent)
        ensures
            r.thousandths == 0,
    {
        Percent { thousandths: 0 }
    }

    /// Everything downloaded.
    pub fn full() -> (r: Percent)
        ensures
            r.thousandths == FULL_THOUSANDTHS,
    {
        Percent { thousandths: FULL_THOUSANDTHS }
    }

    /// Whether the share lies between nothing and everything.
    pub open spec fn in_range(self) -> bool {
        self.thousandths <= FULL_THOUSANDTHS
    }
}

/// The settings that shape one invocation of the download tool.
#[derive(Debug, Clone, PartialEq, Eq)]
pub struct AdvOptions {
    pub audio_fmt: AudioFormat,
    pub container: Container,
    pub video_type: VideoType,
    pub embed_subs: bool,
    pub sub_langs: String,
    pub embed_meta: bool,
    pub embed_thumb: bool,
    pub filename_style: FilenameTemplate,
    pub sponsorblock: bool,
    pub playlist_items: String,
    pub rate_limit: String,
    pub custom_args: String,
}

/// What an `AdvOptions` value holds, with each text as its characters.
pub struct OptionsView {
    pub audio_fmt: AudioFormat,
    pub container: Container,
    pub video_type: VideoType,
    pub embed_subs: bool,
    pub sub_langs: Seq<char>,
    pub embed_meta: bool,
    pub embed_thumb: bool,
    pub filename_style: FilenameTemplate,
    pub sponsorblock: bool,
    pub playlist_items: Seq<char>,
    pub rate_limit: Seq<char>,
    pub custom_args: Seq<char>,
}

impl View for AdvOptions {
    type V = OptionsView;

    open spec fn view(&self) -> OptionsView {
        OptionsView {
            audio_fmt: self.audio_fmt,
            container: self.container,
            video_type: self.video_type,
            embed_subs: self.embed_subs,
            sub_langs: self.sub_langs@,
            embed_meta: self.embed_meta,
            embed_thumb: self.embed_thumb,
            filename_style: self.filename_style,
            sponsorblock: self.sponsorblock,
            playlist_items: self.playlist_items@,
            rate_limit: self.rate_limit@,
            custom_args: self.custom_args@,
        }
    }
}

impl OptionsView {
    /// The settings in effect before anything was changed.
    pub open spec fn initial() -> OptionsView {
        OptionsView {
            audio_fmt: AudioFormat::Video,
            container: Container::Mp4,
            video_type: VideoType::Normal,
            embed_subs: false,
            sub_langs: "all"@,
            embed_meta: true,
            embed_thumb: true,
            filename_style: FilenameTemplate::Default,
            sponsorblock: false,
            playlist_items: Seq::empty(),
            rate_limit: Seq::empty(),
            custom_args: Seq::empty(),
        }
    }
}

impl Default for AdvOptions {
    fn default() -> (r: Self)
        ensures
            r@ == OptionsView::initial(),
    {
        AdvOptions {
            audio_fmt: AudioFormat::Video,
            container: Container::Mp4,
            video_type: VideoType::Normal,
            embed_subs: false,
            sub_langs: "all".to_owned(),
            embed_meta: true,
            embed_thumb: true,
            filename_style: FilenameTemplate::Default,
            sponsorblock: false,
            playlist_items: String::new(),
            rate_limit: String::new(),
            custom_args: String::new(),
        }
    }
}

impl AdvOptions {
    /// A copy of the settings, which later changes to the settings leave alone.
    pub fn snapshot(&self) -> (r: AdvOptions)
        ensures
            r@ == self@,
    {
        AdvOptions {
            audio_fmt: self.audio_fmt,
            container: self.container,
            video_type: self.video_type,
            embed_subs: self.embed_subs,
            sub_langs: self.sub_langs.clone(),
            embed_meta: self.embed_meta,
            embed_thumb: self.embed_thumb,
            filename_style: self.filename_style,
            sponsorblock: self.sponsorblock,
            playlist_items: self.playlist_items.clone(),
            rate_limit: self.rate_limit.clone(),
            custom_args: self.custom_args.clone(),
        }
    }
}

/// Where a job stands.
#[derive(Debug, Clone, PartialEq, Eq)]
pub enum DownloadStatus {
    Queued,
    Downloading,
    Finished,
    Failed(String),
    Cancelled,
}

/// A `DownloadStatus` with the failure reason as its characters.
pub enum StatusView {
    Queued,
    Downloading,
    Finished,
    Failed(Seq<char>),
    Cancelled,
}

impl StatusView {
    /// A state that a job does not leave by itself.
    pub open spec fn is_terminal(self) -> bool {
        self is Finished || self is Failed || self is Cancelled
    }
}

impl View for DownloadStatus {
    type V = StatusView;

    open spec fn view(&self) -> StatusView {
        match self {
            DownloadStatus::Queued => StatusView::Queued,
            DownloadStatus::Downloading => StatusView::Downloading,
            DownloadStatus::Finished => StatusView::Finished,
            DownloadStatus::Failed(reason) => StatusView::Failed(reason@),
            DownloadStatus::Cancelled => StatusView::Cancelled,
        }
    }
}

impl DownloadStatus {
    /// A copy of the status.
    pub fn snapshot(&self) -> (r: DownloadStatus)
        ensures
            r@ == self@,
    {
        match self {
            DownloadStatus::Queued => DownloadStatus::Queued,
            DownloadStatus::Downloading => DownloadStatus::Downloading,
            DownloadStatus::Finished => DownloadStatus::Finished,
            DownloadStatus::Failed(reason) => DownloadStatus::Failed(reason.clone()),
            DownloadStatus::Cancelled => DownloadStatus::Cancelled,
        }
    }

    /// Whether the job is waiting for a slot.
    pub fn is_queued(&self) -> (r: bool)
        ensures
            r == (self@ is Queued),
    {
        match self {
            DownloadStatus::Queued => true,
            _ => false,
        }
    }

    /// Whether the job occupies a slot.
    pub fn is_downloading(&self) -> (r: bool)
        ensures
            r == (self@ is Downloading),
    {
        match self {
            DownloadStatus::Downloading => true,
            _ => false,
        }
    }

    /// Whether the job has ended: finished, failed or cancelled.
    pub fn is_terminal(&self) -> (r: bool)
        ensures
            r == self@.is_terminal(),
    {
        match self {
            DownloadStatus::Finished => true,
            DownloadStatus::Failed(_) => true,
            DownloadStatus::Cancelled => true,
            _ => false,
        }
    }
}

/// One download: what to fetch, how, and how far it has come.
#[derive(Debug, Clone, PartialEq, Eq)]
pub struct DownloadItem {
    pub id: usize,
    pub url: String,
    pub title: String,
    pub status: DownloadStatus,
    pub progress: Percent,
    pub speed: String,
    pub total_size: String,
    pub assigned_proxy: Option<String>,
    pub options: AdvOptions,
}

/// What a `DownloadItem` holds, with each text as its characters.
pub struct ItemView {
    pub id: usize,
    pub url: Seq<char>,
    pub title: Seq<char>,
    pub status: StatusView,
    pub progress: Percent,
    pub speed: Seq<char>,
    pub total_size: Seq<char>,
    pub assigned_proxy: Option<Seq<char>>,
    pub options: OptionsView,
}

impl View for DownloadItem {
    type V = ItemView;

    open spec fn view(&self) -> ItemView {
        ItemView {
            id: self.id,
            url: self.url@,
            title: self.title@,
            status: self.status@,
            progress: self.progress,
            speed: self.speed@,
            total_size: self.total_size@,
            assigned_proxy: match self.assigned_proxy {
                Some(p) => Some(p@),
                None => None,
            },
            options: self.options@,
        }
    }
}

impl ItemView {
    /// A job as it enters the queue: waiting, nothing downloaded, no proxy.
    pub open spec fn fresh(
        id: usize,
        url: Seq<char>,
        title: Seq<char>,
        options: OptionsView,
    ) -> ItemView {
        ItemView {
            id,
            url,
            title,
            status: StatusView::Queued,
            progress: Percent { thousandths: 0 },
            speed: "-"@,
            total_size: "-"@,
            assigned_proxy: None,
            options,
        }
    }
}

impl DownloadItem {
    /// A job as it enters the queue: waiting, nothing downloaded, no proxy.
    pub fn new(id: usize, url: String, title: String, options: AdvOptions) -> (r: DownloadItem)
        ensures
            r@ == ItemView::fresh(id, url@, title@, options@),
    {
        DownloadItem {
            id,
            url,
            title,
            status: DownloadStatus::Queued,
            progress: Percent::zero(),
            speed: "-".to_owned(),
            total_size: "-".to_owned(),
            assigned_proxy: None,
            options,
        }
    }

    /// A copy of the job.
    pub fn snapshot(&self) -> (r: DownloadItem)
        ensures
            r@ == self@,
    {
        DownloadItem {
            id: self.id,
            url: self.url.clone(),
            title: self.title.clone(),
            status: self.status.snapshot(),
            progress: self.progress,
            speed: self.speed.clone(),
            total_size: self.total_size.clone(),
            assigned_proxy: match &self.assigned_proxy {
                Some(p) => Some(p.clone()),
                None => None,
            },
            options: self.options.snapshot(),
        }
    }
}

/// The newest published release of a tool, as the release feed names it.
#[derive(Debug, Clone, PartialEq, Eq)]
pub struct GitHubRelease {
    pub tag_name: String,
}

/// A path of the machine that runs the engine. The engine hands such
/// values on and never looks inside them.
#[verifier::external_type_specification]
#[verifier::external_body]
pub struct ExPathBuf(std::path::PathBuf);

/// `Clone::clone` of the standard library on a `Result`. Nothing is claimed
/// of the copy.
pub assume_specification<T: Clone, E: Clone>[ <Result<T, E> as Clone>::clone ](
    r: &Result<T, E>,
) -> (c: Result<T, E>)
;

/// Everything that can happen to the engine: what the user asks for, what
/// the timer says, and what the processes report.
#[derive(Debug, Clone, PartialEq, Eq)]
pub enum Message {
    Ignore,
    TabChanged(AppTab),
    UrlChanged(String),
    ManualProxyChanged(String),
    RequestAddUrl,
    AnalysisFinished(Result<ProbeReport, String>),
    LiveDecision(bool),
    CloseModal,
    AudioFmtChanged(AudioFormat),
    ContainerChanged(Container),
    VideoTypeChanged(VideoType),
    ToggleEmbedSubs(bool),
    SubLangsChanged(String),
    ToggleEmbedMeta(bool),
    ToggleEmbedThumb(bool),
    FilenameStyleChanged(FilenameTemplate),
    ToggleSponsorBlock(bool),
    PlaylistItemsChanged(String),
    RateLimitChanged(String),
    CustomArgsChanged(String),
    ProxyProtocolChanged(ProxyProtocol),
    MaxConcurrentChanged(String),
    PickCookieFile,
    CookieFilePicked(Option<std::path::PathBuf>),
    PickOutputDir,
    OutputDirPicked(Option<std::path::PathBuf>),
    PickProxyList,
    ProxyListLoaded(Option<String>),
    RetryDownload(usize),
    CancelDownload(usize),
    Tick,
    CheckForUpdates,
    /// Job, progress, speed, size.
    DownloadProgress(usize, Percent, String, String),
    DownloadFinished(usize),
    DownloadFailed(usize, String),
    ToolInstalled(Result<String, String>),
}

/// What a message reports of a download, as plain values.
pub enum Feedback {
    /// Nothing to take in.
    Ignore,
    Progress { id: usize, percent: Percent, speed: Seq<char>, size: Seq<char> },
    Finished { id: usize },
    Failed { id: usize, reason: Seq<char> },
    /// A message that reports nothing of a download.
    Other,
}

impl Message {
    /// What the message reports of a download.
    pub open spec fn feedback(self) -> Feedback {
        match self {
            Message::Ignore => Feedback::Ignore,
            Message::DownloadProgress(id, percent, speed, size) => Feedback::Progress {
                id,
                percent,
                speed: speed@,
                size: size@,
            },
            Message::DownloadFinished(id) => Feedback::Finished { id },
            Message::DownloadFailed(id, reason) => Feedback::Failed { id, reason: reason@ },
            _ => Feedback::Other,
        }
    }
}

impl Percent {
    /// The share rounded to tenths of a percent, in tenths.
    pub open spec fn tenths(self) -> nat {
        ((self.thousandths + 50) / 100) as nat
    }

    /// The share as it is shown: in percent with one digit after the point,
    /// rounded to the nearest tenth, such as `42.5%`.
    pub open spec fn shown(self) -> Seq<char> {
        decimal_text(self.tenths() / 10) + seq!['.'] + decimal_text(self.tenths() % 10) + seq!['%']
    }

    /// The share as it is shown, as `shown` says.
    pub fn label(&self) -> (r: String)
        ensures
            r@ == self.shown(),
    {
        let tenths: u64 = self.thousandths / 100 + (self.thousandths % 100 + 50) / 100;
        assert(tenths == self.tenths());
        let mut out = string_of(&number_chars(tenths / 10));
        push_char(&mut out, '.');
        out.append(string_of(&number_chars(tenths % 10)).as_str());
        push_char(&mut out, '%');
        assert(out@ =~= self.shown());
        out
    }
}

impl ItemView {
    /// The line shown under a job: the error of a failed one, speed and
    /// size of a running one, the size of a finished one, else nothing.
    pub open spec fn info(self) -> Seq<char> {
        match self.status {
            StatusView::Failed(why) => "Error: "@ + why,
            StatusView::Downloading => self.speed + " | "@ + self.total_size,
            StatusView::Finished => "Completed: "@ + self.total_size,
            _ => Seq::empty(),
        }
    }
}

impl DownloadItem {
    /// The line shown under the job, as `info` says.
    pub fn info_text(&self) -> (r: String)
        ensures
            r@ == self@.info(),
    {
        match &self.status {
            DownloadStatus::Failed(why) => prefixed("Error: ", why.as_str()),
            DownloadStatus::Downloading => {
                let mut out = self.speed.clone();
                out.append(" | ");
                out.append(self.total_size.as_str());
                out
            },
            DownloadStatus::Finished => prefixed("Completed: ", self.total_size.as_str()),
            _ => String::new(),
        }
    }

    /// Whether the job is offered to be cancelled: while it downloads. In
    /// every other state it is offered to be retried.
    pub fn can_cancel(&self) -> (r: bool)
        ensures
            r == (self@.status is Downloading),
    {
        self.status.is_downloading()
    }
}

} // verus!
