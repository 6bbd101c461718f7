use std::path::PathBuf;
use ytdl_engine::analysis::{ProbeEntry, ProbeReport};
use ytdl_engine::command::CmdArg;
use ytdl_engine::session::{Command, Session};
use ytdl_engine::types::{
    AdvOptions, AppTab, AudioFormat, Container, DownloadStatus, FilenameTemplate, Message, Percent,
    ProxyProtocol, VideoType,
};

fn session() -> Session {
    Session::new(PathBuf::from("/downloads")).0
}

fn report() -> ProbeReport {
    ProbeReport { is_live: None, webpage_url: None, url: None, title: None, entries: None }
}

#[test]
fn session_starts_with_update_check() {
    let (s, cmd) = Session::new(PathBuf::from("/downloads"));
    assert_eq!(cmd, Command::CheckForUpdates);
    assert_eq!(s.current_tab, AppTab::Dashboard);
    assert_eq!(s.input_url, "");
    assert_eq!(s.cookie_path, None);
    assert_eq!(s.output_dir, PathBuf::from("/downloads"));
    assert_eq!(s.max_concurrent_input, "3");
    assert_eq!(s.scheduler.max_concurrent(), 3);
    assert_eq!(s.settings, AdvOptions::default());
    assert_eq!(s.tool_status, "Initializing...");
    assert!(!s.is_analyzing);
    assert_eq!(s.modal_live_url, None);
    assert!(s.scheduler.queue().is_empty());
}

#[test]
fn check_for_updates_asks_for_the_update() {
    let mut s = session();
    assert_eq!(s.update(Message::CheckForUpdates), Command::UpdateTools);
    assert_eq!(s.tool_status, "Checking updates...");
    assert_eq!(s.update(Message::ToolInstalled(Ok("yt-dlp: a, FFmpeg: b".into()))), Command::Idle);
    assert_eq!(s.tool_status, "yt-dlp: a, FFmpeg: b");
    assert_eq!(s.update(Message::ToolInstalled(Err("no network".into()))), Command::Idle);
    assert_eq!(s.tool_status, "Error: no network");
}

#[test]
fn request_to_add_starts_an_analysis() {
    let mut s = session();
    assert_eq!(s.update(Message::RequestAddUrl), Command::Idle);
    s.update(Message::UrlChanged("   ".to_string()));
    assert_eq!(s.update(Message::RequestAddUrl), Command::Idle);
    assert!(!s.is_analyzing);
    s.update(Message::UrlChanged("  https://x/v \n".to_string()));
    assert_eq!(
        s.update(Message::RequestAddUrl),
        Command::Analyze { url: "https://x/v".to_string(), proxy: None }
    );
    assert!(s.is_analyzing);
    assert_eq!(s.tool_status, "Analyzing Link...");
    assert_eq!(s.input_url, "  https://x/v \n");
    assert_eq!(s.update(Message::RequestAddUrl), Command::Idle);
}

#[test]
fn analysis_goes_through_the_manual_proxy() {
    let mut s = session();
    s.update(Message::ManualProxyChanged("h:1:u:p".to_string()));
    s.update(Message::ProxyProtocolChanged(ProxyProtocol::Https));
    s.update(Message::ProxyListLoaded(Some("a:1\nb:2".to_string())));
    s.update(Message::UrlChanged("u".to_string()));
    assert_eq!(
        s.update(Message::RequestAddUrl),
        Command::Analyze { url: "u".to_string(), proxy: Some("https://u:p@h:1".to_string()) }
    );
    assert_eq!(s.scheduler.proxy_counter(), 0);
}

#[test]
fn analysis_of_a_single_video_enqueues_it() {
    let mut s = session();
    s.update(Message::TabChanged(AppTab::Video));
    s.update(Message::ToggleSponsorBlock(true));
    s.update(Message::UrlChanged("typed".to_string()));
    s.update(Message::RequestAddUrl);
    let mut r = report();
    r.title = Some("T".to_string());
    r.webpage_url = Some("w".to_string());
    assert_eq!(s.update(Message::AnalysisFinished(Ok(r))), Command::Idle);
    assert!(!s.is_analyzing);
    assert_eq!(s.tool_status, "Analysis Complete");
    assert_eq!(s.input_url, "");
    assert_eq!(s.current_tab, AppTab::Dashboard);
    assert_eq!(s.scheduler.queue().len(), 1);
    let job = &s.scheduler.queue()[0];
    assert_eq!(job.url, "w");
    assert_eq!(job.title, "T");
    assert_eq!(job.status, DownloadStatus::Queued);
    assert!(job.options.sponsorblock);
}

#[test]
fn analysis_of_a_playlist_enqueues_its_videos() {
    let mut s = session();
    s.update(Message::UrlChanged("typed".to_string()));
    let mut r = report();
    r.entries = Some(vec![
        ProbeEntry { id: Some("a".to_string()), title: Some("First".to_string()) },
        ProbeEntry { id: None, title: Some("skipped".to_string()) },
        ProbeEntry { id: Some("b".to_string()), title: None },
    ]);
    s.update(Message::AnalysisFinished(Ok(r)));
    assert_eq!(s.tool_status, "Added 2 videos");
    assert_eq!(s.input_url, "");
    assert_eq!(s.current_tab, AppTab::Dashboard);
    let q = s.scheduler.queue();
    assert_eq!(q.len(), 2);
    assert_eq!((q[0].id, q[0].url.as_str()), (0, "https://www.youtube.com/watch?v=a"));
    assert_eq!(q[0].title, "First");
    assert_eq!((q[1].id, q[1].url.as_str()), (1, "https://www.youtube.com/watch?v=b"));
    assert_eq!(q[1].title, "Unknown Title");
}

#[test]
fn analysis_of_a_large_playlist_counts_in_decimal() {
    let mut s = session();
    let mut r = report();
    r.entries = Some(
        (0..120).map(|i| ProbeEntry { id: Some(format!("v{}", i)), title: None }).collect(),
    );
    s.update(Message::AnalysisFinished(Ok(r)));
    assert_eq!(s.tool_status, "Added 120 videos");
    assert_eq!(s.scheduler.queue().len(), 120);
    let mut r = report();
    r.entries = Some(vec![]);
    s.update(Message::AnalysisFinished(Ok(r)));
    assert_eq!(s.tool_status, "Added 0 videos");
}

#[test]
fn failed_analysis_is_reported() {
    let mut s = session();
    s.update(Message::UrlChanged("typed".to_string()));
    s.update(Message::RequestAddUrl);
    s.update(Message::AnalysisFinished(Err("ERROR: nope".to_string())));
    assert!(!s.is_analyzing);
    assert_eq!(s.tool_status, "Analysis Failed: ERROR: nope");
    assert_eq!(s.input_url, "typed");
    assert!(s.scheduler.queue().is_empty());
}

#[test]
fn settings_are_a_snapshot_per_job() {
    let mut s = session();
    s.update(Message::AnalysisFinished(Ok(report())));
    s.update(Message::AudioFmtChanged(AudioFormat::Flac));
    s.update(Message::RateLimitChanged("1M".to_string()));
    s.update(Message::AnalysisFinished(Ok(report())));
    let q = s.scheduler.queue();
    assert_eq!(q[0].options, AdvOptions::default());
    assert_eq!(q[1].options.audio_fmt, AudioFormat::Flac);
    assert_eq!(q[1].options.rate_limit, "1M");
}

#[test]
fn live_stream_waits_for_the_decision() {
    let mut s = session();
    s.update(Message::TabChanged(AppTab::Audio));
    s.update(Message::UrlChanged("typed".to_string()));
    s.update(Message::CustomArgsChanged("--x".to_string()));
    let mut r = report();
    r.is_live = Some(true);
    r.url = Some("live-url".to_string());
    s.update(Message::AnalysisFinished(Ok(r)));
    assert_eq!(s.modal_live_url.as_deref(), Some("live-url"));
    assert_eq!(s.input_url, "");
    assert_eq!(s.current_tab, AppTab::Audio);
    assert!(s.scheduler.queue().is_empty());
    s.update(Message::LiveDecision(true));
    assert_eq!(s.modal_live_url, None);
    assert_eq!(s.current_tab, AppTab::Dashboard);
    let q = s.scheduler.queue();
    assert_eq!(q.len(), 1);
    assert_eq!(q[0].url, "live-url");
    assert_eq!(q[0].title, "Live Stream");
    assert_eq!(q[0].options.custom_args, "--x --live-from-start");
    assert_eq!(s.settings.custom_args, "--x");
    s.update(Message::LiveDecision(true));
    assert_eq!(s.scheduler.queue().len(), 1);
}

#[test]
fn live_stream_from_now_adds_no_flag() {
    let mut s = session();
    let mut r = report();
    r.is_live = Some(true);
    r.webpage_url = Some("w".to_string());
    s.update(Message::AnalysisFinished(Ok(r)));
    s.update(Message::LiveDecision(false));
    assert_eq!(s.scheduler.queue()[0].options.custom_args, "");
}

#[test]
fn closing_the_dialogue_enqueues_nothing() {
    let mut s = session();
    let mut r = report();
    r.is_live = Some(true);
    r.webpage_url = Some("w".to_string());
    s.update(Message::AnalysisFinished(Ok(r)));
    s.update(Message::CloseModal);
    assert_eq!(s.modal_live_url, None);
    s.update(Message::LiveDecision(false));
    assert!(s.scheduler.queue().is_empty());
}

#[test]
fn budget_input_is_validated_at_the_edge() {
    let mut s = session();
    s.update(Message::MaxConcurrentChanged("12".to_string()));
    assert_eq!(s.max_concurrent_input, "12");
    assert_eq!(s.scheduler.max_concurrent(), 12);
    s.update(Message::MaxConcurrentChanged("12a".to_string()));
    assert_eq!(s.max_concurrent_input, "12");
    assert_eq!(s.scheduler.max_concurrent(), 12);
    s.update(Message::MaxConcurrentChanged("+5".to_string()));
    assert_eq!(s.max_concurrent_input, "12");
    assert_eq!(s.scheduler.max_concurrent(), 12);
    s.update(Message::MaxConcurrentChanged("500".to_string()));
    assert_eq!(s.max_concurrent_input, "500");
    assert_eq!(s.scheduler.max_concurrent(), 50);
    s.update(Message::MaxConcurrentChanged("0".to_string()));
    assert_eq!(s.max_concurrent_input, "0");
    assert_eq!(s.scheduler.max_concurrent(), 1);
    s.update(Message::MaxConcurrentChanged(String::new()));
    assert_eq!(s.max_concurrent_input, "");
    assert_eq!(s.scheduler.max_concurrent(), 1);
    // Numeric, but no number that the budget can be read from.
    s.update(Message::MaxConcurrentChanged("\u{664}".to_string()));
    assert_eq!(s.max_concurrent_input, "\u{664}");
    assert_eq!(s.scheduler.max_concurrent(), 1);
}

#[test]
fn settings_messages_change_the_settings() {
    let mut s = session();
    s.update(Message::AudioFmtChanged(AudioFormat::Opus));
    s.update(Message::ContainerChanged(Container::Webm));
    s.update(Message::VideoTypeChanged(VideoType::ThreeD));
    s.update(Message::FilenameStyleChanged(FilenameTemplate::Numbered));
    s.update(Message::ToggleEmbedSubs(true));
    s.update(Message::SubLangsChanged("en".to_string()));
    s.update(Message::ToggleEmbedMeta(false));
    s.update(Message::ToggleEmbedThumb(false));
    s.update(Message::ToggleSponsorBlock(true));
    s.update(Message::PlaylistItemsChanged("1-3".to_string()));
    s.update(Message::RateLimitChanged("5M".to_string()));
    s.update(Message::CustomArgsChanged("--x".to_string()));
    assert_eq!(
        s.settings,
        AdvOptions {
            audio_fmt: AudioFormat::Opus,
            container: Container::Webm,
            video_type: VideoType::ThreeD,
            embed_subs: true,
            sub_langs: "en".to_string(),
            embed_meta: false,
            embed_thumb: false,
            filename_style: FilenameTemplate::Numbered,
            sponsorblock: true,
            playlist_items: "1-3".to_string(),
            rate_limit: "5M".to_string(),
            custom_args: "--x".to_string(),
        }
    );
}

#[test]
fn file_messages_ask_and_store() {
    let mut s = session();
    assert_eq!(s.update(Message::PickCookieFile), Command::PickCookieFile);
    assert_eq!(s.update(Message::PickOutputDir), Command::PickOutputDir);
    assert_eq!(s.update(Message::PickProxyList), Command::PickProxyList);
    s.update(Message::CookieFilePicked(Some(PathBuf::from("/c.txt"))));
    assert_eq!(s.cookie_path, Some(PathBuf::from("/c.txt")));
    s.update(Message::CookieFilePicked(None));
    assert_eq!(s.cookie_path, None);
    s.update(Message::OutputDirPicked(Some(PathBuf::from("/out"))));
    assert_eq!(s.output_dir, PathBuf::from("/out"));
    s.update(Message::OutputDirPicked(None));
    assert_eq!(s.output_dir, PathBuf::from("/out"));
    s.update(Message::ProxyListLoaded(Some("a:1\n\nb:2\n".to_string())));
    assert_eq!(s.scheduler.proxy_list().len(), 2);
    s.update(Message::ProxyListLoaded(None));
    assert_eq!(s.scheduler.proxy_list().len(), 2);
}

#[test]
fn download_messages_drive_the_queue() {
    let mut s = session();
    s.update(Message::AnalysisFinished(Ok(report())));
    s.update(Message::AnalysisFinished(Ok(report())));
    assert_eq!(s.update(Message::Tick), Command::Idle);
    assert_eq!(s.scheduler.downloading(), vec![0]);
    s.update(Message::Ignore);
    s.update(Message::DownloadProgress(
        0,
        Percent { thousandths: 12_300 },
        "1MiB/s".to_string(),
        "9MiB".to_string(),
    ));
    assert_eq!(s.scheduler.queue()[0].progress, Percent { thousandths: 12_300 });
    s.update(Message::DownloadFinished(0));
    assert_eq!(s.scheduler.queue()[0].status, DownloadStatus::Finished);
    s.update(Message::Tick);
    s.update(Message::DownloadFailed(1, "boom".to_string()));
    assert_eq!(s.scheduler.queue()[1].status, DownloadStatus::Failed("boom".to_string()));
    s.update(Message::RetryDownload(1));
    assert_eq!(s.scheduler.queue()[1].status, DownloadStatus::Queued);
    s.update(Message::Tick);
    s.update(Message::CancelDownload(1));
    assert_eq!(s.scheduler.queue()[1].status, DownloadStatus::Cancelled);
    assert_eq!(s.scheduler.active_downloads(), 0);
}

#[test]
fn download_args_of_a_job() {
    let mut s = session();
    s.update(Message::ManualProxyChanged("h:1".to_string()));
    s.update(Message::ToggleEmbedMeta(false));
    s.update(Message::ToggleEmbedThumb(false));
    let mut r = report();
    r.url = Some("u".to_string());
    s.update(Message::AnalysisFinished(Ok(r)));
    s.update(Message::Tick);
    s.update(Message::CookieFilePicked(Some(PathBuf::from("/c.txt"))));
    let t = |x: &str| CmdArg::Text(x.to_string());
    assert_eq!(
        s.download_args(0, false),
        Some(vec![
            t("--newline"),
            t("--encoding"),
            t("utf-8"),
            t("--no-overwrites"),
            t("--ignore-errors"),
            t("-P"),
            CmdArg::OutputDir,
            t("u"),
            t("--proxy"),
            t("socks5://h:1"),
            t("--cookies"),
            CmdArg::CookieFile,
            t("-f"),
            t("bestvideo+bestaudio/best"),
            t("--merge-output-format"),
            t("mp4"),
        ])
    );
    assert_eq!(s.download_args(1, false), None);
}

#[test]
fn message_kinds() {
    assert!(Message::ToggleEmbedSubs(true).is_setting());
    assert!(!Message::Tick.is_setting());
    assert!(Message::Tick.is_scheduling());
    assert!(Message::ProxyListLoaded(None).is_scheduling());
    assert!(!Message::RequestAddUrl.is_scheduling());
    assert!(!Message::RequestAddUrl.is_setting());
}
