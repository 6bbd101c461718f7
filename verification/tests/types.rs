use ytdl_engine::types::{
    AdvOptions, AppTab, AudioFormat, Container, DownloadItem, DownloadStatus, FilenameTemplate,
    Percent, ProxyProtocol, VideoType,
};

#[test]
fn proxy_protocol_names() {
    assert_eq!(ProxyProtocol::Socks5.as_str(), "socks5");
    assert_eq!(ProxyProtocol::Socks4.as_str(), "socks4");
    assert_eq!(ProxyProtocol::Http.as_str(), "http");
    assert_eq!(ProxyProtocol::Https.as_str(), "https");
    assert_eq!(
        ProxyProtocol::all(),
        [ProxyProtocol::Socks5, ProxyProtocol::Socks4, ProxyProtocol::Http, ProxyProtocol::Https]
    );
    assert_eq!(ProxyProtocol::default(), ProxyProtocol::Socks5);
}

#[test]
fn audio_format_names() {
    assert_eq!(AudioFormat::Video.as_str(), "Video (Default)");
    assert_eq!(AudioFormat::Mp3.as_str(), "mp3");
    assert_eq!(AudioFormat::Aac.as_str(), "aac");
    assert_eq!(AudioFormat::M4a.as_str(), "m4a");
    assert_eq!(AudioFormat::Wav.as_str(), "wav");
    assert_eq!(AudioFormat::Flac.as_str(), "flac");
    assert_eq!(AudioFormat::Opus.as_str(), "opus");
    assert_eq!(AudioFormat::all().len(), 7);
    assert_eq!(AudioFormat::all()[0], AudioFormat::Video);
    assert_eq!(AudioFormat::default(), AudioFormat::Video);
}

#[test]
fn container_names() {
    assert_eq!(Container::Mp4.as_str(), "mp4");
    assert_eq!(Container::Mkv.as_str(), "mkv");
    assert_eq!(Container::Webm.as_str(), "webm");
    assert_eq!(Container::all(), [Container::Mp4, Container::Mkv, Container::Webm]);
    assert_eq!(Container::default(), Container::Mp4);
}

#[test]
fn video_type_names() {
    assert_eq!(VideoType::Normal.as_str(), "Normal / Best");
    assert_eq!(VideoType::VR360.as_str(), "Prefer VR / 360\u{b0}");
    assert_eq!(VideoType::ThreeD.as_str(), "Prefer 3D");
    assert_eq!(VideoType::all(), [VideoType::Normal, VideoType::VR360, VideoType::ThreeD]);
    assert_eq!(VideoType::default(), VideoType::Normal);
}

#[test]
fn filename_template_names_and_arguments() {
    assert_eq!(FilenameTemplate::Default.as_str(), "Default (Title [ID])");
    assert_eq!(FilenameTemplate::Clean.as_str(), "Clean (Title only)");
    assert_eq!(FilenameTemplate::Channel.as_str(), "Channel - Title");
    assert_eq!(FilenameTemplate::Numbered.as_str(), "Playlist Index - Title");
    assert_eq!(FilenameTemplate::Default.to_cmd_arg(), None);
    assert_eq!(FilenameTemplate::Clean.to_cmd_arg().as_deref(), Some("%(title)s.%(ext)s"));
    assert_eq!(
        FilenameTemplate::Channel.to_cmd_arg().as_deref(),
        Some("%(uploader)s - %(title)s.%(ext)s")
    );
    assert_eq!(
        FilenameTemplate::Numbered.to_cmd_arg().as_deref(),
        Some("%(playlist_index)s - %(title)s.%(ext)s")
    );
    assert_eq!(FilenameTemplate::all().len(), 4);
    assert_eq!(FilenameTemplate::default(), FilenameTemplate::Default);
    assert_eq!(AppTab::default(), AppTab::Dashboard);
}

#[test]
fn initial_settings() {
    let o = AdvOptions::default();
    assert_eq!(o.audio_fmt, AudioFormat::Video);
    assert_eq!(o.container, Container::Mp4);
    assert_eq!(o.video_type, VideoType::Normal);
    assert!(!o.embed_subs);
    assert_eq!(o.sub_langs, "all");
    assert!(o.embed_meta);
    assert!(o.embed_thumb);
    assert_eq!(o.filename_style, FilenameTemplate::Default);
    assert!(!o.sponsorblock);
    assert_eq!(o.playlist_items, "");
    assert_eq!(o.rate_limit, "");
    assert_eq!(o.custom_args, "");
    assert_eq!(o.snapshot(), o);
}

#[test]
fn percent_labels() {
    assert_eq!(Percent::zero(), Percent { thousandths: 0 });
    assert_eq!(Percent::full(), Percent { thousandths: 100_000 });
    assert_eq!(Percent::zero().label(), "0.0%");
    assert_eq!(Percent::full().label(), "100.0%");
    assert_eq!(Percent { thousandths: 42_500 }.label(), "42.5%");
    assert_eq!(Percent { thousandths: 42_549 }.label(), "42.5%");
    assert_eq!(Percent { thousandths: 42_550 }.label(), "42.6%");
    assert_eq!(Percent { thousandths: 99_950 }.label(), "100.0%");
    assert_eq!(Percent { thousandths: 7 }.label(), "0.0%");
    assert_eq!(Percent { thousandths: u64::MAX }.label(), "18446744073709551.6%");
}

#[test]
fn job_info_line_by_state() {
    let mut job =
        DownloadItem::new(3, "u".to_string(), "t".to_string(), AdvOptions::default());
    assert_eq!(job.id, 3);
    assert_eq!(job.info_text(), "");
    assert!(!job.can_cancel());
    job.status = DownloadStatus::Downloading;
    job.speed = "1MiB/s".to_string();
    job.total_size = "9MiB".to_string();
    assert_eq!(job.info_text(), "1MiB/s | 9MiB");
    assert!(job.can_cancel());
    job.status = DownloadStatus::Finished;
    assert_eq!(job.info_text(), "Completed: 9MiB");
    assert!(!job.can_cancel());
    job.status = DownloadStatus::Failed("gone".to_string());
    assert_eq!(job.info_text(), "Error: gone");
    job.status = DownloadStatus::Cancelled;
    assert_eq!(job.info_text(), "");
    assert_eq!(job.snapshot(), job);
    assert!(job.status.is_terminal());
    assert!(!DownloadStatus::Queued.is_terminal());
    assert!(DownloadStatus::Queued.is_queued());
    assert!(DownloadStatus::Downloading.is_downloading());
    assert_eq!(job.status.snapshot(), DownloadStatus::Cancelled);
}
