use ytdl_engine::command::{
    build_analysis_args, build_download_args, choose_program, CmdArg, Program,
};
use ytdl_engine::types::{AdvOptions, AudioFormat, Container, FilenameTemplate, VideoType};

fn t(s: &str) -> CmdArg {
    CmdArg::Text(s.to_string())
}

fn base(url: &str) -> Vec<CmdArg> {
    vec![
        t("--newline"),
        t("--encoding"),
        t("utf-8"),
        t("--no-overwrites"),
        t("--ignore-errors"),
        t("-P"),
        CmdArg::OutputDir,
        t(url),
    ]
}

#[test]
fn download_args_for_initial_settings() {
    let args = build_download_args("https://x/v", &None, false, false, &AdvOptions::default());
    let mut want = base("https://x/v");
    want.extend(vec![
        t("-f"),
        t("bestvideo+bestaudio/best"),
        t("--merge-output-format"),
        t("mp4"),
        t("--embed-metadata"),
        t("--embed-thumbnail"),
    ]);
    assert_eq!(args, want);
}

#[test]
fn download_args_with_proxy_cookie_and_converter() {
    let mut o = AdvOptions::default();
    o.embed_meta = false;
    o.embed_thumb = false;
    let args =
        build_download_args("u", &Some("socks5://h:1".to_string()), true, true, &o);
    let mut want = base("u");
    want.extend(vec![
        t("--proxy"),
        t("socks5://h:1"),
        t("--cookies"),
        CmdArg::CookieFile,
        t("--ffmpeg-location"),
        CmdArg::FfmpegLocation,
        t("-f"),
        t("bestvideo+bestaudio/best"),
        t("--merge-output-format"),
        t("mp4"),
    ]);
    assert_eq!(args, want);
}

#[test]
fn download_args_for_audio_only() {
    let mut o = AdvOptions::default();
    o.audio_fmt = AudioFormat::Mp3;
    o.video_type = VideoType::VR360;
    o.container = Container::Mkv;
    o.embed_subs = true;
    o.embed_thumb = false;
    let args = build_download_args("u", &None, false, false, &o);
    let mut want = base("u");
    want.extend(vec![
        t("-x"),
        t("--audio-format"),
        t("mp3"),
        t("--audio-quality"),
        t("0"),
        t("--embed-metadata"),
    ]);
    assert_eq!(args, want);
}

#[test]
fn download_args_for_each_audio_codec() {
    for (fmt, name) in [
        (AudioFormat::Mp3, "mp3"),
        (AudioFormat::Aac, "aac"),
        (AudioFormat::M4a, "m4a"),
        (AudioFormat::Wav, "wav"),
        (AudioFormat::Flac, "flac"),
        (AudioFormat::Opus, "opus"),
    ] {
        let mut o = AdvOptions::default();
        o.audio_fmt = fmt;
        let args = build_download_args("u", &None, false, false, &o);
        assert_eq!(args[8..11].to_vec(), vec![t("-x"), t("--audio-format"), t(name)]);
        assert!(!args.contains(&t("-f")));
        assert!(!args.contains(&t("--merge-output-format")));
    }
}

#[test]
fn download_args_for_vr_and_3d() {
    let mut o = AdvOptions::default();
    o.embed_meta = false;
    o.embed_thumb = false;
    o.container = Container::Webm;
    o.video_type = VideoType::VR360;
    let mut want = base("u");
    want.extend(vec![
        t("-S"),
        t("vr,res,fps,codec"),
        t("-f"),
        t("bestvideo+bestaudio/best"),
        t("--merge-output-format"),
        t("webm"),
    ]);
    assert_eq!(build_download_args("u", &None, false, false, &o), want);
    o.video_type = VideoType::ThreeD;
    want[9] = t("3d,res,fps,codec");
    assert_eq!(build_download_args("u", &None, false, false, &o), want);
}

#[test]
fn download_args_for_subtitles() {
    let mut o = AdvOptions::default();
    o.embed_meta = false;
    o.embed_thumb = false;
    o.embed_subs = true;
    let args = build_download_args("u", &None, false, false, &o);
    assert_eq!(args[12..].to_vec(), vec![t("--embed-subs"), t("--sub-langs"), t("all")]);
    o.sub_langs = "en,ja".to_string();
    let args = build_download_args("u", &None, false, false, &o);
    assert_eq!(args[12..].to_vec(), vec![t("--embed-subs"), t("--sub-langs"), t("en,ja")]);
    o.sub_langs = String::new();
    let args = build_download_args("u", &None, false, false, &o);
    assert_eq!(args[12..].to_vec(), vec![t("--embed-subs")]);
}

#[test]
fn download_args_for_filename_templates() {
    for (style, template) in [
        (FilenameTemplate::Clean, "%(title)s.%(ext)s"),
        (FilenameTemplate::Channel, "%(uploader)s - %(title)s.%(ext)s"),
        (FilenameTemplate::Numbered, "%(playlist_index)s - %(title)s.%(ext)s"),
    ] {
        let mut o = AdvOptions::default();
        o.filename_style = style;
        let args = build_download_args("u", &None, false, false, &o);
        assert_eq!(args[8..10].to_vec(), vec![t("-o"), t(template)]);
        assert_eq!(args[10], t("-f"));
    }
    let args = build_download_args("u", &None, false, false, &AdvOptions::default());
    assert!(!args.contains(&t("-o")));
}

#[test]
fn download_args_for_trailing_flags() {
    let mut o = AdvOptions::default();
    o.embed_meta = false;
    o.embed_thumb = false;
    o.sponsorblock = true;
    o.rate_limit = "5M".to_string();
    o.custom_args = "  --geo-bypass\t--user-agent   x \n".to_string();
    o.playlist_items = "1-3".to_string();
    let args = build_download_args("u", &None, false, false, &o);
    assert_eq!(
        args[12..].to_vec(),
        vec![
            t("--sponsorblock-remove"),
            t("all"),
            t("-r"),
            t("5M"),
            t("--geo-bypass"),
            t("--user-agent"),
            t("x"),
        ]
    );
    o.custom_args = " \u{a0}\u{3000} ".to_string();
    o.sponsorblock = false;
    o.rate_limit = String::new();
    assert_eq!(build_download_args("u", &None, false, false, &o).len(), 12);
}

#[test]
fn analysis_args_with_and_without_extras() {
    assert_eq!(
        build_analysis_args("https://x/v", &None, false),
        vec![t("-J"), t("--flat-playlist"), t("https://x/v")]
    );
    assert_eq!(
        build_analysis_args("u", &Some("http://h:1".to_string()), true),
        vec![
            t("-J"),
            t("--flat-playlist"),
            t("u"),
            t("--proxy"),
            t("http://h:1"),
            t("--cookies"),
            CmdArg::CookieFile,
        ]
    );
}

#[test]
fn local_copy_of_the_program_is_preferred() {
    assert_eq!(choose_program(true), Program::LocalCopy);
    assert_eq!(choose_program(false), Program::OnSearchPath);
}
