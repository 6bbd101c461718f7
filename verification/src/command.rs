//! The argument vectors that the download tool is started with.

use vstd::prelude::*;
use crate::text::{chars_of, rows, split_words, string_of, words};
use crate::types::{AdvOptions, AudioFormat, OptionsView, VideoType};

verus! {

/// One argument of a command line. The places that the caller fills in are
/// kept apart from literal text: they stand for paths of the machine that
/// runs the tool.
#[derive(Debug, Clone, PartialEq, Eq)]
pub enum CmdArg {
    /// Literal text.
    Text(String),
    /// The directory that downloads are written to.
    OutputDir,
    /// The cookie file.
    CookieFile,
    /// The local copy of the media converter.
    FfmpegLocation,
}

/// A `CmdArg` with its text as characters.
pub enum ArgView {
    Text(Seq<char>),
    OutputDir,
    CookieFile,
    FfmpegLocation,
}

impl View for CmdArg {
    type V = ArgView;

    open spec fn view(&self) -> ArgView {
        match self {
            CmdArg::Text(t) => ArgView::Text(t@),
            CmdArg::OutputDir => ArgView::OutputDir,
            CmdArg::CookieFile => ArgView::CookieFile,
            CmdArg::FfmpegLocation => ArgView::FfmpegLocation,
        }
    }
}

/// The arguments of a vector as plain values, in order.
pub open spec fn arg_views(v: Seq<CmdArg>) -> Seq<ArgView> {
    Seq::new(v.len(), |i: int| v[i]@)
}

/// Each text as a literal argument, in order.
pub open spec fn text_args(texts: Seq<Seq<char>>) -> Seq<ArgView> {
    Seq::new(texts.len(), |i: int| ArgView::Text(texts[i]))
}

/// The arguments that every download starts with: line-wise output in
/// UTF-8, nothing overwritten, errors passed over, the output directory and
/// the address.
pub open spec fn base_args(url: Seq<char>) -> Seq<ArgView> {
    seq![
        ArgView::Text("--newline"@),
        ArgView::Text("--encoding"@),
        ArgView::Text("utf-8"@),
        ArgView::Text("--no-overwrites"@),
        ArgView::Text("--ignore-errors"@),
        ArgView::Text("-P"@),
        ArgView::OutputDir,
        ArgView::Text(url),
    ]
}

/// The proxy flag, if a proxy is assigned.
pub open spec fn proxy_args(proxy: Option<Seq<char>>) -> Seq<ArgView> {
    match proxy {
        Some(p) => seq![ArgView::Text("--proxy"@), ArgView::Text(p)],
        None => Seq::empty(),
    }
}

/// The cookie flag, if a cookie file is configured.
pub open spec fn cookie_args(cookie: bool) -> Seq<ArgView> {
    if cookie {
        seq![ArgView::Text("--cookies"@), ArgView::CookieFile]
    } else {
        Seq::empty()
    }
}

/// The converter flag, if a local copy of the converter is present.
pub open spec fn ffmpeg_args(local_ffmpeg: bool) -> Seq<ArgView> {
    if local_ffmpeg {
        seq![ArgView::Text("--ffmpeg-location"@), ArgView::FfmpegLocation]
    } else {
        Seq::empty()
    }
}

/// The output template flag; the default template has none.
pub open spec fn template_args(o: OptionsView) -> Seq<ArgView> {
    match o.filename_style.cmd_arg() {
        Some(t) => seq![ArgView::Text("-o"@), ArgView::Text(t)],
        None => Seq::empty(),
    }
}

/// The format selection for a video: a sort preference for VR or 3D
/// streams where one is asked for, and always the best video with the best
/// audio.
pub open spec fn video_format_args(kind: VideoType) -> Seq<ArgView> {
    let best = seq![ArgView::Text("-f"@), ArgView::Text("bestvideo+bestaudio/best"@)];
    match kind {
        VideoType::Normal => best,
        VideoType::VR360 => seq![ArgView::Text("-S"@), ArgView::Text("vr,res,fps,codec"@)] + best,
        VideoType::ThreeD => seq![ArgView::Text("-S"@), ArgView::Text("3d,res,fps,codec"@)] + best,
    }
}

/// The subtitle flags: none unless subtitles are embedded; the language
/// filter only where languages are given.
pub open spec fn subtitle_args(o: OptionsView) -> Seq<ArgView> {
    if !o.embed_subs {
        Seq::empty()
    } else if o.sub_langs.len() == 0 {
        seq![ArgView::Text("--embed-subs"@)]
    } else {
        seq![
            ArgView::Text("--embed-subs"@),
            ArgView::Text("--sub-langs"@),
            ArgView::Text(o.sub_langs),
        ]
    }
}

/// The flags that embed metadata and thumbnail.
pub open spec fn embed_args(o: OptionsView) -> Seq<ArgView> {
    (if o.embed_meta {
        seq![ArgView::Text("--embed-metadata"@)]
    } else {
        Seq::empty()
    }) + (if o.embed_thumb {
        seq![ArgView::Text("--embed-thumbnail"@)]
    } else {
        Seq::empty()
    })
}

/// The flags that say what to fetch. For a video: the format selection, the
/// container to merge into, subtitles, metadata and thumbnail. For audio
/// only: the extraction with the codec at the best quality, metadata and
/// thumbnail, and nothing of the video flags.
pub open spec fn format_args(o: OptionsView) -> Seq<ArgView> {
    if o.audio_fmt == AudioFormat::Video {
        video_format_args(o.video_type) + seq![
            ArgView::Text("--merge-output-format"@),
            ArgView::Text(o.container.label()),
        ] + subtitle_args(o) + embed_args(o)
    } else {
        seq![
            ArgView::Text("-x"@),
            ArgView::Text("--audio-format"@),
            ArgView::Text(o.audio_fmt.label()),
            ArgView::Text("--audio-quality"@),
            ArgView::Text("0"@),
        ] + embed_args(o)
    }
}

/// The flags that follow the format: sponsor segments, the rate limit, and
/// the words of the free-form arguments.
pub open spec fn trailing_args(o: OptionsView) -> Seq<ArgView> {
    (if o.sponsorblock {
        seq![ArgView::Text("--sponsorblock-remove"@), ArgView::Text("all"@)]
    } else {
        Seq::empty()
    }) + (if o.rate_limit.len() > 0 {
        seq![ArgView::Text("-r"@), ArgView::Text(o.rate_limit)]
    } else {
        Seq::empty()
    }) + text_args(words(o.custom_args))
}

/// The whole argument vector of a download.
pub open spec fn download_args(
    url: Seq<char>,
    proxy: Option<Seq<char>>,
    cookie: bool,
    local_ffmpeg: bool,
    o: OptionsView,
) -> Seq<ArgView> {
    base_args(url) + proxy_args(proxy) + cookie_args(cookie) + ffmpeg_args(local_ffmpeg)
        + template_args(o) + format_args(o) + trailing_args(o)
}

/// The argument vector of an analysis: one description in JSON, playlists
/// not expanded, for the address, with proxy and cookie file if given.
pub open spec fn analysis_args(url: Seq<char>, proxy: Option<Seq<char>>, cookie: bool) -> Seq<
    ArgView,
> {
    seq![ArgView::Text("-J"@), ArgView::Text("--flat-playlist"@), ArgView::Text(url)] + proxy_args(
        proxy,
    ) + cookie_args(cookie)
}

/// Appends one argument.
fn push_arg(out: &mut Vec<CmdArg>, arg: CmdArg)
    ensures
        arg_views(final(out)@) == arg_views(old(out)@) + seq![arg@],
{
    out.push(arg);
    assert(arg_views(out@) =~= arg_views(old(out)@) + seq![arg@]);
}

/// Appends one literal argument.
fn push_text(out: &mut Vec<CmdArg>, text: &str)
    ensures
        arg_views(final(out)@) == arg_views(old(out)@) + seq![ArgView::Text(text@)],
{
    push_arg(out, CmdArg::Text(text.to_owned()));
}

/// Appends the proxy flag.
fn push_proxy(out: &mut Vec<CmdArg>, proxy: &Option<String>)
    ensures
        arg_views(final(out)@) == arg_views(old(out)@) + proxy_args(
            match *proxy {
                Some(p) => Some(p@),
                None => None,
            },
        ),
{
    match proxy {
        Some(p) => {
            push_text(out, "--proxy");
            push_text(out, p.as_str());
            assert(arg_views(out@) =~= arg_views(old(out)@) + proxy_args(Some(p@)));
        },
        None => {
            assert(arg_views(out@) =~= arg_views(old(out)@) + proxy_args(None));
        },
    }
}

/// Appends the cookie flag.
fn push_cookie(out: &mut Vec<CmdArg>, cookie: bool)
    ensures
        arg_views(final(out)@) == arg_views(old(out)@) + cookie_args(cookie),
{
    if cookie {
        push_text(out, "--cookies");
        push_arg(out, CmdArg::CookieFile);
    }
    assert(arg_views(out@) =~= arg_views(old(out)@) + cookie_args(cookie));
}

/// Appends the flags that embed metadata and thumbnail.
fn push_embed(out: &mut Vec<CmdArg>, o: &AdvOptions)
    ensures
        arg_views(final(out)@) == arg_views(old(out)@) + embed_args(o@),
{
    if o.embed_meta {
        push_text(out, "--embed-metadata");
    }
    if o.embed_thumb {
        push_text(out, "--embed-thumbnail");
    }
    assert(arg_views(out@) =~= arg_views(old(out)@) + embed_args(o@));
}

/// Appends the format selection for a video.
fn push_video_format(out: &mut Vec<CmdArg>, kind: VideoType)
    ensures
        arg_views(final(out)@) == arg_views(old(out)@) + video_format_args(kind),
{
    match kind {
        VideoType::Normal => {},
        VideoType::VR360 => {
            push_text(out, "-S");
            push_text(out, "vr,res,fps,codec");
        },
        VideoType::ThreeD => {
            push_text(out, "-S");
            push_text(out, "3d,res,fps,codec");
        },
    }
    push_text(out, "-f");
    push_text(out, "bestvideo+bestaudio/best");
    assert(arg_views(out@) =~= arg_views(old(out)@) + video_format_args(kind));
}

/// Appends the subtitle flags.
fn push_subtitles(out: &mut Vec<CmdArg>, o: &AdvOptions)
    ensures
        arg_views(final(out)@) == arg_views(old(out)@) + subtitle_args(o@),
{
    if o.embed_subs {
        push_text(out, "--embed-subs");
        if !o.sub_langs.as_str().is_empty() {
            push_text(out, "--sub-langs");
            push_text(out, o.sub_langs.as_str());
        }
    }
    assert(arg_views(out@) =~= arg_views(old(out)@) + subtitle_args(o@));
}

/// Appends the container to merge into.
fn push_container(out: &mut Vec<CmdArg>, o: &AdvOptions)
    ensures
        arg_views(final(out)@) == arg_views(old(out)@) + seq![
            ArgView::Text("--merge-output-format"@),
            ArgView::Text(o@.container.label()),
        ],
{
    push_text(out, "--merge-output-format");
    push_text(out, o.container.as_str());
    assert(arg_views(out@) =~= arg_views(old(out)@) + seq![
        ArgView::Text("--merge-output-format"@),
        ArgView::Text(o@.container.label()),
    ]);
}

/// Appends the audio extraction with the codec of `fmt`.
fn push_extraction(out: &mut Vec<CmdArg>, fmt: AudioFormat)
    ensures
        arg_views(final(out)@) == arg_views(old(out)@) + seq![
            ArgView::Text("-x"@),
            ArgView::Text("--audio-format"@),
            ArgView::Text(fmt.label()),
            ArgView::Text("--audio-quality"@),
            ArgView::Text("0"@),
        ],
{
    push_text(out, "-x");
    push_text(out, "--audio-format");
    push_text(out, fmt.as_str());
    push_text(out, "--audio-quality");
    push_text(out, "0");
    assert(arg_views(out@) =~= arg_views(old(out)@) + seq![
        ArgView::Text("-x"@),
        ArgView::Text("--audio-format"@),
        ArgView::Text(fmt.label()),
        ArgView::Text("--audio-quality"@),
        ArgView::Text("0"@),
    ]);
}

/// Appends the flags that say what to fetch.
fn push_format(out: &mut Vec<CmdArg>, o: &AdvOptions)
    ensures
        arg_views(final(out)@) == arg_views(old(out)@) + format_args(o@),
{
    match o.audio_fmt {
        AudioFormat::Video => {
            push_video_format(out, o.video_type);
            push_container(out, o);
            push_subtitles(out, o);
            push_embed(out, o);
            assert(arg_views(out@) =~= arg_views(old(out)@) + format_args(o@));
        },
        fmt => {
            push_extraction(out, fmt);
            push_embed(out, o);
            assert(arg_views(out@) =~= arg_views(old(out)@) + format_args(o@));
        },
    }
}

/// Appends the flags that follow the format.
fn push_trailing(out: &mut Vec<CmdArg>, o: &AdvOptions)
    ensures
        arg_views(final(out)@) == arg_views(old(out)@) + trailing_args(o@),
{
    if o.sponsorblock {
        push_text(out, "--sponsorblock-remove");
        push_text(out, "all");
    }
    if !o.rate_limit.as_str().is_empty() {
        push_text(out, "-r");
        push_text(out, o.rate_limit.as_str());
    }
    let ghost mid = arg_views(out@);
    let extra = split_words(&chars_of(o.custom_args.as_str()));
    let mut i: usize = 0;
    while i < extra.len()
        invariant
            i <= extra.len(),
            rows(extra@) == words(o@.custom_args),
            arg_views(out@) == mid + text_args(words(o@.custom_args).subrange(0, i as int)),
        decreases extra.len() - i,
    {
        let word = string_of(&extra[i]);
        push_text(out, word.as_str());
        assert(arg_views(out@) =~= mid + text_args(
            words(o@.custom_args).subrange(0, i + 1),
        )) by {
            assert(rows(extra@)[i as int] == extra@[i as int]@);
        }
        i += 1;
    }
    assert(words(o@.custom_args).subrange(0, extra.len() as int) =~= words(o@.custom_args));
    assert(arg_views(out@) =~= arg_views(old(out)@) + trailing_args(o@));
}

/// Builds the argument vector of a download of `url`: with `proxy` if one
/// is assigned, with the cookie file if `cookie` says that one is
/// configured, with the local converter if `local_ffmpeg` says that one is
/// present, and with what `options` ask for.
pub fn build_download_args(
    url: &str,
    proxy: &Option<String>,
    cookie: bool,
    local_ffmpeg: bool,
    options: &AdvOptions,
) -> (r: Vec<CmdArg>)
    ensures
        arg_views(r@) == download_args(
            url@,
            match *proxy {
                Some(p) => Some(p@),
                None => None,
            },
            cookie,
            local_ffmpeg,
            options@,
        ),
{
    let mut out: Vec<CmdArg> = Vec::new();
    assert(arg_views(out@) =~= Seq::empty());
    push_text(&mut out, "--newline");
    push_text(&mut out, "--encoding");
    push_text(&mut out, "utf-8");
    push_text(&mut out, "--no-overwrites");
    push_text(&mut out, "--ignore-errors");
    push_text(&mut out, "-P");
    push_arg(&mut out, CmdArg::OutputDir);
    push_text(&mut out, url);
    assert(arg_views(out@) =~= base_args(url@));
    push_proxy(&mut out, proxy);
    push_cookie(&mut out, cookie);
    let ghost mid = arg_views(out@);
    if local_ffmpeg {
        push_text(&mut out, "--ffmpeg-location");
        push_arg(&mut out, CmdArg::FfmpegLocation);
    }
    assert(arg_views(out@) =~= mid + ffmpeg_args(local_ffmpeg));
    let ghost mid = arg_views(out@);
    match options.filename_style.to_cmd_arg() {
        Some(t) => {
            push_text(&mut out, "-o");
            push_text(&mut out, t.as_str());
        },
        None => {},
    }
    assert(arg_views(out@) =~= mid + template_args(options@));
    push_format(&mut out, options);
    push_trailing(&mut out, options);
    out
}

/// Builds the argument vector of an analysis of `url`.
pub fn build_analysis_args(url: &str, proxy: &Option<String>, cookie: bool) -> (r: Vec<CmdArg>)
    ensures
        arg_views(r@) == analysis_args(
            url@,
            match *proxy {
                Some(p) => Some(p@),
                None => None,
            },
            cookie,
        ),
{
    let mut out: Vec<CmdArg> = Vec::new();
    assert(arg_views(out@) =~= Seq::empty());
    push_text(&mut out, "-J");
    push_text(&mut out, "--flat-playlist");
    push_text(&mut out, url);
    let ghost head = arg_views(out@);
    assert(head =~= seq![
        ArgView::Text("-J"@),
        ArgView::Text("--flat-playlist"@),
        ArgView::Text(url@),
    ]);
    push_proxy(&mut out, proxy);
    push_cookie(&mut out, cookie);
    out
}

/// Where the download tool is started from.
#[derive(Debug, Clone, Copy, PartialEq, Eq, Structural)]
pub enum Program {
    /// The copy in the working directory.
    LocalCopy,
    /// Whatever the search path of the environment finds.
    OnSearchPath,
}

/// Picks the program to start: the local copy if there is one.
pub fn choose_program(local_copy_present: bool) -> (r: Program)
    ensures
        r == if local_copy_present {
            Program::LocalCopy
        } else {
            Program::OnSearchPath
        },
{
    if local_copy_present {
        Program::LocalCopy
    } else {
        Program::OnSearchPath
    }
}

} // verus!
