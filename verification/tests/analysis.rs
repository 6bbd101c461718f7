use ytdl_engine::analysis::{
    interpret, mark_reading, read_analysis, Analysis, Found, ProbeEntry, ProbeReport, ProbeRun,
};

fn empty_report() -> ProbeReport {
    ProbeReport { is_live: None, webpage_url: None, url: None, title: None, entries: None }
}

fn exited(stdout: &str) -> ProbeRun {
    ProbeRun::Exited { success: true, stdout: stdout.to_string(), stderr: String::new() }
}

#[test]
fn analysis_reads_a_single_video() {
    let r = read_analysis(&exited(
        r#"{"id": "abc", "title": "A video", "webpage_url": "https://x/watch?v=abc", "is_live": false}"#,
    ));
    assert_eq!(
        r,
        Ok(ProbeReport {
            is_live: Some(false),
            webpage_url: Some("https://x/watch?v=abc".to_string()),
            url: None,
            title: Some("A video".to_string()),
            entries: None,
        })
    );
}

#[test]
fn analysis_reads_a_playlist() {
    let r = read_analysis(&exited(
        r#"{"title": "List", "entries": [{"id": "a", "title": "First"}, {"id": 7}, {"title": "No id"}, "x", {"id": "b"}]}"#,
    ));
    assert_eq!(
        r,
        Ok(ProbeReport {
            is_live: None,
            webpage_url: None,
            url: None,
            title: Some("List".to_string()),
            entries: Some(vec![
                ProbeEntry { id: Some("a".to_string()), title: Some("First".to_string()) },
                ProbeEntry { id: None, title: None },
                ProbeEntry { id: None, title: Some("No id".to_string()) },
                ProbeEntry { id: None, title: None },
                ProbeEntry { id: Some("b".to_string()), title: None },
            ]),
        })
    );
}

#[test]
fn analysis_ignores_fields_of_the_wrong_kind() {
    let r = read_analysis(&exited(
        r#"{"is_live": "yes", "title": 5, "url": null, "webpage_url": ["x"], "entries": {"a": 1}}"#,
    ));
    assert_eq!(r, Ok(empty_report()));
    assert_eq!(read_analysis(&exited("[1, 2]")), Ok(empty_report()));
    assert_eq!(read_analysis(&exited("3")), Ok(empty_report()));
}

#[test]
fn analysis_of_invalid_json_is_an_error() {
    let r = read_analysis(&exited("{not json"));
    let why = r.unwrap_err();
    assert!(why.starts_with("JSON Parse Error: "));
    assert!(why.len() > "JSON Parse Error: ".len());
    let why = read_analysis(&exited("")).unwrap_err();
    assert!(why.starts_with("JSON Parse Error: "));
}

#[test]
fn analysis_of_a_failed_run_is_its_error_output() {
    let run = ProbeRun::Exited {
        success: false,
        stdout: r#"{"title": "x"}"#.to_string(),
        stderr: "ERROR: unsupported URL\n".to_string(),
    };
    assert_eq!(read_analysis(&run), Err("ERROR: unsupported URL\n".to_string()));
}

#[test]
fn analysis_that_could_not_run_says_so() {
    let run = ProbeRun::Unstarted("program not found".to_string());
    assert_eq!(read_analysis(&run), Err("Execution failed: program not found".to_string()));
}

#[test]
fn reading_error_is_marked() {
    assert_eq!(mark_reading(Err("eof".to_string())), Err("JSON Parse Error: eof".to_string()));
    assert_eq!(mark_reading(Ok(empty_report())), Ok(empty_report()));
}

#[test]
fn single_video_falls_back_on_what_was_asked() {
    assert_eq!(
        interpret(&empty_report(), " typed "),
        Analysis::Single(Found { url: " typed ".to_string(), title: "Video".to_string() })
    );
    let mut r = empty_report();
    r.url = Some("u".to_string());
    r.title = Some("T".to_string());
    assert_eq!(
        interpret(&r, "typed"),
        Analysis::Single(Found { url: "u".to_string(), title: "T".to_string() })
    );
    r.webpage_url = Some("w".to_string());
    assert_eq!(
        interpret(&r, "typed"),
        Analysis::Single(Found { url: "w".to_string(), title: "T".to_string() })
    );
}

#[test]
fn playlist_skips_entries_without_id() {
    let mut r = empty_report();
    r.title = Some("List".to_string());
    r.webpage_url = Some("w".to_string());
    r.entries = Some(vec![
        ProbeEntry { id: Some("a".to_string()), title: Some("First".to_string()) },
        ProbeEntry { id: None, title: Some("No id".to_string()) },
        ProbeEntry { id: Some("b".to_string()), title: None },
    ]);
    assert_eq!(
        interpret(&r, "typed"),
        Analysis::Playlist(vec![
            Found {
                url: "https://www.youtube.com/watch?v=a".to_string(),
                title: "First".to_string()
            },
            Found {
                url: "https://www.youtube.com/watch?v=b".to_string(),
                title: "Unknown Title".to_string()
            },
        ])
    );
    r.entries = Some(vec![]);
    assert_eq!(interpret(&r, "typed"), Analysis::Playlist(vec![]));
}

#[test]
fn live_stream_needs_flag_and_address() {
    let mut r = empty_report();
    r.is_live = Some(true);
    assert_eq!(
        interpret(&r, "typed"),
        Analysis::Single(Found { url: "typed".to_string(), title: "Video".to_string() })
    );
    r.url = Some("u".to_string());
    assert_eq!(interpret(&r, "typed"), Analysis::Live("u".to_string()));
    r.webpage_url = Some("w".to_string());
    assert_eq!(interpret(&r, "typed"), Analysis::Live("w".to_string()));
    r.entries = Some(vec![]);
    assert_eq!(interpret(&r, "typed"), Analysis::Live("w".to_string()));
    r.is_live = Some(false);
    assert_eq!(interpret(&r, "typed"), Analysis::Playlist(vec![]));
}
