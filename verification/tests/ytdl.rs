use dangler::json::Json;
use dangler::mcp::ErrorKind;
use dangler::ytdl::digest::{digest, langs};
use dangler::ytdl::listing::{list, DirEntry};
use dangler::ytdl::server::{
    inform, AudioArgs, DownloadArgs, ListArgs, Surroundings, ToolkitCommand, TranscriptArgs,
    UrlArgs, Ytdl, YtdlCall, YtdlEvent, YtdlStep, YtdlTool,
};
use dangler::ytdl::toolkit::{
    cookie_jar, downloads_dir, home, python, read_only, run, script, settle, tail, timeout_secs,
    ytdlp, ytdlp_base, Places, Run, RunEnd, SETUP_HINT,
};

fn some(s: &str) -> Option<String> {
    Some(s.to_string())
}

fn places() -> Places {
    Places::of("/kit", "transcript.py")
}

fn around() -> Surroundings {
    Surroundings {
        places: Ytdl::places(&some("/kit")),
        home_is_dir: true,
        exe_exists: true,
        deno_exists: true,
        script_exists: true,
        jar_is_file: false,
        jar_age_secs: None,
        downloads_var: None,
        python_var: None,
    }
}

fn info(full: bool) -> YtdlCall {
    YtdlCall::Info(UrlArgs { url: "u".to_string(), full })
}

fn video(max_height: Option<u32>, playlist: bool, dir: Option<&str>) -> YtdlCall {
    YtdlCall::DownloadVideo(DownloadArgs {
        url: "u".to_string(),
        max_height,
        playlist,
        output_dir: dir.map(str::to_string),
    })
}

fn audio() -> YtdlCall {
    YtdlCall::DownloadAudio(AudioArgs { url: "u".to_string(), playlist: false, output_dir: some("") })
}

fn transcript(whisper: bool, lang: Option<&str>, file: Option<&str>) -> YtdlCall {
    YtdlCall::Transcript(TranscriptArgs {
        url: "u".to_string(),
        lang: lang.map(str::to_string),
        srt: whisper,
        whisper,
        output_file: file.map(str::to_string),
    })
}

fn begin(call: &YtdlCall, around: &Surroundings, read_only: bool) -> YtdlStep {
    Ytdl::call_tool(call, around, read_only, YtdlEvent::Begin)
}

fn command(step: YtdlStep) -> ToolkitCommand {
    match step {
        YtdlStep::Run(c) => c,
        other => panic!("{other:?}"),
    }
}

fn text(step: YtdlStep) -> String {
    match step {
        YtdlStep::Reply(t) => t,
        other => panic!("{other:?}"),
    }
}

fn compact(step: YtdlStep) -> String {
    Json::parse(&text(step)).unwrap().to_compact()
}

fn error(step: YtdlStep) -> (ErrorKind, String) {
    match step {
        YtdlStep::Fail(e) => (e.kind, e.message),
        other => panic!("{other:?}"),
    }
}

fn ran(stdout: &str, stderr: &str) -> YtdlEvent {
    YtdlEvent::Ran(Ok(Run { stdout: stdout.to_string(), stderr: stderr.to_string() }))
}

#[test]
fn the_timeout_is_the_variable_or_the_default() {
    assert_eq!(timeout_secs(&None), 900);
    assert_eq!(timeout_secs(&some("60")), 60);
    assert_eq!(timeout_secs(&some("0")), 0);
    assert_eq!(timeout_secs(&some("1h")), 900);
    assert_eq!(timeout_secs(&some("")), 900);
    assert_eq!(timeout_secs(&some("99999999999999999999")), 900);
}

#[test]
fn variables_that_are_empty_do_not_count() {
    assert!(read_only(&some("1")));
    assert!(!read_only(&some("")));
    assert!(!read_only(&None));
    assert_eq!(python(&some("py3")), "py3");
    assert_eq!(python(&some("")), "python");
    assert_eq!(python(&None), "python");
    assert_eq!(downloads_dir(&places(), &some("/d")), "/d");
    assert_eq!(downloads_dir(&places(), &some("")), "/kit/downloads");
    assert_eq!(downloads_dir(&places(), &None), "/kit/downloads");
}

#[test]
fn a_missing_toolkit_is_explained() {
    assert_eq!(home(&some("/kit"), true), Ok("/kit".to_string()));
    assert_eq!(home(&None, false), Err(format!("YTDL_HOME is not set. {SETUP_HINT}")));
    assert_eq!(home(&some(""), true), Err(format!("YTDL_HOME is not set. {SETUP_HINT}")));
    assert_eq!(
        home(&some("/kit"), false),
        Err(format!("YTDL_HOME (/kit) is not a directory. {SETUP_HINT}"))
    );
    assert_eq!(ytdlp(&places(), true), Ok("/kit/bin/yt-dlp.exe".to_string()));
    assert_eq!(
        ytdlp(&places(), false),
        Err(format!("/kit/bin/yt-dlp.exe is missing from the toolkit. {SETUP_HINT}"))
    );
    assert_eq!(script(&places(), true), Ok("/kit/scripts/transcript.py".to_string()));
    assert_eq!(
        script(&Places::of("/kit", "other.py"), false),
        Err(format!("/kit/scripts/other.py is missing from the toolkit. {SETUP_HINT}"))
    );
}

#[test]
fn everything_stands_where_a_toolkit_has_it() {
    for (home, root) in [
        ("/kit", "/kit/"),
        ("/kit/", "/kit/"),
        ("", ""),
        ("C:\\kit", "C:\\kit/"),
        ("\\\\?\\C:\\kit", "\\\\?\\C:\\kit/"),
    ] {
        let p = Places::of(home, "a.py");
        assert_eq!(p.home(), home);
        assert_eq!(p.exe(), format!("{root}bin/yt-dlp.exe"));
        assert_eq!(p.deno(), format!("{root}bin/deno.exe"));
        assert_eq!(p.script(), format!("{root}scripts/a.py"));
        assert_eq!(p.jar(), format!("{root}auth/cookies.txt"));
        assert_eq!(downloads_dir(&p, &None), format!("{root}downloads"));
    }
    assert_eq!(Ytdl::places(&None).home(), "");
    assert_eq!(Ytdl::places(&some("/k")).script(), "/k/scripts/transcript.py");
}

#[test]
fn the_session_is_used_where_one_was_captured() {
    assert_eq!(cookie_jar(&places(), true), some("/kit/auth/cookies.txt"));
    assert_eq!(cookie_jar(&places(), false), None);
    let base = ["--js-runtimes", "deno:/kit/bin/deno.exe", "--ffmpeg-location", "/kit/bin"];
    assert_eq!(ytdlp_base(&places(), true, false).unwrap(), base.to_vec());
    let mut with_jar = base.to_vec();
    with_jar.extend(["--cookies", "/kit/auth/cookies.txt"]);
    assert_eq!(ytdlp_base(&places(), true, true).unwrap(), with_jar);
    assert_eq!(
        ytdlp_base(&places(), false, true),
        Err(format!("/kit/bin/deno.exe is missing from the toolkit. {SETUP_HINT}"))
    );
}

#[test]
fn the_tail_holds_the_last_lines_that_are_not_blank() {
    assert_eq!(tail("a\n\n b \r\n \t\nc\n", 2), " b \nc");
    assert_eq!(tail("a\nb", 5), "a\nb");
    assert_eq!(tail("a\nb", 0), "");
    assert_eq!(tail("", 3), "");
}

#[test]
fn a_run_comes_to_its_output_or_an_error() {
    let end = |success: bool| RunEnd::Exited {
        success,
        status: "exit status: 1".to_string(),
        stdout: vec![b'o', b'k', 0xff],
        stderr: b"noise\n\nERROR: bot\n".to_vec(),
    };
    let ok = run("p", 9, end(true)).unwrap();
    assert_eq!(ok.stdout, "ok\u{fffd}");
    assert_eq!(ok.stderr, "noise\n\nERROR: bot\n");
    assert_eq!(
        run("p", 9, end(false)).unwrap_err(),
        "p exited with exit status: 1: noise\nERROR: bot"
    );
    assert_eq!(
        run("p", 9, RunEnd::Unspawned("not found".to_string())).unwrap_err(),
        "spawning p: not found"
    );
    assert_eq!(
        run("p", 9, RunEnd::TimedOut).unwrap_err(),
        "timed out after 9s — raise YTDL_TIMEOUT_SECS for long videos, or check whether the extractor is stuck"
    );
    assert_eq!(run("p", 9, RunEnd::Lost("io".to_string())).unwrap_err(), "running p: io");
    let noise: Vec<String> = (0..30).map(|n| format!("line {n}")).collect();
    let e = settle("p", false, "code", String::new(), noise.join("\n")).unwrap_err();
    assert_eq!(e, format!("p exited with code: {}", noise[10..].join("\n")));
}

#[test]
fn the_surface_is_six_tools() {
    let tools = Ytdl::tools();
    let names: Vec<&str> = tools.iter().map(|t| t.name.as_str()).collect();
    assert_eq!(
        names,
        vec![
            "video_info",
            "download_video",
            "download_audio",
            "fetch_transcript",
            "session_status",
            "list_downloads"
        ]
    );
    for n in &names {
        assert!(Ytdl::route(n, false).is_ok());
    }
    assert_eq!(
        tools[3].input_schema.to_compact(),
        r#"{"properties":{"lang":{"description":"caption language code, e.g. 'es'","type":"string"},"output_file":{"type":"string"},"srt":{"description":"keep SRT timing instead of plain text","type":"boolean"},"url":{"type":"string"},"whisper":{"description":"allow local Whisper ASR fallback (downloads the media)","type":"boolean"}},"required":["url"],"type":"object"}"#
    );
    assert_eq!(
        tools[5].input_schema.to_compact(),
        r#"{"properties":{"dir":{"type":"string"},"limit":{"type":"integer"}},"type":"object"}"#
    );
    assert_eq!(Ytdl::get_info().name, "dangler-ytdl");
    assert!(Ytdl::get_info().instructions.contains("SCOPE: personal, local, non-monetized archiving only"));
}

#[test]
fn downloads_are_refused_in_read_only_mode() {
    assert_eq!(Ytdl::route("fetch_transcript", true).unwrap(), YtdlTool::Transcript);
    assert_eq!(Ytdl::route("nope", true).unwrap_err().message, "unknown tool 'nope'");
    for n in ["download_video", "download_audio"] {
        let e = Ytdl::route(n, true).unwrap_err();
        assert_eq!(e.kind, ErrorKind::InvalidParams);
        assert_eq!(e.message, format!("'{n}' writes to disk and YTDL_READ_ONLY is set"));
    }
    let refused = |tool: &str| {
        (ErrorKind::InvalidParams, format!("'{tool}' writes to disk and YTDL_READ_ONLY is set"))
    };
    let a = around();
    assert_eq!(error(begin(&video(None, false, None), &a, true)), refused("download_video"));
    assert_eq!(error(begin(&audio(), &a, true)), refused("download_audio"));
    assert_eq!(error(begin(&transcript(true, None, None), &a, true)), refused("fetch_transcript"));
    assert_eq!(
        error(begin(&transcript(false, None, Some("")), &a, true)),
        refused("fetch_transcript")
    );
    command(begin(&transcript(false, None, None), &a, true));
    command(begin(&info(false), &a, true));
    text(begin(&YtdlCall::Session, &a, true));
}

#[test]
fn metadata_is_asked_for_and_digested() {
    let mut a = around();
    a.jar_is_file = true;
    let c = command(begin(&info(false), &a, false));
    assert_eq!(c.program, "/kit/bin/yt-dlp.exe");
    assert_eq!(c.cwd, "/kit");
    assert_eq!(
        c.args,
        vec![
            "--js-runtimes",
            "deno:/kit/bin/deno.exe",
            "--ffmpeg-location",
            "/kit/bin",
            "--cookies",
            "/kit/auth/cookies.txt",
            "-J",
            "--no-playlist",
            "--no-warnings",
            "u"
        ]
    );
    let dump = " {\"id\":\"x\",\"other\":1}\n";
    assert_eq!(
        compact(Ytdl::call_tool(&info(true), &a, false, ran(dump, ""))),
        r#"{"id":"x","other":1}"#
    );
    assert_eq!(
        compact(Ytdl::call_tool(&info(false), &a, false, ran(dump, ""))),
        r#"{"auto_caption_languages":[],"available_heights":[],"channel_url":null,"duration_seconds":null,"id":"x","is_live":null,"subtitle_languages":[],"title":null,"upload_date":null,"uploader":null,"view_count":null,"webpage_url":null}"#
    );
    assert_eq!(
        error(Ytdl::call_tool(&info(false), &a, false, ran("", "w1\nw2\n\nw3\nw4\nw5\nw6"))),
        (
            ErrorKind::Internal,
            "yt-dlp metadata was not JSON: EOF while parsing a value at line 1 column 0; w2\nw3\nw4\nw5\nw6"
                .to_string()
        )
    );
    assert_eq!(
        error(inform(Err("cause".to_string()), true, "noise")).1,
        "yt-dlp metadata was not JSON: cause; noise"
    );
}

#[test]
fn a_digest_holds_heights_once_and_ascending() {
    let dump = r#"{"title":"T","duration":61.5,"formats":[{"height":720},{"height":null},{"height":360},{},{"height":720},{"height":-1},{"height":1080.0},{"height":2160}],"subtitles":{"es":[],"en":[]},"automatic_captions":null}"#;
    let j = digest(&Json::parse(dump).unwrap());
    assert_eq!(j.get("available_heights").unwrap().to_compact(), "[360,720,2160]");
    assert_eq!(j.get("subtitle_languages").unwrap().to_compact(), r#"["en","es"]"#);
    assert_eq!(j.get("auto_caption_languages").unwrap().to_compact(), "[]");
    assert_eq!(j.get("duration_seconds").unwrap().to_compact(), "61.5");
    assert_eq!(j.get("title").unwrap().to_compact(), r#""T""#);
    assert_eq!(langs(None), Vec::<String>::new());
    assert_eq!(digest(&Json::Null).get("id").unwrap().to_compact(), "null");
}

#[test]
fn a_video_is_downloaded_to_its_template() {
    let a = around();
    let c = command(begin(&video(Some(1080), true, Some("/out")), &a, false));
    assert_eq!(
        c.args[4..].to_vec(),
        vec![
            "--yes-playlist",
            "-o",
            "/out/%(playlist_title)s/%(playlist_index)s - %(title)s.%(ext)s",
            "--print",
            "after_move:filepath",
            "--no-simulate",
            "-f",
            "bestvideo[height<=1080]+bestaudio/best[height<=1080]",
            "u"
        ]
    );
    let c = command(begin(&video(None, false, None), &a, false));
    assert_eq!(
        c.args[4..].to_vec(),
        vec![
            "--no-playlist",
            "-o",
            "/kit/downloads/%(title)s.%(ext)s",
            "--print",
            "after_move:filepath",
            "--no-simulate",
            "u"
        ]
    );
    assert_eq!(
        compact(Ytdl::call_tool(
            &video(None, false, Some("/out")),
            &a,
            false,
            ran(" /out/a.mp4 \r\n\n/out/b.mp4", "")
        )),
        r#"{"directory":"/out","files":["/out/a.mp4","/out/b.mp4"],"ok":true}"#
    );
    assert_eq!(
        Ytdl::output_template(&a, &some("/o"), false),
        ("/o".to_string(), "/o/%(title)s.%(ext)s".to_string())
    );
}

#[test]
fn audio_is_downloaded_as_mp3() {
    let mut a = around();
    a.downloads_var = some("/mine");
    let c = command(begin(&audio(), &a, false));
    assert_eq!(
        c.args[4..].to_vec(),
        vec![
            "--no-playlist",
            "-x",
            "--audio-format",
            "mp3",
            "--audio-quality",
            "0",
            "-o",
            "/mine/%(title)s.%(ext)s",
            "--print",
            "after_move:filepath",
            "--no-simulate",
            "u"
        ]
    );
    assert_eq!(
        compact(Ytdl::call_tool(&audio(), &a, false, ran("", ""))),
        r#"{"directory":"/mine","files":[],"ok":true}"#
    );
    let e = Ytdl::call_tool(&audio(), &a, false, YtdlEvent::Ran(Err("timed out".to_string())));
    assert_eq!(error(e), (ErrorKind::Internal, "timed out".to_string()));
}

#[test]
fn a_transcript_is_returned_or_written() {
    let mut a = around();
    a.python_var = some("py3");
    let c = command(begin(&transcript(true, Some("es"), Some("/t.srt")), &a, false));
    assert_eq!(c.program, "py3");
    assert_eq!(c.cwd, "/kit");
    assert_eq!(
        c.args,
        vec![
            "/kit/scripts/transcript.py",
            "u",
            "--srt",
            "--lang",
            "es",
            "--auto-fallback",
            "-o",
            "/t.srt"
        ]
    );
    let c = command(begin(&transcript(false, Some(""), None), &a, true));
    assert_eq!(c.args, vec!["/kit/scripts/transcript.py", "u"]);
    assert_eq!(
        text(Ytdl::call_tool(&transcript(false, None, None), &a, false, ran(" words\n", ""))),
        " words\n"
    );
    assert_eq!(
        compact(Ytdl::call_tool(&transcript(false, None, Some("/t")), &a, false, ran("x", ""))),
        r#"{"ok":true,"written":"/t"}"#
    );
    a.script_exists = false;
    assert_eq!(
        error(begin(&transcript(false, None, None), &a, false)),
        (
            ErrorKind::Internal,
            format!("/kit/scripts/transcript.py is missing from the toolkit. {SETUP_HINT}")
        )
    );
}

#[test]
fn what_is_missing_is_named_in_order() {
    let mut a = around();
    a.deno_exists = false;
    assert!(error(begin(&info(false), &a, false)).1.starts_with("/kit/bin/deno.exe is missing"));
    a.exe_exists = false;
    assert!(error(begin(&info(false), &a, false)).1.starts_with("/kit/bin/yt-dlp.exe is missing"));
    a.places = Ytdl::places(&None);
    let calls = [
        info(false),
        video(None, false, None),
        audio(),
        transcript(false, None, None),
        YtdlCall::Session,
        YtdlCall::List(ListArgs { dir: some("/d"), limit: None }),
    ];
    for c in &calls {
        assert_eq!(
            error(begin(c, &a, false)),
            (ErrorKind::Internal, format!("YTDL_HOME is not set. {SETUP_HINT}"))
        );
    }
}

#[test]
fn the_session_is_reported_with_its_age_in_hours() {
    let mut a = around();
    a.jar_age_secs = Some(7300);
    let j = Json::parse(&text(begin(&YtdlCall::Session, &a, false))).unwrap();
    assert_eq!(j.get("captured").unwrap().to_compact(), "false");
    assert_eq!(j.get("jar").unwrap().to_compact(), "null");
    assert_eq!(j.get("age_hours").unwrap().to_compact(), "null");
    assert!(j.get("note").unwrap().to_compact().ends_with("bin\\\\ytlogin.cmd anon.\""));
    a.jar_is_file = true;
    let j = Json::parse(&text(begin(&YtdlCall::Session, &a, false))).unwrap();
    assert_eq!(j.get("captured").unwrap().to_compact(), "true");
    assert_eq!(j.get("jar").unwrap().to_compact(), r#""/kit/auth/cookies.txt""#);
    assert_eq!(j.get("age_hours").unwrap().to_compact(), "2");
    a.jar_age_secs = None;
    let j = Json::parse(&text(begin(&YtdlCall::Session, &a, false))).unwrap();
    assert_eq!(j.get("age_hours").unwrap().to_compact(), "null");
}

fn entry(name: &str, modified: Option<i128>, is_file: bool) -> DirEntry {
    DirEntry { name: name.to_string(), is_file, bytes: name.len() as u64, modified }
}

#[test]
fn downloads_are_listed_newest_first() {
    let a = around();
    let call = YtdlCall::List(ListArgs { dir: None, limit: Some(4) });
    match begin(&call, &a, true) {
        YtdlStep::ListDir(d) => assert_eq!(d, "/kit/downloads"),
        other => panic!("{other:?}"),
    }
    let entries = vec![
        entry("old", Some(-5), true),
        entry("tie1", Some(7), true),
        entry("dir", Some(100), false),
        entry("new", Some(9), true),
        entry("lost", None, true),
        entry("tie2", Some(7), true),
        entry("oldest", Some(-6), true),
    ];
    assert_eq!(
        compact(Ytdl::call_tool(&call, &a, true, YtdlEvent::Listed(Ok(entries)))),
        r#"{"directory":"/kit/downloads","files":[{"bytes":3,"name":"new"},{"bytes":4,"name":"tie1"},{"bytes":4,"name":"tie2"},{"bytes":3,"name":"old"}]}"#
    );
    assert_eq!(
        error(Ytdl::call_tool(&call, &a, true, YtdlEvent::Listed(Err("no such dir".to_string())))),
        (ErrorKind::Internal, "reading /kit/downloads: no such dir".to_string())
    );
}

#[test]
fn a_listing_shows_fifty_files_unless_told_otherwise() {
    let entries: Vec<DirEntry> = (0..60).map(|n| entry("f", Some(n), true)).collect();
    let count = |limit: Option<usize>| match list("/d", &entries, limit).get("files") {
        Some(Json::Array(files)) => files.len(),
        other => panic!("{other:?}"),
    };
    assert_eq!(count(None), 50);
    assert_eq!(count(Some(0)), 0);
    assert_eq!(count(Some(55)), 55);
    assert_eq!(count(Some(usize::MAX)), 60);
}
