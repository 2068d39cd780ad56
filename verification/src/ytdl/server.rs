//! The MCP face of the ytdownloader extension: a static tool surface over the
//! bundled yt-dlp toolkit.
//!
//! Read-only mode: set `YTDL_READ_ONLY=1` (any non-empty value) and every tool
//! that writes a file to disk is refused. Inspection — info, transcripts to
//! stdout, session status, listing what is already downloaded — still answers.

use crate::json::{json_pretty, json_read, outcome, texts_view, Json, JsonView};
use crate::mcp::{
    defs_view, described, described_view, internal, invalid, shape, shape_view, strict_shape,
    strict_shape_view, text_result, tool, typed, typed_view, unknown, DefView, ErrorView,
    ServerInfo, ToolDef, ToolError,
};
use crate::text::{
    decimal, empty, lines, lines_of, number, same, text_view, trim, trimmed, views,
};
use crate::ytdl::digest::{digest, digest_of};
use crate::ytdl::listing::{list, listing_reply, DirEntry};
use crate::ytdl::toolkit;
use crate::ytdl::toolkit::{
    base_args, downloads_for, home_for, python_for, required_at, tail_of, value_of_var, Places, Run,
};
use vstd::prelude::*;
use vstd::string::*;

verus! {

/// MCP server handler for the ytdownloader tool surface.
#[derive(Debug, Clone, Copy)]
pub struct Ytdl;

#[derive(Debug)]
pub struct UrlArgs {
    pub url: String,
    /// Return yt-dlp's complete metadata instead of the digest.
    pub full: bool,
}

#[derive(Debug)]
pub struct DownloadArgs {
    pub url: String,
    /// Cap the video height, e.g. 1080. Omit for best available.
    pub max_height: Option<u32>,
    /// Download every entry when the URL is a playlist. Default: just the one video.
    pub playlist: bool,
    /// Destination directory. Defaults to the toolkit's own downloads/ folder.
    pub output_dir: Option<String>,
}

#[derive(Debug)]
pub struct AudioArgs {
    pub url: String,
    pub playlist: bool,
    pub output_dir: Option<String>,
}

#[derive(Debug)]
pub struct TranscriptArgs {
    pub url: String,
    /// Caption language, e.g. "es". Defaults to the toolkit's own default.
    pub lang: Option<String>,
    /// Keep SRT timing instead of flattening to plain text.
    pub srt: bool,
    /// Fall back to local Whisper ASR when the video carries no captions.
    /// This downloads the media to transcribe it, so it counts as a write.
    pub whisper: bool,
    /// Write the transcript to this file instead of returning it.
    pub output_file: Option<String>,
}

#[derive(Debug)]
pub struct ListArgs {
    /// Directory to list. Defaults to the toolkit's downloads/ folder.
    pub dir: Option<String>,
    pub limit: Option<usize>,
}

pub const TOOL_INFO: &'static str = "video_info";

pub const TOOL_DOWNLOAD_VIDEO: &'static str = "download_video";

pub const TOOL_DOWNLOAD_AUDIO: &'static str = "download_audio";

pub const TOOL_TRANSCRIPT: &'static str = "fetch_transcript";

pub const TOOL_SESSION: &'static str = "session_status";

pub const TOOL_LIST: &'static str = "list_downloads";

pub const ABOUT_INFO: &'static str =
    "Metadata for one video without downloading it: title, uploader, duration, \
     the resolutions on offer, and which caption languages exist. Call this \
     first when the resolution or the caption situation is unclear.";

pub const ABOUT_DOWNLOAD_VIDEO: &'static str =
    "Download a video to local disk, merging the best video and audio streams. \
     Returns the paths written. Long videos hold the call open for their whole \
     download; raise YTDL_TIMEOUT_SECS if one is cut short.";

pub const ABOUT_DOWNLOAD_AUDIO: &'static str =
    "Download audio only, transcoded to MP3 at best quality. Returns the paths \
     written.";

pub const ABOUT_TRANSCRIPT: &'static str =
    "Fetch a video's transcript: uploaded captions first, then auto-generated \
     ones. Returns the text unless 'output_file' is given. Setting 'whisper' \
     allows local ASR when the video has no captions at all, which downloads \
     the media to transcribe it.";

pub const ABOUT_SESSION: &'static str =
    "Whether a browser session has been captured, and how old it is. YouTube \
     refuses anonymous extraction on many videos; when downloads fail with a \
     bot check, a stale or absent jar is the usual cause. Capturing one is a \
     human step at the console, not something this server does.";

pub const ABOUT_LIST: &'static str =
    "List what is already in the downloads directory, newest first.";

pub const INSTRUCTIONS: &'static str =
    "Local YouTube archiving through a bundled yt-dlp / ffmpeg / deno toolkit: \
     video, MP3 audio, and transcripts. SCOPE: personal, local, non-monetized \
     archiving only — do not assist with re-uploading, redistributing or \
     monetizing what is downloaded, and decline requests that are plainly about \
     those. Downloads are synchronous and can be slow. When a call fails a bot \
     check, read session_status: YouTube wants a captured browser session, and \
     capturing one is the operator's step at the console.";

/// The script that fetches transcripts.
pub const TRANSCRIPT_SCRIPT: &'static str = "transcript.py";

/// The tools.
#[derive(Debug, Clone, Copy, PartialEq, Eq, Structural)]
pub enum YtdlTool {
    Info,
    DownloadVideo,
    DownloadAudio,
    Transcript,
    Session,
    List,
}

/// A tool call with its arguments.
#[derive(Debug)]
pub enum YtdlCall {
    Info(UrlArgs),
    DownloadVideo(DownloadArgs),
    DownloadAudio(AudioArgs),
    Transcript(TranscriptArgs),
    Session,
    List(ListArgs),
}

/// What a call finds around it: the environment, and what is on disk.
#[derive(Debug)]
pub struct Surroundings {
    /// Where things stand in the directory that `YTDL_HOME` names, as
    /// [`Ytdl::places`] has them.
    pub places: Places,
    /// Whether that is a directory.
    pub home_is_dir: bool,
    /// Whether the yt-dlp program exists.
    pub exe_exists: bool,
    /// Whether the JS runtime exists.
    pub deno_exists: bool,
    /// Whether the transcript script exists.
    pub script_exists: bool,
    /// Whether the captured browser session is a file.
    pub jar_is_file: bool,
    /// How long ago the session was captured, where that can be told.
    pub jar_age_secs: Option<u64>,
    /// `YTDL_DOWNLOADS`
    pub downloads_var: Option<String>,
    /// `YTDL_PYTHON`
    pub python_var: Option<String>,
}

/// A command to run in the toolkit's directory.
#[derive(Debug)]
pub struct ToolkitCommand {
    pub program: String,
    pub args: Vec<String>,
    pub cwd: String,
}

/// What a [`ToolkitCommand`] holds.
#[verifier::ext_equal]
pub struct CommandView {
    pub program: Seq<char>,
    pub args: Seq<Seq<char>>,
    pub cwd: Seq<char>,
}

impl View for ToolkitCommand {
    type V = CommandView;

    open spec fn view(&self) -> CommandView {
        CommandView { program: self.program@, args: views(self.args@), cwd: self.cwd@ }
    }
}

/// What happened to a call.
#[derive(Debug)]
pub enum YtdlEvent {
    /// The call came in.
    Begin,
    /// The command ran, or failed.
    Ran(Result<Run, String>),
    /// The directory was read, or could not be.
    Listed(Result<Vec<DirEntry>, String>),
}

/// What a call does next.
#[derive(Debug)]
pub enum YtdlStep {
    /// Run this command.
    Run(ToolkitCommand),
    /// Read the directory of this path.
    ListDir(String),
    /// Answer with this text.
    Reply(String),
    /// Answer with this error.
    Fail(ToolError),
}

/// The name of a tool.
pub open spec fn name_of(t: YtdlTool) -> Seq<char> {
    match t {
        YtdlTool::Info => TOOL_INFO@,
        YtdlTool::DownloadVideo => TOOL_DOWNLOAD_VIDEO@,
        YtdlTool::DownloadAudio => TOOL_DOWNLOAD_AUDIO@,
        YtdlTool::Transcript => TOOL_TRANSCRIPT@,
        YtdlTool::Session => TOOL_SESSION@,
        YtdlTool::List => TOOL_LIST@,
    }
}

/// The tool of that name.
pub open spec fn tool_named(name: Seq<char>) -> Option<YtdlTool> {
    if name == TOOL_INFO@ {
        Some(YtdlTool::Info)
    } else if name == TOOL_DOWNLOAD_VIDEO@ {
        Some(YtdlTool::DownloadVideo)
    } else if name == TOOL_DOWNLOAD_AUDIO@ {
        Some(YtdlTool::DownloadAudio)
    } else if name == TOOL_TRANSCRIPT@ {
        Some(YtdlTool::Transcript)
    } else if name == TOOL_SESSION@ {
        Some(YtdlTool::Session)
    } else if name == TOOL_LIST@ {
        Some(YtdlTool::List)
    } else {
        None
    }
}

/// The tool that a call is for.
pub open spec fn tool_of_call(call: YtdlCall) -> YtdlTool {
    match call {
        YtdlCall::Info(_) => YtdlTool::Info,
        YtdlCall::DownloadVideo(_) => YtdlTool::DownloadVideo,
        YtdlCall::DownloadAudio(_) => YtdlTool::DownloadAudio,
        YtdlCall::Transcript(_) => YtdlTool::Transcript,
        YtdlCall::Session => YtdlTool::Session,
        YtdlCall::List(_) => YtdlTool::List,
    }
}

/// The tool writes to disk, whatever its arguments are.
pub open spec fn downloads(t: YtdlTool) -> bool {
    t is DownloadVideo || t is DownloadAudio
}

/// The call writes to disk. Captions alone touch no disk; Whisper downloads
/// the media, and an output file is a write by definition.
pub open spec fn writes(call: YtdlCall) -> bool {
    match call {
        YtdlCall::Transcript(a) => a.whisper || a.output_file is Some,
        _ => downloads(tool_of_call(call)),
    }
}

/// The error for a write in read-only mode.
pub open spec fn write_refused(name: Seq<char>) -> ErrorView {
    invalid("'"@ + name + "' writes to disk and YTDL_READ_ONLY is set"@)
}

impl Surroundings {
    /// The places are those of the transcript script.
    pub open spec fn well_formed(self) -> bool {
        self.places@.script_name == TRANSCRIPT_SCRIPT@
    }

    /// The toolkit root, or the error.
    pub open spec fn home(self) -> Result<Seq<char>, Seq<char>> {
        home_for(Some(self.places@.home), self.home_is_dir)
    }

    /// The directory that a call works on, where it names `dir`.
    pub open spec fn directory(self, dir: Option<Seq<char>>) -> Seq<char> {
        match value_of_var(dir) {
            Some(d) => d,
            None => downloads_for(text_view(self.downloads_var), self.places@.downloads),
        }
    }

    /// The yt-dlp command with the toolkit's standard preamble plus `args`, or
    /// the error.
    pub open spec fn ytdlp(self, args: Seq<Seq<char>>) -> Result<CommandView, Seq<char>> {
        let p = self.places@;
        match (
            self.home(),
            required_at(p.exe, self.exe_exists),
            required_at(p.deno, self.deno_exists),
        ) {
            (Err(e), _, _) => Err(e),
            (_, Err(e), _) => Err(e),
            (_, _, Err(e)) => Err(e),
            (Ok(home), Ok(exe), Ok(_)) => Ok(
                CommandView {
                    program: exe,
                    args: base_args(p, self.jar_is_file) + args,
                    cwd: home,
                },
            ),
        }
    }

    /// The command that fetches a transcript, or the error.
    pub open spec fn transcriber(self, a: TranscriptArgs) -> Result<CommandView, Seq<char>> {
        match (self.home(), required_at(self.places@.script, self.script_exists)) {
            (Err(e), _) => Err(e),
            (_, Err(e)) => Err(e),
            (Ok(home), Ok(script)) => Ok(
                CommandView {
                    program: python_for(text_view(self.python_var)),
                    args: transcript_args(script, a),
                    cwd: home,
                },
            ),
        }
    }
}

/// The arguments that ask for metadata.
pub open spec fn info_args(url: Seq<char>) -> Seq<Seq<char>> {
    seq!["-J"@, "--no-playlist"@, "--no-warnings"@, url]
}

/// The argument that says whether a whole playlist is meant.
pub open spec fn playlist_arg(playlist: bool) -> Seq<char> {
    if playlist {
        "--yes-playlist"@
    } else {
        "--no-playlist"@
    }
}

pub const PLAYLIST_LEAF: &'static str = "%(playlist_title)s/%(playlist_index)s - %(title)s.%(ext)s";

pub const VIDEO_LEAF: &'static str = "%(title)s.%(ext)s";

/// The `-o` template of a download to `dir`.
pub open spec fn template_for(dir: Seq<char>, playlist: bool) -> Seq<char> {
    dir + "/"@ + (if playlist {
        PLAYLIST_LEAF@
    } else {
        VIDEO_LEAF@
    })
}

/// The format that caps the height.
pub open spec fn capped(height: u32) -> Seq<char> {
    "bestvideo[height<="@ + decimal(height as nat) + "]+bestaudio/best[height<="@ + decimal(
        height as nat,
    ) + "]"@
}

/// The arguments of a video download.
pub open spec fn video_args(a: DownloadArgs, template: Seq<char>) -> Seq<Seq<char>> {
    let always = seq![
        playlist_arg(a.playlist),
        "-o"@,
        template,
        "--print"@,
        "after_move:filepath"@,
        "--no-simulate"@,
    ];
    match a.max_height {
        Some(h) => always.push("-f"@).push(capped(h)).push(a.url@),
        None => always.push(a.url@),
    }
}

/// The arguments of an audio download.
pub open spec fn audio_args(a: AudioArgs, template: Seq<char>) -> Seq<Seq<char>> {
    seq![
        playlist_arg(a.playlist),
        "-x"@,
        "--audio-format"@,
        "mp3"@,
        "--audio-quality"@,
        "0"@,
        "-o"@,
        template,
        "--print"@,
        "after_move:filepath"@,
        "--no-simulate"@,
        a.url@,
    ]
}

/// `args`, and where `on`, `flag` at the end.
pub open spec fn and_flag(args: Seq<Seq<char>>, flag: Seq<char>, on: bool) -> Seq<Seq<char>> {
    if on {
        args.push(flag)
    } else {
        args
    }
}

/// `args`, and where `value` is set and not empty, `flag` and it at the end.
pub open spec fn and_value(
    args: Seq<Seq<char>>,
    flag: Seq<char>,
    value: Option<Seq<char>>,
) -> Seq<Seq<char>> {
    match value_of_var(value) {
        Some(v) => args.push(flag).push(v),
        None => args,
    }
}

/// The arguments of the transcript script.
pub open spec fn transcript_args(script: Seq<char>, a: TranscriptArgs) -> Seq<Seq<char>> {
    and_value(
        and_flag(
            and_value(
                and_flag(seq![script, a.url@], "--srt"@, a.srt),
                "--lang"@,
                text_view(a.lang),
            ),
            "--auto-fallback"@,
            a.whisper,
        ),
        "-o"@,
        text_view(a.output_file),
    )
}

/// The lines of a text that hold more than white space, each without the white
/// space at its ends.
pub open spec fn trimmed_lines(all: Seq<Seq<char>>) -> Seq<Seq<char>>
    decreases all.len(),
{
    if all.len() == 0 {
        Seq::empty()
    } else if trimmed(all.last()).len() == 0 {
        trimmed_lines(all.drop_last())
    } else {
        trimmed_lines(all.drop_last()).push(trimmed(all.last()))
    }
}

/// The paths that a download reported writing.
pub open spec fn written_in(stdout: Seq<char>) -> Seq<Seq<char>> {
    trimmed_lines(lines_of(stdout))
}

/// The answer to a download.
pub open spec fn download_reply(dir: Seq<char>, files: Seq<Seq<char>>) -> JsonView {
    JsonView::object()
        .with("ok"@, JsonView::Bool(true))
        .with("directory"@, JsonView::Str(dir))
        .with(
        "files"@,
        texts_view(files),
    )
}

/// The answer to a transcript that was written to a file.
pub open spec fn transcript_reply(path: Seq<char>) -> JsonView {
    JsonView::object().with("ok"@, JsonView::Bool(true)).with("written"@, JsonView::Str(path))
}

pub const NOTE_CAPTURED: &'static str =
    "A captured session is in use. If downloads start failing a bot check \
     again, it has gone stale and needs recapturing.";

pub const NOTE_ANONYMOUS: &'static str =
    "No session captured. Anonymous extraction still works for many videos; \
     when it does not, the operator captures one at the console with \
     bin\\ytlogin.cmd anon.";

/// The answer of session_status.
pub open spec fn session_reply(jar: Seq<char>, is_file: bool, age_secs: Option<u64>) -> JsonView {
    let path = if is_file {
        JsonView::Str(jar)
    } else {
        JsonView::Null
    };
    let hours = match age_secs {
        Some(secs) => if is_file {
            JsonView::UInt((secs / 3600) as u64)
        } else {
            JsonView::Null
        },
        None => JsonView::Null,
    };
    let note = if is_file {
        NOTE_CAPTURED@
    } else {
        NOTE_ANONYMOUS@
    };
    JsonView::object().with("captured"@, JsonView::Bool(is_file)).with("jar"@, path).with(
        "age_hours"@,
        hours,
    ).with("note"@, JsonView::Str(note))
}

/// The static tool surface.
pub open spec fn tools_surface() -> Seq<DefView> {
    Seq::empty()
        .push(
            DefView {
                name: TOOL_INFO@,
                description: ABOUT_INFO@,
                input_schema: strict_shape_view(
                    JsonView::object()
                        .with("url"@, typed_view("string"@))
                        .with(
                            "full"@,
                            described_view(
                                "boolean"@,
                                "return yt-dlp's complete metadata instead of the digest (very large)"@,
                            ),
                        ),
                    JsonView::list().item(JsonView::Str("url"@)),
                ),
            },
        )
        .push(
            DefView {
                name: TOOL_DOWNLOAD_VIDEO@,
                description: ABOUT_DOWNLOAD_VIDEO@,
                input_schema: strict_shape_view(
                    JsonView::object()
                        .with("url"@, typed_view("string"@))
                        .with(
                            "max_height"@,
                            described_view(
                                "integer"@,
                                "cap the resolution, e.g. 1080; omit for best available"@,
                            ),
                        )
                        .with(
                            "playlist"@,
                            described_view(
                                "boolean"@,
                                "download every entry when the URL is a playlist"@,
                            ),
                        )
                        .with("output_dir"@, typed_view("string"@)),
                    JsonView::list().item(JsonView::Str("url"@)),
                ),
            },
        )
        .push(
            DefView {
                name: TOOL_DOWNLOAD_AUDIO@,
                description: ABOUT_DOWNLOAD_AUDIO@,
                input_schema: strict_shape_view(
                    JsonView::object()
                        .with("url"@, typed_view("string"@))
                        .with("playlist"@, typed_view("boolean"@))
                        .with("output_dir"@, typed_view("string"@)),
                    JsonView::list().item(JsonView::Str("url"@)),
                ),
            },
        )
        .push(
            DefView {
                name: TOOL_TRANSCRIPT@,
                description: ABOUT_TRANSCRIPT@,
                input_schema: strict_shape_view(
                    JsonView::object()
                        .with("url"@, typed_view("string"@))
                        .with(
                            "lang"@,
                            described_view("string"@, "caption language code, e.g. 'es'"@),
                        )
                        .with(
                            "srt"@,
                            described_view("boolean"@, "keep SRT timing instead of plain text"@),
                        )
                        .with(
                            "whisper"@,
                            described_view(
                                "boolean"@,
                                "allow local Whisper ASR fallback (downloads the media)"@,
                            ),
                        )
                        .with("output_file"@, typed_view("string"@)),
                    JsonView::list().item(JsonView::Str("url"@)),
                ),
            },
        )
        .push(
            DefView {
                name: TOOL_SESSION@,
                description: ABOUT_SESSION@,
                input_schema: shape_view(JsonView::object()),
            },
        )
        .push(
            DefView {
                name: TOOL_LIST@,
                description: ABOUT_LIST@,
                input_schema: shape_view(
                    JsonView::object()
                        .with("dir"@, typed_view("string"@))
                        .with("limit"@, typed_view("integer"@)),
                ),
            },
        )
}

/// The error where metadata is not JSON.
pub open spec fn not_json(cause: Seq<char>, stderr: Seq<char>) -> Seq<char> {
    "yt-dlp metadata was not JSON: "@ + cause + "; "@ + tail_of(stderr, 5)
}

/// The error where a directory cannot be read.
pub open spec fn unreadable(dir: Seq<char>, cause: Seq<char>) -> Seq<char> {
    "reading "@ + dir + ": "@ + cause
}

impl YtdlStep {
    /// The call ends in this error.
    pub open spec fn fails(self, error: ErrorView) -> bool {
        self matches YtdlStep::Fail(e) && e@ == error
    }

    /// The call is answered with this document.
    pub open spec fn answers(self, reply: JsonView) -> bool {
        self matches YtdlStep::Reply(t) && t@ == json_pretty(reply)
    }

    /// The call is answered with this text.
    pub open spec fn says(self, text: Seq<char>) -> bool {
        self matches YtdlStep::Reply(t) && t@ == text
    }

    /// The command is run, or the call ends in the error.
    pub open spec fn runs(self, command: Result<CommandView, Seq<char>>) -> bool {
        match command {
            Ok(c) => self matches YtdlStep::Run(x) && x@ == c,
            Err(e) => self.fails(internal(e)),
        }
    }

    /// The call is answered with the metadata that was read, or its digest.
    pub open spec fn informs(
        self,
        parsed: Result<JsonView, Seq<char>>,
        full: bool,
        stderr: Seq<char>,
    ) -> bool {
        match parsed {
            Ok(info) => self.answers(
                if full {
                    info
                } else {
                    digest_of(info)
                },
            ),
            Err(cause) => self.fails(internal(not_json(cause, stderr))),
        }
    }
}

/// What a call does when it comes in.
pub open spec fn begins(
    call: YtdlCall,
    around: Surroundings,
    read_only: bool,
    step: YtdlStep,
) -> bool {
    if read_only && writes(call) {
        step.fails(write_refused(name_of(tool_of_call(call))))
    } else {
        match call {
            YtdlCall::Info(a) => step.runs(around.ytdlp(info_args(a.url@))),
            YtdlCall::DownloadVideo(a) => step.runs(
                around.ytdlp(
                    video_args(
                        a,
                        template_for(around.directory(text_view(a.output_dir)), a.playlist),
                    ),
                ),
            ),
            YtdlCall::DownloadAudio(a) => step.runs(
                around.ytdlp(
                    audio_args(
                        a,
                        template_for(around.directory(text_view(a.output_dir)), a.playlist),
                    ),
                ),
            ),
            YtdlCall::Transcript(a) => step.runs(around.transcriber(a)),
            YtdlCall::Session => match around.home() {
                Ok(_) => step.answers(
                    session_reply(around.places@.jar, around.jar_is_file, around.jar_age_secs),
                ),
                Err(e) => step.fails(internal(e)),
            },
            YtdlCall::List(a) => match around.home() {
                Ok(_) => step matches YtdlStep::ListDir(d) && d@ == around.directory(
                    text_view(a.dir),
                ),
                Err(e) => step.fails(internal(e)),
            },
        }
    }
}

/// What a call does when its command ran.
pub open spec fn goes_on(call: YtdlCall, around: Surroundings, run: Run, step: YtdlStep) -> bool {
    match call {
        YtdlCall::Info(a) => step.informs(
            json_read(trimmed(run.stdout@)),
            a.full,
            run.stderr@,
        ),
        YtdlCall::DownloadVideo(a) => step.answers(
            download_reply(
                around.directory(text_view(a.output_dir)),
                written_in(run.stdout@),
            ),
        ),
        YtdlCall::DownloadAudio(a) => step.answers(
            download_reply(
                around.directory(text_view(a.output_dir)),
                written_in(run.stdout@),
            ),
        ),
        YtdlCall::Transcript(a) => match a.output_file {
            Some(path) => step.answers(transcript_reply(path@)),
            None => step.says(run.stdout@),
        },
        _ => false,
    }
}

/// The event can happen to the call.
pub open spec fn can_happen(call: YtdlCall, event: YtdlEvent) -> bool {
    match event {
        YtdlEvent::Begin => true,
        YtdlEvent::Ran(_) => !(call is Session) && !(call is List),
        YtdlEvent::Listed(_) => call is List,
    }
}

/// The error for a write in read-only mode.
fn refuse_write(name: &str) -> (r: ToolError)
    ensures
        r@ == write_refused(name@),
{
    let mut m: String = "'".to_owned();
    m.append(name);
    m.append("' writes to disk and YTDL_READ_ONLY is set");
    ToolError::invalid_params(m)
}

/// An error of the toolkit as the error that the call ends in.
fn tool_error(message: String) -> (r: YtdlStep)
    ensures
        r.fails(internal(message@)),
{
    YtdlStep::Fail(ToolError::internal_error(message))
}

/// Adds `flag` where `on`.
fn push_flag(args: &mut Vec<String>, flag: &str, on: bool)
    ensures
        views(final(args)@) == and_flag(views(old(args)@), flag@, on),
{
    let ghost before = args@;
    if on {
        args.push(flag.to_owned());
        assert(views(args@) =~= views(before).push(flag@));
    }
}

/// Adds `flag` and `value` where that is set and not empty.
fn push_value(args: &mut Vec<String>, flag: &str, value: &Option<String>)
    ensures
        views(final(args)@) == and_value(views(old(args)@), flag@, text_view(*value)),
{
    let ghost before = args@;
    if let Some(v) = toolkit::set_value(value) {
        args.push(flag.to_owned());
        args.push(v);
        assert(views(args@) =~= views(before).push(flag@).push(v@));
    }
}

/// The argument that says whether a whole playlist is meant.
fn playlist_text(playlist: bool) -> (r: String)
    ensures
        r@ == playlist_arg(playlist),
{
    if playlist {
        "--yes-playlist".to_owned()
    } else {
        "--no-playlist".to_owned()
    }
}

/// The format that caps the height.
fn capped_text(height: u32) -> (r: String)
    ensures
        r@ == capped(height),
{
    let n: String = number(height as u64);
    let mut f: String = "bestvideo[height<=".to_owned();
    f.append(n.as_str());
    f.append("]+bestaudio/best[height<=");
    f.append(n.as_str());
    f.append("]");
    f
}

/// The arguments of a video download.
fn video_arguments(a: &DownloadArgs, template: String) -> (r: Vec<String>)
    ensures
        views(r@) == video_args(*a, template@),
{
    let mut args: Vec<String> = Vec::new();
    args.push(playlist_text(a.playlist));
    args.push("-o".to_owned());
    args.push(template);
    args.push("--print".to_owned());
    args.push("after_move:filepath".to_owned());
    args.push("--no-simulate".to_owned());
    if let Some(h) = a.max_height {
        args.push("-f".to_owned());
        args.push(capped_text(h));
    }
    args.push(a.url.clone());
    assert(views(args@) =~= video_args(*a, template@));
    args
}

/// The arguments of an audio download.
fn audio_arguments(a: &AudioArgs, template: String) -> (r: Vec<String>)
    ensures
        views(r@) == audio_args(*a, template@),
{
    let mut args: Vec<String> = Vec::new();
    args.push(playlist_text(a.playlist));
    args.push("-x".to_owned());
    args.push("--audio-format".to_owned());
    args.push("mp3".to_owned());
    args.push("--audio-quality".to_owned());
    args.push("0".to_owned());
    args.push("-o".to_owned());
    args.push(template);
    args.push("--print".to_owned());
    args.push("after_move:filepath".to_owned());
    args.push("--no-simulate".to_owned());
    args.push(a.url.clone());
    assert(views(args@) =~= audio_args(*a, template@));
    args
}

/// The arguments of the transcript script.
fn transcript_arguments(script: String, a: &TranscriptArgs) -> (r: Vec<String>)
    ensures
        views(r@) == transcript_args(script@, *a),
{
    let mut args: Vec<String> = Vec::new();
    args.push(script);
    args.push(a.url.clone());
    assert(views(args@) =~= seq![script@, a.url@]);
    push_flag(&mut args, "--srt", a.srt);
    push_value(&mut args, "--lang", &a.lang);
    push_flag(&mut args, "--auto-fallback", a.whisper);
    push_value(&mut args, "-o", &a.output_file);
    args
}

/// The answer of session_status.
fn session_status(around: &Surroundings) -> (r: Json)
    ensures
        r@ == session_reply(around.places@.jar, around.jar_is_file, around.jar_age_secs),
{
    let path: Json = match toolkit::cookie_jar(&around.places, around.jar_is_file) {
        Some(p) => Json::Str(p),
        None => Json::Null,
    };
    let hours: Json = match around.jar_age_secs {
        Some(secs) => if around.jar_is_file {
            Json::UInt(secs / 3600)
        } else {
            Json::Null
        },
        None => Json::Null,
    };
    let note: &str = if around.jar_is_file {
        NOTE_CAPTURED
    } else {
        NOTE_ANONYMOUS
    };
    Json::object().with("captured", Json::Bool(around.jar_is_file)).with("jar", path).with(
        "age_hours",
        hours,
    ).with("note", Json::text(note))
}

/// The answer to a download.
fn downloaded(dir: &str, run: &Run) -> (r: YtdlStep)
    ensures
        r.answers(download_reply(dir@, written_in(run.stdout@))),
{
    let files: Vec<String> = Ytdl::written(run);
    let j: Json = Json::object().with("ok", Json::Bool(true)).with(
        "directory",
        Json::text(dir),
    ).with("files", Json::texts(&files));
    YtdlStep::Reply(text_result(&j))
}

/// The answer to a request for metadata, where `parsed` was read.
pub fn inform(parsed: Result<Json, String>, full: bool, stderr: &str) -> (r: YtdlStep)
    ensures
        r.informs(outcome(parsed), full, stderr@),
{
    match parsed {
        Ok(info) => if full {
            YtdlStep::Reply(text_result(&info))
        } else {
            let j: Json = digest(&info);
            YtdlStep::Reply(text_result(&j))
        },
        Err(cause) => {
            let mut e: String = "yt-dlp metadata was not JSON: ".to_owned();
            e.append(cause.as_str());
            e.append("; ");
            let last: String = toolkit::tail(stderr, 5);
            e.append(last.as_str());
            tool_error(e)
        },
    }
}

impl Ytdl {
    /// A handler.
    pub fn new() -> (r: Ytdl)
        ensures
            r == Ytdl,
    {
        Ytdl
    }

    /// The static tool surface.
    pub fn tools() -> (r: Vec<ToolDef>)
        ensures
            defs_view(r@) == tools_surface(),
    {
        let mut v: Vec<ToolDef> = Vec::new();
        v.push(
            tool(
                TOOL_INFO,
                ABOUT_INFO,
                strict_shape(
                    Json::object()
                        .with("url", typed("string"))
                        .with(
                            "full",
                            described(
                                "boolean",
                                "return yt-dlp's complete metadata instead of the digest (very large)",
                            ),
                        ),
                    Json::list().item(Json::text("url")),
                ),
            ),
        );
        v.push(
            tool(
                TOOL_DOWNLOAD_VIDEO,
                ABOUT_DOWNLOAD_VIDEO,
                strict_shape(
                    Json::object()
                        .with("url", typed("string"))
                        .with(
                            "max_height",
                            described(
                                "integer",
                                "cap the resolution, e.g. 1080; omit for best available",
                            ),
                        )
                        .with(
                            "playlist",
                            described("boolean", "download every entry when the URL is a playlist"),
                        )
                        .with("output_dir", typed("string")),
                    Json::list().item(Json::text("url")),
                ),
            ),
        );
        v.push(
            tool(
                TOOL_DOWNLOAD_AUDIO,
                ABOUT_DOWNLOAD_AUDIO,
                strict_shape(
                    Json::object()
                        .with("url", typed("string"))
                        .with("playlist", typed("boolean"))
                        .with("output_dir", typed("string")),
                    Json::list().item(Json::text("url")),
                ),
            ),
        );
        v.push(
            tool(
                TOOL_TRANSCRIPT,
                ABOUT_TRANSCRIPT,
                strict_shape(
                    Json::object()
                        .with("url", typed("string"))
                        .with("lang", described("string", "caption language code, e.g. 'es'"))
                        .with("srt", described("boolean", "keep SRT timing instead of plain text"))
                        .with(
                            "whisper",
                            described(
                                "boolean",
                                "allow local Whisper ASR fallback (downloads the media)",
                            ),
                        )
                        .with("output_file", typed("string")),
                    Json::list().item(Json::text("url")),
                ),
            ),
        );
        v.push(tool(TOOL_SESSION, ABOUT_SESSION, shape(Json::object())));
        v.push(
            tool(
                TOOL_LIST,
                ABOUT_LIST,
                shape(Json::object().with("dir", typed("string")).with("limit", typed("integer"))),
            ),
        );
        assert(defs_view(v@) =~= tools_surface());
        v
    }

    /// How the server introduces itself.
    pub fn get_info() -> (r: ServerInfo)
        ensures
            r.name@ == "dangler-ytdl"@,
            r.instructions@ == INSTRUCTIONS@,
    {
        ServerInfo { name: "dangler-ytdl", instructions: INSTRUCTIONS }
    }

    /// The tool that a request names. In read-only mode a download is refused
    /// before its arguments are looked at.
    pub fn route(name: &str, read_only: bool) -> (r: Result<YtdlTool, ToolError>)
        ensures
            match tool_named(name@) {
                Some(t) => if read_only && downloads(t) {
                    r matches Err(e) && e@ == write_refused(name@)
                } else {
                    r == Ok::<YtdlTool, ToolError>(t)
                },
                None => r matches Err(e) && e@ == unknown(name@),
            },
    {
        if same(name, TOOL_INFO) {
            Ok(YtdlTool::Info)
        } else if same(name, TOOL_DOWNLOAD_VIDEO) {
            if read_only {
                Err(refuse_write(name))
            } else {
                Ok(YtdlTool::DownloadVideo)
            }
        } else if same(name, TOOL_DOWNLOAD_AUDIO) {
            if read_only {
                Err(refuse_write(name))
            } else {
                Ok(YtdlTool::DownloadAudio)
            }
        } else if same(name, TOOL_TRANSCRIPT) {
            Ok(YtdlTool::Transcript)
        } else if same(name, TOOL_SESSION) {
            Ok(YtdlTool::Session)
        } else if same(name, TOOL_LIST) {
            Ok(YtdlTool::List)
        } else {
            Err(ToolError::unknown_tool(name))
        }
    }

    /// Where things stand in the toolkit that `YTDL_HOME` names.
    pub fn places(home_var: &Option<String>) -> (r: Places)
        ensures
            r@.home == (match *home_var {
                Some(home) => home@,
                None => Seq::empty(),
            }),
            r@.script_name == "transcript.py"@,
            r@.laid_out(),
    {
        match home_var {
            Some(home) => Places::of(home.as_str(), TRANSCRIPT_SCRIPT),
            None => {
                proof {
                    reveal_strlit("");
                    assert(""@ =~= Seq::empty());
                }
                Places::of("", TRANSCRIPT_SCRIPT)
            },
        }
    }

    /// The toolkit root.
    fn home(around: &Surroundings) -> (r: Result<String, String>)
        ensures
            toolkit::text_outcome(r) == around.home(),
    {
        toolkit::home(&Some(around.places.home().to_owned()), around.home_is_dir)
    }

    /// The directory that a call works on, where it names `dir`.
    fn directory(around: &Surroundings, dir: &Option<String>) -> (r: String)
        ensures
            r@ == around.directory(text_view(*dir)),
    {
        match toolkit::set_value(dir) {
            Some(d) => d,
            None => toolkit::downloads_dir(&around.places, &around.downloads_var),
        }
    }

    /// The destination directory and the `-o` template for a download.
    pub fn output_template(
        around: &Surroundings,
        output_dir: &Option<String>,
        playlist: bool,
    ) -> (r: (String, String))
        ensures
            r.0@ == around.directory(text_view(*output_dir)),
            r.1@ == template_for(r.0@, playlist),
            around.places@.laid_out(),
    {
        proof {
            use_type_invariant(&around.places);
        }
        let dir: String = Ytdl::directory(around, output_dir);
        let leaf: &str = if playlist {
            PLAYLIST_LEAF
        } else {
            VIDEO_LEAF
        };
        let mut template: String = dir.clone();
        template.append("/");
        template.append(leaf);
        (dir, template)
    }

    /// Paths yt-dlp reported writing, via `--print after_move:filepath`.
    pub fn written(run: &Run) -> (r: Vec<String>)
        ensures
            views(r@) == written_in(run.stdout@),
    {
        let all: Vec<String> = lines(run.stdout.as_str());
        let ghost held = views(all@);
        let mut out: Vec<String> = Vec::new();
        let mut i: usize = 0;
        assert(held.take(0) =~= Seq::empty());
        assert(views(out@) =~= Seq::empty());
        while i < all.len()
            invariant
                held == views(all@),
                i <= all@.len(),
                views(out@) == trimmed_lines(held.take(i as int)),
            decreases all.len() - i,
        {
            proof {
                assert(held.take(i + 1).drop_last() =~= held.take(i as int));
                assert(held.take(i + 1).last() == all@[i as int]@);
            }
            let line: &str = trim(all[i].as_str());
            if !empty(line) {
                let ghost before = out@;
                out.push(line.to_owned());
                assert(views(out@) =~= views(before).push(line@));
            }
            i = i + 1;
        }
        assert(held.take(i as int) =~= held);
        out
    }

    /// Run yt-dlp with the toolkit's standard preamble plus `args`.
    fn ytdlp(around: &Surroundings, args: Vec<String>) -> (r: YtdlStep)
        ensures
            r.runs(around.ytdlp(views(args@))),
    {
        let home: String = match Ytdl::home(around) {
            Ok(h) => h,
            Err(e) => {
                return tool_error(e);
            },
        };
        let exe: String = match toolkit::ytdlp(&around.places, around.exe_exists) {
            Ok(x) => x,
            Err(e) => {
                return tool_error(e);
            },
        };
        let mut full: Vec<String> = match toolkit::ytdlp_base(
            &around.places,
            around.deno_exists,
            around.jar_is_file,
        ) {
            Ok(a) => a,
            Err(e) => {
                return tool_error(e);
            },
        };
        let ghost base = full@;
        let mut i: usize = 0;
        while i < args.len()
            invariant
                i <= args@.len(),
                full@.len() == base.len() + i,
                forall|k: int| 0 <= k < base.len() ==> (#[trigger] full@[k])@ == base[k]@,
                forall|k: int| 0 <= k < i ==> full@[base.len() + k]@ == (#[trigger] args@[k])@,
            decreases args.len() - i,
        {
            full.push(args[i].clone());
            i = i + 1;
        }
        proof {
            let want = views(base) + views(args@);
            assert forall|k: int| 0 <= k < want.len() implies views(full@)[k] == want[k] by {
                if k >= base.len() {
                    assert(full@[base.len() + (k - base.len())]@ == args@[k - base.len()]@);
                }
            }
            assert(views(full@) =~= want);
        }
        YtdlStep::Run(ToolkitCommand { program: exe, args: full, cwd: home })
    }

    /// Run the transcript script.
    fn transcribe(around: &Surroundings, a: &TranscriptArgs) -> (r: YtdlStep)
        ensures
            r.runs(around.transcriber(*a)),
    {
        let home: String = match Ytdl::home(around) {
            Ok(h) => h,
            Err(e) => {
                return tool_error(e);
            },
        };
        let script: String = match toolkit::script(&around.places, around.script_exists) {
            Ok(p) => p,
            Err(e) => {
                return tool_error(e);
            },
        };
        YtdlStep::Run(
            ToolkitCommand {
                program: toolkit::python(&around.python_var),
                args: transcript_arguments(script, a),
                cwd: home,
            },
        )
    }

    /// What a call does when it comes in.
    fn begin(call: &YtdlCall, around: &Surroundings, read_only: bool) -> (r: YtdlStep)
        ensures
            begins(*call, *around, read_only, r),
    {
        match call {
            YtdlCall::Info(a) => {
                let mut args: Vec<String> = Vec::new();
                args.push("-J".to_owned());
                args.push("--no-playlist".to_owned());
                args.push("--no-warnings".to_owned());
                args.push(a.url.clone());
                assert(views(args@) =~= info_args(a.url@));
                Ytdl::ytdlp(around, args)
            },
            YtdlCall::DownloadVideo(a) => {
                if read_only {
                    return YtdlStep::Fail(refuse_write(TOOL_DOWNLOAD_VIDEO));
                }
                let (_, template) = Ytdl::output_template(around, &a.output_dir, a.playlist);
                Ytdl::ytdlp(around, video_arguments(a, template))
            },
            YtdlCall::DownloadAudio(a) => {
                if read_only {
                    return YtdlStep::Fail(refuse_write(TOOL_DOWNLOAD_AUDIO));
                }
                let (_, template) = Ytdl::output_template(around, &a.output_dir, a.playlist);
                Ytdl::ytdlp(around, audio_arguments(a, template))
            },
            YtdlCall::Transcript(a) => {
                if read_only && (a.whisper || a.output_file.is_some()) {
                    return YtdlStep::Fail(refuse_write(TOOL_TRANSCRIPT));
                }
                Ytdl::transcribe(around, a)
            },
            YtdlCall::Session => match Ytdl::home(around) {
                Ok(_) => {
                    let j: Json = session_status(around);
                    YtdlStep::Reply(text_result(&j))
                },
                Err(e) => tool_error(e),
            },
            YtdlCall::List(a) => match Ytdl::home(around) {
                Ok(_) => YtdlStep::ListDir(Ytdl::directory(around, &a.dir)),
                Err(e) => tool_error(e),
            },
        }
    }

    /// What a call does when its command ran.
    fn finish(call: &YtdlCall, around: &Surroundings, run: Run) -> (r: YtdlStep)
        requires
            !(call is Session) && !(call is List),
        ensures
            goes_on(*call, *around, run, r),
    {
        match call {
            YtdlCall::Info(a) => inform(
                Json::parse(trim(run.stdout.as_str())),
                a.full,
                run.stderr.as_str(),
            ),
            YtdlCall::DownloadVideo(a) => {
                let dir: String = Ytdl::directory(around, &a.output_dir);
                downloaded(dir.as_str(), &run)
            },
            YtdlCall::DownloadAudio(a) => {
                let dir: String = Ytdl::directory(around, &a.output_dir);
                downloaded(dir.as_str(), &run)
            },
            YtdlCall::Transcript(a) => match &a.output_file {
                Some(path) => {
                    let j: Json = Json::object().with("ok", Json::Bool(true)).with(
                        "written",
                        Json::text(path.as_str()),
                    );
                    YtdlStep::Reply(text_result(&j))
                },
                None => YtdlStep::Reply(run.stdout),
            },
            _ => YtdlStep::Reply(run.stdout),
        }
    }

    /// One step of a tool call, from what happened to what is to be done.
    pub fn call_tool(
        call: &YtdlCall,
        around: &Surroundings,
        read_only: bool,
        event: YtdlEvent,
    ) -> (r: YtdlStep)
        requires
            can_happen(*call, event),
            around.well_formed(),
        ensures
            around.places@.laid_out(),
            match event {
                YtdlEvent::Begin => begins(*call, *around, read_only, r),
                YtdlEvent::Ran(Ok(run)) => goes_on(*call, *around, run, r),
                YtdlEvent::Ran(Err(e)) => r.fails(internal(e@)),
                YtdlEvent::Listed(listed) => match call {
                    YtdlCall::List(a) => {
                        let dir = around.directory(text_view(a.dir));
                        match listed {
                            Ok(entries) => r.answers(listing_reply(dir, entries@, a.limit)),
                            Err(cause) => r.fails(internal(unreadable(dir, cause@))),
                        }
                    },
                    _ => true,
                },
            },
    {
        proof {
            use_type_invariant(&around.places);
        }
        match event {
            YtdlEvent::Begin => Ytdl::begin(call, around, read_only),
            YtdlEvent::Ran(ran) => match ran {
                Ok(run) => Ytdl::finish(call, around, run),
                Err(e) => tool_error(e),
            },
            YtdlEvent::Listed(listed) => {
                let (dir, limit): (String, Option<usize>) = match call {
                    YtdlCall::List(a) => (Ytdl::directory(around, &a.dir), a.limit),
                    _ => (String::new(), None),
                };
                match listed {
                    Ok(entries) => {
                        let j: Json = list(dir.as_str(), &entries, limit);
                        YtdlStep::Reply(text_result(&j))
                    },
                    Err(cause) => {
                        let mut e: String = "reading ".to_owned();
                        e.append(dir.as_str());
                        e.append(": ");
                        e.append(cause.as_str());
                        tool_error(e)
                    },
                }
            },
        }
    }
}

/// Each tool has a name of its own, by which it is found.
pub proof fn law_names_are_distinct(t: YtdlTool)
    ensures
        tool_named(name_of(t)) == Some(t),
{
    reveal_strlit("video_info");
    reveal_strlit("download_video");
    reveal_strlit("download_audio");
    reveal_strlit("fetch_transcript");
    reveal_strlit("session_status");
    reveal_strlit("list_downloads");
    assert("video_info"@.len() == 10);
    assert("fetch_transcript"@.len() == 16);
    assert("download_video"@[9] != "download_audio"@[9]);
    assert("download_video"@[0] != "session_status"@[0]);
    assert("download_video"@[0] != "list_downloads"@[0]);
    assert("download_audio"@[0] != "session_status"@[0]);
    assert("download_audio"@[0] != "list_downloads"@[0]);
    assert("session_status"@[0] != "list_downloads"@[0]);
}

/// The tools on offer are exactly those that a request can name.
pub proof fn law_offered_is_routed(name: Seq<char>)
    ensures
        (exists|i: int| 0 <= i < tools_surface().len() && (#[trigger] tools_surface()[i]).name
            == name) <==> tool_named(name) is Some,
{
    let all = tools_surface();
    assert(all.len() == 6);
    assert(all[0].name == TOOL_INFO@);
    assert(all[1].name == TOOL_DOWNLOAD_VIDEO@);
    assert(all[2].name == TOOL_DOWNLOAD_AUDIO@);
    assert(all[3].name == TOOL_TRANSCRIPT@);
    assert(all[4].name == TOOL_SESSION@);
    assert(all[5].name == TOOL_LIST@);
}

/// In read-only mode a call that writes to disk runs nothing: every command
/// that still runs asks for metadata, or for captions on standard output with
/// neither an output file nor the transcription of downloaded media.
pub proof fn law_read_only_never_writes(call: YtdlCall, around: Surroundings, step: YtdlStep)
    requires
        begins(call, around, true, step),
    ensures
        writes(call) ==> step.fails(write_refused(name_of(tool_of_call(call)))),
        step matches YtdlStep::Run(command) ==> match call {
            YtdlCall::Info(a) => around.ytdlp(info_args(a.url@)) == Ok::<CommandView, Seq<char>>(
                command@,
            ),
            YtdlCall::Transcript(a) => !a.whisper && a.output_file is None,
            _ => false,
        },
{
}

/// Read-only mode takes nothing from inspection: a call that does not write
/// begins the same in either mode.
pub proof fn law_inspection_is_unaffected(call: YtdlCall, around: Surroundings, step: YtdlStep)
    requires
        !writes(call),
    ensures
        begins(call, around, true, step) <==> begins(call, around, false, step),
{
}

/// Without a toolkit directory every call that is not refused explains what
/// is missing, and none runs anything.
pub proof fn law_missing_toolkit_is_explained(
    call: YtdlCall,
    around: Surroundings,
    read_only: bool,
    step: YtdlStep,
)
    requires
        begins(call, around, read_only, step),
        !(read_only && writes(call)),
        around.home() is Err,
    ensures
        step.fails(internal(around.home()->Err_0)),
{
}

/// The captured session is handed to yt-dlp exactly where one has been
/// captured, and its contents never are: only the path of its file.
pub proof fn law_session_is_used_where_captured(around: Surroundings, args: Seq<Seq<char>>)
    requires
        around.ytdlp(args) is Ok,
    ensures
        around.jar_is_file ==> around.ytdlp(args)->Ok_0.args.subrange(4, 6) == seq![
            "--cookies"@,
            around.places@.jar,
        ] && around.ytdlp(args)->Ok_0.args.skip(6) == args,
        !around.jar_is_file ==> around.ytdlp(args)->Ok_0.args.skip(4) == args,
{
    let all = around.ytdlp(args)->Ok_0.args;
    if around.jar_is_file {
        assert(all.subrange(4, 6) =~= seq!["--cookies"@, around.places@.jar]);
        assert(all.skip(6) =~= args);
    } else {
        assert(all.skip(4) =~= args);
    }
}

} // verus!
