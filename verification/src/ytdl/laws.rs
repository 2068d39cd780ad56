//! What the archiving server does, told by what goes in and what comes out.

use crate::json::{json_pretty, json_read, texts_view, JsonView};
use crate::json_laws::{
    law_empty_object_has_no_member, law_texts_stand_in_their_places, law_with_adds_one_member,
};
use crate::mcp::{ErrorKind, ErrorView};
use crate::text::{decimal, text_view, trimmed};
use crate::text_laws::given;
use crate::ytdl::digest::digest_of;
use crate::ytdl::server::{
    begins, download_reply, downloads, goes_on, law_names_are_distinct, session_reply, template_for,
    tool_named, transcript_reply, trimmed_lines, unreadable, write_refused, written_in, AudioArgs,
    CommandView, DownloadArgs, ListArgs, Surroundings, TranscriptArgs, UrlArgs, YtdlCall, YtdlStep,
    YtdlTool, NOTE_ANONYMOUS, NOTE_CAPTURED,
};
use crate::ytdl::toolkit::{alike, behind, is_names, tail_of, PlacesView, Run, SETUP_HINT};
use vstd::prelude::*;
use vstd::string::*;

verus! {

/// The items where `on`, and none where not.
pub open spec fn only_if(on: bool, items: Seq<Seq<char>>) -> Seq<Seq<char>> {
    if on {
        items
    } else {
        Seq::empty()
    }
}

/// The command runs in the toolkit's directory, which there is.
pub open spec fn runs_at_home(around: Surroundings, command: CommandView) -> bool {
    &&& around.places@.home.len() > 0
    &&& around.home_is_dir
    &&& command.cwd == around.places@.home
}

/// A transcript is fetched by the script for the asked video, with exactly the
/// switches that the call sets, each for its own purpose: `--srt` keeps the
/// timing, `--lang` chooses the language, `--auto-fallback` allows Whisper, and
/// `-o` names the output file.
pub proof fn law_transcript_command(
    a: TranscriptArgs,
    around: Surroundings,
    read_only: bool,
    step: YtdlStep,
    command: CommandView,
)
    requires
        begins(YtdlCall::Transcript(a), around, read_only, step),
        step matches YtdlStep::Run(x) && x@ == command,
    ensures
        runs_at_home(around, command),
        around.script_exists,
        given(around.python_var) ==> command.program == around.python_var->0@,
        !given(around.python_var) ==> command.program == "python"@,
        command.args == seq![around.places@.script, a.url@] + only_if(a.srt, seq!["--srt"@])
            + only_if(given(a.lang), seq!["--lang"@, a.lang->0@]) + only_if(
            a.whisper,
            seq!["--auto-fallback"@],
        ) + only_if(given(a.output_file), seq!["-o"@, a.output_file->0@]),
{
    assert(command.args =~= seq![around.places@.script, a.url@] + only_if(a.srt, seq!["--srt"@])
        + only_if(given(a.lang), seq!["--lang"@, a.lang->0@]) + only_if(
        a.whisper,
        seq!["--auto-fallback"@],
    ) + only_if(given(a.output_file), seq!["-o"@, a.output_file->0@]));
}

/// What stands in two lists put together stands in one of them.
proof fn lemma_contains_in_both(a: Seq<Seq<char>>, b: Seq<Seq<char>>, x: Seq<char>)
    ensures
        (a + b).contains(x) <==> a.contains(x) || b.contains(x),
{
    let all = a + b;
    if a.contains(x) {
        let i = choose|i: int| 0 <= i < a.len() && a[i] == x;
        assert(all[i] == x);
    }
    if b.contains(x) {
        let i = choose|i: int| 0 <= i < b.len() && b[i] == x;
        assert(all[a.len() + i] == x);
    }
    if all.contains(x) {
        let i = choose|i: int| 0 <= i < all.len() && all[i] == x;
        if i < a.len() {
            assert(a[i] == x);
        } else {
            assert(b[i - a.len()] == x);
        }
    }
}

proof fn lemma_contains_one(a: Seq<char>, x: Seq<char>)
    ensures
        seq![a].contains(x) <==> x == a,
{
    assert(seq![a][0] == a);
}

proof fn lemma_contains_two(a: Seq<char>, b: Seq<char>, x: Seq<char>)
    ensures
        seq![a, b].contains(x) <==> x == a || x == b,
{
    assert(seq![a, b][0] == a);
    assert(seq![a, b][1] == b);
}

/// The switches of the transcript script differ.
proof fn lemma_switches_differ()
    ensures
        "--srt"@ != "--lang"@,
        "--srt"@ != "--auto-fallback"@,
        "--srt"@ != "-o"@,
        "--lang"@ != "--auto-fallback"@,
        "--auto-fallback"@ != "-o"@,
{
    reveal_strlit("--srt");
    reveal_strlit("--lang");
    reveal_strlit("--auto-fallback");
    reveal_strlit("-o");
    assert("--srt"@.len() == 5);
    assert("--lang"@.len() == 6);
    assert("--auto-fallback"@.len() == 15);
    assert("-o"@.len() == 2);
}

/// The text that a caller gave stands in the command for itself: the video, the
/// language or the output file.
pub open spec fn is_given_as(a: TranscriptArgs, t: Seq<char>) -> bool {
    ||| t == a.url@
    ||| text_view(a.lang) == Some(t)
    ||| text_view(a.output_file) == Some(t)
}

/// The path of the transcript script ends as its name does.
proof fn lemma_script_ends_so(p: PlacesView)
    requires
        p.laid_out(),
        p.script_name == "transcript.py"@,
    ensures
        p.script.len() > 0,
        p.script[p.script.len() - 1] == 'y',
{
    reveal_strlit("scripts/");
    reveal_strlit("transcript.py");
    reveal_strlit("/");
    reveal_strlit("\\");
    let below = "scripts/"@ + p.script_name;
    assert(below.len() == 21);
    assert(below[20] == 'y');
    assert(is_names(below));
    if !behind(p.home, below, p.script) {
        let tail = p.script.skip(p.script.len() - below.len() - 1);
        assert(alike(tail, "/"@ + below));
        assert(("/"@ + below)[21] == 'y');
        assert(tail[21] == 'y');
    }
}

/// A switch is thrown exactly where the call asks for it: `--srt` where the
/// timing is to be kept, and `--auto-fallback` where Whisper is allowed. So no
/// transcript that is fetched in read-only mode falls back to Whisper.
pub proof fn law_transcript_switches(
    a: TranscriptArgs,
    around: Surroundings,
    read_only: bool,
    step: YtdlStep,
    command: CommandView,
)
    requires
        begins(YtdlCall::Transcript(a), around, read_only, step),
        step matches YtdlStep::Run(x) && x@ == command,
        around.places@.laid_out(),
        around.places@.script_name == "transcript.py"@,
        !is_given_as(a, "--srt"@),
        !is_given_as(a, "--auto-fallback"@),
    ensures
        command.args.contains("--srt"@) <==> a.srt,
        command.args.contains("--auto-fallback"@) <==> a.whisper,
        read_only ==> !command.args.contains("--auto-fallback"@),
{
    law_transcript_command(a, around, read_only, step, command);
    lemma_switches_differ();
    lemma_script_ends_so(around.places@);
    reveal_strlit("--srt");
    reveal_strlit("--auto-fallback");
    assert("--srt"@[4] == 't');
    assert("--auto-fallback"@[14] == 'k');
    let p0 = seq![around.places@.script, a.url@];
    let s1 = only_if(a.srt, seq!["--srt"@]);
    let s2 = only_if(given(a.lang), seq!["--lang"@, a.lang->0@]);
    let s3 = only_if(a.whisper, seq!["--auto-fallback"@]);
    let s4 = only_if(given(a.output_file), seq!["-o"@, a.output_file->0@]);
    lemma_one_switch(p0, s1, s2, s3, s4, "--srt"@);
    lemma_one_switch(p0, s1, s2, s3, s4, "--auto-fallback"@);
    lemma_contains_two(around.places@.script, a.url@, "--srt"@);
    lemma_contains_two(around.places@.script, a.url@, "--auto-fallback"@);
    lemma_contains_one("--srt"@, "--srt"@);
    lemma_contains_one("--srt"@, "--auto-fallback"@);
    lemma_contains_one("--auto-fallback"@, "--srt"@);
    lemma_contains_one("--auto-fallback"@, "--auto-fallback"@);
    lemma_contains_two("--lang"@, a.lang->0@, "--srt"@);
    lemma_contains_two("--lang"@, a.lang->0@, "--auto-fallback"@);
    lemma_contains_two("-o"@, a.output_file->0@, "--srt"@);
    lemma_contains_two("-o"@, a.output_file->0@, "--auto-fallback"@);
}

proof fn lemma_one_switch(
    a: Seq<Seq<char>>,
    b: Seq<Seq<char>>,
    c: Seq<Seq<char>>,
    d: Seq<Seq<char>>,
    e: Seq<Seq<char>>,
    x: Seq<char>,
)
    ensures
        (a + b + c + d + e).contains(x) <==> a.contains(x) || b.contains(x) || c.contains(x)
            || d.contains(x) || e.contains(x),
{
    lemma_contains_in_both(a, b, x);
    lemma_contains_in_both(a + b, c, x);
    lemma_contains_in_both(a + b + c, d, x);
    lemma_contains_in_both(a + b + c + d, e, x);
}

/// The directory that a call works on: the one it names, else the one that
/// `YTDL_DOWNLOADS` names, else the toolkit's own.
pub open spec fn works_in(around: Surroundings, named: Option<String>, dir: Seq<char>) -> bool {
    if given(named) {
        dir == named->0@
    } else if given(around.downloads_var) {
        dir == around.downloads_var->0@
    } else {
        dir == around.places@.downloads
    }
}

/// The command is yt-dlp's, with the bundled JS runtime, the bundled ffmpeg, the
/// captured session where there is one, and then `rest`.
pub open spec fn is_ytdlp(around: Surroundings, command: CommandView, rest: Seq<Seq<char>>) -> bool {
    &&& runs_at_home(around, command)
    &&& around.exe_exists
    &&& around.deno_exists
    &&& command.program == around.places@.exe
    &&& command.args == seq![
        "--js-runtimes"@,
        "deno:"@ + around.places@.deno,
        "--ffmpeg-location"@,
        around.places@.bin,
    ] + only_if(around.jar_is_file, seq!["--cookies"@, around.places@.jar]) + rest
}

/// Metadata is asked for as one JSON document of the one video, and nothing is
/// downloaded.
pub proof fn law_info_command(
    a: UrlArgs,
    around: Surroundings,
    read_only: bool,
    step: YtdlStep,
    command: CommandView,
)
    requires
        begins(YtdlCall::Info(a), around, read_only, step),
        step matches YtdlStep::Run(x) && x@ == command,
    ensures
        is_ytdlp(around, command, seq!["-J"@, "--no-playlist"@, "--no-warnings"@, a.url@]),
{
    assert(command.args =~= seq![
        "--js-runtimes"@,
        "deno:"@ + around.places@.deno,
        "--ffmpeg-location"@,
        around.places@.bin,
    ] + only_if(around.jar_is_file, seq!["--cookies"@, around.places@.jar]) + seq![
        "-J"@,
        "--no-playlist"@,
        "--no-warnings"@,
        a.url@,
    ]);
}

/// The file that a download is written to, in `dir`: by the title, and for a
/// playlist in a folder of its title, by the place and the title.
pub open spec fn written_as(dir: Seq<char>, playlist: bool) -> Seq<char> {
    if playlist {
        dir + "/%(playlist_title)s/%(playlist_index)s - %(title)s.%(ext)s"@
    } else {
        dir + "/%(title)s.%(ext)s"@
    }
}

/// The template that yt-dlp gets is that of the file.
pub proof fn law_downloads_are_named_by_title(dir: Seq<char>, playlist: bool)
    ensures
        template_for(dir, playlist) == written_as(dir, playlist),
{
    reveal_strlit("/");
    reveal_strlit("%(title)s.%(ext)s");
    reveal_strlit("/%(title)s.%(ext)s");
    reveal_strlit("%(playlist_title)s/%(playlist_index)s - %(title)s.%(ext)s");
    reveal_strlit("/%(playlist_title)s/%(playlist_index)s - %(title)s.%(ext)s");
    assert("/"@ + "%(title)s.%(ext)s"@ =~= "/%(title)s.%(ext)s"@);
    assert("/"@ + "%(playlist_title)s/%(playlist_index)s - %(title)s.%(ext)s"@
        =~= "/%(playlist_title)s/%(playlist_index)s - %(title)s.%(ext)s"@);
    assert(template_for(dir, playlist) =~= written_as(dir, playlist));
}

/// A video is downloaded for real to the call's directory, and its path
/// printed: the playlist where the call asks for it and else the one video, no
/// higher than the call allows where it sets a limit.
pub proof fn law_video_command(
    a: DownloadArgs,
    around: Surroundings,
    read_only: bool,
    step: YtdlStep,
    command: CommandView,
    dir: Seq<char>,
)
    requires
        begins(YtdlCall::DownloadVideo(a), around, read_only, step),
        step matches YtdlStep::Run(x) && x@ == command,
        works_in(around, a.output_dir, dir),
    ensures
        !read_only,
        is_ytdlp(
            around,
            command,
            seq![
                if a.playlist {
                    "--yes-playlist"@
                } else {
                    "--no-playlist"@
                },
                "-o"@,
                written_as(dir, a.playlist),
                "--print"@,
                "after_move:filepath"@,
                "--no-simulate"@,
            ] + only_if(
                a.max_height is Some,
                seq![
                    "-f"@,
                    "bestvideo[height<="@ + decimal(a.max_height->0 as nat)
                        + "]+bestaudio/best[height<="@ + decimal(a.max_height->0 as nat) + "]"@,
                ],
            ) + seq![a.url@],
        ),
{
    law_downloads_are_named_by_title(dir, a.playlist);
    let rest = seq![
        if a.playlist {
            "--yes-playlist"@
        } else {
            "--no-playlist"@
        },
        "-o"@,
        written_as(dir, a.playlist),
        "--print"@,
        "after_move:filepath"@,
        "--no-simulate"@,
    ] + only_if(
        a.max_height is Some,
        seq![
            "-f"@,
            "bestvideo[height<="@ + decimal(a.max_height->0 as nat) + "]+bestaudio/best[height<="@
                + decimal(a.max_height->0 as nat) + "]"@,
        ],
    ) + seq![a.url@];
    assert(command.args =~= seq![
        "--js-runtimes"@,
        "deno:"@ + around.places@.deno,
        "--ffmpeg-location"@,
        around.places@.bin,
    ] + only_if(around.jar_is_file, seq!["--cookies"@, around.places@.jar]) + rest);
}

/// Audio is downloaded for real to the call's directory as MP3 of the best
/// quality, and its path printed: the playlist where the call asks for it and
/// else the one video.
pub proof fn law_audio_command(
    a: AudioArgs,
    around: Surroundings,
    read_only: bool,
    step: YtdlStep,
    command: CommandView,
    dir: Seq<char>,
)
    requires
        begins(YtdlCall::DownloadAudio(a), around, read_only, step),
        step matches YtdlStep::Run(x) && x@ == command,
        works_in(around, a.output_dir, dir),
    ensures
        !read_only,
        is_ytdlp(
            around,
            command,
            seq![
                if a.playlist {
                    "--yes-playlist"@
                } else {
                    "--no-playlist"@
                },
                "-x"@,
                "--audio-format"@,
                "mp3"@,
                "--audio-quality"@,
                "0"@,
                "-o"@,
                written_as(dir, a.playlist),
                "--print"@,
                "after_move:filepath"@,
                "--no-simulate"@,
                a.url@,
            ],
        ),
{
    law_downloads_are_named_by_title(dir, a.playlist);
    assert(command.args =~= seq![
        "--js-runtimes"@,
        "deno:"@ + around.places@.deno,
        "--ffmpeg-location"@,
        around.places@.bin,
    ] + only_if(around.jar_is_file, seq!["--cookies"@, around.places@.jar]) + seq![
        if a.playlist {
            "--yes-playlist"@
        } else {
            "--no-playlist"@
        },
        "-x"@,
        "--audio-format"@,
        "mp3"@,
        "--audio-quality"@,
        "0"@,
        "-o"@,
        written_as(dir, a.playlist),
        "--print"@,
        "after_move:filepath"@,
        "--no-simulate"@,
        a.url@,
    ]);
}

/// The step is an error of the server with this message.
pub open spec fn breaks_with(step: YtdlStep, message: Seq<char>) -> bool {
    step matches YtdlStep::Fail(e) && e.kind == ErrorKind::Internal && e.message@ == message
}

/// The call is refused in read-only mode: a download, and a transcript that is
/// to be written to a file or may fall back to Whisper.
pub open spec fn is_refused(call: YtdlCall, read_only: bool) -> bool {
    read_only && match call {
        YtdlCall::DownloadVideo(_) => true,
        YtdlCall::DownloadAudio(_) => true,
        YtdlCall::Transcript(a) => a.whisper || a.output_file is Some,
        _ => false,
    }
}

/// In read-only mode exactly the calls that write to disk are refused, by their
/// tool's name, as the caller's fault.
pub proof fn law_read_only_refuses_just_the_writes(
    call: YtdlCall,
    around: Surroundings,
    read_only: bool,
    step: YtdlStep,
)
    requires
        begins(call, around, read_only, step),
    ensures
        is_refused(call, read_only) ==> (step matches YtdlStep::Fail(e) && e.kind
            == ErrorKind::InvalidParams && e.message@ == "'"@ + (match call {
            YtdlCall::DownloadVideo(_) => "download_video"@,
            YtdlCall::DownloadAudio(_) => "download_audio"@,
            _ => "fetch_transcript"@,
        }) + "' writes to disk and YTDL_READ_ONLY is set"@),
        !is_refused(call, read_only) ==> !(step matches YtdlStep::Fail(e) && e.kind
            == ErrorKind::InvalidParams),
{
}

/// A call that is not refused needs the toolkit's directory, and each kind of
/// call its own files in it: what is missing first is named, with the hint on
/// how to set the toolkit up, and where nothing is missing the call goes on.
pub proof fn law_what_is_missing_is_named(
    call: YtdlCall,
    around: Surroundings,
    read_only: bool,
    step: YtdlStep,
)
    requires
        begins(call, around, read_only, step),
        !is_refused(call, read_only),
    ensures
        ({
            let p = around.places@;
            let ytdlp = call is Info || call is DownloadVideo || call is DownloadAudio;
            if p.home.len() == 0 {
                breaks_with(step, "YTDL_HOME is not set. "@ + SETUP_HINT@)
            } else if !around.home_is_dir {
                breaks_with(
                    step,
                    "YTDL_HOME ("@ + p.home + ") is not a directory. "@ + SETUP_HINT@,
                )
            } else if ytdlp && !around.exe_exists {
                breaks_with(step, p.exe + " is missing from the toolkit. "@ + SETUP_HINT@)
            } else if ytdlp && !around.deno_exists {
                breaks_with(step, p.deno + " is missing from the toolkit. "@ + SETUP_HINT@)
            } else if call is Transcript && !around.script_exists {
                breaks_with(step, p.script + " is missing from the toolkit. "@ + SETUP_HINT@)
            } else if call is Session {
                step is Reply
            } else if call is List {
                step is ListDir
            } else {
                step is Run
            }
        }),
{
}

/// The names in the answers of the server differ.
proof fn lemma_answer_names_differ()
    ensures
        "ok"@.len() == 2,
        "directory"@.len() == 9,
        "files"@.len() == 5,
        "written"@.len() == 7,
        "captured"@.len() == 8,
        "jar"@.len() == 3,
        "age_hours"@.len() == 9,
        "note"@.len() == 4,
        "name"@.len() == 4,
        "bytes"@.len() == 5,
{
    reveal_strlit("ok");
    reveal_strlit("directory");
    reveal_strlit("files");
    reveal_strlit("written");
    reveal_strlit("captured");
    reveal_strlit("jar");
    reveal_strlit("age_hours");
    reveal_strlit("note");
    reveal_strlit("name");
    reveal_strlit("bytes");
}

/// A download is answered with its directory and the paths that yt-dlp
/// printed.
pub proof fn law_download_is_answered_with_its_files(
    call: YtdlCall,
    around: Surroundings,
    run: Run,
    step: YtdlStep,
    named: Option<String>,
    dir: Seq<char>,
)
    requires
        goes_on(call, around, run, step),
        call matches YtdlCall::DownloadVideo(a) ==> named == a.output_dir,
        call matches YtdlCall::DownloadAudio(a) ==> named == a.output_dir,
        call is DownloadVideo || call is DownloadAudio,
        works_in(around, named, dir),
    ensures
        ({
            let reply = download_reply(dir, written_in(run.stdout@));
            &&& step matches YtdlStep::Reply(t) && t@ == json_pretty(reply)
            &&& reply is Object && reply->Object_0.len() == 3
            &&& reply.member("ok"@) == Some(JsonView::Bool(true))
            &&& reply.member("directory"@) == Some(JsonView::Str(dir))
            &&& reply.member("files"@) matches Some(JsonView::Array(files))
            &&& files.len() == written_in(run.stdout@).len()
            &&& forall|i: int|
                0 <= i < files.len() ==> (#[trigger] files[i]) == JsonView::Str(
                    written_in(run.stdout@)[i],
                )
        }),
{
    lemma_answer_names_differ();
    law_empty_object_has_no_member();
    let a = JsonView::object();
    law_with_adds_one_member(a, "ok"@, JsonView::Bool(true));
    let b = a.with("ok"@, JsonView::Bool(true));
    law_with_adds_one_member(b, "directory"@, JsonView::Str(dir));
    let c = b.with("directory"@, JsonView::Str(dir));
    law_with_adds_one_member(c, "files"@, texts_view(written_in(run.stdout@)));
    law_texts_stand_in_their_places(written_in(run.stdout@));
}

/// The paths that a download printed are its lines without the white space at
/// their ends, the blank ones left out, in their order: what two outputs print,
/// one behind the other, is what the first prints and then what the second
/// prints.
pub proof fn law_printed_paths_are_the_lines(a: Seq<Seq<char>>, b: Seq<Seq<char>>, line: Seq<char>)
    ensures
        trimmed_lines(a + b) == trimmed_lines(a) + trimmed_lines(b),
        trimmed_lines(Seq::empty()).len() == 0,
        trimmed(line).len() > 0 ==> trimmed_lines(seq![line]) == seq![trimmed(line)],
        trimmed(line).len() == 0 ==> trimmed_lines(seq![line]).len() == 0,
    decreases b.len(),
{
    reveal_with_fuel(trimmed_lines, 2);
    assert(seq![line].drop_last() =~= Seq::empty());
    assert(trimmed_lines(seq![line].drop_last()) == Seq::<Seq<char>>::empty());
    assert(trimmed(line).len() > 0 ==> trimmed_lines(seq![line]) =~= seq![trimmed(line)]);
    if b.len() == 0 {
        assert(a + b =~= a);
        assert(trimmed_lines(a) + trimmed_lines(b) =~= trimmed_lines(a));
    } else {
        law_printed_paths_are_the_lines(a, b.drop_last(), line);
        assert((a + b).drop_last() =~= a + b.drop_last());
        assert((a + b).last() == b.last());
        assert(trimmed_lines(a + b) =~= trimmed_lines(a) + trimmed_lines(b));
    }
}

/// A transcript that was written to a file is answered with the path of that
/// file, and any other with what the script printed, as it stands.
pub proof fn law_transcript_is_answered(
    a: TranscriptArgs,
    around: Surroundings,
    run: Run,
    step: YtdlStep,
)
    requires
        goes_on(YtdlCall::Transcript(a), around, run, step),
    ensures
        a.output_file is None ==> (step matches YtdlStep::Reply(t) && t@ == run.stdout@),
        a.output_file matches Some(path) ==> {
            let reply = transcript_reply(path@);
            &&& step matches YtdlStep::Reply(t) && t@ == json_pretty(reply)
            &&& reply is Object && reply->Object_0.len() == 2
            &&& reply.member("ok"@) == Some(JsonView::Bool(true))
            &&& reply.member("written"@) == Some(JsonView::Str(path@))
        },
{
    lemma_answer_names_differ();
    law_empty_object_has_no_member();
    if let Some(path) = a.output_file {
        let o = JsonView::object();
        law_with_adds_one_member(o, "ok"@, JsonView::Bool(true));
        law_with_adds_one_member(
            o.with("ok"@, JsonView::Bool(true)),
            "written"@,
            JsonView::Str(path@),
        );
    }
}

/// Metadata is answered whole where the call asks for all of it, and as a
/// digest where not; output that is no JSON is an error with its cause and the
/// last lines that yt-dlp complained in.
pub proof fn law_metadata_is_answered(a: UrlArgs, around: Surroundings, run: Run, step: YtdlStep)
    requires
        goes_on(YtdlCall::Info(a), around, run, step),
    ensures
        match json_read(trimmed(run.stdout@)) {
            Ok(info) => step matches YtdlStep::Reply(t) && (if a.full {
                t@ == json_pretty(info)
            } else {
                t@ == json_pretty(digest_of(info))
            }),
            Err(cause) => breaks_with(
                step,
                "yt-dlp metadata was not JSON: "@ + cause + "; "@ + tail_of(run.stderr@, 5),
            ),
        },
{
}

/// The session is reported as it is: whether one was captured, where it is
/// kept, and its age in whole hours, which is told of a captured session alone.
pub proof fn law_session_is_reported(around: Surroundings, read_only: bool, step: YtdlStep)
    requires
        begins(YtdlCall::Session, around, read_only, step),
        step is Reply,
    ensures
        ({
            let reply = session_reply(
                around.places@.jar,
                around.jar_is_file,
                around.jar_age_secs,
            );
            &&& step matches YtdlStep::Reply(t) && t@ == json_pretty(reply)
            &&& reply is Object && reply->Object_0.len() == 4
            &&& reply.member("captured"@) == Some(JsonView::Bool(around.jar_is_file))
            &&& around.jar_is_file ==> reply.member("jar"@) == Some(
                JsonView::Str(around.places@.jar),
            ) && reply.member("note"@) == Some(JsonView::Str(NOTE_CAPTURED@))
            &&& !around.jar_is_file ==> reply.member("jar"@) == Some(JsonView::Null)
                && reply.member("note"@) == Some(JsonView::Str(NOTE_ANONYMOUS@))
            &&& around.jar_is_file && around.jar_age_secs is Some ==> {
                &&& reply.member("age_hours"@) matches Some(JsonView::UInt(h))
                &&& h * 3600 <= around.jar_age_secs->0 < (h + 1) * 3600
            }
            &&& !(around.jar_is_file && around.jar_age_secs is Some) ==> reply.member(
                "age_hours"@,
            ) == Some(JsonView::Null)
        }),
{
    lemma_answer_names_differ();
    law_empty_object_has_no_member();
    reveal_strlit("directory");
    let reply = session_reply(around.places@.jar, around.jar_is_file, around.jar_age_secs);
    let held = reply->Object_0;
    let a = JsonView::object();
    law_with_adds_one_member(a, "captured"@, held[0].1);
    let b = a.with("captured"@, held[0].1);
    law_with_adds_one_member(b, "jar"@, held[1].1);
    let c = b.with("jar"@, held[1].1);
    law_with_adds_one_member(c, "age_hours"@, held[2].1);
    let d = c.with("age_hours"@, held[2].1);
    law_with_adds_one_member(d, "note"@, held[3].1);
    assert(reply->Object_0 =~= d.with("note"@, held[3].1)->Object_0);
}

/// A listing reads the directory that the call works on, and where that cannot
/// be read, says so.
pub proof fn law_listing_reads_the_directory(
    a: ListArgs,
    around: Surroundings,
    read_only: bool,
    step: YtdlStep,
    dir: Seq<char>,
    cause: Seq<char>,
)
    requires
        begins(YtdlCall::List(a), around, read_only, step),
        works_in(around, a.dir, dir),
    ensures
        step matches YtdlStep::ListDir(d) ==> d@ == dir,
        around.directory(text_view(a.dir)) == dir,
        unreadable(dir, cause) == "reading "@ + dir + ": "@ + cause,
{
}

/// Each tool goes by its own name, and a name that is none of these is no
/// tool's.
pub proof fn law_tools_go_by_these_names(name: Seq<char>, t: YtdlTool)
    ensures
        tool_named(name) == Some(t) <==> name == (match t {
            YtdlTool::Info => "video_info"@,
            YtdlTool::DownloadVideo => "download_video"@,
            YtdlTool::DownloadAudio => "download_audio"@,
            YtdlTool::Transcript => "fetch_transcript"@,
            YtdlTool::Session => "session_status"@,
            YtdlTool::List => "list_downloads"@,
        }),
        downloads(t) <==> t is DownloadVideo || t is DownloadAudio,
        write_refused(name).kind == ErrorKind::InvalidParams,
        write_refused(name).message == "'"@ + name + "' writes to disk and YTDL_READ_ONLY is set"@,
{
    law_names_are_distinct(t);
    if let Some(u) = tool_named(name) {
        law_names_are_distinct(u);
    }
}

/// What a step says is just what it is said to say.
pub proof fn law_steps_say_what_they_are_said_to(
    step: YtdlStep,
    reply: JsonView,
    text: Seq<char>,
    error: ErrorView,
)
    ensures
        step.answers(reply) <==> (step matches YtdlStep::Reply(t) && t@ == json_pretty(reply)),
        step.says(text) <==> (step matches YtdlStep::Reply(t) && t@ == text),
        step.fails(error) <==> (step matches YtdlStep::Fail(e) && e@ == error),
{
}

} // verus!
