//! What the operations of the archiving server do, told by their arguments and
//! their results.

use crate::json::{json_pretty, Json, JsonView};
use crate::mcp::{ErrorKind, ToolDef, ToolError};
use crate::schema_laws::law_archiving_tools_ask_for_their_arguments;
use crate::text::{decimal, joined, lines_of, parsed_number, views};
use crate::text_laws::given;
use crate::ytdl::digest::{digest, digest_of, langs};
use crate::ytdl::laws::{
    breaks_with, law_downloads_are_named_by_title, law_tools_go_by_these_names, only_if, works_in,
    written_as,
};
use crate::ytdl::listing::{list, listing_reply, DirEntry};
use crate::ytdl::output_laws::{
    law_digest_lists_the_languages, law_digest_quotes_the_dump, law_tail_is_the_end, lists_names_of,
};
use crate::ytdl::server::{
    begins, goes_on, inform, trimmed_lines, Surroundings, Ytdl, YtdlCall, YtdlEvent, YtdlStep,
    YtdlTool,
};
use crate::ytdl::toolkit::{
    cookie_jar, downloads_dir, home, python, read_only, run, script, set_value, settle, solid, tail,
    tail_of, timeout_secs, ytdlp, ytdlp_base, Places, Run, RunEnd, SETUP_HINT,
};
use vstd::prelude::*;
use vstd::string::*;

verus! {

/// A digest quotes the dump under these names.
pub proof fn law_digest(info: &Json, r: Json)
    requires
        call_ensures(digest, (info,), r),
    ensures
        r@ == digest_of(info@),
        r@ is Object && r@->Object_0.len() == 12,
        info@.member("id"@) is Some ==> r@.member("id"@) == info@.member("id"@),
        info@.member("title"@) is Some ==> r@.member("title"@) == info@.member("title"@),
        info@.member("uploader"@) is Some ==> r@.member("uploader"@) == info@.member("uploader"@),
        info@.member("channel_url"@) is Some ==> r@.member("channel_url"@) == info@.member(
            "channel_url"@,
        ),
        info@.member("duration"@) is Some ==> r@.member("duration_seconds"@) == info@.member(
            "duration"@,
        ),
        info@.member("upload_date"@) is Some ==> r@.member("upload_date"@) == info@.member(
            "upload_date"@,
        ),
        info@.member("view_count"@) is Some ==> r@.member("view_count"@) == info@.member(
            "view_count"@,
        ),
        info@.member("is_live"@) is Some ==> r@.member("is_live"@) == info@.member("is_live"@),
        info@.member("webpage_url"@) is Some ==> r@.member("webpage_url"@) == info@.member(
            "webpage_url"@,
        ),
        lists_names_of(r@.member("subtitle_languages"@), info@.member("subtitles"@)),
        lists_names_of(r@.member("auto_caption_languages"@), info@.member("automatic_captions"@)),
{
    law_digest_quotes_the_dump(info@);
    law_digest_lists_the_languages(info@);
}

/// The languages of a captions map are the names in it, in their order, and
/// there are none where there is no such map.
pub proof fn law_langs(node: Option<&Json>, r: Vec<String>)
    requires
        call_ensures(langs, (node,), r),
    ensures
        match node {
            Some(j) => match j@ {
                JsonView::Object(members) => r@.len() == members.len() && forall|i: int|
                    0 <= i < r@.len() ==> (#[trigger] r@[i])@ == members[i].0,
                _ => r@.len() == 0,
            },
            None => r@.len() == 0,
        },
{
    if let Some(j) = node {
        if let JsonView::Object(members) = j@ {
            assert(views(r@).len() == members.len());
            assert forall|i: int| 0 <= i < r@.len() implies (#[trigger] r@[i])@ == members[i].0 by {
                assert(views(r@)[i] == r@[i]@);
            }
        } else {
            assert(views(r@).len() == 0);
        }
    } else {
        assert(views(r@).len() == 0);
    }
}

/// A listing is what the directory's entries come to.
pub proof fn law_list(dir: &str, entries: &Vec<DirEntry>, limit: Option<usize>, r: Json)
    requires
        call_ensures(list, (dir, entries, limit), r),
    ensures
        r@ == listing_reply(dir@, entries@, limit),
        r@.member("directory"@) == Some(JsonView::Str(dir@)),
{
    crate::ytdl::output_laws::law_listing_shows_the_newest(dir@, entries@, limit);
}

/// A variable counts where it is set to more than the empty text.
pub proof fn law_variables(var: &Option<String>, value: Option<String>, on: bool, interpreter: String)
    requires
        call_ensures(set_value, (var,), value),
        call_ensures(read_only, (var,), on),
        call_ensures(python, (var,), interpreter),
    ensures
        given(*var) ==> (value matches Some(v) && v@ == var->0@) && on && interpreter@ == var->0@,
        !given(*var) ==> value is None && !on && interpreter@ == "python"@,
{
}

/// An invocation may take as many seconds as the variable says, and else
/// fifteen minutes.
pub proof fn law_timeout_secs(var: &Option<String>, r: u64)
    requires
        call_ensures(timeout_secs, (var,), r),
    ensures
        var is None ==> r == 900,
        var is Some && parsed_number(var->0@) is Some ==> r == parsed_number(var->0@)->0,
        var is Some && parsed_number(var->0@) is None ==> r == 900,
{
}

/// The toolkit's directory is the one that is named, where it is one.
pub proof fn law_home(var: &Option<String>, is_dir: bool, r: Result<String, String>)
    requires
        call_ensures(home, (var, is_dir), r),
    ensures
        !given(*var) ==> (r matches Err(e) && e@ == "YTDL_HOME is not set. "@ + SETUP_HINT@),
        given(*var) && !is_dir ==> (r matches Err(e) && e@ == "YTDL_HOME ("@ + var->0@
            + ") is not a directory. "@ + SETUP_HINT@),
        given(*var) && is_dir ==> (r matches Ok(path) && path@ == var->0@),
{
}

/// Downloads land where the variable says, and else in the toolkit's own
/// folder.
pub proof fn law_downloads_dir(places: &Places, var: &Option<String>, r: String)
    requires
        call_ensures(downloads_dir, (places, var), r),
    ensures
        given(*var) ==> r@ == var->0@,
        !given(*var) ==> r@ == places@.downloads,
{
}

/// The toolkit's files are named where they are there, and else missed by their
/// path, with the hint.
pub proof fn law_toolkit_files(
    places: &Places,
    is_there: bool,
    jar: Option<String>,
    exe: Result<String, String>,
    by: Result<String, String>,
)
    requires
        call_ensures(cookie_jar, (places, is_there), jar),
        call_ensures(ytdlp, (places, is_there), exe),
        call_ensures(script, (places, is_there), by),
    ensures
        is_there ==> {
            &&& jar matches Some(p) && p@ == places@.jar
            &&& exe matches Ok(p) && p@ == places@.exe
            &&& by matches Ok(p) && p@ == places@.script
        },
        !is_there ==> {
            &&& jar is None
            &&& exe matches Err(e) && e@ == places@.exe + " is missing from the toolkit. "@
                + SETUP_HINT@
            &&& by matches Err(e) && e@ == places@.script + " is missing from the toolkit. "@
                + SETUP_HINT@
        },
{
}

/// Every yt-dlp invocation has the bundled JS runtime and ffmpeg, and the
/// captured session where there is one.
pub proof fn law_ytdlp_base(
    places: &Places,
    deno_exists: bool,
    jar_is_file: bool,
    r: Result<Vec<String>, String>,
)
    requires
        call_ensures(ytdlp_base, (places, deno_exists, jar_is_file), r),
    ensures
        !deno_exists ==> (r matches Err(e) && e@ == places@.deno + " is missing from the toolkit. "@
            + SETUP_HINT@),
        deno_exists ==> (r matches Ok(args) && views(args@) == seq![
            "--js-runtimes"@,
            "deno:"@ + places@.deno,
            "--ffmpeg-location"@,
            places@.bin,
        ] + only_if(jar_is_file, seq!["--cookies"@, places@.jar])),
{
    if deno_exists {
        assert(views(r->Ok_0@) =~= seq![
            "--js-runtimes"@,
            "deno:"@ + places@.deno,
            "--ffmpeg-location"@,
            places@.bin,
        ] + only_if(jar_is_file, seq!["--cookies"@, places@.jar]));
    }
}

/// A tail is the last lines of a text that are not blank, in their order.
pub proof fn law_tail(text: &str, n: usize, r: String)
    requires
        call_ensures(tail, (text, n), r),
    ensures
        ({
            let all = solid(lines_of(text@));
            let count = if all.len() < n {
                all.len() as int
            } else {
                n as int
            };
            r@ == joined(all.subrange(all.len() - count, all.len() as int), "\n"@)
        }),
{
    law_tail_is_the_end(text@, n as nat);
}

/// A run that ended well gives what it printed, each stream in its place; one
/// that did not says how it failed.
pub proof fn law_settle(
    program: &str,
    success: bool,
    status: &str,
    stdout: String,
    stderr: String,
    r: Result<Run, String>,
)
    requires
        call_ensures(settle, (program, success, status, stdout, stderr), r),
    ensures
        success ==> (r matches Ok(x) && x.stdout@ == stdout@ && x.stderr@ == stderr@),
        !success ==> (r matches Err(e) && e@ == program@ + " exited with "@ + status@ + ": "@
            + tail_of(stderr@, 20)),
{
}

/// A run is settled by how it ended.
pub proof fn law_run(program: &str, secs: u64, end: RunEnd, r: Result<Run, String>)
    requires
        call_ensures(run, (program, secs, end), r),
    ensures
        end matches RunEnd::Unspawned(cause) ==> (r matches Err(e) && e@ == "spawning "@ + program@
            + ": "@ + cause@),
        end is TimedOut ==> (r matches Err(e) && e@ == "timed out after "@ + decimal(secs as nat)
            + "s — raise YTDL_TIMEOUT_SECS for long videos, or check whether the extractor is stuck"@),
        end matches RunEnd::Lost(cause) ==> (r matches Err(e) && e@ == "running "@ + program@
            + ": "@ + cause@),
        end matches RunEnd::Exited { success, status, stdout, stderr } ==> {
            &&& success <==> r is Ok
            &&& success && vstd::utf8::valid_utf8(stdout@) ==> r->Ok_0.stdout@
                == vstd::utf8::decode_utf8(stdout@)
            &&& success && vstd::utf8::valid_utf8(stderr@) ==> r->Ok_0.stderr@
                == vstd::utf8::decode_utf8(stderr@)
            &&& !success && vstd::utf8::valid_utf8(stderr@) ==> r->Err_0@ == program@
                + " exited with "@ + status@ + ": "@ + tail_of(
                vstd::utf8::decode_utf8(stderr@),
                20,
            )
        },
{
}

/// Metadata that was read is answered whole or as its digest, and what was not
/// is an error.
pub proof fn law_inform(parsed: Result<Json, String>, full: bool, stderr: &str, r: YtdlStep)
    requires
        call_ensures(inform, (parsed, full, stderr), r),
    ensures
        parsed matches Ok(info) ==> (r matches YtdlStep::Reply(t) && (if full {
            t@ == json_pretty(info@)
        } else {
            t@ == json_pretty(digest_of(info@))
        })),
        parsed matches Err(cause) ==> breaks_with(
            r,
            "yt-dlp metadata was not JSON: "@ + cause@ + "; "@ + tail_of(stderr@, 5),
        ),
{
}

/// A request for a tool is routed by its name; in read-only mode the two
/// downloads are refused at once, and a name that no tool has is the caller's
/// fault.
pub proof fn law_route(name: &str, read_only: bool, t: YtdlTool, r: Result<YtdlTool, ToolError>)
    requires
        call_ensures(Ytdl::route, (name, read_only), r),
    ensures
        ({
            let writes = t is DownloadVideo || t is DownloadAudio;
            let named = name@ == (match t {
                YtdlTool::Info => "video_info"@,
                YtdlTool::DownloadVideo => "download_video"@,
                YtdlTool::DownloadAudio => "download_audio"@,
                YtdlTool::Transcript => "fetch_transcript"@,
                YtdlTool::Session => "session_status"@,
                YtdlTool::List => "list_downloads"@,
            });
            &&& named && !(read_only && writes) ==> (r matches Ok(x) && x == t)
            &&& named && read_only && writes ==> (r matches Err(e) && e.kind
                == ErrorKind::InvalidParams && e.message@ == "'"@ + name@
                + "' writes to disk and YTDL_READ_ONLY is set"@)
            &&& r == Ok::<YtdlTool, ToolError>(t) ==> named
            &&& r matches Err(e) ==> e.kind == ErrorKind::InvalidParams
        }),
{
    law_tools_go_by_these_names(name@, t);
}

/// A name that no tool has is refused by that name.
pub proof fn law_route_refuses_other_names(
    name: &str,
    read_only: bool,
    r: Result<YtdlTool, ToolError>,
)
    requires
        call_ensures(Ytdl::route, (name, read_only), r),
        name@ != "video_info"@,
        name@ != "download_video"@,
        name@ != "download_audio"@,
        name@ != "fetch_transcript"@,
        name@ != "session_status"@,
        name@ != "list_downloads"@,
    ensures
        r matches Err(e) && e.kind == ErrorKind::InvalidParams && e.message@ == "unknown tool '"@
            + name@ + "'"@,
{
    if let Some(t) = crate::ytdl::server::tool_named(name@) {
        law_tools_go_by_these_names(name@, t);
    }
}

/// The toolkit is looked for in the directory that is named, with the script
/// that fetches transcripts.
pub proof fn law_places(var: &Option<String>, r: Places)
    requires
        call_ensures(Ytdl::places, (var,), r),
    ensures
        var matches Some(home) ==> r@.home == home@,
        var is None ==> r@.home.len() == 0,
        r@.script_name == "transcript.py"@,
        r@.laid_out(),
{
}

/// A download goes to the call's directory, by the video's title.
pub proof fn law_output_template(
    around: &Surroundings,
    named: &Option<String>,
    playlist: bool,
    dir: Seq<char>,
    r: (String, String),
)
    requires
        call_ensures(Ytdl::output_template, (around, named, playlist), r),
        works_in(*around, *named, dir),
    ensures
        r.0@ == dir,
        r.1@ == written_as(dir, playlist),
{
    law_downloads_are_named_by_title(dir, playlist);
}

/// The paths that a download printed are its lines, trimmed, the blank ones
/// left out.
pub proof fn law_written(run: &Run, r: Vec<String>)
    requires
        call_ensures(Ytdl::written, (run,), r),
    ensures
        views(r@) == trimmed_lines(lines_of(run.stdout@)),
{
}

/// A step of a call follows from what happened: when it comes in it begins,
/// when its command ran it goes on with what that printed, when the command
/// failed it fails with the cause, and when the directory was read or could not
/// be it answers with the listing or says so.
pub proof fn law_call_tool(
    call: &YtdlCall,
    around: &Surroundings,
    read_only: bool,
    event: YtdlEvent,
    dir: Seq<char>,
    r: YtdlStep,
)
    requires
        call_ensures(Ytdl::call_tool, (call, around, read_only, event), r),
        call matches YtdlCall::List(a) ==> works_in(*around, a.dir, dir),
    ensures
        event is Begin ==> begins(*call, *around, read_only, r),
        event matches YtdlEvent::Ran(Ok(run)) ==> goes_on(*call, *around, run, r),
        event matches YtdlEvent::Ran(Err(e)) ==> breaks_with(r, e@),
        call matches YtdlCall::List(a) ==> {
            &&& event matches YtdlEvent::Listed(Ok(entries)) ==> (r matches YtdlStep::Reply(t) && t@
                == json_pretty(listing_reply(dir, entries@, a.limit)))
            &&& event matches YtdlEvent::Listed(Err(cause)) ==> breaks_with(
                r,
                "reading "@ + dir + ": "@ + cause@,
            )
        },
{
}

/// The tools on offer are these six, with these arguments.
pub proof fn law_tools(r: Vec<ToolDef>)
    requires
        call_ensures(Ytdl::tools, (), r),
    ensures
        r@.len() == 6,
        r@[0].name@ == "video_info"@,
        r@[1].name@ == "download_video"@,
        r@[2].name@ == "download_audio"@,
        r@[3].name@ == "fetch_transcript"@,
        r@[4].name@ == "session_status"@,
        r@[5].name@ == "list_downloads"@,
        forall|i: int|
            0 <= i < 6 ==> (#[trigger] r@[i])@ == crate::ytdl::server::tools_surface()[i],
{
    law_archiving_tools_ask_for_their_arguments();
    let all = crate::mcp::defs_view(r@);
    assert forall|i: int| 0 <= i < 6 implies (#[trigger] r@[i])@
        == crate::ytdl::server::tools_surface()[i] by {
        assert(all[i] == r@[i]@);
    }
}

} // verus!
