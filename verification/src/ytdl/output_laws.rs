//! What the archiving server makes of the toolkit's files and of what the
//! toolkit prints.

use crate::json::JsonView;
use crate::json_laws::{
    law_empty_object_has_no_member, law_texts_stand_in_their_places, law_with_adds_one_member,
};
use crate::text::{decimal, has, is_blank, joined, lines_of, parsed_number, stands_at, trimmed};
use crate::text_laws::{
    law_lines_end_at_line_feeds, law_trimming_leaves_the_middle,
    law_trimming_takes_only_white_space, on_one_line,
};
use crate::ytdl::digest::{
    digest_of, height_of, heights_in, heights_of, langs_in, law_heights_are_the_formats_heights,
    member_or_null, numbers_view,
};
use crate::ytdl::laws::law_printed_paths_are_the_lines;
use crate::ytdl::listing::{
    file_row, files_in, law_listing_is_newest_first, listing_reply, newest_first, of_moment, shown,
    DirEntry, FileView,
};
use crate::ytdl::server::{trimmed_lines, written_in};
use crate::ytdl::toolkit::{
    adjoined, exited_badly, is_verbatim, last_of, lost, solid, tail_of, timed_out, timeout_for,
    unspawned, value_of_var, PlacesView, SETUP_HINT,
};
use vstd::prelude::*;
use vstd::string::*;

verus! {

/// The value, or null where there is none.
pub open spec fn or_null(v: Option<JsonView>) -> JsonView {
    match v {
        Some(j) => j,
        None => JsonView::Null,
    }
}

/// The names in a digest differ.
proof fn lemma_digest_names_differ()
    ensures
        "id"@.len() == 2,
        "title"@.len() == 5,
        "uploader"@.len() == 8,
        "channel_url"@.len() == 11,
        "duration_seconds"@.len() == 16,
        "upload_date"@.len() == 11,
        "view_count"@.len() == 10,
        "is_live"@.len() == 7,
        "webpage_url"@.len() == 11,
        "available_heights"@.len() == 17,
        "subtitle_languages"@.len() == 18,
        "auto_caption_languages"@.len() == 22,
        "channel_url"@ != "upload_date"@,
        "channel_url"@ != "webpage_url"@,
        "upload_date"@ != "webpage_url"@,
{
    reveal_strlit("id");
    reveal_strlit("title");
    reveal_strlit("uploader");
    reveal_strlit("channel_url");
    reveal_strlit("duration_seconds");
    reveal_strlit("upload_date");
    reveal_strlit("view_count");
    reveal_strlit("is_live");
    reveal_strlit("webpage_url");
    reveal_strlit("available_heights");
    reveal_strlit("subtitle_languages");
    reveal_strlit("auto_caption_languages");
    assert("channel_url"@[0] == 'c' && "upload_date"@[0] == 'u' && "webpage_url"@[0] == 'w');
}

/// The digest of a dump holds these twelve members: the plain ones are the
/// dump's members of the same name (the duration in seconds is the dump's
/// `duration`), null where the dump has none.
pub proof fn law_digest_quotes_the_dump(info: JsonView)
    ensures
        digest_of(info) is Object,
        digest_of(info)->Object_0.len() == 12,
        digest_of(info).member("id"@) == Some(or_null(info.member("id"@))),
        digest_of(info).member("title"@) == Some(or_null(info.member("title"@))),
        digest_of(info).member("uploader"@) == Some(or_null(info.member("uploader"@))),
        digest_of(info).member("channel_url"@) == Some(or_null(info.member("channel_url"@))),
        digest_of(info).member("duration_seconds"@) == Some(or_null(info.member("duration"@))),
        digest_of(info).member("upload_date"@) == Some(or_null(info.member("upload_date"@))),
        digest_of(info).member("view_count"@) == Some(or_null(info.member("view_count"@))),
        digest_of(info).member("is_live"@) == Some(or_null(info.member("is_live"@))),
        digest_of(info).member("webpage_url"@) == Some(or_null(info.member("webpage_url"@))),
        digest_of(info).member("available_heights"@) == Some(numbers_view(heights_in(info))),
        digest_of(info).member("subtitle_languages"@) == Some(
            crate::json::texts_view(langs_in(info.member("subtitles"@))),
        ),
        digest_of(info).member("auto_caption_languages"@) == Some(
            crate::json::texts_view(langs_in(info.member("automatic_captions"@))),
        ),
{
    lemma_digest_names_differ();
    law_empty_object_has_no_member();
    let d0 = JsonView::object();
    let v1 = member_or_null(info, "id"@);
    law_with_adds_one_member(d0, "id"@, v1);
    let d1 = d0.with("id"@, v1);
    let v2 = member_or_null(info, "title"@);
    law_with_adds_one_member(d1, "title"@, v2);
    let d2 = d1.with("title"@, v2);
    let v3 = member_or_null(info, "uploader"@);
    law_with_adds_one_member(d2, "uploader"@, v3);
    let d3 = d2.with("uploader"@, v3);
    let v4 = member_or_null(info, "channel_url"@);
    law_with_adds_one_member(d3, "channel_url"@, v4);
    let d4 = d3.with("channel_url"@, v4);
    let v5 = member_or_null(info, "duration"@);
    law_with_adds_one_member(d4, "duration_seconds"@, v5);
    let d5 = d4.with("duration_seconds"@, v5);
    let v6 = member_or_null(info, "upload_date"@);
    law_with_adds_one_member(d5, "upload_date"@, v6);
    let d6 = d5.with("upload_date"@, v6);
    let v7 = member_or_null(info, "view_count"@);
    law_with_adds_one_member(d6, "view_count"@, v7);
    let d7 = d6.with("view_count"@, v7);
    let v8 = member_or_null(info, "is_live"@);
    law_with_adds_one_member(d7, "is_live"@, v8);
    let d8 = d7.with("is_live"@, v8);
    let v9 = member_or_null(info, "webpage_url"@);
    law_with_adds_one_member(d8, "webpage_url"@, v9);
    let d9 = d8.with("webpage_url"@, v9);
    let v10 = numbers_view(heights_in(info));
    law_with_adds_one_member(d9, "available_heights"@, v10);
    let d10 = d9.with("available_heights"@, v10);
    let v11 = crate::json::texts_view(langs_in(info.member("subtitles"@)));
    law_with_adds_one_member(d10, "subtitle_languages"@, v11);
    let d11 = d10.with("subtitle_languages"@, v11);
    let v12 = crate::json::texts_view(langs_in(info.member("automatic_captions"@)));
    law_with_adds_one_member(d11, "auto_caption_languages"@, v12);
}

/// `listed` is the array of just the names of the members of `node`, in their
/// order; it is empty where that is no object.
pub open spec fn lists_names_of(listed: Option<JsonView>, node: Option<JsonView>) -> bool {
    listed matches Some(JsonView::Array(held)) && match node {
        Some(JsonView::Object(members)) => held.len() == members.len() && forall|i: int|
            0 <= i < held.len() ==> (#[trigger] held[i]) == JsonView::Str(members[i].0),
        _ => held.len() == 0,
    }
}

/// The caption languages of a digest are the names in the dump's two maps: the
/// uploaded ones in `subtitles`, and the generated ones in
/// `automatic_captions`.
pub proof fn law_digest_lists_the_languages(info: JsonView)
    ensures
        lists_names_of(
            digest_of(info).member("subtitle_languages"@),
            info.member("subtitles"@),
        ),
        lists_names_of(
            digest_of(info).member("auto_caption_languages"@),
            info.member("automatic_captions"@),
        ),
{
    law_digest_quotes_the_dump(info);
    law_texts_stand_in_their_places(langs_in(info.member("subtitles"@)));
    law_texts_stand_in_their_places(langs_in(info.member("automatic_captions"@)));
}

/// The format has the height `h`.
pub open spec fn is_high(format: JsonView, h: u64) -> bool {
    format.member("height"@) == Some(JsonView::UInt(h))
}

/// Some format of the dump has the height `h`.
pub open spec fn offers_height(info: JsonView, h: u64) -> bool {
    info.member("formats"@) matches Some(JsonView::Array(formats)) && exists|i: int|
        0 <= i < formats.len() && is_high(#[trigger] formats[i], h)
}

/// The resolutions of a digest are the heights that some format of the dump
/// has, each once, from the lowest to the highest.
pub proof fn law_digest_lists_the_heights(info: JsonView)
    ensures
        digest_of(info).member("available_heights"@) matches Some(JsonView::Array(held)) && {
            &&& forall|k: int| 0 <= k < held.len() ==> (#[trigger] held[k]) is UInt
            &&& forall|i: int, j: int|
                0 <= i < j < held.len() ==> (#[trigger] held[i])->UInt_0 < (
                #[trigger] held[j])->UInt_0
            &&& forall|h: u64| #[trigger]
                held.contains(JsonView::UInt(h)) <==> offers_height(info, h)
        },
{
    law_digest_quotes_the_dump(info);
    let heights = heights_in(info);
    let held = numbers_view(heights)->Array_0;
    let formats = match info.member("formats"@) {
        Some(JsonView::Array(f)) => f,
        _ => Seq::empty(),
    };
    assert(heights == heights_of(formats));
    law_heights_are_the_formats_heights(formats);
    assert forall|h: u64| #[trigger] held.contains(JsonView::UInt(h)) <==> offers_height(
        info,
        h,
    ) by {
        if held.contains(JsonView::UInt(h)) {
            let k = choose|k: int| 0 <= k < held.len() && held[k] == JsonView::UInt(h);
            assert(heights[k] == h);
            assert(heights.contains(h));
            let i = choose|i: int|
                0 <= i < formats.len() && height_of(#[trigger] formats[i]) == Some(h);
            assert(is_high(formats[i], h));
        }
        if offers_height(info, h) {
            let i = choose|i: int| 0 <= i < formats.len() && is_high(#[trigger] formats[i], h);
            assert(height_of(formats[i]) == Some(h));
            assert(heights.contains(h));
            let k = choose|k: int| 0 <= k < heights.len() && heights[k] == h;
            assert(held[k] == JsonView::UInt(h));
        }
    }
}

/// A directory's files are its entries that are files and whose time is known,
/// in their order, with their names, sizes and times.
pub proof fn law_files_are_the_dated_entries(
    a: Seq<DirEntry>,
    b: Seq<DirEntry>,
    e: DirEntry,
)
    ensures
        files_in(a + b) == files_in(a) + files_in(b),
        files_in(Seq::empty()).len() == 0,
        e.is_file && e.modified is Some ==> files_in(seq![e]) == seq![
            FileView { modified: e.modified->0 as int, name: e.name@, bytes: e.bytes },
        ],
        !(e.is_file && e.modified is Some) ==> files_in(seq![e]).len() == 0,
    decreases b.len(),
{
    reveal_with_fuel(files_in, 2);
    assert(seq![e].drop_last() =~= Seq::empty());
    assert(files_in(seq![e].drop_last()) == Seq::<FileView>::empty());
    if e.is_file && e.modified is Some {
        assert(files_in(seq![e]) =~= seq![
            FileView { modified: e.modified->0 as int, name: e.name@, bytes: e.bytes },
        ]);
    }
    if b.len() == 0 {
        assert(a + b =~= a);
        assert(files_in(a) + files_in(b) =~= files_in(a));
    } else {
        law_files_are_the_dated_entries(a, b.drop_last(), e);
        assert((a + b).drop_last() =~= a + b.drop_last());
        assert((a + b).last() == b.last());
        assert(files_in(a + b) =~= files_in(a) + files_in(b));
    }
}

/// A listing is answered with the directory and its files, the newest first: as
/// many as the call allows, fifty where it does not say, each with its name and
/// its size.
pub proof fn law_listing_shows_the_newest(
    dir: Seq<char>,
    entries: Seq<DirEntry>,
    limit: Option<usize>,
)
    ensures
        ({
            let reply = listing_reply(dir, entries, limit);
            let files = newest_first(files_in(entries));
            let most = if limit is Some {
                limit->0 as int
            } else {
                50
            };
            &&& reply is Object && reply->Object_0.len() == 2
            &&& reply.member("directory"@) == Some(JsonView::Str(dir))
            &&& reply.member("files"@) matches Some(JsonView::Array(rows))
            &&& rows.len() == (if files_in(entries).len() < most {
                files_in(entries).len() as int
            } else {
                most
            })
            &&& files.len() == files_in(entries).len()
            &&& forall|i: int, j: int|
                0 <= i < j < files.len() ==> (#[trigger] files[i]).modified >= (
                #[trigger] files[j]).modified
            &&& forall|i: int|
                0 <= i < rows.len() ==> {
                    &&& (#[trigger] rows[i]) is Object && rows[i]->Object_0.len() == 2
                    &&& rows[i].member("name"@) == Some(JsonView::Str(files[i].name))
                    &&& rows[i].member("bytes"@) == Some(JsonView::UInt(files[i].bytes))
                }
        }),
{
    reveal_strlit("directory");
    reveal_strlit("files");
    reveal_strlit("name");
    reveal_strlit("bytes");
    assert("directory"@.len() == 9);
    assert("files"@.len() == 5);
    assert("name"@.len() == 4);
    assert("bytes"@.len() == 5);
    law_empty_object_has_no_member();
    law_listing_is_newest_first(files_in(entries));
    let files = newest_first(files_in(entries));
    let rows = Seq::new(shown(files.len(), limit), |i: int| file_row(files[i]));
    let o = JsonView::object();
    law_with_adds_one_member(o, "directory"@, JsonView::Str(dir));
    law_with_adds_one_member(
        o.with("directory"@, JsonView::Str(dir)),
        "files"@,
        JsonView::Array(rows),
    );
    assert forall|i: int| 0 <= i < rows.len() implies {
        &&& (#[trigger] rows[i]) is Object && rows[i]->Object_0.len() == 2
        &&& rows[i].member("name"@) == Some(JsonView::Str(files[i].name))
        &&& rows[i].member("bytes"@) == Some(JsonView::UInt(files[i].bytes))
    } by {
        law_with_adds_one_member(o, "name"@, JsonView::Str(files[i].name));
        law_with_adds_one_member(
            o.with("name"@, JsonView::Str(files[i].name)),
            "bytes"@,
            JsonView::UInt(files[i].bytes),
        );
    }
}

/// A listing loses no file and makes none up: of each moment it holds just the
/// files of the directory, and those of one moment stay in their order.
pub proof fn law_listing_keeps_the_files(a: Seq<FileView>, b: Seq<FileView>, f: FileView, t: int)
    ensures
        of_moment(newest_first(a), t) == of_moment(a, t),
        of_moment(a + b, t) == of_moment(a, t) + of_moment(b, t),
        of_moment(Seq::empty(), t).len() == 0,
        f.modified == t ==> of_moment(seq![f], t) == seq![f],
        f.modified != t ==> of_moment(seq![f], t).len() == 0,
    decreases b.len(),
{
    law_listing_is_newest_first(a);
    reveal_with_fuel(of_moment, 2);
    assert(seq![f].drop_last() =~= Seq::empty());
    assert(of_moment(seq![f].drop_last(), t) == Seq::<FileView>::empty());
    assert(f.modified == t ==> of_moment(seq![f], t) =~= seq![f]);
    if b.len() == 0 {
        assert(a + b =~= a);
        assert(of_moment(a, t) + of_moment(b, t) =~= of_moment(a, t));
    } else {
        law_listing_keeps_the_files(a, b.drop_last(), f, t);
        assert((a + b).drop_last() =~= a + b.drop_last());
        assert((a + b).last() == b.last());
        assert(of_moment(a + b, t) =~= of_moment(a, t) + of_moment(b, t));
    }
}

/// What a download prints is told line by line: of a line that ends, the path
/// is what stands in it without the white space at its ends, a blank line
/// stands for none, and then come the paths of what follows.
pub proof fn law_each_printed_line_is_a_path(line: Seq<char>, rest: Seq<char>)
    requires
        on_one_line(line),
    ensures
        trimmed(line).len() > 0 ==> written_in(line + seq!['\n'] + rest) == seq![trimmed(line)]
            + written_in(rest),
        trimmed(line).len() == 0 ==> written_in(line + seq!['\n'] + rest) == written_in(rest),
        trimmed(line).len() > 0 ==> written_in(line) == seq![trimmed(line)],
        written_in(Seq::empty()).len() == 0,
{
    law_lines_end_at_line_feeds(line, rest);
    let first = if line.len() > 0 && line[line.len() - 1] == '\r' {
        line.take(line.len() - 1)
    } else {
        line
    };
    lemma_return_is_white_space(line);
    law_printed_paths_are_the_lines(seq![first], lines_of(rest), first);
    law_printed_paths_are_the_lines(seq![line], Seq::empty(), line);
    assert(trimmed_lines(lines_of(rest)) =~= Seq::<Seq<char>>::empty() + trimmed_lines(
        lines_of(rest),
    ));
    if trimmed(line).len() == 0 {
        assert(trimmed_lines(seq![first]) =~= Seq::empty());
    }
    if trimmed(line).len() > 0 {
        if line.len() == 0 {
            law_trimming_leaves_the_middle(Seq::empty(), Seq::empty(), Seq::empty());
            assert(line =~= Seq::<char>::empty() + Seq::<char>::empty() + Seq::<char>::empty());
        }
    }
}

/// A carriage return at the end of a line is white space.
proof fn lemma_return_is_white_space(line: Seq<char>)
    ensures
        line.len() > 0 && line[line.len() - 1] == '\r' ==> trimmed(line.take(line.len() - 1))
            == trimmed(line),
{
    if line.len() > 0 && line[line.len() - 1] == '\r' {
        let less = line.take(line.len() - 1);
        let (x, y) = law_trimming_takes_only_white_space(less);
        let m = trimmed(less);
        let more = y.push('\r');
        assert forall|i: int| 0 <= i < more.len() implies crate::text::is_space(
            #[trigger] more[i],
        ) by {
            if i < y.len() {
                assert(more[i] == y[i]);
            }
        }
        law_trimming_leaves_the_middle(x, m, more);
        assert(line =~= less.push('\r'));
        assert((x + m + y).push('\r') =~= x + m + more);
    }
}

/// The lines that count in a tail are those that hold more than white space, in
/// their order.
pub proof fn law_blank_lines_do_not_count(a: Seq<Seq<char>>, b: Seq<Seq<char>>, line: Seq<char>)
    ensures
        solid(a + b) == solid(a) + solid(b),
        solid(Seq::empty()).len() == 0,
        !is_blank(line) ==> solid(seq![line]) == seq![line],
        is_blank(line) ==> solid(seq![line]).len() == 0,
    decreases b.len(),
{
    reveal_with_fuel(solid, 2);
    assert(seq![line].drop_last() =~= Seq::empty());
    assert(solid(seq![line].drop_last()) == Seq::<Seq<char>>::empty());
    assert(!is_blank(line) ==> solid(seq![line]) =~= seq![line]);
    if b.len() == 0 {
        assert(a + b =~= a);
        assert(solid(a) + solid(b) =~= solid(a));
    } else {
        law_blank_lines_do_not_count(a, b.drop_last(), line);
        assert((a + b).drop_last() =~= a + b.drop_last());
        assert((a + b).last() == b.last());
        assert(solid(a + b) =~= solid(a) + solid(b));
    }
}

/// A tail is the end of a text: the last lines of it that are not blank, no
/// more than asked for and no fewer than there are, in their order, one to a
/// line.
pub proof fn law_tail_is_the_end(text: Seq<char>, n: nat)
    ensures
        ({
            let all = solid(lines_of(text));
            let count = if all.len() < n {
                all.len() as int
            } else {
                n as int
            };
            tail_of(text, n) == joined(all.subrange(all.len() - count, all.len() as int), "\n"@)
        }),
{
    let all = solid(lines_of(text));
    let count = if all.len() < n {
        all.len() as int
    } else {
        n as int
    };
    assert(last_of(all, n) =~= all.subrange(all.len() - count, all.len() as int));
}

/// An invocation may run for as many seconds as `YTDL_TIMEOUT_SECS` says, and
/// for fifteen minutes where that says nothing that is a number.
pub proof fn law_timeout_is_the_number_that_is_set(var: Option<Seq<char>>, n: u64)
    ensures
        var is None ==> timeout_for(var) == 900,
        var is Some && parsed_number(var->0) is None ==> timeout_for(var) == 900,
        var is Some && parsed_number(var->0) == Some(n) ==> timeout_for(var) == n,
{
}

/// A variable or an argument counts where it is set to more than the empty
/// text, and then as it stands.
pub proof fn law_empty_counts_as_unset(var: Option<Seq<char>>)
    ensures
        var is Some && var->0.len() > 0 ==> value_of_var(var) == var,
        !(var is Some && var->0.len() > 0) ==> value_of_var(var) is None,
{
}

/// An invocation that failed says how, naming the program and the cause: it did
/// not start, it took too long, it got lost, or it ended badly, and then with
/// the last twenty lines of its complaints.
pub proof fn law_failed_runs_are_explained(
    program: Seq<char>,
    cause: Seq<char>,
    secs: u64,
    stderr: Seq<char>,
)
    ensures
        unspawned(program, cause) == "spawning "@ + program + ": "@ + cause,
        timed_out(secs) == "timed out after "@ + decimal(secs as nat)
            + "s — raise YTDL_TIMEOUT_SECS for long videos, or check whether the extractor is stuck"@,
        lost(program, cause) == "running "@ + program + ": "@ + cause,
        exited_badly(program, cause, stderr) == program + " exited with "@ + cause + ": "@ + tail_of(
            stderr,
            20,
        ),
{
}

/// The hint that a call without a toolkit gives names the variables to set and
/// the programs that the toolkit has to have.
pub proof fn law_hint_names_what_to_set()
    ensures
        has(SETUP_HINT@, "YTDL_HOME"@),
        has(SETUP_HINT@, "YTDL_PYTHON"@),
        has(SETUP_HINT@, "bin/yt-dlp.exe"@),
        has(SETUP_HINT@, "bin/deno.exe"@),
        has(SETUP_HINT@, "bin/ffmpeg.exe"@),
{
    reveal_strlit(
        "Point YTDL_HOME at the ytdownloader toolkit directory — the one \
     containing bin/yt-dlp.exe, bin/deno.exe, bin/ffmpeg.exe and scripts/. dangler.toml names \
     the path. A Python interpreter is needed for the transcript tools; override the default \
     `python` with YTDL_PYTHON.",
    );
    reveal_strlit("YTDL_HOME");
    reveal_strlit("YTDL_PYTHON");
    reveal_strlit("bin/yt-dlp.exe");
    reveal_strlit("bin/deno.exe");
    reveal_strlit("bin/ffmpeg.exe");
    assert(SETUP_HINT@.subrange(6, 15) =~= "YTDL_HOME"@);
    assert(stands_at(SETUP_HINT@, "YTDL_HOME"@, 6));
    assert(SETUP_HINT@.subrange(255, 266) =~= "YTDL_PYTHON"@);
    assert(stands_at(SETUP_HINT@, "YTDL_PYTHON"@, 255));
    assert(SETUP_HINT@.subrange(75, 89) =~= "bin/yt-dlp.exe"@);
    assert(stands_at(SETUP_HINT@, "bin/yt-dlp.exe"@, 75));
    assert(SETUP_HINT@.subrange(91, 103) =~= "bin/deno.exe"@);
    assert(stands_at(SETUP_HINT@, "bin/deno.exe"@, 91));
    assert(SETUP_HINT@.subrange(105, 119) =~= "bin/ffmpeg.exe"@);
    assert(stands_at(SETUP_HINT@, "bin/ffmpeg.exe"@, 105));
}

/// The path of `below` in `home`, with the separator of one platform or
/// another.
pub open spec fn is_below(home: Seq<char>, below: Seq<char>, path: Seq<char>) -> bool {
    path == home + "/"@ + below || path == home + "\\"@ + below
}

/// The path begins with `home` and ends with `below`, and has room for both.
pub open spec fn is_within(home: Seq<char>, below: Seq<char>, path: Seq<char>) -> bool {
    &&& path.len() >= home.len() + below.len()
    &&& path.take(home.len() as int) == home
    &&& path.skip(path.len() - below.len()) == below
}

proof fn lemma_adjoined_is_within(home: Seq<char>, below: Seq<char>, path: Seq<char>)
    requires
        adjoined(home, below, path),
        !is_verbatim(home),
    ensures
        is_within(home, below, path),
{
    reveal_strlit("/");
    reveal_strlit("\\");
    assert(path.take(home.len() as int) =~= home);
    assert(path.skip(path.len() - below.len()) =~= below);
}

/// Whatever the directory of a toolkit is, a share apart, everything of the
/// toolkit is within it and goes by its name.
pub proof fn law_toolkit_is_within_its_home(p: PlacesView)
    requires
        p.laid_out(),
        p.home.len() == 0 || p.home[0] != '\\',
    ensures
        is_within(p.home, "bin"@, p.bin),
        is_within(p.home, "bin/yt-dlp.exe"@, p.exe),
        is_within(p.home, "bin/deno.exe"@, p.deno),
        is_within(p.home, "scripts/"@ + p.script_name, p.script),
        is_within(p.home, "auth"@, p.auth),
        is_within(p.home, "cookies.txt"@, p.jar),
        is_within(p.home, "downloads"@, p.downloads),
{
    lemma_adjoined_is_within(p.home, "bin"@, p.bin);
    lemma_adjoined_is_within(p.home, "bin/yt-dlp.exe"@, p.exe);
    lemma_adjoined_is_within(p.home, "bin/deno.exe"@, p.deno);
    lemma_adjoined_is_within(p.home, "scripts/"@ + p.script_name, p.script);
    lemma_adjoined_is_within(p.home, "auth"@, p.auth);
    lemma_adjoined_is_within(p.home, "downloads"@, p.downloads);
    reveal_strlit("auth");
    reveal_strlit("/");
    reveal_strlit("\\");
    if p.home.len() > 0 {
        assert(p.auth[0] == p.auth.take(p.home.len() as int)[0]);
    } else {
        assert(p.auth[1] == 'a' || p.auth[1] == 'u');
    }
    lemma_adjoined_is_within(p.auth, "cookies.txt"@, p.jar);
    assert(p.jar.take(p.home.len() as int) =~= p.jar.take(p.auth.len() as int).take(
        p.home.len() as int,
    ));
}

/// A toolkit has its programs in `bin`, its scripts in `scripts`, the captured
/// session in `auth`, and its downloads in `downloads`.
pub proof fn law_toolkit_is_laid_out_so(p: PlacesView)
    requires
        p.laid_out(),
        p.home.len() > 2,
        p.home[0] != '\\',
        p.home[p.home.len() - 1] != '/' && p.home[p.home.len() - 1] != '\\',
    ensures
        is_below(p.home, "bin"@, p.bin),
        is_below(p.home, "bin/yt-dlp.exe"@, p.exe),
        is_below(p.home, "bin/deno.exe"@, p.deno),
        is_below(p.home, "scripts/"@ + p.script_name, p.script),
        is_below(p.home, "auth/cookies.txt"@, p.jar) || is_below(p.home, "auth\\cookies.txt"@, p.jar),
        is_below(p.home, "downloads"@, p.downloads),
{
    reveal_strlit("/");
    reveal_strlit("\\");
    reveal_strlit("auth");
    reveal_strlit("cookies.txt");
    reveal_strlit("auth/cookies.txt");
    reveal_strlit("auth\\cookies.txt");
    assert(is_below(p.home, "auth"@, p.auth));
    assert(p.auth[0] == p.home[0]);
    assert(p.auth[p.auth.len() - 1] == 'h');
    assert(is_below(p.auth, "cookies.txt"@, p.jar));
    assert("auth"@ + "/"@ + "cookies.txt"@ =~= "auth/cookies.txt"@);
    assert("auth"@ + "\\"@ + "cookies.txt"@ =~= "auth\\cookies.txt"@);
    assert(p.home + "/"@ + "auth"@ + "/"@ + "cookies.txt"@ =~= p.home + "/"@
        + "auth/cookies.txt"@);
    assert(p.home + "/"@ + "auth"@ + "\\"@ + "cookies.txt"@ =~= p.home + "/"@
        + "auth\\cookies.txt"@);
    assert(p.home + "\\"@ + "auth"@ + "/"@ + "cookies.txt"@ =~= p.home + "\\"@
        + "auth/cookies.txt"@);
    assert(p.home + "\\"@ + "auth"@ + "\\"@ + "cookies.txt"@ =~= p.home + "\\"@
        + "auth\\cookies.txt"@);
}

} // verus!
