//! What is in the downloads directory, newest first.

use crate::json::{items_view, Json, JsonView};
use vstd::prelude::*;
use vstd::string::*;

verus! {

/// How many files a listing shows where no limit is given.
pub const DEFAULT_LIMIT: usize = 50;

/// One entry of a directory.
#[derive(Debug)]
pub struct DirEntry {
    pub name: String,
    pub is_file: bool,
    pub bytes: u64,
    /// When it was last modified, in nanoseconds from an arbitrary origin;
    /// none where that cannot be told.
    pub modified: Option<i128>,
}

/// A file of a listing.
#[derive(Debug)]
pub struct FoundFile {
    pub modified: i128,
    pub name: String,
    pub bytes: u64,
}

/// What a [`FoundFile`] holds.
pub struct FileView {
    pub modified: int,
    pub name: Seq<char>,
    pub bytes: u64,
}

impl View for FoundFile {
    type V = FileView;

    open spec fn view(&self) -> FileView {
        FileView { modified: self.modified as int, name: self.name@, bytes: self.bytes }
    }
}

/// What a list of files holds.
pub open spec fn files_view(files: Seq<FoundFile>) -> Seq<FileView> {
    Seq::new(files.len(), |i: int| files[i]@)
}

/// The entries that are files and whose time is known.
pub open spec fn files_in(entries: Seq<DirEntry>) -> Seq<FileView>
    decreases entries.len(),
{
    if entries.len() == 0 {
        Seq::empty()
    } else {
        let e = entries.last();
        let rest = files_in(entries.drop_last());
        match e.modified {
            Some(t) => if e.is_file {
                rest.push(FileView { modified: t as int, name: e.name@, bytes: e.bytes })
            } else {
                rest
            },
            None => rest,
        }
    }
}

/// `s`, newest first, with `f` in its place: behind all that are not older.
pub open spec fn with_file(s: Seq<FileView>, f: FileView) -> Seq<FileView>
    decreases s.len(),
{
    if s.len() == 0 || s.last().modified >= f.modified {
        s.push(f)
    } else {
        with_file(s.drop_last(), f).push(s.last())
    }
}

/// The files, newest first; files of the same age stay in their order.
pub open spec fn newest_first(s: Seq<FileView>) -> Seq<FileView>
    decreases s.len(),
{
    if s.len() == 0 {
        Seq::empty()
    } else {
        with_file(newest_first(s.drop_last()), s.last())
    }
}

/// No file is older than one behind it.
pub open spec fn descending(s: Seq<FileView>) -> bool {
    forall|i: int, j: int| 0 <= i < j < s.len() ==> s[i].modified >= s[j].modified
}

/// The files of one moment, in their order.
pub open spec fn of_moment(s: Seq<FileView>, t: int) -> Seq<FileView>
    decreases s.len(),
{
    if s.len() == 0 {
        Seq::empty()
    } else if s.last().modified == t {
        of_moment(s.drop_last(), t).push(s.last())
    } else {
        of_moment(s.drop_last(), t)
    }
}

/// What a listing says of one file.
pub open spec fn file_row(f: FileView) -> JsonView {
    JsonView::object().with("name"@, JsonView::Str(f.name)).with("bytes"@, JsonView::UInt(f.bytes))
}

/// How many files are shown.
pub open spec fn shown(files: nat, limit: Option<usize>) -> nat {
    let most = match limit {
        Some(n) => n as nat,
        None => DEFAULT_LIMIT as nat,
    };
    if files < most {
        files
    } else {
        most
    }
}

/// The answer of list_downloads.
pub open spec fn listing_reply(
    dir: Seq<char>,
    entries: Seq<DirEntry>,
    limit: Option<usize>,
) -> JsonView {
    let files = newest_first(files_in(entries));
    JsonView::object().with("directory"@, JsonView::Str(dir)).with(
        "files"@,
        JsonView::Array(Seq::new(shown(files.len(), limit), |i: int| file_row(files[i]))),
    )
}

/// Where `f` stands among files, newest first.
proof fn lemma_with_file(s: Seq<FileView>, f: FileView, i: int)
    requires
        descending(s),
        0 <= i <= s.len(),
        forall|k: int| 0 <= k < i ==> (#[trigger] s[k]).modified >= f.modified,
        forall|k: int| i <= k < s.len() ==> (#[trigger] s[k]).modified < f.modified,
    ensures
        with_file(s, f) == s.insert(i, f),
    decreases s.len(),
{
    if s.len() == 0 || s.last().modified >= f.modified {
        assert(s.len() > 0 ==> s[s.len() - 1].modified >= f.modified);
        assert(i == s.len());
        assert(s.insert(i, f) =~= s.push(f));
    } else {
        assert(s[s.len() - 1].modified < f.modified);
        let rest = s.drop_last();
        lemma_with_file(rest, f, i);
        assert(rest.insert(i, f).push(s.last()) =~= s.insert(i, f));
    }
}

/// Putting a file in its place keeps the order, and of each moment the files
/// stay in their order, the new one behind them.
proof fn lemma_file_is_kept(s: Seq<FileView>, f: FileView)
    requires
        descending(s),
    ensures
        descending(with_file(s, f)),
        with_file(s, f).len() == s.len() + 1,
        forall|k: int|
            0 <= k < with_file(s, f).len() ==> (#[trigger] with_file(s, f)[k]) == f || s.contains(
                with_file(s, f)[k],
            ),
        forall|t: int| #[trigger] of_moment(with_file(s, f), t) == of_moment(s.push(f), t),
    decreases s.len(),
{
    let out = with_file(s, f);
    if s.len() == 0 || s.last().modified >= f.modified {
        assert forall|i: int, j: int| 0 <= i < j < out.len() implies out[i].modified
            >= out[j].modified by {
            if j == s.len() && i < s.len() - 1 {
                assert(s[i].modified >= s[s.len() - 1].modified);
            }
        }
        assert forall|k: int| 0 <= k < out.len() implies (#[trigger] out[k]) == f || s.contains(
            out[k],
        ) by {
            if k < s.len() {
                assert(s[k] == out[k]);
            }
        }
    } else {
        let rest = s.drop_last();
        lemma_file_is_kept(rest, f);
        let inner = with_file(rest, f);
        assert forall|k: int| 0 <= k < out.len() implies (#[trigger] out[k]) == f || s.contains(
            out[k],
        ) by {
            if k < inner.len() {
                assert(inner[k] == out[k]);
                if inner[k] != f {
                    let m = rest.index_of(inner[k]);
                    assert(s[m] == out[k]);
                }
            } else {
                assert(s[s.len() - 1] == out[k]);
            }
        }
        assert forall|i: int, j: int| 0 <= i < j < out.len() implies out[i].modified
            >= out[j].modified by {
            if j == out.len() - 1 {
                assert(inner[i] == out[i]);
                if inner[i] != f {
                    let m = rest.index_of(inner[i]);
                    assert(s[m].modified >= s[s.len() - 1].modified);
                }
            } else {
                assert(inner[i].modified >= inner[j].modified);
            }
        }
        assert forall|t: int| #[trigger] of_moment(out, t) == of_moment(s.push(f), t) by {
            assert(of_moment(inner, t) == of_moment(rest.push(f), t));
            assert(out.drop_last() =~= inner);
            assert(rest.push(f).drop_last() =~= rest);
            assert(s.push(f).drop_last() =~= s);
            assert(out.last() == s.last());
            let old_ones = of_moment(rest, t);
            assert(of_moment(rest.push(f), t) == if f.modified == t {
                old_ones.push(f)
            } else {
                old_ones
            });
            assert(of_moment(s, t) == if s.last().modified == t {
                old_ones.push(s.last())
            } else {
                old_ones
            });
        }
    }
}

/// A listing is newest first, and of each moment it holds just the files that
/// the directory holds, in the same order: nothing is lost, added or
/// reordered without need.
pub proof fn law_listing_is_newest_first(s: Seq<FileView>)
    ensures
        descending(newest_first(s)),
        newest_first(s).len() == s.len(),
        forall|t: int| #[trigger] of_moment(newest_first(s), t) == of_moment(s, t),
    decreases s.len(),
{
    if s.len() > 0 {
        let rest = s.drop_last();
        law_listing_is_newest_first(rest);
        lemma_file_is_kept(newest_first(rest), s.last());
        assert forall|t: int| #[trigger] of_moment(newest_first(s), t) == of_moment(s, t) by {
            let sorted = newest_first(rest);
            assert(of_moment(newest_first(s), t) == of_moment(sorted.push(s.last()), t));
            assert(sorted.push(s.last()).drop_last() =~= sorted);
            assert(of_moment(sorted, t) == of_moment(rest, t));
        }
    }
}

/// Puts a file in its place among files, newest first.
fn add_file(files: &mut Vec<FoundFile>, f: FoundFile)
    requires
        descending(files_view(old(files)@)),
    ensures
        files_view(final(files)@) == with_file(files_view(old(files)@), f@),
        descending(files_view(final(files)@)),
{
    let ghost before = files@;
    let mut i: usize = 0;
    while i < files.len() && files[i].modified >= f.modified
        invariant
            files@ == before,
            i <= files@.len(),
            forall|k: int| 0 <= k < i ==> (#[trigger] before[k]).modified >= f.modified,
        decreases files.len() - i,
    {
        i = i + 1;
    }
    proof {
        let s = files_view(before);
        assert forall|k: int| 0 <= k < i implies (#[trigger] s[k]).modified >= f@.modified by {
            assert(before[k].modified >= f.modified);
        }
        assert forall|k: int| i <= k < s.len() implies (#[trigger] s[k]).modified < f@.modified by {
            assert(s[i as int].modified < f@.modified);
            if k > i {
                assert(s[i as int].modified >= s[k].modified);
            }
        }
        lemma_with_file(s, f@, i as int);
        lemma_file_is_kept(s, f@);
    }
    files.insert(i, f);
    assert(files_view(files@) =~= files_view(before).insert(i as int, f@));
}

/// The files of a directory, newest first.
fn sorted_files(entries: &Vec<DirEntry>) -> (r: Vec<FoundFile>)
    ensures
        files_view(r@) == newest_first(files_in(entries@)),
{
    let mut files: Vec<FoundFile> = Vec::new();
    let mut i: usize = 0;
    assert(entries@.take(0) =~= Seq::empty());
    assert(files_view(files@) =~= Seq::empty());
    while i < entries.len()
        invariant
            i <= entries@.len(),
            files_view(files@) == newest_first(files_in(entries@.take(i as int))),
            descending(files_view(files@)),
        decreases entries.len() - i,
    {
        proof {
            assert(entries@.take(i + 1).drop_last() =~= entries@.take(i as int));
            assert(entries@.take(i + 1).last() == entries@[i as int]);
        }
        let ghost known = files_in(entries@.take(i as int));
        if let Some(t) = entries[i].modified {
            if entries[i].is_file {
                let f: FoundFile = FoundFile {
                    modified: t,
                    name: entries[i].name.clone(),
                    bytes: entries[i].bytes,
                };
                assert(known.push(f@).drop_last() =~= known);
                add_file(&mut files, f);
            }
        }
        i = i + 1;
    }
    assert(entries@.take(i as int) =~= entries@);
    files
}

/// What is in a directory, newest first.
pub fn list(dir: &str, entries: &Vec<DirEntry>, limit: Option<usize>) -> (r: Json)
    ensures
        r@ == listing_reply(dir@, entries@, limit),
{
    let files: Vec<FoundFile> = sorted_files(entries);
    let ghost sorted = files_view(files@);
    let most: usize = match limit {
        Some(n) => n,
        None => DEFAULT_LIMIT,
    };
    let mut rows: Vec<Json> = Vec::new();
    let mut i: usize = 0;
    while i < files.len() && i < most
        invariant
            sorted == files_view(files@),
            i <= files@.len(),
            i <= most,
            rows@.len() == i,
            forall|k: int| 0 <= k < i ==> (#[trigger] rows@[k])@ == file_row(sorted[k]),
        decreases files.len() - i,
    {
        rows.push(
            Json::object().with("name", Json::text(files[i].name.as_str())).with(
                "bytes",
                Json::UInt(files[i].bytes),
            ),
        );
        i = i + 1;
    }
    assert(items_view(rows@) =~= Seq::new(
        shown(sorted.len(), limit),
        |k: int| file_row(sorted[k]),
    ));
    Json::object().with("directory", Json::text(dir)).with("files", Json::array(rows))
}

} // verus!
