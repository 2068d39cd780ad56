//! The interesting few fields out of yt-dlp's very large `-J` dump.

use crate::json::{
    items_view, lemma_items, lemma_members, members_view, texts_view, Json, JsonView,
};
use crate::text::views;
use vstd::prelude::*;
use vstd::string::*;

verus! {

/// The value of the member `key`, null where there is none.
pub open spec fn member_or_null(j: JsonView, key: Seq<char>) -> JsonView {
    match j.member(key) {
        Some(v) => v,
        None => JsonView::Null,
    }
}

/// The keys of an object's members.
pub open spec fn keys_of(members: Seq<(Seq<char>, JsonView)>) -> Seq<Seq<char>> {
    Seq::new(members.len(), |i: int| members[i].0)
}

/// The language codes of a yt-dlp subtitles map, which is `{lang: [formats]}`.
pub open spec fn langs_in(node: Option<JsonView>) -> Seq<Seq<char>> {
    match node {
        Some(JsonView::Object(members)) => keys_of(members),
        _ => Seq::empty(),
    }
}

/// The height of one format.
pub open spec fn height_of(format: JsonView) -> Option<u64> {
    match format.member("height"@) {
        Some(JsonView::UInt(n)) => Some(n),
        _ => None,
    }
}

/// `s` in ascending order with `h` in its place, once.
pub open spec fn with_height(s: Seq<u64>, h: u64) -> Seq<u64>
    decreases s.len(),
{
    if s.len() == 0 || s.last() < h {
        s.push(h)
    } else if s.last() == h {
        s
    } else {
        with_height(s.drop_last(), h).push(s.last())
    }
}

/// The heights of the formats, ascending, each of them once.
pub open spec fn heights_of(formats: Seq<JsonView>) -> Seq<u64>
    decreases formats.len(),
{
    if formats.len() == 0 {
        Seq::empty()
    } else {
        match height_of(formats.last()) {
            Some(h) => with_height(heights_of(formats.drop_last()), h),
            None => heights_of(formats.drop_last()),
        }
    }
}

/// The heights on offer.
pub open spec fn heights_in(info: JsonView) -> Seq<u64> {
    match info.member("formats"@) {
        Some(JsonView::Array(formats)) => heights_of(formats),
        _ => Seq::empty(),
    }
}

/// An array of numbers.
pub open spec fn numbers_view(items: Seq<u64>) -> JsonView {
    JsonView::Array(Seq::new(items.len(), |i: int| JsonView::UInt(items[i])))
}

/// The interesting few fields of a dump.
pub open spec fn digest_of(info: JsonView) -> JsonView {
    JsonView::object().with("id"@, member_or_null(info, "id"@)).with(
        "title"@,
        member_or_null(info, "title"@),
    ).with("uploader"@, member_or_null(info, "uploader"@)).with(
        "channel_url"@,
        member_or_null(info, "channel_url"@),
    ).with("duration_seconds"@, member_or_null(info, "duration"@)).with(
        "upload_date"@,
        member_or_null(info, "upload_date"@),
    ).with("view_count"@, member_or_null(info, "view_count"@)).with(
        "is_live"@,
        member_or_null(info, "is_live"@),
    ).with("webpage_url"@, member_or_null(info, "webpage_url"@)).with(
        "available_heights"@,
        numbers_view(heights_in(info)),
    ).with("subtitle_languages"@, texts_view(langs_in(info.member("subtitles"@)))).with(
        "auto_caption_languages"@,
        texts_view(langs_in(info.member("automatic_captions"@))),
    )
}

/// Each number is smaller than the next.
pub open spec fn ascending(s: Seq<u64>) -> bool {
    forall|i: int, j: int| 0 <= i < j < s.len() ==> s[i] < s[j]
}

/// Where `h` stands among ascending numbers.
proof fn lemma_with_height(s: Seq<u64>, h: u64, i: int)
    requires
        ascending(s),
        0 <= i <= s.len(),
        forall|k: int| 0 <= k < i ==> s[k] < h,
        forall|k: int| i <= k < s.len() ==> s[k] >= h,
    ensures
        i < s.len() && s[i] == h ==> with_height(s, h) == s,
        !(i < s.len() && s[i] == h) ==> with_height(s, h) == s.insert(i, h),
    decreases s.len(),
{
    if s.len() == 0 || s.last() < h {
        assert(i == s.len());
        assert(s.insert(i, h) =~= s.push(h));
    } else if s.last() == h {
        assert(s[s.len() - 1] == h);
        if i < s.len() - 1 {
            assert(s[i] < s[s.len() - 1]);
        }
        assert(i == s.len() - 1);
    } else {
        let rest = s.drop_last();
        assert(s[s.len() - 1] > h);
        assert(i < s.len());
        lemma_with_height(rest, h, i);
        if i < rest.len() && rest[i] == h {
            assert(rest.push(s.last()) =~= s);
        } else {
            assert(rest.insert(i, h).push(s.last()) =~= s.insert(i, h));
        }
    }
}

/// What stands in `with_height(s, h)` is what stands in `s`, and `h`, in
/// ascending order.
proof fn lemma_height_is_kept(s: Seq<u64>, h: u64)
    requires
        ascending(s),
    ensures
        ascending(with_height(s, h)),
        forall|v: u64| #[trigger] with_height(s, h).contains(v) <==> s.contains(v) || v == h,
    decreases s.len(),
{
    let out = with_height(s, h);
    if s.len() == 0 || s.last() < h {
        assert forall|v: u64| #[trigger] out.contains(v) <==> s.contains(v) || v == h by {
            if s.contains(v) {
                let k = s.index_of(v);
                assert(out[k] == v);
            }
            assert(out[s.len() as int] == h);
        }
    } else if s.last() == h {
        assert(s[s.len() - 1] == h);
    } else {
        let rest = s.drop_last();
        lemma_height_is_kept(rest, h);
        let inner = with_height(rest, h);
        assert forall|i: int, j: int| 0 <= i < j < out.len() implies out[i] < out[j] by {
            if j == out.len() - 1 {
                assert(inner.contains(inner[i]));
                if rest.contains(inner[i]) {
                    let k = rest.index_of(inner[i]);
                    assert(s[k] < s[s.len() - 1]);
                }
            }
        }
        assert forall|v: u64| #[trigger] out.contains(v) <==> s.contains(v) || v == h by {
            if out.contains(v) {
                let k = out.index_of(v);
                if k < inner.len() {
                    assert(inner.contains(v));
                    if rest.contains(v) {
                        assert(s[rest.index_of(v)] == v);
                    }
                } else {
                    assert(s[s.len() - 1] == v);
                }
            }
            if s.contains(v) || v == h {
                if v == s.last() {
                    assert(out[out.len() - 1] == v);
                } else {
                    if s.contains(v) {
                        assert(rest[s.index_of(v)] == v);
                    }
                    assert(inner.contains(v));
                    assert(out[inner.index_of(v)] == v);
                }
            }
        }
    }
}

/// The heights on offer are exactly those that some format has, ascending and
/// so without repetition.
pub proof fn law_heights_are_the_formats_heights(formats: Seq<JsonView>)
    ensures
        ascending(heights_of(formats)),
        forall|v: u64| #[trigger]
            heights_of(formats).contains(v) <==> exists|i: int|
                0 <= i < formats.len() && height_of(#[trigger] formats[i]) == Some(v),
    decreases formats.len(),
{
    if formats.len() > 0 {
        let rest = formats.drop_last();
        law_heights_are_the_formats_heights(rest);
        if let Some(h) = height_of(formats.last()) {
            lemma_height_is_kept(heights_of(rest), h);
        }
        assert forall|v: u64| #[trigger]
            heights_of(formats).contains(v) <==> exists|i: int|
                0 <= i < formats.len() && height_of(#[trigger] formats[i]) == Some(v) by {
            if heights_of(rest).contains(v) {
                let i = choose|i: int|
                    0 <= i < rest.len() && height_of(#[trigger] rest[i]) == Some(v);
                assert(height_of(formats[i]) == Some(v));
            }
            if height_of(formats.last()) == Some(v) {
                assert(height_of(formats[formats.len() - 1]) == Some(v));
            }
            if exists|i: int|
                0 <= i < formats.len() && height_of(#[trigger] formats[i]) == Some(v) {
                let i = choose|i: int|
                    0 <= i < formats.len() && height_of(#[trigger] formats[i]) == Some(v);
                if i < rest.len() {
                    assert(height_of(rest[i]) == Some(v));
                }
            }
        }
    }
}

/// The value of the member `key`, null where there is none.
fn field(info: &Json, key: &str) -> (r: Json)
    ensures
        r@ == member_or_null(info@, key@),
{
    match info.get(key) {
        Some(v) => v.copy(),
        None => Json::Null,
    }
}

/// Language codes from a yt-dlp subtitles map, which is `{lang: [formats]}`.
pub fn langs(node: Option<&Json>) -> (r: Vec<String>)
    ensures
        views(r@) == langs_in(
            match node {
                Some(j) => Some(j@),
                None => None,
            },
        ),
{
    let mut out: Vec<String> = Vec::new();
    if let Some(j) = node {
        proof {
            lemma_members(*j);
        }
        if let Json::Object(members) = j {
            let mut i: usize = 0;
            while i < members.len()
                invariant
                    i <= members@.len(),
                    out@.len() == i,
                    forall|k: int| 0 <= k < i ==> (#[trigger] out@[k])@ == members@[k].0@,
                decreases members.len() - i,
            {
                out.push(members[i].0.clone());
                i = i + 1;
            }
            assert(views(out@) =~= keys_of(members_view(members@)));
            return out;
        }
    }
    assert(views(out@) =~= Seq::empty());
    out
}

/// Puts `h` in its place among ascending heights, unless it stands there.
fn add_height(heights: &mut Vec<u64>, h: u64)
    requires
        ascending(old(heights)@),
    ensures
        final(heights)@ == with_height(old(heights)@, h),
        ascending(final(heights)@),
{
    let ghost before = heights@;
    let mut i: usize = 0;
    while i < heights.len() && heights[i] < h
        invariant
            heights@ == before,
            i <= heights@.len(),
            forall|k: int| 0 <= k < i ==> heights@[k] < h,
        decreases heights.len() - i,
    {
        i = i + 1;
    }
    proof {
        assert forall|k: int| i <= k < before.len() implies before[k] >= h by {
            if k > i {
                assert(before[i as int] < before[k]);
            }
        }
        lemma_with_height(before, h, i as int);
        lemma_height_is_kept(before, h);
    }
    if i < heights.len() && heights[i] == h {
        return;
    }
    heights.insert(i, h);
}

/// The heights on offer, ascending, each of them once.
fn available_heights(info: &Json) -> (r: Vec<u64>)
    ensures
        r@ == heights_in(info@),
{
    let mut out: Vec<u64> = Vec::new();
    if let Some(j) = info.get("formats") {
        proof {
            lemma_items(*j);
        }
        if let Json::Array(formats) = j {
            let ghost all = items_view(formats@);
            let mut i: usize = 0;
            assert(all.take(0) =~= Seq::empty());
            while i < formats.len()
                invariant
                    all == items_view(formats@),
                    i <= formats@.len(),
                    out@ == heights_of(all.take(i as int)),
                    ascending(out@),
                decreases formats.len() - i,
            {
                proof {
                    assert(all.take(i + 1).drop_last() =~= all.take(i as int));
                    assert(all.take(i + 1).last() == formats@[i as int]@);
                }
                if let Some(Json::UInt(h)) = formats[i].get("height") {
                    add_height(&mut out, *h);
                }
                i = i + 1;
            }
            assert(all.take(i as int) =~= all);
        }
    }
    out
}

/// The interesting few fields out of yt-dlp's very large `-J` dump.
pub fn digest(info: &Json) -> (r: Json)
    ensures
        r@ == digest_of(info@),
{
    let heights: Vec<u64> = available_heights(info);
    let mut numbers: Vec<Json> = Vec::new();
    let mut i: usize = 0;
    while i < heights.len()
        invariant
            i <= heights@.len(),
            numbers@.len() == i,
            forall|k: int| 0 <= k < i ==> (#[trigger] numbers@[k])@ == JsonView::UInt(heights@[k]),
        decreases heights.len() - i,
    {
        numbers.push(Json::UInt(heights[i]));
        i = i + 1;
    }
    assert(items_view(numbers@) =~= numbers_view(heights@)->Array_0);
    Json::object().with("id", field(info, "id")).with("title", field(info, "title")).with(
        "uploader",
        field(info, "uploader"),
    ).with("channel_url", field(info, "channel_url")).with(
        "duration_seconds",
        field(info, "duration"),
    ).with("upload_date", field(info, "upload_date")).with(
        "view_count",
        field(info, "view_count"),
    ).with("is_live", field(info, "is_live")).with(
        "webpage_url",
        field(info, "webpage_url"),
    ).with("available_heights", Json::array(numbers)).with(
        "subtitle_languages",
        Json::texts(&langs(info.get("subtitles"))),
    ).with(
        "auto_caption_languages",
        Json::texts(&langs(info.get("automatic_captions"))),
    )
}

} // verus!
