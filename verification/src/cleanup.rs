//! Which files go with a deleted video, and which folders a deletion may
//! touch.  Removing the files is the application's work.
use vstd::prelude::*;
use crate::task::{ascii_lower, normalized_path, trim_end_char};
use crate::text::{chars_of, ends_with, push_str, starts_with, string_of};

verus! {

/// The texts of a list of strings.
pub open spec fn texts(v: Seq<String>) -> Seq<Seq<char>> {
    v.map_values(|s: String| s@)
}

/// Picture kinds of media-library artwork.
pub open spec fn picture_kinds() -> Seq<Seq<char>> {
    seq!["fanart"@, "thumb"@, "poster"@]
}

/// Picture formats of media-library artwork.
pub open spec fn picture_formats() -> Seq<Seq<char>> {
    seq!["jpg"@, "jpeg"@, "png"@, "webp"@]
}

/// "<stem>-<kind>.<format>".
pub open spec fn picture_name(stem: Seq<char>, kind: Seq<char>, format: Seq<char>) -> Seq<char> {
    stem + seq!['-'] + kind + seq!['.'] + format
}

/// The artwork names of a stem: each kind (fanart, thumb, poster) in each
/// format (jpg, jpeg, png, webp), kinds outermost.
pub open spec fn picture_names(stem: Seq<char>) -> Seq<Seq<char>> {
    Seq::new(12, |k: int| picture_name(stem, picture_kinds()[k / 4], picture_formats()[k % 4]))
}

/// The files that go with a video file of the given stem, in the order they
/// are removed: its NFO, its artwork, its danmaku and subtitles.
pub open spec fn companion_names(stem: Seq<char>) -> Seq<Seq<char>> {
    seq![stem + ".nfo"@] + picture_names(stem) + seq![
        stem + ".zh-CN.default.ass"@,
        stem + ".ass"@,
        stem + ".srt"@,
        stem + ".xml"@,
    ]
}

fn joined(stem: &str, tail: &str) -> (r: String)
    ensures
        r@ == stem@ + tail@,
{
    let mut v: Vec<char> = Vec::new();
    push_str(&mut v, stem);
    push_str(&mut v, tail);
    string_of(v.as_slice())
}

fn picture_file(stem: &str, kind: &str, format: &str) -> (r: String)
    ensures
        r@ == picture_name(stem@, kind@, format@),
{
    let mut v: Vec<char> = Vec::new();
    push_str(&mut v, stem);
    v.push('-');
    push_str(&mut v, kind);
    v.push('.');
    push_str(&mut v, format);
    assert(v@ =~= picture_name(stem@, kind@, format@));
    string_of(v.as_slice())
}

/// Appends the artwork names of a stem.
fn push_picture_names(out: &mut Vec<String>, stem: &str)
    ensures
        texts(final(out)@) == texts(old(out)@) + picture_names(stem@),
{
    let kinds = ["fanart", "thumb", "poster"];
    let formats = ["jpg", "jpeg", "png", "webp"];
    let ghost start = texts(out@);
    let mut k: usize = 0;
    while k < 12
        invariant
            k <= 12,
            kinds@ == seq!["fanart", "thumb", "poster"],
            formats@ == seq!["jpg", "jpeg", "png", "webp"],
            texts(out@) == start + picture_names(stem@).take(k as int),
        decreases 12 - k,
    {
        let kind = kinds[k / 4];
        let format = formats[k % 4];
        proof {
            assert(kind@ == picture_kinds()[(k / 4) as int]);
            assert(format@ == picture_formats()[(k % 4) as int]);
        }
        let name = picture_file(stem, kind, format);
        let ghost before = texts(out@);
        out.push(name);
        assert(texts(out@) =~= before.push(name@));
        assert(picture_names(stem@).take(k + 1) =~= picture_names(stem@).take(k as int).push(
            picture_names(stem@)[k as int],
        ));
        k = k + 1;
    }
    assert(picture_names(stem@).take(12) =~= picture_names(stem@));
}

/// The names of the files that go with a video file of the given stem.
pub fn companion_file_names(stem: &str) -> (r: Vec<String>)
    ensures
        texts(r@) == companion_names(stem@),
{
    let mut out: Vec<String> = Vec::new();
    let nfo = joined(stem, ".nfo");
    out.push(nfo);
    assert(texts(out@) =~= seq![stem@ + ".nfo"@]);
    push_picture_names(&mut out, stem);
    let a = joined(stem, ".zh-CN.default.ass");
    let b = joined(stem, ".ass");
    let c = joined(stem, ".srt");
    let d = joined(stem, ".xml");
    let ghost mid = texts(out@);
    out.push(a);
    out.push(b);
    out.push(c);
    out.push(d);
    assert(texts(out@) =~= mid.push(a@).push(b@).push(c@).push(d@));
    assert(texts(out@) =~= companion_names(stem@));
    out
}

/// Is an image reference a local file rather than an http(s) address?
pub open spec fn is_local_image(path: Seq<char>) -> bool {
    !starts_with(path, "http://"@) && !starts_with(path, "https://"@)
}

/// Is an image reference a local file rather than an http(s) address?
pub fn is_local_image_path(path: &str) -> (r: bool)
    ensures
        r == is_local_image(path@),
{
    let p = chars_of(path);
    let a = chars_of("http://");
    let b = chars_of("https://");
    !crate::text::starts_with_chars(p.as_slice(), a.as_slice()) && !crate::text::starts_with_chars(
        p.as_slice(),
        b.as_slice(),
    )
}

/// Is a folder name that of a season folder ("Season 01")?
pub open spec fn is_season_dir(name: Seq<char>) -> bool {
    starts_with(name, "Season "@)
}

/// Is a folder name that of a season folder ("Season 01")?
pub fn is_season_dir_name(name: &str) -> (r: bool)
    ensures
        r == is_season_dir(name@),
{
    let n = chars_of(name);
    let p = chars_of("Season ");
    crate::text::starts_with_chars(n.as_slice(), p.as_slice())
}

/// Are the show-level files of a season-structured video to be cleaned up:
/// for a collection laid out in seasons, or a multi-page video laid out in seasons?
pub open spec fn season_root_cleanup(
    is_collection: bool,
    is_single_page: bool,
    collection_use_season_structure: bool,
    multi_page_use_season_structure: bool,
) -> bool {
    (is_collection && collection_use_season_structure) || (!is_single_page
        && multi_page_use_season_structure)
}

/// Are the show-level files of a season-structured video to be cleaned up?
pub fn should_clean_season_root(
    is_collection: bool,
    is_single_page: bool,
    collection_use_season_structure: bool,
    multi_page_use_season_structure: bool,
) -> (r: bool)
    ensures
        r == season_root_cleanup(
            is_collection,
            is_single_page,
            collection_use_season_structure,
            multi_page_use_season_structure,
        ),
{
    (is_collection && collection_use_season_structure) || (!is_single_page
        && multi_page_use_season_structure)
}

/// The show-level files of a season-structured video with the given base name.
pub open spec fn season_root_names(base: Seq<char>) -> Seq<Seq<char>> {
    seq![
        "tvshow.nfo"@,
        "folder.jpg"@,
        "poster.jpg"@,
        base + "-thumb.jpg"@,
        base + "-fanart.jpg"@,
        base + "-poster.jpg"@,
    ]
}

/// The show-level files of a season-structured video with the given base name.
pub fn season_root_metadata_files(base: &str) -> (r: Vec<String>)
    ensures
        texts(r@) == season_root_names(base@),
{
    let mut out: Vec<String> = Vec::new();
    out.push("tvshow.nfo".to_owned());
    out.push("folder.jpg".to_owned());
    out.push("poster.jpg".to_owned());
    out.push(joined(base, "-thumb.jpg"));
    out.push(joined(base, "-fanart.jpg"));
    out.push(joined(base, "-poster.jpg"));
    assert(texts(out@) =~= season_root_names(base@));
    out
}

/// The artwork of a season folder kept beside it: the folder name without
/// spaces as the stem.
pub open spec fn season_picture_names(season_name: Seq<char>) -> Seq<Seq<char>> {
    picture_names(crate::text::replace(season_name, seq![' '], seq![]))
}

/// The artwork names of a season folder ("Season 01-thumb.jpg" becomes
/// "Season01-thumb.jpg" and so on).
pub fn season_picture_files(season_name: &str) -> (r: Vec<String>)
    ensures
        texts(r@) == season_picture_names(season_name@),
{
    let n = chars_of(season_name);
    let space = vec![' '];
    let none: Vec<char> = Vec::new();
    assert(space@ =~= seq![' ']);
    assert(none@ =~= Seq::<char>::empty());
    let stem = crate::text::replace_chars(n.as_slice(), space.as_slice(), none.as_slice());
    let s = string_of(stem.as_slice());
    let mut out: Vec<String> = Vec::new();
    push_picture_names(&mut out, s.as_str());
    assert(texts(out@) =~= Seq::<Seq<char>>::empty() + picture_names(s@));
    out
}

/// The lower-case form of a text (ASCII letters only).
pub open spec fn ascii_lowercase(s: Seq<char>) -> Seq<char> {
    s.map_values(|c: char| ascii_lower(c))
}

/// Is a file beside a removed show's media one of its show-level files:
/// tvshow.nfo, folder.jpg, poster.jpg, or "-thumb", "-fanart" or "-poster"
/// artwork (jpg, jpeg, png or webp), in any letter case?
pub open spec fn is_root_metadata(name: Seq<char>) -> bool {
    let l = ascii_lowercase(name);
    ||| l == "tvshow.nfo"@
    ||| l == "folder.jpg"@
    ||| l == "poster.jpg"@
    ||| exists|k: int| 0 <= k < 12 && #[trigger] ends_with(l, artwork_suffix(k))
}

/// The `k`-th artwork suffix of show-level files: "-thumb", "-fanart",
/// "-poster" (outermost) with ".jpg", ".jpeg", ".png", ".webp".
pub open spec fn artwork_suffix(k: int) -> Seq<char> {
    seq!['-'] + seq!["thumb"@, "fanart"@, "poster"@][k / 4] + seq!['.'] + picture_formats()[k % 4]
}

/// Is a file one of a removed show's show-level files (see `is_root_metadata`)?
pub fn is_root_metadata_file(name: &str) -> (r: bool)
    ensures
        r == is_root_metadata(name@),
{
    let n = chars_of(name);
    let mut l: Vec<char> = Vec::new();
    let mut i: usize = 0;
    while i < n.len()
        invariant
            i <= n@.len(),
            l@ == ascii_lowercase(n@.take(i as int)),
        decreases n@.len() - i,
    {
        let c = n[i];
        let lc = if 'A' <= c && c <= 'Z' {
            let b: u8 = c as u8;
            (b + 32) as char
        } else {
            c
        };
        l.push(lc);
        assert(l@ =~= ascii_lowercase(n@.take(i + 1)));
        i = i + 1;
    }
    assert(n@.take(n@.len() as int) =~= n@);
    let t = chars_of("tvshow.nfo");
    let f = chars_of("folder.jpg");
    let p = chars_of("poster.jpg");
    if crate::text::chars_eq(l.as_slice(), t.as_slice()) || crate::text::chars_eq(
        l.as_slice(),
        f.as_slice(),
    ) || crate::text::chars_eq(l.as_slice(), p.as_slice()) {
        return true;
    }
    let kinds = ["thumb", "fanart", "poster"];
    let formats = ["jpg", "jpeg", "png", "webp"];
    let mut k: usize = 0;
    while k < 12
        invariant
            k <= 12,
            l@ == ascii_lowercase(name@),
            kinds@ == seq!["thumb", "fanart", "poster"],
            formats@ == seq!["jpg", "jpeg", "png", "webp"],
            l@ != "tvshow.nfo"@ && l@ != "folder.jpg"@ && l@ != "poster.jpg"@,
            forall|q: int| 0 <= q < k ==> !#[trigger] ends_with(l@, artwork_suffix(q)),
        decreases 12 - k,
    {
        let mut suffix: Vec<char> = Vec::new();
        suffix.push('-');
        push_str(&mut suffix, kinds[k / 4]);
        suffix.push('.');
        push_str(&mut suffix, formats[k % 4]);
        assert(suffix@ =~= artwork_suffix(k as int));
        if crate::text::ends_with_chars(l.as_slice(), suffix.as_slice()) {
            return true;
        }
        k = k + 1;
    }
    false
}

/// The normalized form under which base paths are compared: separators as
/// '/', trailing ones removed.
pub open spec fn path_key(path: Seq<char>) -> Seq<char> {
    trim_end_char(normalized_path(path), '/')
}

/// The base paths of a video's sources without repeats: each path whose key
/// is non-empty and not the key of an earlier kept path, in order.
pub open spec fn distinct_base_paths(paths: Seq<Seq<char>>) -> Seq<Seq<char>>
    decreases paths.len(),
{
    if paths.len() == 0 {
        seq![]
    } else {
        let kept = distinct_base_paths(paths.drop_last());
        let key = path_key(paths.last());
        if key.len() > 0 && !kept.map_values(|p: Seq<char>| path_key(p)).contains(key) {
            kept.push(paths.last())
        } else {
            kept
        }
    }
}

fn path_key_of(path: &str) -> (r: Vec<char>)
    ensures
        r@ == path_key(path@),
{
    let n = crate::task::normalize_file_path_task(path);
    let p = chars_of(n.as_str());
    let mut end: usize = p.len();
    assert(p@.take(end as int) =~= p@);
    while end > 0 && p[end - 1] == '/'
        invariant
            end <= p@.len(),
            trim_end_char(p@, '/') == trim_end_char(p@.take(end as int), '/'),
        decreases end,
    {
        proof {
            assert(p@.take(end as int).drop_last() =~= p@.take(end - 1));
        }
        end = end - 1;
    }
    let r = crate::text::slice_chars(p.as_slice(), 0, end);
    proof {
        assert(r@ =~= p@.take(end as int));
        if end > 0 {
            assert(p@.take(end as int).last() == p@[end - 1]);
        }
    }
    r
}

/// Does the walk up from a deleted path begin: the stopping folder has a
/// non-empty key, and the deleted path is not that folder?
pub open spec fn parent_walk_begins(deleted_path: Seq<char>, stop_at: Seq<char>) -> bool {
    path_key(stop_at).len() > 0 && path_key(deleted_path) != path_key(stop_at)
}

/// Does the walk up from a deleted path begin (see `parent_walk_begins`)?
pub fn parent_cleanup_begins(deleted_path: &str, stop_at: &str) -> (r: bool)
    ensures
        r == parent_walk_begins(deleted_path@, stop_at@),
{
    let stop = path_key_of(stop_at);
    if stop.len() == 0 {
        return false;
    }
    let deleted = path_key_of(deleted_path);
    !crate::text::chars_eq(deleted.as_slice(), stop.as_slice())
}

/// What the walk up does with a folder it reached.
#[derive(Clone, Copy, Debug, PartialEq, Eq, Structural)]
pub enum ParentCleanupStep {
    /// Remove the folder, then go on with its parent when that worked.
    Remove,
    /// End the walk.
    Stop,
}

/// What the walk up does with a folder: it ends at the stopping folder, at a
/// folder that does not exist and at one that is not known to be empty;
/// otherwise the folder is removed.
pub open spec fn parent_step(parent: Seq<char>, stop_at: Seq<char>, present: bool, empty: bool) -> ParentCleanupStep {
    if path_key(parent) == path_key(stop_at) || !present || !empty {
        ParentCleanupStep::Stop
    } else {
        ParentCleanupStep::Remove
    }
}

/// What the walk up does with the folder `parent`, given whether it exists
/// and whether it was read and found empty (see `parent_step`).
pub fn parent_cleanup_step(parent: &str, stop_at: &str, present: bool, empty: bool) -> (r: ParentCleanupStep)
    ensures
        r == parent_step(parent@, stop_at@, present, empty),
{
    let p = path_key_of(parent);
    let stop = path_key_of(stop_at);
    if crate::text::chars_eq(p.as_slice(), stop.as_slice()) || !present || !empty {
        ParentCleanupStep::Stop
    } else {
        ParentCleanupStep::Remove
    }
}

/// The base paths of a video's sources without repeats (see `distinct_base_paths`).
pub fn dedup_base_paths(paths: &Vec<String>) -> (r: Vec<String>)
    ensures
        texts(r@) == distinct_base_paths(texts(paths@)),
{
    let mut out: Vec<String> = Vec::new();
    let mut keys: Vec<Vec<char>> = Vec::new();
    let ghost ps = texts(paths@);
    let mut i: usize = 0;
    assert(ps.take(0) =~= Seq::<Seq<char>>::empty());
    while i < paths.len()
        invariant
            i <= paths@.len(),
            ps == texts(paths@),
            texts(out@) == distinct_base_paths(ps.take(i as int)),
            crate::text::seqs_of(keys@) == texts(out@).map_values(|p: Seq<char>| path_key(p)),
        decreases paths@.len() - i,
    {
        proof {
            assert(ps.take(i + 1).drop_last() =~= ps.take(i as int));
            assert(ps.take(i + 1).last() == paths@[i as int]@);
        }
        let key = path_key_of(paths[i].as_str());
        let mut seen = false;
        let mut j: usize = 0;
        while j < keys.len()
            invariant
                j <= keys@.len(),
                seen == exists|q: int| 0 <= q < j && keys@[q]@ == key@,
            decreases keys@.len() - j,
        {
            if crate::text::chars_eq(keys[j].as_slice(), key.as_slice()) {
                seen = true;
            }
            j = j + 1;
        }
        proof {
            let ks = texts(out@).map_values(|p: Seq<char>| path_key(p));
            assert(crate::text::seqs_of(keys@).len() == keys@.len());
            if seen {
                let q = choose|q: int| 0 <= q < keys@.len() && keys@[q]@ == key@;
                assert(crate::text::seqs_of(keys@)[q] == keys@[q]@);
                assert(ks.contains(key@));
            }
            if ks.contains(key@) {
                let q = choose|q: int| 0 <= q < ks.len() && ks[q] == key@;
                assert(crate::text::seqs_of(keys@)[q] == keys@[q]@);
                assert(seen);
            }
        }
        if key.len() > 0 && !seen {
            let ghost before_out = texts(out@);
            let ghost before_keys = crate::text::seqs_of(keys@);
            out.push(paths[i].clone());
            keys.push(key);
            assert(texts(out@) =~= before_out.push(paths@[i as int]@));
            assert(crate::text::seqs_of(keys@) =~= before_keys.push(path_key(paths@[i as int]@)));
            assert(texts(out@).map_values(|p: Seq<char>| path_key(p)) =~= before_out.map_values(
                |p: Seq<char>| path_key(p),
            ).push(path_key(paths@[i as int]@)));
        }
        i = i + 1;
    }
    assert(ps.take(paths@.len() as int) =~= ps);
    out
}

/// The kept base paths have non-empty keys, no two the same.
pub proof fn lemma_base_paths_distinct(paths: Seq<Seq<char>>)
    ensures
        forall|i: int| 0 <= i < distinct_base_paths(paths).len() ==> path_key(#[trigger] distinct_base_paths(paths)[i]).len() > 0,
        forall|i: int, j: int|
            0 <= i < j < distinct_base_paths(paths).len() ==> path_key(#[trigger] distinct_base_paths(paths)[i])
                != path_key(#[trigger] distinct_base_paths(paths)[j]),
    decreases paths.len(),
{
    if paths.len() > 0 {
        lemma_base_paths_distinct(paths.drop_last());
        let kept = distinct_base_paths(paths.drop_last());
        let key = path_key(paths.last());
        let keys = kept.map_values(|p: Seq<char>| path_key(p));
        if key.len() > 0 && !keys.contains(key) {
            let r = kept.push(paths.last());
            assert forall|i: int| 0 <= i < r.len() implies path_key(#[trigger] r[i]).len() > 0 by {
                if i < kept.len() {
                    assert(r[i] == kept[i]);
                }
            }
            assert forall|i: int, j: int| 0 <= i < j < r.len() implies path_key(#[trigger] r[i]) != path_key(
                #[trigger] r[j],
            ) by {
                assert(r[i] == kept[i]);
                if j < kept.len() {
                    assert(r[j] == kept[j]);
                } else {
                    assert(keys[i] == path_key(kept[i]));
                }
            }
        }
    }
}

} // verus!
