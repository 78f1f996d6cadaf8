//! Decisions of the model library scan: which files count as models, which
//! directories are skipped, how duplicates from overlapping folders merge,
//! the order of the results, and the vision projector next to a model.
use vstd::prelude::*;
use crate::meta::ModelInfo;
use crate::text::{
    ascii_lowered, is_ascii_text,
    ascii_lower, byte_len, chars_of, contains_seq, ends_with, eq_ignore_ascii_case, has_seq, lowercase,
    to_lower,
};

verus! {

/// A name that marks a vision projector (mmproj) file.
pub open spec fn is_mmproj_name(name: Seq<char>) -> bool {
    contains_seq(lowercase(name), "mmproj"@)
}

/// Whether a file name belongs to a vision projector (mmproj) file, which
/// is not listed as a model.
pub fn is_mmproj_file(name: &str) -> (b: bool)
    ensures
        b == is_mmproj_name(name@),
        is_ascii_text(name@) ==> b == contains_seq(ascii_lowered(name@), "mmproj"@),
{
    let lower = to_lower(name);
    let v = chars_of(lower.as_str());
    let pat = chars_of("mmproj");
    assert(v@.subrange(0, v@.len() as int) =~= v@);
    has_seq(&v, 0, v.len(), &pat)
}

/// Directory and file names that a scan skips, subtree and all.
pub open spec fn is_irrelevant_name(s: Seq<char>) -> bool {
    ||| s == ".git"@ ||| s == ".svn"@ ||| s == ".hg"@ ||| s == ".bzr"@
    ||| s == "node_modules"@ ||| s == "__pycache__"@ ||| s == ".venv"@ ||| s == "venv"@ ||| s == ".mypy_cache"@
    ||| s == "target"@ ||| s == "dist"@ ||| s == "build"@ ||| s == "out"@ ||| s == ".next"@ ||| s == ".nuxt"@
    ||| s == "$RECYCLE.BIN"@ ||| s == "System Volume Information"@ ||| s == "WindowsApps"@
    ||| s == ".Trash"@ ||| s == ".Trash-1000"@ ||| s == "Library"@ ||| s == "Applications"@
    ||| s == ".DS_Store"@ ||| s == "Thumbs.db"@ ||| s == "desktop.ini"@
}

/// The names a scan skips, subtree and all: version control (`.git`, `.svn`,
/// `.hg`, `.bzr`), dependencies and caches (`node_modules`, `__pycache__`,
/// `.venv`, `venv`, `.mypy_cache`), build output (`target`, `dist`, `build`,
/// `out`, `.next`, `.nuxt`), Windows system folders (`$RECYCLE.BIN`, `System
/// Volume Information`, `WindowsApps`), macOS and Linux system folders
/// (`.Trash`, `.Trash-1000`, `Library`, `Applications`) and desktop clutter
/// (`.DS_Store`, `Thumbs.db`, `desktop.ini`).
pub proof fn skipped_names()
    ensures
        is_irrelevant_name(".git"@),
        is_irrelevant_name(".svn"@),
        is_irrelevant_name(".hg"@),
        is_irrelevant_name(".bzr"@),
        is_irrelevant_name("node_modules"@),
        is_irrelevant_name("__pycache__"@),
        is_irrelevant_name(".venv"@),
        is_irrelevant_name("venv"@),
        is_irrelevant_name(".mypy_cache"@),
        is_irrelevant_name("target"@),
        is_irrelevant_name("dist"@),
        is_irrelevant_name("build"@),
        is_irrelevant_name("out"@),
        is_irrelevant_name(".next"@),
        is_irrelevant_name(".nuxt"@),
        is_irrelevant_name("$RECYCLE.BIN"@),
        is_irrelevant_name("System Volume Information"@),
        is_irrelevant_name("WindowsApps"@),
        is_irrelevant_name(".Trash"@),
        is_irrelevant_name(".Trash-1000"@),
        is_irrelevant_name("Library"@),
        is_irrelevant_name("Applications"@),
        is_irrelevant_name(".DS_Store"@),
        is_irrelevant_name("Thumbs.db"@),
        is_irrelevant_name("desktop.ini"@),
{
}

/// Whether a directory entry named `name` is skipped by a scan (a name that
/// is not valid Unicode, given as `None`, is never skipped).
pub fn is_irrelevant_dir(name: Option<&str>) -> (b: bool)
    ensures
        b == match name {
            Some(s) => is_irrelevant_name(s@),
            None => false,
        },
{
    let s = match name {
        Some(s) => String::from_str(s),
        None => {
            return false;
        },
    };
    s == String::from_str(".git")
        || s == String::from_str(".svn")
        || s == String::from_str(".hg")
        || s == String::from_str(".bzr")
        || s == String::from_str("node_modules")
        || s == String::from_str("__pycache__")
        || s == String::from_str(".venv")
        || s == String::from_str("venv")
        || s == String::from_str(".mypy_cache")
        || s == String::from_str("target")
        || s == String::from_str("dist")
        || s == String::from_str("build")
        || s == String::from_str("out")
        || s == String::from_str(".next")
        || s == String::from_str(".nuxt")
        || s == String::from_str("$RECYCLE.BIN")
        || s == String::from_str("System Volume Information")
        || s == String::from_str("WindowsApps")
        || s == String::from_str(".Trash")
        || s == String::from_str(".Trash-1000")
        || s == String::from_str("Library")
        || s == String::from_str("Applications")
        || s == String::from_str(".DS_Store")
        || s == String::from_str("Thumbs.db")
        || s == String::from_str("desktop.ini")
}

/// Whether a scan skips the entry named `name` found `depth` levels below a
/// scanned folder, subtree and all: the folder itself (depth 0) is always
/// scanned, whatever its name; below it, the names of `is_irrelevant_name`
/// are skipped (a name that is not valid Unicode, given as `None`, never is).
pub fn is_pruned(depth: usize, name: Option<&str>) -> (b: bool)
    ensures
        b == (depth > 0 && match name {
            Some(n) => is_irrelevant_name(n@),
            None => false,
        }),
{
    depth > 0 && is_irrelevant_dir(name)
}

/// A scanned entry is listed as a model: a regular file whose extension is
/// `gguf` in any ASCII case, and which is not a vision projector.
pub open spec fn is_model_entry(is_file: bool, extension: Option<Seq<char>>, file_name: Seq<char>) -> bool {
    &&& is_file
    &&& extension matches Some(e) && eq_ignore_ascii_case(e, "gguf"@)
    &&& !is_mmproj_name(file_name)
}

fn is_gguf_extension(ext: &str) -> (b: bool)
    ensures
        b == eq_ignore_ascii_case(ext@, "gguf"@),
{
    proof {
        reveal_strlit("gguf");
    }
    let v = chars_of(ext);
    if v.len() != 4 {
        return false;
    }
    let pat = chars_of("gguf");
    assert(pat@ =~= seq!['g', 'g', 'u', 'f']);
    assert(('g' as u32) == 103 && ('u' as u32) == 117 && ('f' as u32) == 102);
    let mut i: usize = 0;
    while i < 4
        invariant
            v@ == ext@,
            pat@ == "gguf"@,
            pat@ == seq!['g', 'g', 'u', 'f'],
            ('g' as u32) == 103 && ('u' as u32) == 117 && ('f' as u32) == 102,
            v@.len() == 4,
            i <= 4,
            forall|j: int| 0 <= j < i ==> ascii_lower(#[trigger] v@[j]) == ascii_lower(pat@[j]),
        decreases 4 - i,
    {
        let c = v[i] as u32;
        let lc: u32 = if 65 <= c && c <= 90 { c + 32 } else { c };
        let p = pat[i] as u32;
        if lc != p {
            assert(ascii_lower(ext@[i as int]) != ascii_lower("gguf"@[i as int]));
            return false;
        }
        i = i + 1;
    }
    true
}

/// Whether a directory entry found by a scan is listed as a model (see `is_model_entry`).
pub fn is_model_file(is_file: bool, extension: Option<&str>, file_name: &str) -> (b: bool)
    ensures
        b == is_model_entry(is_file, match extension {
            Some(e) => Some(e@),
            None => None,
        }, file_name@),
{
    if !is_file {
        return false;
    }
    match extension {
        Some(e) => {
            if !is_gguf_extension(e) {
                return false;
            }
        },
        None => {
            return false;
        },
    }
    !is_mmproj_file(file_name)
}

pub open spec fn pairs_view(v: Seq<(String, String)>) -> Seq<(Seq<char>, Seq<char>)> {
    v.map_values(|p: (String, String)| (p.0@, p.1@))
}

/// First index in `found` of a file whose path has lower-case form `key`.
pub open spec fn key_index(found: Seq<(Seq<char>, Seq<char>)>, key: Seq<char>) -> Option<int>
    decreases found.len(),
{
    if found.len() == 0 {
        None
    } else {
        match key_index(found.drop_last(), key) {
            Some(j) => Some(j),
            None => if lowercase(found.last().0) == key {
                Some(found.len() - 1)
            } else {
                None
            },
        }
    }
}

proof fn lemma_key_index(found: Seq<(Seq<char>, Seq<char>)>, key: Seq<char>)
    ensures
        match key_index(found, key) {
            Some(j) => 0 <= j < found.len() && lowercase(found[j].0) == key
                && forall|k: int| 0 <= k < j ==> lowercase(#[trigger] found[k].0) != key,
            None => forall|k: int| 0 <= k < found.len() ==> lowercase(#[trigger] found[k].0) != key,
        },
    decreases found.len(),
{
    if found.len() > 0 {
        lemma_key_index(found.drop_last(), key);
        assert forall|k: int| 0 <= k < found.len() - 1 implies found.drop_last()[k] == #[trigger] found[k] by {}
    }
}

/// Adds one found (path, folder) to the merged list: a path whose lower-case
/// form is already there keeps its first spelling, and takes the new folder
/// only when that folder's text is longer in bytes.
pub open spec fn merge_found(found: Seq<(Seq<char>, Seq<char>)>, item: (Seq<char>, Seq<char>)) -> Seq<(Seq<char>, Seq<char>)> {
    match key_index(found, lowercase(item.0)) {
        Some(j) => if byte_len(item.1) > byte_len(found[j].1) {
            found.update(j, (found[j].0, item.1))
        } else {
            found
        },
        None => found.push(item),
    }
}

/// The found files merged in order, one per path compared case-insensitively
/// (by lower-case form), each under the most specific (longest) folder.
pub open spec fn merged_files(files: Seq<(Seq<char>, Seq<char>)>) -> Seq<(Seq<char>, Seq<char>)>
    decreases files.len(),
{
    if files.len() == 0 {
        Seq::empty()
    } else {
        merge_found(merged_files(files.drop_last()), files.last())
    }
}

/// Merges files found more than once through overlapping folders (see `merged_files`).
pub fn dedup_model_files(files: Vec<(String, String)>) -> (res: Vec<(String, String)>)
    ensures
        pairs_view(res@) == merged_files(pairs_view(files@)),
{
    let ghost input = pairs_view(files@);
    let mut res: Vec<(String, String)> = Vec::new();
    let mut keys: Vec<String> = Vec::new();
    let n = files.len();
    let mut i: usize = 0;
    assert(input.take(0) =~= Seq::<(Seq<char>, Seq<char>)>::empty());
    assert(pairs_view(res@) =~= Seq::<(Seq<char>, Seq<char>)>::empty());
    while i < n
        invariant
            n == files@.len(),
            input == pairs_view(files@),
            i <= n,
            pairs_view(res@) == merged_files(input.take(i as int)),
            keys@.len() == res@.len(),
            forall|k: int| 0 <= k < keys@.len() ==> (#[trigger] keys@[k])@ == lowercase(res@[k].0@),
        decreases n - i,
    {
        let path = files[i].0.clone();
        let folder = files[i].1.clone();
        let key = to_lower(path.as_str());
        let ghost found = pairs_view(res@);
        assert(input.take(i + 1).drop_last() =~= input.take(i as int));
        assert(input.take(i + 1).last() == (path@, folder@));
        let mut j: usize = 0;
        while j < keys.len() && !(keys[j] == key)
            invariant
                keys@.len() == res@.len(),
                found == pairs_view(res@),
                j <= keys@.len(),
                forall|k: int| 0 <= k < keys@.len() ==> (#[trigger] keys@[k])@ == lowercase(res@[k].0@),
                forall|k: int| 0 <= k < j ==> lowercase(#[trigger] found[k].0) != key@,
            decreases keys@.len() - j,
        {
            assert(found[j as int].0 == res@[j as int].0@);
            j = j + 1;
        }
        let hit = j < keys.len();
        proof {
            lemma_key_index(found, key@);
        }
        assert(merged_files(input.take(i + 1)) == merge_found(found, (path@, folder@)));
        if hit {
            assert(found[j as int].0 == res@[j as int].0@);
            assert(found[j as int].1 == res@[j as int].1@);
            assert(lowercase(found[j as int].0) == key@);
            assert(key_index(found, key@) == Some(j as int));
            let old_len = res[j].1.as_str().len();
            assert(old_len == byte_len(found[j as int].1));
            let new_len = folder.as_str().len();
            assert(new_len == byte_len(folder@));
            if new_len > old_len {
                let kept = res[j].0.clone();
                res.set(j, (kept, folder));
                assert(pairs_view(res@) =~= found.update(j as int, (found[j as int].0, folder@)));
                assert(pairs_view(res@) == merged_files(input.take(i + 1)));
            } else {
                assert(pairs_view(res@) == merged_files(input.take(i + 1)));
            }
        } else {
            assert(j == keys@.len());
            assert(key_index(found, key@) is None);
            res.push((path, folder));
            keys.push(key);
            assert(pairs_view(res@) =~= found.push((path@, folder@)));
            assert(pairs_view(res@) == merged_files(input.take(i + 1)));
        }
        i = i + 1;
    }
    assert(input.take(n as int) =~= input);
    res
}

/// No two entries have the same path in lower-case form.
pub open spec fn keys_distinct(m: Seq<(Seq<char>, Seq<char>)>) -> bool {
    forall|i: int, j: int| 0 <= i < j < m.len() ==> lowercase(#[trigger] m[i].0) != lowercase(#[trigger] m[j].0)
}

/// Some entry has the path of `item` in lower-case form, in a folder at
/// least as long (in bytes) as that of `item`.
pub open spec fn covers(m: Seq<(Seq<char>, Seq<char>)>, item: (Seq<char>, Seq<char>)) -> bool {
    exists|j: int| 0 <= j < m.len() && lowercase(#[trigger] m[j].0) == lowercase(item.0) && byte_len(m[j].1) >= byte_len(item.1)
}

/// Every entry's path is spelled as one of the found files spelled it.
pub open spec fn spelled_as_found(m: Seq<(Seq<char>, Seq<char>)>, files: Seq<(Seq<char>, Seq<char>)>) -> bool {
    forall|j: int| 0 <= j < m.len() ==> exists|k: int| 0 <= k < files.len() && files[k].0 == #[trigger] m[j].0
}

proof fn lemma_covers_step(prev: Seq<(Seq<char>, Seq<char>)>, item: (Seq<char>, Seq<char>), x: (Seq<char>, Seq<char>))
    requires
        covers(prev, x),
    ensures
        covers(merge_found(prev, item), x),
{
    let w = choose|j: int| 0 <= j < prev.len() && lowercase(#[trigger] prev[j].0) == lowercase(x.0) && byte_len(prev[j].1) >= byte_len(x.1);
    lemma_key_index(prev, lowercase(item.0));
    let next = merge_found(prev, item);
    assert(0 <= w < next.len() && lowercase(next[w].0) == lowercase(x.0) && byte_len(next[w].1) >= byte_len(x.1));
}

proof fn lemma_distinct_step(prev: Seq<(Seq<char>, Seq<char>)>, item: (Seq<char>, Seq<char>))
    requires
        keys_distinct(prev),
    ensures
        keys_distinct(merge_found(prev, item)),
        merge_found(prev, item).len() <= prev.len() + 1,
{
    lemma_key_index(prev, lowercase(item.0));
    let next = merge_found(prev, item);
    assert forall|i: int, j: int| 0 <= i < j < next.len() implies lowercase(#[trigger] next[i].0) != lowercase(#[trigger] next[j].0) by {
        if j < prev.len() {
            assert(next[i].0 == prev[i].0 && next[j].0 == prev[j].0);
        } else {
            assert(next[j] == item);
            assert(next[i] == prev[i]);
        }
    }
}

proof fn lemma_spelled_step(prev: Seq<(Seq<char>, Seq<char>)>, files: Seq<(Seq<char>, Seq<char>)>)
    requires
        files.len() > 0,
        spelled_as_found(prev, files.drop_last()),
    ensures
        spelled_as_found(merge_found(prev, files.last()), files),
{
    let rest = files.drop_last();
    let item = files.last();
    lemma_key_index(prev, lowercase(item.0));
    let next = merge_found(prev, item);
    assert forall|j: int| 0 <= j < next.len() implies exists|k: int| 0 <= k < files.len() && files[k].0 == #[trigger] next[j].0 by {
        if j < prev.len() {
            assert(next[j].0 == prev[j].0);
            let k = choose|k: int| 0 <= k < rest.len() && rest[k].0 == #[trigger] prev[j].0;
            assert(files[k] == rest[k]);
        } else {
            assert(files[files.len() - 1].0 == next[j].0);
        }
    }
}

proof fn lemma_covers_last(prev: Seq<(Seq<char>, Seq<char>)>, item: (Seq<char>, Seq<char>))
    ensures
        covers(merge_found(prev, item), item),
{
    lemma_key_index(prev, lowercase(item.0));
    let next = merge_found(prev, item);
    match key_index(prev, lowercase(item.0)) {
        Some(j) => {
            assert(lowercase(next[j].0) == lowercase(item.0) && byte_len(next[j].1) >= byte_len(item.1));
        },
        None => {
            assert(next[prev.len() as int] == item);
        },
    }
}

/// Merging found files leaves each path once, compared by lower-case form;
/// every file found is still there under its lower-case path, in a folder
/// at least as long as any it was found in; each path keeps a spelling it
/// was found with; and nothing is added.
pub proof fn merged_files_unique(files: Seq<(Seq<char>, Seq<char>)>)
    ensures
        keys_distinct(merged_files(files)),
        forall|k: int| 0 <= k < files.len() ==> covers(merged_files(files), #[trigger] files[k]),
        spelled_as_found(merged_files(files), files),
        merged_files(files).len() <= files.len(),
    decreases files.len(),
{
    if files.len() > 0 {
        let rest = files.drop_last();
        let item = files.last();
        let prev = merged_files(rest);
        merged_files_unique(rest);
        assert(merged_files(files) == merge_found(prev, item));
        lemma_distinct_step(prev, item);
        lemma_spelled_step(prev, files);
        lemma_covers_last(prev, item);
        assert forall|k: int| 0 <= k < files.len() implies covers(merged_files(files), #[trigger] files[k]) by {
            if k < files.len() - 1 {
                assert(rest[k] == files[k]);
                lemma_covers_step(prev, item, files[k]);
            }
        }
    }
}

/// A directory entry name that looks like a vision projector model:
/// lower-cased, it ends with `.gguf` and contains `mmproj`.
pub open spec fn is_mmproj_candidate(name: Seq<char>) -> bool {
    ends_with(lowercase(name), ".gguf"@) && contains_seq(lowercase(name), "mmproj"@)
}

pub open spec fn mmproj_entry() -> spec_fn((Seq<char>, Seq<char>)) -> bool {
    |e: (Seq<char>, Seq<char>)| is_mmproj_candidate(e.0)
}

pub open spec fn mmproj_candidates(entries: Seq<(Seq<char>, Seq<char>)>) -> Seq<(Seq<char>, Seq<char>)> {
    entries.filter(mmproj_entry())
}

/// The vision projector for a model, given the (file name, path) entries of
/// the model's directory: the path of the only candidate, or `None` when
/// there are none or several.
pub fn select_mmproj(entries: &Vec<(String, String)>) -> (r: Option<String>)
    ensures
        ({
            let c = mmproj_candidates(pairs_view(entries@));
            if c.len() == 1 {
                r matches Some(p) && p@ == c[0].1
            } else {
                r is None
            }
        }),
{
    let ghost all = pairs_view(entries@);
    let mut count: usize = 0;
    let mut first: Option<String> = None;
    let n = entries.len();
    let mut i: usize = 0;
    assert(all.take(0).filter(mmproj_entry()) =~= Seq::<(Seq<char>, Seq<char>)>::empty()) by {
        reveal(Seq::filter);
    }
    while i < n
        invariant
            n == entries@.len(),
            all == pairs_view(entries@),
            i <= n,
            count as int == all.take(i as int).filter(mmproj_entry()).len(),
            count <= i,
            count >= 1 ==> (first matches Some(p) && p@ == all.take(i as int).filter(mmproj_entry())[0].1),
        decreases n - i,
    {
        assert(all.take(i + 1).drop_last() =~= all.take(i as int));
        assert(all.take(i + 1).last() == all[i as int]);
        let lower = to_lower(entries[i].0.as_str());
        let v = chars_of(lower.as_str());
        assert(v@.subrange(0, v@.len() as int) =~= v@);
        let ext = chars_of(".gguf");
        let pat = chars_of("mmproj");
        let m = v.len();
        let tail_ok = if ext.len() <= m {
            has_prefix_at_end(&v, &ext)
        } else {
            false
        };
        assert(tail_ok == ends_with(v@, ".gguf"@));
        let inner_ok = has_seq(&v, 0, m, &pat);
        assert(inner_ok == contains_seq(v@, "mmproj"@));
        let is_candidate = tail_ok && inner_ok;
        assert(all[i as int].0 == entries@[i as int].0@);
        assert(all[i as int].1 == entries@[i as int].1@);
        assert(v@ == lowercase(all[i as int].0));
        assert(is_candidate == is_mmproj_candidate(all[i as int].0));
        assert(is_candidate == mmproj_entry()(all[i as int]));
        let ghost before = all.take(i as int).filter(mmproj_entry());
        proof {
            reveal(Seq::filter);
            assert(all.take(i + 1).filter(mmproj_entry()) == if mmproj_entry()(all[i as int]) { before.push(all[i as int]) } else { before });
        }
        if is_candidate {
            if count == 0 {
                first = Some(entries[i].1.clone());
            }
            count = count + 1;
        }
        i = i + 1;
    }
    assert(all.take(n as int) =~= all);
    if count == 1 {
        first
    } else {
        None
    }
}

/// `p` ends `v`.
fn has_prefix_at_end(v: &Vec<char>, p: &Vec<char>) -> (b: bool)
    requires
        p@.len() <= v@.len(),
    ensures
        b == ends_with(v@, p@),
{
    let m = v.len();
    let e = p.len();
    let mut i: usize = 0;
    while i < e
        invariant
            m == v@.len(),
            e == p@.len(),
            e <= m,
            i <= e,
            forall|j: int| 0 <= j < i ==> v@[m - e + j] == p@[j],
        decreases e - i,
    {
        if v[m - e + i] != p[i] {
            assert(v@.skip(m - e)[i as int] != p@[i as int]);
            return false;
        }
        i = i + 1;
    }
    assert(v@.skip(m - e) =~= p@);
    true
}

/// Lexicographic order of texts by character code (the order of their
/// UTF-8 bytes): `a` sorts strictly before `b`.
pub open spec fn text_before(a: Seq<char>, b: Seq<char>) -> bool
    decreases a.len(),
{
    if b.len() == 0 {
        false
    } else if a.len() == 0 {
        true
    } else if a[0] != b[0] {
        (a[0] as u32) < (b[0] as u32)
    } else {
        text_before(a.drop_first(), b.drop_first())
    }
}

/// `text_before` is a strict total order.
pub proof fn lemma_text_order(a: Seq<char>, b: Seq<char>, c: Seq<char>)
    ensures
        !text_before(a, a),
        text_before(a, b) ==> !text_before(b, a),
        a != b ==> text_before(a, b) || text_before(b, a),
        text_before(a, b) && text_before(b, c) ==> text_before(a, c),
    decreases a.len(),
{
    if a.len() > 0 {
        lemma_text_order(a.drop_first(), a.drop_first(), a.drop_first());
        if b.len() > 0 {
            vstd::utf8::char_u32_cast(a[0], a[0] as u32);
            vstd::utf8::char_u32_cast(b[0], b[0] as u32);
            lemma_text_order(a.drop_first(), b.drop_first(), b.drop_first());
            if a[0] == b[0] && a != b {
                assert(a.drop_first() != b.drop_first()) by {
                    if a.drop_first() == b.drop_first() {
                        assert(a =~= seq![a[0]] + a.drop_first());
                        assert(b =~= seq![b[0]] + b.drop_first());
                    }
                }
            }
            if c.len() > 0 {
                lemma_text_order(a.drop_first(), b.drop_first(), c.drop_first());
            }
        }
    } else {
        if b.len() == 0 {
            assert(a =~= b);
        }
    }
}

/// The sort key of a model: its file name in lower case.
pub open spec fn name_key(m: ModelInfo) -> Seq<char> {
    lowercase(m.file_name@)
}

/// Models whose sort key is `k`.
pub open spec fn key_is(k: Seq<char>) -> spec_fn(ModelInfo) -> bool {
    |m: ModelInfo| name_key(m) == k
}

/// Sorted by lower-case file name.
pub open spec fn sorted_by_name(s: Seq<ModelInfo>) -> bool {
    forall|i: int, j: int| 0 <= i < j < s.len() ==> !text_before(name_key(#[trigger] s[j]), name_key(#[trigger] s[i]))
}

fn text_less(a: &Vec<char>, b: &Vec<char>) -> (r: bool)
    ensures
        r == text_before(a@, b@),
{
    let mut i: usize = 0;
    assert(a@.skip(0) =~= a@);
    assert(b@.skip(0) =~= b@);
    while i < a.len() && i < b.len() && a[i] == b[i]
        invariant
            i <= a@.len(),
            i <= b@.len(),
            text_before(a@, b@) == text_before(a@.skip(i as int), b@.skip(i as int)),
        decreases a@.len() - i,
    {
        assert(a@.skip(i as int).drop_first() =~= a@.skip(i + 1));
        assert(b@.skip(i as int).drop_first() =~= b@.skip(i + 1));
        i = i + 1;
    }
    if i == b.len() {
        false
    } else if i == a.len() {
        true
    } else {
        (a[i] as u32) < (b[i] as u32)
    }
}

/// The models in order of their lower-case file names; models whose names
/// compare equal keep their order.
pub fn sort_models(models: Vec<ModelInfo>) -> (res: Vec<ModelInfo>)
    ensures
        res@.len() == models@.len(),
        sorted_by_name(res@),
        forall|k: Seq<char>| #[trigger] res@.filter(key_is(k)) == models@.filter(key_is(k)),
{
    let ghost orig = models@;
    let mut input = models;
    let mut out: Vec<ModelInfo> = Vec::new();
    let mut keys: Vec<Vec<char>> = Vec::new();
    let n = input.len();
    let mut i: usize = 0;
    assert forall|k: Seq<char>| #[trigger] out@.filter(key_is(k)) == orig.take(0).filter(key_is(k)) by {
        reveal(Seq::filter);
        assert(orig.take(0) =~= Seq::<ModelInfo>::empty());
        assert(out@ =~= Seq::<ModelInfo>::empty());
    }
    while i < n
        invariant
            n == orig.len(),
            i <= n,
            input@ == orig.skip(i as int),
            out@.len() == i,
            keys@.len() == out@.len(),
            forall|j: int| 0 <= j < keys@.len() ==> (#[trigger] keys@[j])@ == name_key(out@[j]),
            sorted_by_name(out@),
            forall|k: Seq<char>| #[trigger] out@.filter(key_is(k)) == orig.take(i as int).filter(key_is(k)),
        decreases n - i,
    {
        let x = input.remove(0);
        assert(x == orig[i as int]);
        assert(input@ =~= orig.skip(i + 1));
        let lower = to_lower(x.file_name.as_str());
        let xk = chars_of(lower.as_str());
        let mut p = out.len();
        while p > 0 && text_less(&xk, &keys[p - 1])
            invariant
                p <= out@.len(),
                keys@.len() == out@.len(),
                forall|j: int| 0 <= j < keys@.len() ==> (#[trigger] keys@[j])@ == name_key(out@[j]),
                forall|q: int| p <= q < out@.len() ==> text_before(xk@, name_key(#[trigger] out@[q])),
            decreases p,
        {
            p = p - 1;
        }
        let ghost before = out@;
        proof {
            assert forall|q: int| 0 <= q < p implies !text_before(xk@, name_key(#[trigger] before[q])) by {
                lemma_text_order(name_key(before[q]), name_key(before[p - 1]), xk@);
                lemma_text_order(xk@, name_key(before[q]), name_key(before[p - 1]));
                if q < p - 1 {
                    assert(!text_before(name_key(before[p - 1]), name_key(before[q])));
                }
            }
            assert forall|q: int| p <= q < before.len() implies !text_before(name_key(#[trigger] before[q]), xk@) by {
                lemma_text_order(xk@, name_key(before[q]), xk@);
            }
        }
        out.insert(p, x);
        keys.insert(p, xk);
        let ghost after = out@;
        assert(after =~= before.take(p as int) + seq![orig[i as int]] + before.skip(p as int));
        assert(before =~= before.take(p as int) + before.skip(p as int));
        assert(name_key(orig[i as int]) == xk@);
        proof {
            assert forall|a: int, b: int| 0 <= a < b < after.len() implies !text_before(name_key(#[trigger] after[b]), name_key(#[trigger] after[a])) by {
                if a < p && b < p {
                    assert(after[a] == before[a] && after[b] == before[b]);
                } else if a < p && b == p {
                    assert(after[a] == before[a]);
                } else if a < p {
                    assert(after[a] == before[a] && after[b] == before[b - 1]);
                } else if a == p {
                    assert(after[b] == before[b - 1]);
                } else {
                    assert(after[a] == before[a - 1] && after[b] == before[b - 1]);
                }
            }
            assert forall|j: int| 0 <= j < keys@.len() implies (#[trigger] keys@[j])@ == name_key(out@[j]) by {
                if j < p {
                } else if j == p {
                } else {
                    assert(out@[j] == before[j - 1]);
                }
            }
            assert forall|k: Seq<char>| #[trigger] out@.filter(key_is(k)) == orig.take(i + 1).filter(key_is(k)) by {
                let f = key_is(k);
                let lo = before.take(p as int);
                let hi = before.skip(p as int);
                assert(orig.take(i + 1) =~= orig.take(i as int).push(orig[i as int]));
                assert(orig.take(i + 1) =~= orig.take(i as int) + seq![orig[i as int]]);
                Seq::filter_distributes_over_add(lo + seq![orig[i as int]], hi, f);
                Seq::filter_distributes_over_add(lo, seq![orig[i as int]], f);
                Seq::filter_distributes_over_add(lo, hi, f);
                Seq::filter_distributes_over_add(orig.take(i as int), seq![orig[i as int]], f);
                assert(seq![orig[i as int]].filter(f) == if f(orig[i as int]) { seq![orig[i as int]] } else { Seq::<ModelInfo>::empty() }) by {
                    reveal_with_fuel(Seq::filter, 2);
                    assert(seq![orig[i as int]].drop_last() =~= Seq::<ModelInfo>::empty());
                }
                if f(orig[i as int]) {
                    assert forall|q: int| 0 <= q < hi.len() implies !f(#[trigger] hi[q]) by {
                        assert(hi[q] == before[p + q]);
                        lemma_text_order(xk@, xk@, xk@);
                    }
                    hi.lemma_all_neg_filter_empty(f);
                }
            }
        }
        i = i + 1;
    }
    assert(orig.take(n as int) =~= orig);
    out
}

} // verus!
