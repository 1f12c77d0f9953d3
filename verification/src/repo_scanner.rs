use vstd::prelude::*;
use crate::file_watcher::starts_with;
use crate::strutil::views_of;

verus! {

/// One file the repository walker found: its path, its path relative
/// to the scanned root, and its size in bytes.
#[derive(Debug)]
pub struct ScanEntry {
    pub path: String,
    pub relative_path: String,
    pub size: u64,
}

/// One file of a scan result.
#[derive(Debug)]
pub struct FileInfo {
    pub path: String,
    pub relative_path: String,
    pub size: u64,
    pub is_markdown: bool,
}

/// What a repository scan found.
#[derive(Debug)]
pub struct ScanResult {
    pub files: Vec<FileInfo>,
    pub total_files: usize,
    pub total_size: u64,
    pub markdown_files: usize,
}

/// Directory names whose contents a scan never counts.
pub open spec fn is_ignored_dir(c: Seq<char>) -> bool {
    ||| c == "node_modules"@
    ||| c == "target"@
    ||| c == ".git"@
    ||| c == "dist"@
    ||| c == "build"@
    ||| c == "__pycache__"@
    ||| c == ".next"@
    ||| c == "coverage"@
    ||| c == ".cache"@
}

/// Whether any slash-separated component of the path is an ignored
/// directory name.
pub open spec fn has_ignored_component(s: Seq<char>) -> bool
    decreases s.len(),
{
    match crate::pack::find_char_idx(s, 0, '/') {
        Some(i) => if 0 <= i < s.len() {
            is_ignored_dir(s.subrange(0, i)) || has_ignored_component(
                s.subrange(i + 1, s.len() as int),
            )
        } else {
            false
        },
        None => is_ignored_dir(s),
    }
}

/// Whether a path names a markdown document (by its ending).
pub open spec fn is_markdown_path(s: Seq<char>) -> bool {
    ||| (s.len() >= 3 && s.subrange(s.len() - 3, s.len() as int) == ".md"@)
    ||| (s.len() >= 4 && s.subrange(s.len() - 4, s.len() as int) == ".mdx"@)
}

fn is_ignored_dir_exec(c: &str) -> (r: bool)
    ensures
        r == is_ignored_dir(c@),
{
    crate::strutil::str_eq(c, "node_modules") || crate::strutil::str_eq(c, "target")
        || crate::strutil::str_eq(c, ".git") || crate::strutil::str_eq(c, "dist")
        || crate::strutil::str_eq(c, "build") || crate::strutil::str_eq(c, "__pycache__")
        || crate::strutil::str_eq(c, ".next") || crate::strutil::str_eq(c, "coverage")
        || crate::strutil::str_eq(c, ".cache")
}

#[verifier::loop_isolation(false)]
fn has_ignored_component_exec(s: &str) -> (r: bool)
    ensures
        r == has_ignored_component(s@),
{
    let mut start: usize = 0;
    let n = s.unicode_len();
    proof {
        assert(s@.subrange(0, n as int) =~= s@);
    }
    loop
        invariant
            start <= n,
            n == s@.len(),
            has_ignored_component(s@) == has_ignored_component(
                s@.subrange(start as int, n as int),
            ),
        decreases n - start,
    {
        let ghost remaining = s@.subrange(start as int, n as int);
        match crate::pack::find_char(s, start, '/') {
            Some(i) => {
                proof {
                    crate::pack::lemma_find_char_bounds(s@, start as int, '/');
                    lemma_find_offset(s@, start as int, i as int, '/');
                    assert(remaining.subrange(0, i - start) =~= s@.subrange(
                        start as int,
                        i as int,
                    ));
                    assert(remaining.subrange(i - start + 1, remaining.len() as int)
                        =~= s@.subrange(i + 1, n as int));
                }
                if is_ignored_dir_exec(s.substring_char(start, i)) {
                    return true;
                }
                start = i + 1;
            },
            None => {
                proof {
                    crate::pack::lemma_find_char_bounds(s@, start as int, '/');
                    lemma_find_offset_none(s@, start as int, '/');
                }
                return is_ignored_dir_exec(s.substring_char(start, n));
            },
        }
    }
}

proof fn lemma_find_offset(s: Seq<char>, start: int, i: int, c: char)
    requires
        0 <= start <= i < s.len(),
        crate::pack::find_char_idx(s, start, c) == Some(i),
    ensures
        crate::pack::find_char_idx(s.subrange(start, s.len() as int), 0, c) == Some(i - start),
{
    crate::pack::lemma_find_char_bounds(s, start, c);
    let sub = s.subrange(start, s.len() as int);
    assert forall|j: int| 0 <= j < i - start implies sub[j] != c by {
        assert(sub[j] == s[j + start]);
    }
    assert(sub[i - start] == c);
    crate::pack::lemma_find_char_fixed(sub, 0, c, i - start);
}

proof fn lemma_find_offset_none(s: Seq<char>, start: int, c: char)
    requires
        0 <= start <= s.len(),
        crate::pack::find_char_idx(s, start, c) is None,
    ensures
        crate::pack::find_char_idx(s.subrange(start, s.len() as int), 0, c) is None,
{
    crate::pack::lemma_find_char_bounds(s, start, c);
    let sub = s.subrange(start, s.len() as int);
    assert forall|j: int| 0 <= j < sub.len() implies sub[j] != c by {
        assert(sub[j] == s[j + start]);
    }
    crate::pack::lemma_find_char_fixed(sub, 0, c, sub.len() as int);
}

#[verifier::loop_isolation(false)]
fn is_markdown_exec(s: &str) -> (r: bool)
    ensures
        r == is_markdown_path(s@),
{
    let n = s.unicode_len();
    if n >= 3 {
        let tail = s.substring_char(n - 3, n);
        if crate::strutil::str_eq(tail, ".md") {
            return true;
        }
    }
    if n >= 4 {
        let tail = s.substring_char(n - 4, n);
        if crate::strutil::str_eq(tail, ".mdx") {
            return true;
        }
    }
    false
}

/// The entries a scan keeps: those without an ignored path component.
pub open spec fn kept_entries(entries: Seq<ScanEntry>) -> Seq<ScanEntry> {
    entries.filter(|e: ScanEntry| !has_ignored_component(e.relative_path@))
}

/// The byte total of a run of entries.
pub open spec fn sizes_total(entries: Seq<ScanEntry>) -> int
    decreases entries.len(),
{
    if entries.len() == 0 {
        0
    } else {
        sizes_total(entries.drop_last()) + entries.last().size
    }
}

/// How many of the kept entries name markdown documents.
pub open spec fn markdown_total(entries: Seq<ScanEntry>) -> int
    decreases entries.len(),
{
    if entries.len() == 0 {
        0
    } else {
        markdown_total(entries.drop_last()) + (if is_markdown_path(
            entries.last().relative_path@,
        ) {
            1int
        } else {
            0int
        })
    }
}

/// Summarize a repository walk: entries under ignored directories are
/// dropped, every kept file is classified and counted, and the byte
/// total is accumulated (it must fit the counter).
#[verifier::loop_isolation(false)]
#[verifier::rlimit(60)]
pub fn scan_repository(entries: Vec<ScanEntry>) -> (r: Result<ScanResult, crate::errors::AutonavError>)
    ensures
        r matches Ok(scan) ==> {
            let kept = kept_entries(entries@);
            &&& scan.files@.len() == kept.len()
            &&& scan.total_files == kept.len()
            &&& forall|i: int|
                0 <= i < kept.len() ==> {
                    &&& (#[trigger] scan.files@[i]).path == kept[i].path
                    &&& scan.files@[i].relative_path == kept[i].relative_path
                    &&& scan.files@[i].size == kept[i].size
                    &&& scan.files@[i].is_markdown == is_markdown_path(kept[i].relative_path@)
                }
            &&& scan.markdown_files == markdown_total(kept)
            &&& scan.total_size == sizes_total(kept)
        },
        r is Err ==> sizes_total(kept_entries(entries@)) > u64::MAX,
{
    let ghost orig = entries@;
    let mut rest = entries;
    let n0 = rest.len();
    let mut files: Vec<FileInfo> = Vec::new();
    let mut total_size: u64 = 0;
    let mut markdown_count: usize = 0;
    proof {
        reveal_with_fuel(Seq::<ScanEntry>::filter, 2);
        assert(orig.subrange(0, 0) =~= Seq::<ScanEntry>::empty());
        assert(orig.subrange(0, orig.len() as int) =~= orig);
    }
    let ghost mut processed: Seq<ScanEntry> = Seq::empty();
    loop
        invariant
            rest@.len() <= orig.len(),
            rest@ =~= orig.subrange(orig.len() - rest@.len(), orig.len() as int),
            processed =~= orig.subrange(0, orig.len() - rest@.len()),
            files@.len() == kept_entries(processed).len(),
            forall|i: int|
                0 <= i < kept_entries(processed).len() ==> {
                    &&& (#[trigger] files@[i]).path == kept_entries(processed)[i].path
                    &&& files@[i].relative_path == kept_entries(processed)[i].relative_path
                    &&& files@[i].size == kept_entries(processed)[i].size
                    &&& files@[i].is_markdown == is_markdown_path(
                        kept_entries(processed)[i].relative_path@,
                    )
                },
            markdown_count == markdown_total(kept_entries(processed)),
            markdown_count <= files@.len(),
            total_size == sizes_total(kept_entries(processed)),
            files@.len() <= orig.len() - rest@.len(),
            n0 == orig.len(),
        decreases rest@.len(),
    {
        let ghost before = rest@;
        if rest.len() == 0 {
            break;
        }
        let entry = rest.remove(0);
        proof {
            assert(before[0] == entry);
            assert(rest@ =~= before.drop_first());
        }
        let ghost processed1 = processed.push(entry);
        proof {
            assert(processed1 =~= orig.subrange(0, orig.len() - rest@.len()));
            reveal_with_fuel(Seq::<ScanEntry>::filter, 2);
            assert(processed1.drop_last() =~= processed);
            assert(processed1.last() == entry);
        }
        let keep = !has_ignored_component_exec(entry.relative_path.as_str());
        if keep {
            proof {
                assert(kept_entries(processed1) =~= kept_entries(processed).push(entry));
                assert(kept_entries(processed1).drop_last() =~= kept_entries(processed));
            }
            let is_md = is_markdown_exec(entry.relative_path.as_str());
            if total_size > 18446744073709551615u64 - entry.size {
                proof {
                    lemma_sizes_grow(orig, processed1, kept_entries(processed1));
                }
                return Err(
                    crate::errors::AutonavError::IoError(
                        String::from_str("size total out of range"),
                    ),
                );
            }
            total_size = total_size + entry.size;
            if is_md {
                markdown_count = markdown_count + 1;
            }
            files.push(
                FileInfo {
                    path: entry.path,
                    relative_path: entry.relative_path,
                    size: entry.size,
                    is_markdown: is_md,
                },
            );
        } else {
            proof {
                assert(kept_entries(processed1) =~= kept_entries(processed));
            }
        }
        proof {
            processed = processed1;
        }
    }
    proof {
        assert(processed =~= orig);
    }
    let total_files = files.len();
    Ok(ScanResult { files, total_files, total_size, markdown_files: markdown_count })
}

proof fn lemma_sizes_grow(orig: Seq<ScanEntry>, processed: Seq<ScanEntry>, kept: Seq<ScanEntry>)
    requires
        processed =~= orig.subrange(0, processed.len() as int),
        processed.len() <= orig.len(),
        kept == kept_entries(processed),
    ensures
        sizes_total(kept_entries(orig)) >= sizes_total(kept),
    decreases orig.len() - processed.len(),
{
    if processed.len() < orig.len() {
        let processed1 = orig.subrange(0, processed.len() as int + 1);
        assert(processed1.drop_last() =~= processed);
        assert(processed1.last() == orig[processed.len() as int]);
        reveal_with_fuel(Seq::<ScanEntry>::filter, 2);
        if !has_ignored_component(processed1.last().relative_path@) {
            assert(kept_entries(processed1) == kept_entries(processed).push(processed1.last()));
            assert(kept_entries(processed1).drop_last() =~= kept_entries(processed));
            assert(sizes_total(kept_entries(processed1)) == sizes_total(kept_entries(processed))
                + processed1.last().size);
        } else {
            assert(kept_entries(processed1) == kept_entries(processed));
        }
        lemma_sizes_grow(orig, processed1, kept_entries(processed1));
    } else {
        assert(processed =~= orig);
    }
}

/// Last slash of a path, if any.
pub open spec fn last_slash(s: Seq<char>) -> Option<int>
    decreases s.len(),
{
    if s.len() == 0 {
        None
    } else if s.last() == '/' {
        Some(s.len() - 1)
    } else {
        last_slash(s.drop_last())
    }
}

/// A path's parent directory text: up to the last slash, or empty.
pub open spec fn parent_dir(s: Seq<char>) -> Seq<char> {
    match last_slash(s) {
        Some(i) => s.subrange(0, i),
        None => Seq::empty(),
    }
}

#[verifier::loop_isolation(false)]
fn parent_dir_exec(s: &str) -> (r: String)
    ensures
        r@ == parent_dir(s@),
{
    let n = s.unicode_len();
    proof {
        assert(s@.subrange(0, n as int) =~= s@);
    }
    let mut i: usize = n;
    while i > 0
        invariant
            i <= n,
            n == s@.len(),
            last_slash(s@) == last_slash(s@.subrange(0, i as int)),
        decreases i,
    {
        proof {
            assert(s@.subrange(0, i as int).last() == s@[i - 1]);
            assert(s@.subrange(0, i as int).drop_last() =~= s@.subrange(0, i - 1));
        }
        if s.get_char(i - 1) == '/' {
            proof {
                assert(last_slash(s@.subrange(0, i as int)) == Some(i - 1));
            }
            return String::from_str(s.substring_char(0, i - 1));
        }
        i -= 1;
    }
    proof {
        assert(s@.subrange(0, 0) =~= Seq::<char>::empty());
        assert(last_slash(s@) is None);
    }
    String::new()
}

/// Whether a parent directory looks like a documentation directory.
pub open spec fn is_doc_dir(p: Seq<char>) -> bool {
    ||| starts_with(p, "docs"@)
    ||| starts_with(p, "doc"@)
    ||| starts_with(p, "documentation"@)
    ||| starts_with(p, "wiki"@)
    ||| starts_with(p, "knowledge"@)
    ||| starts_with(p, "guides"@)
}

fn is_doc_dir_exec(p: &str) -> (r: bool)
    ensures
        r == is_doc_dir(p@),
{
    crate::file_watcher::starts_with_exec(p, "docs") || crate::file_watcher::starts_with_exec(
        p,
        "doc",
    ) || crate::file_watcher::starts_with_exec(p, "documentation")
        || crate::file_watcher::starts_with_exec(p, "wiki")
        || crate::file_watcher::starts_with_exec(p, "knowledge")
        || crate::file_watcher::starts_with_exec(p, "guides")
}

/// The documentation directories suggested from a scan: the distinct
/// documentation-style parents of markdown files, in first-seen order.
pub open spec fn suggested_dirs(files: Seq<FileInfo>, seen: Seq<Seq<char>>) -> Seq<Seq<char>>
    decreases files.len(),
{
    if files.len() == 0 {
        Seq::empty()
    } else {
        let p = parent_dir(files[0].relative_path@);
        if files[0].is_markdown && is_doc_dir(p) && !crate::file_watcher::seen_has(seen, p) {
            seq![p] + suggested_dirs(files.drop_first(), seen.push(p))
        } else {
            suggested_dirs(files.drop_first(), seen)
        }
    }
}

/// Suggest knowledge-base directories from a scan: the distinct
/// documentation-style parents of markdown files, or the repository
/// root when markdown exists nowhere else.
#[verifier::loop_isolation(false)]
#[verifier::rlimit(60)]
pub fn suggest_knowledge_paths(scan: &ScanResult) -> (r: Vec<String>)
    ensures
        ({
            let base = suggested_dirs(scan.files@, Seq::empty());
            if base.len() == 0 && scan.markdown_files > 0 {
                views_of(r@) =~= seq!["."@]
            } else {
                views_of(r@) == base
            }
        }),
{
    let n = scan.files.len();
    let mut out: Vec<String> = Vec::new();
    let mut seen: Vec<String> = Vec::new();
    proof {
        assert(scan.files@.subrange(0, n as int) =~= scan.files@);
        assert(views_of(seen@) =~= Seq::<Seq<char>>::empty());
        assert(views_of(out@) + suggested_dirs(scan.files@, views_of(seen@)) =~= suggested_dirs(
            scan.files@,
            Seq::empty(),
        ));
    }
    let mut i: usize = 0;
    while i < n
        invariant
            i <= n,
            n == scan.files@.len(),
            suggested_dirs(scan.files@, Seq::empty()) =~= views_of(out@) + suggested_dirs(
                scan.files@.subrange(i as int, n as int),
                views_of(seen@),
            ),
        decreases n - i,
    {
        let ghost remaining = scan.files@.subrange(i as int, n as int);
        proof {
            assert(remaining[0] == scan.files@[i as int]);
            assert(remaining.drop_first() =~= scan.files@.subrange(i + 1, n as int));
        }
        let f = &scan.files[i];
        if f.is_markdown {
            let parent = parent_dir_exec(f.relative_path.as_str());
            if is_doc_dir_exec(parent.as_str()) {
                let mut already = false;
                let m = seen.len();
                let mut j: usize = 0;
                while j < m
                    invariant
                        m == seen@.len(),
                        j <= m,
                        already ==> crate::file_watcher::seen_has(views_of(seen@), parent@),
                        !already ==> forall|k: int|
                            0 <= k < j ==> (#[trigger] seen@[k])@ != parent@,
                    decreases m - j,
                {
                    if crate::strutil::str_eq(seen[j].as_str(), parent.as_str()) {
                        already = true;
                        proof {
                            assert(views_of(seen@)[j as int] == parent@);
                        }
                        break;
                    }
                    j += 1;
                }
                proof {
                    if !already {
                        assert forall|k: int|
                            0 <= k < views_of(seen@).len() implies views_of(seen@)[k]
                            != parent@ by {
                            assert(views_of(seen@)[k] == seen@[k]@);
                        }
                        assert(!crate::file_watcher::seen_has(views_of(seen@), parent@));
                    }
                }
                if !already {
                    let ghost seen_before = views_of(seen@);
                    let ghost out_before = out@;
                    seen.push(parent.clone());
                    out.push(parent);
                    proof {
                        crate::strutil::lemma_views_of_push(seen@.drop_last(), seen@.last());
                        assert(seen@.drop_last() =~= seen@.subrange(0, seen@.len() - 1));
                        assert(views_of(seen@) =~= seen_before.push(out@.last()@));
                        crate::strutil::lemma_views_of_push(out_before, out@.last());
                        assert(out@ =~= out_before.push(out@.last()));
                    }
                }
            }
        }
        i += 1;
    }
    proof {
        assert(suggested_dirs(scan.files@.subrange(n as int, n as int), views_of(seen@))
            == Seq::<Seq<char>>::empty());
        assert(views_of(out@) =~= suggested_dirs(scan.files@, Seq::empty()));
    }
    if out.len() == 0 {
        let has_markdown = scan.markdown_files > 0;
        if has_markdown {
            let mut root: Vec<String> = Vec::new();
            root.push(String::from_str("."));
            proof {
                assert(views_of(root@) =~= seq!["."@]);
            }
            return root;
        }
    }
    proof {
        if out@.len() == 0 {
            assert(views_of(out@) =~= Seq::<Seq<char>>::empty());
        }
    }
    out
}

} // verus!
