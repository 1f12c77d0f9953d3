use vstd::prelude::*;

verus! {

/// Default knowledge pack server.
pub const DEFAULT_PACK_SERVER: &'static str = "https://packs.autonav.dev";

/// The components of a source location on the code-hosting service.
#[derive(Debug)]
pub struct GitHubUrl {
    pub owner: String,
    pub repo: String,
    pub path: String,
    pub branch: Option<String>,
}

/// Index of the first occurrence of `c` at or after `from`.
pub open spec fn find_char_idx(s: Seq<char>, from: int, c: char) -> Option<int>
    decreases s.len() - from,
{
    if from < 0 || from >= s.len() {
        None
    } else if s[from] == c {
        Some(from)
    } else {
        find_char_idx(s, from + 1, c)
    }
}

pub proof fn lemma_find_char_bounds(s: Seq<char>, from: int, c: char)
    requires
        0 <= from,
    ensures
        find_char_idx(s, from, c) matches Some(i) ==> from <= i < s.len() && s[i] == c && (
        forall|j: int| from <= j < i ==> s[j] != c),
        find_char_idx(s, from, c) is None ==> forall|j: int| from <= j < s.len() ==> s[j] != c,
    decreases s.len() - from,
{
    if from < s.len() && s[from] != c {
        lemma_find_char_bounds(s, from + 1, c);
    }
}

pub proof fn lemma_find_char_fixed(s: Seq<char>, from: int, c: char, i: int)
    requires
        0 <= from <= i <= s.len(),
        forall|j: int| from <= j < i ==> s[j] != c,
        i < s.len() ==> s[i] == c,
    ensures
        find_char_idx(s, from, c) == if i < s.len() {
            Some(i)
        } else {
            None::<int>
        },
    decreases i - from,
{
    if from < i {
        lemma_find_char_fixed(s, from + 1, c, i);
    }
}

#[verifier::loop_isolation(false)]
pub fn find_char(s: &str, from: usize, c: char) -> (r: Option<usize>)
    requires
        from <= s@.len(),
    ensures
        match r {
            Some(i) => find_char_idx(s@, from as int, c) == Some(i as int),
            None => find_char_idx(s@, from as int, c) is None,
        },
{
    let n = s.unicode_len();
    let mut i: usize = from;
    while i < n
        invariant
            from <= i <= n,
            n == s@.len(),
            find_char_idx(s@, from as int, c) == find_char_idx(s@, i as int, c),
        decreases n - i,
    {
        if s.get_char(i) == c {
            proof {
                assert(find_char_idx(s@, i as int, c) == Some(i as int));
            }
            return Some(i);
        }
        i += 1;
    }
    proof {
        assert(find_char_idx(s@, n as int, c) is None);
    }
    None
}

/// Index of the `@` that splits a shorthand tail into path and branch:
/// the first `@` that leaves a non-empty path before it and a non-empty
/// branch after it.
pub open spec fn at_split(tail: Seq<char>, from: int) -> Option<int>
    decreases tail.len() - from,
{
    if from < 1 || from + 1 >= tail.len() {
        None
    } else if tail[from] == '@' {
        Some(from)
    } else {
        at_split(tail, from + 1)
    }
}

proof fn lemma_at_split_fixed(tail: Seq<char>, from: int, i: int)
    requires
        1 <= from <= i,
        i + 1 <= tail.len(),
        forall|j: int| from <= j < i ==> tail[j] != '@',
        i + 1 < tail.len() ==> tail[i] == '@',
    ensures
        at_split(tail, from) == if i + 1 < tail.len() {
            Some(i)
        } else {
            None::<int>
        },
    decreases i - from,
{
    if from < i {
        lemma_at_split_fixed(tail, from + 1, i);
    }
}

#[verifier::loop_isolation(false)]
fn find_at_split(tail: &str) -> (r: Option<usize>)
    ensures
        match r {
            Some(i) => at_split(tail@, 1) == Some(i as int),
            None => at_split(tail@, 1) is None,
        },
{
    let n = tail.unicode_len();
    if n < 3 {
        proof {
            if at_split(tail@, 1) matches Some(i) {
                lemma_at_split_bounds(tail@, 1);
            }
        }
        return None;
    }
    let mut i: usize = 1;
    while i + 1 < n
        invariant
            1 <= i,
            i + 1 <= n,
            n == tail@.len(),
            at_split(tail@, 1) == at_split(tail@, i as int),
        decreases n - i,
    {
        if tail.get_char(i) == '@' {
            proof {
                assert(at_split(tail@, i as int) == Some(i as int));
            }
            return Some(i);
        }
        i += 1;
    }
    proof {
        assert(at_split(tail@, i as int) is None);
    }
    None
}

proof fn lemma_at_split_bounds(tail: Seq<char>, from: int)
    requires
        1 <= from,
    ensures
        at_split(tail, from) matches Some(i) ==> from <= i && i + 1 < tail.len() && tail[i] == '@',
    decreases tail.len() - from,
{
    if from + 1 < tail.len() && tail[from] != '@' {
        lemma_at_split_bounds(tail, from + 1);
    }
}

/// What parsing an `owner/repo/path`-style remainder yields: the owner
/// and repository segments may hold anything but a slash and must be
/// non-empty, the path takes the (non-empty) rest.
pub open spec fn parse_segments(rest: Seq<char>) -> Option<(Seq<char>, Seq<char>, Seq<char>)> {
    match find_char_idx(rest, 0, '/') {
        None => None,
        Some(i) => if i == 0 {
            None
        } else {
            match find_char_idx(rest, i + 1, '/') {
                None => None,
                Some(j) => if j == i + 1 || j + 1 >= rest.len() {
                    None
                } else {
                    Some(
                        (
                            rest.subrange(0, i),
                            rest.subrange(i + 1, j),
                            rest.subrange(j + 1, rest.len() as int),
                        ),
                    )
                },
            }
        },
    }
}

/// What parsing a `github:` shorthand remainder yields: segments, with
/// the path split at the first usable `@` into path and branch.
pub open spec fn parse_shorthand(rest: Seq<char>) -> Option<
    (Seq<char>, Seq<char>, Seq<char>, Option<Seq<char>>),
> {
    match parse_segments(rest) {
        None => None,
        Some((owner, repo, tail)) => match at_split(tail, 1) {
            Some(k) => Some(
                (owner, repo, tail.subrange(0, k), Some(tail.subrange(k + 1, tail.len() as int))),
            ),
            None => Some((owner, repo, tail, None)),
        },
    }
}

/// What parsing a full web URL remainder (after the host prefix)
/// yields: owner, repo, the literal `tree` segment, a branch segment,
/// and the path.
pub open spec fn parse_tree_url(rest: Seq<char>) -> Option<
    (Seq<char>, Seq<char>, Seq<char>, Option<Seq<char>>),
> {
    match parse_segments(rest) {
        None => None,
        Some((owner, repo, tail)) => {
            // tail must be tree/<branch>/<path>
            match find_char_idx(tail, 0, '/') {
                None => None,
                Some(t) => if tail.subrange(0, t) != "tree"@ {
                    None
                } else {
                    match find_char_idx(tail, t + 1, '/') {
                        None => None,
                        Some(b) => if b == t + 1 || b + 1 >= tail.len() {
                            None
                        } else {
                            Some(
                                (
                                    owner,
                                    repo,
                                    tail.subrange(b + 1, tail.len() as int),
                                    Some(tail.subrange(t + 1, b)),
                                ),
                            )
                        },
                    }
                },
            }
        },
    }
}

/// What parsing any supported source URL yields.
pub open spec fn parse_github_url_spec(s: Seq<char>) -> Option<
    (Seq<char>, Seq<char>, Seq<char>, Option<Seq<char>>),
> {
    if crate::file_watcher::starts_with(s, "https://github.com/"@) {
        parse_tree_url(s.subrange(19, s.len() as int))
    } else if crate::file_watcher::starts_with(s, "http://github.com/"@) {
        parse_tree_url(s.subrange(18, s.len() as int))
    } else if crate::file_watcher::starts_with(s, "github:"@) {
        parse_shorthand(s.subrange(7, s.len() as int))
    } else if crate::file_watcher::starts_with(s, "git@github.com:"@) {
        match parse_segments(s.subrange(15, s.len() as int)) {
            None => None,
            Some((owner, repo, path)) => Some((owner, repo, path, None)),
        }
    } else {
        None
    }
}

/// The views of a parsed URL value.
pub open spec fn url_views(u: GitHubUrl) -> (Seq<char>, Seq<char>, Seq<char>, Option<Seq<char>>) {
    (
        u.owner@,
        u.repo@,
        u.path@,
        match u.branch {
            Some(b) => Some(b@),
            None => None,
        },
    )
}

#[verifier::loop_isolation(false)]
fn parse_segments_exec(rest: &str) -> (r: Option<(String, String, String)>)
    ensures
        match r {
            Some(t) => parse_segments(rest@) == Some((t.0@, t.1@, t.2@)),
            None => parse_segments(rest@) is None,
        },
{
    let n = rest.unicode_len();
    let i = match find_char(rest, 0, '/') {
        Some(i) => i,
        None => {
            return None;
        },
    };
    proof {
        lemma_find_char_bounds(rest@, 0, '/');
    }
    if i == 0 {
        return None;
    }
    let j = match find_char(rest, i + 1, '/') {
        Some(j) => j,
        None => {
            return None;
        },
    };
    proof {
        lemma_find_char_bounds(rest@, i + 1, '/');
    }
    if j == i + 1 || j + 1 >= n {
        return None;
    }
    let owner = String::from_str(rest.substring_char(0, i));
    let repo = String::from_str(rest.substring_char(i + 1, j));
    let tail = String::from_str(rest.substring_char(j + 1, n));
    Some((owner, repo, tail))
}

/// Parse a pack source in any of the three supported shapes: the full
/// web URL with a `tree/<branch>` segment, the `github:` shorthand with
/// an optional `@<branch>` suffix, and the ssh-style form.
pub fn parse_github_url(input: &str) -> (r: Option<GitHubUrl>)
    ensures
        match r {
            Some(u) => parse_github_url_spec(input@) == Some(url_views(u)),
            None => parse_github_url_spec(input@) is None,
        },
{
    let n = input.unicode_len();
    let (https, prefix_len): (bool, usize) = if crate::file_watcher::starts_with_exec(
        input,
        "https://github.com/",
    ) {
        (true, 19)
    } else if crate::file_watcher::starts_with_exec(input, "http://github.com/") {
        (true, 18)
    } else {
        (false, 0)
    };
    if https {
        proof {
            reveal_strlit("https://github.com/");
            reveal_strlit("http://github.com/");
            assert("https://github.com/"@.len() == 19);
            assert("http://github.com/"@.len() == 18);
        }
        let rest = String::from_str(input.substring_char(prefix_len, n));
        let (owner, repo, tail) = match parse_segments_exec(rest.as_str()) {
            Some(t) => t,
            None => {
                return None;
            },
        };
        let m = tail.as_str().unicode_len();
        let t = match find_char(tail.as_str(), 0, '/') {
            Some(t) => t,
            None => {
                return None;
            },
        };
        proof {
            lemma_find_char_bounds(tail@, 0, '/');
        }
        if !crate::strutil::str_eq(tail.as_str().substring_char(0, t), "tree") {
            return None;
        }
        let b = match find_char(tail.as_str(), t + 1, '/') {
            Some(b) => b,
            None => {
                return None;
            },
        };
        proof {
            lemma_find_char_bounds(tail@, t + 1, '/');
        }
        if b == t + 1 || b + 1 >= m {
            return None;
        }
        return Some(
            GitHubUrl {
                owner,
                repo,
                path: String::from_str(tail.as_str().substring_char(b + 1, m)),
                branch: Some(String::from_str(tail.as_str().substring_char(t + 1, b))),
            },
        );
    }
    if crate::file_watcher::starts_with_exec(input, "github:") {
        proof {
            reveal_strlit("github:");
            assert("github:"@.len() == 7);
        }
        let rest = String::from_str(input.substring_char(7, n));
        let (owner, repo, tail) = match parse_segments_exec(rest.as_str()) {
            Some(t) => t,
            None => {
                return None;
            },
        };
        let m = tail.as_str().unicode_len();
        match find_at_split(tail.as_str()) {
            Some(k) => {
                proof {
                    lemma_at_split_bounds(tail@, 1);
                }
                return Some(
                    GitHubUrl {
                        owner,
                        repo,
                        path: String::from_str(tail.as_str().substring_char(0, k)),
                        branch: Some(String::from_str(tail.as_str().substring_char(k + 1, m))),
                    },
                );
            },
            None => {
                return Some(GitHubUrl { owner, repo, path: tail, branch: None });
            },
        }
    }
    if crate::file_watcher::starts_with_exec(input, "git@github.com:") {
        proof {
            reveal_strlit("git@github.com:");
            assert("git@github.com:"@.len() == 15);
        }
        let rest = String::from_str(input.substring_char(15, n));
        let (owner, repo, path) = match parse_segments_exec(rest.as_str()) {
            Some(t) => t,
            None => {
                return None;
            },
        };
        return Some(GitHubUrl { owner, repo, path, branch: None });
    }
    None
}

/// Render a parsed source back into the `github:` shorthand.
pub fn format_github_shorthand(u: &GitHubUrl) -> (r: String)
    ensures
        r@ == shorthand_text(url_views(*u)),
{
    let mut out = String::from_str("github:");
    out.append(u.owner.as_str());
    out.append("/");
    out.append(u.repo.as_str());
    out.append("/");
    out.append(u.path.as_str());
    match &u.branch {
        Some(b) => {
            out.append("@");
            out.append(b.as_str());
        },
        None => {},
    }
    out
}

/// The shorthand text of a parsed source's components.
pub open spec fn shorthand_text(t: (Seq<char>, Seq<char>, Seq<char>, Option<Seq<char>>)) -> Seq<
    char,
> {
    "github:"@ + t.0 + "/"@ + t.1 + "/"@ + t.2 + (match t.3 {
        Some(b) => "@"@ + b,
        None => Seq::empty(),
    })
}

/// Parsing a rendered `owner/repo/path@branch` shorthand gives the same
/// owner, repository, path and branch back: the shorthand round-trips,
/// for every owner and repository without slashes, every path without a
/// usable `@`, and every non-empty branch.
#[verifier::rlimit(100)]
pub proof fn lemma_shorthand_round_trip(
    owner: Seq<char>,
    repo: Seq<char>,
    path: Seq<char>,
    branch: Option<Seq<char>>,
)
    requires
        owner.len() > 0,
        forall|i: int| 0 <= i < owner.len() ==> owner[i] != '/',
        repo.len() > 0,
        forall|i: int| 0 <= i < repo.len() ==> repo[i] != '/',
        path.len() > 0,
        forall|i: int| 0 <= i < path.len() ==> path[i] != '@',
        branch matches Some(b) ==> b.len() > 0,
    ensures
        parse_github_url_spec(shorthand_text((owner, repo, path, branch))) == Some(
            (owner, repo, path, branch),
        ),
{
    reveal_strlit("github:");
    reveal_strlit("https://github.com/");
    reveal_strlit("http://github.com/");
    reveal_strlit("git@github.com:");
    reveal_strlit("/");
    reveal_strlit("@");
    let s = shorthand_text((owner, repo, path, branch));
    assert("github:"@.len() == 7);
    assert("/"@.len() == 1);
    assert("@"@.len() == 1);
    let tail = path + (match branch {
        Some(b) => "@"@ + b,
        None => Seq::<char>::empty(),
    });
    let rest = owner + "/"@ + repo + "/"@ + tail;
    assert(s =~= "github:"@ + rest);
    // the shorthand prefix rules the other shapes out
    assert(s[0] == 'g');
    assert(!crate::file_watcher::starts_with(s, "https://github.com/"@)) by {
        assert(crate::file_watcher::starts_with(s, "https://github.com/"@) ==> s.subrange(
            0,
            19,
        )[0] == 'h');
    }
    assert(!crate::file_watcher::starts_with(s, "http://github.com/"@)) by {
        assert(crate::file_watcher::starts_with(s, "http://github.com/"@) ==> s.subrange(0, 18)[0]
            == 'h');
    }
    assert(s[3] == 'h');
    assert(!crate::file_watcher::starts_with(s, "git@github.com:"@)) by {
        assert(crate::file_watcher::starts_with(s, "git@github.com:"@) ==> s.subrange(0, 15)[3]
            == '@');
    }
    assert(crate::file_watcher::starts_with(s, "github:"@)) by {
        assert(s.subrange(0, 7) =~= "github:"@);
    }
    assert(s.subrange(7, s.len() as int) =~= rest);
    // segment split: the first two slashes bound owner and repo
    let i = owner.len() as int;
    let j = i + 1 + repo.len();
    assert(rest[i] == '/');
    assert forall|x: int| 0 <= x < i implies rest[x] != '/' by {
        assert(rest[x] == owner[x]);
    }
    lemma_find_char_fixed(rest, 0, '/', i);
    assert(rest[j] == '/');
    assert forall|x: int| i + 1 <= x < j implies rest[x] != '/' by {
        assert(rest[x] == repo[x - i - 1]);
    }
    lemma_find_char_fixed(rest, i + 1, '/', j);
    assert(rest.subrange(0, i) =~= owner);
    assert(rest.subrange(i + 1, j) =~= repo);
    assert(rest.subrange(j + 1, rest.len() as int) =~= tail);
    assert(tail.len() > 0);
    assert(j + 1 < rest.len());
    assert(parse_segments(rest) == Some((owner, repo, tail)));
    // branch split at the first usable `@`
    match branch {
        Some(b) => {
            let k = path.len() as int;
            assert(tail[k] == '@');
            assert forall|x: int| 1 <= x < k implies tail[x] != '@' by {
                assert(tail[x] == path[x]);
            }
            assert(k + 1 < tail.len());
            lemma_at_split_fixed(tail, 1, k);
            assert(at_split(tail, 1) == Some(k));
            assert(tail.subrange(0, k) =~= path);
            assert(tail.subrange(k + 1, tail.len() as int) =~= b);
        },
        None => {
            assert(tail =~= path);
            assert forall|x: int| 1 <= x < tail.len() implies tail[x] != '@' by {
                assert(tail[x] == path[x]);
            }
            if tail.len() > 1 {
                lemma_at_split_fixed(tail, 1, tail.len() - 1);
            }
            assert(at_split(tail, 1) is None);
        },
    }
}

/// How a pack source is to be installed: a local archive, a source
/// location on the code-hosting service, or a named pack on the pack
/// server.
#[derive(Debug)]
pub enum InstallSource {
    LocalFile,
    GitHub(GitHubUrl),
    Server,
}

/// The knowledge pack installer: where it downloads named packs from.
/// The archive extraction and the downloads themselves run outside.
#[derive(Debug)]
pub struct PackInstaller {
    pub server_url: String,
}

impl PackInstaller {
    /// An installer against the default pack server.
    pub fn new() -> (r: PackInstaller)
        ensures
            r.server_url@ == DEFAULT_PACK_SERVER@,
    {
        PackInstaller { server_url: String::from_str(DEFAULT_PACK_SERVER) }
    }

    /// An installer against a custom pack server.
    pub fn with_server(server_url: &str) -> (r: PackInstaller)
        ensures
            r.server_url@ == server_url@,
    {
        PackInstaller { server_url: String::from_str(server_url) }
    }

    /// The download location of a pack: a named version, or the latest.
    pub fn pack_download_url(&self, pack_name: &str, version: Option<&str>) -> (r: String)
        ensures
            r@ == self.server_url@ + "/packs/"@ + pack_name@ + "/"@ + (match version {
                Some(v) => v@,
                None => "latest"@,
            }),
    {
        let mut out = self.server_url.clone();
        out.append("/packs/");
        out.append(pack_name);
        out.append("/");
        match version {
            Some(v) => out.append(v),
            None => out.append("latest"),
        }
        out
    }

    /// The contents-listing location for a directory of a repository.
    pub fn github_contents_url(&self, owner: &str, repo: &str, path: &str, branch: &str) -> (r:
        String)
        ensures
            r@ == "https://api.github.com/repos/"@ + owner@ + "/"@ + repo@ + "/contents/"@ + path@
                + "?ref="@ + branch@,
    {
        let mut out = String::from_str("https://api.github.com/repos/");
        out.append(owner);
        out.append("/");
        out.append(repo);
        out.append("/contents/");
        out.append(path);
        out.append("?ref=");
        out.append(branch);
        out
    }

    /// Decide how a source is installed: an existing `.gz` file is a
    /// local archive, a parsable source URL points at the code-hosting
    /// service, anything else names a pack on the server.
    pub fn classify_install_source(&self, source: &str, is_gz_file: bool) -> (r: InstallSource)
        ensures
            is_gz_file ==> r is LocalFile,
            (!is_gz_file && parse_github_url_spec(source@) is Some) ==> (r matches
                InstallSource::GitHub(u) && parse_github_url_spec(source@) == Some(url_views(u))),
            (!is_gz_file && parse_github_url_spec(source@) is None) ==> r is Server,
    {
        if is_gz_file {
            return InstallSource::LocalFile;
        }
        match parse_github_url(source) {
            Some(u) => InstallSource::GitHub(u),
            None => InstallSource::Server,
        }
    }
}

} // verus!
