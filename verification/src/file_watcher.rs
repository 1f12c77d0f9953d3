use vstd::prelude::*;
use crate::errors::PluginError;
use crate::plugin::{ActionResult, PluginAction, PluginEvent, PluginHealthStatus};
use crate::plugins_config::FileWatcherConfig;
use crate::strutil::views_of;

verus! {

#[verifier::external_type_specification]
#[verifier::external_body]
pub struct ExGlobSet(globset::GlobSet);

/// The patterns a compiled glob set was built from.
pub uninterp spec fn glob_set_view(g: globset::GlobSet) -> Seq<Seq<char>>;

/// Whether any of the patterns matches the path; the answer depends on
/// the patterns and the path alone. Patterns are read with the glob
/// builder's defaults, so backslash handling follows the platform the
/// build targets.
pub uninterp spec fn glob_match(patterns: Seq<Seq<char>>, path: Seq<char>) -> bool;

/// Whether a pattern list compiles into a glob set; compilation is a
/// function of the pattern texts alone.
pub uninterp spec fn glob_compiles(patterns: Seq<Seq<char>>) -> bool;

/// Relies on globset's GlobSetBuilder: each pattern is compiled with
/// Glob::new and the set matches a path exactly when one of its globs
/// does; whether the build succeeds depends on the pattern texts alone,
/// and a malformed pattern fails it.
#[verifier::external_body]
pub fn build_glob_set(patterns: &Vec<String>) -> (r: Result<globset::GlobSet, PluginError>)
    ensures
        r is Ok <==> glob_compiles(views_of(patterns@)),
        r matches Ok(g) ==> glob_set_view(g) == views_of(patterns@),
        r is Err ==> r->Err_0 is ConfigError,
{
    let mut builder = globset::GlobSetBuilder::new();
    for pattern in patterns {
        match globset::Glob::new(pattern) {
            Ok(glob) => {
                builder.add(glob);
            },
            Err(e) => {
                return Err(PluginError::ConfigError(e.to_string()));
            },
        }
    }
    builder.build().map_err(|e| PluginError::ConfigError(e.to_string()))
}

/// Relies on globset's GlobSet::is_match, a pure function of the set's
/// patterns and the path.
#[verifier::external_body]
pub fn glob_set_matches(g: &globset::GlobSet, path: &str) -> (r: bool)
    ensures
        r == glob_match(glob_set_view(*g), path@),
{
    g.is_match(path)
}

/// Whether `p` is a prefix of `s`.
pub open spec fn starts_with(s: Seq<char>, p: Seq<char>) -> bool {
    p.len() <= s.len() && s.subrange(0, p.len() as int) == p
}

#[verifier::loop_isolation(false)]
pub fn starts_with_exec(s: &str, p: &str) -> (r: bool)
    ensures
        r == starts_with(s@, p@),
{
    let n = s.unicode_len();
    let m = p.unicode_len();
    if m > n {
        return false;
    }
    let mut i: usize = 0;
    while i < m
        invariant
            m <= n,
            n == s@.len(),
            m == p@.len(),
            i <= m,
            forall|j: int| 0 <= j < i ==> s@[j] == p@[j],
        decreases m - i,
    {
        if s.get_char(i) != p.get_char(i) {
            proof {
                assert(s@.subrange(0, m as int)[i as int] == s@[i as int]);
            }
            return false;
        }
        i += 1;
    }
    proof {
        assert(s@.subrange(0, m as int) =~= p@);
    }
    true
}

/// A leading `~` (alone or before a slash) replaced by the home
/// directory; anything else passes through unchanged.
pub open spec fn expand_tilde_spec(p: Seq<char>, home: Seq<char>) -> Seq<char> {
    if p.len() == 1 && p[0] == '~' {
        home
    } else if p.len() >= 2 && p[0] == '~' && p[1] == '/' {
        home + p.subrange(1, p.len() as int)
    } else {
        p
    }
}

/// Expand a leading `~` to the home directory the caller resolved.
pub fn expand_tilde(p: &str, home: &str) -> (r: String)
    ensures
        r@ == expand_tilde_spec(p@, home@),
{
    let n = p.unicode_len();
    if n == 1 && p.get_char(0) == '~' {
        return String::from_str(home);
    }
    if n >= 2 && p.get_char(0) == '~' && p.get_char(1) == '/' {
        let mut out = String::from_str(home);
        out.append(p.substring_char(1, n));
        return out;
    }
    String::from_str(p)
}

/// Whether a path (after `~` expansion) falls under one of the
/// sensitive locations this watcher refuses to watch.
pub open spec fn is_sensitive_spec(p: Seq<char>, home: Seq<char>) -> bool {
    let e = expand_tilde_spec(p, home);
    ||| starts_with(e, "/etc"@)
    ||| starts_with(e, "/root"@)
    ||| starts_with(e, "/var/log"@)
    ||| starts_with(e, home + "/.ssh"@)
    ||| starts_with(e, home + "/.aws"@)
    ||| starts_with(e, home + "/.gnupg"@)
    ||| starts_with(e, home + "/.config"@)
    ||| starts_with(e, "/proc"@)
    ||| starts_with(e, "/sys"@)
}

/// Check a path against the deny list of sensitive locations, with `~`
/// expanded against the caller-resolved home directory first.
pub fn is_sensitive_path(path: &str, home: &str) -> (r: bool)
    ensures
        r == is_sensitive_spec(path@, home@),
{
    let expanded = expand_tilde(path, home);
    let e = expanded.as_str();
    if starts_with_exec(e, "/etc") {
        return true;
    }
    if starts_with_exec(e, "/root") {
        return true;
    }
    if starts_with_exec(e, "/var/log") {
        return true;
    }
    let mut h = String::from_str(home);
    h.append("/.ssh");
    if starts_with_exec(e, h.as_str()) {
        return true;
    }
    let mut h = String::from_str(home);
    h.append("/.aws");
    if starts_with_exec(e, h.as_str()) {
        return true;
    }
    let mut h = String::from_str(home);
    h.append("/.gnupg");
    if starts_with_exec(e, h.as_str()) {
        return true;
    }
    let mut h = String::from_str(home);
    h.append("/.config");
    if starts_with_exec(e, h.as_str()) {
        return true;
    }
    if starts_with_exec(e, "/proc") {
        return true;
    }
    if starts_with_exec(e, "/sys") {
        return true;
    }
    false
}

/// One raw filesystem notification, as the watcher transport buffered
/// it.
#[derive(Debug)]
pub struct FsChange {
    pub kind: FsChangeKind,
    pub paths: Vec<String>,
}

/// The kinds of raw notification this watcher understands.
#[derive(Debug, Clone, Copy, PartialEq, Eq, Structural)]
pub enum FsChangeKind {
    Created,
    Modified,
    Removed,
    Other,
}

/// The file-watching plugin: configuration, compiled include and ignore
/// patterns, the buffer of raw notifications, and its lifecycle state.
/// The watcher transport itself runs outside and feeds the buffer.
#[derive(Debug)]
pub struct FileWatcherPlugin {
    pub config: FileWatcherConfig,
    pub include_patterns: Option<globset::GlobSet>,
    pub ignore_patterns: Option<globset::GlobSet>,
    pub events: Vec<FsChange>,
    pub initialized: bool,
}

/// The patterns of an optional compiled set.
pub open spec fn opt_glob_view(o: Option<globset::GlobSet>) -> Option<Seq<Seq<char>>> {
    match o {
        Some(g) => Some(glob_set_view(g)),
        None => None,
    }
}

/// Whether a path passes the include and ignore patterns: the ignore
/// set wins, and no include set means everything not ignored passes.
pub open spec fn include_spec(
    inc: Option<Seq<Seq<char>>>,
    ign: Option<Seq<Seq<char>>>,
    p: Seq<char>,
) -> bool {
    if ign matches Some(g) && glob_match(g, p) {
        false
    } else {
        match inc {
            Some(g) => glob_match(g, p),
            None => true,
        }
    }
}

/// Whether a seen-path list holds `p`.
pub open spec fn seen_has(seen: Seq<Seq<char>>, p: Seq<char>) -> bool {
    exists|i: int| 0 <= i < seen.len() && seen[i] == p
}

/// Drain one notification's paths: duplicates of already-seen paths are
/// dropped, filtered paths are dropped without being marked seen, and
/// each surviving path is marked seen and mapped by the notification's
/// kind (an unknown kind yields no event but still marks the path).
pub open spec fn drain_paths(
    kind: FsChangeKind,
    paths: Seq<String>,
    seen: Seq<Seq<char>>,
    inc: Option<Seq<Seq<char>>>,
    ign: Option<Seq<Seq<char>>>,
) -> (Seq<PluginEvent>, Seq<Seq<char>>)
    decreases paths.len(),
{
    if paths.len() == 0 {
        (Seq::empty(), seen)
    } else {
        let p = paths[0]@;
        if seen_has(seen, p) || !include_spec(inc, ign, p) {
            drain_paths(kind, paths.drop_first(), seen, inc, ign)
        } else {
            let rest = drain_paths(kind, paths.drop_first(), seen.push(p), inc, ign);
            let ev = match kind {
                FsChangeKind::Created => seq![PluginEvent::FileAdded { path: paths[0] }],
                FsChangeKind::Modified => seq![PluginEvent::FileChanged { path: paths[0] }],
                FsChangeKind::Removed => seq![PluginEvent::FileRemoved { path: paths[0] }],
                FsChangeKind::Other => Seq::empty(),
            };
            (ev + rest.0, rest.1)
        }
    }
}

/// Drain a buffered run of notifications in order.
pub open spec fn drain_events(
    events: Seq<FsChange>,
    seen: Seq<Seq<char>>,
    inc: Option<Seq<Seq<char>>>,
    ign: Option<Seq<Seq<char>>>,
) -> (Seq<PluginEvent>, Seq<Seq<char>>)
    decreases events.len(),
{
    if events.len() == 0 {
        (Seq::empty(), seen)
    } else {
        let first = drain_paths(events[0].kind, events[0].paths@, seen, inc, ign);
        let rest = drain_events(events.drop_first(), first.1, inc, ign);
        (first.0 + rest.0, rest.1)
    }
}

/// Whether initialization is owed success: a disabled watcher always
/// starts (as a no-op); an enabled one needs a watchable path to
/// survive the deny list and both pattern lists to compile.
pub open spec fn watcher_init_ok(config: FileWatcherConfig, home: Seq<char>) -> bool {
    ||| !config.enabled
    ||| {
        &&& config.paths@.filter(|p: String| !is_sensitive_spec(p@, home)).len() > 0
        &&& (config.patterns@.len() == 0 || glob_compiles(views_of(config.patterns@)))
        &&& (config.ignore_patterns@.len() == 0 || glob_compiles(
            views_of(config.ignore_patterns@),
        ))
    }
}

/// The watch list initialization hands back: the deny-list survivors,
/// tilde-expanded, in order.
pub open spec fn init_paths_right(
    l: Seq<String>,
    config: FileWatcherConfig,
    home: Seq<char>,
) -> bool {
    let safe = config.paths@.filter(|p: String| !is_sensitive_spec(p@, home));
    &&& l.len() == safe.len()
    &&& forall|i: int|
        0 <= i < safe.len() ==> (#[trigger] l[i])@ == expand_tilde_spec(safe[i]@, home)
}

impl FileWatcherPlugin {
    /// A fresh, uninitialized watcher around its configuration.
    pub fn new(config: FileWatcherConfig) -> (r: FileWatcherPlugin)
        ensures
            r.config == config,
            r.include_patterns is None,
            r.ignore_patterns is None,
            r.events@.len() == 0,
            !r.initialized,
    {
        FileWatcherPlugin {
            config,
            include_patterns: None,
            ignore_patterns: None,
            events: Vec::new(),
            initialized: false,
        }
    }

    /// The plugin's name.
    pub fn name(&self) -> (r: &'static str)
        ensures
            r@ == "file_watcher"@,
    {
        "file_watcher"
    }

    /// The plugin's version.
    pub fn version(&self) -> (r: &'static str)
        ensures
            r@ == "2.0.0"@,
    {
        "2.0.0"
    }

    /// What this plugin does.
    pub fn description(&self) -> (r: &'static str)
        ensures
            r@ == "File system watcher for monitoring changes"@,
    {
        "File system watcher for monitoring changes"
    }

    /// Whether this plugin is switched on.
    pub fn is_enabled(&self) -> (r: bool)
        ensures
            r == self.config.enabled,
    {
        self.config.enabled
    }

    /// The configured paths that survive the sensitive-location filter.
    #[verifier::loop_isolation(false)]
    pub fn safe_paths(&self, home: &str) -> (r: Vec<String>)
        ensures
            r@ == self.config.paths@.filter(
                |p: String| !is_sensitive_spec(p@, home@),
            ),
    {
        let n_paths = self.config.paths.len();
        let mut out: Vec<String> = Vec::new();
        proof {
            reveal_with_fuel(Seq::<String>::filter, 2);
            assert(out@ =~= self.config.paths@.subrange(0, 0).filter(
                |p: String| !is_sensitive_spec(p@, home@),
            ));
        }
        let mut i: usize = 0;
        while i < n_paths
            invariant
                n_paths == self.config.paths@.len(),
                i <= n_paths,
                out@ == self.config.paths@.subrange(0, i as int).filter(
                    |p: String| !is_sensitive_spec(p@, home@),
                ),
            decreases n_paths - i,
        {
            let ghost pre = self.config.paths@.subrange(0, i as int);
            let ghost pre1 = self.config.paths@.subrange(0, i + 1);
            if !is_sensitive_path(self.config.paths[i].as_str(), home) {
                out.push(self.config.paths[i].clone());
            }
            proof {
                reveal_with_fuel(Seq::<String>::filter, 2);
                assert(pre1.drop_last() =~= pre);
                assert(pre1.last() == self.config.paths@[i as int]);
                assert(out@ =~= pre1.filter(|p: String| !is_sensitive_spec(p@, home@)));
            }
            i += 1;
        }
        proof {
            assert(self.config.paths@.subrange(0, n_paths as int) =~= self.config.paths@);
        }
        out
    }

    /// Initialize: filter the configured paths against the deny list,
    /// refuse to start when nothing watchable remains, compile the
    /// include and ignore patterns, and hand back the expanded paths
    /// the outside watcher must register.
    #[verifier::loop_isolation(false)]
    pub fn initialize(&mut self, home: &str) -> (r: Result<Vec<String>, PluginError>)
        ensures
            r is Ok <==> watcher_init_ok(old(self).config, home@),
            r is Err ==> (r->Err_0 is ConfigError && *final(self) == *old(self)),
            !old(self).config.enabled ==> (r matches Ok(l) && l@.len() == 0 && *final(self)
                == *old(self)),
            r is Ok ==> final(self).config == old(self).config,
            (old(self).config.enabled && r is Ok) ==> {
                &&& final(self).initialized
                &&& final(self).events == old(self).events
                &&& opt_glob_view(final(self).include_patterns) == (
                    if old(self).config.patterns@.len() > 0 {
                        Some(views_of(old(self).config.patterns@))
                    } else {
                        None::<Seq<Seq<char>>>
                    }
                )
                &&& opt_glob_view(final(self).ignore_patterns) == (
                    if old(self).config.ignore_patterns@.len() > 0 {
                        Some(views_of(old(self).config.ignore_patterns@))
                    } else {
                        None::<Seq<Seq<char>>>
                    }
                )
                &&& init_paths_right(r->Ok_0@, old(self).config, home@)
            },
    {
        if !self.config.enabled {
            return Ok(Vec::new());
        }
        let safe = self.safe_paths(home);
        if safe.len() == 0 {
            return Err(PluginError::ConfigError(String::from_str("No safe paths to watch")));
        }
        let inc_set = if self.config.patterns.len() > 0 {
            match build_glob_set(&self.config.patterns) {
                Ok(g) => Some(g),
                Err(e) => {
                    return Err(e);
                },
            }
        } else {
            None
        };
        let ign_set = if self.config.ignore_patterns.len() > 0 {
            match build_glob_set(&self.config.ignore_patterns) {
                Ok(g) => Some(g),
                Err(e) => {
                    return Err(e);
                },
            }
        } else {
            None
        };
        let n = safe.len();
        let mut expanded: Vec<String> = Vec::new();
        let mut i: usize = 0;
        while i < n
            invariant
                n == safe@.len(),
                i <= n,
                expanded@.len() == i,
                forall|j: int|
                    0 <= j < i ==> (#[trigger] expanded@[j])@ == expand_tilde_spec(
                        safe@[j]@,
                        home@,
                    ),
            decreases n - i,
        {
            expanded.push(expand_tilde(safe[i].as_str(), home));
            i += 1;
        }
        self.include_patterns = inc_set;
        self.ignore_patterns = ign_set;
        self.initialized = true;
        Ok(expanded)
    }

    /// Record one raw notification from the outside watcher.
    pub fn push_change(&mut self, change: FsChange)
        ensures
            final(self).events@ == old(self).events@.push(change),
            final(self).config == old(self).config,
            final(self).include_patterns == old(self).include_patterns,
            final(self).ignore_patterns == old(self).ignore_patterns,
            final(self).initialized == old(self).initialized,
    {
        self.events.push(change);
    }

    /// Drain the buffered notifications into events: one event per
    /// distinct surviving path per round, ignore patterns winning over
    /// include patterns, order preserved.
    #[verifier::loop_isolation(false)]
    #[verifier::rlimit(60)]
    pub fn listen(&mut self) -> (r: Result<Vec<PluginEvent>, PluginError>)
        ensures
            r matches Ok(evs) && evs@ == drain_events(
                old(self).events@,
                Seq::empty(),
                opt_glob_view(old(self).include_patterns),
                opt_glob_view(old(self).ignore_patterns),
            ).0,
            final(self).events@.len() == 0,
            final(self).config == old(self).config,
            final(self).include_patterns == old(self).include_patterns,
            final(self).ignore_patterns == old(self).ignore_patterns,
            final(self).initialized == old(self).initialized,
    {
        let ghost inc = opt_glob_view(self.include_patterns);
        let ghost ign = opt_glob_view(self.ignore_patterns);
        let mut pending: Vec<FsChange> = Vec::new();
        core::mem::swap(&mut pending, &mut self.events);
        let ghost orig = pending@;
        let mut result_events: Vec<PluginEvent> = Vec::new();
        let mut seen: Vec<String> = Vec::new();
        proof {
            assert(orig.subrange(0, orig.len() as int) =~= orig);
            assert(views_of(seen@) =~= Seq::<Seq<char>>::empty());
            assert(result_events@ + drain_events(orig, views_of(seen@), inc, ign).0
                =~= drain_events(orig, Seq::empty(), inc, ign).0);
        }
        loop
            invariant
                pending@.len() <= orig.len(),
                pending@ =~= orig.subrange(orig.len() - pending@.len(), orig.len() as int),
                drain_events(orig, Seq::empty(), inc, ign).0 =~= result_events@ + drain_events(
                    pending@,
                    views_of(seen@),
                    inc,
                    ign,
                ).0,
                inc == opt_glob_view(self.include_patterns),
                ign == opt_glob_view(self.ignore_patterns),
            decreases pending@.len(),
        {
            let ghost before = pending@;
            if pending.len() == 0 {
                break;
            }
            let change = pending.remove(0);
            proof {
                assert(before[0] == change);
                assert(pending@ =~= before.drop_first());
            }
            let kind = change.kind;
            let mut paths = change.paths;
            let ghost orig_paths = paths@;
            proof {
                assert(orig_paths.subrange(0, orig_paths.len() as int) =~= orig_paths);
            }
            loop
                invariant
                    paths@.len() <= orig_paths.len(),
                    paths@ =~= orig_paths.subrange(
                        orig_paths.len() - paths@.len(),
                        orig_paths.len() as int,
                    ),
                    drain_events(orig, Seq::empty(), inc, ign).0 =~= result_events@ + drain_paths(
                        kind,
                        paths@,
                        views_of(seen@),
                        inc,
                        ign,
                    ).0 + drain_events(before.drop_first(), drain_paths(
                        kind,
                        paths@,
                        views_of(seen@),
                        inc,
                        ign,
                    ).1, inc, ign).0,
                    inc == opt_glob_view(self.include_patterns),
                    ign == opt_glob_view(self.ignore_patterns),
                decreases paths@.len(),
            {
                let ghost pbefore = paths@;
                if paths.len() == 0 {
                    break;
                }
                let path = paths.remove(0);
                proof {
                    assert(pbefore[0] == path);
                    assert(paths@ =~= pbefore.drop_first());
                }
                let mut already = false;
                let m = seen.len();
                let mut j: usize = 0;
                while j < m
                    invariant
                        m == seen@.len(),
                        j <= m,
                        already ==> seen_has(views_of(seen@), path@),
                        !already ==> forall|k: int|
                            0 <= k < j ==> (#[trigger] seen@[k])@ != path@,
                    decreases m - j,
                {
                    if crate::strutil::str_eq(seen[j].as_str(), path.as_str()) {
                        already = true;
                        proof {
                            assert(views_of(seen@)[j as int] == path@);
                        }
                        break;
                    }
                    j += 1;
                }
                proof {
                    if !already {
                        assert forall|k: int|
                            0 <= k < views_of(seen@).len() implies views_of(seen@)[k]
                            != path@ by {
                            assert(views_of(seen@)[k] == seen@[k]@);
                        }
                        assert(!seen_has(views_of(seen@), path@));
                    }
                }
                if already {
                    proof {
                        assert(drain_paths(kind, pbefore, views_of(seen@), inc, ign)
                            == drain_paths(kind, pbefore.drop_first(), views_of(seen@), inc, ign));
                    }
                    continue;
                }
                let included = {
                    let ignored = match &self.ignore_patterns {
                        Some(g) => glob_set_matches(g, path.as_str()),
                        None => false,
                    };
                    if ignored {
                        false
                    } else {
                        match &self.include_patterns {
                            Some(g) => glob_set_matches(g, path.as_str()),
                            None => true,
                        }
                    }
                };
                proof {
                    assert(included == include_spec(inc, ign, path@));
                }
                if !included {
                    proof {
                        assert(drain_paths(kind, pbefore, views_of(seen@), inc, ign)
                            == drain_paths(kind, pbefore.drop_first(), views_of(seen@), inc, ign));
                    }
                    continue;
                }
                let ghost seen_before = views_of(seen@);
                seen.push(path.clone());
                proof {
                    crate::strutil::lemma_views_of_push(seen@.drop_last(), seen@.last());
                    assert(seen@.drop_last() =~= seen@.subrange(0, seen@.len() - 1));
                    assert(views_of(seen@) =~= seen_before.push(path@));
                }
                match kind {
                    FsChangeKind::Created => {
                        result_events.push(PluginEvent::FileAdded { path });
                    },
                    FsChangeKind::Modified => {
                        result_events.push(PluginEvent::FileChanged { path });
                    },
                    FsChangeKind::Removed => {
                        result_events.push(PluginEvent::FileRemoved { path });
                    },
                    FsChangeKind::Other => {},
                }
            }
        }
        proof {
            assert(drain_events(orig, Seq::empty(), inc, ign).0 =~= result_events@);
        }
        Ok(result_events)
    }

    /// Execute one action of this plugin: refresh drops the buffered
    /// notifications and re-derives the watch set exactly as
    /// initialization does (the outside watcher re-registers the
    /// returned paths), clear drops the buffered notifications;
    /// anything else is a typed failure.
    pub fn execute(&mut self, action: PluginAction, home: &str) -> (r: Result<
        (ActionResult, Option<Vec<String>>),
        PluginError,
    >)
        ensures
            action is FileWatcherRefresh ==> {
                &&& (r is Ok <==> watcher_init_ok(old(self).config, home@))
                &&& final(self).config == old(self).config
                &&& final(self).events@.len() == 0
                &&& (r is Err ==> (r->Err_0 is ConfigError && !final(self).initialized
                    && final(self).include_patterns is None && final(self).ignore_patterns
                    is None))
                &&& r is Ok ==> {
                    let pair = r->Ok_0;
                    &&& pair.0.success
                    &&& pair.0.error is None
                    &&& pair.0.data is None
                    &&& pair.1 is Some
                    &&& (old(self).config.enabled ==> {
                        &&& final(self).initialized
                        &&& opt_glob_view(final(self).include_patterns) == (
                            if old(self).config.patterns@.len() > 0 {
                                Some(views_of(old(self).config.patterns@))
                            } else {
                                None::<Seq<Seq<char>>>
                            }
                        )
                        &&& opt_glob_view(final(self).ignore_patterns) == (
                            if old(self).config.ignore_patterns@.len() > 0 {
                                Some(views_of(old(self).config.ignore_patterns@))
                            } else {
                                None::<Seq<Seq<char>>>
                            }
                        )
                        &&& init_paths_right(pair.1->0@, old(self).config, home@)
                    })
                    &&& (!old(self).config.enabled ==> (pair.1->0@.len() == 0
                        && !final(self).initialized))
                }
            },
            action is FileWatcherClear ==> (r matches Ok(pair) && pair.0.success && pair.1 is None
                && final(self).events@.len() == 0),
            (!(action is FileWatcherRefresh) && !(action is FileWatcherClear)) ==> (r matches Err(
                e,
            ) && e is ActionFailed && *final(self) == *old(self)),
    {
        match action {
            PluginAction::FileWatcherRefresh => {
                self.events.clear();
                self.include_patterns = None;
                self.ignore_patterns = None;
                self.initialized = false;
                let paths = match self.initialize(home) {
                    Ok(paths) => paths,
                    Err(e) => {
                        return Err(e);
                    },
                };
                Ok((ActionResult::success(None), Some(paths)))
            },
            PluginAction::FileWatcherClear => {
                self.events.clear();
                Ok((ActionResult::success(None), None))
            },
            _ => Err(
                PluginError::ActionFailed(
                    String::from_str("Action not supported by FileWatcher plugin"),
                ),
            ),
        }
    }

    /// Report health from the lifecycle state alone; this never calls
    /// out and never fails.
    pub fn health_check(&self) -> (r: PluginHealthStatus)
        ensures
            !self.config.enabled ==> !r.healthy,
            (self.config.enabled && !self.initialized) ==> !r.healthy,
            (self.config.enabled && self.initialized) ==> r.healthy,
    {
        if !self.config.enabled {
            return PluginHealthStatus::unhealthy("Plugin is disabled");
        }
        if !self.initialized {
            return PluginHealthStatus::unhealthy("Plugin not initialized");
        }
        PluginHealthStatus::healthy()
    }

    /// Shut down: the watch handles are released outside; the buffer
    /// and compiled patterns are dropped here, so nothing stays held,
    /// and shutting down twice is the same as once.
    pub fn shutdown(&mut self) -> (r: Result<(), PluginError>)
        ensures
            r is Ok,
            final(self).events@.len() == 0,
            final(self).include_patterns is None,
            final(self).ignore_patterns is None,
            !final(self).initialized,
            final(self).config == old(self).config,
    {
        self.events.clear();
        self.include_patterns = None;
        self.ignore_patterns = None;
        self.initialized = false;
        Ok(())
    }
}

} // verus!
