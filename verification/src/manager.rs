use vstd::prelude::*;
use crate::errors::{CommunicationError, PluginError};
use crate::plugin::{PluginAction, PluginEvent, PluginHealthStatus};
use crate::plugins_config::PluginConfig;

verus! {

/// Lifecycle state of a registered plugin. A plugin that fails its
/// initialization is never entered into the registry at all.
#[derive(Debug, Clone, Copy, PartialEq, Eq, Structural)]
pub enum PluginState {
    Ready,
    ShutDown,
}

/// One registry entry: the plugin's name, whether it is enabled, and
/// where it stands in its lifecycle.
#[derive(Debug)]
pub struct PluginRecord {
    pub name: String,
    pub enabled: bool,
    pub state: PluginState,
}

/// What one plugin's listen round produced; an error here never touches
/// the other plugins' rounds.
#[derive(Debug)]
pub struct ListenOutcome {
    pub plugin: String,
    pub result: Result<Vec<PluginEvent>, PluginError>,
}

/// The registry of live plugins. The remote work itself (initialize,
/// listen, execute, health probes) happens outside; this registry holds
/// the lifecycle state and makes every routing and isolation decision.
#[derive(Debug)]
pub struct PluginManager {
    pub plugins: Vec<PluginRecord>,
    pub config_path: Option<String>,
}

/// Index of the first registry entry with the given name.
pub open spec fn find_plugin(s: Seq<PluginRecord>, name: Seq<char>) -> Option<int>
    decreases s.len(),
{
    if s.len() == 0 {
        None
    } else if s[0].name@ == name {
        Some(0int)
    } else {
        match find_plugin(s.drop_first(), name) {
            Some(i) => Some(i + 1),
            None => None,
        }
    }
}

/// The registry after every plugin was shut down.
pub open spec fn shut_all(s: Seq<PluginRecord>) -> Seq<PluginRecord> {
    s.map_values(
        |r: PluginRecord| PluginRecord { name: r.name, enabled: r.enabled, state: PluginState::ShutDown },
    )
}

/// Shutting the registry down twice leaves exactly the state one
/// shutdown leaves: nothing changes the second time around.
pub proof fn lemma_shutdown_idempotent(s: Seq<PluginRecord>)
    ensures
        shut_all(shut_all(s)) == shut_all(s),
{
    assert(shut_all(shut_all(s)) =~= shut_all(s));
}

/// The names of a run of registry entries.
pub open spec fn record_names(s: Seq<PluginRecord>) -> Seq<Seq<char>> {
    s.map_values(|p: PluginRecord| p.name@)
}

/// The enabled entries of a run of registry entries.
pub open spec fn enabled_records(s: Seq<PluginRecord>) -> Seq<PluginRecord> {
    s.filter(|p: PluginRecord| p.enabled)
}

proof fn lemma_record_names_push(s: Seq<PluginRecord>, x: PluginRecord)
    ensures
        record_names(s.push(x)) == record_names(s).push(x.name@),
{
    assert(record_names(s.push(x)) =~= record_names(s).push(x.name@));
}

/// The first reported status for a plugin name in one health round.
pub open spec fn first_status(
    outcomes: Seq<(String, PluginHealthStatus)>,
    name: Seq<char>,
) -> Option<PluginHealthStatus>
    decreases outcomes.len(),
{
    if outcomes.len() == 0 {
        None
    } else if outcomes[0].0@ == name {
        Some(outcomes[0].1)
    } else {
        first_status(outcomes.drop_first(), name)
    }
}

proof fn lemma_first_status_at(
    outcomes: Seq<(String, PluginHealthStatus)>,
    k: int,
    name: Seq<char>,
)
    requires
        0 <= k < outcomes.len(),
        outcomes[k].0@ == name,
        forall|p: int| 0 <= p < k ==> (#[trigger] outcomes[p]).0@ != name,
    ensures
        first_status(outcomes, name) == Some(outcomes[k].1),
    decreases k,
{
    if k > 0 {
        let sub = outcomes.drop_first();
        assert(sub[k - 1] == outcomes[k]);
        assert forall|p: int| 0 <= p < k - 1 implies (#[trigger] sub[p]).0@ != name by {
            assert(sub[p] == outcomes[p + 1]);
        }
        lemma_first_status_at(sub, k - 1, name);
    }
}

proof fn lemma_first_status_none(outcomes: Seq<(String, PluginHealthStatus)>, name: Seq<char>)
    requires
        forall|p: int| 0 <= p < outcomes.len() ==> (#[trigger] outcomes[p]).0@ != name,
    ensures
        first_status(outcomes, name) is None,
    decreases outcomes.len(),
{
    if outcomes.len() > 0 {
        let sub = outcomes.drop_first();
        assert forall|p: int| 0 <= p < sub.len() implies (#[trigger] sub[p]).0@ != name by {
            assert(sub[p] == outcomes[p + 1]);
        }
        lemma_first_status_none(sub, name);
    }
}

/// Copy one status report.
fn copy_status(s: &PluginHealthStatus) -> (r: PluginHealthStatus)
    ensures
        r == *s,
{
    PluginHealthStatus {
        healthy: s.healthy,
        message: match &s.message {
            Some(m) => Some(m.clone()),
            None => None,
        },
        last_check: s.last_check,
    }
}

/// All events of the successful outcomes, concatenated in outcome order;
/// a failed outcome contributes nothing and poisons nothing.
pub open spec fn collected_events(s: Seq<ListenOutcome>) -> Seq<PluginEvent>
    decreases s.len(),
{
    if s.len() == 0 {
        Seq::empty()
    } else {
        (match s[0].result {
            Ok(evs) => evs@,
            Err(_) => Seq::empty(),
        }) + collected_events(s.drop_first())
    }
}

/// One failing plugin does not silence the others: with three outcomes
/// whose middle one failed, listening still yields the first plugin's
/// events followed by the third's.
pub proof fn lemma_listen_isolates_failure(a: ListenOutcome, b: ListenOutcome, c: ListenOutcome)
    requires
        a.result is Ok,
        b.result is Err,
        c.result is Ok,
    ensures
        collected_events(seq![a, b, c]) == a.result->Ok_0@ + c.result->Ok_0@,
{
    let s = seq![a, b, c];
    assert(s.drop_first() =~= seq![b, c]);
    assert(seq![b, c].drop_first() =~= seq![c]);
    assert(seq![c].drop_first() =~= Seq::<ListenOutcome>::empty());
    assert(collected_events(Seq::<ListenOutcome>::empty()) == Seq::<PluginEvent>::empty());
    assert(collected_events(seq![c]) =~= c.result->Ok_0@);
    assert(collected_events(seq![b, c]) =~= c.result->Ok_0@);
    assert(collected_events(seq![a, b, c]) =~= a.result->Ok_0@ + c.result->Ok_0@);
}

impl PluginManager {
    /// A fresh, empty registry.
    pub fn new() -> (r: PluginManager)
        ensures
            r.plugins@.len() == 0,
            r.config_path is None,
    {
        PluginManager { plugins: Vec::new(), config_path: None }
    }

    /// Take in a parsed plugin configuration: remember where it lives,
    /// and fall back to the all-disabled default when the file was
    /// missing or corrupt rather than failing the load.
    pub fn load_from_config(
        &mut self,
        config_path: &str,
        parsed: Result<PluginConfig, CommunicationError>,
    ) -> (r: PluginConfig)
        ensures
            final(self).config_path matches Some(p) && p@ == config_path@,
            final(self).plugins == old(self).plugins,
            match parsed {
                Ok(c) => r == c,
                Err(_) => crate::plugins_config::plugin_config_default(r),
            },
    {
        self.config_path = Some(String::from_str(config_path));
        match parsed {
            Ok(c) => c,
            Err(_) => PluginConfig::default(),
        }
    }

    /// The built-in plugin kinds a configuration asks to register, in
    /// the fixed order slack, github, file_watcher; only enabled kinds
    /// appear.
    pub open spec fn kinds_wanted(config: PluginConfig) -> Seq<Seq<char>> {
        let s1 = if config.slack matches Some(c) && c.enabled {
            seq!["slack"@]
        } else {
            Seq::empty()
        };
        let s2 = if config.github matches Some(c) && c.enabled {
            seq!["github"@]
        } else {
            Seq::empty()
        };
        let s3 = if config.file_watcher matches Some(c) && c.enabled {
            seq!["file_watcher"@]
        } else {
            Seq::empty()
        };
        s1 + s2 + s3
    }

    /// Which built-in plugin kinds a configuration asks to register.
    pub fn kinds_to_register(config: &PluginConfig) -> (r: Vec<String>)
        ensures
            r@.map_values(|s: String| s@) == Self::kinds_wanted(*config),
    {
        let mut out: Vec<String> = Vec::new();
        if match &config.slack {
            Some(c) => c.enabled,
            None => false,
        } {
            out.push(String::from_str("slack"));
        }
        if match &config.github {
            Some(c) => c.enabled,
            None => false,
        } {
            out.push(String::from_str("github"));
        }
        if match &config.file_watcher {
            Some(c) => c.enabled,
            None => false,
        } {
            out.push(String::from_str("file_watcher"));
        }
        proof {
            assert(out@.map_values(|s: String| s@) =~= Self::kinds_wanted(*config));
        }
        out
    }

    /// Enter a plugin into the registry once its initialization came
    /// back. A failed initialization is surfaced to the caller and the
    /// registry stays as it was: no silent retry, no half-registered
    /// entry.
    #[verifier::loop_isolation(false)]
    pub fn register(
        &mut self,
        name: String,
        enabled: bool,
        init_result: Result<(), PluginError>,
    ) -> (r: Result<(), PluginError>)
        ensures
            init_result is Err ==> {
                &&& r matches Err(e) && e is InitializationFailed
                &&& final(self).plugins == old(self).plugins
                &&& final(self).config_path == old(self).config_path
            },
            init_result is Ok ==> {
                &&& r is Ok
                &&& final(self).config_path == old(self).config_path
                &&& match find_plugin(old(self).plugins@, name@) {
                    Some(i) => final(self).plugins@ == old(self).plugins@.update(
                        i,
                        PluginRecord { name, enabled, state: PluginState::Ready },
                    ),
                    None => final(self).plugins@ == old(self).plugins@.push(
                        PluginRecord { name, enabled, state: PluginState::Ready },
                    ),
                }
            },
    {
        if let Err(_e) = init_result {
            return Err(PluginError::InitializationFailed(name));
        }
        let rec = PluginRecord { name, enabled, state: PluginState::Ready };
        let ghost grec = rec;
        let ghost orig = self.plugins@;
        let n = self.plugins.len();
        let mut i: usize = 0;
        while i < n
            invariant
                n == self.plugins@.len(),
                i <= n,
                self.plugins@ == orig,
                self.config_path == old(self).config_path,
                forall|j: int| 0 <= j < i ==> (#[trigger] orig[j]).name@ != grec.name@,
            decreases n - i,
        {
            if crate::strutil::str_eq(self.plugins[i].name.as_str(), rec.name.as_str()) {
                proof {
                    lemma_find_plugin_first(orig, i as int, grec.name@);
                }
                let _old = self.plugins.remove(i);
                self.plugins.insert(i, rec);
                proof {
                    assert(self.plugins@ =~= orig.update(i as int, grec));
                }
                return Ok(());
            }
            i += 1;
        }
        proof {
            lemma_find_plugin_none(orig, grec.name@);
        }
        self.plugins.push(rec);
        Ok(())
    }

    /// The names of every registered plugin, in registry order.
    #[verifier::loop_isolation(false)]
    pub fn plugin_names(&self) -> (r: Vec<String>)
        ensures
            crate::strutil::views_of(r@) == record_names(self.plugins@),
    {
        let n = self.plugins.len();
        let mut out: Vec<String> = Vec::new();
        proof {
            assert(crate::strutil::views_of(out@) =~= record_names(
                self.plugins@.subrange(0, 0),
            ));
        }
        let mut i: usize = 0;
        while i < n
            invariant
                n == self.plugins@.len(),
                i <= n,
                crate::strutil::views_of(out@) == record_names(
                    self.plugins@.subrange(0, i as int),
                ),
            decreases n - i,
        {
            let ghost old_out = out@;
            out.push(self.plugins[i].name.clone());
            proof {
                crate::strutil::lemma_views_of_push(old_out, out@.last());
                assert(out@ =~= old_out.push(out@.last()));
                assert(self.plugins@.subrange(0, i + 1) =~= self.plugins@.subrange(
                    0,
                    i as int,
                ).push(self.plugins@[i as int]));
                lemma_record_names_push(self.plugins@.subrange(0, i as int), self.plugins@[i as int]);
                assert(crate::strutil::views_of(out@) =~= record_names(
                    self.plugins@.subrange(0, i + 1),
                ));
            }
            i += 1;
        }
        proof {
            assert(self.plugins@.subrange(0, n as int) =~= self.plugins@);
        }
        out
    }

    /// The names of the registered plugins that are enabled, in registry
    /// order.
    #[verifier::loop_isolation(false)]
    pub fn enabled_plugins(&self) -> (r: Vec<String>)
        ensures
            crate::strutil::views_of(r@) == record_names(enabled_records(self.plugins@)),
    {
        let n = self.plugins.len();
        let mut out: Vec<String> = Vec::new();
        proof {
            reveal_with_fuel(Seq::<PluginRecord>::filter, 2);
            assert(crate::strutil::views_of(out@) =~= record_names(
                enabled_records(self.plugins@.subrange(0, 0)),
            ));
        }
        let mut i: usize = 0;
        while i < n
            invariant
                n == self.plugins@.len(),
                i <= n,
                crate::strutil::views_of(out@) == record_names(
                    enabled_records(self.plugins@.subrange(0, i as int)),
                ),
            decreases n - i,
        {
            let ghost pre = self.plugins@.subrange(0, i as int);
            let ghost pre1 = self.plugins@.subrange(0, i + 1);
            let ghost old_out = out@;
            if self.plugins[i].enabled {
                out.push(self.plugins[i].name.clone());
            }
            proof {
                reveal_with_fuel(Seq::<PluginRecord>::filter, 2);
                assert(pre1.drop_last() =~= pre);
                assert(pre1.last() == self.plugins@[i as int]);
                if self.plugins@[i as int].enabled {
                    assert(enabled_records(pre1) == enabled_records(pre).push(pre1.last()));
                    crate::strutil::lemma_views_of_push(old_out, out@.last());
                    assert(out@ =~= old_out.push(out@.last()));
                    lemma_record_names_push(enabled_records(pre), pre1.last());
                    assert(crate::strutil::views_of(out@) =~= record_names(
                        enabled_records(pre1),
                    ));
                } else {
                    assert(enabled_records(pre1) == enabled_records(pre));
                }
            }
            i += 1;
        }
        proof {
            assert(self.plugins@.subrange(0, n as int) =~= self.plugins@);
        }
        out
    }

    /// Collect one listen round: the successful outcomes' events are
    /// concatenated in order, a failed outcome contributes nothing and
    /// never aborts the round.
    #[verifier::loop_isolation(false)]
    pub fn listen_all(&self, outcomes: Vec<ListenOutcome>) -> (r: Vec<PluginEvent>)
        ensures
            r@ == collected_events(outcomes@),
    {
        let ghost orig = outcomes@;
        let mut rest = outcomes;
        let mut all_events: Vec<PluginEvent> = Vec::new();
        proof {
            assert(orig.subrange(0, orig.len() as int) =~= orig);
            assert(all_events@ + collected_events(orig) =~= collected_events(orig));
        }
        loop
            invariant
                rest@ =~= orig.subrange(
                    orig.len() - rest@.len(),
                    orig.len() as int,
                ),
                rest@.len() <= orig.len(),
                collected_events(orig) =~= all_events@ + collected_events(rest@),
            decreases rest@.len(),
        {
            let ghost before = rest@;
            if rest.len() == 0 {
                break;
            }
            let first = rest.remove(0);
            proof {
                assert(before[0] == first);
                assert(rest@ =~= before.drop_first());
            }
            match first.result {
                Ok(mut evs) => {
                    all_events.append(&mut evs);
                }
                Err(_e) => {},
            }
        }
        proof {
            assert(collected_events(rest@) == Seq::<PluginEvent>::empty());
            assert(all_events@ =~= collected_events(orig));
        }
        all_events
    }

    /// Resolve the plugin that owns an action. Routing goes by the
    /// action's tag alone: no registered plugin of that name is "not
    /// found", a disabled one is "not enabled", otherwise the registry
    /// index of the owning plugin is returned and the action is
    /// delegated to it unchanged.
    #[verifier::loop_isolation(false)]
    pub fn execute(&self, action: &PluginAction) -> (r: Result<usize, PluginError>)
        ensures
            match find_plugin(self.plugins@, action.owner_name()) {
                None => r matches Err(e) && e matches PluginError::NotFound(n)
                    && n@ == action.owner_name(),
                Some(i) => if self.plugins@[i].enabled {
                    r matches Ok(idx) && idx == i
                } else {
                    r matches Err(e) && e matches PluginError::NotEnabled(n)
                        && n@ == action.owner_name()
                },
            },
    {
        let name = action.plugin_name();
        let n = self.plugins.len();
        let mut i: usize = 0;
        while i < n
            invariant
                n == self.plugins@.len(),
                i <= n,
                forall|j: int| 0 <= j < i ==> (#[trigger] self.plugins@[j]).name@ != name@,
            decreases n - i,
        {
            if crate::strutil::str_eq(self.plugins[i].name.as_str(), name) {
                proof {
                    lemma_find_plugin_first(self.plugins@, i as int, name@);
                }
                if self.plugins[i].enabled {
                    return Ok(i);
                } else {
                    return Err(PluginError::NotEnabled(String::from_str(name)));
                }
            }
            i += 1;
        }
        proof {
            lemma_find_plugin_none(self.plugins@, name@);
        }
        Err(PluginError::NotFound(String::from_str(name)))
    }

    /// Fold one health round into a report that covers every registered
    /// plugin, enabled or not: each row carries the first reported
    /// status for that plugin's name, and a plugin whose probe never
    /// came back is reported unhealthy rather than dropped, so the
    /// round as a whole never fails.
    #[verifier::loop_isolation(false)]
    pub fn health_check_all(&self, outcomes: Vec<(String, PluginHealthStatus)>) -> (r: Vec<
        (String, PluginHealthStatus),
    >)
        ensures
            r@.len() == self.plugins@.len(),
            forall|i: int|
                0 <= i < r@.len() ==> {
                    &&& (#[trigger] r@[i]).0@ == self.plugins@[i].name@
                    &&& match first_status(outcomes@, self.plugins@[i].name@) {
                        Some(st) => r@[i].1 == st,
                        None => !r@[i].1.healthy && (r@[i].1.message matches Some(m) && m@
                            == "no health report"@),
                    }
                },
    {
        let n = self.plugins.len();
        let mut out: Vec<(String, PluginHealthStatus)> = Vec::new();
        let mut i: usize = 0;
        while i < n
            invariant
                n == self.plugins@.len(),
                i <= n,
                out@.len() == i,
                forall|j: int|
                    0 <= j < i ==> {
                        &&& (#[trigger] out@[j]).0@ == self.plugins@[j].name@
                        &&& match first_status(outcomes@, self.plugins@[j].name@) {
                            Some(st) => out@[j].1 == st,
                            None => !out@[j].1.healthy && (out@[j].1.message matches Some(m) && m@
                                == "no health report"@),
                        }
                    },
            decreases n - i,
        {
            let name = &self.plugins[i].name;
            let mut found: Option<usize> = None;
            let m = outcomes.len();
            let mut j: usize = 0;
            while j < m && found.is_none()
                invariant
                    m == outcomes@.len(),
                    j <= m,
                    found matches Some(k) ==> k < j && outcomes@[k as int].0@ == name@ && (
                    forall|p: int| 0 <= p < k ==> (#[trigger] outcomes@[p]).0@ != name@),
                    found is None ==> forall|p: int|
                        0 <= p < j ==> (#[trigger] outcomes@[p]).0@ != name@,
                decreases m - j,
            {
                if crate::strutil::str_eq(outcomes[j].0.as_str(), name.as_str()) {
                    found = Some(j);
                }
                j += 1;
            }
            match found {
                Some(k) => {
                    proof {
                        lemma_first_status_at(outcomes@, k as int, name@);
                    }
                    out.push((name.clone(), copy_status(&outcomes[k].1)));
                }
                None => {
                    proof {
                        lemma_first_status_none(outcomes@, name@);
                    }
                    out.push((name.clone(), PluginHealthStatus::unhealthy("no health report")));
                }
            }
            i += 1;
        }
        out
    }

    /// Shut every registered plugin down. One plugin's shutdown failure
    /// is logged by the caller and never stops the rest: afterwards
    /// every entry is shut down, whatever happened.
    #[verifier::loop_isolation(false)]
    pub fn shutdown(&mut self)
        ensures
            final(self).plugins@ == shut_all(old(self).plugins@),
            final(self).config_path == old(self).config_path,
    {
        let ghost orig = self.plugins@;
        let n = self.plugins.len();
        let mut i: usize = 0;
        while i < n
            invariant
                n == self.plugins@.len() == orig.len(),
                i <= n,
                self.config_path == old(self).config_path,
                forall|j: int|
                    0 <= j < n ==> (#[trigger] self.plugins@[j]).name == orig[j].name
                        && self.plugins@[j].enabled == orig[j].enabled,
                forall|j: int| 0 <= j < i ==> (#[trigger] self.plugins@[j]).state is ShutDown,
                forall|j: int| i <= j < n ==> (#[trigger] self.plugins@[j]).state == orig[j].state,
            decreases n - i,
        {
            let rec = self.plugins.remove(i);
            self.plugins.insert(
                i,
                PluginRecord { name: rec.name, enabled: rec.enabled, state: PluginState::ShutDown },
            );
            i += 1;
        }
        proof {
            assert(self.plugins@ =~= shut_all(orig));
        }
    }

    /// Where the configuration was loaded from, if it was.
    pub fn config_path(&self) -> (r: &Option<String>)
        ensures
            *r == self.config_path,
    {
        &self.config_path
    }
}

proof fn lemma_find_plugin_first(s: Seq<PluginRecord>, i: int, name: Seq<char>)
    requires
        0 <= i < s.len(),
        s[i].name@ == name,
        forall|j: int| 0 <= j < i ==> (#[trigger] s[j]).name@ != name,
    ensures
        find_plugin(s, name) == Some(i),
    decreases i,
{
    if i > 0 {
        let sub = s.drop_first();
        assert(sub[i - 1] == s[i]);
        assert forall|j: int| 0 <= j < i - 1 implies (#[trigger] sub[j]).name@ != name by {
            assert(sub[j] == s[j + 1]);
        }
        lemma_find_plugin_first(sub, i - 1, name);
    }
}

proof fn lemma_find_plugin_none(s: Seq<PluginRecord>, name: Seq<char>)
    requires
        forall|j: int| 0 <= j < s.len() ==> (#[trigger] s[j]).name@ != name,
    ensures
        find_plugin(s, name) is None,
    decreases s.len(),
{
    if s.len() > 0 {
        let sub = s.drop_first();
        assert forall|j: int| 0 <= j < sub.len() implies (#[trigger] sub[j]).name@ != name by {
            assert(sub[j] == s[j + 1]);
        }
        lemma_find_plugin_none(sub, name);
    }
}

} // verus!
