//! Per-application optimization policies and the store that holds them.
use vstd::prelude::*;

use crate::text::{chars_of, contains_chars, contains_run};

verus! {

broadcast use vstd::seq_lib::group_to_multiset_ensures;

/// What to do when a policy threshold is exceeded.
#[derive(Debug, Clone, Copy, PartialEq, Eq, Structural)]
pub enum ThresholdAction {
    /// Only raise an alert.
    Alert,
    /// Try to clean up idle connections.
    Optimize,
    /// Restart the process (dangerous; needs confirmation).
    RestartProcess,
    /// Do nothing.
    Ignore,
}

/// The optimization policy of one application.
#[derive(Debug, Clone)]
pub struct AppPolicy {
    /// Process name the policy applies to.
    pub process_name: String,
    /// Optional full executable path to match.
    pub exe_path: Option<String>,
    /// Whether automatic optimization is enabled.
    pub auto_optimize: bool,
    /// TIME_WAIT count above which the policy acts; `None` means no limit.
    pub time_wait_threshold: Option<usize>,
    /// CLOSE_WAIT count above which the policy acts; `None` means no limit.
    pub close_wait_threshold: Option<usize>,
    /// Largest allowed connection count; `None` means no limit. Not consulted
    /// by the decision engine.
    pub max_connections: Option<usize>,
    /// Action when a threshold is exceeded.
    pub threshold_action: ThresholdAction,
    /// Priority; smaller is more important.
    pub priority: u8,
    pub note: String,
}

/// The field values shared by every preset, apart from name and note.
pub open spec fn preset(
    p: AppPolicy,
    time_wait: usize,
    close_wait: usize,
    max_connections: Option<usize>,
    action: ThresholdAction,
    priority: u8,
) -> bool {
    &&& p.exe_path is None
    &&& p.auto_optimize
    &&& p.time_wait_threshold == Some(time_wait)
    &&& p.close_wait_threshold == Some(close_wait)
    &&& p.max_connections == max_connections
    &&& p.threshold_action == action
    &&& p.priority == priority
}

impl Default for AppPolicy {
    /// The general-purpose policy: TIME_WAIT above 300 or CLOSE_WAIT above 30
    /// raises an alert.
    fn default() -> (r: Self)
        ensures
            r.process_name@ == Seq::<char>::empty(),
            r.note@ == Seq::<char>::empty(),
            preset(r, 300, 30, None, ThresholdAction::Alert, 100),
    {
        AppPolicy {
            process_name: String::new(),
            exe_path: None,
            auto_optimize: true,
            time_wait_threshold: Some(300),
            close_wait_threshold: Some(30),
            max_connections: None,
            threshold_action: ThresholdAction::Alert,
            priority: 100,
            note: String::new(),
        }
    }
}

impl AppPolicy {
    /// For games and downloaders: lenient on TIME_WAIT, strict on CLOSE_WAIT.
    pub fn high_performance(process_name: &str) -> (r: Self)
        ensures
            r.process_name@ == process_name@,
            r.note@ == Seq::<char>::empty(),
            preset(r, 500, 50, None, ThresholdAction::Optimize, 10),
    {
        AppPolicy {
            process_name: String::from_str(process_name),
            exe_path: None,
            auto_optimize: true,
            time_wait_threshold: Some(500),
            close_wait_threshold: Some(50),
            max_connections: None,
            threshold_action: ThresholdAction::Optimize,
            priority: 10,
            note: String::new(),
        }
    }

    /// For servers and databases: many connections, CLOSE_WAIT still watched.
    pub fn server(process_name: &str) -> (r: Self)
        ensures
            r.process_name@ == process_name@,
            r.note@ == Seq::<char>::empty(),
            preset(r, 1000, 100, Some(10000), ThresholdAction::Alert, 5),
    {
        AppPolicy {
            process_name: String::from_str(process_name),
            exe_path: None,
            auto_optimize: true,
            time_wait_threshold: Some(1000),
            close_wait_threshold: Some(100),
            max_connections: Some(10000),
            threshold_action: ThresholdAction::Alert,
            priority: 5,
            note: String::new(),
        }
    }

    /// For suspicious programs: tight limits.
    pub fn restricted(process_name: &str) -> (r: Self)
        ensures
            r.process_name@ == process_name@,
            r.note@ == Seq::<char>::empty(),
            preset(r, 50, 20, Some(100), ThresholdAction::Optimize, 1),
    {
        AppPolicy {
            process_name: String::from_str(process_name),
            exe_path: None,
            auto_optimize: true,
            time_wait_threshold: Some(50),
            close_wait_threshold: Some(20),
            max_connections: Some(100),
            threshold_action: ThresholdAction::Optimize,
            priority: 1,
            note: String::new(),
        }
    }

    /// For crawlers: many short connections; CLOSE_WAIT is cleaned aggressively.
    pub fn crawler(process_name: &str) -> (r: Self)
        ensures
            r.process_name@ == process_name@,
            r.note@ == crawler_note(),
            preset(r, 500, 20, None, ThresholdAction::Optimize, 5),
    {
        AppPolicy {
            process_name: String::from_str(process_name),
            exe_path: None,
            auto_optimize: true,
            time_wait_threshold: Some(500),
            close_wait_threshold: Some(20),
            max_connections: None,
            threshold_action: ThresholdAction::Optimize,
            priority: 5,
            note: String::from_str("采集工具专用策略：积极清理 CLOSE_WAIT"),
        }
    }
}

pub open spec fn crawler_note() -> Seq<char> {
    "采集工具专用策略：积极清理 CLOSE_WAIT"@
}

/// No two policies share a process name.
pub open spec fn unique_names(s: Seq<AppPolicy>) -> bool {
    forall|i: int, j: int|
        0 <= i < s.len() && 0 <= j < s.len() && i != j ==> #[trigger] s[i].process_name@
            != #[trigger] s[j].process_name@
}

/// The last policy of `s` named `name`.
pub open spec fn find_policy(s: Seq<AppPolicy>, name: Seq<char>) -> Option<AppPolicy>
    decreases s.len(),
{
    if s.len() == 0 {
        None
    } else if s.last().process_name@ == name {
        Some(s.last())
    } else {
        find_policy(s.drop_last(), name)
    }
}

/// The policies of `s` keyed by process name.
pub open spec fn policy_map_of(s: Seq<AppPolicy>) -> Map<Seq<char>, AppPolicy> {
    Map::new(|n: Seq<char>| find_policy(s, n) is Some, |n: Seq<char>| find_policy(s, n)->0)
}

/// The store obtained by upserting the policies of `ps` in order into an empty store.
pub open spec fn upsert_all(ps: Seq<AppPolicy>) -> Map<Seq<char>, AppPolicy>
    decreases ps.len(),
{
    if ps.len() == 0 {
        Map::empty()
    } else {
        upsert_all(ps.drop_last()).insert(ps.last().process_name@, ps.last())
    }
}

proof fn lemma_find_policy(s: Seq<AppPolicy>, name: Seq<char>)
    requires
        unique_names(s),
    ensures
        forall|i: int|
            0 <= i < s.len() && #[trigger] s[i].process_name@ == name ==> find_policy(s, name)
                == Some(s[i]),
        (forall|i: int| 0 <= i < s.len() ==> #[trigger] s[i].process_name@ != name)
            ==> find_policy(s, name) is None,
    decreases s.len(),
{
    if s.len() > 0 {
        let t = s.drop_last();
        assert(unique_names(t)) by {
            assert forall|i: int, j: int|
                0 <= i < t.len() && 0 <= j < t.len() && i != j implies #[trigger] t[i].process_name@
                != #[trigger] t[j].process_name@ by {
                assert(s[i] == t[i] && s[j] == t[j]);
            }
        }
        lemma_find_policy(t, name);
        assert forall|i: int|
            0 <= i < s.len() && #[trigger] s[i].process_name@ == name implies find_policy(s, name)
            == Some(s[i]) by {
            if i < s.len() - 1 {
                assert(s[i] == t[i]);
                assert(s[i].process_name@ != s[s.len() - 1].process_name@);
            }
        }
        if forall|i: int| 0 <= i < s.len() ==> #[trigger] s[i].process_name@ != name {
            assert forall|i: int| 0 <= i < t.len() implies #[trigger] t[i].process_name@ != name by {
                assert(s[i] == t[i]);
            }
        }
    }
}

/// Index of the policy named `name`, if any.
fn find_in(entries: &Vec<AppPolicy>, name: &String) -> (r: Option<usize>)
    ensures
        match r {
            Some(i) => i < entries@.len() && entries@[i as int].process_name@ == name@,
            None => forall|i: int|
                0 <= i < entries@.len() ==> #[trigger] entries@[i].process_name@ != name@,
        },
{
    let mut i: usize = 0;
    while i < entries.len()
        invariant
            i <= entries@.len(),
            forall|k: int| 0 <= k < i ==> #[trigger] entries@[k].process_name@ != name@,
        decreases entries@.len() - i,
    {
        if entries[i].process_name == *name {
            return Some(i);
        }
        i = i + 1;
    }
    None
}

/// Per-process policies keyed by process name.
#[derive(Debug)]
pub struct PolicyTable {
    entries: Vec<AppPolicy>,
}

impl View for PolicyTable {
    type V = Seq<AppPolicy>;

    /// The stored policies, in storage order.
    closed spec fn view(&self) -> Seq<AppPolicy> {
        self.entries@
    }
}

impl PolicyTable {
    #[verifier::type_invariant]
    spec fn names_unique(self) -> bool {
        unique_names(self.entries@)
    }

    fn new() -> (r: Self)
        ensures
            r@ == Seq::<AppPolicy>::empty(),
    {
        PolicyTable { entries: Vec::new() }
    }

    fn find(&self, name: &String) -> (r: Option<usize>)
        ensures
            match r {
                Some(i) => i < self@.len() && self@[i as int].process_name@ == name@,
                None => forall|i: int|
                    0 <= i < self@.len() ==> #[trigger] self@[i].process_name@ != name@,
            },
    {
        find_in(&self.entries, name)
    }

    fn upsert(&mut self, policy: AppPolicy)
        ensures
            policy_map_of(final(self)@) == policy_map_of(old(self)@).insert(
                policy.process_name@,
                policy,
            ),
    {
        proof {
            use_type_invariant(&*self);
        }
        let ghost s = self.entries@;
        let mut v: Vec<AppPolicy> = Vec::new();
        core::mem::swap(&mut self.entries, &mut v);
        match find_in(&v, &policy.process_name) {
            Some(i) => {
                v[i] = policy;
                proof {
                    let t = v@;
                    let name = policy.process_name@;
                    assert(t == s.update(i as int, policy));
                    assert forall|a: int, b: int|
                        0 <= a < t.len() && 0 <= b < t.len() && a != b implies #[trigger] t[a].process_name@
                        != #[trigger] t[b].process_name@ by {
                        if a != i && b != i {
                            assert(s[a] == t[a] && s[b] == t[b]);
                        } else if a == i {
                            assert(s[b] == t[b]);
                            assert(s[a].process_name@ == name);
                        } else {
                            assert(s[a] == t[a]);
                            assert(s[b].process_name@ == name);
                        }
                    }
                    Self::lemma_map_after_write(s, t, i as int, policy);
                }
            },
            None => {
                v.push(policy);
                proof {
                    let t = v@;
                    assert(t == s.push(policy));
                    assert forall|a: int, b: int|
                        0 <= a < t.len() && 0 <= b < t.len() && a != b implies #[trigger] t[a].process_name@
                        != #[trigger] t[b].process_name@ by {
                        if a < s.len() && b < s.len() {
                            assert(s[a] == t[a] && s[b] == t[b]);
                        } else if a < s.len() {
                            assert(s[a] == t[a]);
                        } else {
                            assert(s[b] == t[b]);
                        }
                    }
                    Self::lemma_map_after_write(s, t, s.len() as int, policy);
                }
            },
        }
        core::mem::swap(&mut self.entries, &mut v);
    }

    /// After writing `p` at index `i` (an update, or an append when `i` is the
    /// old length) of a table whose other names differ from `p`'s, the map
    /// gains `p` and keeps the rest.
    proof fn lemma_map_after_write(s: Seq<AppPolicy>, t: Seq<AppPolicy>, i: int, p: AppPolicy)
        requires
            unique_names(s),
            unique_names(t),
            0 <= i <= s.len(),
            i < s.len() ==> s[i].process_name@ == p.process_name@ && t == s.update(i, p),
            i == s.len() ==> t == s.push(p) && forall|k: int|
                0 <= k < s.len() ==> #[trigger] s[k].process_name@ != p.process_name@,
        ensures
            policy_map_of(t) == policy_map_of(s).insert(p.process_name@, p),
    {
        assert forall|n: Seq<char>| #[trigger] find_policy(t, n) == (if n == p.process_name@ {
            Some(p)
        } else {
            find_policy(s, n)
        }) by {
            lemma_find_policy(t, n);
            lemma_find_policy(s, n);
            assert(t[i] == p);
            if n != p.process_name@ {
                if exists|k: int| 0 <= k < s.len() && s[k].process_name@ == n {
                    let k = choose|k: int| 0 <= k < s.len() && s[k].process_name@ == n;
                    assert(t[k] == s[k]);
                } else {
                    assert forall|k: int| 0 <= k < t.len() implies #[trigger] t[k].process_name@
                        != n by {
                        if k != i {
                            assert(t[k] == s[k]);
                        }
                    }
                }
            }
        }
        assert(policy_map_of(t) =~= policy_map_of(s).insert(p.process_name@, p));
    }

    fn remove(&mut self, name: &String) -> (r: Option<AppPolicy>)
        ensures
            policy_map_of(old(self)@).contains_key(name@) ==> r == Some(
                policy_map_of(old(self)@)[name@],
            ),
            !policy_map_of(old(self)@).contains_key(name@) ==> r is None,
            policy_map_of(final(self)@) == policy_map_of(old(self)@).remove(
                name@,
            ),
    {
        proof {
            use_type_invariant(&*self);
        }
        let ghost s = self.entries@;
        proof {
            lemma_find_policy(s, name@);
        }
        let mut v: Vec<AppPolicy> = Vec::new();
        core::mem::swap(&mut self.entries, &mut v);
        let r = match find_in(&v, name) {
            Some(i) => {
                let p = v.remove(i);
                proof {
                    let t = v@;
                    assert(t == s.remove(i as int));
                    assert forall|a: int, b: int|
                        0 <= a < t.len() && 0 <= b < t.len() && a != b implies #[trigger] t[a].process_name@
                        != #[trigger] t[b].process_name@ by {
                        let sa = if a < i { a } else { a + 1 };
                        let sb = if b < i { b } else { b + 1 };
                        assert(t[a] == s[sa] && t[b] == s[sb]);
                    }
                    assert forall|n: Seq<char>| #[trigger] find_policy(t, n) == (if n == name@ {
                        None
                    } else {
                        find_policy(s, n)
                    }) by {
                        lemma_find_policy(t, n);
                        lemma_find_policy(s, n);
                        if n != name@ {
                            if exists|k: int| 0 <= k < s.len() && s[k].process_name@ == n {
                                let k = choose|k: int| 0 <= k < s.len() && s[k].process_name@ == n;
                                let tk = if k < i { k } else { k - 1 };
                                assert(t[tk] == s[k]);
                            } else {
                                assert forall|k: int| 0 <= k < t.len() implies #[trigger] t[k].process_name@
                                    != n by {
                                    let sk = if k < i { k } else { k + 1 };
                                    assert(t[k] == s[sk]);
                                }
                            }
                        } else {
                            assert forall|k: int| 0 <= k < t.len() implies #[trigger] t[k].process_name@
                                != n by {
                                let sk = if k < i { k } else { k + 1 };
                                assert(t[k] == s[sk]);
                            }
                        }
                    }
                    assert(policy_map_of(t) =~= policy_map_of(s).remove(name@));
                }
                Some(p)
            },
            None => {
                assert(policy_map_of(s) =~= policy_map_of(s).remove(name@));
                None
            },
        };
        core::mem::swap(&mut self.entries, &mut v);
        r
    }
}

/// The policy store: per-process policies keyed by process name, a default
/// policy, and white/black lists of name fragments.
#[derive(Debug)]
pub struct PolicyManager {
    /// Policies of individual processes; names are unique.
    pub policies: PolicyTable,
    /// Policy for processes without one of their own.
    pub default_policy: AppPolicy,
    /// Name fragments of processes that are never touched.
    pub whitelist: Vec<String>,
    /// Name fragments of processes that are always restricted.
    pub blacklist: Vec<String>,
}

impl Default for PolicyManager {
    /// The same store as [`PolicyManager::new`].
    fn default() -> (r: Self)
        ensures
            r.policy_map() == Map::<Seq<char>, AppPolicy>::empty(),
            preset(r.default_policy, 300, 30, None, ThresholdAction::Alert, 100),
            r.whitelist@ == Seq::<String>::empty(),
            r.blacklist@ == Seq::<String>::empty(),
    {
        PolicyManager::new()
    }
}

/// Some entry of `list` occurs in `name`.
pub open spec fn matches_any(list: Seq<String>, name: Seq<char>) -> bool {
    exists|i: int| 0 <= i < list.len() && contains_run(name, #[trigger] list[i]@)
}

impl PolicyManager {
    /// The stored policies, in storage order.
    pub open spec fn stored(&self) -> Seq<AppPolicy> {
        self.policies@
    }

    /// The per-process policies keyed by process name.
    pub open spec fn policy_map(&self) -> Map<Seq<char>, AppPolicy> {
        policy_map_of(self.stored())
    }

    /// The policy that applies to `name`: its own, else the default.
    pub open spec fn policy_for(&self, name: Seq<char>) -> AppPolicy {
        if self.policy_map().contains_key(name) {
            self.policy_map()[name]
        } else {
            self.default_policy
        }
    }

    /// No two stored policies share a name; true of every store value.
    pub open spec fn wf(&self) -> bool {
        unique_names(self.stored())
    }

    pub fn new() -> (r: Self)
        ensures
            r.policy_map() == Map::<Seq<char>, AppPolicy>::empty(),
            r.stored() == Seq::<AppPolicy>::empty(),
            r.default_policy.process_name@ == Seq::<char>::empty(),
            preset(r.default_policy, 300, 30, None, ThresholdAction::Alert, 100),
            r.whitelist@ == Seq::<String>::empty(),
            r.blacklist@ == Seq::<String>::empty(),
            r.wf(),
    {
        let r = PolicyManager {
            policies: PolicyTable::new(),
            default_policy: AppPolicy::default(),
            whitelist: Vec::new(),
            blacklist: Vec::new(),
        };
        assert(r.policy_map() =~= Map::<Seq<char>, AppPolicy>::empty());
        r
    }

    /// Adds or replaces the policy of `policy.process_name`; the last write wins.
    pub fn set_policy(&mut self, policy: AppPolicy)
        ensures
            final(self).policy_map() == old(self).policy_map().insert(
                policy.process_name@,
                policy,
            ),
            final(self).default_policy == old(self).default_policy,
            final(self).whitelist == old(self).whitelist,
            final(self).blacklist == old(self).blacklist,
            final(self).wf(),
    {
        self.policies.upsert(policy);
        proof {
            use_type_invariant(&self.policies);
        }
    }

    /// The policy of `process_name`, or the default policy if it has none.
    pub fn get_policy(&self, process_name: &str) -> (r: &AppPolicy)
        ensures
            *r == self.policy_for(process_name@),
    {
        proof {
            use_type_invariant(&self.policies);
            lemma_find_policy(self.stored(), process_name@);
        }
        let key = String::from_str(process_name);
        match self.policies.find(&key) {
            Some(i) => &self.policies.entries[i],
            None => &self.default_policy,
        }
    }

    /// Removes the policy of `process_name` and returns it, if there was one.
    pub fn remove_policy(&mut self, process_name: &str) -> (r: Option<AppPolicy>)
        ensures
            old(self).policy_map().contains_key(process_name@) ==> r == Some(
                old(self).policy_map()[process_name@],
            ),
            !old(self).policy_map().contains_key(process_name@) ==> r is None,
            final(self).policy_map() == old(self).policy_map().remove(process_name@),
            final(self).default_policy == old(self).default_policy,
            final(self).whitelist == old(self).whitelist,
            final(self).blacklist == old(self).blacklist,
            final(self).wf(),
    {
        let key = String::from_str(process_name);
        let r = self.policies.remove(&key);
        proof {
            use_type_invariant(&self.policies);
        }
        r
    }

    /// Every stored policy, once each.
    pub fn all_policies(&self) -> (r: Vec<&AppPolicy>)
        ensures
            r@.map_values(|p: &AppPolicy| *p) == self.stored(),
            forall|i: int|
                0 <= i < r@.len() ==> self.policy_map().contains_key(#[trigger] r@[i].process_name@)
                    && self.policy_map()[r@[i].process_name@] == *r@[i],
            forall|n: Seq<char>|
                #[trigger] self.policy_map().contains_key(n) ==> exists|i: int|
                    0 <= i < r@.len() && r@[i].process_name@ == n,
            unique_names(r@.map_values(|p: &AppPolicy| *p)),
    {
        proof {
            use_type_invariant(&self.policies);
        }
        let mut r: Vec<&AppPolicy> = Vec::new();
        let n = self.policies.entries.len();
        for i in 0..n
            invariant
                n == self.stored().len(),
                self.stored() == self.policies.entries@,
                r@.len() == i,
                forall|k: int| 0 <= k < i ==> *#[trigger] r@[k] == self.stored()[k],
        {
            r.push(&self.policies.entries[i]);
        }
        let ghost s = self.stored();
        assert(r@.map_values(|p: &AppPolicy| *p) =~= s);
        proof {
            assert forall|i: int| 0 <= i < r@.len() implies self.policy_map().contains_key(
                #[trigger] r@[i].process_name@,
            ) && self.policy_map()[r@[i].process_name@] == *r@[i] by {
                assert(*r@[i] == s[i]);
                lemma_find_policy(s, s[i].process_name@);
            }
            assert forall|nm: Seq<char>| #[trigger] self.policy_map().contains_key(nm) implies exists|
                i: int,
            | 0 <= i < r@.len() && r@[i].process_name@ == nm by {
                lemma_find_policy(s, nm);
                let i = choose|i: int| 0 <= i < s.len() && s[i].process_name@ == nm;
                assert(*r@[i] == s[i]);
            }
        }
        r
    }

    /// Whether some whitelist entry occurs in `process_name` (case-sensitive).
    pub fn is_whitelisted(&self, process_name: &str) -> (r: bool)
        ensures
            r == matches_any(self.whitelist@, process_name@),
    {
        any_fragment_in(&self.whitelist, process_name)
    }

    /// Whether some blacklist entry occurs in `process_name` (case-sensitive).
    pub fn is_blacklisted(&self, process_name: &str) -> (r: bool)
        ensures
            r == matches_any(self.blacklist@, process_name@),
    {
        any_fragment_in(&self.blacklist, process_name)
    }

    /// A store holding `policies` (upserted in order, so a later policy with
    /// an already-seen name replaces the earlier one) and the given default
    /// policy and lists.
    pub fn from_parts(
        policies: Vec<AppPolicy>,
        default_policy: AppPolicy,
        whitelist: Vec<String>,
        blacklist: Vec<String>,
    ) -> (r: Self)
        ensures
            r.policy_map() == upsert_all(policies@),
            r.default_policy == default_policy,
            r.whitelist == whitelist,
            r.blacklist == blacklist,
            r.wf(),
    {
        let ghost ps = policies@;
        let mut table = PolicyTable::new();
        assert(policy_map_of(table@) =~= upsert_all(ps.take(0)));
        for p in it: policies
            invariant
                it.seq() == ps,
                policy_map_of(table@) == upsert_all(ps.take(it.index() as int)),
        {
            proof {
                let k = it.index() as int;
                assert(ps.take(k + 1).drop_last() =~= ps.take(k));
                assert(ps.take(k + 1).last() == p);
            }
            table.upsert(p);
        }
        assert(ps.take(ps.len() as int) =~= ps);
        proof {
            use_type_invariant(&table);
        }
        PolicyManager { policies: table, default_policy, whitelist, blacklist }
    }
}

/// Whether some entry of `list` occurs in `name`.
fn any_fragment_in(list: &Vec<String>, name: &str) -> (r: bool)
    ensures
        r == matches_any(list@, name@),
{
    let hay = chars_of(name);
    let mut i: usize = 0;
    while i < list.len()
        invariant
            i <= list@.len(),
            hay@ == name@,
            forall|k: int| 0 <= k < i ==> !contains_run(name@, #[trigger] list@[k]@),
        decreases list@.len() - i,
    {
        let needle = chars_of(list[i].as_str());
        if contains_chars(&hay, &needle) {
            return true;
        }
        i = i + 1;
    }
    false
}

/// Upserting policies with distinct names gives the same store in any order.
pub proof fn lemma_upsert_all_order_independent(ps: Seq<AppPolicy>, qs: Seq<AppPolicy>)
    requires
        unique_names(ps),
        ps.to_multiset() == qs.to_multiset(),
    ensures
        upsert_all(ps) == upsert_all(qs),
{
    lemma_upsert_all_unique(ps);
    assert(unique_names(qs)) by {
        assert forall|i: int, j: int|
            0 <= i < qs.len() && 0 <= j < qs.len() && i != j implies #[trigger] qs[i].process_name@
            != #[trigger] qs[j].process_name@ by {
            if qs[i].process_name@ == qs[j].process_name@ {
                assert(qs.contains(qs[i]) && qs.contains(qs[j]));
                assert(ps.to_multiset().count(qs[i]) > 0 && ps.to_multiset().count(qs[j]) > 0);
                let a = choose|a: int| 0 <= a < ps.len() && ps[a] == qs[i];
                let b = choose|b: int| 0 <= b < ps.len() && ps[b] == qs[j];
                if a == b {
                    lemma_count_two(qs, i, j);
                    lemma_count_one(ps, a);
                } else {
                    assert(ps[a].process_name@ != ps[b].process_name@);
                }
            }
        }
    }
    lemma_upsert_all_unique(qs);
    assert forall|n: Seq<char>| #[trigger] upsert_all(ps).contains_key(n) implies upsert_all(
        qs,
    ).contains_key(n) && upsert_all(qs)[n] == upsert_all(ps)[n] by {
        let a = choose|a: int| 0 <= a < ps.len() && ps[a].process_name@ == n;
        assert(ps.contains(ps[a]));
        assert(qs.to_multiset().count(ps[a]) > 0);
        let b = choose|b: int| 0 <= b < qs.len() && qs[b] == ps[a];
        assert(qs[b].process_name@ == n);
    }
    assert forall|n: Seq<char>| #[trigger] upsert_all(qs).contains_key(n) implies upsert_all(
        ps,
    ).contains_key(n) by {
        let b = choose|b: int| 0 <= b < qs.len() && qs[b].process_name@ == n;
        assert(qs.contains(qs[b]));
        assert(ps.to_multiset().count(qs[b]) > 0);
        let a = choose|a: int| 0 <= a < ps.len() && ps[a] == qs[b];
        assert(ps[a].process_name@ == n);
    }
    assert(upsert_all(ps) =~= upsert_all(qs));
}

proof fn lemma_count_one(s: Seq<AppPolicy>, a: int)
    requires
        unique_names(s),
        0 <= a < s.len(),
    ensures
        s.to_multiset().count(s[a]) == 1,
    decreases s.len(),
{
    let t = s.drop_last();
    assert(s =~= t.push(s.last()));
    assert(unique_names(t)) by {
        assert forall|i: int, j: int|
            0 <= i < t.len() && 0 <= j < t.len() && i != j implies #[trigger] t[i].process_name@
            != #[trigger] t[j].process_name@ by {
            assert(s[i] == t[i] && s[j] == t[j]);
        }
    }
    if a == s.len() - 1 {
        if t.contains(s[a]) {
            let k = choose|k: int| 0 <= k < t.len() && t[k] == s[a];
            assert(s[k] == t[k]);
            assert(s[k].process_name@ == s[a].process_name@);
            assert(false);
        }
        assert(!t.contains(s[a]));
        assert(t.to_multiset().count(s[a]) == 0);
    } else {
        lemma_count_one(t, a);
        assert(s[a] == t[a]);
        assert(s[a].process_name@ != s.last().process_name@);
    }
}

proof fn lemma_count_two(s: Seq<AppPolicy>, i: int, j: int)
    requires
        0 <= i < s.len(),
        0 <= j < s.len(),
        i != j,
        s[i] == s[j],
    ensures
        s.to_multiset().count(s[i]) >= 2,
    decreases s.len(),
{
    let t = s.drop_last();
    assert(s =~= t.push(s.last()));
    if i == s.len() - 1 {
        assert(t[j] == s[j]);
        assert(t.contains(s[i]));
    } else if j == s.len() - 1 {
        assert(t[i] == s[i]);
        assert(t.contains(s[i]));
    } else {
        assert(t[i] == s[i] && t[j] == s[j]);
        lemma_count_two(t, i, j);
    }
}

/// For distinct names, the upserted store holds exactly the policies of `ps`.
proof fn lemma_upsert_all_unique(ps: Seq<AppPolicy>)
    requires
        unique_names(ps),
    ensures
        forall|n: Seq<char>|
            #[trigger] upsert_all(ps).contains_key(n) <==> exists|a: int|
                0 <= a < ps.len() && ps[a].process_name@ == n,
        forall|a: int|
            0 <= a < ps.len() ==> #[trigger] upsert_all(ps)[ps[a].process_name@] == ps[a],
    decreases ps.len(),
{
    if ps.len() > 0 {
        let t = ps.drop_last();
        assert(unique_names(t)) by {
            assert forall|i: int, j: int|
                0 <= i < t.len() && 0 <= j < t.len() && i != j implies #[trigger] t[i].process_name@
                != #[trigger] t[j].process_name@ by {
                assert(ps[i] == t[i] && ps[j] == t[j]);
            }
        }
        lemma_upsert_all_unique(t);
        let last = ps[ps.len() - 1];
        assert(upsert_all(ps) == upsert_all(t).insert(last.process_name@, last));
        assert forall|n: Seq<char>| #[trigger] upsert_all(ps).contains_key(n) implies exists|a: int|
            0 <= a < ps.len() && ps[a].process_name@ == n by {
            if n != ps.last().process_name@ {
                let a = choose|a: int| 0 <= a < t.len() && t[a].process_name@ == n;
                assert(ps[a] == t[a]);
            } else {
                assert(ps[ps.len() - 1].process_name@ == n);
            }
        }
        assert forall|n: Seq<char>|
            (exists|a: int| 0 <= a < ps.len() && ps[a].process_name@ == n) implies #[trigger] upsert_all(
            ps,
        ).contains_key(n) by {
            let a = choose|a: int| 0 <= a < ps.len() && ps[a].process_name@ == n;
            if a < ps.len() - 1 {
                assert(t[a] == ps[a]);
            }
        }
        assert forall|a: int| 0 <= a < ps.len() implies #[trigger] upsert_all(
            ps,
        )[ps[a].process_name@] == ps[a] by {
            if a < ps.len() - 1 {
                assert(t[a] == ps[a]);
                assert(ps[a].process_name@ != ps[ps.len() - 1].process_name@);
            }
        }
    }
}

/// Rebuilding a store from its own policies, listed in any order, gives back
/// the same policy set.
pub proof fn lemma_rebuild_same_policies(store: PolicyManager, ps: Seq<AppPolicy>)
    requires
        store.wf(),
        ps.to_multiset() == store.stored().to_multiset(),
    ensures
        upsert_all(ps) == store.policy_map(),
{
    let s = store.stored();
    lemma_upsert_all_order_independent(s, ps);
    lemma_upsert_all_unique(s);
    assert forall|n: Seq<char>| #[trigger] upsert_all(s).contains_key(n) == store.policy_map().contains_key(n) by {
        lemma_find_policy(s, n);
    }
    assert forall|n: Seq<char>| #[trigger] store.policy_map().contains_key(n) implies upsert_all(s)[n]
        == store.policy_map()[n] by {
        lemma_find_policy(s, n);
        let a = choose|a: int| 0 <= a < s.len() && s[a].process_name@ == n;
    }
    assert(upsert_all(s) =~= store.policy_map());
}

/// A name without a policy of its own resolves to the store's default policy,
/// so two stores with the same policies but different defaults resolve such a
/// name to their own default each.
pub proof fn lemma_unknown_name_uses_default(a: PolicyManager, b: PolicyManager, name: Seq<char>)
    requires
        a.policy_map() == b.policy_map(),
        !a.policy_map().contains_key(name),
    ensures
        a.policy_for(name) == a.default_policy,
        b.policy_for(name) == b.default_policy,
{
}

} // verus!
