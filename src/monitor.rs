//! Aggregation of connection snapshots, health scoring and anomaly detection.
use std::collections::HashMap;
use vstd::prelude::*;
use vstd::std_specs::hash::group_hash_axioms;

use crate::text::{decimal, decimal_string};
use crate::{ProcessTcpStats, StateCounts, SystemTcpStats, TcpConnection, TcpState};

verus! {

broadcast use group_hash_axioms;

/// Number of connections of `s` in state `st`.
pub open spec fn count_state(s: Seq<TcpConnection>, st: TcpState) -> nat
    decreases s.len(),
{
    if s.len() == 0 {
        0
    } else {
        count_state(s.drop_last(), st) + if s.last().state == st {
            1nat
        } else {
            0nat
        }
    }
}

/// Counts the connections of a snapshot by state.
pub fn calculate_stats(connections: &[TcpConnection]) -> (r: StateCounts)
    ensures
        forall|st: TcpState| r.count(st) == count_state(connections@, st),
{
    let mut stats = StateCounts::new();
    let n = connections.len();
    for i in 0..n
        invariant
            n == connections@.len(),
            forall|st: TcpState| stats.count(st) == count_state(connections@.take(i as int), st),
            forall|st: TcpState| stats.count(st) <= i,
    {
        proof {
            assert(connections@.take(i + 1).drop_last() =~= connections@.take(i as int));
        }
        stats.increment(connections[i].state);
    }
    assert(connections@.take(n as int) =~= connections@);
    stats
}

/// The connections of `s` grouped by owning process, each group in snapshot order.
pub open spec fn groups(s: Seq<TcpConnection>) -> Map<u32, Seq<TcpConnection>>
    decreases s.len(),
{
    if s.len() == 0 {
        Map::empty()
    } else {
        let m = groups(s.drop_last());
        let c = s.last();
        m.insert(
            c.pid,
            if m.contains_key(c.pid) {
                m[c.pid].push(c)
            } else {
                seq![c]
            },
        )
    }
}

pub open spec fn group_view<'a>(g: Map<u32, Vec<&'a TcpConnection>>) -> Map<
    u32,
    Seq<TcpConnection>,
> {
    g.map_values(|v: Vec<&'a TcpConnection>| v@.map_values(|c: &'a TcpConnection| *c))
}

/// Groups the connections of a snapshot by owning process; pid 0 forms one group.
pub fn group_by_process<'a>(connections: &'a [TcpConnection]) -> (r: HashMap<
    u32,
    Vec<&'a TcpConnection>,
>)
    ensures
        group_view(r@) == groups(connections@),
{
    let mut g: HashMap<u32, Vec<&'a TcpConnection>> = HashMap::new();
    let n = connections.len();
    assert(group_view(g@) =~= groups(connections@.take(0)));
    for i in 0..n
        invariant
            n == connections@.len(),
            group_view(g@) == groups(connections@.take(i as int)),
    {
        let c = &connections[i];
        proof {
            assert(connections@.take(i + 1).drop_last() =~= connections@.take(i as int));
        }
        let ghost before = g@;
        let mut v: Vec<&'a TcpConnection> = match g.remove(&c.pid) {
            Some(v) => v,
            None => Vec::new(),
        };
        proof {
            if before.contains_key(c.pid) {
                assert(v@.map_values(|x: &'a TcpConnection| *x) == group_view(before)[c.pid]);
            } else {
                assert(v@.map_values(|x: &'a TcpConnection| *x) =~= Seq::<TcpConnection>::empty());
            }
        }
        let ghost prev = v@;
        v.push(c);
        assert(v@.map_values(|x: &'a TcpConnection| *x) =~= prev.map_values(
            |x: &'a TcpConnection| *x,
        ).push(*c));
        g.insert(c.pid, v);
        assert(group_view(g@) =~= groups(connections@.take(i + 1)));
    }
    assert(connections@.take(n as int) =~= connections@);
    g
}

/// The fixed-penalty health score: 100 less the penalties that apply, clamped to 0..=100.
pub open spec fn health_score_of(time_wait: int, close_wait: int, total: int) -> int {
    let penalty = (if time_wait > 100 {
        20int
    } else {
        0int
    }) + (if time_wait > 500 {
        30int
    } else {
        0int
    }) + (if close_wait > 50 {
        25int
    } else {
        0int
    }) + (if close_wait > 200 {
        25int
    } else {
        0int
    }) + (if total > 1000 {
        10int
    } else {
        0int
    }) + (if total > 5000 {
        15int
    } else {
        0int
    });
    if 100 - penalty < 0 {
        0
    } else {
        100 - penalty
    }
}

/// Health score of a process, from its TIME_WAIT, CLOSE_WAIT and total counts.
pub fn calculate_health_score(stats: &ProcessTcpStats) -> (r: u8)
    ensures
        r == health_score_of(
            stats.time_wait as int,
            stats.close_wait as int,
            stats.total_connections as int,
        ),
        r <= 100,
{
    let mut score: i32 = 100;
    if stats.time_wait > 100 {
        score -= 20;
    }
    if stats.time_wait > 500 {
        score -= 30;
    }
    if stats.close_wait > 50 {
        score -= 25;
    }
    if stats.close_wait > 200 {
        score -= 25;
    }
    if stats.total_connections > 1000 {
        score -= 10;
    }
    if stats.total_connections > 5000 {
        score -= 15;
    }
    if score < 0 {
        0
    } else {
        score as u8
    }
}

/// A detected connection anomaly of one process.
#[derive(Debug, Clone)]
pub struct ConnectionAnomaly {
    pub pid: u32,
    pub process_name: String,
    pub anomaly_type: AnomalyType,
    pub severity: Severity,
    pub message: String,
    pub suggestion: String,
}

/// Kinds of anomaly; only the first two are currently detected.
#[derive(Debug, Clone, Copy, PartialEq, Eq, Structural)]
pub enum AnomalyType {
    TooManyTimeWait,
    TooManyCloseWait,
    TooManyConnections,
    PortExhaustion,
    ConnectionLeak,
}

/// Severity, ordered `Info < Warning < Critical`.
#[derive(Debug, Clone, Copy, PartialEq, Eq, PartialOrd, Ord, Structural)]
pub enum Severity {
    Info,
    Warning,
    Critical,
}

/// The severity of the TIME_WAIT anomaly, if any.
pub open spec fn time_wait_severity(time_wait: int) -> Option<Severity> {
    if time_wait > 500 {
        Some(Severity::Critical)
    } else if time_wait > 100 {
        Some(Severity::Warning)
    } else {
        None
    }
}

pub open spec fn has_close_wait_anomaly(close_wait: int) -> bool {
    close_wait > 50
}

pub open spec fn time_wait_message(sev: Severity, time_wait: nat) -> Seq<char> {
    if sev == Severity::Critical {
        "TIME_WAIT连接数过多: "@ + decimal(time_wait)
    } else {
        "TIME_WAIT连接数较高: "@ + decimal(time_wait)
    }
}

pub open spec fn time_wait_suggestion(sev: Severity) -> Seq<char> {
    if sev == Severity::Critical {
        "建议降低TcpTimedWaitDelay或检查是否频繁创建短连接"@
    } else {
        "关注连接复用，考虑使用连接池"@
    }
}

pub open spec fn close_wait_message(close_wait: nat) -> Seq<char> {
    "CLOSE_WAIT连接数过多: "@ + decimal(close_wait) + "，可能存在连接泄漏"@
}

pub open spec fn close_wait_suggestion() -> Seq<char> {
    "检查程序是否正确关闭socket，可能需要重启应用"@
}

/// `a` reports an anomaly of `stats` of the given type and severity.
pub open spec fn anomaly_of(
    a: ConnectionAnomaly,
    stats: ProcessTcpStats,
    kind: AnomalyType,
    sev: Severity,
) -> bool {
    &&& a.pid == stats.pid
    &&& a.process_name@ == stats.process_name@
    &&& a.anomaly_type == kind
    &&& a.severity == sev
    &&& kind == AnomalyType::TooManyTimeWait ==> a.message@ == time_wait_message(
        sev,
        stats.time_wait as nat,
    ) && a.suggestion@ == time_wait_suggestion(sev)
    &&& kind == AnomalyType::TooManyCloseWait ==> a.message@ == close_wait_message(
        stats.close_wait as nat,
    ) && a.suggestion@ == close_wait_suggestion()
}

/// Flags excess TIME_WAIT (Critical above 500, else Warning above 100), then
/// excess CLOSE_WAIT (Critical above 50).
pub fn detect_anomalies(stats: &ProcessTcpStats) -> (r: Vec<ConnectionAnomaly>)
    ensures
        r@.len() == (if time_wait_severity(stats.time_wait as int) is Some {
            1int
        } else {
            0int
        }) + (if has_close_wait_anomaly(stats.close_wait as int) {
            1int
        } else {
            0int
        }),
        time_wait_severity(stats.time_wait as int) is Some ==> anomaly_of(
            r@[0],
            *stats,
            AnomalyType::TooManyTimeWait,
            time_wait_severity(stats.time_wait as int)->0,
        ),
        has_close_wait_anomaly(stats.close_wait as int) ==> anomaly_of(
            r@.last(),
            *stats,
            AnomalyType::TooManyCloseWait,
            Severity::Critical,
        ),
{
    let mut anomalies: Vec<ConnectionAnomaly> = Vec::new();
    if stats.time_wait > 500 {
        let mut message = String::from_str("TIME_WAIT连接数过多: ");
        message.append(decimal_string(stats.time_wait as u64).as_str());
        anomalies.push(
            ConnectionAnomaly {
                pid: stats.pid,
                process_name: stats.process_name.clone(),
                anomaly_type: AnomalyType::TooManyTimeWait,
                severity: Severity::Critical,
                message,
                suggestion: String::from_str("建议降低TcpTimedWaitDelay或检查是否频繁创建短连接"),
            },
        );
    } else if stats.time_wait > 100 {
        let mut message = String::from_str("TIME_WAIT连接数较高: ");
        message.append(decimal_string(stats.time_wait as u64).as_str());
        anomalies.push(
            ConnectionAnomaly {
                pid: stats.pid,
                process_name: stats.process_name.clone(),
                anomaly_type: AnomalyType::TooManyTimeWait,
                severity: Severity::Warning,
                message,
                suggestion: String::from_str("关注连接复用，考虑使用连接池"),
            },
        );
    }
    if stats.close_wait > 50 {
        let mut message = String::from_str("CLOSE_WAIT连接数过多: ");
        message.append(decimal_string(stats.close_wait as u64).as_str());
        message.append("，可能存在连接泄漏");
        anomalies.push(
            ConnectionAnomaly {
                pid: stats.pid,
                process_name: stats.process_name.clone(),
                anomaly_type: AnomalyType::TooManyCloseWait,
                severity: Severity::Critical,
                message,
                suggestion: String::from_str("检查程序是否正确关闭socket，可能需要重启应用"),
            },
        );
    }
    anomalies
}

/// Number of connections of `s` owned by `pid`.
pub open spec fn count_pid(s: Seq<TcpConnection>, pid: u32) -> nat
    decreases s.len(),
{
    if s.len() == 0 {
        0
    } else {
        count_pid(s.drop_last(), pid) + if s.last().pid == pid {
            1nat
        } else {
            0nat
        }
    }
}

/// Number of connections of `s` owned by `pid` in state `st`.
pub open spec fn count_pid_state(s: Seq<TcpConnection>, pid: u32, st: TcpState) -> nat
    decreases s.len(),
{
    if s.len() == 0 {
        0
    } else {
        count_pid_state(s.drop_last(), pid, st) + if s.last().pid == pid && s.last().state
            == st {
            1nat
        } else {
            0nat
        }
    }
}

/// States that have no count of their own in [`ProcessTcpStats`].
pub open spec fn is_other_state(st: TcpState) -> bool {
    !(st == TcpState::Established || st == TcpState::TimeWait || st == TcpState::CloseWait
        || st == TcpState::Listen)
}

/// Number of connections of `s` owned by `pid` in one of the other states.
pub open spec fn count_pid_other(s: Seq<TcpConnection>, pid: u32) -> nat
    decreases s.len(),
{
    if s.len() == 0 {
        0
    } else {
        count_pid_other(s.drop_last(), pid) + if s.last().pid == pid && is_other_state(
            s.last().state,
        ) {
            1nat
        } else {
            0nat
        }
    }
}

/// The process name of the first connection of `s` owned by `pid`.
pub open spec fn first_name(s: Seq<TcpConnection>, pid: u32) -> Seq<char>
    decreases s.len(),
{
    if s.len() == 0 {
        seq![]
    } else if count_pid(s.drop_last(), pid) > 0 {
        first_name(s.drop_last(), pid)
    } else if s.last().pid == pid {
        s.last().process_name@
    } else {
        seq![]
    }
}

/// The connection counts of `e` are those of process `e.pid` in `s`.
pub open spec fn counts_match(e: ProcessTcpStats, s: Seq<TcpConnection>) -> bool {
    &&& e.total_connections == count_pid(s, e.pid)
    &&& e.established == count_pid_state(s, e.pid, TcpState::Established)
    &&& e.time_wait == count_pid_state(s, e.pid, TcpState::TimeWait)
    &&& e.close_wait == count_pid_state(s, e.pid, TcpState::CloseWait)
    &&& e.listen == count_pid_state(s, e.pid, TcpState::Listen)
    &&& e.other == count_pid_other(s, e.pid)
}

pub open spec fn score_matches(e: ProcessTcpStats) -> bool {
    e.health_score == health_score_of(
        e.time_wait as int,
        e.close_wait as int,
        e.total_connections as int,
    )
}

/// `e` is the entry of a process that owns connections in `s`, before scoring.
pub open spec fn entry_counts(e: ProcessTcpStats, s: Seq<TcpConnection>) -> bool {
    &&& counts_match(e, s)
    &&& count_pid(s, e.pid) > 0
    &&& e.process_name@ == first_name(s, e.pid)
    &&& e.exe_path is None
}

/// `e` is the complete, scored entry of a process that owns connections in `s`.
pub open spec fn describes(e: ProcessTcpStats, s: Seq<TcpConnection>) -> bool {
    entry_counts(e, s) && score_matches(e)
}

/// Every connection is counted once: in the total, and in exactly one of the
/// five per-state counts.
pub proof fn lemma_process_counts_sum(s: Seq<TcpConnection>, pid: u32)
    ensures
        count_pid(s, pid) == count_pid_state(s, pid, TcpState::Established) + count_pid_state(
            s,
            pid,
            TcpState::TimeWait,
        ) + count_pid_state(s, pid, TcpState::CloseWait) + count_pid_state(
            s,
            pid,
            TcpState::Listen,
        ) + count_pid_other(s, pid),
    decreases s.len(),
{
    if s.len() > 0 {
        lemma_process_counts_sum(s.drop_last(), pid);
    }
}

proof fn lemma_count_pid_bounded(s: Seq<TcpConnection>, pid: u32)
    ensures
        count_pid(s, pid) <= s.len(),
    decreases s.len(),
{
    if s.len() > 0 {
        lemma_count_pid_bounded(s.drop_last(), pid);
    }
}

/// Adds one connection to the counts of an entry.
fn count_connection(e: &mut ProcessTcpStats, state: TcpState)
    requires
        old(e).wf(),
        old(e).total_connections < usize::MAX,
    ensures
        final(e).wf(),
        final(e).pid == old(e).pid,
        final(e).process_name == old(e).process_name,
        final(e).exe_path == old(e).exe_path,
        final(e).health_score == old(e).health_score,
        final(e).total_connections == old(e).total_connections + 1,
        final(e).established == old(e).established + if state == TcpState::Established {
            1int
        } else {
            0int
        },
        final(e).time_wait == old(e).time_wait + if state == TcpState::TimeWait {
            1int
        } else {
            0int
        },
        final(e).close_wait == old(e).close_wait + if state == TcpState::CloseWait {
            1int
        } else {
            0int
        },
        final(e).listen == old(e).listen + if state == TcpState::Listen {
            1int
        } else {
            0int
        },
        final(e).other == old(e).other + if is_other_state(state) {
            1int
        } else {
            0int
        },
{
    e.total_connections = e.total_connections + 1;
    match state {
        TcpState::Established => e.established = e.established + 1,
        TcpState::TimeWait => e.time_wait = e.time_wait + 1,
        TcpState::CloseWait => e.close_wait = e.close_wait + 1,
        TcpState::Listen => e.listen = e.listen + 1,
        _ => e.other = e.other + 1,
    }
}

/// Statistics of process `pid` over a snapshot. The name is that of the
/// process's first connection, or `fallback_name` when it owns none.
pub fn process_stats(connections: &[TcpConnection], pid: u32, fallback_name: String) -> (r:
    ProcessTcpStats)
    ensures
        r.pid == pid,
        counts_match(r, connections@),
        r.process_name@ == if count_pid(connections@, pid) > 0 {
            first_name(connections@, pid)
        } else {
            fallback_name@
        },
        r.exe_path is None,
        score_matches(r),
        r.wf(),
{
    let mut stats = ProcessTcpStats {
        pid,
        process_name: String::new(),
        exe_path: None,
        total_connections: 0,
        established: 0,
        time_wait: 0,
        close_wait: 0,
        listen: 0,
        other: 0,
        health_score: 0,
    };
    let mut named = false;
    let n = connections.len();
    for i in 0..n
        invariant
            n == connections@.len(),
            stats.pid == pid,
            stats.exe_path is None,
            stats.wf(),
            counts_match(stats, connections@.take(i as int)),
            stats.total_connections <= i,
            named == (count_pid(connections@.take(i as int), pid) > 0),
            named ==> stats.process_name@ == first_name(connections@.take(i as int), pid),
    {
        let c = &connections[i];
        proof {
            assert(connections@.take(i + 1).drop_last() =~= connections@.take(i as int));
        }
        if c.pid == pid {
            if !named {
                stats.process_name = c.process_name.clone();
                named = true;
            }
            count_connection(&mut stats, c.state);
        }
    }
    assert(connections@.take(n as int) =~= connections@);
    if !named {
        stats.process_name = fallback_name;
    }
    stats.health_score = calculate_health_score(&stats);
    stats
}

/// Index of the entry of process `pid`, if there is one.
fn find_process(procs: &Vec<ProcessTcpStats>, pid: u32) -> (r: Option<usize>)
    ensures
        match r {
            Some(j) => j < procs@.len() && procs@[j as int].pid == pid,
            None => forall|j: int| 0 <= j < procs@.len() ==> procs@[j].pid != pid,
        },
{
    let mut j: usize = 0;
    while j < procs.len()
        invariant
            j <= procs@.len(),
            forall|k: int| 0 <= k < j ==> procs@[k].pid != pid,
        decreases procs@.len() - j,
    {
        if procs[j].pid == pid {
            return Some(j);
        }
        j = j + 1;
    }
    None
}

/// The entries have pairwise distinct pids.
pub open spec fn distinct_pids(v: Seq<ProcessTcpStats>) -> bool {
    forall|a: int, b: int|
        0 <= a < v.len() && 0 <= b < v.len() && a != b ==> #[trigger] v[a].pid != #[trigger] v[b].pid
}

/// Every process that owns a connection of `s` has an entry.
pub open spec fn covers(v: Seq<ProcessTcpStats>, s: Seq<TcpConnection>) -> bool {
    forall|pid: u32|
        #[trigger] count_pid(s, pid) > 0 ==> exists|j: int| 0 <= j < v.len() && v[j].pid == pid
}

/// Entries by non-increasing connection count.
pub open spec fn sorted_by_total(v: Seq<ProcessTcpStats>) -> bool {
    forall|a: int, b: int|
        0 <= a < b < v.len() ==> #[trigger] v[a].total_connections >= #[trigger] v[b].total_connections
}

/// The per-process entries of a snapshot, in order of first appearance, unscored.
fn collect_processes(connections: &[TcpConnection]) -> (r: Vec<ProcessTcpStats>)
    ensures
        forall|j: int| 0 <= j < r@.len() ==> entry_counts(#[trigger] r@[j], connections@),
        forall|j: int| 0 <= j < r@.len() ==> (#[trigger] r@[j]).wf(),
        distinct_pids(r@),
        covers(r@, connections@),
{
    let mut procs: Vec<ProcessTcpStats> = Vec::new();
    let n = connections.len();
    for i in 0..n
        invariant
            n == connections@.len(),
            forall|j: int|
                0 <= j < procs@.len() ==> entry_counts(#[trigger] procs@[j], connections@.take(i as int)),
            forall|j: int| 0 <= j < procs@.len() ==> (#[trigger] procs@[j]).wf(),
            distinct_pids(procs@),
            covers(procs@, connections@.take(i as int)),
    {
        let c = &connections[i];
        let ghost s0 = connections@.take(i as int);
        let ghost s1 = connections@.take(i + 1);
        proof {
            assert(s1.drop_last() =~= s0);
            assert(s1.last() == *c);
        }
        let ghost old_procs = procs@;
        match find_process(&procs, c.pid) {
            Some(j) => {
                proof {
                    lemma_count_pid_bounded(s0, c.pid);
                }
                count_connection(&mut procs[j], c.state);
                proof {
                    assert forall|k: int| 0 <= k < procs@.len() implies entry_counts(
                        #[trigger] procs@[k],
                        s1,
                    ) by {
                        assert(entry_counts(old_procs[k], s0));
                    }
                    assert forall|pid: u32| #[trigger] count_pid(s1, pid) > 0 implies exists|
                        k: int,
                    | 0 <= k < procs@.len() && procs@[k].pid == pid by {
                        if pid != c.pid {
                            assert(count_pid(s0, pid) > 0);
                            let k = choose|k: int| 0 <= k < old_procs.len() && old_procs[k].pid == pid;
                            assert(procs@[k].pid == pid);
                        } else {
                            assert(procs@[j as int].pid == pid);
                        }
                    }
                }
            },
            None => {
                proof {
                    if count_pid(s0, c.pid) > 0 {
                        let k = choose|k: int| 0 <= k < old_procs.len() && old_procs[k].pid == c.pid;
                        assert(old_procs[k].pid != c.pid);
                    }
                    lemma_process_counts_sum(s0, c.pid);
                }
                let mut e = ProcessTcpStats {
                    pid: c.pid,
                    process_name: c.process_name.clone(),
                    exe_path: None,
                    total_connections: 0,
                    established: 0,
                    time_wait: 0,
                    close_wait: 0,
                    listen: 0,
                    other: 0,
                    health_score: 0,
                };
                count_connection(&mut e, c.state);
                procs.push(e);
                proof {
                    assert forall|k: int| 0 <= k < procs@.len() implies entry_counts(
                        #[trigger] procs@[k],
                        s1,
                    ) by {
                        if k < old_procs.len() {
                            assert(entry_counts(old_procs[k], s0));
                            assert(old_procs[k].pid != c.pid);
                        }
                    }
                    assert forall|pid: u32| #[trigger] count_pid(s1, pid) > 0 implies exists|
                        k: int,
                    | 0 <= k < procs@.len() && procs@[k].pid == pid by {
                        if pid != c.pid {
                            assert(count_pid(s0, pid) > 0);
                            let k = choose|k: int| 0 <= k < old_procs.len() && old_procs[k].pid == pid;
                            assert(procs@[k].pid == pid);
                        } else {
                            assert(procs@[old_procs.len() as int].pid == pid);
                        }
                    }
                }
            },
        }
    }
    assert(connections@.take(n as int) =~= connections@);
    procs
}

pub open spec fn sorted_prefix(v: Seq<ProcessTcpStats>, k: int) -> bool {
    forall|a: int, b: int|
        0 <= a < b < k ==> #[trigger] v[a].total_connections >= #[trigger] v[b].total_connections
}

/// Scores every entry and orders the entries by non-increasing connection
/// count; entries with equal counts keep their relative order.
fn score_and_sort(procs: &mut Vec<ProcessTcpStats>, Ghost(s): Ghost<Seq<TcpConnection>>)
    requires
        forall|j: int| 0 <= j < old(procs)@.len() ==> entry_counts(#[trigger] old(procs)@[j], s),
        forall|j: int| 0 <= j < old(procs)@.len() ==> (#[trigger] old(procs)@[j]).wf(),
        distinct_pids(old(procs)@),
        covers(old(procs)@, s),
    ensures
        final(procs)@.len() == old(procs)@.len(),
        forall|j: int| 0 <= j < final(procs)@.len() ==> describes(#[trigger] final(procs)@[j], s),
        forall|j: int| 0 <= j < final(procs)@.len() ==> (#[trigger] final(procs)@[j]).wf(),
        distinct_pids(final(procs)@),
        covers(final(procs)@, s),
        sorted_by_total(final(procs)@),
{
    let len = procs.len();
    let mut k: usize = 0;
    while k < len
        invariant
            k <= len,
            procs@.len() == len,
            forall|j: int| 0 <= j < k ==> score_matches(#[trigger] procs@[j]),
            forall|j: int| 0 <= j < len ==> entry_counts(#[trigger] procs@[j], s),
            forall|j: int| 0 <= j < len ==> (#[trigger] procs@[j]).wf(),
            distinct_pids(procs@),
            covers(procs@, s),
            sorted_prefix(procs@, k as int),
        decreases len - k,
    {
        let ghost old_v = procs@;
        let mut x = procs.remove(k);
        x.health_score = calculate_health_score(&x);
        let mut p: usize = k;
        while p > 0 && procs[p - 1].total_connections < x.total_connections
            invariant
                p <= k,
                k < len,
                old_v.len() == len,
                procs@ == old_v.remove(k as int),
                forall|j: int| p <= j < k ==> #[trigger] procs@[j].total_connections < x.total_connections,
            decreases p,
        {
            p = p - 1;
        }
        procs.insert(p, x);
        proof {
            let nv = procs@;
            let src = |j: int|
                if j < p {
                    j
                } else if j == p {
                    k as int
                } else if j <= k {
                    j - 1
                } else {
                    j
                };
            assert forall|j: int| 0 <= j < len implies #[trigger] nv[j].pid == old_v[src(j)].pid
                && (j != p ==> nv[j] == old_v[src(j)]) by {
                if j < p {
                    assert(nv[j] == old_v.remove(k as int)[j]);
                } else if j > p {
                    assert(nv[j] == old_v.remove(k as int)[j - 1]);
                }
            }
            assert(nv[p as int] == x);
            assert forall|j: int| 0 <= j < len implies entry_counts(#[trigger] nv[j], s) && nv[j].wf() by {
                assert(entry_counts(old_v[src(j)], s));
                assert(old_v[src(j)].wf());
            }
            assert forall|j: int| 0 <= j < k + 1 implies score_matches(#[trigger] nv[j]) by {
                if j != p {
                    assert(score_matches(old_v[src(j)]));
                }
            }
            assert forall|a: int, b: int|
                0 <= a < len && 0 <= b < len && a != b implies #[trigger] nv[a].pid
                != #[trigger] nv[b].pid by {
                assert(old_v[src(a)].pid != old_v[src(b)].pid);
            }
            assert forall|pid: u32| #[trigger] count_pid(s, pid) > 0 implies exists|j: int|
                0 <= j < nv.len() && nv[j].pid == pid by {
                let w = choose|w: int| 0 <= w < old_v.len() && old_v[w].pid == pid;
                let j = if w < p {
                    w
                } else if w == k {
                    p as int
                } else if w < k {
                    w + 1
                } else {
                    w
                };
                assert(src(j) == w);
                assert(nv[j].pid == pid);
            }
            assert forall|a: int, b: int| 0 <= a < b < k + 1 implies #[trigger] nv[a].total_connections
                >= #[trigger] nv[b].total_connections by {
                assert(nv[a].total_connections == old_v[src(a)].total_connections);
                assert(nv[b].total_connections == old_v[src(b)].total_connections);
                if a < p && b == p && p > 0 {
                    assert(old_v[a].total_connections >= old_v[p - 1].total_connections);
                    assert(old_v.remove(k as int)[p - 1] == old_v[p - 1]);
                } else if a == p && b > p {
                    assert(old_v.remove(k as int)[b - 1] == old_v[b - 1]);
                }
            }
        }
        k = k + 1;
    }
}

/// System-wide statistics of a snapshot, measured against the port range
/// `port_start..=port_end`. Used ports are approximated by the number of
/// connections, so usage may exceed the range.
pub fn build_system_stats(connections: &[TcpConnection], port_start: u32, port_end: u32) -> (r:
    SystemTcpStats)
    requires
        port_start <= port_end,
        port_end - port_start < usize::MAX,
    ensures
        r.total_connections == connections@.len(),
        forall|st: TcpState| r.by_state.count(st) == count_state(connections@, st),
        r.total_ports == port_end - port_start + 1,
        r.available_ports == if r.total_ports >= connections@.len() {
            r.total_ports - connections@.len()
        } else {
            0
        },
        forall|j: int|
            0 <= j < r.by_process@.len() ==> describes(#[trigger] r.by_process@[j], connections@),
        forall|j: int| 0 <= j < r.by_process@.len() ==> (#[trigger] r.by_process@[j]).wf(),
        distinct_pids(r.by_process@),
        covers(r.by_process@, connections@),
        sorted_by_total(r.by_process@),
{
    let by_state = calculate_stats(connections);
    let mut by_process = collect_processes(connections);
    score_and_sort(&mut by_process, Ghost(connections@));
    let total_ports: usize = (port_end - port_start) as usize + 1;
    let used_ports = connections.len();
    let available_ports = if total_ports >= used_ports {
        total_ports - used_ports
    } else {
        0
    };
    SystemTcpStats {
        total_connections: connections.len(),
        by_state,
        by_process,
        available_ports,
        total_ports,
    }
}

/// The `limit` processes with the most connections, from entries already in
/// descending order.
pub fn top_processes(by_process: Vec<ProcessTcpStats>, limit: usize) -> (r: Vec<
    ProcessTcpStats,
>)
    ensures
        r@ == by_process@.take(if limit < by_process@.len() {
            limit as int
        } else {
            by_process@.len() as int
        }),
{
    let mut r = by_process;
    r.truncate(limit);
    r
}

/// A process is problematic when its TIME_WAIT count exceeds `threshold` or
/// its CLOSE_WAIT count exceeds a quarter of it.
pub open spec fn is_problematic(e: ProcessTcpStats, threshold: usize) -> bool {
    e.time_wait > threshold || e.close_wait > threshold / 4
}

pub open spec fn problematic_of(s: Seq<ProcessTcpStats>, threshold: usize) -> Seq<ProcessTcpStats>
    decreases s.len(),
{
    if s.len() == 0 {
        seq![]
    } else if is_problematic(s.last(), threshold) {
        problematic_of(s.drop_last(), threshold).push(s.last())
    } else {
        problematic_of(s.drop_last(), threshold)
    }
}

/// The problematic entries, in their order.
pub fn problematic_processes(by_process: Vec<ProcessTcpStats>, threshold: usize) -> (r: Vec<
    ProcessTcpStats,
>)
    ensures
        r@ == problematic_of(by_process@, threshold),
{
    let ghost all = by_process@;
    let mut r: Vec<ProcessTcpStats> = Vec::new();
    for e in it: by_process
        invariant
            it.seq() == all,
            r@ == problematic_of(all.take(it.index() as int), threshold),
    {
        proof {
            let k = it.index() as int;
            assert(all.take(k + 1).drop_last() =~= all.take(k));
        }
        if e.time_wait > threshold || e.close_wait > threshold / 4 {
            r.push(e);
        }
    }
    assert(all.take(all.len() as int) =~= all);
    r
}

/// Statistics produced from a snapshot keep their total equal to the sum of
/// the five per-state counts.
pub proof fn lemma_process_stats_invariant(connections: Seq<TcpConnection>, e: ProcessTcpStats)
    requires
        counts_match(e, connections),
    ensures
        e.wf(),
{
    lemma_process_counts_sum(connections, e.pid);
}

/// `c` is owned by `pid` and, when a state is given, is in that state.
pub open spec fn selected(c: TcpConnection, pid: u32, state: Option<TcpState>) -> bool {
    c.pid == pid && match state {
        Some(st) => c.state == st,
        None => true,
    }
}

pub open spec fn select_of(s: Seq<TcpConnection>, pid: u32, state: Option<TcpState>) -> Seq<
    TcpConnection,
>
    decreases s.len(),
{
    if s.len() == 0 {
        seq![]
    } else if selected(s.last(), pid, state) {
        select_of(s.drop_last(), pid, state).push(s.last())
    } else {
        select_of(s.drop_last(), pid, state)
    }
}

/// The connections of process `pid`, optionally only those in `state`, in order.
pub fn connections_of(connections: Vec<TcpConnection>, pid: u32, state: Option<TcpState>) -> (r:
    Vec<TcpConnection>)
    ensures
        r@ == select_of(connections@, pid, state),
{
    let ghost all = connections@;
    let mut r: Vec<TcpConnection> = Vec::new();
    for c in it: connections
        invariant
            it.seq() == all,
            r@ == select_of(all.take(it.index() as int), pid, state),
    {
        proof {
            let k = it.index() as int;
            assert(all.take(k + 1).drop_last() =~= all.take(k));
        }
        let keep = c.pid == pid && match state {
            Some(st) => c.state == st,
            None => true,
        };
        if keep {
            r.push(c);
        }
    }
    assert(all.take(all.len() as int) =~= all);
    r
}

} // verus!
