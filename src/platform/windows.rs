//! Windows backend: registry TCP parameters, `netstat -ano` output, and
//! process names from `tasklist`, cached by pid.
use std::collections::HashMap;
use vstd::prelude::*;
use vstd::std_specs::hash::group_hash_axioms;

use crate::platform::macos::{push_if, writes_view};
use crate::platform::{
    addr_port, after_header, netstat_row, netstat_rows, parse_netstat_output, parse_row,
    split_addr_port, state_from_word, state_of, views_of, NetstatFormat,
};
use crate::optimizer::{close_wait_exceeded, time_wait_exceeded};
use crate::policy::AppPolicy;
use crate::tcp_config::{config_violation, TcpSystemConfig};
use crate::text::{
    chars_of, fields, lines, parse_unsigned, parse_unsigned_chars, seqs_of, split_fields,
    split_lines, string_from_chars, trim_char, trim_chars,
};
use crate::{NetOptError, ProcessTcpStats, TcpConnection, TcpState};

verus! {

broadcast use group_hash_axioms;

/// Manager of the Windows TCP parameters under
/// `HKLM\SYSTEM\CurrentControlSet\Services\Tcpip\Parameters`.
pub struct WindowsTcpConfigManager;

/// The registry values that apply `c`, in order. The dynamic port start has
/// no registry value and is not written.
pub open spec fn registry_plan(c: TcpSystemConfig) -> Seq<(Seq<char>, u32)> {
    let s1 = push_if(seq![], "MaxUserPort"@, c.max_user_port);
    let s2 = push_if(s1, "TcpTimedWaitDelay"@, c.time_wait_delay);
    let s3 = push_if(s2, "TcpMaxConnectRetransmissions"@, c.max_syn_retransmissions);
    let s4 = push_if(s3, "KeepAliveTime"@, c.keep_alive_time);
    push_if(s4, "KeepAliveInterval"@, c.keep_alive_interval)
}

fn push_value(w: &mut Vec<(&'static str, u32)>, name: &'static str, v: Option<u32>)
    ensures
        writes_view(final(w)@) == push_if(writes_view(old(w)@), name@, v),
{
    let ghost before = w@;
    match v {
        Some(x) => {
            w.push((name, x));
            assert(writes_view(w@) =~= writes_view(before).push((name@, x)));
        },
        None => {},
    }
}

impl WindowsTcpConfigManager {
    pub fn new() -> Self {
        WindowsTcpConfigManager
    }

    /// Windows's own defaults.
    pub fn get_default_config(&self) -> (r: TcpSystemConfig)
        ensures
            r.max_user_port == Some(5000u32),
            r.time_wait_delay == Some(240u32),
            r.dynamic_port_start == Some(1025u32),
            r.max_syn_retransmissions == Some(2u32),
            r.keep_alive_time == Some(7200000u32),
            r.keep_alive_interval == Some(1000u32),
    {
        TcpSystemConfig {
            max_user_port: Some(5000),
            time_wait_delay: Some(240),
            dynamic_port_start: Some(1025),
            max_syn_retransmissions: Some(2),
            keep_alive_time: Some(7200000),
            keep_alive_interval: Some(1000),
        }
    }

    /// Changed TCP parameters usually take effect after a reboot.
    pub fn requires_reboot(&self) -> (r: bool)
        ensures
            r,
    {
        true
    }

    /// The registry writes that apply `config`, after validating it; nothing
    /// is planned for an invalid configuration.
    pub fn registry_writes(&self, config: &TcpSystemConfig) -> (r: Result<
        Vec<(&'static str, u32)>,
        NetOptError,
    >)
        ensures
            r is Ok <==> config_violation(*config) is None,
            r matches Ok(w) ==> writes_view(w@) == registry_plan(*config),
            r matches Err(e) ==> e is InvalidParameter && e->InvalidParameter_0@ == config_violation(
                *config,
            )->0,
    {
        match config.validate() {
            Err(e) => Err(e),
            Ok(()) => {
                let mut w: Vec<(&'static str, u32)> = Vec::new();
                assert(writes_view(w@) =~= Seq::<(Seq<char>, u32)>::empty());
                push_value(&mut w, "MaxUserPort", config.max_user_port);
                push_value(&mut w, "TcpTimedWaitDelay", config.time_wait_delay);
                push_value(&mut w, "TcpMaxConnectRetransmissions", config.max_syn_retransmissions);
                push_value(&mut w, "KeepAliveTime", config.keep_alive_time);
                push_value(&mut w, "KeepAliveInterval", config.keep_alive_interval);
                Ok(w)
            },
        }
    }
}

/// The process name and pid of a `tasklist /FO CSV /NH` line: the first two
/// comma-separated fields, quotes trimmed; a line whose pid does not read is
/// no entry.
pub open spec fn tasklist_entry(line: Seq<char>) -> Option<(Seq<char>, u32)> {
    let parts = fields(line, ',');
    if parts.len() < 2 {
        None
    } else {
        match parse_unsigned(trim_char(parts[1], '"'), u32::MAX as nat) {
            Some(pid) => Some((trim_char(parts[0], '"'), pid as u32)),
            None => None,
        }
    }
}

/// `cache` after recording the entries of the lines `ls`, in order.
pub open spec fn absorb_entries(cache: Map<u32, Seq<char>>, ls: Seq<Seq<char>>) -> Map<
    u32,
    Seq<char>,
>
    decreases ls.len(),
{
    if ls.len() == 0 {
        cache
    } else {
        let m = absorb_entries(cache, ls.drop_last());
        match tasklist_entry(ls.last()) {
            Some(e) => m.insert(e.1, e.0),
            None => m,
        }
    }
}

/// The pids of `pids` that `cache` lacks, in order.
pub open spec fn uncached(pids: Seq<u32>, cache: Map<u32, Seq<char>>) -> Seq<u32>
    decreases pids.len(),
{
    if pids.len() == 0 {
        seq![]
    } else if cache.contains_key(pids.last()) {
        uncached(pids.drop_last(), cache)
    } else {
        uncached(pids.drop_last(), cache).push(pids.last())
    }
}

pub open spec fn names_view(m: Map<u32, String>) -> Map<u32, Seq<char>> {
    m.map_values(|s: String| s@)
}

/// Reads one `tasklist /FO CSV /NH` line.
pub fn parse_tasklist_line(line: &str) -> (r: Option<(String, u32)>)
    ensures
        match tasklist_entry(line@) {
            None => r is None,
            Some(e) => r matches Some(x) && x.0@ == e.0 && x.1 == e.1,
        },
{
    let cs = chars_of(line);
    tasklist_entry_of(cs.as_slice())
}

fn tasklist_entry_of(line: &[char]) -> (r: Option<(String, u32)>)
    ensures
        match tasklist_entry(line@) {
            None => r is None,
            Some(e) => r matches Some(x) && x.0@ == e.0 && x.1 == e.1,
        },
{
    let parts = split_fields(line, ',');
    proof {
        assert forall|k: int| 0 <= k < parts@.len() implies #[trigger] parts@[k]@ == fields(
            line@,
            ',',
        )[k] by {
            assert(seqs_of(parts@)[k] == parts@[k]@);
        }
    }
    if parts.len() < 2 {
        return None;
    }
    let pid_chars = trim_chars(parts[1].as_slice(), '"');
    match parse_unsigned_chars(pid_chars.as_slice(), u32::MAX) {
        None => None,
        Some(pid) => {
            let name = trim_chars(parts[0].as_slice(), '"');
            Some((string_from_chars(name.as_slice()), pid))
        },
    }
}

/// Connection monitor fed with the output of `netstat -ano -p tcp`, with a
/// cache of process names by pid.
pub struct WindowsTcpMonitor {
    process_cache: HashMap<u32, String>,
}

/// Lines of the report before the first connection.
pub const NETSTAT_HEADER_LINES: usize = 4;

impl WindowsTcpMonitor {
    /// The cached process names by pid.
    pub closed spec fn cache(&self) -> Map<u32, Seq<char>> {
        names_view(self.process_cache@)
    }

    pub fn new() -> (r: Self)
        ensures
            r.cache() == Map::<u32, Seq<char>>::empty(),
    {
        let r = WindowsTcpMonitor { process_cache: HashMap::new() };
        assert(r.cache() =~= Map::<u32, Seq<char>>::empty());
        r
    }

    /// The connections of a `netstat -ano -p tcp` report; process names are empty.
    pub fn parse_netstat_output(&self, stdout: &str) -> (r: Vec<TcpConnection>)
        ensures
            views_of(r@) == netstat_rows(
                after_header(lines(stdout@), NETSTAT_HEADER_LINES as int),
                NetstatFormat::Windows,
            ),
    {
        parse_netstat_output(stdout, NETSTAT_HEADER_LINES, NetstatFormat::Windows)
    }

    /// One report line: at least five columns, local and remote `addr:port`
    /// in the second and third, the state in the fourth, the pid in the fifth.
    pub fn parse_netstat_line(&self, line: &str) -> (r: Option<TcpConnection>)
        ensures
            match netstat_row(line@, NetstatFormat::Windows) {
                None => r is None,
                Some(v) => r is Some && r->0@ == v,
            },
    {
        let cs = chars_of(line);
        parse_row(cs.as_slice(), NetstatFormat::Windows)
    }

    /// Splits `addr:port` at the last colon.
    pub fn parse_addr_port(s: &str) -> (r: Option<(String, u16)>)
        ensures
            match addr_port(s@, ':') {
                None => r is None,
                Some(ap) => r matches Some(x) && x.0@ == ap.0 && x.1 == ap.1,
            },
    {
        let cs = chars_of(s);
        split_addr_port(cs.as_slice(), ':')
    }

    /// The state a netstat state word names; `LISTENING` for listening sockets.
    pub fn parse_state(s: &str) -> (r: TcpState)
        ensures
            r == state_of(s@, "LISTENING"@),
    {
        let cs = chars_of(s);
        state_from_word(cs.as_slice(), "LISTENING")
    }

    /// The dynamic port range, with Windows's defaults for unset bounds.
    pub fn port_range(config: &TcpSystemConfig) -> (r: (u32, u32))
        ensures
            r.0 == match config.dynamic_port_start {
                Some(v) => v,
                None => 1025u32,
            },
            r.1 == match config.max_user_port {
                Some(v) => v,
                None => 5000u32,
            },
    {
        let start = match config.dynamic_port_start {
            Some(v) => v,
            None => 1025,
        };
        let end = match config.max_user_port {
            Some(v) => v,
            None => 5000,
        };
        (start, end)
    }

    /// The pids whose names are not cached; `tasklist` is needed only when
    /// there are any.
    pub fn missing_pids(&self, pids: &[u32]) -> (r: Vec<u32>)
        ensures
            r@ == uncached(pids@, self.cache()),
    {
        let mut r: Vec<u32> = Vec::new();
        let n = pids.len();
        for i in 0..n
            invariant
                n == pids@.len(),
                r@ == uncached(pids@.take(i as int), self.cache()),
        {
            proof {
                assert(pids@.take(i + 1).drop_last() =~= pids@.take(i as int));
            }
            if !self.process_cache.contains_key(&pids[i]) {
                r.push(pids[i]);
            }
        }
        assert(pids@.take(n as int) =~= pids@);
        r
    }

    /// Records every process of a `tasklist /FO CSV /NH` report in the cache.
    pub fn absorb_tasklist(&mut self, output: &str)
        ensures
            final(self).cache() == absorb_entries(old(self).cache(), lines(output@)),
    {
        let ls = split_lines(output);
        let ghost all = lines(output@);
        let ghost start = self.cache();
        let n = ls.len();
        for i in 0..n
            invariant
                n == ls@.len(),
                seqs_of(ls@) == all,
                self.cache() == absorb_entries(start, all.take(i as int)),
        {
            proof {
                assert(all.take(i + 1).drop_last() =~= all.take(i as int));
                assert(all.take(i + 1).last() == ls@[i as int]@);
            }
            match tasklist_entry_of(ls[i].as_slice()) {
                Some((name, pid)) => {
                    let ghost before = self.process_cache@;
                    let ghost name_view = name@;
                    self.process_cache.insert(pid, name);
                    assert(names_view(self.process_cache@) =~= names_view(before).insert(
                        pid,
                        name_view,
                    ));
                },
                None => {},
            }
        }
        assert(all.take(n as int) =~= all);
    }

    /// The cached names of `pids`.
    pub fn process_names(&self, pids: &[u32]) -> (r: HashMap<u32, String>)
        ensures
            forall|p: u32|
                #[trigger] names_view(r@).contains_key(p) <==> pids@.contains(p)
                    && self.cache().contains_key(p),
            forall|p: u32|
                #[trigger] names_view(r@).contains_key(p) ==> names_view(r@)[p]
                    == self.cache()[p],
    {
        let mut r: HashMap<u32, String> = HashMap::new();
        let n = pids.len();
        for i in 0..n
            invariant
                n == pids@.len(),
                forall|p: u32|
                    #[trigger] names_view(r@).contains_key(p) <==> pids@.take(i as int).contains(p)
                        && self.cache().contains_key(p),
                forall|p: u32|
                    #[trigger] names_view(r@).contains_key(p) ==> names_view(r@)[p]
                        == self.cache()[p],
        {
            let pid = pids[i];
            let ghost before = r@;
            proof {
                assert(pids@.take(i + 1) =~= pids@.take(i as int).push(pid));
                assert forall|p: u32| #[trigger] pids@.take(i + 1).contains(p) <==> (pids@.take(
                    i as int,
                ).contains(p) || p == pid) by {
                    if p == pid {
                        assert(pids@.take(i + 1)[i as int] == pid);
                    }
                    if pids@.take(i as int).contains(p) {
                        let k = choose|k: int| 0 <= k < i && pids@.take(i as int)[k] == p;
                        assert(pids@.take(i + 1)[k] == p);
                    }
                }
            }
            match self.process_cache.get(&pid) {
                Some(name) => {
                    let copy = name.clone();
                    r.insert(pid, copy);
                    assert(names_view(r@) =~= names_view(before).insert(pid, self.cache()[pid]));
                },
                None => {},
            }
        }
        assert(pids@.take(n as int) =~= pids@);
        r
    }
}

/// Connection optimizer that closes connections with the IP Helper API.
pub struct WindowsConnectionOptimizer {
    pub monitor: WindowsTcpMonitor,
}

impl WindowsConnectionOptimizer {
    pub fn new() -> (r: Self)
        ensures
            r.monitor.cache() == Map::<u32, Seq<char>>::empty(),
    {
        WindowsConnectionOptimizer { monitor: WindowsTcpMonitor::new() }
    }

    /// The states whose connections to close for `stats` under `policy`:
    /// TIME_WAIT, then CLOSE_WAIT, each when its threshold is set and exceeded.
    pub fn states_to_clean(stats: &ProcessTcpStats, policy: &AppPolicy) -> (r: Vec<TcpState>)
        ensures
            r@ == (if time_wait_exceeded(*stats, *policy) {
                seq![TcpState::TimeWait]
            } else {
                seq![]
            }) + (if close_wait_exceeded(*stats, *policy) {
                seq![TcpState::CloseWait]
            } else {
                seq![]
            }),
    {
        let mut r: Vec<TcpState> = Vec::new();
        if let Some(threshold) = policy.time_wait_threshold {
            if stats.time_wait > threshold {
                r.push(TcpState::TimeWait);
            }
        }
        if let Some(threshold) = policy.close_wait_threshold {
            if stats.close_wait > threshold {
                r.push(TcpState::CloseWait);
            }
        }
        assert(r@ =~= (if time_wait_exceeded(*stats, *policy) {
            seq![TcpState::TimeWait]
        } else {
            seq![]
        }) + (if close_wait_exceeded(*stats, *policy) {
            seq![TcpState::CloseWait]
        } else {
            seq![]
        }));
        r
    }

    /// A port as the IP Helper API's `dwLocalPort`/`dwRemotePort` expect it:
    /// `(port << 8) | (port >> 8)`.
    pub fn port_to_network_order(port: u16) -> (r: u32)
        ensures
            r == port as nat * 256 + port as nat / 256,
    {
        let p = port as u32;
        let r = (p << 8u32) | (p >> 8u32);
        assert(r == p * 256 + p / 256) by (bit_vector)
            requires
                p < 65536,
                r == (p << 8u32) | (p >> 8u32),
        ;
        r
    }
}

} // verus!
