//! Platform backends: the text formats of the system tools and the
//! per-platform defaults. Running the tools is left to the caller.
use std::collections::HashMap;
use vstd::prelude::*;
use vstd::std_specs::hash::group_hash_axioms;

use crate::monitor::count_pid;
use crate::text::{
    chars_equal, find_last, last_index_of, lines, parse_unsigned, parse_unsigned_chars,
    seqs_of, split_lines, split_words, string_from_chars, words,
};
use crate::{ConnectionView, TcpConnection, TcpState};

pub mod macos;
pub mod windows;

verus! {

broadcast use group_hash_axioms;

/// Operating systems with a backend.
#[derive(Debug, Clone, Copy, PartialEq, Eq, Structural)]
pub enum TargetOs {
    Windows,
    MacOs,
    Other,
}

/// Display name of the platform.
pub fn platform_name(os: TargetOs) -> (r: &'static str)
    ensures
        r@ == match os {
            TargetOs::Windows => "Windows"@,
            TargetOs::MacOs => "macOS"@,
            TargetOs::Other => "Unknown"@,
        },
{
    match os {
        TargetOs::Windows => "Windows",
        TargetOs::MacOs => "macOS",
        TargetOs::Other => "Unknown",
    }
}

/// The address and port of `s`, split at the last `sep`.
pub open spec fn addr_port(s: Seq<char>, sep: char) -> Option<(Seq<char>, u16)> {
    match last_index_of(s, sep) {
        None => None,
        Some(i) => match parse_unsigned(s.subrange(i + 1, s.len() as int), 65535) {
            None => None,
            Some(p) => Some((s.take(i), p as u16)),
        },
    }
}

/// Splits `addr<sep>port` at the last separator.
pub fn split_addr_port(s: &[char], sep: char) -> (r: Option<(String, u16)>)
    ensures
        match addr_port(s@, sep) {
            None => r is None,
            Some(ap) => r matches Some(x) && x.0@ == ap.0 && x.1 == ap.1,
        },
{
    let n = s.len();
    match find_last(s, sep) {
        None => None,
        Some(i) => {
            let port_chars = vstd::slice::slice_subrange(s, i + 1, n);
            assert(port_chars@ == s@.subrange(i + 1, s@.len() as int));
            match parse_unsigned_chars(port_chars, 65535) {
                None => None,
                Some(p) => {
                    let addr = string_from_chars(vstd::slice::slice_subrange(s, 0, i));
                    assert(s@.take(i as int) =~= s@.subrange(0, i as int));
                    Some((addr, p as u16))
                },
            }
        },
    }
}

/// The state that a netstat state word names; `listen` is the platform's word
/// for a listening socket.
pub open spec fn state_of(w: Seq<char>, listen: Seq<char>) -> TcpState {
    if w == listen {
        TcpState::Listen
    } else if w == "ESTABLISHED"@ {
        TcpState::Established
    } else if w == "TIME_WAIT"@ {
        TcpState::TimeWait
    } else if w == "CLOSE_WAIT"@ {
        TcpState::CloseWait
    } else if w == "FIN_WAIT_1"@ {
        TcpState::FinWait1
    } else if w == "FIN_WAIT_2"@ {
        TcpState::FinWait2
    } else if w == "SYN_SENT"@ {
        TcpState::SynSent
    } else if w == "SYN_RECEIVED"@ {
        TcpState::SynReceived
    } else if w == "CLOSING"@ {
        TcpState::Closing
    } else if w == "LAST_ACK"@ {
        TcpState::LastAck
    } else if w == "CLOSED"@ {
        TcpState::Closed
    } else {
        TcpState::Unknown
    }
}

pub fn state_from_word(w: &[char], listen: &str) -> (r: TcpState)
    ensures
        r == state_of(w@, listen@),
{
    if chars_equal(w, listen) {
        TcpState::Listen
    } else if chars_equal(w, "ESTABLISHED") {
        TcpState::Established
    } else if chars_equal(w, "TIME_WAIT") {
        TcpState::TimeWait
    } else if chars_equal(w, "CLOSE_WAIT") {
        TcpState::CloseWait
    } else if chars_equal(w, "FIN_WAIT_1") {
        TcpState::FinWait1
    } else if chars_equal(w, "FIN_WAIT_2") {
        TcpState::FinWait2
    } else if chars_equal(w, "SYN_SENT") {
        TcpState::SynSent
    } else if chars_equal(w, "SYN_RECEIVED") {
        TcpState::SynReceived
    } else if chars_equal(w, "CLOSING") {
        TcpState::Closing
    } else if chars_equal(w, "LAST_ACK") {
        TcpState::LastAck
    } else if chars_equal(w, "CLOSED") {
        TcpState::Closed
    } else {
        TcpState::Unknown
    }
}

/// The format of a platform's `netstat` connection lines.
#[derive(Debug, Clone, Copy, PartialEq, Eq, Structural)]
pub enum NetstatFormat {
    /// `proto recv-q send-q local remote state ... pid`, at least nine
    /// columns, `addr.port`, state `LISTEN`; an unreadable pid becomes 0.
    Bsd,
    /// `proto local remote state pid`, `addr:port`, state `LISTENING`; an
    /// unreadable pid rejects the line.
    Windows,
}

pub open spec fn listen_word(f: NetstatFormat) -> Seq<char> {
    match f {
        NetstatFormat::Bsd => "LISTEN"@,
        NetstatFormat::Windows => "LISTENING"@,
    }
}

/// The connection a netstat line describes, if it is one.
pub open spec fn netstat_row(line: Seq<char>, f: NetstatFormat) -> Option<ConnectionView> {
    let parts = words(line);
    let (min, local, remote, state, pid, sep) = match f {
        NetstatFormat::Bsd => (9int, 3int, 4int, 5int, 8int, '.'),
        NetstatFormat::Windows => (5int, 1int, 2int, 3int, 4int, ':'),
    };
    if parts.len() < min {
        None
    } else {
        let pid_value = parse_unsigned(parts[pid], u32::MAX as nat);
        match (addr_port(parts[local], sep), addr_port(parts[remote], sep)) {
            (Some(l), Some(r)) => if f == NetstatFormat::Windows && pid_value is None {
                None
            } else {
                Some(
                    ConnectionView {
                        local_addr: l.0,
                        local_port: l.1,
                        remote_addr: r.0,
                        remote_port: r.1,
                        state: state_of(parts[state], listen_word(f)),
                        pid: match pid_value {
                            Some(v) => v as u32,
                            None => 0,
                        },
                        process_name: seq![],
                    },
                )
            },
            _ => None,
        }
    }
}

/// Parses one netstat line.
pub fn parse_row(line: &[char], f: NetstatFormat) -> (r: Option<TcpConnection>)
    ensures
        match netstat_row(line@, f) {
            None => r is None,
            Some(v) => r is Some && r->0@ == v,
        },
{
    let parts = split_words(line);
    proof {
        assert forall|k: int| 0 <= k < parts@.len() implies #[trigger] parts@[k]@ == words(
            line@,
        )[k] by {
            assert(seqs_of(parts@)[k] == parts@[k]@);
        }
    }
    let (min, local, remote, state, pid, sep, listen) = match f {
        NetstatFormat::Bsd => (9usize, 3usize, 4usize, 5usize, 8usize, '.', "LISTEN"),
        NetstatFormat::Windows => (5usize, 1usize, 2usize, 3usize, 4usize, ':', "LISTENING"),
    };
    if parts.len() < min {
        return None;
    }
    let pid_value = parse_unsigned_chars(parts[pid].as_slice(), u32::MAX);
    let l = match split_addr_port(parts[local].as_slice(), sep) {
        Some(l) => l,
        None => return None,
    };
    let rm = match split_addr_port(parts[remote].as_slice(), sep) {
        Some(rm) => rm,
        None => return None,
    };
    let pid_number: u32 = match pid_value {
        Some(v) => v,
        None => {
            if f == NetstatFormat::Windows {
                return None;
            }
            0
        },
    };
    let state_value = state_from_word(parts[state].as_slice(), listen);
    let (local_addr, local_port) = l;
    let (remote_addr, remote_port) = rm;
    Some(
        TcpConnection {
            local_addr,
            local_port,
            remote_addr,
            remote_port,
            state: state_value,
            pid: pid_number,
            process_name: String::new(),
        },
    )
}

/// The connections that the lines of `ls` describe, in order.
pub open spec fn netstat_rows(ls: Seq<Seq<char>>, f: NetstatFormat) -> Seq<ConnectionView>
    decreases ls.len(),
{
    if ls.len() == 0 {
        seq![]
    } else {
        match netstat_row(ls.last(), f) {
            Some(c) => netstat_rows(ls.drop_last(), f).push(c),
            None => netstat_rows(ls.drop_last(), f),
        }
    }
}

pub open spec fn views_of(v: Seq<TcpConnection>) -> Seq<ConnectionView> {
    v.map_values(|c: TcpConnection| c@)
}

/// `ls` without its first `k` entries.
pub open spec fn after_header(ls: Seq<Seq<char>>, k: int) -> Seq<Seq<char>> {
    if k >= ls.len() {
        seq![]
    } else {
        ls.skip(k)
    }
}

/// The connections of a netstat report: its lines after the first `header`
/// ones, each parsed; lines that are not connections are skipped.
pub fn parse_netstat_output(text: &str, header: usize, f: NetstatFormat) -> (r: Vec<
    TcpConnection,
>)
    ensures
        views_of(r@) == netstat_rows(after_header(lines(text@), header as int), f),
{
    let ls = split_lines(text);
    let ghost all = lines(text@);
    let mut r: Vec<TcpConnection> = Vec::new();
    let n = ls.len();
    assert(all.len() == n);
    if header >= n {
        assert(views_of(r@) =~= Seq::<ConnectionView>::empty());
        return r;
    }
    let ghost body = all.skip(header as int);
    assert(views_of(r@) =~= netstat_rows(body.take(0), f));
    for i in header..n
        invariant
            n == ls@.len(),
            header <= n,
            seqs_of(ls@) == all,
            body == all.skip(header as int),
            views_of(r@) == netstat_rows(body.take(i - header), f),
    {
        proof {
            let k = i - header;
            assert(body.take(k + 1).drop_last() =~= body.take(k));
            assert(body.take(k + 1).last() == ls@[i as int]@);
        }
        match parse_row(ls[i].as_slice(), f) {
            Some(c) => {
                let ghost prev = r@;
                r.push(c);
                assert(views_of(r@) =~= views_of(prev).push(c@));
            },
            None => {},
        }
    }
    assert(body.take(n - header) =~= body);
    r
}

/// The distinct owning pids of a snapshot other than 0, in order of first appearance.
pub fn unique_pids(connections: &[TcpConnection]) -> (r: Vec<u32>)
    ensures
        forall|a: int, b: int|
            0 <= a < b < r@.len() ==> #[trigger] r@[a] != #[trigger] r@[b],
        forall|a: int| 0 <= a < r@.len() ==> #[trigger] r@[a] > 0 && count_pid(connections@, r@[a]) > 0,
        forall|k: int|
            0 <= k < connections@.len() && #[trigger] connections@[k].pid > 0 ==> r@.contains(
                connections@[k].pid,
            ),
{
    let mut r: Vec<u32> = Vec::new();
    let n = connections.len();
    for i in 0..n
        invariant
            n == connections@.len(),
            forall|a: int, b: int| 0 <= a < b < r@.len() ==> #[trigger] r@[a] != #[trigger] r@[b],
            forall|a: int|
                0 <= a < r@.len() ==> #[trigger] r@[a] > 0 && count_pid(
                    connections@.take(i as int),
                    r@[a],
                ) > 0,
            forall|k: int|
                0 <= k < i && #[trigger] connections@[k].pid > 0 ==> r@.contains(
                    connections@[k].pid,
                ),
    {
        let pid = connections[i].pid;
        proof {
            assert(connections@.take(i + 1).drop_last() =~= connections@.take(i as int));
            lemma_count_pid_prefix(connections@, i as int);
        }
        let ghost old_r = r@;
        if pid > 0 {
            let mut seen = false;
            let mut j: usize = 0;
            while j < r.len()
                invariant
                    j <= r@.len(),
                    seen == exists|a: int| 0 <= a < j && r@[a] == pid,
                decreases r@.len() - j,
            {
                if r[j] == pid {
                    seen = true;
                }
                j = j + 1;
            }
            if !seen {
                r.push(pid);
                assert(r@[r@.len() - 1] == pid);
            }
            assert(r@.contains(pid));
        }
        proof {
            assert forall|k: int|
                0 <= k < i + 1 && #[trigger] connections@[k].pid > 0 implies r@.contains(
                connections@[k].pid,
            ) by {
                if k < i {
                    let a = choose|a: int| 0 <= a < old_r.len() && old_r[a] == connections@[k].pid;
                    assert(r@[a] == old_r[a]);
                }
            }
        }
    }
    assert(connections@.take(n as int) =~= connections@);
    r
}

proof fn lemma_count_pid_prefix(s: Seq<TcpConnection>, i: int)
    requires
        0 <= i < s.len(),
    ensures
        forall|pid: u32|
            #[trigger] count_pid(s.take(i + 1), pid) >= count_pid(s.take(i), pid),
        count_pid(s.take(i + 1), s[i].pid) > 0,
{
    assert(s.take(i + 1).drop_last() =~= s.take(i));
}

/// Gives each connection with a pid other than 0 the name that `names`
/// holds for its pid, if any; everything else is kept.
pub fn apply_process_names(connections: &mut Vec<TcpConnection>, names: &HashMap<u32, String>)
    ensures
        final(connections)@.len() == old(connections)@.len(),
        forall|k: int|
            0 <= k < final(connections)@.len() ==> {
                let o = #[trigger] old(connections)@[k];
                let c = final(connections)@[k];
                &&& c.local_addr == o.local_addr
                &&& c.local_port == o.local_port
                &&& c.remote_addr == o.remote_addr
                &&& c.remote_port == o.remote_port
                &&& c.state == o.state
                &&& c.pid == o.pid
                &&& c.process_name@ == if o.pid > 0 && names@.contains_key(o.pid) {
                    names@[o.pid]@
                } else {
                    o.process_name@
                }
            },
{
    let n = connections.len();
    let ghost orig = connections@;
    for i in 0..n
        invariant
            n == orig.len(),
            connections@.len() == n,
            forall|k: int|
                0 <= k < n ==> {
                    let o = #[trigger] orig[k];
                    let c = connections@[k];
                    &&& c.local_addr == o.local_addr
                    &&& c.local_port == o.local_port
                    &&& c.remote_addr == o.remote_addr
                    &&& c.remote_port == o.remote_port
                    &&& c.state == o.state
                    &&& c.pid == o.pid
                    &&& c.process_name@ == if k < i && o.pid > 0 && names@.contains_key(o.pid) {
                        names@[o.pid]@
                    } else {
                        o.process_name@
                    }
                },
    {
        let pid = connections[i].pid;
        if pid > 0 {
            match names.get(&pid) {
                Some(name) => {
                    connections[i].process_name = name.clone();
                },
                None => {},
            }
        }
    }
}

} // verus!
