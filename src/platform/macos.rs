//! macOS backend: `sysctl` parameters, BSD `netstat` output, and a connection
//! optimizer that cannot close other processes' connections.
use vstd::prelude::*;

use crate::optimizer::{ActionType, ConnectionOptimizer, OptimizationAction};
use crate::platform::{
    addr_port, after_header, netstat_row, netstat_rows, parse_netstat_output, parse_row,
    split_addr_port, state_from_word, state_of, views_of, NetstatFormat,
};
use crate::policy::AppPolicy;
use crate::tcp_config::{config_violation, TcpSystemConfig};
use crate::text::{
    chars_of, contains_chars, contains_run, lines, parse_unsigned, parse_unsigned_chars,
    string_from_chars, trim_space_chars, trim_spaces,
};
use crate::{NetOptError, TcpConnection, TcpState};

verus! {

/// Manager of the macOS TCP parameters, read and written with `sysctl`.
pub struct MacOsTcpConfigManager;

/// The writes as name and value pairs.
pub open spec fn writes_view(w: Seq<(&'static str, u32)>) -> Seq<(Seq<char>, u32)> {
    w.map_values(|e: (&'static str, u32)| (e.0@, e.1))
}

pub open spec fn push_if(s: Seq<(Seq<char>, u32)>, name: Seq<char>, v: Option<u32>) -> Seq<
    (Seq<char>, u32),
> {
    match v {
        Some(x) => s.push((name, x)),
        None => s,
    }
}

/// The `sysctl` writes that apply `c`, in order. The TIME_WAIT delay is
/// written as the maximum segment lifetime, half of it.
pub open spec fn sysctl_plan(c: TcpSystemConfig) -> Seq<(Seq<char>, u32)> {
    let s1 = push_if(seq![], "net.inet.ip.portrange.last"@, c.max_user_port);
    let s2 = push_if(
        s1,
        "net.inet.tcp.msl"@,
        match c.time_wait_delay {
            Some(v) => Some((v / 2) as u32),
            None => None,
        },
    );
    let s3 = push_if(s2, "net.inet.ip.portrange.first"@, c.dynamic_port_start);
    let s4 = push_if(s3, "net.inet.tcp.keepidle"@, c.keep_alive_time);
    push_if(s4, "net.inet.tcp.keepintvl"@, c.keep_alive_interval)
}

fn push_write(w: &mut Vec<(&'static str, u32)>, name: &'static str, v: Option<u32>)
    ensures
        writes_view(final(w)@) == push_if(writes_view(old(w)@), name@, v),
{
    let ghost before = w@;
    match v {
        Some(x) => {
            w.push((name, x));
            assert(writes_view(w@) =~= writes_view(before).push((name@, x)));
        },
        None => {},
    }
}

impl MacOsTcpConfigManager {
    pub fn new() -> Self {
        MacOsTcpConfigManager
    }

    /// macOS's own defaults (MSL 15 s, so TIME_WAIT 30 s).
    pub fn get_default_config(&self) -> (r: TcpSystemConfig)
        ensures
            r.max_user_port == Some(65535u32),
            r.time_wait_delay == Some(30u32),
            r.dynamic_port_start == Some(49152u32),
            r.max_syn_retransmissions == Some(3u32),
            r.keep_alive_time == Some(7200u32),
            r.keep_alive_interval == Some(75u32),
    {
        TcpSystemConfig {
            max_user_port: Some(65535),
            time_wait_delay: Some(30),
            dynamic_port_start: Some(49152),
            max_syn_retransmissions: Some(3),
            keep_alive_time: Some(7200),
            keep_alive_interval: Some(75),
        }
    }

    /// `sysctl` changes take effect at once.
    pub fn requires_reboot(&self) -> (r: bool)
        ensures
            !r,
    {
        false
    }

    /// The configuration from the values read for `net.inet.ip.portrange.last`,
    /// `net.inet.tcp.msl`, `net.inet.ip.portrange.first`, `net.inet.tcp.keepinit`
    /// (milliseconds), `net.inet.tcp.keepidle` and `net.inet.tcp.keepintvl`.
    /// The TIME_WAIT delay is twice the MSL, absent when that overflows.
    pub fn config_from_sysctl(
        &self,
        portrange_last: Option<u32>,
        msl: Option<u32>,
        portrange_first: Option<u32>,
        keepinit: Option<u32>,
        keepidle: Option<u32>,
        keepintvl: Option<u32>,
    ) -> (r: TcpSystemConfig)
        ensures
            r.max_user_port == portrange_last,
            r.time_wait_delay == match msl {
                Some(v) => if 2 * v <= u32::MAX {
                    Some((2 * v) as u32)
                } else {
                    None
                },
                None => None,
            },
            r.dynamic_port_start == portrange_first,
            r.max_syn_retransmissions == match keepinit {
                Some(v) => Some((v / 1000) as u32),
                None => None,
            },
            r.keep_alive_time == keepidle,
            r.keep_alive_interval == keepintvl,
    {
        let time_wait_delay = match msl {
            Some(v) => if v <= u32::MAX / 2 {
                Some(v * 2)
            } else {
                None
            },
            None => None,
        };
        let max_syn_retransmissions = match keepinit {
            Some(v) => Some(v / 1000),
            None => None,
        };
        TcpSystemConfig {
            max_user_port: portrange_last,
            time_wait_delay,
            dynamic_port_start: portrange_first,
            max_syn_retransmissions,
            keep_alive_time: keepidle,
            keep_alive_interval: keepintvl,
        }
    }

    /// The `sysctl` writes that apply `config`, after validating it; nothing is
    /// planned for an invalid configuration.
    pub fn sysctl_writes(&self, config: &TcpSystemConfig) -> (r: Result<
        Vec<(&'static str, u32)>,
        NetOptError,
    >)
        ensures
            r is Ok <==> config_violation(*config) is None,
            r matches Ok(w) ==> writes_view(w@) == sysctl_plan(*config),
            r matches Err(e) ==> e is InvalidParameter && e->InvalidParameter_0@ == config_violation(
                *config,
            )->0,
    {
        match config.validate() {
            Err(e) => Err(e),
            Ok(()) => {
                let mut w: Vec<(&'static str, u32)> = Vec::new();
                assert(writes_view(w@) =~= Seq::<(Seq<char>, u32)>::empty());
                push_write(&mut w, "net.inet.ip.portrange.last", config.max_user_port);
                let msl = match config.time_wait_delay {
                    Some(v) => Some(v / 2),
                    None => None,
                };
                push_write(&mut w, "net.inet.tcp.msl", msl);
                push_write(&mut w, "net.inet.ip.portrange.first", config.dynamic_port_start);
                push_write(&mut w, "net.inet.tcp.keepidle", config.keep_alive_time);
                push_write(&mut w, "net.inet.tcp.keepintvl", config.keep_alive_interval);
                Ok(w)
            },
        }
    }

    /// The value `sysctl -n` printed: a decimal number between white space.
    pub fn parse_sysctl_value(output: &str) -> (r: Option<u32>)
        ensures
            match parse_unsigned(trim_spaces(output@), u32::MAX as nat) {
                Some(v) => r == Some(v as u32),
                None => r is None,
            },
    {
        let cs = chars_of(output);
        let t = trim_space_chars(cs.as_slice());
        parse_unsigned_chars(t.as_slice(), u32::MAX)
    }

    /// The error of a failed `sysctl -w`, from what it wrote to stderr.
    pub fn sysctl_failure(stderr: &str) -> (r: NetOptError)
        ensures
            (contains_run(stderr@, "Permission denied"@) || contains_run(
                stderr@,
                "Operation not permitted"@,
            )) ==> r is PermissionDenied,
            !(contains_run(stderr@, "Permission denied"@) || contains_run(
                stderr@,
                "Operation not permitted"@,
            )) ==> (r matches NetOptError::SystemError(m) && m@ == stderr@),
    {
        let hay = chars_of(stderr);
        let denied = chars_of("Permission denied");
        let not_permitted = chars_of("Operation not permitted");
        if contains_chars(hay.as_slice(), denied.as_slice()) || contains_chars(
            hay.as_slice(),
            not_permitted.as_slice(),
        ) {
            NetOptError::PermissionDenied
        } else {
            NetOptError::SystemError(String::from_str(stderr))
        }
    }
}

/// Connection monitor fed with the output of `netstat -anv -p tcp`.
pub struct MacOsTcpMonitor;

/// Lines of the report before the first connection.
pub const NETSTAT_HEADER_LINES: usize = 2;

impl MacOsTcpMonitor {
    pub fn new() -> Self {
        MacOsTcpMonitor
    }

    /// The connections of a `netstat -anv -p tcp` report; process names are empty.
    pub fn parse_netstat_output(&self, stdout: &str) -> (r: Vec<TcpConnection>)
        ensures
            views_of(r@) == netstat_rows(
                after_header(lines(stdout@), NETSTAT_HEADER_LINES as int),
                NetstatFormat::Bsd,
            ),
    {
        parse_netstat_output(stdout, NETSTAT_HEADER_LINES, NetstatFormat::Bsd)
    }

    /// One report line: at least nine columns, local and remote `addr.port`
    /// in the fourth and fifth, the state in the sixth, the pid (0 when
    /// unreadable) in the ninth.
    pub fn parse_netstat_line(&self, line: &str) -> (r: Option<TcpConnection>)
        ensures
            match netstat_row(line@, NetstatFormat::Bsd) {
                None => r is None,
                Some(v) => r is Some && r->0@ == v,
            },
    {
        let cs = chars_of(line);
        parse_row(cs.as_slice(), NetstatFormat::Bsd)
    }

    /// Splits `addr.port` at the last dot.
    pub fn parse_addr_port(s: &str) -> (r: Option<(String, u16)>)
        ensures
            match addr_port(s@, '.') {
                None => r is None,
                Some(ap) => r matches Some(x) && x.0@ == ap.0 && x.1 == ap.1,
            },
    {
        let cs = chars_of(s);
        split_addr_port(cs.as_slice(), '.')
    }

    /// The state a netstat state word names; `LISTEN` for listening sockets.
    pub fn parse_state(s: &str) -> (r: TcpState)
        ensures
            r == state_of(s@, "LISTEN"@),
    {
        let cs = chars_of(s);
        state_from_word(cs.as_slice(), "LISTEN")
    }

    /// The process name `ps -o comm=` printed.
    pub fn parse_process_name(output: &str) -> (r: String)
        ensures
            r@ == trim_spaces(output@),
    {
        let cs = chars_of(output);
        let t = trim_space_chars(cs.as_slice());
        string_from_chars(t.as_slice())
    }

    /// The dynamic port range, with macOS's defaults for unset bounds.
    pub fn port_range(config: &TcpSystemConfig) -> (r: (u32, u32))
        ensures
            r.0 == match config.dynamic_port_start {
                Some(v) => v,
                None => 49152u32,
            },
            r.1 == match config.max_user_port {
                Some(v) => v,
                None => 65535u32,
            },
    {
        let start = match config.dynamic_port_start {
            Some(v) => v,
            None => 49152,
        };
        let end = match config.max_user_port {
            Some(v) => v,
            None => 65535,
        };
        (start, end)
    }
}

/// macOS offers no way to close another process's connection; the optimizer
/// can only suggest that the process clean up.
pub struct MacOsConnectionOptimizer;

impl MacOsConnectionOptimizer {
    pub fn new() -> Self {
        MacOsConnectionOptimizer
    }
}

impl ConnectionOptimizer for MacOsConnectionOptimizer {
    fn close_connection(&self, _conn: &TcpConnection) -> (r: Result<(), NetOptError>)
        ensures
            r matches Err(NetOptError::UnsupportedPlatform(_)),
    {
        Err(
            NetOptError::UnsupportedPlatform(
                String::from_str("macOS不支持直接关闭TCP连接，需要通过信号通知进程"),
            ),
        )
    }

    fn close_connections_by_state(&self, _pid: u32, _state: TcpState) -> (r: Result<
        usize,
        NetOptError,
    >)
        ensures
            r matches Err(NetOptError::UnsupportedPlatform(_)),
    {
        Err(NetOptError::UnsupportedPlatform(String::from_str("macOS不支持直接关闭TCP连接")))
    }

    fn optimize_process(&self, pid: u32, policy: &AppPolicy) -> (r: Result<
        OptimizationAction,
        NetOptError,
    >)
        ensures
            r matches Ok(a) && a.pid == pid && a.process_name@ == policy.process_name@
                && a.action_type == ActionType::GracefulShutdown && a.connections_affected == 0
                && a.success && a.error_message is None,
    {
        Ok(
            OptimizationAction {
                pid,
                process_name: policy.process_name.clone(),
                action_type: ActionType::GracefulShutdown,
                reason: String::from_str("macOS仅支持发送信号建议进程清理连接"),
                connections_affected: 0,
                success: true,
                error_message: None,
            },
        )
    }

    fn supports_connection_control(&self) -> (r: bool)
        ensures
            !r,
    {
        false
    }
}

} // verus!
