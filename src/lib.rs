//! Per-process TCP connection inspection, health scoring, anomaly detection
//! and policy-driven optimization decisions.
use vstd::prelude::*;

pub mod config;
pub mod i18n;
pub mod monitor;
pub mod optimizer;
pub mod platform;
pub mod policy;
pub mod refresh;
pub mod tcp_config;
pub mod text;

pub use config::AppConfig;
pub use i18n::{I18n, Language, TextKey};
pub use monitor::{
    build_system_stats, calculate_health_score, calculate_stats, connections_of, detect_anomalies,
    group_by_process, problematic_processes, process_stats, top_processes, AnomalyType,
    ConnectionAnomaly, Severity,
};
pub use optimizer::{ActionType, ConnectionOptimizer, OptimizationAction, OptimizationEngine};
pub use policy::{AppPolicy, PolicyManager, ThresholdAction};
pub use tcp_config::{TcpConfigManager, TcpSystemConfig};

verus! {

/// Errors reported by the library and by platform backends.
#[derive(Debug)]
pub enum NetOptError {
    /// A privileged operation was attempted without elevation.
    PermissionDenied,
    /// The capability is absent on the current operating system.
    UnsupportedPlatform(String),
    /// A configuration value lies outside its validated bounds.
    InvalidParameter(String),
    /// A native API or subprocess failed; carries its diagnostic text.
    SystemError(String),
    /// Reserved: the process does not exist.
    ProcessNotFound(u32),
    /// Persistence I/O failed; carries the I/O error's text.
    IoError(String),
}

/// TCP connection state.
#[derive(Debug, Clone, Copy, PartialEq, Eq, Hash, Structural)]
pub enum TcpState {
    Listen,
    SynSent,
    SynReceived,
    Established,
    FinWait1,
    FinWait2,
    CloseWait,
    Closing,
    LastAck,
    TimeWait,
    Closed,
    Unknown,
}

impl TcpState {
    /// The conventional upper-case name of the state (`TIME_WAIT`, ...).
    pub fn name(&self) -> (r: &'static str)
        ensures
            r@ == self.name_spec(),
    {
        match self {
            TcpState::Listen => "LISTEN",
            TcpState::SynSent => "SYN_SENT",
            TcpState::SynReceived => "SYN_RCVD",
            TcpState::Established => "ESTABLISHED",
            TcpState::FinWait1 => "FIN_WAIT_1",
            TcpState::FinWait2 => "FIN_WAIT_2",
            TcpState::CloseWait => "CLOSE_WAIT",
            TcpState::Closing => "CLOSING",
            TcpState::LastAck => "LAST_ACK",
            TcpState::TimeWait => "TIME_WAIT",
            TcpState::Closed => "CLOSED",
            TcpState::Unknown => "UNKNOWN",
        }
    }

    pub open spec fn name_spec(&self) -> Seq<char> {
        match self {
            TcpState::Listen => "LISTEN"@,
            TcpState::SynSent => "SYN_SENT"@,
            TcpState::SynReceived => "SYN_RCVD"@,
            TcpState::Established => "ESTABLISHED"@,
            TcpState::FinWait1 => "FIN_WAIT_1"@,
            TcpState::FinWait2 => "FIN_WAIT_2"@,
            TcpState::CloseWait => "CLOSE_WAIT"@,
            TcpState::Closing => "CLOSING"@,
            TcpState::LastAck => "LAST_ACK"@,
            TcpState::TimeWait => "TIME_WAIT"@,
            TcpState::Closed => "CLOSED"@,
            TcpState::Unknown => "UNKNOWN"@,
        }
    }
}

/// One row of a connection snapshot, with its owning process.
#[derive(Debug, Clone)]
pub struct TcpConnection {
    pub local_addr: String,
    pub local_port: u16,
    pub remote_addr: String,
    pub remote_port: u16,
    pub state: TcpState,
    /// Owning process; 0 when it could not be determined.
    pub pid: u32,
    /// Owning process name; empty when the lookup failed.
    pub process_name: String,
}

/// The plain-value content of a [`TcpConnection`].
pub ghost struct ConnectionView {
    pub local_addr: Seq<char>,
    pub local_port: u16,
    pub remote_addr: Seq<char>,
    pub remote_port: u16,
    pub state: TcpState,
    pub pid: u32,
    pub process_name: Seq<char>,
}

impl View for TcpConnection {
    type V = ConnectionView;

    open spec fn view(&self) -> ConnectionView {
        ConnectionView {
            local_addr: self.local_addr@,
            local_port: self.local_port,
            remote_addr: self.remote_addr@,
            remote_port: self.remote_port,
            state: self.state,
            pid: self.pid,
            process_name: self.process_name@,
        }
    }
}

/// Connection statistics of one process.
#[derive(Debug, Clone)]
pub struct ProcessTcpStats {
    pub pid: u32,
    pub process_name: String,
    pub exe_path: Option<String>,
    pub total_connections: usize,
    pub established: usize,
    pub time_wait: usize,
    pub close_wait: usize,
    pub listen: usize,
    pub other: usize,
    /// Health score 0-100; lower means more in need of optimization.
    pub health_score: u8,
}

impl ProcessTcpStats {
    /// Every connection falls in exactly one of the five per-state counts.
    pub open spec fn wf(&self) -> bool {
        self.total_connections == self.established + self.time_wait + self.close_wait
            + self.listen + self.other
    }
}

impl Default for ProcessTcpStats {
    fn default() -> (r: Self)
        ensures
            r.pid == 0,
            r.process_name@ == Seq::<char>::empty(),
            r.exe_path is None,
            r.total_connections == 0,
            r.established == 0,
            r.time_wait == 0,
            r.close_wait == 0,
            r.listen == 0,
            r.other == 0,
            r.health_score == 0,
    {
        ProcessTcpStats {
            pid: 0,
            process_name: String::new(),
            exe_path: None,
            total_connections: 0,
            established: 0,
            time_wait: 0,
            close_wait: 0,
            listen: 0,
            other: 0,
            health_score: 0,
        }
    }
}

/// Number of connections in each TCP state.
#[derive(Debug, Clone, Copy, PartialEq, Eq)]
pub struct StateCounts {
    pub listen: usize,
    pub syn_sent: usize,
    pub syn_received: usize,
    pub established: usize,
    pub fin_wait1: usize,
    pub fin_wait2: usize,
    pub close_wait: usize,
    pub closing: usize,
    pub last_ack: usize,
    pub time_wait: usize,
    pub closed: usize,
    pub unknown: usize,
}

impl StateCounts {
    pub open spec fn count(&self, state: TcpState) -> nat {
        (match state {
            TcpState::Listen => self.listen,
            TcpState::SynSent => self.syn_sent,
            TcpState::SynReceived => self.syn_received,
            TcpState::Established => self.established,
            TcpState::FinWait1 => self.fin_wait1,
            TcpState::FinWait2 => self.fin_wait2,
            TcpState::CloseWait => self.close_wait,
            TcpState::Closing => self.closing,
            TcpState::LastAck => self.last_ack,
            TcpState::TimeWait => self.time_wait,
            TcpState::Closed => self.closed,
            TcpState::Unknown => self.unknown,
        }) as nat
    }

    /// All counts zero.
    pub fn new() -> (r: Self)
        ensures
            forall|st: TcpState| r.count(st) == 0,
    {
        StateCounts {
            listen: 0,
            syn_sent: 0,
            syn_received: 0,
            established: 0,
            fin_wait1: 0,
            fin_wait2: 0,
            close_wait: 0,
            closing: 0,
            last_ack: 0,
            time_wait: 0,
            closed: 0,
            unknown: 0,
        }
    }

    /// The number of connections counted in `state`.
    pub fn get(&self, state: TcpState) -> (r: usize)
        ensures
            r == self.count(state),
    {
        match state {
            TcpState::Listen => self.listen,
            TcpState::SynSent => self.syn_sent,
            TcpState::SynReceived => self.syn_received,
            TcpState::Established => self.established,
            TcpState::FinWait1 => self.fin_wait1,
            TcpState::FinWait2 => self.fin_wait2,
            TcpState::CloseWait => self.close_wait,
            TcpState::Closing => self.closing,
            TcpState::LastAck => self.last_ack,
            TcpState::TimeWait => self.time_wait,
            TcpState::Closed => self.closed,
            TcpState::Unknown => self.unknown,
        }
    }

    /// Counts one more connection in `state`.
    #[verifier::rlimit(40)]
    pub fn increment(&mut self, state: TcpState)
        requires
            old(self).count(state) < usize::MAX,
        ensures
            final(self).count(state) == old(self).count(state) + 1,
            forall|st: TcpState| st != state ==> #[trigger] final(self).count(st) == old(self).count(st),
    {
        match state {
            TcpState::Listen => self.listen = self.listen + 1,
            TcpState::SynSent => self.syn_sent = self.syn_sent + 1,
            TcpState::SynReceived => self.syn_received = self.syn_received + 1,
            TcpState::Established => self.established = self.established + 1,
            TcpState::FinWait1 => self.fin_wait1 = self.fin_wait1 + 1,
            TcpState::FinWait2 => self.fin_wait2 = self.fin_wait2 + 1,
            TcpState::CloseWait => self.close_wait = self.close_wait + 1,
            TcpState::Closing => self.closing = self.closing + 1,
            TcpState::LastAck => self.last_ack = self.last_ack + 1,
            TcpState::TimeWait => self.time_wait = self.time_wait + 1,
            TcpState::Closed => self.closed = self.closed + 1,
            TcpState::Unknown => self.unknown = self.unknown + 1,
        }
    }
}

/// System-wide connection statistics of one snapshot.
#[derive(Debug, Clone)]
pub struct SystemTcpStats {
    pub total_connections: usize,
    pub by_state: StateCounts,
    /// One entry per process, by descending connection count.
    pub by_process: Vec<ProcessTcpStats>,
    pub available_ports: usize,
    /// Size of the port range the usage is measured against.
    pub total_ports: usize,
}

} // verus!
