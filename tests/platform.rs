use std::collections::HashMap;

use netopt_core::optimizer::ConnectionOptimizer;
use netopt_core::platform::macos::{MacOsConnectionOptimizer, MacOsTcpConfigManager, MacOsTcpMonitor};
use netopt_core::platform::windows::{parse_tasklist_line, WindowsConnectionOptimizer, WindowsTcpConfigManager, WindowsTcpMonitor};
use netopt_core::platform::{apply_process_names, platform_name, unique_pids, TargetOs};
use netopt_core::policy::AppPolicy;
use netopt_core::tcp_config::TcpSystemConfig;
use netopt_core::text::{chars_of, split_lines};
use netopt_core::{ActionType, NetOptError, ProcessTcpStats, TcpConnection, TcpState};

#[test]
fn macos_netstat_report_is_parsed() {
    let report = "Active Internet connections (including servers)\n\
Proto Recv-Q Send-Q  Local Address          Foreign Address        (state)      rhiwat shiwat    pid   epid\n\
tcp4       0      0  192.168.1.5.52344      17.57.146.20.5223      ESTABLISHED  131072 131768    412      0\n\
tcp4       0      0  127.0.0.1.8080         127.0.0.1.50000        LISTEN       131072 131072   1201      0\n\
garbage line\n\
tcp6       0      0  ::1.631                *.*                    CLOSE_WAIT   131072 131072      x      0\r\n";
    let m = MacOsTcpMonitor::new();
    let conns = m.parse_netstat_output(report);
    // the header, the garbage line and the `*.*` row (no port) are skipped
    assert_eq!(conns.len(), 2);
    assert_eq!(conns[0].local_addr, "192.168.1.5");
    assert_eq!(conns[0].local_port, 52344);
    assert_eq!(conns[0].remote_addr, "17.57.146.20");
    assert_eq!(conns[0].remote_port, 5223);
    assert_eq!(conns[0].state, TcpState::Established);
    assert_eq!(conns[0].pid, 412);
    assert_eq!(conns[0].process_name, "");
    assert_eq!(conns[1].state, TcpState::Listen);
    assert!(m.parse_netstat_line("tcp4 0 0 127.0.0.1.80 10.0.0.1.9000 TIME_WAIT 1 1 notapid 0").map(|c| c.pid) == Some(0));
}

#[test]
fn macos_helpers() {
    assert_eq!(MacOsTcpMonitor::parse_addr_port("10.0.0.1.443"), Some(("10.0.0.1".to_string(), 443)));
    assert_eq!(MacOsTcpMonitor::parse_addr_port("10.0.0.1.99999"), None);
    assert_eq!(MacOsTcpMonitor::parse_addr_port("nodot"), None);
    assert_eq!(MacOsTcpMonitor::parse_state("SYN_RECEIVED"), TcpState::SynReceived);
    assert_eq!(MacOsTcpMonitor::parse_state("LISTENING"), TcpState::Unknown);
    assert_eq!(MacOsTcpMonitor::parse_process_name("  /usr/sbin/sshd\n"), "/usr/sbin/sshd");
    assert_eq!(MacOsTcpMonitor::port_range(&TcpSystemConfig::default()), (49152, 65535));
}

#[test]
fn macos_sysctl_plan_and_decoding() {
    let mgr = MacOsTcpConfigManager::new();
    let writes = mgr.sysctl_writes(&TcpSystemConfig::conservative()).expect("valid");
    assert_eq!(writes, vec![
        ("net.inet.ip.portrange.last", 49152),
        ("net.inet.tcp.msl", 30),
        ("net.inet.ip.portrange.first", 32768),
        ("net.inet.tcp.keepidle", 7200),
        ("net.inet.tcp.keepintvl", 75),
    ]);
    let mut bad = TcpSystemConfig::default();
    bad.time_wait_delay = Some(500);
    assert!(matches!(mgr.sysctl_writes(&bad), Err(NetOptError::InvalidParameter(_))));
    assert_eq!(MacOsTcpConfigManager::parse_sysctl_value("15000\n"), Some(15000));
    assert_eq!(MacOsTcpConfigManager::parse_sysctl_value("unknown oid"), None);
    let cfg = mgr.config_from_sysctl(Some(65535), Some(15000), Some(49152), Some(75000), Some(7200000), Some(75000));
    assert_eq!(cfg.time_wait_delay, Some(30000));
    assert_eq!(cfg.max_syn_retransmissions, Some(75));
    assert_eq!(mgr.config_from_sysctl(None, Some(u32::MAX), None, None, None, None).time_wait_delay, None);
    assert_eq!(mgr.get_default_config().dynamic_port_start, Some(49152));
    assert!(!mgr.requires_reboot());
}

#[test]
fn sysctl_failures_are_classified() {
    assert!(matches!(MacOsTcpConfigManager::sysctl_failure("sysctl: net.inet.tcp.msl=15: Operation not permitted"), NetOptError::PermissionDenied));
    assert!(matches!(MacOsTcpConfigManager::sysctl_failure("Permission denied"), NetOptError::PermissionDenied));
    match MacOsTcpConfigManager::sysctl_failure("unknown oid") {
        NetOptError::SystemError(m) => assert_eq!(m, "unknown oid"),
        other => panic!("unexpected {:?}", other),
    }
}

#[test]
fn macos_optimizer_cannot_close_connections() {
    let o = MacOsConnectionOptimizer::new();
    assert!(!o.supports_connection_control());
    let c = TcpConnection {
        local_addr: "1.1.1.1".to_string(),
        local_port: 1,
        remote_addr: "2.2.2.2".to_string(),
        remote_port: 2,
        state: TcpState::CloseWait,
        pid: 5,
        process_name: "p".to_string(),
    };
    assert!(matches!(o.close_connection(&c), Err(NetOptError::UnsupportedPlatform(_))));
    assert!(matches!(o.close_connections_by_state(5, TcpState::CloseWait), Err(NetOptError::UnsupportedPlatform(_))));
    let a = o.optimize_process(5, &AppPolicy::crawler("p")).expect("always decides");
    assert_eq!(a.action_type, ActionType::GracefulShutdown);
    assert_eq!(a.process_name, "p");
    assert!(a.success);
}

#[test]
fn windows_netstat_report_is_parsed() {
    let report = "\r\nActive Connections\r\n\r\n  Proto  Local Address          Foreign Address        State           PID\r\n\
  TCP    0.0.0.0:135            0.0.0.0:0              LISTENING       1024\r\n\
  TCP    [::1]:49670            [::1]:49671            ESTABLISHED     4312\r\n\
  TCP    10.0.0.2:50000         52.1.1.1:443           TIME_WAIT       abc\r\n";
    let m = WindowsTcpMonitor::new();
    let conns = m.parse_netstat_output(report);
    assert_eq!(conns.len(), 2);
    assert_eq!((conns[0].local_port, conns[0].state, conns[0].pid), (135, TcpState::Listen, 1024));
    assert_eq!(conns[1].local_addr, "[::1]");
    assert_eq!(conns[1].remote_port, 49671);
    assert_eq!(WindowsTcpMonitor::parse_state("LISTEN"), TcpState::Unknown);
    assert_eq!(WindowsTcpMonitor::parse_addr_port("[::]:445"), Some(("[::]".to_string(), 445)));
    assert_eq!(WindowsTcpMonitor::port_range(&TcpSystemConfig::default()), (1025, 5000));
}

#[test]
fn tasklist_names_are_cached_by_pid() {
    assert_eq!(parse_tasklist_line("\"chrome.exe\",\"4312\",\"Console\",\"1\",\"120,000 K\""), Some(("chrome.exe".to_string(), 4312)));
    assert_eq!(parse_tasklist_line("\"System Idle Process\",\"x\""), None);
    assert_eq!(parse_tasklist_line("lonely"), None);
    let mut m = WindowsTcpMonitor::new();
    assert_eq!(m.missing_pids(&[4, 4312]), vec![4, 4312]);
    m.absorb_tasklist("\"System\",\"4\",\"Services\",\"0\",\"144 K\"\r\n\"chrome.exe\",\"4312\",\"Console\",\"1\",\"1 K\"\r\n");
    assert!(m.missing_pids(&[4, 4312, 77]) == vec![77]);
    let names = m.process_names(&[4312, 77]);
    assert_eq!(names.len(), 1);
    assert_eq!(names[&4312], "chrome.exe");
}

#[test]
fn windows_registry_plan() {
    let mgr = WindowsTcpConfigManager::new();
    let writes = mgr.registry_writes(&TcpSystemConfig::high_performance()).expect("valid");
    assert_eq!(writes, vec![
        ("MaxUserPort", 65534),
        ("TcpTimedWaitDelay", 30),
        ("TcpMaxConnectRetransmissions", 2),
        ("KeepAliveTime", 60),
        ("KeepAliveInterval", 10),
    ]);
    assert!(mgr.requires_reboot());
    assert_eq!(mgr.get_default_config().max_user_port, Some(5000));
    let _ = WindowsConnectionOptimizer::new();
    let mut s = ProcessTcpStats { time_wait: 600, close_wait: 60, total_connections: 660, ..Default::default() };
    assert_eq!(WindowsConnectionOptimizer::states_to_clean(&s, &AppPolicy::crawler("x")), vec![TcpState::TimeWait, TcpState::CloseWait]);
    s.time_wait = 500;
    assert_eq!(WindowsConnectionOptimizer::states_to_clean(&s, &AppPolicy::crawler("x")), vec![TcpState::CloseWait]);
    let mut open = AppPolicy::crawler("x");
    open.close_wait_threshold = None;
    assert!(WindowsConnectionOptimizer::states_to_clean(&s, &open).is_empty());
    assert_eq!(WindowsConnectionOptimizer::port_to_network_order(0x1234), 0x123412);
    assert_eq!(WindowsConnectionOptimizer::port_to_network_order(80), 80 * 256);
}

#[test]
fn process_names_are_applied_once_per_pid() {
    let mk = |pid: u32| TcpConnection {
        local_addr: "a".to_string(),
        local_port: 1,
        remote_addr: "b".to_string(),
        remote_port: 2,
        state: TcpState::Established,
        pid,
        process_name: String::new(),
    };
    let mut conns = vec![mk(9), mk(0), mk(9), mk(3)];
    assert_eq!(unique_pids(&conns), vec![9, 3]);
    let mut names = HashMap::new();
    names.insert(9u32, "nine".to_string());
    names.insert(0u32, "zero".to_string());
    apply_process_names(&mut conns, &names);
    let got: Vec<&str> = conns.iter().map(|c| c.process_name.as_str()).collect();
    assert_eq!(got, vec!["nine", "", "nine", ""]);
}

#[test]
fn text_lines_and_platform_names() {
    let ls = split_lines("a\r\nb\n\nc\r");
    assert_eq!(ls, vec![vec!['a'], vec!['b'], vec![], vec!['c', '\r']]);
    assert!(split_lines("").is_empty());
    assert_eq!(chars_of("héllo").len(), 5);
    assert_eq!(platform_name(TargetOs::MacOs), "macOS");
    assert_eq!(platform_name(TargetOs::Other), "Unknown");
}
