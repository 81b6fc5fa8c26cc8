use netopt_core::monitor::{build_system_stats, calculate_health_score, calculate_stats, connections_of, detect_anomalies, group_by_process, problematic_processes, process_stats, top_processes, AnomalyType, Severity};
use netopt_core::optimizer::{ActionType, OptimizationEngine};
use netopt_core::policy::{AppPolicy, PolicyManager, ThresholdAction};
use netopt_core::tcp_config::TcpSystemConfig;
use netopt_core::text::decimal_string;
use netopt_core::{NetOptError, ProcessTcpStats, TcpConnection, TcpState};

fn conn(pid: u32, state: TcpState, name: &str) -> TcpConnection {
    TcpConnection {
        local_addr: "127.0.0.1".to_string(),
        local_port: 5000,
        remote_addr: "10.0.0.1".to_string(),
        remote_port: 443,
        state,
        pid,
        process_name: name.to_string(),
    }
}

fn stats(time_wait: usize, close_wait: usize, total: usize) -> ProcessTcpStats {
    ProcessTcpStats {
        pid: 42,
        process_name: "app".to_string(),
        time_wait,
        close_wait,
        total_connections: total,
        ..Default::default()
    }
}

#[test]
fn health_score_perfect_when_idle() {
    assert_eq!(calculate_health_score(&stats(0, 0, 0)), 100);
}

#[test]
fn health_score_time_wait_penalties_stack() {
    assert_eq!(calculate_health_score(&stats(600, 0, 0)), 50);
    assert_eq!(calculate_health_score(&stats(101, 0, 0)), 80);
    assert_eq!(calculate_health_score(&stats(100, 0, 0)), 100);
}

#[test]
fn health_score_close_wait_and_total_penalties() {
    assert_eq!(calculate_health_score(&stats(0, 250, 6000)), 25);
    assert_eq!(calculate_health_score(&stats(0, 51, 1001)), 65);
}

#[test]
fn health_score_clamps_at_zero() {
    assert_eq!(calculate_health_score(&stats(600, 250, 6000)), 0);
}

#[test]
fn close_wait_above_fifty_is_one_critical_anomaly() {
    let found = detect_anomalies(&stats(0, 51, 51));
    assert_eq!(found.len(), 1);
    assert_eq!(found[0].anomaly_type, AnomalyType::TooManyCloseWait);
    assert_eq!(found[0].severity, Severity::Critical);
    assert_eq!(found[0].pid, 42);
    assert_eq!(found[0].message, "CLOSE_WAIT连接数过多: 51，可能存在连接泄漏");
    let none = detect_anomalies(&stats(0, 49, 49));
    assert!(none.iter().all(|a| a.anomaly_type != AnomalyType::TooManyCloseWait));
    assert!(none.is_empty());
}

#[test]
fn time_wait_anomaly_severity_levels() {
    let warn = detect_anomalies(&stats(101, 0, 101));
    assert_eq!(warn.len(), 1);
    assert_eq!(warn[0].severity, Severity::Warning);
    assert_eq!(warn[0].message, "TIME_WAIT连接数较高: 101");
    let crit = detect_anomalies(&stats(501, 60, 561));
    assert_eq!(crit.len(), 2);
    assert_eq!(crit[0].anomaly_type, AnomalyType::TooManyTimeWait);
    assert_eq!(crit[0].severity, Severity::Critical);
    assert_eq!(crit[0].message, "TIME_WAIT连接数过多: 501");
    assert_eq!(crit[1].anomaly_type, AnomalyType::TooManyCloseWait);
    assert!(Severity::Info < Severity::Warning && Severity::Warning < Severity::Critical);
}

#[test]
fn end_to_end_snapshot_flags_time_wait() {
    let mut conns = Vec::new();
    for _ in 0..5 {
        conns.push(conn(10, TcpState::Established, "svc"));
    }
    for _ in 0..600 {
        conns.push(conn(10, TcpState::TimeWait, "svc"));
    }
    let sys = build_system_stats(&conns, 49152, 65535);
    let top = &sys.by_process[0];
    assert_eq!(top.pid, 10);
    assert_eq!(top.total_connections, 605);
    assert_eq!(top.established, 5);
    assert_eq!(top.time_wait, 600);
    assert_eq!(top.health_score, 50);
    let found = detect_anomalies(top);
    assert!(found.iter().any(|a| a.pid == 10
        && a.anomaly_type == AnomalyType::TooManyTimeWait
        && a.severity == Severity::Critical));
}

#[test]
fn system_stats_counts_sorts_and_measures_ports() {
    let conns = vec![
        conn(1, TcpState::Listen, "a"),
        conn(2, TcpState::Established, "b"),
        conn(2, TcpState::CloseWait, "b2"),
        conn(0, TcpState::SynSent, ""),
        conn(2, TcpState::FinWait1, "b"),
    ];
    let sys = build_system_stats(&conns, 10, 12);
    assert_eq!(sys.total_connections, 5);
    assert_eq!(sys.total_ports, 3);
    assert_eq!(sys.available_ports, 0);
    assert_eq!(sys.by_state.get(TcpState::Established), 1);
    assert_eq!(sys.by_state.get(TcpState::TimeWait), 0);
    assert_eq!(sys.by_process.len(), 3);
    let first = &sys.by_process[0];
    assert_eq!(first.pid, 2);
    assert_eq!(first.process_name, "b");
    assert_eq!((first.total_connections, first.established, first.close_wait, first.other), (3, 1, 1, 1));
    // equal totals keep the order of first appearance
    assert_eq!(sys.by_process[1].pid, 1);
    assert_eq!(sys.by_process[2].pid, 0);
    for p in &sys.by_process {
        assert_eq!(p.total_connections, p.established + p.time_wait + p.close_wait + p.listen + p.other);
    }
    let wide = build_system_stats(&conns, 1025, 5000);
    assert_eq!(wide.available_ports, 3971);
}

#[test]
fn empty_snapshot_has_no_processes() {
    let sys = build_system_stats(&[], 49152, 65535);
    assert_eq!(sys.total_connections, 0);
    assert!(sys.by_process.is_empty());
    assert_eq!(sys.available_ports, 16384);
}

#[test]
fn state_counts_and_groups() {
    let conns = vec![
        conn(7, TcpState::TimeWait, "x"),
        conn(8, TcpState::TimeWait, "y"),
        conn(7, TcpState::Listen, "x"),
        conn(0, TcpState::Unknown, ""),
    ];
    let counts = calculate_stats(&conns);
    assert_eq!(counts.get(TcpState::TimeWait), 2);
    assert_eq!(counts.get(TcpState::Listen), 1);
    assert_eq!(counts.get(TcpState::Unknown), 1);
    let groups = group_by_process(&conns);
    assert_eq!(groups.len(), 3);
    assert_eq!(groups[&7].len(), 2);
    assert_eq!(groups[&7][1].state, TcpState::Listen);
    assert_eq!(groups[&0].len(), 1);
}

#[test]
fn connections_are_selected_by_pid_and_state() {
    let conns = vec![
        conn(4, TcpState::TimeWait, "a"),
        conn(5, TcpState::TimeWait, "b"),
        conn(4, TcpState::CloseWait, "a"),
        conn(4, TcpState::TimeWait, "a"),
    ];
    assert_eq!(connections_of(conns.clone(), 4, None).len(), 3);
    let tw = connections_of(conns.clone(), 4, Some(TcpState::TimeWait));
    assert_eq!(tw.len(), 2);
    assert!(tw.iter().all(|c| c.pid == 4 && c.state == TcpState::TimeWait));
    assert!(connections_of(conns, 6, None).is_empty());
}

#[test]
fn process_stats_of_absent_pid_is_zero_valued() {
    let conns = vec![conn(3, TcpState::CloseWait, "c")];
    let s = process_stats(&conns, 99, "ghost".to_string());
    assert_eq!(s.pid, 99);
    assert_eq!(s.total_connections, 0);
    assert_eq!(s.process_name, "ghost");
    assert_eq!(s.health_score, 100);
    let c = process_stats(&conns, 3, String::new());
    assert_eq!((c.total_connections, c.close_wait, c.process_name.as_str()), (1, 1, "c"));
}

#[test]
fn top_and_problematic_processes() {
    let list = vec![stats(300, 0, 300), stats(10, 30, 40), stats(0, 0, 5)];
    assert_eq!(top_processes(list.clone(), 2).len(), 2);
    assert_eq!(top_processes(list.clone(), 10).len(), 3);
    let bad = problematic_processes(list, 100);
    assert_eq!(bad.len(), 2);
    assert_eq!(bad[0].time_wait, 300);
    assert_eq!(bad[1].close_wait, 30);
}

#[test]
fn whitelisted_process_gets_no_action() {
    let mut pm = PolicyManager::new();
    pm.set_policy(AppPolicy::restricted("chrome.exe"));
    pm.whitelist.push("chrome".to_string());
    let engine = OptimizationEngine::new(pm);
    let mut s = stats(10_000, 10_000, 20_000);
    s.process_name = "chrome.exe".to_string();
    assert!(engine.analyze_and_decide(&s).is_empty());
}

#[test]
fn disabled_auto_optimize_gets_no_action() {
    let mut pm = PolicyManager::new();
    let mut p = AppPolicy::restricted("app");
    p.auto_optimize = false;
    pm.set_policy(p);
    let engine = OptimizationEngine::new(pm);
    assert!(engine.analyze_and_decide(&stats(10_000, 10_000, 20_000)).is_empty());
}

#[test]
fn optimize_policy_decides_both_actions() {
    let mut pm = PolicyManager::new();
    pm.set_policy(AppPolicy::restricted("app"));
    let engine = OptimizationEngine::new(pm);
    let actions = engine.analyze_and_decide(&stats(80, 25, 105));
    assert_eq!(actions.len(), 2);
    assert_eq!(actions[0].action_type, ActionType::CloseTimeWait);
    assert_eq!(actions[0].connections_affected, 30);
    assert!(!actions[0].success);
    assert_eq!(actions[0].reason, "TIME_WAIT(80)超过阈值(50)");
    assert_eq!(actions[1].action_type, ActionType::CloseCloseWait);
    assert_eq!(actions[1].connections_affected, 25);
    assert_eq!(actions[1].reason, "CLOSE_WAIT(25)超过阈值(20)，可能存在连接泄漏");
}

#[test]
fn alert_and_ignore_policies_record_no_op() {
    let engine = OptimizationEngine::new(PolicyManager::new());
    let alert = engine.analyze_and_decide(&stats(301, 0, 301));
    assert_eq!(alert.len(), 1);
    assert_eq!(alert[0].action_type, ActionType::NoOp);
    assert!(alert[0].success);
    assert_eq!(alert[0].reason, "告警: TIME_WAIT(301)超过阈值(300)");

    let mut pm = PolicyManager::new();
    let mut p = AppPolicy::restricted("app");
    p.threshold_action = ThresholdAction::RestartProcess;
    pm.set_policy(p);
    let engine = OptimizationEngine::new(pm);
    let ignored = engine.analyze_and_decide(&stats(51, 0, 51));
    assert_eq!(ignored.len(), 1);
    assert_eq!(ignored[0].action_type, ActionType::NoOp);
    assert_eq!(ignored[0].reason, "策略设置为忽略");
    assert!(engine.analyze_and_decide(&stats(50, 20, 70)).is_empty());
}

#[test]
fn unknown_name_resolves_to_changeable_default() {
    let mut pm = PolicyManager::new();
    pm.set_policy(AppPolicy::server("nginx"));
    assert_eq!(pm.get_policy("unknown").time_wait_threshold, Some(300));
    assert_eq!(pm.get_policy("nginx").time_wait_threshold, Some(1000));
    pm.default_policy.time_wait_threshold = Some(77);
    assert_eq!(pm.get_policy("unknown").time_wait_threshold, Some(77));
    assert_eq!(pm.get_policy("nginx").time_wait_threshold, Some(1000));
}

#[test]
fn set_and_remove_policy() {
    let mut pm = PolicyManager::new();
    pm.set_policy(AppPolicy::server("db"));
    pm.set_policy(AppPolicy::crawler("db"));
    assert_eq!(pm.all_policies().len(), 1);
    assert_eq!(pm.get_policy("db").close_wait_threshold, Some(20));
    let removed = pm.remove_policy("db").expect("policy present");
    assert_eq!(removed.note, "采集工具专用策略：积极清理 CLOSE_WAIT");
    assert!(pm.remove_policy("db").is_none());
    assert!(pm.all_policies().is_empty());
}

#[test]
fn rebuilt_store_holds_same_policies() {
    let mut pm = PolicyManager::new();
    pm.set_policy(AppPolicy::server("a"));
    pm.set_policy(AppPolicy::crawler("b"));
    pm.set_policy(AppPolicy::high_performance("c"));
    pm.whitelist.push("sys".to_string());
    pm.blacklist.push("bad".to_string());
    let mut listed: Vec<AppPolicy> = pm.all_policies().into_iter().cloned().collect();
    listed.reverse();
    let rebuilt = PolicyManager::from_parts(listed, pm.default_policy.clone(), pm.whitelist.clone(), pm.blacklist.clone());
    assert_eq!(rebuilt.all_policies().len(), 3);
    for name in ["a", "b", "c", "zzz"] {
        let x = pm.get_policy(name);
        let y = rebuilt.get_policy(name);
        assert_eq!(x.process_name, y.process_name);
        assert_eq!(x.time_wait_threshold, y.time_wait_threshold);
        assert_eq!(x.close_wait_threshold, y.close_wait_threshold);
        assert_eq!(x.threshold_action, y.threshold_action);
        assert_eq!(x.priority, y.priority);
    }
    assert_eq!(rebuilt.whitelist, pm.whitelist);
    assert_eq!(rebuilt.blacklist, pm.blacklist);
}

#[test]
fn white_and_black_lists_match_substrings() {
    let mut pm = PolicyManager::new();
    pm.whitelist.push("svc".to_string());
    pm.blacklist.push("Miner".to_string());
    assert!(pm.is_whitelisted("mysvchost"));
    assert!(!pm.is_whitelisted("SVC"));
    assert!(pm.is_blacklisted("CoinMiner.exe"));
    assert!(!pm.is_blacklisted("miner"));
    pm.whitelist.push(String::new());
    assert!(pm.is_whitelisted("anything"));
}

#[test]
fn presets_have_documented_thresholds() {
    let d = AppPolicy::default();
    assert_eq!((d.time_wait_threshold, d.close_wait_threshold, d.threshold_action), (Some(300), Some(30), ThresholdAction::Alert));
    let h = AppPolicy::high_performance("g");
    assert_eq!((h.time_wait_threshold, h.close_wait_threshold, h.threshold_action, h.priority), (Some(500), Some(50), ThresholdAction::Optimize, 10));
    let s = AppPolicy::server("s");
    assert_eq!((s.time_wait_threshold, s.close_wait_threshold, s.max_connections), (Some(1000), Some(100), Some(10000)));
    let r = AppPolicy::restricted("r");
    assert_eq!((r.time_wait_threshold, r.close_wait_threshold, r.max_connections, r.priority), (Some(50), Some(20), Some(100), 1));
    let c = AppPolicy::crawler("c");
    assert_eq!((c.time_wait_threshold, c.close_wait_threshold, c.max_connections, c.process_name.as_str()), (Some(500), Some(20), None, "c"));
}

#[test]
fn validate_rejects_out_of_range_values() {
    let mut c = TcpSystemConfig::default();
    c.max_user_port = Some(70000);
    match c.validate() {
        Err(NetOptError::InvalidParameter(m)) => assert_eq!(m, "max_user_port 必须在 1024-65535 之间，当前: 70000"),
        other => panic!("unexpected {:?}", other),
    }
    let mut c = TcpSystemConfig::default();
    c.max_user_port = Some(20000);
    c.dynamic_port_start = Some(20000);
    match c.validate() {
        Err(NetOptError::InvalidParameter(m)) => assert_eq!(m, "dynamic_port_start (20000) 必须小于 max_user_port (20000)"),
        other => panic!("unexpected {:?}", other),
    }
    let mut c = TcpSystemConfig::default();
    c.time_wait_delay = Some(29);
    assert!(matches!(c.validate(), Err(NetOptError::InvalidParameter(_))));
}

#[test]
fn validate_accepts_presets() {
    assert!(TcpSystemConfig::high_performance().validate().is_ok());
    assert!(TcpSystemConfig::conservative().validate().is_ok());
    assert!(TcpSystemConfig::default().validate().is_ok());
}

#[test]
fn decimal_rendering() {
    assert_eq!(decimal_string(0), "0");
    assert_eq!(decimal_string(605), "605");
    assert_eq!(decimal_string(u64::MAX), "18446744073709551615");
}
