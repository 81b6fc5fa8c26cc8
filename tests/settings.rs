use netopt_core::i18n::{I18n, Language, TextKey};
use netopt_core::refresh::RefreshGate;
use netopt_core::{AppConfig, TcpState};

#[test]
fn language_codes_and_names() {
    assert_eq!(Language::Chinese.code(), "zh-CN");
    assert_eq!(Language::English.code(), "en-US");
    assert_eq!(Language::Chinese.display_name(), "中文");
    assert_eq!(Language::English.display_name(), "English");
    assert_eq!(Language::default(), Language::Chinese);
}

#[test]
fn texts_follow_the_current_language() {
    let mut i = I18n::new();
    assert_eq!(i.current_language(), Language::Chinese);
    assert_eq!(i.t(TextKey::Dashboard), "📊 仪表盘");
    i.set_language(Language::English);
    assert_eq!(i.current_language(), Language::English);
    assert_eq!(i.t(TextKey::HelpVersion), "Version");
    assert_eq!(i.t(TextKey::AppTitle), "Smart TCP Manager");
}

#[test]
fn default_settings() {
    let c = AppConfig::default();
    assert_eq!(c.language, Language::Chinese);
    assert!(c.auto_refresh);
    assert_eq!(c.refresh_interval, 5);
    assert_eq!(c.version, 1);
    assert!(c.policy_manager.all_policies().is_empty());
    assert_eq!(c.policy_manager.default_policy.time_wait_threshold, Some(300));
}

#[test]
fn state_names_match_netstat_spelling() {
    assert_eq!(TcpState::TimeWait.name(), "TIME_WAIT");
    assert_eq!(TcpState::SynReceived.name(), "SYN_RCVD");
    assert_eq!(TcpState::FinWait2.name(), "FIN_WAIT_2");
    assert_eq!(TcpState::Unknown.name(), "UNKNOWN");
}

#[test]
fn refresh_gate_keeps_one_poll_in_flight() {
    let mut gate = RefreshGate::new();
    assert!(!gate.is_refreshing());
    assert!(!gate.on_tick(true, 5, 5));
    assert!(!gate.on_tick(false, 60, 5));
    assert!(gate.on_tick(true, 6, 5));
    assert!(gate.is_refreshing());
    assert!(!gate.on_tick(true, 600, 5));
    assert!(!gate.request());
    gate.complete();
    assert!(gate.request());
    gate.complete();
    assert!(!gate.is_refreshing());
}
