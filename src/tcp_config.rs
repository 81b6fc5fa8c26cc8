//! OS-global TCP tuning parameters and their validation.
use vstd::prelude::*;

use crate::text::{decimal, decimal_string};
use crate::NetOptError;

verus! {

/// OS-global TCP tunables; `None` leaves a parameter as it is.
#[derive(Debug, Clone, Copy, PartialEq, Eq, Structural)]
pub struct TcpSystemConfig {
    /// Highest user port (Windows MaxUserPort, macOS net.inet.ip.portrange.last).
    pub max_user_port: Option<u32>,
    /// TIME_WAIT duration in seconds.
    pub time_wait_delay: Option<u32>,
    /// First dynamic port (macOS net.inet.ip.portrange.first).
    pub dynamic_port_start: Option<u32>,
    /// Largest number of SYN retransmissions.
    pub max_syn_retransmissions: Option<u32>,
    /// TCP keep-alive time in seconds.
    pub keep_alive_time: Option<u32>,
    /// TCP keep-alive probe interval in seconds.
    pub keep_alive_interval: Option<u32>,
}

impl Default for TcpSystemConfig {
    /// Every parameter unset.
    fn default() -> (r: Self)
        ensures
            r.max_user_port is None,
            r.time_wait_delay is None,
            r.dynamic_port_start is None,
            r.max_syn_retransmissions is None,
            r.keep_alive_time is None,
            r.keep_alive_interval is None,
    {
        TcpSystemConfig {
            max_user_port: None,
            time_wait_delay: None,
            dynamic_port_start: None,
            max_syn_retransmissions: None,
            keep_alive_time: None,
            keep_alive_interval: None,
        }
    }
}

/// The message of the first violated bound of `c`, if any: `max_user_port`
/// within 1024..=65535, `time_wait_delay` within 30..=300, and
/// `dynamic_port_start` below `max_user_port` when both are set.
pub open spec fn config_violation(c: TcpSystemConfig) -> Option<Seq<char>> {
    if c.max_user_port is Some && (c.max_user_port->0 < 1024 || c.max_user_port->0 > 65535) {
        Some(
            "max_user_port 必须在 1024-65535 之间，当前: "@ + decimal(
                c.max_user_port->0 as nat,
            ),
        )
    } else if c.time_wait_delay is Some && (c.time_wait_delay->0 < 30 || c.time_wait_delay->0
        > 300) {
        Some("time_wait_delay 推荐在 30-300 秒之间，当前: "@ + decimal(c.time_wait_delay->0 as nat))
    } else if c.dynamic_port_start is Some && c.max_user_port is Some && c.dynamic_port_start->0
        >= c.max_user_port->0 {
        Some(
            "dynamic_port_start ("@ + decimal(c.dynamic_port_start->0 as nat)
                + ") 必须小于 max_user_port ("@ + decimal(c.max_user_port->0 as nat) + ")"@,
        )
    } else {
        None
    }
}

impl TcpSystemConfig {
    /// Recommended high-throughput settings.
    pub fn high_performance() -> (r: Self)
        ensures
            r.max_user_port == Some(65534u32),
            r.time_wait_delay == Some(30u32),
            r.dynamic_port_start == Some(10000u32),
            r.max_syn_retransmissions == Some(2u32),
            r.keep_alive_time == Some(60u32),
            r.keep_alive_interval == Some(10u32),
    {
        TcpSystemConfig {
            max_user_port: Some(65534),
            time_wait_delay: Some(30),
            dynamic_port_start: Some(10000),
            max_syn_retransmissions: Some(2),
            keep_alive_time: Some(60),
            keep_alive_interval: Some(10),
        }
    }

    /// Safe settings with ordinary performance.
    pub fn conservative() -> (r: Self)
        ensures
            r.max_user_port == Some(49152u32),
            r.time_wait_delay == Some(60u32),
            r.dynamic_port_start == Some(32768u32),
            r.max_syn_retransmissions == Some(3u32),
            r.keep_alive_time == Some(7200u32),
            r.keep_alive_interval == Some(75u32),
    {
        TcpSystemConfig {
            max_user_port: Some(49152),
            time_wait_delay: Some(60),
            dynamic_port_start: Some(32768),
            max_syn_retransmissions: Some(3),
            keep_alive_time: Some(7200),
            keep_alive_interval: Some(75),
        }
    }

    /// Checks the bounds; the first violation is reported as `InvalidParameter`.
    pub fn validate(&self) -> (r: Result<(), NetOptError>)
        ensures
            r is Ok <==> config_violation(*self) is None,
            r is Err ==> r->Err_0 is InvalidParameter && config_violation(*self) is Some
                && r->Err_0->InvalidParameter_0@ == config_violation(*self)->0,
    {
        if let Some(port) = self.max_user_port {
            if port < 1024 || port > 65535 {
                let mut m = String::from_str("max_user_port 必须在 1024-65535 之间，当前: ");
                m.append(decimal_string(port as u64).as_str());
                return Err(NetOptError::InvalidParameter(m));
            }
        }
        if let Some(delay) = self.time_wait_delay {
            if delay < 30 || delay > 300 {
                let mut m = String::from_str("time_wait_delay 推荐在 30-300 秒之间，当前: ");
                m.append(decimal_string(delay as u64).as_str());
                return Err(NetOptError::InvalidParameter(m));
            }
        }
        if let Some(start) = self.dynamic_port_start {
            if let Some(max) = self.max_user_port {
                if start >= max {
                    let mut m = String::from_str("dynamic_port_start (");
                    m.append(decimal_string(start as u64).as_str());
                    m.append(") 必须小于 max_user_port (");
                    m.append(decimal_string(max as u64).as_str());
                    m.append(")");
                    return Err(NetOptError::InvalidParameter(m));
                }
            }
        }
        Ok(())
    }
}

/// Platform manager of the OS-global TCP parameters.
pub trait TcpConfigManager {
    /// The parameters currently in force.
    fn get_current_config(&self) -> Result<TcpSystemConfig, NetOptError>;

    /// Validates and applies `config`; needs elevation, else `PermissionDenied`.
    fn apply_config(&self, config: &TcpSystemConfig) -> Result<(), NetOptError>;

    /// The operating system's own defaults.
    fn get_default_config(&self) -> TcpSystemConfig;

    /// Whether the process runs elevated.
    fn has_admin_privileges(&self) -> bool;

    /// Whether applied parameters take effect only after a reboot.
    fn requires_reboot(&self) -> bool;
}

} // verus!
