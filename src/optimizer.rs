//! The optimization decision engine and the connection-control interface.
use vstd::prelude::*;

use crate::policy::{matches_any, AppPolicy, PolicyManager, ThresholdAction};
use crate::text::{decimal, decimal_string};
use crate::{NetOptError, ProcessTcpStats, TcpConnection, TcpState};

verus! {

/// An intended or attempted mitigation for one process.
#[derive(Debug, Clone)]
pub struct OptimizationAction {
    pub pid: u32,
    pub process_name: String,
    pub action_type: ActionType,
    pub reason: String,
    pub connections_affected: usize,
    /// Whether the action succeeded; a decision not yet executed is `false`.
    pub success: bool,
    pub error_message: Option<String>,
}

#[derive(Debug, Clone, Copy, PartialEq, Eq, Structural)]
pub enum ActionType {
    /// Close TIME_WAIT connections (needs system support).
    CloseTimeWait,
    /// Close CLOSE_WAIT connections.
    CloseCloseWait,
    /// Reset connections with RST.
    ResetConnection,
    /// Ask the process to shut down gracefully.
    GracefulShutdown,
    /// No operation.
    NoOp,
}

/// Platform executor of optimization actions. Callers check
/// `supports_connection_control` before trusting `success`; a backend without
/// single-connection teardown answers `UnsupportedPlatform`.
pub trait ConnectionOptimizer {
    /// Closes one connection.
    fn close_connection(&self, conn: &TcpConnection) -> Result<(), NetOptError>;

    /// Closes the connections of `pid` in `state`; returns how many were closed.
    fn close_connections_by_state(&self, pid: u32, state: TcpState) -> Result<usize, NetOptError>;

    /// Applies `policy` to the connections of `pid`.
    fn optimize_process(&self, pid: u32, policy: &AppPolicy) -> Result<
        OptimizationAction,
        NetOptError,
    >;

    /// Whether single connections can be closed on this platform.
    fn supports_connection_control(&self) -> bool;
}

/// `head` count `)超过阈值(` threshold `tail`.
pub open spec fn threshold_reason(head: Seq<char>, count: nat, threshold: nat, tail: Seq<char>) -> Seq<
    char,
> {
    head + decimal(count) + ")超过阈值("@ + decimal(threshold) + tail
}

fn threshold_reason_text(head: &str, count: usize, threshold: usize, tail: &str) -> (r: String)
    ensures
        r@ == threshold_reason(head@, count as nat, threshold as nat, tail@),
{
    let mut r = String::from_str(head);
    r.append(decimal_string(count as u64).as_str());
    r.append(")超过阈值(");
    r.append(decimal_string(threshold as u64).as_str());
    r.append(tail);
    r
}

pub open spec fn ignore_reason() -> Seq<char> {
    "策略设置为忽略"@
}

/// `a` concerns the process of `stats` and carries no error message.
pub open spec fn about(a: OptimizationAction, stats: ProcessTcpStats) -> bool {
    &&& a.pid == stats.pid
    &&& a.process_name@ == stats.process_name@
    &&& a.error_message is None
}

/// The decision for TIME_WAIT above `threshold` under `action`.
pub open spec fn time_wait_decision(
    a: OptimizationAction,
    stats: ProcessTcpStats,
    action: ThresholdAction,
    threshold: usize,
) -> bool {
    &&& about(a, stats)
    &&& match action {
        ThresholdAction::Optimize => {
            &&& a.action_type == ActionType::CloseTimeWait
            &&& a.connections_affected == stats.time_wait - threshold
            &&& !a.success
            &&& a.reason@ == threshold_reason(
                "TIME_WAIT("@,
                stats.time_wait as nat,
                threshold as nat,
                ")"@,
            )
        },
        ThresholdAction::Alert => {
            &&& a.action_type == ActionType::NoOp
            &&& a.connections_affected == 0
            &&& a.success
            &&& a.reason@ == threshold_reason(
                "告警: TIME_WAIT("@,
                stats.time_wait as nat,
                threshold as nat,
                ")"@,
            )
        },
        _ => {
            &&& a.action_type == ActionType::NoOp
            &&& a.connections_affected == 0
            &&& a.success
            &&& a.reason@ == ignore_reason()
        },
    }
}

/// The decision for CLOSE_WAIT above `threshold`, whatever the policy's action.
pub open spec fn close_wait_decision(
    a: OptimizationAction,
    stats: ProcessTcpStats,
    threshold: usize,
) -> bool {
    &&& about(a, stats)
    &&& a.action_type == ActionType::CloseCloseWait
    &&& a.connections_affected == stats.close_wait
    &&& !a.success
    &&& a.reason@ == threshold_reason(
        "CLOSE_WAIT("@,
        stats.close_wait as nat,
        threshold as nat,
        ")，可能存在连接泄漏"@,
    )
}

pub open spec fn time_wait_exceeded(stats: ProcessTcpStats, p: AppPolicy) -> bool {
    p.time_wait_threshold is Some && stats.time_wait > p.time_wait_threshold->0
}

pub open spec fn close_wait_exceeded(stats: ProcessTcpStats, p: AppPolicy) -> bool {
    p.close_wait_threshold is Some && stats.close_wait > p.close_wait_threshold->0
}

/// `r` is the list of decisions for `stats` under policy `p`: the TIME_WAIT
/// decision, then the CLOSE_WAIT one, each present when its threshold is set
/// and exceeded.
pub open spec fn decisions(r: Seq<OptimizationAction>, stats: ProcessTcpStats, p: AppPolicy) -> bool {
    &&& r.len() == (if time_wait_exceeded(stats, p) {
        1int
    } else {
        0int
    }) + (if close_wait_exceeded(stats, p) {
        1int
    } else {
        0int
    })
    &&& time_wait_exceeded(stats, p) ==> time_wait_decision(
        r[0],
        stats,
        p.threshold_action,
        p.time_wait_threshold->0,
    )
    &&& close_wait_exceeded(stats, p) ==> close_wait_decision(
        r.last(),
        stats,
        p.close_wait_threshold->0,
    )
}

/// Decides optimization actions for processes from their statistics and the
/// policy store. Pure: it performs no I/O and never fails.
pub struct OptimizationEngine {
    policy_manager: PolicyManager,
}

impl OptimizationEngine {
    /// The policy store the engine consults.
    pub closed spec fn store(&self) -> PolicyManager {
        self.policy_manager
    }

    pub fn new(policy_manager: PolicyManager) -> (r: Self)
        ensures
            r.store() == policy_manager,
    {
        OptimizationEngine { policy_manager }
    }

    /// The actions for the process of `stats`: none for a whitelisted name or
    /// a policy without automatic optimization; otherwise the decisions of its
    /// policy (its own, else the default).
    pub fn analyze_and_decide(&self, stats: &ProcessTcpStats) -> (r: Vec<OptimizationAction>)
        ensures
            matches_any(self.store().whitelist@, stats.process_name@) ==> r@.len() == 0,
            !self.store().policy_for(stats.process_name@).auto_optimize ==> r@.len() == 0,
            !matches_any(self.store().whitelist@, stats.process_name@) && self.store().policy_for(
                stats.process_name@,
            ).auto_optimize ==> decisions(
                r@,
                *stats,
                self.store().policy_for(stats.process_name@),
            ),
    {
        let mut actions: Vec<OptimizationAction> = Vec::new();
        if self.policy_manager.is_whitelisted(stats.process_name.as_str()) {
            return actions;
        }
        let policy = self.policy_manager.get_policy(stats.process_name.as_str());
        if !policy.auto_optimize {
            return actions;
        }
        if let Some(threshold) = policy.time_wait_threshold {
            if stats.time_wait > threshold {
                let action = match policy.threshold_action {
                    ThresholdAction::Optimize => OptimizationAction {
                        pid: stats.pid,
                        process_name: stats.process_name.clone(),
                        action_type: ActionType::CloseTimeWait,
                        reason: threshold_reason_text(
                            "TIME_WAIT(",
                            stats.time_wait,
                            threshold,
                            ")",
                        ),
                        connections_affected: stats.time_wait - threshold,
                        success: false,
                        error_message: None,
                    },
                    ThresholdAction::Alert => OptimizationAction {
                        pid: stats.pid,
                        process_name: stats.process_name.clone(),
                        action_type: ActionType::NoOp,
                        reason: threshold_reason_text(
                            "告警: TIME_WAIT(",
                            stats.time_wait,
                            threshold,
                            ")",
                        ),
                        connections_affected: 0,
                        success: true,
                        error_message: None,
                    },
                    _ => continue_action(stats),
                };
                actions.push(action);
            }
        }
        if let Some(threshold) = policy.close_wait_threshold {
            if stats.close_wait > threshold {
                actions.push(
                    OptimizationAction {
                        pid: stats.pid,
                        process_name: stats.process_name.clone(),
                        action_type: ActionType::CloseCloseWait,
                        reason: threshold_reason_text(
                            "CLOSE_WAIT(",
                            stats.close_wait,
                            threshold,
                            ")，可能存在连接泄漏",
                        ),
                        connections_affected: stats.close_wait,
                        success: false,
                        error_message: None,
                    },
                );
            }
        }
        actions
    }

    /// The policy store.
    pub fn policy_manager(&self) -> (r: &PolicyManager)
        ensures
            *r == self.store(),
    {
        &self.policy_manager
    }

    /// The policy store, for changes.
    pub fn policy_manager_mut(&mut self) -> (r: &mut PolicyManager)
        ensures
            *r == old(self).store(),
            final(self).store() == *final(r),
    {
        &mut self.policy_manager
    }
}

/// The no-op action recorded when the policy says to ignore an excess.
fn continue_action(stats: &ProcessTcpStats) -> (r: OptimizationAction)
    ensures
        about(r, *stats),
        r.action_type == ActionType::NoOp,
        r.connections_affected == 0,
        r.success,
        r.reason@ == ignore_reason(),
{
    OptimizationAction {
        pid: stats.pid,
        process_name: stats.process_name.clone(),
        action_type: ActionType::NoOp,
        reason: String::from_str("策略设置为忽略"),
        connections_affected: 0,
        success: true,
        error_message: None,
    }
}

} // verus!
