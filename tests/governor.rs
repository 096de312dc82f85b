use core_governor::control::{CoreStateController, GovernorError, GovernorState, Received, Transition};
use core_governor::event::CpuEvent;
use core_governor::keep_alive::SpinLooper;

fn efficiency(cores: Vec<usize>) -> Received {
    Received::Event(CpuEvent::EfficiencyCoreMonitor(cores))
}

fn performance(cores: Vec<usize>) -> Received {
    Received::Event(CpuEvent::PerformanceCoreMonitor(cores))
}

#[test]
fn starts_at_rest_on_efficiency_cores() {
    let c = CoreStateController::new(vec![3], vec![0, 1, 2]);
    assert_eq!(c.state, GovernorState::EfficiencyOnly);
    assert!(c.efficiency_monitor.is_active());
    assert!(!c.performance_monitor.is_active());
    assert!(!c.spin_looper.is_running());
    assert_eq!(c.wait_timeout_ms(), None);
}

#[test]
fn efficiency_saturation_enables_performance_cores() {
    let mut c = CoreStateController::new(vec![3], vec![0, 1, 2]);
    assert_eq!(c.handle(efficiency(vec![3]), 500), Ok(Transition::EnterPerformance));
    assert_eq!(c.state, GovernorState::PerformanceEnabled { last_event_ms: 500 });
    assert!(!c.efficiency_monitor.is_active());
    assert!(c.performance_monitor.is_active());
    assert!(c.spin_looper.is_running());
    assert_eq!(c.spin_looper.core_ids, vec![3]);
    assert_eq!(c.wait_timeout_ms(), Some(10_000));
}

#[test]
fn performance_event_at_rest_is_ignored() {
    let mut c = CoreStateController::new(vec![3], vec![0, 1, 2]);
    assert_eq!(c.handle(performance(vec![0]), 100), Ok(Transition::Stay));
    assert_eq!(c.state, GovernorState::EfficiencyOnly);
    assert_eq!(c.handle(Received::TimedOut, 99_000), Ok(Transition::Stay));
    assert_eq!(c.state, GovernorState::EfficiencyOnly);
}

#[test]
fn quiet_window_reverts_after_last_event() {
    let t0: u64 = 1_000;
    let mut c = CoreStateController::new(vec![3], vec![0, 1, 2]);
    assert_eq!(c.handle(efficiency(vec![3]), t0), Ok(Transition::EnterPerformance));
    assert_eq!(c.handle(performance(vec![1]), t0 + 5_000), Ok(Transition::Stay));
    assert_eq!(c.state, GovernorState::PerformanceEnabled { last_event_ms: t0 + 5_000 });
    assert_eq!(c.handle(Received::TimedOut, t0 + 15_000), Ok(Transition::RevertToEfficiency));
    assert_eq!(c.state, GovernorState::EfficiencyOnly);
    assert!(c.efficiency_monitor.is_active());
    assert!(!c.performance_monitor.is_active());
    assert!(!c.spin_looper.is_running());
}

#[test]
fn hysteresis_holds_while_gaps_stay_short() {
    let t0: u64 = 0;
    let mut c = CoreStateController::new(vec![4, 5], vec![0, 1]);
    c.handle(efficiency(vec![4]), t0).unwrap();
    let mut last = t0;
    for k in 1..=10u64 {
        let t = t0 + 3_000 + 4_000 * (k - 1);
        assert_eq!(c.handle(Received::TimedOut, t), Ok(Transition::Stay));
        assert_eq!(c.handle(performance(vec![0]), t), Ok(Transition::Stay));
        assert_eq!(c.handle(Received::TimedOut, t + 9_999), Ok(Transition::Stay));
        last = t;
    }
    assert!(c.spin_looper.is_running());
    assert_eq!(c.state, GovernorState::PerformanceEnabled { last_event_ms: last });
    assert_eq!(c.handle(Received::TimedOut, last + 10_000), Ok(Transition::RevertToEfficiency));
    assert_eq!(c.state, GovernorState::EfficiencyOnly);
}

#[test]
fn efficiency_event_while_enabled_changes_nothing() {
    let mut c = CoreStateController::new(vec![3], vec![0]);
    c.handle(efficiency(vec![3]), 0).unwrap();
    assert_eq!(c.handle(efficiency(vec![3]), 2_000), Ok(Transition::Stay));
    assert_eq!(c.state, GovernorState::PerformanceEnabled { last_event_ms: 0 });
    assert!(c.spin_looper.is_running());
    assert_eq!(c.handle(Received::TimedOut, 10_000), Ok(Transition::RevertToEfficiency));
}

#[test]
fn early_wake_keeps_performance_cores() {
    let mut c = CoreStateController::new(vec![3], vec![0]);
    c.handle(efficiency(vec![3]), 20_000).unwrap();
    assert_eq!(c.handle(Received::TimedOut, 29_999), Ok(Transition::Stay));
    assert_eq!(c.handle(Received::TimedOut, 5), Ok(Transition::Stay));
    assert!(c.performance_monitor.is_active());
}

#[test]
fn disconnect_is_fatal_in_both_states() {
    let mut c = CoreStateController::new(vec![3], vec![0]);
    assert_eq!(c.handle(Received::Disconnected, 0), Err(GovernorError::ChannelDisconnected));
    assert_eq!(c.state, GovernorState::EfficiencyOnly);
    c.handle(efficiency(vec![3]), 1).unwrap();
    assert_eq!(c.handle(Received::Disconnected, 2), Err(GovernorError::ChannelDisconnected));
    assert_eq!(c.state, GovernorState::PerformanceEnabled { last_event_ms: 1 });
}

#[test]
fn empty_efficiency_set_stays_at_rest() {
    let mut c = CoreStateController::new(Vec::new(), vec![0, 1]);
    assert_eq!(c.efficiency_monitor.cycle_event(&Vec::new()), Ok(None));
    assert_eq!(c.wait_timeout_ms(), None);
    assert_eq!(c.handle(performance(vec![0]), 60_000), Ok(Transition::Stay));
    assert_eq!(c.state, GovernorState::EfficiencyOnly);
}

#[test]
fn pool_count_follows_state() {
    let mut c = CoreStateController::new(vec![6, 7, 8], vec![0]);
    assert!(!c.spin_looper.is_running());
    c.handle(efficiency(vec![6, 8]), 0).unwrap();
    assert!(c.spin_looper.is_running());
    assert_eq!(c.spin_looper.core_ids.len(), 3);
    c.handle(Received::TimedOut, 10_000).unwrap();
    assert!(!c.spin_looper.is_running());
    c.handle(efficiency(vec![7]), 11_000).unwrap();
    assert!(c.spin_looper.is_running());
}

#[test]
fn spin_looper_restarts_after_stop() {
    let mut p = SpinLooper::new(vec![2, 3]);
    assert!(!p.is_running());
    p.start();
    assert!(p.is_running());
    p.stop_and_join();
    assert!(!p.is_running());
    p.start();
    assert!(p.is_running());
    assert_eq!(p.core_ids, vec![2, 3]);
}
