use core_governor::event::{CoreGroup, CpuEvent};
use core_governor::sampler::{
    counter_path, is_saturated, saturated_cores, wide_counter_path, CoreReading, CpuMonitor,
    SamplerError,
};

fn pct(v: f64) -> CoreReading {
    CoreReading::Percent(v.to_bits())
}

fn efficiency_monitor(cores: Vec<usize>) -> CpuMonitor {
    CpuMonitor::new(cores, CpuEvent::EfficiencyCoreMonitor(Vec::new()), true)
}

#[test]
fn classification_keeps_full_cores_in_order() {
    let m = efficiency_monitor(vec![0, 1, 2]);
    let r = m.cycle_event(&vec![pct(99.9), pct(100.0), pct(100.0)]);
    assert_eq!(r, Ok(Some(CpuEvent::EfficiencyCoreMonitor(vec![1, 2]))));
}

#[test]
fn transient_read_failure_leaves_core_out() {
    let m = CpuMonitor::new(vec![4, 5, 6], CpuEvent::PerformanceCoreMonitor(Vec::new()), true);
    let r = m.cycle_event(&vec![pct(100.0), CoreReading::InvalidData, pct(100.0)]);
    assert_eq!(r, Ok(Some(CpuEvent::PerformanceCoreMonitor(vec![4, 6]))));
    let r = m.cycle_event(&vec![CoreReading::Offline, pct(100.0), CoreReading::InvalidArgument]);
    assert_eq!(r, Ok(Some(CpuEvent::PerformanceCoreMonitor(vec![5]))));
    let r = m.cycle_event(&vec![CoreReading::Stale, pct(100.0), pct(100.0)]);
    assert_eq!(r, Ok(Some(CpuEvent::PerformanceCoreMonitor(vec![5, 6]))));
}

#[test]
fn no_saturated_core_emits_nothing() {
    let m = efficiency_monitor(vec![0, 1]);
    assert_eq!(m.cycle_event(&vec![pct(0.0), pct(99.99)]), Ok(None));
}

#[test]
fn empty_core_set_never_emits() {
    let m = efficiency_monitor(Vec::new());
    assert_eq!(m.cycle_event(&Vec::new()), Ok(None));
}

#[test]
fn unclassified_read_failure_is_fatal() {
    let m = efficiency_monitor(vec![2, 3, 4]);
    let r = m.cycle_event(&vec![pct(100.0), CoreReading::Failed(0xC000_0BBB), CoreReading::Failed(7)]);
    assert_eq!(r, Err(SamplerError::ReadFailed { core: 3, status: 0xC000_0BBB }));
}

#[test]
fn saturation_threshold_edges() {
    assert!(is_saturated(pct(100.0)));
    assert!(is_saturated(pct(100.000001)));
    assert!(is_saturated(pct(1.0e300)));
    assert!(is_saturated(pct(f64::INFINITY)));
    assert!(!is_saturated(pct(99.999999)));
    assert!(!is_saturated(pct(-100.0)));
    assert!(!is_saturated(pct(-0.0)));
    assert!(!is_saturated(pct(f64::NAN)));
    assert!(!is_saturated(CoreReading::Offline));
}

#[test]
fn saturated_cores_matches_cycle_event() {
    let r = saturated_cores(&vec![9, 8, 7], &vec![pct(100.0), pct(50.0), pct(250.0)]);
    assert_eq!(r, Ok(vec![9, 7]));
}

#[test]
fn pause_and_resume_are_idempotent() {
    let mut m = efficiency_monitor(vec![1]);
    m.resume();
    m.resume();
    assert!(m.is_active());
    assert_eq!(m.cores_to_monitor, vec![1]);
    m.pause();
    m.pause();
    assert!(!m.is_active());
    m.resume();
    assert!(m.is_active());
    assert_eq!(m.group(), CoreGroup::Efficiency);
}

#[test]
fn thread_names_follow_group() {
    assert_eq!(efficiency_monitor(vec![]).get_thread_name(), "EfficiencyCoreMonitor_thread");
    let p = CpuMonitor::new(vec![], CpuEvent::PerformanceCoreMonitor(vec![]), false);
    assert_eq!(p.get_thread_name(), "PerformanceCoreMonitor_thread");
}

#[test]
fn counter_path_names_the_core() {
    assert_eq!(counter_path(0), "\\Processor Information(0,0)\\% Processor Utility");
    assert_eq!(counter_path(12), "\\Processor Information(0,12)\\% Processor Utility");
    assert_eq!(counter_path(4095), "\\Processor Information(0,4095)\\% Processor Utility");
}

#[test]
fn wide_counter_path_is_utf16_with_nul() {
    let w = wide_counter_path(7);
    let mut expected: Vec<u16> = "\\Processor Information(0,7)\\% Processor Utility".encode_utf16().collect();
    expected.push(0);
    assert_eq!(w, expected);
    assert_eq!(w[0], b'\\' as u16);
    assert_eq!(*w.last().unwrap(), 0);
}
