use vstd::prelude::*;

verus! {

/// The two groups of cores that are sampled and driven separately.
#[derive(Clone, Copy, Debug, PartialEq, Eq, Structural)]
pub enum CoreGroup {
    Efficiency,
    Performance,
}

/// A saturation event: the cores of one group that were fully busy during one
/// sampling cycle, in the order in which the group lists them.
///
/// A monitor also keeps a value of this type, with no cores, as the tag of the
/// events it emits.
#[derive(Clone, Debug, PartialEq, Eq)]
pub enum CpuEvent {
    EfficiencyCoreMonitor(Vec<usize>),
    PerformanceCoreMonitor(Vec<usize>),
}

impl CpuEvent {
    /// The group that the event speaks of.
    pub open spec fn spec_group(&self) -> CoreGroup {
        match self {
            CpuEvent::EfficiencyCoreMonitor(_) => CoreGroup::Efficiency,
            CpuEvent::PerformanceCoreMonitor(_) => CoreGroup::Performance,
        }
    }

    /// The cores that the event carries.
    pub open spec fn spec_cores(&self) -> Seq<usize> {
        match self {
            CpuEvent::EfficiencyCoreMonitor(c) => c@,
            CpuEvent::PerformanceCoreMonitor(c) => c@,
        }
    }

    /// An event of `group` that carries `cores`.
    pub fn of_group(group: CoreGroup, cores: Vec<usize>) -> (r: CpuEvent)
        ensures
            r.spec_group() == group,
            r.spec_cores() == cores@,
    {
        match group {
            CoreGroup::Efficiency => CpuEvent::EfficiencyCoreMonitor(cores),
            CoreGroup::Performance => CpuEvent::PerformanceCoreMonitor(cores),
        }
    }

    /// The group that the event speaks of.
    pub fn group(&self) -> (r: CoreGroup)
        ensures
            r == self.spec_group(),
    {
        match self {
            CpuEvent::EfficiencyCoreMonitor(_) => CoreGroup::Efficiency,
            CpuEvent::PerformanceCoreMonitor(_) => CoreGroup::Performance,
        }
    }

    /// The cores that the event carries.
    pub fn cores(&self) -> (r: &Vec<usize>)
        ensures
            r@ == self.spec_cores(),
    {
        match self {
            CpuEvent::EfficiencyCoreMonitor(c) => c,
            CpuEvent::PerformanceCoreMonitor(c) => c,
        }
    }
}

} // verus!
