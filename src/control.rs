use vstd::prelude::*;

use crate::event::{CoreGroup, CpuEvent};
use crate::keep_alive::SpinLooper;
use crate::sampler::CpuMonitor;

verus! {

/// How long the performance cores must stay unsaturated, in milliseconds, before
/// the governor falls back to the efficiency cores.
pub const HYSTERESIS_MS: u64 = 10_000;

/// The governor's state.
#[derive(Clone, Copy, Debug, PartialEq, Eq, Structural)]
pub enum GovernorState {
    /// Only the efficiency cores are sampled; the keep-alive pool is stopped.
    EfficiencyOnly,
    /// The performance cores are sampled and the keep-alive pool runs;
    /// `last_event_ms` is when they were last seen saturated.
    PerformanceEnabled { last_event_ms: u64 },
}

/// What waiting on the event channel gave.
#[derive(Debug)]
pub enum Received {
    Event(CpuEvent),
    /// The wait timed out with no event.
    TimedOut,
    /// Every sender is gone.
    Disconnected,
}

/// What the caller carries out after an input was handled.
#[derive(Clone, Copy, Debug, PartialEq, Eq, Structural)]
pub enum Transition {
    Stay,
    /// Pause the efficiency sampler, resume the performance sampler, start the
    /// keep-alive pool.
    EnterPerformance,
    /// Pause the performance sampler, resume the efficiency sampler, stop and
    /// join the keep-alive pool.
    RevertToEfficiency,
}

/// An unrecoverable failure of the governor loop.
#[derive(Clone, Copy, Debug, PartialEq, Eq, Structural)]
pub enum GovernorError {
    /// The event channel has no sender left.
    ChannelDisconnected,
}

/// Milliseconds from `since` to `now`, zero if `now` is earlier.
pub open spec fn elapsed_ms(since: u64, now: u64) -> nat {
    if now >= since {
        (now - since) as nat
    } else {
        0
    }
}

/// The state after `input` arrives at time `now` in state `s`, with what the
/// caller must carry out; None when the channel is gone.
pub open spec fn next_step(s: GovernorState, input: Received, now: u64) -> Option<
    (GovernorState, Transition),
> {
    match input {
        Received::Disconnected => None,
        Received::Event(e) => match s {
            GovernorState::EfficiencyOnly => if e.spec_group() == CoreGroup::Efficiency {
                Some((GovernorState::PerformanceEnabled { last_event_ms: now }, Transition::EnterPerformance))
            } else {
                Some((s, Transition::Stay))
            },
            GovernorState::PerformanceEnabled { .. } => if e.spec_group() == CoreGroup::Performance {
                Some((GovernorState::PerformanceEnabled { last_event_ms: now }, Transition::Stay))
            } else {
                Some((s, Transition::Stay))
            },
        },
        Received::TimedOut => match s {
            GovernorState::EfficiencyOnly => Some((s, Transition::Stay)),
            GovernorState::PerformanceEnabled { last_event_ms } => if elapsed_ms(
                last_event_ms,
                now,
            ) >= HYSTERESIS_MS {
                Some((GovernorState::EfficiencyOnly, Transition::RevertToEfficiency))
            } else {
                Some((s, Transition::Stay))
            },
        },
    }
}

/// The governor: its state, the two samplers' settings and the keep-alive pool.
pub struct CoreStateController {
    pub state: GovernorState,
    pub efficiency_monitor: CpuMonitor,
    pub performance_monitor: CpuMonitor,
    pub spin_looper: SpinLooper,
}

impl CoreStateController {
    /// The samplers and the pool agree with the state: in `EfficiencyOnly` only
    /// the efficiency sampler runs and the pool is stopped; in
    /// `PerformanceEnabled` only the performance sampler runs and the pool keeps
    /// every efficiency core busy.
    pub open spec fn wf(&self) -> bool {
        &&& self.efficiency_monitor.event_type.spec_group() == CoreGroup::Efficiency
        &&& self.performance_monitor.event_type.spec_group() == CoreGroup::Performance
        &&& self.spin_looper.core_ids@ == self.efficiency_monitor.cores_to_monitor@
        &&& match self.state {
            GovernorState::EfficiencyOnly => {
                &&& self.efficiency_monitor.active
                &&& !self.performance_monitor.active
                &&& !self.spin_looper.running
            },
            GovernorState::PerformanceEnabled { .. } => {
                &&& !self.efficiency_monitor.active
                &&& self.performance_monitor.active
                &&& self.spin_looper.running
            },
        }
    }

    /// The core sets, which never change after construction.
    pub open spec fn same_cores(&self, other: &CoreStateController) -> bool {
        &&& self.efficiency_monitor.cores_to_monitor@ == other.efficiency_monitor.cores_to_monitor@
        &&& self.performance_monitor.cores_to_monitor@
            == other.performance_monitor.cores_to_monitor@
        &&& self.spin_looper.core_ids@ == other.spin_looper.core_ids@
    }

    /// A governor at rest on the efficiency cores `e_core_ids`, with
    /// `rest_of_cores` as the performance cores.
    pub fn new(e_core_ids: Vec<usize>, rest_of_cores: Vec<usize>) -> (r: CoreStateController)
        ensures
            r.wf(),
            r.state == GovernorState::EfficiencyOnly,
            r.efficiency_monitor.cores_to_monitor@ == e_core_ids@,
            r.performance_monitor.cores_to_monitor@ == rest_of_cores@,
            r.spin_looper.core_ids@ == e_core_ids@,
    {
        let mut pool_cores: Vec<usize> = Vec::new();
        let mut i: usize = 0;
        while i < e_core_ids.len()
            invariant
                i <= e_core_ids@.len(),
                pool_cores@ == e_core_ids@.take(i as int),
            decreases e_core_ids@.len() - i,
        {
            pool_cores.push(e_core_ids[i]);
            assert(e_core_ids@.take(i + 1) == e_core_ids@.take(i as int).push(e_core_ids@[i as int]));
            i = i + 1;
        }
        assert(e_core_ids@.take(i as int) == e_core_ids@);
        let efficiency_monitor = CpuMonitor::new(
            e_core_ids,
            CpuEvent::of_group(CoreGroup::Efficiency, Vec::new()),
            true,
        );
        let performance_monitor = CpuMonitor::new(
            rest_of_cores,
            CpuEvent::of_group(CoreGroup::Performance, Vec::new()),
            false,
        );
        CoreStateController {
            state: GovernorState::EfficiencyOnly,
            efficiency_monitor,
            performance_monitor,
            spin_looper: SpinLooper::new(pool_cores),
        }
    }

    /// How long to wait for the next event, in milliseconds: forever while at
    /// rest, the hysteresis window while the performance cores are enabled.
    pub fn wait_timeout_ms(&self) -> (r: Option<u64>)
        ensures
            self.state is EfficiencyOnly ==> r is None,
            self.state is PerformanceEnabled ==> r == Some(HYSTERESIS_MS),
    {
        match self.state {
            GovernorState::EfficiencyOnly => None,
            GovernorState::PerformanceEnabled { .. } => Some(HYSTERESIS_MS),
        }
    }

    fn switch_to_ecore_state(&mut self)
        requires
            old(self).wf(),
            old(self).state is PerformanceEnabled,
        ensures
            final(self).wf(),
            final(self).same_cores(old(self)),
            final(self).state == GovernorState::EfficiencyOnly,
    {
        self.performance_monitor.pause();
        self.efficiency_monitor.resume();
        self.spin_looper.stop_and_join();
        self.state = GovernorState::EfficiencyOnly;
    }

    fn switch_to_pcore_state(&mut self, now_ms: u64)
        requires
            old(self).wf(),
            old(self).state is EfficiencyOnly,
        ensures
            final(self).wf(),
            final(self).same_cores(old(self)),
            final(self).state == (GovernorState::PerformanceEnabled { last_event_ms: now_ms }),
    {
        self.efficiency_monitor.pause();
        self.performance_monitor.resume();
        self.spin_looper.start();
        self.state = GovernorState::PerformanceEnabled { last_event_ms: now_ms };
    }

    /// Handles what the wait on the event channel gave at time `now_ms`, and
    /// says what the caller must carry out.
    pub fn handle(&mut self, input: Received, now_ms: u64) -> (r: Result<Transition, GovernorError>)
        requires
            old(self).wf(),
        ensures
            final(self).wf(),
            final(self).same_cores(old(self)),
            match next_step(old(self).state, input, now_ms) {
                None => {
                    &&& r == Err::<Transition, GovernorError>(GovernorError::ChannelDisconnected)
                    &&& final(self).state == old(self).state
                },
                Some((s, t)) => r == Ok::<Transition, GovernorError>(t) && final(self).state == s,
            },
    {
        match self.state {
            GovernorState::EfficiencyOnly => self.handle_efficiency_only(input, now_ms),
            GovernorState::PerformanceEnabled { .. } => self.handle_performance_enabled(input, now_ms),
        }
    }

    fn handle_efficiency_only(&mut self, input: Received, now_ms: u64) -> (r: Result<
        Transition,
        GovernorError,
    >)
        requires
            old(self).wf(),
            old(self).state is EfficiencyOnly,
        ensures
            final(self).wf(),
            final(self).same_cores(old(self)),
            match next_step(old(self).state, input, now_ms) {
                None => {
                    &&& r == Err::<Transition, GovernorError>(GovernorError::ChannelDisconnected)
                    &&& final(self).state == old(self).state
                },
                Some((s, t)) => r == Ok::<Transition, GovernorError>(t) && final(self).state == s,
            },
    {
        match input {
            Received::Event(e) => {
                if e.group() == CoreGroup::Efficiency {
                    self.switch_to_pcore_state(now_ms);
                    Ok(Transition::EnterPerformance)
                } else {
                    Ok(Transition::Stay)
                }
            },
            Received::TimedOut => Ok(Transition::Stay),
            Received::Disconnected => Err(GovernorError::ChannelDisconnected),
        }
    }

    fn handle_performance_enabled(&mut self, input: Received, now_ms: u64) -> (r: Result<
        Transition,
        GovernorError,
    >)
        requires
            old(self).wf(),
            old(self).state is PerformanceEnabled,
        ensures
            final(self).wf(),
            final(self).same_cores(old(self)),
            match next_step(old(self).state, input, now_ms) {
                None => {
                    &&& r == Err::<Transition, GovernorError>(GovernorError::ChannelDisconnected)
                    &&& final(self).state == old(self).state
                },
                Some((s, t)) => r == Ok::<Transition, GovernorError>(t) && final(self).state == s,
            },
    {
        let last_event_ms = match self.state {
            GovernorState::PerformanceEnabled { last_event_ms } => last_event_ms,
            GovernorState::EfficiencyOnly => 0,
        };
        match input {
            Received::Event(e) => {
                if e.group() == CoreGroup::Performance {
                    self.state = GovernorState::PerformanceEnabled { last_event_ms: now_ms };
                }
                Ok(Transition::Stay)
            },
            Received::TimedOut => {
                let elapsed = if now_ms >= last_event_ms {
                    now_ms - last_event_ms
                } else {
                    0
                };
                if elapsed >= HYSTERESIS_MS {
                    self.switch_to_ecore_state();
                    Ok(Transition::RevertToEfficiency)
                } else {
                    Ok(Transition::Stay)
                }
            },
            Received::Disconnected => Err(GovernorError::ChannelDisconnected),
        }
    }
}


/// In every state that the governor reaches, exactly one sampler runs, and it
/// is the one of the state's group.
pub proof fn lemma_one_group_active(c: CoreStateController)
    requires
        c.wf(),
    ensures
        c.efficiency_monitor.active != c.performance_monitor.active,
        c.efficiency_monitor.active <==> c.state is EfficiencyOnly,
        c.performance_monitor.active <==> c.state is PerformanceEnabled,
{
}

/// In every state that the governor reaches, no keep-alive thread lives at
/// rest, and one per efficiency core lives while the performance cores are
/// enabled.
pub proof fn lemma_keep_alive_count(c: CoreStateController)
    requires
        c.wf(),
    ensures
        c.state is EfficiencyOnly ==> c.spin_looper.live_threads() == 0,
        c.state is PerformanceEnabled ==> c.spin_looper.live_threads()
            == c.efficiency_monitor.cores_to_monitor@.len(),
{
}

/// Once the performance cores are enabled, no input starts the keep-alive pool
/// again or leaves the performance sampler.
pub proof fn lemma_no_restart_while_enabled(last_event_ms: u64, input: Received, now: u64)
    ensures
        match next_step(GovernorState::PerformanceEnabled { last_event_ms }, input, now) {
            None => true,
            Some((s, t)) => t != Transition::EnterPerformance && (t == Transition::Stay
                ==> s is PerformanceEnabled),
        },
{
}

/// The state after the timed inputs `inputs` arrive in order from state `s`;
/// None once the channel is gone.
pub open spec fn run_inputs(s: GovernorState, inputs: Seq<(Received, u64)>) -> Option<
    GovernorState,
>
    decreases inputs.len(),
{
    if inputs.len() == 0 {
        Some(s)
    } else {
        match run_inputs(s, inputs.drop_last()) {
            None => None,
            Some(before) => match next_step(before, inputs.last().0, inputs.last().1) {
                None => None,
                Some((after, _)) => Some(after),
            },
        }
    }
}

/// The time of the last performance-saturation event among `inputs`, or `t0`.
pub open spec fn last_performance_event(t0: u64, inputs: Seq<(Received, u64)>) -> u64
    decreases inputs.len(),
{
    if inputs.len() == 0 {
        t0
    } else if inputs.last().0 is Event && inputs.last().0->Event_0.spec_group()
        == CoreGroup::Performance {
        inputs.last().1
    } else {
        last_performance_event(t0, inputs.drop_last())
    }
}

/// Whether no wait in `inputs` times out a full hysteresis window after the
/// latest performance-saturation event (or `t0`), and the channel stays open.
pub open spec fn gaps_below_window(t0: u64, inputs: Seq<(Received, u64)>) -> bool {
    forall|i: int|
        0 <= i < inputs.len() ==> {
            &&& !((#[trigger] inputs[i]).0 is Disconnected)
            &&& inputs[i].0 is TimedOut ==> elapsed_ms(
                last_performance_event(t0, inputs.take(i)),
                inputs[i].1,
            ) < HYSTERESIS_MS
        }
}

/// Entered at `t0`, the performance state holds while every timed-out wait
/// comes less than a hysteresis window after the latest performance-saturation
/// event, and it then remembers that event's time.
pub proof fn lemma_hysteresis_holds(t0: u64, inputs: Seq<(Received, u64)>)
    requires
        gaps_below_window(t0, inputs),
    ensures
        run_inputs(GovernorState::PerformanceEnabled { last_event_ms: t0 }, inputs) == Some(
            GovernorState::PerformanceEnabled {
                last_event_ms: last_performance_event(t0, inputs),
            },
        ),
    decreases inputs.len(),
{
    if inputs.len() > 0 {
        let prefix = inputs.drop_last();
        assert(gaps_below_window(t0, prefix)) by {
            assert forall|i: int| 0 <= i < prefix.len() implies {
                &&& !((#[trigger] prefix[i]).0 is Disconnected)
                &&& prefix[i].0 is TimedOut ==> elapsed_ms(
                    last_performance_event(t0, prefix.take(i)),
                    prefix[i].1,
                ) < HYSTERESIS_MS
            } by {
                assert(prefix[i] == inputs[i]);
                assert(prefix.take(i) == inputs.take(i));
            }
        }
        lemma_hysteresis_holds(t0, prefix);
        let k = inputs.len() - 1;
        assert(inputs[k] == inputs.last());
        assert(inputs.take(k) == prefix);
    }
}

/// After such a run, a wait that times out a full hysteresis window after the
/// latest performance-saturation event brings the governor back to rest.
pub proof fn lemma_quiet_window_reverts(t0: u64, inputs: Seq<(Received, u64)>, now: u64)
    requires
        gaps_below_window(t0, inputs),
        elapsed_ms(last_performance_event(t0, inputs), now) >= HYSTERESIS_MS,
    ensures
        run_inputs(
            GovernorState::PerformanceEnabled { last_event_ms: t0 },
            inputs.push((Received::TimedOut, now)),
        ) == Some(GovernorState::EfficiencyOnly),
{
    lemma_hysteresis_holds(t0, inputs);
    assert(inputs.push((Received::TimedOut, now)).drop_last() == inputs);
}

} // verus!
