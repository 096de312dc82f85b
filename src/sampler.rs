use vstd::prelude::*;

use crate::event::{CoreGroup, CpuEvent};

verus! {

/// Bit pattern of the IEEE-754 binary64 value `100.0`: a core whose utilization
/// percentage reaches it counts as saturated.
pub const SATURATION_BITS: u64 = 0x4059_0000_0000_0000;

/// Bit pattern of positive infinity, the largest pattern with a clear sign bit
/// that is not a NaN.
pub const POSITIVE_INFINITY_BITS: u64 = 0x7FF0_0000_0000_0000;

/// What reading one core's utilization counter gave in a sampling cycle.
#[derive(Clone, Copy, Debug, PartialEq, Eq, Structural)]
pub enum CoreReading {
    /// A valid utilization percentage, as the bit pattern of a binary64 value.
    Percent(u64),
    /// The counter answered, but its data was neither valid nor new.
    Stale,
    /// The core was power-gated between the two snapshots (negative value or
    /// negative denominator).
    Offline,
    /// The counter rejected its arguments for this read.
    InvalidArgument,
    /// The counter reported invalid data for this read.
    InvalidData,
    /// Any other status: the sampler cannot go on.
    Failed(u32),
}

/// An unrecoverable sampling failure.
#[derive(Clone, Copy, Debug, PartialEq, Eq, Structural)]
pub enum SamplerError {
    /// Reading the counter of `core` failed with `status`.
    ReadFailed { core: usize, status: u32 },
}

/// Whether a binary64 bit pattern stands for a number that is at least `100.0`.
/// With the sign bit clear, binary64 values are ordered as their bit patterns,
/// and the patterns above that of infinity are NaNs.
pub open spec fn saturated_bits(bits: u64) -> bool {
    SATURATION_BITS <= bits <= POSITIVE_INFINITY_BITS
}

/// Whether a reading shows a saturated core.
pub open spec fn reading_saturated(r: CoreReading) -> bool {
    match r {
        CoreReading::Percent(bits) => saturated_bits(bits),
        _ => false,
    }
}

/// The outcome of a sampling cycle over `cores` with one reading each: the
/// saturated cores in their given order, or the first read that failed.
/// Stale, offline and invalid reads leave their core out.
pub open spec fn cycle_result(cores: Seq<usize>, readings: Seq<CoreReading>) -> Result<
    Seq<usize>,
    SamplerError,
>
    decreases cores.len(),
{
    if cores.len() == 0 || readings.len() == 0 {
        Ok(Seq::empty())
    } else {
        match cycle_result(cores.drop_last(), readings.drop_last()) {
            Err(e) => Err(e),
            Ok(found) => match readings.last() {
                CoreReading::Failed(status) => Err(
                    SamplerError::ReadFailed { core: cores.last(), status },
                ),
                r => if reading_saturated(r) {
                    Ok(found.push(cores.last()))
                } else {
                    Ok(found)
                },
            },
        }
    }
}

/// Whether a reading shows a saturated core.
pub fn is_saturated(r: CoreReading) -> (b: bool)
    ensures
        b == reading_saturated(r),
{
    match r {
        CoreReading::Percent(bits) => SATURATION_BITS <= bits && bits <= POSITIVE_INFINITY_BITS,
        _ => false,
    }
}

/// The saturated cores of one sampling cycle, in the order of `cores`, or the
/// first failed read.
pub fn saturated_cores(cores: &Vec<usize>, readings: &Vec<CoreReading>) -> (r: Result<
    Vec<usize>,
    SamplerError,
>)
    requires
        readings@.len() == cores@.len(),
    ensures
        match cycle_result(cores@, readings@) {
            Ok(found) => r is Ok && r->Ok_0@ == found,
            Err(e) => r == Err::<Vec<usize>, SamplerError>(e),
        },
{
    let mut found: Vec<usize> = Vec::new();
    let mut i: usize = 0;
    while i < cores.len()
        invariant
            i <= cores@.len(),
            readings@.len() == cores@.len(),
            cycle_result(cores@.take(i as int), readings@.take(i as int)) == Ok::<
                Seq<usize>,
                SamplerError,
            >(found@),
        decreases cores@.len() - i,
    {
        let core = cores[i];
        let reading = readings[i];
        assert(cores@.take(i + 1).drop_last() == cores@.take(i as int));
        assert(readings@.take(i + 1).drop_last() == readings@.take(i as int));
        match reading {
            CoreReading::Failed(status) => {
                assert(cycle_result(cores@.take(i + 1), readings@.take(i + 1)) == Err::<
                    Seq<usize>,
                    SamplerError,
                >(SamplerError::ReadFailed { core, status }));
                proof {
                    lemma_failure_sticks(cores@, readings@, i as int + 1);
                }
                return Err(SamplerError::ReadFailed { core, status });
            },
            _ => {
                if is_saturated(reading) {
                    found.push(core);
                }
            },
        }
        i = i + 1;
    }
    assert(cores@.take(i as int) == cores@);
    assert(readings@.take(i as int) == readings@);
    Ok(found)
}

/// Once a prefix of a cycle has failed, the whole cycle fails the same way.
proof fn lemma_failure_sticks(cores: Seq<usize>, readings: Seq<CoreReading>, n: int)
    requires
        0 < n <= cores.len(),
        readings.len() == cores.len(),
        cycle_result(cores.take(n), readings.take(n)) is Err,
    ensures
        cycle_result(cores, readings) == cycle_result(cores.take(n), readings.take(n)),
    decreases cores.len() - n,
{
    if n < cores.len() {
        assert(cores.take(n + 1).drop_last() == cores.take(n));
        assert(readings.take(n + 1).drop_last() == readings.take(n));
        lemma_failure_sticks(cores, readings, n + 1);
    } else {
        assert(cores.take(n) == cores);
        assert(readings.take(n) == readings);
    }
}


/// The settings of one core group's sampler, and whether it samples now.
///
/// The caller runs the sampling thread: while `active` is false it blocks, and
/// after each cycle it reports the readings to `cycle_event`.
pub struct CpuMonitor {
    /// The cores that the sampler reads, in order.
    pub cores_to_monitor: Vec<usize>,
    /// The tag of the events that the sampler emits.
    pub event_type: CpuEvent,
    /// Whether the sampler runs.
    pub active: bool,
}

impl CpuMonitor {
    /// The same monitor with its activity set to `active`.
    pub open spec fn with_active(self, active: bool) -> CpuMonitor {
        CpuMonitor { active, ..self }
    }

    pub fn new(cores_to_monitor: Vec<usize>, event_type: CpuEvent, active: bool) -> (r: CpuMonitor)
        ensures
            r == (CpuMonitor { cores_to_monitor, event_type, active }),
    {
        CpuMonitor { cores_to_monitor, event_type, active }
    }

    /// Stops sampling after the current cycle. Pausing a paused monitor changes
    /// nothing.
    pub fn pause(&mut self)
        ensures
            *final(self) == old(self).with_active(false),
    {
        self.active = false;
    }

    /// Lets sampling go on. Resuming an active monitor changes nothing.
    pub fn resume(&mut self)
        ensures
            *final(self) == old(self).with_active(true),
    {
        self.active = true;
    }

    pub fn is_active(&self) -> (r: bool)
        ensures
            r == self.active,
    {
        self.active
    }

    /// The group whose events this monitor emits.
    pub fn group(&self) -> (r: CoreGroup)
        ensures
            r == self.event_type.spec_group(),
    {
        self.event_type.group()
    }

    /// The name of the sampling thread of this monitor's group.
    pub fn get_thread_name(&self) -> (r: String)
        ensures
            self.event_type.spec_group() == CoreGroup::Efficiency ==> r@
                == "EfficiencyCoreMonitor_thread"@,
            self.event_type.spec_group() == CoreGroup::Performance ==> r@
                == "PerformanceCoreMonitor_thread"@,
    {
        match self.event_type.group() {
            CoreGroup::Efficiency => String::from_str("EfficiencyCoreMonitor_thread"),
            CoreGroup::Performance => String::from_str("PerformanceCoreMonitor_thread"),
        }
    }

    /// What one finished cycle yields, with `readings[i]` read from
    /// `cores_to_monitor[i]`: an event of this monitor's group with the
    /// saturated cores, none when no core saturated, or the first failed read.
    pub fn cycle_event(&self, readings: &Vec<CoreReading>) -> (r: Result<
        Option<CpuEvent>,
        SamplerError,
    >)
        requires
            readings@.len() == self.cores_to_monitor@.len(),
        ensures
            match cycle_result(self.cores_to_monitor@, readings@) {
                Err(e) => r == Err::<Option<CpuEvent>, SamplerError>(e),
                Ok(found) => r is Ok && if found.len() == 0 {
                    r->Ok_0 is None
                } else {
                    &&& r->Ok_0 is Some
                    &&& r->Ok_0->Some_0.spec_group() == self.event_type.spec_group()
                    &&& r->Ok_0->Some_0.spec_cores() == found
                },
            },
    {
        match saturated_cores(&self.cores_to_monitor, readings) {
            Err(e) => Err(e),
            Ok(found) => {
                if found.len() == 0 {
                    Ok(None)
                } else {
                    Ok(Some(CpuEvent::of_group(self.group(), found)))
                }
            },
        }
    }
}

/// Pausing twice is pausing once, and resuming twice is resuming once.
pub proof fn lemma_pause_resume_idempotent(m: CpuMonitor)
    ensures
        m.with_active(false).with_active(false) == m.with_active(false),
        m.with_active(true).with_active(true) == m.with_active(true),
        m.active ==> m.with_active(true) == m,
        !m.active ==> m.with_active(false) == m,
{
}

/// The decimal digit `d`, for `d < 10`.
pub open spec fn digit_char(d: nat) -> char {
    seq!['0', '1', '2', '3', '4', '5', '6', '7', '8', '9'][d as int]
}

/// The decimal notation of `n`, without leading zeros.
pub open spec fn decimal(n: nat) -> Seq<char>
    decreases n,
{
    if n < 10 {
        seq![digit_char(n)]
    } else {
        decimal(n / 10).push(digit_char(n % 10))
    }
}

/// The path of the utility counter of logical processor `core`.
pub open spec fn counter_path_of(core: nat) -> Seq<char> {
    "\\Processor Information(0,"@ + decimal(core) + ")\\% Processor Utility"@
}

/// Whether every character of `s` is ASCII and none is nul.
pub open spec fn ascii_without_nul(s: Seq<char>) -> bool {
    forall|i: int| 0 <= i < s.len() ==> 0 < #[trigger] (s[i] as u32) < 128
}

/// The UTF-16 units of an ASCII string: one per character.
pub open spec fn ascii_utf16(s: Seq<char>) -> Seq<u16> {
    s.map_values(|c: char| c as u16)
}

fn digit_str(d: usize) -> (r: &'static str)
    requires
        d < 10,
    ensures
        r@ == seq![digit_char(d as nat)],
{
    proof {
        reveal_strlit("0");
        reveal_strlit("1");
        reveal_strlit("2");
        reveal_strlit("3");
        reveal_strlit("4");
        reveal_strlit("5");
        reveal_strlit("6");
        reveal_strlit("7");
        reveal_strlit("8");
        reveal_strlit("9");
    }
    match d {
        0 => "0",
        1 => "1",
        2 => "2",
        3 => "3",
        4 => "4",
        5 => "5",
        6 => "6",
        7 => "7",
        8 => "8",
        _ => "9",
    }
}

fn push_decimal(s: &mut String, n: usize)
    ensures
        final(s)@ == old(s)@ + decimal(n as nat),
    decreases n,
{
    if n >= 10 {
        push_decimal(s, n / 10);
    }
    s.append(digit_str(n % 10));
    assert(old(s)@ + decimal(n as nat) =~= if n >= 10 {
        old(s)@ + decimal((n / 10) as nat) + seq![digit_char((n % 10) as nat)]
    } else {
        old(s)@ + seq![digit_char((n % 10) as nat)]
    });
}

/// The path of the utility counter that the sampler reads for `core`.
pub fn counter_path(core: usize) -> (r: String)
    ensures
        r@ == counter_path_of(core as nat),
{
    let mut path = String::from_str("\\Processor Information(0,");
    push_decimal(&mut path, core);
    path.append(")\\% Processor Utility");
    path
}

/// Relies on widestring's `U16CString::from_str` and `into_vec_with_nul`: a string
/// with no nul character is encoded in UTF-16, one unit per ASCII character,
/// and ends with one nul unit.
#[verifier::external_body]
fn to_wide_with_nul(s: &str) -> (r: Option<Vec<u16>>)
    ensures
        ascii_without_nul(s@) ==> r is Some && r->Some_0@ == ascii_utf16(s@).push(0u16),
{
    match widestring::U16CString::from_str(s) {
        Ok(w) => Some(w.into_vec_with_nul()),
        Err(_) => None,
    }
}

/// The counter path of `core` as a nul-terminated UTF-16 string, as the
/// operating system's counter query takes it.
pub fn wide_counter_path(core: usize) -> (r: Vec<u16>)
    ensures
        r@ == ascii_utf16(counter_path_of(core as nat)).push(0u16),
{
    let path = counter_path(core);
    proof {
        lemma_counter_path_ascii(core as nat);
    }
    match to_wide_with_nul(path.as_str()) {
        Some(wide) => wide,
        None => Vec::new(),
    }
}

proof fn lemma_decimal_ascii(n: nat)
    ensures
        ascii_without_nul(decimal(n)),
    decreases n,
{
    if n >= 10 {
        lemma_decimal_ascii(n / 10);
    }
}

proof fn lemma_counter_path_ascii(core: nat)
    ensures
        ascii_without_nul(counter_path_of(core)),
{
    reveal_strlit("\\Processor Information(0,");
    reveal_strlit(")\\% Processor Utility");
    lemma_decimal_ascii(core);
    let p = counter_path_of(core);
    let a = "\\Processor Information(0,"@;
    let d = decimal(core);
    assert forall|i: int| 0 <= i < p.len() implies 0 < #[trigger] (p[i] as u32) < 128 by {
        if i >= a.len() && i < a.len() + d.len() {
            assert(p[i] == d[i - a.len()]);
        }
    }
}

} // verus!
