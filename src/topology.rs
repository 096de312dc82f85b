use vstd::prelude::*;

verus! {

/// Relationship code of a record that describes one processor core.
pub const RELATION_PROCESSOR_CORE: u32 = 0;

/// Length of a record's header: relationship (u32) and record size (u32).
pub const RECORD_HEADER_LEN: usize = 8;

/// Offset, in a processor-core record, of the core's efficiency class (u8).
pub const EFFICIENCY_CLASS_OFFSET: usize = 9;

/// Offset, in a processor-core record, of the number of group masks (u16).
pub const GROUP_COUNT_OFFSET: usize = 30;

/// Offset, in a processor-core record, of the first group mask.
pub const GROUP_MASKS_OFFSET: usize = 32;

/// Length of one group mask: an affinity mask (u64), a group number (u16) and
/// padding.
pub const GROUP_AFFINITY_LEN: usize = 16;

/// Offset of the group number within a group mask.
pub const GROUP_NUMBER_OFFSET: usize = 8;

/// Number of logical processors in one processor group.
pub const PROCESSORS_PER_GROUP: usize = 64;

/// Why the processor topology gave no efficiency-core list.
#[derive(Clone, Copy, Debug, PartialEq, Eq, Structural)]
pub enum TopologyError {
    /// A record runs past the end of the buffer or is too short for its fields.
    Malformed,
    /// No core has a nonzero efficiency class: the processor is not hybrid.
    NotHeterogeneous,
    /// The platform offers no topology query.
    Unsupported,
}

/// The little-endian u16 at `i`.
pub open spec fn u16_at(b: Seq<u8>, i: int) -> nat {
    b[i] as nat + 256 * b[i + 1] as nat
}

/// The little-endian u32 at `i`.
pub open spec fn u32_at(b: Seq<u8>, i: int) -> nat {
    u16_at(b, i) + 0x1_0000 * u16_at(b, i + 2)
}

/// The little-endian u64 at `i`.
pub open spec fn u64_at(b: Seq<u8>, i: int) -> nat {
    u32_at(b, i) + 0x1_0000_0000 * u32_at(b, i + 4)
}

/// The logical processors that bits `0..n` of `mask` select in processor group
/// `group`, lowest bit first.
pub open spec fn mask_cores(mask: u64, group: nat, n: nat) -> Seq<usize>
    decreases n,
{
    if n == 0 {
        Seq::empty()
    } else {
        let before = mask_cores(mask, group, (n - 1) as nat);
        if mask & (1u64 << (n - 1) as u64) != 0 {
            before.push((group * PROCESSORS_PER_GROUP + (n - 1)) as usize)
        } else {
            before
        }
    }
}

/// The logical processors of the first `n` group masks of the processor-core
/// record at `off`.
pub open spec fn group_cores(b: Seq<u8>, off: int, n: nat) -> Seq<usize>
    decreases n,
{
    if n == 0 {
        Seq::empty()
    } else {
        let at = off + GROUP_MASKS_OFFSET + GROUP_AFFINITY_LEN * (n - 1);
        group_cores(b, off, (n - 1) as nat) + mask_cores(
            u64_at(b, at) as u64,
            u16_at(b, at + GROUP_NUMBER_OFFSET),
            PROCESSORS_PER_GROUP as nat,
        )
    }
}

/// Reads the records from `off` to the end of `b`: the logical processors of
/// the cores with efficiency class 0, in record order, and whether some core has
/// another class. None when a record is malformed.
pub open spec fn records_from(b: Seq<u8>, off: int) -> Option<(Seq<usize>, bool)>
    decreases b.len() - off,
{
    if off < 0 || off >= b.len() {
        Some((Seq::empty(), false))
    } else if off + RECORD_HEADER_LEN > b.len() {
        None
    } else {
        let size = u32_at(b, off + 4);
        if size < RECORD_HEADER_LEN || off + size > b.len() {
            None
        } else if u32_at(b, off) != RELATION_PROCESSOR_CORE {
            records_from(b, off + size)
        } else if size < GROUP_MASKS_OFFSET {
            None
        } else {
            let count = u16_at(b, off + GROUP_COUNT_OFFSET);
            if GROUP_MASKS_OFFSET + GROUP_AFFINITY_LEN * count > size {
                None
            } else {
                let efficient = b[off + EFFICIENCY_CLASS_OFFSET] == 0;
                let here = if efficient {
                    group_cores(b, off, count)
                } else {
                    Seq::empty()
                };
                match records_from(b, off + size) {
                    None => None,
                    Some((rest, other)) => Some((here + rest, !efficient || other)),
                }
            }
        }
    }
}

/// The efficiency-core list that a processor topology buffer describes.
pub open spec fn e_cores_of(b: Seq<u8>) -> Result<Seq<usize>, TopologyError> {
    match records_from(b, 0) {
        None => Err(TopologyError::Malformed),
        Some((cores, other)) => if other {
            Ok(cores)
        } else {
            Err(TopologyError::NotHeterogeneous)
        },
    }
}

fn read_u16(b: &Vec<u8>, i: usize) -> (r: u16)
    requires
        i + 2 <= b@.len() <= usize::MAX,
    ensures
        r == u16_at(b@, i as int),
{
    b[i] as u16 + 256 * (b[i + 1] as u16)
}

fn read_u32(b: &Vec<u8>, i: usize) -> (r: u32)
    requires
        i + 4 <= b@.len() <= usize::MAX,
    ensures
        r == u32_at(b@, i as int),
{
    read_u16(b, i) as u32 + 0x1_0000 * (read_u16(b, i + 2) as u32)
}

fn read_u64(b: &Vec<u8>, i: usize) -> (r: u64)
    requires
        i + 8 <= b@.len() <= usize::MAX,
    ensures
        r == u64_at(b@, i as int),
{
    read_u32(b, i) as u64 + 0x1_0000_0000 * (read_u32(b, i + 4) as u64)
}

/// Appends the logical processors that `mask` selects in processor group `group`.
fn push_mask_cores(out: &mut Vec<usize>, mask: u64, group: u16)
    ensures
        final(out)@ == old(out)@ + mask_cores(mask, group as nat, PROCESSORS_PER_GROUP as nat),
{
    let ghost start = old(out)@;
    let mut j: u64 = 0;
    while j < 64
        invariant
            j <= 64,
            out@ == start + mask_cores(mask, group as nat, j as nat),
        decreases 64 - j,
    {
        if mask & (1u64 << j) != 0 {
            out.push(group as usize * PROCESSORS_PER_GROUP + j as usize);
        }
        assert(start + mask_cores(mask, group as nat, (j + 1) as nat) =~= if mask & (1u64 << j)
            != 0 {
            (start + mask_cores(mask, group as nat, j as nat)).push(
                (group * PROCESSORS_PER_GROUP + j) as usize,
            )
        } else {
            start + mask_cores(mask, group as nat, j as nat)
        });
        j = j + 1;
    }
}


/// Appends the logical processors of the first `count` group masks of the
/// processor-core record at `off`.
fn push_group_cores(out: &mut Vec<usize>, b: &Vec<u8>, off: usize, count: usize)
    requires
        off + GROUP_MASKS_OFFSET + GROUP_AFFINITY_LEN * count <= b@.len() <= usize::MAX,
    ensures
        final(out)@ == old(out)@ + group_cores(b@, off as int, count as nat),
{
    let ghost start = old(out)@;
    let mut g: usize = 0;
    while g < count
        invariant
            g <= count,
            off + GROUP_MASKS_OFFSET + GROUP_AFFINITY_LEN * count <= b@.len() <= usize::MAX,
            out@ == start + group_cores(b@, off as int, g as nat),
        decreases count - g,
    {
        let at = off + GROUP_MASKS_OFFSET + GROUP_AFFINITY_LEN * g;
        let mask = read_u64(b, at);
        let group = read_u16(b, at + GROUP_NUMBER_OFFSET);
        push_mask_cores(out, mask, group);
        assert(start + group_cores(b@, off as int, (g + 1) as nat) =~= start + group_cores(
            b@,
            off as int,
            g as nat,
        ) + mask_cores(mask, group as nat, PROCESSORS_PER_GROUP as nat));
        g = g + 1;
    }
}

/// Reads the efficiency cores out of a processor topology buffer: a sequence of
/// processor-core records, each a header (relationship, size) followed by the
/// core's efficiency class and its group masks.
///
/// The cores of efficiency class 0 are listed, each logical processor as its
/// group number times 64 plus its bit in the group mask, in record order. A
/// processor where every core has class 0 is not hybrid and gives
/// `NotHeterogeneous`; a record that does not fit gives `Malformed`.
pub fn identify_e_cores(info: &Vec<u8>) -> (r: Result<Vec<usize>, TopologyError>)
    ensures
        match e_cores_of(info@) {
            Ok(cores) => r is Ok && r->Ok_0@ == cores,
            Err(e) => r == Err::<Vec<usize>, TopologyError>(e),
        },
{
    let len = info.len();
    let mut cores: Vec<usize> = Vec::new();
    let mut other = false;
    let mut off: usize = 0;
    proof {
        if let Some((rest, o)) = records_from(info@, 0) {
            assert(Seq::<usize>::empty() + rest =~= rest);
        }
    }
    while off < len
        invariant
            len == info@.len(),
            records_from(info@, 0) == match records_from(info@, off as int) {
                None => None,
                Some((rest, o)) => Some((cores@ + rest, other || o)),
            },
        decreases len - off,
    {
        if len - off < RECORD_HEADER_LEN {
            return Err(TopologyError::Malformed);
        }
        let size = read_u32(info, off + 4) as usize;
        if size < RECORD_HEADER_LEN || size > len - off {
            return Err(TopologyError::Malformed);
        }
        let relationship = read_u32(info, off);
        if relationship == RELATION_PROCESSOR_CORE {
            if size < GROUP_MASKS_OFFSET {
                return Err(TopologyError::Malformed);
            }
            let count = read_u16(info, off + GROUP_COUNT_OFFSET) as usize;
            if GROUP_AFFINITY_LEN * count > size - GROUP_MASKS_OFFSET {
                return Err(TopologyError::Malformed);
            }
            let ghost before = cores@;
            if info[off + EFFICIENCY_CLASS_OFFSET] == 0 {
                push_group_cores(&mut cores, info, off, count);
            } else {
                other = true;
            }
            proof {
                if let Some((rest, o)) = records_from(info@, off + size) {
                    assert(before + (if info@[off + EFFICIENCY_CLASS_OFFSET] == 0 {
                        group_cores(info@, off as int, count as nat)
                    } else {
                        Seq::empty()
                    }) + rest =~= cores@ + rest);
                }
            }
        }
        off = off + size;
    }
    proof {
        assert(cores@ + Seq::<usize>::empty() =~= cores@);
    }
    if other {
        Ok(cores)
    } else {
        Err(TopologyError::NotHeterogeneous)
    }
}

/// The logical processors below `total` that are not efficiency cores, in
/// ascending order: the performance group.
pub open spec fn complement_of(total: nat, e_cores: Seq<usize>) -> Seq<usize>
    decreases total,
{
    if total == 0 {
        Seq::empty()
    } else {
        let before = complement_of((total - 1) as nat, e_cores);
        if e_cores.contains((total - 1) as usize) {
            before
        } else {
            before.push((total - 1) as usize)
        }
    }
}

/// The performance cores of a machine with `total` logical processors, given
/// its efficiency cores.
pub fn performance_cores(total: usize, e_cores: &Vec<usize>) -> (r: Vec<usize>)
    ensures
        r@ == complement_of(total as nat, e_cores@),
{
    let mut rest: Vec<usize> = Vec::new();
    let mut core: usize = 0;
    while core < total
        invariant
            core <= total,
            rest@ == complement_of(core as nat, e_cores@),
        decreases total - core,
    {
        let mut listed = false;
        let mut i: usize = 0;
        while i < e_cores.len()
            invariant
                i <= e_cores@.len(),
                listed <==> exists|k: int| 0 <= k < i && e_cores@[k] == core,
            decreases e_cores@.len() - i,
        {
            if e_cores[i] == core {
                listed = true;
            }
            i = i + 1;
        }
        if !listed {
            rest.push(core);
        }
        core = core + 1;
    }
    rest
}

} // verus!
