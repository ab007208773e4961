//! The physical memory map that the firmware reports.

use vstd::prelude::*;

verus! {

/// The firmware's marker for memory that is free for use.
pub const E820_USABLE: u32 = 1;

/// What a region of physical memory may be used for.
#[derive(Debug, Clone, Copy, PartialEq, Eq)]
pub enum RegionKind {
    /// Free for use.
    Usable,
    /// Anything else, with the marker that the firmware gave.
    Reserved(u32),
}

/// One entry of the memory map: `len` bytes of physical memory from `start`.
#[derive(Debug, Clone, Copy)]
pub struct PhysicalRegion {
    pub start: u64,
    pub len: u64,
    pub kind: RegionKind,
}

impl PhysicalRegion {
    /// The address just behind the region.
    pub open spec fn end(self) -> int {
        self.start + self.len
    }

    /// The region ends inside the 64-bit address space.
    pub open spec fn wf(self) -> bool {
        self.end() <= u64::MAX
    }

    /// The region that a firmware record describes. The marker `E820_USABLE`
    /// stands for usable memory, every other one for reserved memory.
    pub fn from_firmware(start: u64, len: u64, marker: u32) -> (region: PhysicalRegion)
        ensures
            region.start == start,
            region.len == len,
            region.kind == (if marker == E820_USABLE {
                RegionKind::Usable
            } else {
                RegionKind::Reserved(marker)
            }),
    {
        let kind = if marker == E820_USABLE {
            RegionKind::Usable
        } else {
            RegionKind::Reserved(marker)
        };
        PhysicalRegion { start, len, kind }
    }

    /// Whether the region ends inside the 64-bit address space.
    pub fn is_valid(&self) -> (valid: bool)
        ensures
            valid == self.wf(),
    {
        self.len <= u64::MAX - self.start
    }

    /// Whether the region is free for use.
    pub fn is_usable(&self) -> (usable: bool)
        ensures
            usable == (self.kind is Usable),
    {
        match self.kind {
            RegionKind::Usable => true,
            RegionKind::Reserved(_) => false,
        }
    }

    /// The address just behind the region.
    pub fn end_address(&self) -> (end: u64)
        requires
            self.wf(),
        ensures
            end == self.end(),
    {
        self.start + self.len
    }
}

/// Every region of the map ends inside the 64-bit address space.
pub open spec fn regions_wf(regions: Seq<PhysicalRegion>) -> bool {
    forall|i: int| 0 <= i < regions.len() ==> (#[trigger] regions[i]).wf()
}

/// `max` is the end of one of the regions, and no region ends behind it.
pub open spec fn is_max_end(regions: Seq<PhysicalRegion>, max: int) -> bool {
    &&& exists|i: int| 0 <= i < regions.len() && (#[trigger] regions[i]).end() == max
    &&& forall|i: int| 0 <= i < regions.len() ==> (#[trigger] regions[i]).end() <= max
}

/// The number of entries in the firmware's memory map: the low eight bits of
/// the word in which the firmware left the count.
pub fn memory_map_entry_count(raw: u64) -> (count: u64)
    ensures
        count == raw & 0xff,
        count == raw % 256,
{
    assert(raw & 0xff == raw % 256) by (bit_vector);
    raw & 0xff
}

/// Whether every region of the map ends inside the 64-bit address space.
pub fn regions_valid(regions: &[PhysicalRegion]) -> (valid: bool)
    ensures
        valid == regions_wf(regions@),
{
    let mut i: usize = 0;
    while i < regions.len()
        invariant
            i <= regions.len(),
            forall|j: int| 0 <= j < i ==> (#[trigger] regions@[j]).wf(),
        decreases regions.len() - i,
    {
        if !regions[i].is_valid() {
            return false;
        }
        i += 1;
    }
    true
}

/// The highest address that any region of the map reaches: the greatest of the
/// regions' ends, whatever their kind. The map must not be empty.
pub fn max_physical_address(regions: &[PhysicalRegion]) -> (max: u64)
    requires
        regions@.len() > 0,
        regions_wf(regions@),
    ensures
        is_max_end(regions@, max as int),
{
    let mut max: u64 = regions[0].end_address();
    let mut i: usize = 1;
    assert(regions@.take(1)[0] == regions@[0]);
    while i < regions.len()
        invariant
            1 <= i <= regions.len(),
            regions_wf(regions@),
            is_max_end(regions@.take(i as int), max as int),
        decreases regions.len() - i,
    {
        let end: u64 = regions[i].end_address();
        proof {
            let before = regions@.take(i as int);
            let after = regions@.take(i + 1);
            let k = choose|k: int| 0 <= k < before.len() && (#[trigger] before[k]).end() == max;
            assert(after[k] == before[k]);
            assert(after[i as int] == regions@[i as int]);
            assert forall|j: int| 0 <= j < after.len() implies (#[trigger] after[j]).end() <= (
            if end > max {
                end
            } else {
                max
            }) by {
                if j < i {
                    assert(after[j] == before[j]);
                }
            }
        }
        if end > max {
            max = end;
        }
        i += 1;
    }
    proof {
        assert(regions@.take(regions@.len() as int) =~= regions@);
    }
    max
}

/// The highest address that any region of the map reaches, or nothing where
/// the map is empty or a region ends outside the 64-bit address space.
pub fn checked_max_physical_address(regions: &[PhysicalRegion]) -> (max: Option<u64>)
    ensures
        max.is_some() <==> regions@.len() > 0 && regions_wf(regions@),
        max matches Some(m) ==> is_max_end(regions@, m as int),
{
    if regions.len() == 0 || !regions_valid(regions) {
        None
    } else {
        Some(max_physical_address(regions))
    }
}

/// A map has one highest address.
pub proof fn lemma_max_end_unique(regions: Seq<PhysicalRegion>, a: int, b: int)
    requires
        is_max_end(regions, a),
        is_max_end(regions, b),
    ensures
        a == b,
{
}

} // verus!
