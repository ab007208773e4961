//! The first decisions of the boot stage, taken from the boot parameters
//! before anything is mapped: how far physical memory reaches, where the
//! allocator starts, and which frames the loader maps onto themselves.

use crate::frame_allocator::{first_frame_after, FrameAllocator};
use crate::frames::{PHYS_ADDR_LIMIT, SIZE_2MIB};
use crate::memory_map::{
    checked_max_physical_address, is_max_end, max_physical_address, regions_wf, PhysicalRegion,
};
use crate::paging::{
    identity_frames, identity_map_flags, identity_map_frames, identity_map_possible,
    IDENTITY_MAP_FLAGS,
};
use vstd::prelude::*;

verus! {

/// The physical address at which the kernel image is loaded.
pub const KERNEL_START: u64 = 0x40_0000;

/// What the earlier stages hand over: where the kernel image lies and what
/// the firmware says of physical memory.
#[derive(Debug, Clone)]
pub struct BootParameters {
    pub kernel_start: u64,
    pub kernel_size: u64,
    pub regions: Vec<PhysicalRegion>,
}

/// What is settled before the first mapping is made.
#[derive(Debug, Clone)]
pub struct BootPlan {
    /// The highest address that any region of the memory map reaches.
    pub max_phys_addr: u64,
    /// The allocator, with its cursor behind the kernel image.
    pub frame_allocator: FrameAllocator,
    /// The large frames to map onto themselves, in order.
    pub identity_frames: Vec<u64>,
    /// The flags of each of these mappings.
    pub identity_flags: u64,
}

impl BootParameters {
    /// The parameters with which the boot stage can run: the memory map is
    /// not empty, its regions end where a large frame can still follow, one of
    /// them ends above address zero, and the kernel image has a last byte with
    /// a physical address.
    pub open spec fn wf(self) -> bool {
        &&& self.regions@.len() > 0
        &&& forall|i: int|
            0 <= i < self.regions@.len() ==> (#[trigger] self.regions@[i]).end() <= PHYS_ADDR_LIMIT
                - SIZE_2MIB
        &&& exists|i: int| 0 <= i < self.regions@.len() && (#[trigger] self.regions@[i]).end() >= 1
        &&& 1 <= self.kernel_start + self.kernel_size <= PHYS_ADDR_LIMIT
    }

    /// Whether the boot stage can run with these parameters.
    pub fn is_valid(&self) -> (valid: bool)
        ensures
            valid == self.wf(),
    {
        if !FrameAllocator::kernel_image_valid(self.kernel_start, self.kernel_size) {
            return false;
        }
        match checked_max_physical_address(self.regions.as_slice()) {
            Some(max) => {
                proof {
                    let k = choose|k: int|
                        0 <= k < self.regions@.len() && (#[trigger] self.regions@[k]).end() == max;
                    if self.wf() {
                        let j = choose|j: int|
                            0 <= j < self.regions@.len() && (#[trigger] self.regions@[j]).end()
                                >= 1;
                        assert(self.regions@[j].end() <= max);
                    }
                }
                identity_map_possible(max)
            },
            None => {
                proof {
                    if self.regions@.len() > 0 {
                        let i = choose|i: int|
                            0 <= i < self.regions@.len() && !(#[trigger] self.regions@[i]).wf();
                    }
                }
                false
            },
        }
    }

    /// Settles what comes before the first mapping: the highest physical
    /// address, the allocator behind the kernel image, and the frames of the
    /// identity mapping with their flags.
    pub fn plan(self) -> (plan: BootPlan)
        requires
            self.wf(),
        ensures
            is_max_end(self.regions@, plan.max_phys_addr as int),
            plan.frame_allocator.wf(),
            plan.frame_allocator.regions@ == self.regions@,
            plan.frame_allocator.next_frame == first_frame_after(
                self.kernel_start,
                self.kernel_size,
            ),
            plan.frame_allocator.reserved_start == self.kernel_start,
            plan.frame_allocator.reserved_end == self.kernel_start + self.kernel_size,
            plan.identity_frames@ == identity_frames(plan.max_phys_addr),
            plan.identity_flags == IDENTITY_MAP_FLAGS,
    {
        let max_phys_addr: u64 = max_physical_address(self.regions.as_slice());
        proof {
            let j = choose|j: int|
                0 <= j < self.regions@.len() && (#[trigger] self.regions@[j]).end() >= 1;
            assert(self.regions@[j].end() <= max_phys_addr);
            let k = choose|k: int|
                0 <= k < self.regions@.len() && (#[trigger] self.regions@[k]).end()
                    == max_phys_addr;
        }
        let frame_allocator = FrameAllocator::after_kernel(
            self.kernel_start,
            self.kernel_size,
            self.regions,
        );
        let identity_frames = identity_map_frames(max_phys_addr);
        BootPlan {
            max_phys_addr,
            frame_allocator,
            identity_frames,
            identity_flags: identity_map_flags(),
        }
    }
}

} // verus!
