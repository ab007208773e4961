//! The frame allocator: it hands out unused physical frames from the usable
//! regions of the memory map, each one higher than the last, and never one
//! that touches the kernel image.

use crate::frames::{frame_containing, frame_start, FrameSize, PHYS_ADDR_LIMIT, SIZE_4KIB};
use crate::memory_map::{regions_valid, regions_wf, PhysicalRegion};
use vstd::prelude::*;

verus! {

/// `frame` is a multiple of `size`.
pub open spec fn is_aligned(frame: int, size: int) -> bool {
    frame % size == 0
}

/// The frame of `size` bytes at `frame` is aligned, lies at or behind the
/// cursor, has a physical address in all its bytes, and lies within `region`,
/// which is usable.
pub open spec fn region_offers(region: PhysicalRegion, cursor: int, size: int, frame: int) -> bool {
    &&& is_aligned(frame, size)
    &&& cursor <= frame
    &&& frame + size <= PHYS_ADDR_LIMIT
    &&& region.kind is Usable
    &&& region.start <= frame
    &&& frame + size <= region.end()
}

/// The frame of `size` bytes at `frame` can be handed out: some region of the
/// map offers it.
pub open spec fn frame_free(
    regions: Seq<PhysicalRegion>,
    cursor: int,
    size: int,
    frame: int,
) -> bool {
    exists|i: int| 0 <= i < regions.len() && region_offers(#[trigger] regions[i], cursor, size, frame)
}

/// The two ranges `[a_start, a_end)` and `[b_start, b_end)` share an address.
pub open spec fn ranges_intersect(a_start: int, a_end: int, b_start: int, b_end: int) -> bool {
    a_start < b_end && b_start < a_end && a_start < a_end && b_start < b_end
}

/// The start of the first small frame behind the one that holds the last byte
/// of a kernel image of `kernel_size` bytes at `kernel_start`.
pub open spec fn first_frame_after(kernel_start: u64, kernel_size: u64) -> int {
    frame_start((kernel_start + kernel_size - 1) as u64, SIZE_4KIB) + SIZE_4KIB
}

/// The allocator's state: the memory map, the cursor below which nothing is
/// handed out any more, and the range of the kernel image.
#[derive(Debug, Clone)]
pub struct FrameAllocator {
    pub regions: Vec<PhysicalRegion>,
    pub next_frame: u64,
    pub reserved_start: u64,
    pub reserved_end: u64,
}

/// The lowest aligned frame of `size` bytes that starts at or behind `low` and
/// ends at or before `high`, if there is one.
fn lowest_frame_between(low: u64, high: u64, size: FrameSize) -> (frame: Option<u64>)
    requires
        high <= PHYS_ADDR_LIMIT,
    ensures
        match frame {
            Some(f) => {
                &&& is_aligned(f as int, size.bytes() as int)
                &&& low <= f
                &&& f + size.bytes() <= high
                &&& forall|g: int| #[trigger]
                    is_aligned(g, size.bytes() as int) && low <= g ==> f <= g
            },
            None => forall|g: int| #[trigger]
                is_aligned(g, size.bytes() as int) && low <= g ==> g + size.bytes() > high,
        },
{
    let bytes: u64 = size.size();
    if low >= high {
        return None;
    }
    let rest: u64 = low % bytes;
    let first: u64 = if rest == 0 {
        low
    } else {
        low - rest + bytes
    };
    assert forall|g: int| #[trigger] is_aligned(g, bytes as int) && low <= g implies first <= g by {
        if rest != 0 {
            assert(g % (bytes as int) == 0);
            assert((low - rest) % (bytes as int) == 0);
            if g < first {
                assert(low - rest < g < low - rest + bytes);
                assert(false);
            }
        }
    }
    if first <= high && high - first >= bytes {
        Some(first)
    } else {
        None
    }
}

impl FrameAllocator {
    /// The map is well-formed, and the cursor lies behind the kernel image and
    /// not behind the last physical address.
    pub open spec fn wf(self) -> bool {
        &&& regions_wf(self.regions@)
        &&& self.reserved_start <= self.reserved_end <= self.next_frame <= PHYS_ADDR_LIMIT
    }

    /// Whether the allocator is in order.
    pub fn is_valid(&self) -> (valid: bool)
        ensures
            valid == self.wf(),
    {
        regions_valid(self.regions.as_slice()) && self.reserved_start <= self.reserved_end
            && self.reserved_end <= self.next_frame && self.next_frame <= PHYS_ADDR_LIMIT
    }

    /// An allocator over `regions` that hands out nothing below `next_frame`.
    pub fn new_starting_at(next_frame: u64, regions: Vec<PhysicalRegion>) -> (allocator:
        FrameAllocator)
        requires
            next_frame <= PHYS_ADDR_LIMIT,
            regions_wf(regions@),
        ensures
            allocator.wf(),
            allocator.regions@ == regions@,
            allocator.next_frame == next_frame,
            allocator.reserved_start == allocator.reserved_end,
    {
        FrameAllocator { regions, next_frame, reserved_start: 0, reserved_end: 0 }
    }

    /// Whether a kernel image of `kernel_size` bytes at `kernel_start` has a
    /// last byte, and that byte a physical address.
    pub fn kernel_image_valid(kernel_start: u64, kernel_size: u64) -> (valid: bool)
        ensures
            valid == (1 <= kernel_start + kernel_size <= PHYS_ADDR_LIMIT),
    {
        kernel_start <= PHYS_ADDR_LIMIT && kernel_size <= PHYS_ADDR_LIMIT - kernel_start && (
        kernel_start >= 1 || kernel_size >= 1)
    }

    /// An allocator over `regions` whose cursor is the first small frame
    /// behind the one that holds the last byte of the kernel image.
    pub fn after_kernel(kernel_start: u64, kernel_size: u64, regions: Vec<PhysicalRegion>) -> (allocator:
        FrameAllocator)
        requires
            1 <= kernel_start + kernel_size <= PHYS_ADDR_LIMIT,
            regions_wf(regions@),
        ensures
            allocator.wf(),
            allocator.regions@ == regions@,
            allocator.next_frame == first_frame_after(kernel_start, kernel_size),
            allocator.reserved_start == kernel_start,
            allocator.reserved_end == kernel_start + kernel_size,
    {
        let last_byte: u64 = kernel_start + kernel_size - 1;
        let kernel_end: u64 = frame_containing(last_byte, FrameSize::Size4KiB);
        assert(kernel_end % SIZE_4KIB == 0 && PHYS_ADDR_LIMIT % SIZE_4KIB == 0);
        let next_frame: u64 = kernel_end + SIZE_4KIB;
        FrameAllocator {
            regions,
            next_frame,
            reserved_start: kernel_start,
            reserved_end: kernel_start + kernel_size,
        }
    }

    /// What a call for a frame of the given size does to an allocator `self`,
    /// leaving it as `after`. Where a frame is free it hands out the lowest
    /// one, which does not touch the kernel image, and moves the cursor behind
    /// it; where none is free it hands out nothing and keeps the cursor. The
    /// map and the range of the kernel image stay.
    pub open spec fn allocates(self, after: FrameAllocator, size: FrameSize, frame: Option<u64>) -> bool {
        &&& after.regions@ == self.regions@
        &&& after.reserved_start == self.reserved_start
        &&& after.reserved_end == self.reserved_end
        &&& match frame {
            Some(f) => {
                &&& frame_free(self.regions@, self.next_frame as int, size.bytes() as int, f as int)
                &&& forall|g: int| #[trigger]
                    frame_free(self.regions@, self.next_frame as int, size.bytes() as int, g) ==> f
                        <= g
                &&& after.next_frame == f + size.bytes()
                &&& !ranges_intersect(
                    f as int,
                    f + size.bytes(),
                    self.reserved_start as int,
                    self.reserved_end as int,
                )
            },
            None => {
                &&& forall|g: int|
                    !#[trigger] frame_free(
                        self.regions@,
                        self.next_frame as int,
                        size.bytes() as int,
                        g,
                    )
                &&& after.next_frame == self.next_frame
            },
        }
    }

    /// The lowest free frame of the given size at or behind the cursor, if
    /// there is one. The allocator stays as it is.
    pub fn lowest_free_frame(&self, size: FrameSize) -> (frame: Option<u64>)
        requires
            self.wf(),
        ensures
            match frame {
                Some(f) => {
                    &&& frame_free(
                        self.regions@,
                        self.next_frame as int,
                        size.bytes() as int,
                        f as int,
                    )
                    &&& forall|g: int| #[trigger]
                        frame_free(self.regions@, self.next_frame as int, size.bytes() as int, g)
                            ==> f <= g
                },
                None => forall|g: int|
                    !#[trigger] frame_free(
                        self.regions@,
                        self.next_frame as int,
                        size.bytes() as int,
                        g,
                    ),
            },
    {
        let bytes: u64 = size.size();
        let cursor: u64 = self.next_frame;
        let mut best: Option<u64> = None;
        let mut i: usize = 0;
        while i < self.regions.len()
            invariant
                i <= self.regions.len(),
                self.wf(),
                bytes == size.bytes(),
                cursor == self.next_frame,
                best matches Some(b) ==> frame_free(
                    self.regions@,
                    cursor as int,
                    bytes as int,
                    b as int,
                ),
                forall|g: int, j: int|
                    0 <= j < i && #[trigger] region_offers(
                        self.regions@[j],
                        cursor as int,
                        bytes as int,
                        g,
                    ) ==> best.is_some() && best.unwrap() <= g,
            decreases self.regions.len() - i,
        {
            let region: PhysicalRegion = self.regions[i];
            if region.is_usable() {
                let end: u64 = region.end_address();
                let low: u64 = if region.start > cursor {
                    region.start
                } else {
                    cursor
                };
                let high: u64 = if end < PHYS_ADDR_LIMIT {
                    end
                } else {
                    PHYS_ADDR_LIMIT
                };
                match lowest_frame_between(low, high, size) {
                    Some(f) => {
                        assert(region_offers(
                            self.regions@[i as int],
                            cursor as int,
                            bytes as int,
                            f as int,
                        ));
                        let better: bool = match best {
                            Some(b) => f < b,
                            None => true,
                        };
                        if better {
                            best = Some(f);
                        }
                    },
                    None => {},
                }
            }
            i += 1;
        }
        best
    }

    /// Whether a frame of the given size is left to hand out.
    pub fn has_free_frame(&self, size: FrameSize) -> (free: bool)
        requires
            self.wf(),
        ensures
            free == exists|g: int| #[trigger]
                frame_free(self.regions@, self.next_frame as int, size.bytes() as int, g),
    {
        self.lowest_free_frame(size).is_some()
    }

    /// Hands out the lowest free frame of the given size at or behind the
    /// cursor and moves the cursor behind it, or hands out nothing and stays
    /// as it is where no such frame is left.
    pub fn allocate(&mut self, size: FrameSize) -> (frame: Option<u64>)
        requires
            old(self).wf(),
        ensures
            final(self).wf(),
            old(self).allocates(*final(self), size, frame),
    {
        let bytes: u64 = size.size();
        let frame = self.lowest_free_frame(size);
        match frame {
            Some(f) => {
                self.next_frame = f + bytes;
            },
            None => {},
        }
        frame
    }

    /// Hands out the lowest free small frame at or behind the cursor.
    pub fn allocate_frame(&mut self) -> (frame: Option<u64>)
        requires
            old(self).wf(),
        ensures
            final(self).wf(),
            old(self).allocates(*final(self), FrameSize::Size4KiB, frame),
    {
        self.allocate(FrameSize::Size4KiB)
    }
}

/// No frame that can be handed out touches a kernel image behind which the
/// cursor stands.
pub proof fn lemma_free_frames_miss_kernel(
    regions: Seq<PhysicalRegion>,
    kernel_start: u64,
    kernel_size: u64,
    cursor: int,
    size: FrameSize,
    frame: int,
)
    requires
        1 <= kernel_start + kernel_size <= PHYS_ADDR_LIMIT,
        first_frame_after(kernel_start, kernel_size) <= cursor,
        frame_free(regions, cursor, size.bytes() as int, frame),
    ensures
        !ranges_intersect(
            frame,
            frame + size.bytes(),
            kernel_start as int,
            kernel_start + kernel_size,
        ),
{
}

/// A frame that is free behind a later cursor was free behind an earlier one:
/// as the cursor rises, nothing becomes free again.
pub proof fn lemma_free_frames_shrink(
    regions: Seq<PhysicalRegion>,
    earlier: int,
    later: int,
    size: int,
    frame: int,
)
    requires
        earlier <= later,
        frame_free(regions, later, size, frame),
    ensures
        frame_free(regions, earlier, size, frame),
{
    let i = choose|i: int|
        0 <= i < regions.len() && region_offers(#[trigger] regions[i], later, size, frame);
    assert(region_offers(regions[i], earlier, size, frame));
}

} // verus!
