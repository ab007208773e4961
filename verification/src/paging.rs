//! The plan for the loader's identity mapping: which large frames of physical
//! memory are mapped to the virtual address equal to their own, and how.

use crate::frame_allocator::{frame_free, FrameAllocator};
use crate::frames::{
    frame_containing, frame_run, frame_start, frames_2mib_inclusive, present_writable_bits,
    FrameSize, PHYS_ADDR_LIMIT, SIZE_2MIB, SIZE_4KIB,
};
use vstd::prelude::*;

verus! {

/// The end of the memory that is identity-mapped before this stage runs: the
/// first gibibyte.
pub const PREMAPPED_END: u64 = 0x4000_0000;

/// The page-table flags of an identity mapping: present and writable.
pub const IDENTITY_MAP_FLAGS: u64 = 3;

/// How many large frames lie between the first gibibyte and `max_phys_addr`,
/// counting the one that `max_phys_addr` cuts.
pub open spec fn identity_frame_count(max_phys_addr: u64) -> nat {
    if max_phys_addr <= PREMAPPED_END {
        0
    } else {
        ((max_phys_addr - 1 - PREMAPPED_END) / (SIZE_2MIB as int) + 1) as nat
    }
}

/// The large frames that the loader maps onto themselves, in the order in
/// which it maps them: from the end of the first gibibyte upward, one after
/// the other, up to the frame that holds the last byte below `max_phys_addr`.
pub open spec fn identity_frames(max_phys_addr: u64) -> Seq<u64> {
    Seq::new(
        identity_frame_count(max_phys_addr),
        |i: int| (PREMAPPED_END + i * SIZE_2MIB) as u64,
    )
}

/// The place in the identity mapping of the frame in which `address` lies.
pub open spec fn identity_frame_index(address: u64) -> int {
    (address - PREMAPPED_END) / (SIZE_2MIB as int)
}

/// The flags with which each frame of the identity mapping is mapped.
pub fn identity_map_flags() -> (flags: u64)
    ensures
        flags == IDENTITY_MAP_FLAGS,
{
    present_writable_bits()
}

/// Whether `max_phys_addr` can be the upper end of an identity mapping: it is
/// not zero, and the large frame behind the one of its last byte still has a
/// physical address.
pub fn identity_map_possible(max_phys_addr: u64) -> (possible: bool)
    ensures
        possible == (1 <= max_phys_addr <= PHYS_ADDR_LIMIT - SIZE_2MIB),
{
    1 <= max_phys_addr && max_phys_addr <= PHYS_ADDR_LIMIT - SIZE_2MIB
}

/// The starts of the large frames to map onto themselves for a memory map
/// that reaches up to `max_phys_addr`.
pub fn identity_map_frames(max_phys_addr: u64) -> (frames: Vec<u64>)
    requires
        1 <= max_phys_addr <= PHYS_ADDR_LIMIT - SIZE_2MIB,
    ensures
        frames@ == identity_frames(max_phys_addr),
{
    let first: u64 = frame_containing(PREMAPPED_END, FrameSize::Size2MiB);
    let last: u64 = frame_containing(max_phys_addr - 1, FrameSize::Size2MiB);
    let frames = frames_2mib_inclusive(first, last);
    proof {
        assert(0x4000_0000u64 % 0x20_0000u64 == 0) by (bit_vector);
        assert(first == PREMAPPED_END);
        assert(frames@.len() == identity_frame_count(max_phys_addr));
        assert(frames@ =~= identity_frames(max_phys_addr));
    }
    frames
}

/// The level-4 frames of the two page-table hierarchies.
#[derive(Debug, Clone, Copy)]
pub struct PageTableFrames {
    /// The frame of the loader's level-4 table: the one that is active.
    pub loader_level_4_frame: u64,
    /// The frame of the kernel's level-4 table: a fresh one, to be zeroed.
    pub kernel_level_4_frame: u64,
}

/// Chooses the level-4 frames of the two hierarchies: the loader keeps the
/// table that is active, and the kernel gets the next unused small frame,
/// which the allocator must still have.
pub fn create_page_tables(active_level_4_frame: u64, frame_allocator: &mut FrameAllocator) -> (tables:
    PageTableFrames)
    requires
        old(frame_allocator).wf(),
        exists|g: int| #[trigger]
            frame_free(
                old(frame_allocator).regions@,
                old(frame_allocator).next_frame as int,
                SIZE_4KIB as int,
                g,
            ),
    ensures
        final(frame_allocator).wf(),
        tables.loader_level_4_frame == active_level_4_frame,
        old(frame_allocator).allocates(
            *final(frame_allocator),
            FrameSize::Size4KiB,
            Some(tables.kernel_level_4_frame),
        ),
{
    proof {
        let g = choose|g: int| #[trigger]
            frame_free(
                frame_allocator.regions@,
                frame_allocator.next_frame as int,
                SIZE_4KIB as int,
                g,
            );
        assert(frame_free(
            frame_allocator.regions@,
            frame_allocator.next_frame as int,
            FrameSize::Size4KiB.bytes() as int,
            g,
        ));
    }
    let frame = frame_allocator.allocate_frame();
    PageTableFrames {
        loader_level_4_frame: active_level_4_frame,
        kernel_level_4_frame: frame.unwrap(),
    }
}

/// Chooses the level-4 frames of the two hierarchies where the allocator has
/// a small frame left. Where it has none, nothing is chosen and the allocator
/// stays as it is.
pub fn try_create_page_tables(
    active_level_4_frame: u64,
    frame_allocator: &mut FrameAllocator,
) -> (tables: Option<PageTableFrames>)
    requires
        old(frame_allocator).wf(),
    ensures
        final(frame_allocator).wf(),
        tables.is_some() <==> exists|g: int| #[trigger]
            frame_free(
                old(frame_allocator).regions@,
                old(frame_allocator).next_frame as int,
                SIZE_4KIB as int,
                g,
            ),
        match tables {
            Some(t) => {
                &&& t.loader_level_4_frame == active_level_4_frame
                &&& old(frame_allocator).allocates(
                    *final(frame_allocator),
                    FrameSize::Size4KiB,
                    Some(t.kernel_level_4_frame),
                )
            },
            None => *final(frame_allocator) == *old(frame_allocator),
        },
{
    assert(FrameSize::Size4KiB.bytes() == SIZE_4KIB);
    if frame_allocator.has_free_frame(FrameSize::Size4KiB) {
        Some(create_page_tables(active_level_4_frame, frame_allocator))
    } else {
        None
    }
}

/// The identity mapping leaves no gap and maps nothing twice: it starts at
/// the end of the first gibibyte, each frame starts where the one before it
/// ends, and every address from there up to `max_phys_addr` lies in one of
/// its frames.
pub proof fn lemma_identity_frames_cover(max_phys_addr: u64)
    requires
        max_phys_addr <= PHYS_ADDR_LIMIT,
    ensures
        identity_frames(max_phys_addr).len() > 0 ==> identity_frames(max_phys_addr)[0]
            == PREMAPPED_END,
        forall|i: int|
            0 <= i < identity_frames(max_phys_addr).len() ==> (#[trigger] identity_frames(
                max_phys_addr,
            )[i]) % SIZE_2MIB == 0,
        forall|i: int|
            0 <= i < identity_frames(max_phys_addr).len() - 1 ==> identity_frames(
                max_phys_addr,
            )[i + 1] == (#[trigger] identity_frames(max_phys_addr)[i]) + SIZE_2MIB,
        forall|i: int, j: int|
            0 <= i < j < identity_frames(max_phys_addr).len() ==> identity_frames(
                max_phys_addr,
            )[i] < identity_frames(max_phys_addr)[j],
        forall|address: u64|
            PREMAPPED_END <= address < max_phys_addr ==> {
                let i = #[trigger] identity_frame_index(address);
                &&& 0 <= i < identity_frames(max_phys_addr).len()
                &&& identity_frames(max_phys_addr)[i] <= address < identity_frames(
                    max_phys_addr,
                )[i] + SIZE_2MIB
            },
        forall|i: int|
            0 <= i < identity_frames(max_phys_addr).len() ==> PREMAPPED_END <= (
            #[trigger] identity_frames(max_phys_addr)[i]) < max_phys_addr,
{
}

} // verus!
