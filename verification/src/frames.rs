//! Physical frames: aligned blocks of physical memory, named by the address
//! at which they start. The arithmetic on them is that of the `x86_64` crate.

use vstd::prelude::*;
use x86_64::structures::paging::{PageTableFlags, PhysFrame, Size2MiB, Size4KiB};
use x86_64::PhysAddr;

verus! {

/// Physical addresses have 52 bits: this is the first number that is none.
pub const PHYS_ADDR_LIMIT: u64 = 0x10_0000_0000_0000;

/// The size of a small frame in bytes.
pub const SIZE_4KIB: u64 = 0x1000;

/// The size of a large frame in bytes.
pub const SIZE_2MIB: u64 = 0x20_0000;

/// The two sizes of frame that are handed out and mapped.
#[derive(Debug, Clone, Copy, PartialEq, Eq)]
pub enum FrameSize {
    Size4KiB,
    Size2MiB,
}

impl FrameSize {
    /// The size in bytes.
    pub open spec fn bytes(self) -> u64 {
        match self {
            FrameSize::Size4KiB => SIZE_4KIB,
            FrameSize::Size2MiB => SIZE_2MIB,
        }
    }

    /// The size in bytes.
    pub fn size(&self) -> (bytes: u64)
        ensures
            bytes == self.bytes(),
    {
        match self {
            FrameSize::Size4KiB => SIZE_4KIB,
            FrameSize::Size2MiB => SIZE_2MIB,
        }
    }
}

/// The start of the frame of `size` bytes in which `address` lies.
pub open spec fn frame_start(address: u64, size: u64) -> int {
    address - (address as int) % (size as int)
}

/// The starts of the frames of `size` bytes from the one at `first` up to and
/// including the one at `last`, in rising order; empty where `first` lies
/// behind `last`.
pub open spec fn frame_run(first: u64, last: u64, size: u64) -> Seq<u64> {
    if first > last {
        Seq::empty()
    } else {
        Seq::new(((last - first) / (size as int) + 1) as nat, |i: int| (first + i * size) as u64)
    }
}

/// `PhysFrame::<Size4KiB>::containing_address` of `x86_64`, on an address of
/// at most 52 bits: the address with its low 12 bits cleared.
#[verifier::external_body]
fn containing_4kib(address: u64) -> (start: u64)
    requires
        address < PHYS_ADDR_LIMIT,
    ensures
        start == frame_start(address, SIZE_4KIB),
{
    PhysFrame::<Size4KiB>::containing_address(PhysAddr::new(address)).start_address().as_u64()
}

/// `PhysFrame::<Size2MiB>::containing_address` of `x86_64`, on an address of
/// at most 52 bits: the address with its low 21 bits cleared.
#[verifier::external_body]
fn containing_2mib(address: u64) -> (start: u64)
    requires
        address < PHYS_ADDR_LIMIT,
    ensures
        start == frame_start(address, SIZE_2MIB),
{
    PhysFrame::<Size2MiB>::containing_address(PhysAddr::new(address)).start_address().as_u64()
}

/// `PhysFrame::range_inclusive` of `x86_64` on two large frames, walked to
/// its end: it yields the frame at `first`, then each following one, up to and
/// including the one at `last`. The frame behind `last` must still have a
/// physical address, since the walk steps onto it.
#[verifier::external_body]
pub(crate) fn frames_2mib_inclusive(first: u64, last: u64) -> (frames: Vec<u64>)
    requires
        first % SIZE_2MIB == 0,
        last % SIZE_2MIB == 0,
        first < PHYS_ADDR_LIMIT,
        last + SIZE_2MIB < PHYS_ADDR_LIMIT,
    ensures
        frames@ == frame_run(first, last, SIZE_2MIB),
{
    let start = PhysFrame::<Size2MiB>::containing_address(PhysAddr::new(first));
    let end = PhysFrame::<Size2MiB>::containing_address(PhysAddr::new(last));
    PhysFrame::range_inclusive(start, end).map(|frame| frame.start_address().as_u64()).collect()
}

/// The bits of `PageTableFlags::PRESENT | PageTableFlags::WRITABLE` of
/// `x86_64`: bits 0 and 1.
#[verifier::external_body]
pub(crate) fn present_writable_bits() -> (bits: u64)
    ensures
        bits == 3,
{
    (PageTableFlags::PRESENT | PageTableFlags::WRITABLE).bits()
}

/// The start of the frame of the given size in which `address` lies.
pub fn frame_containing(address: u64, size: FrameSize) -> (start: u64)
    requires
        address < PHYS_ADDR_LIMIT,
    ensures
        start == frame_start(address, size.bytes()),
        start % size.bytes() == 0,
        start <= address < start + size.bytes(),
{
    match size {
        FrameSize::Size4KiB => containing_4kib(address),
        FrameSize::Size2MiB => containing_2mib(address),
    }
}

} // verus!
