//! What the loader tells the kernel about the machine: the framebuffer and
//! the ACPI root pointer.

use vstd::prelude::*;

verus! {

/// The physical address of the framebuffer.
pub const FRAMEBUFFER_ADDR: u64 = 0xfd00_0000;

/// The number of pixels in a row of the framebuffer.
pub const FRAMEBUFFER_WIDTH: usize = 1024;

/// The number of rows of the framebuffer.
pub const FRAMEBUFFER_HEIGHT: usize = 768;

/// The number of bytes of one pixel.
pub const FRAMEBUFFER_BYTES_PER_PIXEL: usize = 3;

/// The size of the framebuffer in bytes: width by height by bytes per pixel.
pub const FRAMEBUFFER_SIZE: usize = 2_359_296;

/// The byte with which the framebuffer is filled at start.
pub const FRAMEBUFFER_FILL: u8 = 0x4;

/// The order of the colour channels in a pixel.
#[derive(Debug, Clone, Copy, PartialEq, Eq)]
pub enum PixelFormat {
    /// One byte red, then one byte green, then one byte blue.
    RGB,
    /// One byte blue, then one byte green, then one byte red.
    BGR,
    /// A single byte of grey.
    U8,
}

/// The layout of the framebuffer.
#[derive(Debug, Clone, Copy)]
pub struct FrameBufferInfo {
    /// The size of the framebuffer in bytes.
    pub byte_len: usize,
    /// The width in pixels.
    pub horizontal_resolution: usize,
    /// The height in pixels.
    pub vertical_resolution: usize,
    /// The order of the colour channels.
    pub pixel_format: PixelFormat,
    /// The number of bytes of one pixel.
    pub bytes_per_pixel: usize,
    /// The number of pixels between the start of a row and the start of the
    /// next.
    pub stride: usize,
}

/// What the kernel is told about the machine.
#[derive(Debug, Clone, Copy)]
pub struct SystemInfo {
    /// The physical address of the framebuffer.
    pub framebuffer_addr: u64,
    /// The layout of the framebuffer.
    pub framebuffer_info: FrameBufferInfo,
    /// The physical address of the ACPI root pointer, if one was found.
    pub rsdp_addr: Option<u64>,
}

/// The layout of a framebuffer of `byte_len` bytes in the one video mode of
/// this boot stage: 1024 by 768 pixels of three bytes, red first, the rows one
/// behind the other.
pub open spec fn boot_framebuffer_info(byte_len: usize) -> FrameBufferInfo {
    FrameBufferInfo {
        byte_len,
        horizontal_resolution: FRAMEBUFFER_WIDTH,
        vertical_resolution: FRAMEBUFFER_HEIGHT,
        pixel_format: PixelFormat::RGB,
        bytes_per_pixel: FRAMEBUFFER_BYTES_PER_PIXEL,
        stride: FRAMEBUFFER_WIDTH,
    }
}

/// Fills the framebuffer with `FRAMEBUFFER_FILL` and describes its layout.
pub fn init_framebuffer(framebuffer: &mut [u8]) -> (info: FrameBufferInfo)
    ensures
        final(framebuffer)@.len() == old(framebuffer)@.len(),
        forall|i: int| 0 <= i < final(framebuffer)@.len() ==> final(framebuffer)@[i] == FRAMEBUFFER_FILL,
        info == boot_framebuffer_info(old(framebuffer)@.len() as usize),
{
    let len: usize = framebuffer.len();
    let mut i: usize = 0;
    while i < len
        invariant
            i <= len,
            framebuffer@.len() == len,
            forall|j: int| 0 <= j < i ==> framebuffer@[j] == FRAMEBUFFER_FILL,
        decreases len - i,
    {
        framebuffer[i] = FRAMEBUFFER_FILL;
        i += 1;
    }
    FrameBufferInfo {
        byte_len: len,
        horizontal_resolution: FRAMEBUFFER_WIDTH,
        vertical_resolution: FRAMEBUFFER_HEIGHT,
        pixel_format: PixelFormat::RGB,
        bytes_per_pixel: FRAMEBUFFER_BYTES_PER_PIXEL,
        stride: FRAMEBUFFER_WIDTH,
    }
}

/// Puts together what the kernel is told about the machine.
pub fn system_info(
    framebuffer_addr: u64,
    framebuffer_info: FrameBufferInfo,
    rsdp_addr: Option<u64>,
) -> (info: SystemInfo)
    ensures
        info.framebuffer_addr == framebuffer_addr,
        info.framebuffer_info == framebuffer_info,
        info.rsdp_addr == rsdp_addr,
{
    SystemInfo { framebuffer_addr, framebuffer_info, rsdp_addr }
}

} // verus!
