//! The options with which a kernel configures how it is loaded.

use vstd::prelude::*;

verus! {

/// Allows configuring the bootloader behavior.
///
/// Memory addresses must be page aligned. All memory addresses are optional,
/// even if their corresponding switch is enabled: where no address is given, an
/// unused entry of the level 4 page table is chosen at runtime.
#[derive(Debug)]
pub struct Config {
    /// Whether to create a virtual mapping of the complete physical memory.
    ///
    /// Defaults to `false`.
    pub map_physical_memory: bool,
    /// Map the physical memory at a specified virtual address.
    ///
    /// If not given, a free virtual address is searched for dynamically.
    ///
    /// Only considered if `map_physical_memory` is `true`.
    pub physical_memory_offset: Option<u64>,
    /// Whether to create a recursive entry in the level 4 page table.
    ///
    /// Defaults to `false`.
    pub map_page_table_recursively: bool,
    /// Create the recursive mapping in at the given entry of the level 4 page
    /// table.
    ///
    /// If not given, a free level 4 entry is searched for dynamically.
    ///
    /// Only considered if `map_page_table_recursively` is `true`.
    pub recursive_index: Option<u16>,
    /// Use the given stack size for the kernel.
    ///
    /// Defaults to at least 80KiB if not given.
    pub kernel_stack_size: Option<u64>,
    /// Create the kernel stack at the given virtual address.
    ///
    /// Looks for a free virtual memory region dynamically if not given.
    pub kernel_stack_address: Option<u64>,
    /// Create the boot information at the given virtual address.
    ///
    /// Looks for a free virtual memory region dynamically if not given.
    pub boot_info_address: Option<u64>,
    /// Whether to map the framebuffer to virtual memory.
    ///
    /// Defaults to `true`.
    pub map_framebuffer: bool,
    /// Map the framebuffer memory at the specified virtual address.
    ///
    /// If not given, a free virtual memory region is searched for dynamically.
    ///
    /// Only considered if `map_framebuffer` is `true`.
    pub framebuffer_address: Option<u64>,
    /// Desired minimum height of the framebuffer mode.
    ///
    /// Defaults to using the default mode if neither
    /// `minimum_framebuffer_height` nor `minimum_framebuffer_width` is
    /// supplied, and using the last available mode that fits them if one or
    /// both are set.
    pub minimum_framebuffer_height: Option<usize>,
    /// Desired minimum width of the framebuffer mode.
    ///
    /// Defaults to using the default mode if neither
    /// `minimum_framebuffer_height` nor `minimum_framebuffer_width` is
    /// supplied, and using the last available mode that fits them if one or
    /// both are set.
    pub minimum_framebuffer_width: Option<usize>,
    /// Modules to be linked to the image and loaded with the kernel.
    pub modules: &'static [ModuleEntry],
}

/// Describes a module to be used by the kernel.
#[derive(Debug)]
pub struct ModuleEntry {
    /// Name the module will use at runtime: ASCII, at most 32 bytes.
    pub name: [u8; 32],
    /// Path to the module file relative to the kernel's package directory.
    pub path: &'static str,
}

} // verus!
