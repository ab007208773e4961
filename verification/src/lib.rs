//! Address-space and processor-state bootstrap for a BIOS boot stage: the
//! firmware memory map and the frame allocator it seeds, the plan for the
//! loader's identity mapping, the segment descriptor table with its task-state
//! segment, and the discovery of the ACPI root pointer.

pub mod bits;
pub mod gdt;
pub mod memory_map;
pub mod frames;
pub mod paging;
pub mod frame_allocator;
pub mod acpi;
pub mod config;
pub mod system_info;
pub mod boot;
