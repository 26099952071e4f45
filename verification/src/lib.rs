//! Segmentation and trap-boundary tables of a 64-bit kernel: privilege levels,
//! segment selectors, segment descriptors, the task state segment, the global
//! descriptor table and the interrupt descriptor table, each with the exact bit
//! layout the processor reads.
pub mod privileges;
pub mod bits;
pub mod memory;
pub mod registers;
pub mod segmentation;
pub mod table;
pub mod gdt;
pub mod paging;
pub mod idt;
pub mod init;
pub mod console;
