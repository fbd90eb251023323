pub mod cpu;
pub mod exception;
pub mod fpu;
pub mod gdt;
pub mod irq;
pub mod lapic;
pub mod paging;
pub mod percpu;
pub mod pic;
pub mod pit;
pub mod smp;
pub mod thread;
pub mod tss;
pub mod user;
