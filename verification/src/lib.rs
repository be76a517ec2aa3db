//! Hardware abstraction layer core: an explicit model of one AArch64 core's
//! architectural state, the primitives that drive it, the capability binding
//! rules and the boot sequencing protocol, all stated as contracts.

pub mod regs;
pub mod cpu;
pub mod arch;
pub mod context;
pub mod trap;
pub mod dtables;
pub mod boot;
pub mod sequencer;
pub mod registry;
