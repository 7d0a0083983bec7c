//! A verified memory bus and peripheral controller for an 8-bit virtual
//! machine: boot memory, banked RAM, two disc devices, and an ACIA-style
//! serial controller with status, command and control registers.

pub mod ext;
pub mod laws;
pub mod machine;
pub mod model;

pub use machine::BootImageError;
pub use machine::MemoryMap;
pub use model::MachineView;
