//! A portable abstraction for reading a hardware cycle counter and
//! determining its tick frequency.
//!
//! The architecture-neutral contract is [`ArchFunctionality`]. The x86
//! implementation derives the counter frequency from processor
//! identification data and memoizes it in a process-wide cache slot;
//! the verified decision logic for that derivation lives here, while
//! the hardware reads themselves (the identification query and the
//! counter instruction) are supplied by the platform layer that
//! implements the trait.

pub mod arch;
pub mod frequency;
pub mod identification;

pub use arch::ArchFunctionality;
pub use arch::X64;
pub use frequency::FrequencyCache;
pub use identification::CounterSupportError;
pub use identification::CpuidRegisters;
