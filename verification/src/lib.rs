//! Typed access to hardware registers that are divided into bit fields,
//! independent of the mechanism by which a register is reached.

pub mod bits;
pub mod capability;
pub mod cpu;
pub mod int_like;
pub mod laws;
pub mod regs;

pub use capability::{RegisterRead, RegisterReadWrite, RegisterWrite};
