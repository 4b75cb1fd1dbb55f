//! Items shared by more than one phase of the toolchain.

pub mod multiphase;
pub mod version;
