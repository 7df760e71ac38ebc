//! The psABIs, as descriptions read by one classifier rather than as one function per ABI,
//! and the type layout half of each psABI.

pub mod shape;
pub mod layout;
pub mod describe;
pub mod abis;
pub mod classify;
pub mod records;
