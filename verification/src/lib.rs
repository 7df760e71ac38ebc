//! The target model of a C cross compiler and the psABIs it classifies against.
//!
//! A target is the set of facts that change the bytes the compiler emits: the architecture,
//! its baseline, the byte order, the data model, the OS and its version, the environment and
//! its version, the float ABI and the object format. A tuple is read from any spelling anyone
//! else writes and written back in one canonical spelling, which is what makes it a cache key.
//!
//! The psABI half describes an ABI as data (register banks and ordered rule lists) and lays out
//! types the way a target's headers were written against.

pub mod abi;
pub mod arch;
pub mod error;
pub mod os;
pub mod parse;
pub mod psabi;
pub mod spelling;
pub mod style;
pub mod table;
pub mod text;
pub mod tuple;

pub use abi::{Abi, ObjectFormat};
pub use arch::{Arch, DataModel, Endian, SubArch};
pub use error::Error;
pub use os::{Env, Os, Version};
pub use psabi::abis;
pub use psabi::classify::Call;
pub use psabi::describe::{
    AbiDescription, Banks, ReturnPointer, Rule, Scalars, Short, StackArgs, Test, Travel, Variadic,
};
pub use psabi::layout::{BitfieldOrder, DataLayout, FloatType};
pub use psabi::records::{pieces, record};
pub use psabi::shape::{Arg, Format, Kind, Pass, Piece, Scalar, Shape, Slot};
pub use table::{
    counts_by_planned_tier, lookup, planned_working_count, targets, Host, TargetEntry, Tier,
};
pub use tuple::{TargetTuple, TupleBuilder};
