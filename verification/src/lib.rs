//! A safe access layer over the C interface of MLIR and CIRCT.
//!
//! The layer wraps the raw handles of the C interface into values that say
//! who owns what: owned values, views that borrow, and uniqued values that
//! are copied freely. It never calls the C library itself. Every foreign call
//! is described as a [`foreign::Call`] and handed to a dispatcher that the
//! embedder supplies; what comes back is a [`foreign::Reply`].

pub mod attr;
pub mod attribute;
pub mod block;
pub mod build_common;
pub mod context;
pub mod cursor;
pub mod dialect;
pub mod fmt;
pub mod foreign;
pub mod hw;
pub mod identifier;
pub mod location;
pub mod module;
pub mod operation;
pub mod owned;
mod private;
pub mod raw;
pub mod region;
pub mod string_ref;
pub mod symbol_table;
pub mod ty;
pub mod value;

pub use attribute::{Attribute, NamedAttribute};
pub use block::{Block, BlockMut, BlockRef};
pub use context::{context, Context, SyncContext};
pub use cursor::BlockCursor;
pub use dialect::{Dialect, DialectHandle, DialectRegistry};
pub use fmt::{fmt_callback, FmtError, FmtUserdata};
pub use foreign::{Access, Call, Reply};
pub use identifier::Identifier;
pub use location::Location;
pub use module::Module;
pub use operation::{Operation, OperationMut, OperationRef, OperationState};
pub use region::{Region, RegionMut, RegionRef};
pub use string_ref::StringRef;
pub use symbol_table::SymbolTable;
pub use ty::{Type, TypeSubtype};
pub use value::Value;
