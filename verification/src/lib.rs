//! Safe bindings to the zwasm WebAssembly runtime, as far as they decide:
//! how raw codes from the C side map to kinds, what every error says, which
//! calls are refused before they reach zwasm, and what a store owns.
//!
//! The C calls themselves, and the handles they return, are the embedding's
//! business; every decision taken around them is here, stated and proved.

pub mod engine;
pub mod error;
pub mod func;
pub mod global;
pub mod instance;
pub mod memory;
pub mod module;
pub mod store;
pub mod text;
pub mod val;
pub mod wasi;

pub use crate::error::{Error, TrapKind};
pub use crate::instance::EngineKind;
pub use crate::module::{ExternKind, ImportType};
pub use crate::store::Registry;
pub use crate::val::ValType;
