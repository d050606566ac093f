//! Value types.

use vstd::prelude::*;

verus! {

/// A value type, for declaring a host function's signature.
///
/// The four numeric types of WebAssembly. Each has the number the wasm-c-api
/// gives it in `wasm_valkind_enum`.
#[non_exhaustive]
#[derive(Debug, Clone, Copy, PartialEq, Eq, Structural)]
pub enum ValType {
    /// A 32 bit integer.
    I32,
    /// A 64 bit integer.
    I64,
    /// A 32 bit float.
    F32,
    /// A 64 bit float.
    F64,
}

/// `WASM_I32` in `wasm_valkind_enum`.
pub const KIND_I32: u8 = 0;

/// `WASM_I64` in `wasm_valkind_enum`.
pub const KIND_I64: u8 = 1;

/// `WASM_F32` in `wasm_valkind_enum`.
pub const KIND_F32: u8 = 2;

/// `WASM_F64` in `wasm_valkind_enum`.
pub const KIND_F64: u8 = 3;

impl ValType {
    /// The `wasm_valkind_t` of this type.
    pub open spec fn spec_kind(self) -> u8 {
        match self {
            ValType::I32 => KIND_I32,
            ValType::I64 => KIND_I64,
            ValType::F32 => KIND_F32,
            ValType::F64 => KIND_F64,
        }
    }

    /// The `wasm_valkind_t` of this type, as the C API takes it.
    #[verifier::when_used_as_spec(spec_kind)]
    pub fn kind(self) -> (k: u8)
        ensures
            k == self.spec_kind(),
    {
        match self {
            ValType::I32 => KIND_I32,
            ValType::I64 => KIND_I64,
            ValType::F32 => KIND_F32,
            ValType::F64 => KIND_F64,
        }
    }

    /// The type a `wasm_valkind_t` names, or `None` for a kind that is not one
    /// of the four numeric types (a reference kind, say).
    pub fn from_kind(kind: u8) -> (t: Option<ValType>)
        ensures
            match t {
                Some(ty) => ty.spec_kind() == kind,
                None => kind > KIND_F64,
            },
    {
        if kind == KIND_I32 {
            Some(ValType::I32)
        } else if kind == KIND_I64 {
            Some(ValType::I64)
        } else if kind == KIND_F32 {
            Some(ValType::F32)
        } else if kind == KIND_F64 {
            Some(ValType::F64)
        } else {
            None
        }
    }
}

/// Distinct types have distinct kinds, so comparing kinds compares types.
pub proof fn lemma_kinds_tell_types_apart(a: ValType, b: ValType)
    ensures
        a.spec_kind() == b.spec_kind() <==> a == b,
{
}

} // verus!
