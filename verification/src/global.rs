//! What writing a global is allowed to do.

use vstd::prelude::*;

use crate::error::{message_error, Error};
use crate::val::ValType;

verus! {

/// `WASM_CONST` in `wasm_mutability_enum`.
pub const CONST: u8 = 0;

/// `WASM_VAR` in `wasm_mutability_enum`.
pub const VAR: u8 = 1;

/// The `wasm_mutability_t` a global is created with.
pub fn mutability_of(mutable: bool) -> (m: u8)
    ensures
        m == (if mutable { VAR } else { CONST }),
{
    if mutable {
        VAR
    } else {
        CONST
    }
}

/// Decides whether `value` may be written to a global whose type has
/// mutability `mutability` and value kind `global_kind`.
///
/// The C API rejects both failures silently, so they are caught here: an
/// immutable global refuses any write, checked first, and a mutable one
/// refuses a value of another type.
pub fn check_global_set(mutability: u8, global_kind: u8, value: ValType) -> (r: Result<(), Error>)
    ensures
        mutability != VAR ==> (r matches Err(e) && e.is_message(
            "cannot set the value of an immutable global"@,
        )),
        mutability == VAR && global_kind != value.spec_kind() ==> (r matches Err(e)
            && e.is_message("value type does not match the global's type"@)),
        r is Ok <==> (mutability == VAR && global_kind == value.spec_kind()),
{
    if mutability != VAR {
        return Err(message_error("cannot set the value of an immutable global"));
    }
    if global_kind != value.kind() {
        return Err(message_error("value type does not match the global's type"));
    }
    Ok(())
}

} // verus!
