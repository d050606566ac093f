//! What the engine's event hooks are handed.

use vstd::prelude::*;

use crate::error::{is_trap_error, trap_kind_from_code, Error, TrapKind, WASI_EXIT_CODE};
use crate::text::{lossy_utf8, utf8_lossy};

verus! {

/// The instance an event names: the C ABI reserves id 0 for an event that
/// belongs to no instance.
pub open spec fn instance_of(raw: u64) -> Option<u64> {
    if raw == 0 {
        None
    } else {
        Some(raw)
    }
}

/// Maps the C ABI's "no instance" id onto `None`, so that 0 never reaches a
/// hook as a plausible instance.
pub fn instance_id(raw: u64) -> (id: Option<u64>)
    ensures
        id == instance_of(raw),
        raw == 0 ==> id is None,
        raw != 0 ==> id == Some(raw),
{
    if raw != 0 {
        Some(raw)
    } else {
        None
    }
}

/// Only the reserved id 0 means "no instance": every other raw id names
/// itself, so distinct instances stay distinct and none is ever lost.
pub proof fn lemma_only_zero_is_no_instance(a: u64, b: u64)
    ensures
        instance_of(a) is None <==> a == 0,
        a != 0 ==> instance_of(a) == Some(a),
        a != 0 && b != 0 && a != b ==> instance_of(a) != instance_of(b),
{
}

/// A trap as the trap hook is handed it.
pub struct TrapEvent {
    /// The instance that trapped, if any.
    pub instance: Option<u64>,
    /// What the trap was.
    pub kind: TrapKind,
    /// The trap's message.
    pub message: String,
}

/// Decodes a trap event: the instance by [`instance_id`], the kind by
/// [`TrapKind`]'s conversion, and the message, which the C side passes as a
/// borrowed (pointer, length) pair with no terminator, decoded lossily.
///
/// `message` is empty when the C side gave a null pointer or a zero length.
pub fn trap_event(raw_instance_id: u64, trap_kind: i32, message: &[u8]) -> (ev: TrapEvent)
    ensures
        ev.instance == instance_of(raw_instance_id),
        ev.kind == trap_kind_from_code(trap_kind),
        ev.message@ == lossy_utf8(message@),
{
    TrapEvent {
        instance: instance_id(raw_instance_id),
        kind: TrapKind::from(trap_kind),
        message: utf8_lossy(message),
    }
}

/// The trap hook and the error agree: for one trap, the kind the hook is
/// handed is the kind [`Error::trap_kind`] carries, and, unless the trap is a
/// WASI exit with a status, the hook's message is the error's text.
///
/// The two ends see the message differently: `wasm_trap_message` may count a
/// NUL terminator that the hook's string never has, so the error's bytes are
/// the hook's with a terminator appended, or the same bytes when they do not
/// already end in one.
pub proof fn lemma_trap_hook_agrees_with_error(
    e: Error,
    ev: TrapEvent,
    kind: i32,
    exit_status: Option<u32>,
    hook_bytes: Seq<u8>,
    error_bytes: Seq<u8>,
)
    requires
        is_trap_error(e, kind, exit_status, Some(error_bytes)),
        ev.kind == trap_kind_from_code(kind),
        ev.message@ == lossy_utf8(hook_bytes),
        error_bytes == hook_bytes.push(0u8) || (error_bytes == hook_bytes && (hook_bytes.len() == 0
            || hook_bytes.last() != 0u8)),
    ensures
        e.kind_of() == Some(ev.kind),
        !(kind == WASI_EXIT_CODE && exit_status is Some) ==> e.text() == ev.message@,
{
    if error_bytes == hook_bytes.push(0u8) {
        assert(error_bytes.drop_last() =~= hook_bytes);
    }
}

} // verus!
