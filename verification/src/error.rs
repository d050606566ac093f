//! Errors, and the kinds a guest trap can have.

use vstd::prelude::*;
use vstd::string::*;
use vstd::utf8::*;

use crate::text::{decimal, lossy_utf8, push_decimal, utf8_lossy};

verus! {

/// What a guest trap was, beside the message it carries.
///
/// The variants mirror `ZWASM_TRAP_*` in zwasm's `include/zwasm.h` one to one,
/// numbered from 0 in declaration order. zwasm documents that enum as
/// append-only, so a code this crate does not know arrives as `Unknown`,
/// carrying the raw value, rather than as a panic.
#[non_exhaustive]
#[derive(Debug, Clone, Copy, PartialEq, Eq, Structural)]
pub enum TrapKind {
    /// `ZWASM_TRAP_BINDING_ERROR`.
    BindingError,
    /// `ZWASM_TRAP_UNREACHABLE`.
    Unreachable,
    /// `ZWASM_TRAP_DIV_BY_ZERO`.
    DivByZero,
    /// `ZWASM_TRAP_INT_OVERFLOW`.
    IntOverflow,
    /// `ZWASM_TRAP_INVALID_CONVERSION`.
    InvalidConversion,
    /// `ZWASM_TRAP_OOB_MEMORY`.
    OobMemory,
    /// `ZWASM_TRAP_OOB_TABLE`.
    OobTable,
    /// `ZWASM_TRAP_UNINITIALIZED_ELEM`.
    UninitializedElem,
    /// `ZWASM_TRAP_INDIRECT_CALL_MISMATCH`.
    IndirectCallMismatch,
    /// `ZWASM_TRAP_STACK_OVERFLOW`.
    StackOverflow,
    /// `ZWASM_TRAP_OUT_OF_MEMORY`.
    OutOfMemory,
    /// `ZWASM_TRAP_NULL_REFERENCE`.
    NullReference,
    /// `ZWASM_TRAP_CAST_FAILURE`.
    CastFailure,
    /// `ZWASM_TRAP_UNCAUGHT_EXCEPTION`.
    UncaughtException,
    /// `ZWASM_TRAP_UNALIGNED_ATOMIC`.
    UnalignedAtomic,
    /// `ZWASM_TRAP_EXPECTED_SHARED_MEMORY`.
    ExpectedSharedMemory,
    /// `ZWASM_TRAP_INTERRUPTED`.
    Interrupted,
    /// `ZWASM_TRAP_OUT_OF_FUEL`.
    OutOfFuel,
    /// `ZWASM_TRAP_WASI_EXIT`: the guest called WASI `proc_exit`. Not a
    /// failure by itself; [`Error::WasiExit`] carries the status.
    WasiExit,
    /// `ZWASM_TRAP_INVALID_MODULE`, added in zwasm 2.7.0: instantiation found
    /// a module the JIT judges invalid. Not a guest fault, and `Auto` does not
    /// fall back to the interpreter for it.
    InvalidModule,
    /// `ZWASM_TRAP_UNSUPPORTED`, added in zwasm 2.7.0: a call the engine has
    /// no implementation for. Not a guest fault either, and no fallback.
    Unsupported,
    /// A kind this crate does not know about, carrying the raw value.
    Unknown(i32),
}

/// The raw value zwasm reports for a WASI exit (`ZWASM_TRAP_WASI_EXIT`).
pub const WASI_EXIT_CODE: i32 = 18;

/// The kind zwasm's raw trap code `code` names.
pub open spec fn trap_kind_from_code(code: i32) -> TrapKind {
    if code == 0 {
        TrapKind::BindingError
    } else if code == 1 {
        TrapKind::Unreachable
    } else if code == 2 {
        TrapKind::DivByZero
    } else if code == 3 {
        TrapKind::IntOverflow
    } else if code == 4 {
        TrapKind::InvalidConversion
    } else if code == 5 {
        TrapKind::OobMemory
    } else if code == 6 {
        TrapKind::OobTable
    } else if code == 7 {
        TrapKind::UninitializedElem
    } else if code == 8 {
        TrapKind::IndirectCallMismatch
    } else if code == 9 {
        TrapKind::StackOverflow
    } else if code == 10 {
        TrapKind::OutOfMemory
    } else if code == 11 {
        TrapKind::NullReference
    } else if code == 12 {
        TrapKind::CastFailure
    } else if code == 13 {
        TrapKind::UncaughtException
    } else if code == 14 {
        TrapKind::UnalignedAtomic
    } else if code == 15 {
        TrapKind::ExpectedSharedMemory
    } else if code == 16 {
        TrapKind::Interrupted
    } else if code == 17 {
        TrapKind::OutOfFuel
    } else if code == 18 {
        TrapKind::WasiExit
    } else if code == 19 {
        TrapKind::InvalidModule
    } else if code == 20 {
        TrapKind::Unsupported
    } else {
        TrapKind::Unknown(code)
    }
}

impl From<i32> for TrapKind {
    fn from(code: i32) -> (kind: TrapKind) {
        match code {
            0 => TrapKind::BindingError,
            1 => TrapKind::Unreachable,
            2 => TrapKind::DivByZero,
            3 => TrapKind::IntOverflow,
            4 => TrapKind::InvalidConversion,
            5 => TrapKind::OobMemory,
            6 => TrapKind::OobTable,
            7 => TrapKind::UninitializedElem,
            8 => TrapKind::IndirectCallMismatch,
            9 => TrapKind::StackOverflow,
            10 => TrapKind::OutOfMemory,
            11 => TrapKind::NullReference,
            12 => TrapKind::CastFailure,
            13 => TrapKind::UncaughtException,
            14 => TrapKind::UnalignedAtomic,
            15 => TrapKind::ExpectedSharedMemory,
            16 => TrapKind::Interrupted,
            17 => TrapKind::OutOfFuel,
            18 => TrapKind::WasiExit,
            19 => TrapKind::InvalidModule,
            20 => TrapKind::Unsupported,
            other => TrapKind::Unknown(other),
        }
    }
}

impl vstd::std_specs::convert::FromSpecImpl<i32> for TrapKind {
    open spec fn obeys_from_spec() -> bool {
        true
    }

    open spec fn from_spec(code: i32) -> TrapKind {
        trap_kind_from_code(code)
    }
}

/// Two raw codes name the same kind only when they are the same code: the
/// documented codes each have a variant of their own, and every other code is
/// carried through `Unknown` unchanged.
pub proof fn lemma_trap_kind_codes_are_injective(a: i32, b: i32)
    ensures
        trap_kind_from_code(a) == trap_kind_from_code(b) ==> a == b,
{
}

/// Every code the header documents maps to a named variant, and every code it
/// does not document comes back as `Unknown` with the same value.
pub proof fn lemma_trap_kind_unknown_exactly_outside_the_header(code: i32)
    ensures
        0 <= code <= 20 ==> !(trap_kind_from_code(code) is Unknown),
        (code < 0 || code > 20) ==> trap_kind_from_code(code) == TrapKind::Unknown(code),
{
}

/// Anything that can go wrong in this crate.
#[derive(Debug)]
pub enum Error {
    /// An operation failed without producing a trap.
    Message(String),
    /// Guest execution trapped.
    Trap { kind: TrapKind, message: String },
    /// The guest ended itself through WASI `proc_exit`, asking for `code`.
    WasiExit { code: u32 },
}

impl Error {
    /// The trap kind an error carries: its own kind for a trap, the WASI exit
    /// kind for a WASI exit, and none for a plain message.
    pub open spec fn kind_of(self) -> Option<TrapKind> {
        match self {
            Error::Message(_) => None,
            Error::Trap { kind, .. } => Some(kind),
            Error::WasiExit { .. } => Some(TrapKind::WasiExit),
        }
    }

    /// The text an error prints as.
    pub open spec fn text(self) -> Seq<char> {
        match self {
            Error::Message(m) => m@,
            Error::Trap { message, .. } => message@,
            Error::WasiExit { code } => "exited with status "@ + decimal(code as nat),
        }
    }

    /// Whether this is a plain message whose text is `msg`.
    pub open spec fn is_message(self, msg: Seq<char>) -> bool {
        self matches Error::Message(m) && m@ == msg
    }

    /// The trap kind, or `None` when the error is not a trap.
    pub fn trap_kind(&self) -> (kind: Option<TrapKind>)
        ensures
            kind == self.kind_of(),
    {
        match self {
            Error::Trap { kind, message: _ } => Some(*kind),
            Error::Message(_) => None,
            Error::WasiExit { .. } => Some(TrapKind::WasiExit),
        }
    }

    /// The text the error prints as: the message itself for a message or a
    /// trap, and `exited with status N` for a WASI exit.
    pub fn to_string(&self) -> (s: String)
        ensures
            s@ == self.text(),
    {
        match self {
            Error::Message(m) => m.clone(),
            Error::Trap { message, .. } => message.clone(),
            Error::WasiExit { code } => {
                let mut s = String::from_str("exited with status ");
                push_decimal(&mut s, *code as u64);
                s
            },
        }
    }
}

/// A plain-message error carrying `msg`.
pub fn message_error(msg: &str) -> (e: Error)
    ensures
        e.is_message(msg@),
{
    Error::Message(String::from_str(msg))
}

/// Turns a handle the C side may have left null into a result: the handle
/// when there is one, and an error carrying `msg` when there is not.
pub fn non_null<T>(ptr: Option<T>, msg: &str) -> (r: Result<T, Error>)
    ensures
        match ptr {
            Some(p) => r == Ok::<T, Error>(p),
            None => r matches Err(e) && e.is_message(msg@),
        },
{
    match ptr {
        Some(p) => Ok(p),
        None => Err(message_error(msg)),
    }
}

/// A trap message as the C side hands it over, with one trailing NUL
/// terminator removed when there is one.
pub open spec fn without_terminator(bytes: Seq<u8>) -> Seq<u8> {
    if bytes.len() > 0 && bytes.last() == 0u8 {
        bytes.drop_last()
    } else {
        bytes
    }
}

/// The text of a trap message whose bytes are `raw`, or `None` when the C
/// side gave no message at all.
pub open spec fn trap_message_of(raw: Option<Seq<u8>>) -> Seq<char> {
    match raw {
        None => "trap with no message"@,
        Some(bytes) => lossy_utf8(without_terminator(bytes)),
    }
}

/// Decodes a trap message: a missing one becomes `trap with no message`, and
/// a present one loses the NUL terminator `wasm_trap_message` may count in its
/// size before it is decoded, lossily, as UTF-8.
pub fn trap_message_text(raw: Option<&[u8]>) -> (s: String)
    ensures
        s@ == trap_message_of(bytes_view(raw)),
        raw matches Some(b) && !valid_utf8(without_terminator(b@)) ==> s@.contains('\u{FFFD}'),
{
    match raw {
        None => String::from_str("trap with no message"),
        Some(bytes) => {
            let n = bytes.len();
            if n > 0 && bytes[n - 1] == 0u8 {
                let (body, _) = bytes.split_at(n - 1);
                assert(body@ =~= bytes@.drop_last());
                utf8_lossy(body)
            } else {
                utf8_lossy(bytes)
            }
        },
    }
}

/// The bytes of the message a trap minted from `e` carries: the error's text
/// encoded as UTF-8, with the NUL terminator `wasm.h` counts in a message.
pub fn trap_message_bytes(e: &Error) -> (b: Vec<u8>)
    ensures
        b@ == encode_utf8(e.text()).push(0u8),
{
    let text = e.to_string();
    let mut b = vstd::slice::slice_to_vec(text.as_str().as_bytes());
    b.push(0u8);
    b
}

/// A trap minted from an error reads back as the same text: the terminator
/// comes off, and what is left is valid UTF-8, which decodes to what was
/// encoded.
pub proof fn lemma_minted_trap_message_reads_back(text: Seq<char>)
    ensures
        trap_message_of(Some(encode_utf8(text).push(0u8))) == text,
{
    broadcast use encode_utf8_valid_utf8, encode_utf8_decode_utf8;

    assert(encode_utf8(text).push(0u8).drop_last() =~= encode_utf8(text));
}

/// The view of an optional byte slice.
pub open spec fn bytes_view(raw: Option<&[u8]>) -> Option<Seq<u8>> {
    match raw {
        Some(b) => Some(b@),
        None => None,
    }
}

/// Whether `e` is the error a trap with raw kind `kind`, store exit status
/// `exit_status` and message bytes `message` becomes: a WASI exit for which
/// the store holds a status is [`Error::WasiExit`] with it, and anything else
/// is [`Error::Trap`] with the kind the code names and the decoded message.
pub open spec fn is_trap_error(
    e: Error,
    kind: i32,
    exit_status: Option<u32>,
    message: Option<Seq<u8>>,
) -> bool {
    if kind == WASI_EXIT_CODE && exit_status is Some {
        e == (Error::WasiExit { code: exit_status->0 })
    } else {
        e matches Error::Trap { kind: k, message: m } && k == trap_kind_from_code(kind) && m@
            == trap_message_of(message)
    }
}

/// The error a trap becomes.
///
/// `kind` is the raw code `zwasm_trap_kind` reported, `exit_status` what
/// `zwasm_store_wasi_exit_code` read from the store, and `message` the bytes
/// `wasm_trap_message` gave, if any.
pub fn trap_to_error(kind: i32, exit_status: Option<u32>, message: Option<&[u8]>) -> (e: Error)
    ensures
        is_trap_error(e, kind, exit_status, bytes_view(message)),
        kind == 18i32 && exit_status is Some ==> (e matches Error::WasiExit { code } && code
            == exit_status->0),
        !(kind == 18i32 && exit_status is Some) ==> e is Trap,
{
    if kind == WASI_EXIT_CODE {
        if let Some(code) = exit_status {
            return Error::WasiExit { code };
        }
    }
    let text = trap_message_text(message);
    Error::Trap { kind: TrapKind::from(kind), message: text }
}

/// A WASI exit for which the store holds a status carries that status
/// through unchanged, whatever it is: the error is exactly
/// `WasiExit { code: status }`, so two different statuses never give the same
/// error. Any other trap stays a trap, and never looks like an exit.
pub proof fn lemma_exit_status_survives(
    e: Error,
    kind: i32,
    exit_status: Option<u32>,
    message: Option<Seq<u8>>,
)
    requires
        is_trap_error(e, kind, exit_status, message),
    ensures
        forall|c: u32|
            kind == 18i32 && exit_status == Some(c) ==> (e matches Error::WasiExit { code }
                && code == c),
        kind == 18i32 && exit_status is Some ==> e.text() == "exited with status "@ + decimal(
            exit_status->0 as nat,
        ),
        !(kind == 18i32 && exit_status is Some) ==> e is Trap,
{
}

/// A trap, whatever the store says of an exit, carries the kind its raw code
/// names: an exit that became [`Error::WasiExit`] reports the WASI exit kind,
/// which is what the exit code names too.
pub proof fn lemma_trap_error_carries_the_reported_kind(
    e: Error,
    kind: i32,
    exit_status: Option<u32>,
    message: Option<Seq<u8>>,
)
    requires
        is_trap_error(e, kind, exit_status, message),
    ensures
        e.kind_of() == Some(trap_kind_from_code(kind)),
{
}

/// Turns the trap an operation may have produced into its result: success
/// when there was none, the trap's error when there was.
pub fn trap_into_result(trap: Option<Error>) -> (r: Result<(), Error>)
    ensures
        match trap {
            None => r is Ok,
            Some(e) => r == Err::<(), Error>(e),
        },
{
    match trap {
        None => Ok(()),
        Some(e) => Err(e),
    }
}

} // verus!
