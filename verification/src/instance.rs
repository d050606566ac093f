//! Choosing an instance's engine, and the decisions around instantiating and
//! looking exports up.

use vstd::prelude::*;
use vstd::string::*;

use crate::error::{trap_into_result, Error};
use crate::text::{push_signed_decimal, signed_decimal};

verus! {

/// Which engine runs one instance, mirroring `ZWASM_ENGINE_*` in zwasm's
/// `include/zwasm.h`.
///
/// [`Auto`](Self::Auto) is a request; the engine an instance reports having
/// run on is never `Auto`.
#[non_exhaustive]
#[derive(Debug, Clone, Copy, PartialEq, Eq, Structural)]
pub enum EngineKind {
    /// `ZWASM_ENGINE_AUTO`: the JIT, with the interpreter for a module the JIT
    /// declines.
    Auto,
    /// `ZWASM_ENGINE_JIT`: the native JIT, with no fallback.
    Jit,
    /// `ZWASM_ENGINE_INTERP`: the interpreter.
    Interp,
    /// A kind this crate does not know about, carrying the raw value.
    Unknown(i32),
}

/// The kind a raw `ZWASM_ENGINE_*` value names.
pub open spec fn engine_kind_from_code(kind: i32) -> EngineKind {
    if kind == 0 {
        EngineKind::Auto
    } else if kind == 1 {
        EngineKind::Jit
    } else if kind == 2 {
        EngineKind::Interp
    } else {
        EngineKind::Unknown(kind)
    }
}

impl From<i32> for EngineKind {
    fn from(kind: i32) -> (k: EngineKind) {
        match kind {
            0 => EngineKind::Auto,
            1 => EngineKind::Jit,
            2 => EngineKind::Interp,
            other => EngineKind::Unknown(other),
        }
    }
}

impl vstd::std_specs::convert::FromSpecImpl<i32> for EngineKind {
    open spec fn obeys_from_spec() -> bool {
        true
    }

    open spec fn from_spec(kind: i32) -> EngineKind {
        engine_kind_from_code(kind)
    }
}

impl EngineKind {
    /// The `engine_kind` byte `zwasm_instance_new_ex` takes for this kind, or
    /// `None` for an `Unknown` whose value does not fit a byte.
    pub open spec fn raw_of(self) -> Option<u8> {
        match self {
            EngineKind::Auto => Some(0u8),
            EngineKind::Jit => Some(1u8),
            EngineKind::Interp => Some(2u8),
            EngineKind::Unknown(other) => if 0 <= other <= 255 {
                Some(other as u8)
            } else {
                None
            },
        }
    }

    /// The `engine_kind` byte for this kind. Truncating an `Unknown` that does
    /// not fit would ask for a different engine, so there is none for it.
    pub fn as_raw(self) -> (raw: Option<u8>)
        ensures
            raw == self.raw_of(),
    {
        match self {
            EngineKind::Auto => Some(0),
            EngineKind::Jit => Some(1),
            EngineKind::Interp => Some(2),
            EngineKind::Unknown(other) => {
                if 0 <= other && other <= 255 {
                    Some(other as u8)
                } else {
                    None
                }
            },
        }
    }

    /// How the kind prints in a message: its variant's name, with the raw
    /// value for an `Unknown`.
    pub open spec fn debug_text(self) -> Seq<char> {
        match self {
            EngineKind::Auto => "Auto"@,
            EngineKind::Jit => "Jit"@,
            EngineKind::Interp => "Interp"@,
            EngineKind::Unknown(other) => "Unknown("@ + signed_decimal(other as int) + ")"@,
        }
    }

    fn push_debug(self, out: &mut String)
        ensures
            final(out)@ == old(out)@ + self.debug_text(),
    {
        match self {
            EngineKind::Auto => out.append("Auto"),
            EngineKind::Jit => out.append("Jit"),
            EngineKind::Interp => out.append("Interp"),
            EngineKind::Unknown(other) => {
                out.append("Unknown(");
                push_signed_decimal(out, other as i64);
                out.append(")");
            },
        }
    }
}

/// A raw engine value read back and handed to instantiation again asks for
/// the same engine: every value that fits the selector byte comes back as
/// itself, and no other value yields a selector at all.
pub proof fn lemma_engine_kind_round_trips(code: i32)
    ensures
        engine_kind_from_code(code).raw_of() == (if 0 <= code <= 255 {
            Some(code as u8)
        } else {
            None::<u8>
        }),
{
}

/// The message for an engine kind zwasm cannot be handed.
pub open spec fn not_a_selector_message(engine: EngineKind) -> Seq<char> {
    engine.debug_text() + " is not a selector zwasm can be given"@
}

/// The message for an instantiation the chosen engine declined.
pub open spec fn declined_message(engine: EngineKind) -> Seq<char> {
    "failed to create instance on the "@ + engine.debug_text() + " engine"@
}

/// The selector byte to instantiate on `engine` with, or an error, before
/// zwasm is called at all, for a kind too large for that byte.
pub fn engine_selector(engine: EngineKind) -> (r: Result<u8, Error>)
    ensures
        match engine.raw_of() {
            Some(b) => r == Ok::<u8, Error>(b),
            None => r matches Err(e) && e.is_message(not_a_selector_message(engine)),
        },
{
    match engine.as_raw() {
        Some(b) => Ok(b),
        None => {
            let mut s = String::new();
            engine.push_debug(&mut s);
            s.append(" is not a selector zwasm can be given");
            Err(Error::Message(s))
        },
    }
}

/// What an instantiation comes to once zwasm has answered: a trap it raised
/// (a start function that trapped, or a WASI exit) wins; otherwise an
/// instance that was not created is a decline by the chosen engine, which
/// zwasm reports with no reason, so the engine is named.
pub fn instantiation_result(trap: Option<Error>, created: bool, engine: EngineKind) -> (r: Result<
    (),
    Error,
>)
    ensures
        match trap {
            Some(e) => r == Err::<(), Error>(e),
            None => if created {
                r is Ok
            } else {
                r matches Err(e) && e.is_message(declined_message(engine))
            },
        },
{
    trap_into_result(trap)?;
    if created {
        Ok(())
    } else {
        let mut s = String::from_str("failed to create instance on the ");
        engine.push_debug(&mut s);
        s.append(" engine");
        Err(Error::Message(s))
    }
}

fn bytes_equal(a: &[u8], b: &[u8]) -> (r: bool)
    ensures
        r == (a@ == b@),
{
    if a.len() != b.len() {
        return false;
    }
    let mut i: usize = 0;
    while i < a.len()
        invariant
            a@.len() == b@.len(),
            i <= a@.len(),
            forall|j: int| 0 <= j < i ==> a@[j] == b@[j],
        decreases a@.len() - i,
    {
        if a[i] != b[i] {
            return false;
        }
        i = i + 1;
    }
    assert(a@ =~= b@);
    true
}

/// The contents of a list of byte vectors.
pub open spec fn byte_names(names: Seq<Vec<u8>>) -> Seq<Seq<u8>> {
    names.map_values(|v: Vec<u8>| v@)
}

/// Whether `i` is the first position in `names` that holds `target`.
pub open spec fn is_first_match(names: Seq<Seq<u8>>, target: Seq<u8>, i: int) -> bool {
    &&& 0 <= i < names.len()
    &&& names[i] == target
    &&& forall|j: int| 0 <= j < i ==> names[j] != target
}

/// Finds the export called `name`.
///
/// `export_names` are the module's export names in declaration order, and
/// `instance_exports` is how many exports the instance holds. The export is
/// found by the first name that matches, and its position is used against the
/// instance's own list, so a position the instance does not hold is no export
/// rather than a read out of range.
pub fn locate_export(export_names: &[Vec<u8>], name: &str, instance_exports: usize) -> (r: Option<
    usize,
>)
    ensures
        match r {
            Some(i) => i < instance_exports && is_first_match(
                byte_names(export_names@),
                name.spec_bytes(),
                i as int,
            ),
            None => forall|i: int|
                #[trigger] is_first_match(byte_names(export_names@), name.spec_bytes(), i)
                    ==> i >= instance_exports,
        },
{
    let target = name.as_bytes();
    let ghost names = byte_names(export_names@);
    let mut i: usize = 0;
    while i < export_names.len()
        invariant
            i <= export_names@.len(),
            names == byte_names(export_names@),
            target@ == name.spec_bytes(),
            forall|j: int| 0 <= j < i ==> names[j] != target@,
        decreases export_names@.len() - i,
    {
        if bytes_equal(export_names[i].as_slice(), target) {
            assert(is_first_match(names, target@, i as int));
            if i < instance_exports {
                return Some(i);
            } else {
                assert forall|k: int| #[trigger] is_first_match(names, target@, k) implies k >= instance_exports by {
                    if k < i {
                        assert(names[k] != target@);
                    } else if k > i {
                        assert(names[i as int] == target@);
                    }
                }
                return None;
            }
        }
        i = i + 1;
    }
    None
}

/// The fuel an instance reports: what is left when a budget is armed, and
/// `None`, which is not zero, when none is.
pub fn fuel_from_raw(armed: bool, fuel: u64) -> (r: Option<u64>)
    ensures
        r == (if armed { Some(fuel) } else { None }),
{
    if armed {
        Some(fuel)
    } else {
        None
    }
}

} // verus!
