//! What a module imports.

use vstd::prelude::*;
use vstd::utf8::valid_utf8;

use crate::text::{lossy_utf8, utf8_lossy};

verus! {

/// What an import or export is, mirroring `wasm_externkind_enum` in the
/// wasm-c-api, plus zwasm's tag kind.
#[non_exhaustive]
#[derive(Debug, Clone, Copy, PartialEq, Eq, Structural)]
pub enum ExternKind {
    /// `WASM_EXTERN_FUNC`.
    Func,
    /// `WASM_EXTERN_GLOBAL`.
    Global,
    /// `WASM_EXTERN_TABLE`.
    Table,
    /// `WASM_EXTERN_MEMORY`.
    Memory,
    /// `WASM_EXTERN_TAG`, from the exception-handling proposal.
    Tag,
    /// A kind this crate does not know about, carrying the raw value.
    Unknown(u8),
}

/// The kind a raw `wasm_externkind_t` names.
pub open spec fn extern_kind_from_raw(kind: u8) -> ExternKind {
    if kind == 0 {
        ExternKind::Func
    } else if kind == 1 {
        ExternKind::Global
    } else if kind == 2 {
        ExternKind::Table
    } else if kind == 3 {
        ExternKind::Memory
    } else if kind == 4 {
        ExternKind::Tag
    } else {
        ExternKind::Unknown(kind)
    }
}

impl From<u8> for ExternKind {
    fn from(kind: u8) -> (k: ExternKind) {
        match kind {
            0 => ExternKind::Func,
            1 => ExternKind::Global,
            2 => ExternKind::Table,
            3 => ExternKind::Memory,
            4 => ExternKind::Tag,
            _ => ExternKind::Unknown(kind),
        }
    }
}

impl vstd::std_specs::convert::FromSpecImpl<u8> for ExternKind {
    open spec fn obeys_from_spec() -> bool {
        true
    }

    open spec fn from_spec(kind: u8) -> ExternKind {
        extern_kind_from_raw(kind)
    }
}

/// Distinct raw kinds name distinct kinds: the known ones have a variant each,
/// and an unknown one keeps its value.
pub proof fn lemma_extern_kinds_are_injective(a: u8, b: u8)
    ensures
        extern_kind_from_raw(a) == extern_kind_from_raw(b) ==> a == b,
        (a > 4) <==> extern_kind_from_raw(a) is Unknown,
{
}

/// One entry of a module's import section: the module and field names the
/// import is expected under, and what kind of thing it wants.
#[derive(Debug, Clone, PartialEq, Eq)]
pub struct ImportType {
    module: String,
    name: String,
    kind: ExternKind,
}

/// The abstract content of an [`ImportType`].
pub struct ImportTypeView {
    pub module: Seq<char>,
    pub name: Seq<char>,
    pub kind: ExternKind,
}

impl View for ImportType {
    type V = ImportTypeView;

    closed spec fn view(&self) -> ImportTypeView {
        ImportTypeView { module: self.module@, name: self.name@, kind: self.kind }
    }
}

/// An import entry as the C side describes it: the raw bytes of its two
/// names and its raw kind.
pub struct RawImport {
    pub module: Vec<u8>,
    pub name: Vec<u8>,
    pub kind: u8,
}

/// The import entry a raw one describes: both names decoded lossily as UTF-8
/// and the kind mapped through [`ExternKind`].
pub open spec fn import_of_raw(module: Seq<u8>, name: Seq<u8>, kind: u8) -> ImportTypeView {
    ImportTypeView {
        module: lossy_utf8(module),
        name: lossy_utf8(name),
        kind: extern_kind_from_raw(kind),
    }
}

impl ImportType {
    /// Builds an entry from the raw names and kind the C side reports.
    ///
    /// A name that is not valid UTF-8 arrives with U+FFFD in place of what
    /// could not be decoded, rather than as an error.
    pub fn from_raw(module: &[u8], name: &[u8], kind: u8) -> (t: ImportType)
        ensures
            t@ == import_of_raw(module@, name@, kind),
            !valid_utf8(module@) ==> t@.module.contains('\u{FFFD}'),
            !valid_utf8(name@) ==> t@.name.contains('\u{FFFD}'),
    {
        ImportType {
            module: utf8_lossy(module),
            name: utf8_lossy(name),
            kind: ExternKind::from(kind),
        }
    }

    /// The module name the import is expected to come from. Can be empty.
    pub fn module(&self) -> (m: &str)
        ensures
            m@ == self@.module,
    {
        self.module.as_str()
    }

    /// The field name within that module. Can also be empty.
    pub fn name(&self) -> (n: &str)
        ensures
            n@ == self@.name,
    {
        self.name.as_str()
    }

    /// What kind of thing the slot wants.
    pub fn kind(&self) -> (k: ExternKind)
        ensures
            k == self@.kind,
    {
        self.kind
    }
}

/// The import section, in the order the C side listed it: one entry per raw
/// entry, at the same position, so a caller can order its imports by it.
pub fn imports_from_raw(raw: &[RawImport]) -> (imports: Vec<ImportType>)
    ensures
        imports@.len() == raw@.len(),
        forall|i: int|
            0 <= i < raw@.len() ==> #[trigger] imports@[i]@ == import_of_raw(
                raw@[i].module@,
                raw@[i].name@,
                raw@[i].kind,
            ),
        forall|i: int|
            0 <= i < raw@.len() && !valid_utf8(#[trigger] raw@[i].module@) ==> imports@[i]@.module.contains(
                '\u{FFFD}',
            ),
        forall|i: int|
            0 <= i < raw@.len() && !valid_utf8(#[trigger] raw@[i].name@) ==> imports@[i]@.name.contains(
                '\u{FFFD}',
            ),
{
    let mut imports: Vec<ImportType> = Vec::new();
    let mut i: usize = 0;
    while i < raw.len()
        invariant
            i <= raw@.len(),
            imports@.len() == i,
            forall|j: int|
                0 <= j < i ==> #[trigger] imports@[j]@ == import_of_raw(
                    raw@[j].module@,
                    raw@[j].name@,
                    raw@[j].kind,
                ),
            forall|j: int|
                0 <= j < i && !valid_utf8(#[trigger] raw@[j].module@) ==> imports@[j]@.module.contains(
                    '\u{FFFD}',
                ),
            forall|j: int|
                0 <= j < i && !valid_utf8(#[trigger] raw@[j].name@) ==> imports@[j]@.name.contains(
                    '\u{FFFD}',
                ),
        decreases raw@.len() - i,
    {
        let entry = &raw[i];
        let t = ImportType::from_raw(entry.module.as_slice(), entry.name.as_slice(), entry.kind);
        imports.push(t);
        i = i + 1;
    }
    imports
}

} // verus!
