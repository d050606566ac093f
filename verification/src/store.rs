//! What a store owns.

use vstd::prelude::*;
use vstd::string::*;

use crate::text::{decimal, push_decimal};

verus! {

/// The ownership registry of one store: its id, and every object created
/// through it, kind by kind, in the order they were created.
///
/// The store frees everything listed here when it is dropped, and nothing
/// earlier: nothing is ever taken out of a registry, so a handle can never
/// name an object that is already gone while its store is alive.
///
/// The handle types are left to the caller; a store keeps the C pointers.
pub struct Registry<F, I, M, Me, G, T> {
    id: u64,
    funcs: Vec<F>,
    instances: Vec<I>,
    modules: Vec<M>,
    memories: Vec<Me>,
    globals: Vec<G>,
    tables: Vec<T>,
}

/// The abstract content of a [`Registry`].
pub struct RegistryView<F, I, M, Me, G, T> {
    pub id: u64,
    pub funcs: Seq<F>,
    pub instances: Seq<I>,
    pub modules: Seq<M>,
    pub memories: Seq<Me>,
    pub globals: Seq<G>,
    pub tables: Seq<T>,
}

impl<F, I, M, Me, G, T> View for Registry<F, I, M, Me, G, T> {
    type V = RegistryView<F, I, M, Me, G, T>;

    closed spec fn view(&self) -> RegistryView<F, I, M, Me, G, T> {
        RegistryView {
            id: self.id,
            funcs: self.funcs@,
            instances: self.instances@,
            modules: self.modules@,
            memories: self.memories@,
            globals: self.globals@,
            tables: self.tables@,
        }
    }
}

impl<F, I, M, Me, G, T> RegistryView<F, I, M, Me, G, T> {
    /// Whether `self` is `old` with objects added and none taken away: the
    /// same store, and every list of `old` a prefix of the same list here.
    pub open spec fn grows_from(self, old: RegistryView<F, I, M, Me, G, T>) -> bool {
        &&& self.id == old.id
        &&& old.funcs.is_prefix_of(self.funcs)
        &&& old.instances.is_prefix_of(self.instances)
        &&& old.modules.is_prefix_of(self.modules)
        &&& old.memories.is_prefix_of(self.memories)
        &&& old.globals.is_prefix_of(self.globals)
        &&& old.tables.is_prefix_of(self.tables)
    }

    /// The text a store prints as: how many of each thing it holds, never the
    /// handles themselves.
    pub open spec fn summary(self) -> Seq<char> {
        "Store { id: "@ + decimal(self.id as nat) + ", funcs: "@ + decimal(self.funcs.len())
            + ", instances: "@ + decimal(self.instances.len()) + ", modules: "@ + decimal(
            self.modules.len(),
        ) + ", memories: "@ + decimal(self.memories.len()) + ", globals: "@ + decimal(
            self.globals.len(),
        ) + ", tables: "@ + decimal(self.tables.len()) + " }"@
    }
}

/// Growing is a preorder: a store grows from itself, and growth composes.
pub proof fn lemma_growth_composes<F, I, M, Me, G, T>(
    a: RegistryView<F, I, M, Me, G, T>,
    b: RegistryView<F, I, M, Me, G, T>,
    c: RegistryView<F, I, M, Me, G, T>,
)
    ensures
        a.grows_from(a),
        b.grows_from(a) && c.grows_from(b) ==> c.grows_from(a),
{
}

impl<F, I, M, Me, G, T> Registry<F, I, M, Me, G, T> {
    /// An empty registry for the store with id `id`.
    pub fn new(id: u64) -> (r: Self)
        ensures
            r@.id == id,
            r@.funcs.len() == 0,
            r@.instances.len() == 0,
            r@.modules.len() == 0,
            r@.memories.len() == 0,
            r@.globals.len() == 0,
            r@.tables.len() == 0,
    {
        Registry {
            id,
            funcs: Vec::new(),
            instances: Vec::new(),
            modules: Vec::new(),
            memories: Vec::new(),
            globals: Vec::new(),
            tables: Vec::new(),
        }
    }

    /// The store's id.
    pub fn id(&self) -> (id: u64)
        ensures
            id == self@.id,
    {
        self.id
    }

    /// Whether an object stamped with `store_id` belongs to this store.
    pub fn belongs(&self, store_id: u64) -> (b: bool)
        ensures
            b == (store_id == self@.id),
    {
        self.id == store_id
    }

    /// Records a function the store now owns.
    pub fn add_func(&mut self, f: F)
        ensures
            final(self)@.grows_from(old(self)@),
            final(self)@ == (RegistryView { funcs: old(self)@.funcs.push(f), ..old(self)@ }),
    {
        self.funcs.push(f);
    }

    /// Records an instance the store now owns.
    pub fn add_instance(&mut self, i: I)
        ensures
            final(self)@.grows_from(old(self)@),
            final(self)@ == (RegistryView { instances: old(self)@.instances.push(i), ..old(self)@ }),
    {
        self.instances.push(i);
    }

    /// Records a module the store now owns.
    pub fn add_module(&mut self, m: M)
        ensures
            final(self)@.grows_from(old(self)@),
            final(self)@ == (RegistryView { modules: old(self)@.modules.push(m), ..old(self)@ }),
    {
        self.modules.push(m);
    }

    /// Records a memory the store now owns.
    pub fn add_memory(&mut self, m: Me)
        ensures
            final(self)@.grows_from(old(self)@),
            final(self)@ == (RegistryView { memories: old(self)@.memories.push(m), ..old(self)@ }),
    {
        self.memories.push(m);
    }

    /// Records a global the store now owns.
    pub fn add_global(&mut self, g: G)
        ensures
            final(self)@.grows_from(old(self)@),
            final(self)@ == (RegistryView { globals: old(self)@.globals.push(g), ..old(self)@ }),
    {
        self.globals.push(g);
    }

    /// Records a table the store now owns.
    pub fn add_table(&mut self, t: T)
        ensures
            final(self)@.grows_from(old(self)@),
            final(self)@ == (RegistryView { tables: old(self)@.tables.push(t), ..old(self)@ }),
    {
        self.tables.push(t);
    }

    /// The functions, in the order they were recorded.
    pub fn funcs(&self) -> (s: &[F])
        ensures
            s@ == self@.funcs,
    {
        self.funcs.as_slice()
    }

    /// The instances, in the order they were recorded.
    pub fn instances(&self) -> (s: &[I])
        ensures
            s@ == self@.instances,
    {
        self.instances.as_slice()
    }

    /// The modules, in the order they were recorded.
    pub fn modules(&self) -> (s: &[M])
        ensures
            s@ == self@.modules,
    {
        self.modules.as_slice()
    }

    /// The memories, in the order they were recorded.
    pub fn memories(&self) -> (s: &[Me])
        ensures
            s@ == self@.memories,
    {
        self.memories.as_slice()
    }

    /// The globals, in the order they were recorded.
    pub fn globals(&self) -> (s: &[G])
        ensures
            s@ == self@.globals,
    {
        self.globals.as_slice()
    }

    /// The tables, in the order they were recorded.
    pub fn tables(&self) -> (s: &[T])
        ensures
            s@ == self@.tables,
    {
        self.tables.as_slice()
    }

    /// The text the store prints as: its id and how many of each kind of
    /// object it owns.
    pub fn summary(&self) -> (s: String)
        ensures
            s@ == self@.summary(),
    {
        let mut s = String::from_str("Store { id: ");
        push_decimal(&mut s, self.id);
        s.append(", funcs: ");
        push_decimal(&mut s, self.funcs.len() as u64);
        s.append(", instances: ");
        push_decimal(&mut s, self.instances.len() as u64);
        s.append(", modules: ");
        push_decimal(&mut s, self.modules.len() as u64);
        s.append(", memories: ");
        push_decimal(&mut s, self.memories.len() as u64);
        s.append(", globals: ");
        push_decimal(&mut s, self.globals.len() as u64);
        s.append(", tables: ");
        push_decimal(&mut s, self.tables.len() as u64);
        s.append(" }");
        s
    }
}

} // verus!
