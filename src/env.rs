//! The environment a guest module may import from: host functions and memories, under
//! (module, field) names.

use vstd::prelude::*;

verus! {

/// What an environment offers under one (module, field) name: a host function or a memory.
pub enum ExternEntity<F, M> {
    /// A host function that guest code may import and call.
    Function(F),
    /// A linear memory that guest code may import and share with the host.
    Memory(M),
}

/// One registration of an environment: the entity and the name it is offered under.
pub struct EnvEntry<F, M> {
    pub module: Vec<u8>,
    pub field: Vec<u8>,
    pub entity: ExternEntity<F, M>,
}

/// The environment a sandboxed module is instantiated against: the host functions and
/// memories it may import, in the order they were registered.
///
/// Nothing is checked at registration; the same name may be registered several times,
/// and then the last registration is the one a lookup finds.
pub struct EnvironmentDefinitionBuilder<F, M> {
    entries: Vec<EnvEntry<F, M>>,
}

/// Whether registration `e` is offered under the name (`module`, `field`).
pub open spec fn entry_named<F, M>(
    e: (Seq<u8>, Seq<u8>, ExternEntity<F, M>),
    module: Seq<u8>,
    field: Seq<u8>,
) -> bool {
    e.0 == module && e.1 == field
}

/// The registration that a lookup of (`module`, `field`) in `entries` finds: the last one
/// under that name.
pub open spec fn last_named<F, M>(
    entries: Seq<(Seq<u8>, Seq<u8>, ExternEntity<F, M>)>,
    module: Seq<u8>,
    field: Seq<u8>,
) -> Option<int>
    decreases entries.len(),
{
    if entries.len() == 0 {
        None
    } else if entry_named(entries.last(), module, field) {
        Some(entries.len() - 1)
    } else {
        last_named(entries.drop_last(), module, field)
    }
}

/// A lookup of the name just registered finds that registration.
pub proof fn lemma_last_registration_wins<F, M>(
    entries: Seq<(Seq<u8>, Seq<u8>, ExternEntity<F, M>)>,
    module: Seq<u8>,
    field: Seq<u8>,
    entity: ExternEntity<F, M>,
)
    ensures
        last_named(entries.push((module, field, entity)), module, field) == Some(
            entries.len() as int,
        ),
{
}

/// Registering under one name leaves lookups of every other name as they were.
pub proof fn lemma_other_names_unaffected<F, M>(
    entries: Seq<(Seq<u8>, Seq<u8>, ExternEntity<F, M>)>,
    module: Seq<u8>,
    field: Seq<u8>,
    entity: ExternEntity<F, M>,
    other_module: Seq<u8>,
    other_field: Seq<u8>,
)
    requires
        module != other_module || field != other_field,
    ensures
        last_named(entries.push((module, field, entity)), other_module, other_field)
            == last_named(entries, other_module, other_field),
{
    assert(entries.push((module, field, entity)).drop_last() =~= entries);
}

/// Whether two byte strings are equal.
fn bytes_equal(a: &[u8], b: &[u8]) -> (r: bool)
    ensures
        r == (a@ == b@),
{
    if a.len() != b.len() {
        return false;
    }
    let mut i: usize = 0;
    while i < a.len()
        invariant
            a@.len() == b@.len(),
            0 <= i <= a@.len(),
            a@.subrange(0, i as int) == b@.subrange(0, i as int),
        decreases a@.len() - i,
    {
        if a[i] != b[i] {
            assert(a@[i as int] != b@[i as int]);
            return false;
        }
        assert(a@.subrange(0, i + 1) =~= a@.subrange(0, i as int).push(a@[i as int]));
        assert(b@.subrange(0, i + 1) =~= b@.subrange(0, i as int).push(b@[i as int]));
        i = i + 1;
    }
    assert(a@ =~= a@.subrange(0, i as int));
    assert(b@ =~= b@.subrange(0, i as int));
    true
}

/// A copy of a byte string.
fn copy_bytes(a: &[u8]) -> (r: Vec<u8>)
    ensures
        r@ == a@,
{
    let mut r: Vec<u8> = Vec::new();
    let mut i: usize = 0;
    while i < a.len()
        invariant
            0 <= i <= a@.len(),
            r@ == a@.subrange(0, i as int),
        decreases a@.len() - i,
    {
        r.push(a[i]);
        assert(r@ =~= a@.subrange(0, i + 1));
        i = i + 1;
    }
    assert(r@ =~= a@);
    r
}

impl<F, M> View for EnvironmentDefinitionBuilder<F, M> {
    type V = Seq<(Seq<u8>, Seq<u8>, ExternEntity<F, M>)>;

    closed spec fn view(&self) -> Self::V {
        self.entries@.map_values(|e: EnvEntry<F, M>| (e.module@, e.field@, e.entity))
    }
}

/// Defines the environment a sandboxed module is instantiated against: the guest can
/// reach only what was registered here.
pub trait SandboxEnvironmentBuilder<F, M>: Sized {
    /// The registrations made so far, in order: name and entity.
    spec fn registrations(&self) -> Seq<(Seq<u8>, Seq<u8>, ExternEntity<F, M>)>;

    /// An environment that offers nothing.
    fn new() -> (r: Self)
        ensures
            r.registrations() == Seq::<(Seq<u8>, Seq<u8>, ExternEntity<F, M>)>::empty(),
    ;

    /// Registers host function `f` under (`module`, `field`).
    ///
    /// Nothing constrains the signature an instance imports it with, and the same name
    /// may be registered again.
    fn add_host_func(&mut self, module: &[u8], field: &[u8], f: F)
        ensures
            final(self).registrations() == old(self).registrations().push(
                (module@, field@, ExternEntity::Function(f)),
            ),
    ;

    /// Registers memory `mem` under (`module`, `field`).
    fn add_memory(&mut self, module: &[u8], field: &[u8], mem: M)
        ensures
            final(self).registrations() == old(self).registrations().push(
                (module@, field@, ExternEntity::Memory(mem)),
            ),
    ;
}

impl<F, M> SandboxEnvironmentBuilder<F, M> for EnvironmentDefinitionBuilder<F, M> {
    open spec fn registrations(&self) -> Seq<(Seq<u8>, Seq<u8>, ExternEntity<F, M>)> {
        self@
    }

    fn new() -> (r: Self) {
        let r = EnvironmentDefinitionBuilder { entries: Vec::new() };
        assert(r@ =~= Seq::<(Seq<u8>, Seq<u8>, ExternEntity<F, M>)>::empty());
        r
    }

    fn add_host_func(&mut self, module: &[u8], field: &[u8], f: F) {
        self.add(module, field, ExternEntity::Function(f));
    }

    fn add_memory(&mut self, module: &[u8], field: &[u8], mem: M) {
        self.add(module, field, ExternEntity::Memory(mem));
    }
}

impl<F, M> EnvironmentDefinitionBuilder<F, M> {
    fn add(&mut self, module: &[u8], field: &[u8], entity: ExternEntity<F, M>)
        ensures
            final(self)@ == old(self)@.push((module@, field@, entity)),
    {
        let entry = EnvEntry { module: copy_bytes(module), field: copy_bytes(field), entity };
        self.entries.push(entry);
        assert(final(self)@ =~= old(self)@.push((module@, field@, entity)));
    }

    /// The number of registrations.
    pub fn len(&self) -> (r: usize)
        ensures
            r == self@.len(),
    {
        self.entries.len()
    }

    /// The index of the registration that an import of (`module`, `field`) resolves to:
    /// the last one under that name.
    pub fn resolve(&self, module: &[u8], field: &[u8]) -> (r: Option<usize>)
        ensures
            match r {
                Some(i) => last_named(self@, module@, field@) == Some(i as int),
                None => last_named(self@, module@, field@) is None,
            },
            r matches Some(i) ==> i < self@.len() && entry_named(self@[i as int], module@, field@),
            r is None ==> forall|j: int|
                0 <= j < self@.len() ==> !entry_named(#[trigger] self@[j], module@, field@),
    {
        let mut i: usize = self.entries.len();
        assert(self@.subrange(0, i as int) =~= self@);
        while i > 0
            invariant
                0 <= i <= self@.len(),
                self@.len() == self.entries@.len(),
                last_named(self@, module@, field@) == last_named(
                    self@.subrange(0, i as int),
                    module@,
                    field@,
                ),
                forall|j: int|
                    i <= j < self@.len() ==> !entry_named(#[trigger] self@[j], module@, field@),
            decreases i,
        {
            let e = &self.entries[i - 1];
            proof {
                let prefix = self@.subrange(0, i as int);
                assert(prefix.drop_last() =~= self@.subrange(0, i - 1));
                assert(prefix.last() == self@[i - 1]);
                assert(self@[i - 1] == (e.module@, e.field@, e.entity));
            }
            if bytes_equal(e.module.as_slice(), module) && bytes_equal(e.field.as_slice(), field) {
                return Some(i - 1);
            }
            i = i - 1;
        }
        assert(self@.subrange(0, 0) =~= Seq::<(Seq<u8>, Seq<u8>, ExternEntity<F, M>)>::empty());
        assert(self@.subrange(0, self@.len() as int) =~= self@);
        None
    }

    /// The host function registered at `index`, if that registration is a function.
    ///
    /// This is how a call of an imported function is dispatched to the host.
    pub fn host_func(&self, index: usize) -> (r: Option<&F>)
        ensures
            match r {
                Some(f) => index < self@.len() && self@[index as int].2 == ExternEntity::<
                    F,
                    M,
                >::Function(*f),
                None => index >= self@.len() || self@[index as int].2 is Memory,
            },
    {
        if index >= self.entries.len() {
            return None;
        }
        match &self.entries[index].entity {
            ExternEntity::Function(f) => Some(f),
            ExternEntity::Memory(_) => None,
        }
    }

    /// The memory registered at `index`, if that registration is a memory.
    pub fn memory(&self, index: usize) -> (r: Option<&M>)
        ensures
            match r {
                Some(m) => index < self@.len() && self@[index as int].2 == ExternEntity::<
                    F,
                    M,
                >::Memory(*m),
                None => index >= self@.len() || self@[index as int].2 is Function,
            },
    {
        if index >= self.entries.len() {
            return None;
        }
        match &self.entries[index].entity {
            ExternEntity::Function(_) => None,
            ExternEntity::Memory(m) => Some(m),
        }
    }

    /// The index of the host function that a function import of (`module`, `field`) links
    /// to: the last registration under that name, if it is a function.
    pub fn resolve_func(&self, module: &[u8], field: &[u8]) -> (r: Option<usize>)
        ensures
            match r {
                Some(i) => last_named(self@, module@, field@) == Some(i as int)
                    && self@[i as int].2 is Function,
                None => !(last_named(self@, module@, field@) matches Some(i) && self@[i].2 is Function),
            },
    {
        match self.resolve(module, field) {
            Some(i) => match self.host_func(i) {
                Some(_) => Some(i),
                None => None,
            },
            None => None,
        }
    }

    /// The memory that a memory import of (`module`, `field`) links to: the last
    /// registration under that name, if it is a memory.
    pub fn resolve_memory(&self, module: &[u8], field: &[u8]) -> (r: Option<&M>)
        ensures
            match r {
                Some(m) => last_named(self@, module@, field@) matches Some(i) && self@[i].2
                    == ExternEntity::<F, M>::Memory(*m),
                None => !(last_named(self@, module@, field@) matches Some(i) && self@[i].2 is Memory),
            },
    {
        match self.resolve(module, field) {
            Some(i) => self.memory(i),
            None => None,
        }
    }
}

} // verus!
