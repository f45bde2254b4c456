//! The table of host functions that the guest may import, keyed by
//! namespace and name. Each entry declares a scalar-only signature.
use vstd::prelude::*;

verus! {

/// The kinds of scalar that cross the call boundary.
#[derive(Clone, Copy, Debug, PartialEq, Eq, Structural)]
pub enum ScalarKind {
    I32,
    U32,
    I64,
    U64,
}

/// One importable host function: where the guest finds it, and its signature.
#[derive(Clone, Debug, PartialEq, Eq)]
pub struct HostFunctionDescriptor {
    pub namespace: String,
    pub name: String,
    pub params: Vec<ScalarKind>,
    pub result: Option<ScalarKind>,
}

/// Namespace, name, parameter kinds in order, and result kind.
pub type DescriptorView = (Seq<char>, Seq<char>, Seq<ScalarKind>, Option<ScalarKind>);

impl View for HostFunctionDescriptor {
    type V = DescriptorView;

    open spec fn view(&self) -> DescriptorView {
        (self.namespace@, self.name@, self.params@, self.result)
    }
}

/// The same namespace and the same name.
pub open spec fn same_key(a: DescriptorView, b: DescriptorView) -> bool {
    a.0 == b.0 && a.1 == b.1
}

/// No two entries share a namespace and a name.
pub open spec fn keys_unique(entries: Seq<DescriptorView>) -> bool {
    forall|i: int, j: int|
        0 <= i < j < entries.len() ==> !same_key(#[trigger] entries[i], #[trigger] entries[j])
}

/// Some entry has the namespace and the name of `d`.
pub open spec fn has_key(entries: Seq<DescriptorView>, d: DescriptorView) -> bool {
    exists|i: int| 0 <= i < entries.len() && same_key(#[trigger] entries[i], d)
}

/// Why a host function could not be registered.
#[derive(Clone, Copy, Debug, PartialEq, Eq, Structural)]
pub enum RegistryError {
    /// A function with this namespace and name is registered already.
    Duplicate,
}

/// Host functions in the order they were registered, keys unique.
#[derive(Clone, Debug)]
pub struct Registry {
    entries: Vec<HostFunctionDescriptor>,
}

impl View for Registry {
    type V = Seq<DescriptorView>;

    closed spec fn view(&self) -> Seq<DescriptorView> {
        self.entries@.map_values(|d: HostFunctionDescriptor| d@)
    }
}

impl Registry {
    /// The registry's invariant: unique keys.
    pub open spec fn wf(&self) -> bool {
        keys_unique(self@)
    }

    /// An empty registry.
    pub fn new() -> (r: Self)
        ensures
            r@ == Seq::<DescriptorView>::empty(),
            r.wf(),
    {
        let r = Registry { entries: Vec::new() };
        assert(r@ =~= Seq::<DescriptorView>::empty());
        r
    }

    /// The number of registered functions.
    pub fn len(&self) -> (r: usize)
        ensures
            r == self@.len(),
    {
        self.entries.len()
    }

    /// Whether a function with this namespace and name is registered.
    pub fn contains(&self, namespace: &String, name: &String) -> (r: bool)
        ensures
            r == has_key(self@, (namespace@, name@, Seq::empty(), None)),
    {
        let ghost key: DescriptorView = (namespace@, name@, Seq::empty(), None);
        let mut i: usize = 0;
        while i < self.entries.len()
            invariant
                i <= self.entries@.len(),
                key.0 == namespace@ && key.1 == name@,
                self@.len() == self.entries@.len(),
                forall|k: int| 0 <= k < i ==> !same_key(#[trigger] self@[k], key),
            decreases self.entries@.len() - i,
        {
            let e = &self.entries[i];
            assert(self@[i as int] == e@);
            let same_namespace = e.namespace.eq(namespace);
            let same_name = e.name.eq(name);
            if same_namespace && same_name {
                assert(same_key(self@[i as int], key));
                return true;
            }
            i = i + 1;
        }
        false
    }

    /// Adds `d`, unless a function with its namespace and name is there
    /// already: that is a configuration error and changes nothing.
    pub fn register(&mut self, d: HostFunctionDescriptor) -> (r: Result<(), RegistryError>)
        requires
            old(self).wf(),
        ensures
            final(self).wf(),
            has_key(old(self)@, d@) ==> r == Err::<(), RegistryError>(RegistryError::Duplicate)
                && final(self)@ == old(self)@,
            !has_key(old(self)@, d@) ==> r is Ok && final(self)@ == old(self)@.push(d@),
    {
        if self.contains(&d.namespace, &d.name) {
            assert forall|i: int| 0 <= i < self@.len() && same_key(
                #[trigger] self@[i],
                (d.namespace@, d.name@, Seq::empty(), None),
            ) implies same_key(self@[i], d@) by {}
            return Err(RegistryError::Duplicate);
        }
        assert forall|i: int| 0 <= i < self@.len() implies !same_key(#[trigger] self@[i], d@) by {
            assert(!same_key(self@[i], (d.namespace@, d.name@, Seq::empty(), None)));
        }
        let ghost before = self@;
        self.entries.push(d);
        assert(self@ =~= before.push(d@));
        Ok(())
    }
}

/// The host functions that the guest imports, all in the `env` namespace:
/// two text printers taking a pointer and a length, the shared counter's
/// increment, and the failure report taking six scalars.
pub open spec fn standard_table() -> Seq<DescriptorView> {
    let u = ScalarKind::U32;
    seq![
        ("env"@, "print_str"@, seq![u, u], None),
        ("env"@, "print_str2"@, seq![u, u], None),
        ("env"@, "increment_shared"@, Seq::empty(), None),
        ("env"@, "register_panic"@, seq![u, u, u, u, u, u], None),
    ]
}

fn descriptor(namespace: &str, name: &str, params: Vec<ScalarKind>) -> (r: HostFunctionDescriptor)
    ensures
        r@ == (namespace@, name@, params@, None::<ScalarKind>),
{
    HostFunctionDescriptor {
        namespace: String::from_str(namespace),
        name: String::from_str(name),
        params,
        result: None,
    }
}

impl Registry {
    /// The registry of the host functions that the guest imports: see
    /// `standard_table`.
    pub fn standard() -> (r: Self)
        ensures
            r@ == standard_table(),
            r.wf(),
    {
        proof {
            reveal_strlit("print_str");
            reveal_strlit("print_str2");
            reveal_strlit("increment_shared");
            reveal_strlit("register_panic");
        }
        let u = ScalarKind::U32;
        let entries = vec![
            descriptor("env", "print_str", vec![u, u]),
            descriptor("env", "print_str2", vec![u, u]),
            descriptor("env", "increment_shared", Vec::new()),
            descriptor("env", "register_panic", vec![u, u, u, u, u, u]),
        ];
        let r = Registry { entries };
        assert(r@ =~= standard_table()) by {
            assert(seq![u, u] =~= seq![u, u]);
        }
        let ghost t = standard_table();
        assert(t[0].1.len() == 9 && t[1].1.len() == 10 && t[2].1.len() == 16 && t[3].1.len()
            == 14);
        assert(keys_unique(t));
        r
    }
}

} // verus!
