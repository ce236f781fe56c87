//! Uniform slot declarations, bound uniform values, and the name-keyed
//! collections that hold them.
//!
//! Scalars are kept as IEEE-754 `f32` bit patterns (`f32::to_bits`), which
//! gives them a total order and hashing, NaNs included.
use vstd::prelude::*;

verus! {

/// The shape of a uniform slot before any value exists.
#[derive(Clone, Debug)]
pub enum UniformDef {
    /// A 32-bit float, with an optional default given as its bit pattern.
    F32(Option<u32>),
    /// A type of the declaration language, named by `wgsl_decl`, with
    /// optional raw default bytes of the same layout.
    Custom { default_data: Option<Vec<u8>>, wgsl_decl: String },
}

/// What a [`UniformDef`] holds, as mathematical values.
pub enum UniformDefView {
    F32(Option<u32>),
    Custom { default_data: Option<Seq<u8>>, wgsl_decl: Seq<char> },
}

impl View for UniformDef {
    type V = UniformDefView;

    open spec fn view(&self) -> UniformDefView {
        match self {
            UniformDef::F32(d) => UniformDefView::F32(*d),
            UniformDef::Custom { default_data, wgsl_decl } => UniformDefView::Custom {
                default_data: match default_data {
                    Some(b) => Some(b@),
                    None => None,
                },
                wgsl_decl: wgsl_decl@,
            },
        }
    }
}

/// The declaration-language type token of a slot: `f32` for a float, the
/// stored declaration verbatim for a custom type.
pub open spec fn wgsl_type(d: UniformDefView) -> Seq<char> {
    match d {
        UniformDefView::F32(_) => "f32"@,
        UniformDefView::Custom { wgsl_decl, .. } => wgsl_decl,
    }
}

impl UniformDef {
    /// The declaration-language type token of this slot.
    pub fn to_wgsl(&self) -> (r: &str)
        ensures
            r@ == wgsl_type(self@),
    {
        match self {
            UniformDef::F32(_) => "f32",
            UniformDef::Custom { wgsl_decl, .. } => wgsl_decl.as_str(),
        }
    }
}

/// A uniform slot description whose default is always given.
#[derive(Clone, Debug)]
pub enum UniformDesc {
    /// A 32-bit float default, as its bit pattern.
    F32(u32),
    Custom { default_data: Vec<u8>, wgsl_decl: String },
}

impl UniformDesc {
    /// The same slot as a [`UniformDef`], with its default present.
    pub fn into_def(self) -> (r: UniformDef)
        ensures
            r@ == match self {
                UniformDesc::F32(v) => UniformDefView::F32(Some(v)),
                UniformDesc::Custom { default_data, wgsl_decl } => UniformDefView::Custom {
                    default_data: Some(default_data@),
                    wgsl_decl: wgsl_decl@,
                },
            },
    {
        match self {
            UniformDesc::F32(v) => UniformDef::F32(Some(v)),
            UniformDesc::Custom { default_data, wgsl_decl } => UniformDef::Custom {
                default_data: Some(default_data),
                wgsl_decl,
            },
        }
    }
}

/// A runtime value for one uniform slot.
#[derive(Clone, Debug, PartialEq, Eq, Hash)]
pub enum Uniform {
    /// A 32-bit float, as its bit pattern.
    F32(u32),
    /// Raw bytes of a custom type.
    Custom(Vec<u8>),
}

/// What a [`Uniform`] holds, as mathematical values.
pub enum UniformView {
    F32(u32),
    Custom(Seq<u8>),
}

impl View for Uniform {
    type V = UniformView;

    open spec fn view(&self) -> UniformView {
        match self {
            Uniform::F32(v) => UniformView::F32(*v),
            Uniform::Custom(b) => UniformView::Custom(b@),
        }
    }
}

impl Uniform {
    /// A copy of this value.
    pub fn duplicate(&self) -> (r: Uniform)
        ensures
            r@ == self@,
    {
        match self {
            Uniform::F32(v) => Uniform::F32(*v),
            Uniform::Custom(b) => Uniform::Custom(b.clone()),
        }
    }
}

/// `i` is the first position of `entries` that holds `name`.
pub open spec fn first_with_name<V>(entries: Seq<(Seq<char>, V)>, name: Seq<char>, i: int) -> bool {
    &&& 0 <= i < entries.len()
    &&& entries[i].0 == name
    &&& forall|j: int| 0 <= j < i ==> entries[j].0 != name
}

/// `entries` with the value under `name` replaced, or with `(name, value)`
/// appended when no entry has that name.
pub open spec fn insert_entry<V>(entries: Seq<(Seq<char>, V)>, name: Seq<char>, value: V) -> Seq<(Seq<char>, V)> {
    if exists|i: int| first_with_name(entries, name, i) {
        let i = choose|i: int| first_with_name(entries, name, i);
        entries.update(i, (name, value))
    } else {
        entries.push((name, value))
    }
}

/// No two entries share a name.
pub open spec fn names_unique<V>(entries: Seq<(Seq<char>, V)>) -> bool {
    forall|i: int, j: int|
        0 <= i < j < entries.len() ==> #[trigger] entries[i].0 != #[trigger] entries[j].0
}

/// Uniform slot declarations by name.
pub type UniformDefs = NamedMap<UniformDef>;

/// Uniform values by name.
pub type Uniforms = NamedMap<Uniform>;

/// A mapping from names to values that keeps the order in which names were
/// first inserted. That order is the iteration order, so anything derived by
/// walking the map is the same on every run.
#[derive(Clone, Debug, PartialEq, Eq)]
pub struct NamedMap<V: View> {
    entries: Vec<(String, V)>,
}

impl<V: View> View for NamedMap<V> {
    type V = Seq<(Seq<char>, V::V)>;

    closed spec fn view(&self) -> Seq<(Seq<char>, V::V)> {
        self.entries@.map_values(|e: (String, V)| (e.0@, e.1@))
    }
}

impl<V: View> NamedMap<V> {
    /// An empty mapping.
    pub fn new() -> (r: NamedMap<V>)
        ensures
            r@ == Seq::<(Seq<char>, V::V)>::empty(),
    {
        let r = NamedMap { entries: Vec::new() };
        assert(r@ =~= Seq::<(Seq<char>, V::V)>::empty());
        r
    }

    /// The number of names.
    pub fn len(&self) -> (r: usize)
        ensures
            r == self@.len(),
    {
        self.entries.len()
    }

    /// The name and the value at position `i`, in insertion order.
    pub fn entry(&self, i: usize) -> (r: (&str, &V))
        requires
            i < self@.len(),
        ensures
            r.0@ == self@[i as int].0,
            r.1@ == self@[i as int].1,
    {
        let e = &self.entries[i];
        (e.0.as_str(), &e.1)
    }

    fn find(&self, name: &str) -> (r: Option<usize>)
        ensures
            match r {
                Some(i) => first_with_name(self@, name@, i as int),
                None => forall|i: int| 0 <= i < self@.len() ==> self@[i].0 != name@,
            },
    {
        let key = String::from_str(name);
        let mut i: usize = 0;
        while i < self.entries.len()
            invariant
                i <= self.entries.len(),
                key@ == name@,
                forall|j: int| 0 <= j < i ==> self@[j].0 != name@,
            decreases self.entries.len() - i,
        {
            if self.entries[i].0 == key {
                return Some(i);
            }
            i = i + 1;
        }
        None
    }

    /// The value stored under `name`, if any.
    pub fn get(&self, name: &str) -> (r: Option<&V>)
        ensures
            match r {
                Some(v) => exists|i: int| first_with_name(self@, name@, i) && self@[i].1 == v@,
                None => forall|i: int| 0 <= i < self@.len() ==> self@[i].0 != name@,
            },
    {
        match self.find(name) {
            Some(i) => Some(&self.entries[i].1),
            None => None,
        }
    }

    /// Stores `value` under `name`, replacing the value already there.
    pub fn insert(&mut self, name: &str, value: V)
        ensures
            final(self)@ == insert_entry(old(self)@, name@, value@),
            names_unique(old(self)@) ==> names_unique(final(self)@),
    {
        let ghost v = value@;
        let key = String::from_str(name);
        match self.find(name) {
            Some(i) => {
                self.entries.set(i, (key, value));
                assert(self@ =~= old(self)@.update(i as int, (name@, v)));
                assert forall|j: int| #![auto] first_with_name(old(self)@, name@, j) implies j == i by {
                    if j < i {
                    } else if j > i {
                    }
                }
            },
            None => {
                self.entries.push((key, value));
                assert(self@ =~= old(self)@.push((name@, v)));
            },
        }
    }
}

impl NamedMap<Uniform> {
    /// A copy of these values.
    pub fn duplicate(&self) -> (r: NamedMap<Uniform>)
        ensures
            r@ == self@,
    {
        let mut entries: Vec<(String, Uniform)> = Vec::new();
        let mut i: usize = 0;
        while i < self.entries.len()
            invariant
                i <= self.entries.len(),
                entries@.map_values(|e: (String, Uniform)| (e.0@, e.1@)) =~= self@.take(i as int),
            decreases self.entries.len() - i,
        {
            let e = &self.entries[i];
            entries.push((e.0.clone(), e.1.duplicate()));
            assert(self@.take(i + 1) =~= self@.take(i as int).push(self@[i as int]));
            i = i + 1;
        }
        let r = NamedMap { entries };
        assert(self@.take(i as int) =~= self@);
        r
    }
}

} // verus!
