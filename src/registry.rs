//! The shader registry: shader records keyed by their ids, and the binding
//! declarations that are prepended to each shader's body.
use vstd::prelude::*;

use crate::ids::{gen_shader_id, IdAllocator, ShaderId};
use crate::text::{decimal, push_decimal};
use crate::uniforms::{wgsl_type, UniformDefView, UniformDefs};

verus! {

broadcast use vstd::std_specs::hash::group_hash_axioms;

/// A registered shader. Records are never changed once created.
#[derive(Clone, Debug)]
pub struct Shader {
    pub id: ShaderId,
    /// Display name, `"<name> Shader"`.
    pub name: String,
    /// The binding declarations, a newline, then the caller's body text.
    pub source: String,
    /// The declarations the binding text was generated from.
    pub uniform_defs: UniformDefs,
}

/// The one error of the registry.
#[derive(Clone, Debug)]
pub enum ShaderError {
    CompileError(String),
}

/// Shader records by the number of their id.
pub struct ShaderMap {
    shaders: std::collections::HashMap<u64, Shader>,
}

impl View for ShaderMap {
    type V = Map<u64, Shader>;

    closed spec fn view(&self) -> Map<u64, Shader> {
        self.shaders@
    }
}

/// Every record is stored under the number of its own id.
pub open spec fn keys_match_ids(m: Map<u64, Shader>) -> bool {
    forall|k: u64| #[trigger] m.contains_key(k) ==> m[k].id.0 == k
}

/// The declaration of binding slot `index` as a uniform named `name` of type
/// `ty`.
pub open spec fn binding_decl(index: nat, name: Seq<char>, ty: Seq<char>) -> Seq<char> {
    "\n            @group(3) @binding("@ + decimal(index) + ")\n            var<uniform> "@ + name
        + ": "@ + ty + ";\n                "@
}

/// The binding declarations of `defs`: the `i`-th slot is bound at index `i`.
pub open spec fn declarations(defs: Seq<(Seq<char>, UniformDefView)>) -> Seq<char>
    decreases defs.len(),
{
    if defs.len() == 0 {
        Seq::empty()
    } else {
        let last = defs.last();
        declarations(defs.drop_last()) + binding_decl(
            (defs.len() - 1) as nat,
            last.0,
            wgsl_type(last.1),
        )
    }
}

/// A full shader source: the declarations, a newline, then the body.
pub open spec fn shader_source(defs: Seq<(Seq<char>, UniformDefView)>, body: Seq<char>) -> Seq<char> {
    declarations(defs) + "\n"@ + body
}

/// The message of the error for a shader named `name`.
pub open spec fn duplicate_message(name: Seq<char>) -> Seq<char> {
    "Shader with name '"@ + name + "' already exists"@
}

/// `s` is the record that registering `name` with `body` and `defs` under
/// `id` produces.
pub open spec fn built_shader(
    s: Shader,
    id: u64,
    name: Seq<char>,
    body: Seq<char>,
    defs: Seq<(Seq<char>, UniformDefView)>,
) -> bool {
    &&& s.id == ShaderId(id)
    &&& s.name@ == name + " Shader"@
    &&& s.source@ == shader_source(defs, body)
    &&& s.uniform_defs@ == defs
}

/// One successful registration took the registry from `pre` to `post` and
/// the allocator from `pre_ids` to `post_ids`, and returned `id`.
pub open spec fn shader_created(
    pre: Map<u64, Shader>,
    pre_ids: IdAllocator,
    post: Map<u64, Shader>,
    post_ids: IdAllocator,
    id: ShaderId,
    name: Seq<char>,
    body: Seq<char>,
    defs: Seq<(Seq<char>, UniformDefView)>,
) -> bool {
    &&& id.0 == pre_ids.next_shader()
    &&& post_ids.next_shader() == pre_ids.next_shader() + 1
    &&& post_ids.next_render_target() == pre_ids.next_render_target()
    &&& !pre.contains_key(id.0)
    &&& post == pre.insert(id.0, post[id.0])
    &&& built_shader(post[id.0], id.0, name, body, defs)
}

impl ShaderMap {
    /// An empty registry.
    pub fn new() -> (r: ShaderMap)
        ensures
            r@ == Map::<u64, Shader>::empty(),
    {
        ShaderMap { shaders: std::collections::HashMap::new() }
    }

    /// The record registered under `id`, if any.
    pub fn get(&self, id: ShaderId) -> (r: Option<&Shader>)
        ensures
            match r {
                Some(s) => self@.contains_key(id.0) && *s == self@[id.0],
                None => !self@.contains_key(id.0),
            },
    {
        self.shaders.get(&id.0)
    }

    /// The number of registered shaders.
    pub fn len(&self) -> (r: usize)
        ensures
            r == self@.len(),
    {
        self.shaders.len()
    }
}

fn push_binding(out: &mut String, index: usize, name: &str, ty: &str)
    ensures
        final(out)@ == old(out)@ + binding_decl(index as nat, name@, ty@),
{
    out.append("\n            @group(3) @binding(");
    push_decimal(out, index as u64);
    out.append(")\n            var<uniform> ");
    out.append(name);
    out.append(": ");
    out.append(ty);
    out.append(";\n                ");
    assert(final(out)@ =~= old(out)@ + binding_decl(index as nat, name@, ty@));
}

/// The binding declarations for `defs`, one per slot, bound at the slot's
/// position in `defs`.
pub fn uniform_declarations(defs: &UniformDefs) -> (r: String)
    ensures
        r@ == declarations(defs@),
{
    let mut out = String::new();
    let n = defs.len();
    let mut i: usize = 0;
    while i < n
        invariant
            n == defs@.len(),
            i <= n,
            out@ == declarations(defs@.subrange(0, i as int)),
        decreases n - i,
    {
        let (name, def) = defs.entry(i);
        push_binding(&mut out, i, name, def.to_wgsl());
        proof {
            let next = defs@.subrange(0, i + 1);
            assert(next.drop_last() =~= defs@.subrange(0, i as int));
        }
        i = i + 1;
    }
    assert(defs@.subrange(0, n as int) =~= defs@);
    out
}

/// Registers a shader under a freshly allocated id. Its source is the
/// binding declarations generated from `uniform_defs`, a newline, and
/// `source`; its display name is `"<name> Shader"`.
///
/// The id is drawn from `ids` first. If the registry already holds a record
/// under it (records from another allocator), nothing is stored and a
/// `CompileError` naming `name` is returned.
pub fn create_shader(
    shaders: &mut ShaderMap,
    ids: &mut IdAllocator,
    name: &str,
    source: &str,
    uniform_defs: UniformDefs,
) -> (r: Result<ShaderId, ShaderError>)
    requires
        old(ids).next_shader() < u64::MAX,
    ensures
        final(ids).next_shader() == old(ids).next_shader() + 1,
        final(ids).next_render_target() == old(ids).next_render_target(),
        old(shaders)@.contains_key(old(ids).next_shader() as u64) ==> {
            &&& r matches Err(ShaderError::CompileError(m)) && m@ == duplicate_message(name@)
            &&& final(shaders)@ == old(shaders)@
        },
        !old(shaders)@.contains_key(old(ids).next_shader() as u64) ==> {
            &&& r == Ok::<ShaderId, ShaderError>(ShaderId(old(ids).next_shader() as u64))
            &&& shader_created(
                old(shaders)@,
                *old(ids),
                final(shaders)@,
                *final(ids),
                ShaderId(old(ids).next_shader() as u64),
                name@,
                source@,
                uniform_defs@,
            )
        },
        keys_match_ids(old(shaders)@) ==> keys_match_ids(final(shaders)@),
{
    let id = gen_shader_id(ids);
    if shaders.shaders.contains_key(&id.0) {
        let mut message = String::from_str("Shader with name '");
        message.append(name);
        message.append("' already exists");
        return Err(ShaderError::CompileError(message));
    }
    let mut full = uniform_declarations(&uniform_defs);
    full.append("\n");
    full.append(source);
    let mut display = String::from_str(name);
    display.append(" Shader");
    shaders.shaders.insert(id.0, Shader { id, name: display, source: full, uniform_defs });
    Ok(id)
}

/// Every slot of `defs` has its own line in the generated declarations:
/// slot `i` is bound at index `i`, under its own name and with its own type
/// token, and the lines stand in slot order.
pub proof fn lemma_declarations_cover_slots(defs: Seq<(Seq<char>, UniformDefView)>, i: int)
    requires
        0 <= i < defs.len(),
    ensures
        exists|before: Seq<char>, after: Seq<char>|
            declarations(defs) == #[trigger] (before + binding_decl(
                i as nat,
                defs[i].0,
                wgsl_type(defs[i].1),
            ) + after),
    decreases defs.len(),
{
    let line = binding_decl(i as nat, defs[i].0, wgsl_type(defs[i].1));
    if i == defs.len() - 1 {
        let before = declarations(defs.drop_last());
        assert(declarations(defs) == before + line + Seq::<char>::empty());
    } else {
        let prev = defs.drop_last();
        assert(prev[i] == defs[i]);
        lemma_declarations_cover_slots(prev, i);
        let (before, after) = choose|before: Seq<char>, after: Seq<char>|
            declarations(prev) == #[trigger] (before + line + after);
        let last = defs.last();
        let tail = binding_decl((defs.len() - 1) as nat, last.0, wgsl_type(last.1));
        assert(declarations(defs) =~= before + line + (after + tail));
    }
}

/// Two shaders registered one after the other in the same registry get
/// distinct ids, and both records can be looked up afterwards. Each
/// record's source is built from its own declarations and body alone, so
/// neither is touched by the other's body.
pub proof fn lemma_registry_isolation(
    m0: Map<u64, Shader>,
    ids0: IdAllocator,
    m1: Map<u64, Shader>,
    ids1: IdAllocator,
    m2: Map<u64, Shader>,
    ids2: IdAllocator,
    a: ShaderId,
    name_a: Seq<char>,
    body_a: Seq<char>,
    defs_a: Seq<(Seq<char>, UniformDefView)>,
    b: ShaderId,
    name_b: Seq<char>,
    body_b: Seq<char>,
    defs_b: Seq<(Seq<char>, UniformDefView)>,
)
    requires
        shader_created(m0, ids0, m1, ids1, a, name_a, body_a, defs_a),
        shader_created(m1, ids1, m2, ids2, b, name_b, body_b, defs_b),
    ensures
        a != b,
        m2.contains_key(a.0),
        m2.contains_key(b.0),
        built_shader(m2[a.0], a.0, name_a, body_a, defs_a),
        built_shader(m2[b.0], b.0, name_b, body_b, defs_b),
        m2[a.0].source@ == shader_source(defs_a, body_a),
        m2[b.0].source@ == shader_source(defs_b, body_b),
{
    assert(m1.contains_key(a.0));
    assert(m2[a.0] == m1[a.0]);
}

} // verus!
