//! Identifier allocation for shaders and render targets.
use vstd::prelude::*;

use crate::text::{decimal, push_decimal};

verus! {

/// Opaque handle to a shader. The number is exposed for debugging; a handle
/// made by hand is not known to any registry.
#[derive(Copy, Clone, Debug, PartialEq, Eq, Hash, Structural)]
pub struct ShaderId(pub u64);

impl ShaderId {
    /// The handle as text, `ShaderId(<n>)`.
    pub fn to_string(&self) -> (r: String)
        ensures
            r@ == "ShaderId("@ + decimal(self.0 as nat) + ")"@,
    {
        let mut s = String::from_str("ShaderId(");
        push_decimal(&mut s, self.0);
        s.append(")");
        s
    }
}

/// A render target: one named by the caller, or one handed out by an
/// [`IdAllocator`].
#[derive(Clone, Debug)]
pub enum RenderTargetId {
    Named(String),
    Generated(u64),
}

/// The two monotonic counters from which shader ids and render target ids
/// are drawn. Each counter starts at 0 and only grows, so no value is handed
/// out twice by one allocator.
pub struct IdAllocator {
    next_shader: u64,
    next_render_target: u64,
}

impl IdAllocator {
    /// The value the next shader id will carry.
    pub closed spec fn next_shader(&self) -> nat {
        self.next_shader as nat
    }

    /// The value the next generated render target will carry.
    pub closed spec fn next_render_target(&self) -> nat {
        self.next_render_target as nat
    }

    /// An allocator that has handed out nothing yet.
    pub fn new() -> (r: IdAllocator)
        ensures
            r.next_shader() == 0,
            r.next_render_target() == 0,
    {
        IdAllocator { next_shader: 0, next_render_target: 0 }
    }

    /// Whether another shader id can be handed out (the counter is not
    /// exhausted).
    pub fn can_gen_shader_id(&self) -> (r: bool)
        ensures
            r == (self.next_shader() < u64::MAX),
    {
        self.next_shader < u64::MAX
    }

    /// Whether another render target id can be handed out.
    pub fn can_gen_render_target(&self) -> (r: bool)
        ensures
            r == (self.next_render_target() < u64::MAX),
    {
        self.next_render_target < u64::MAX
    }
}

/// One shader-id allocation took the allocator from `pre` to `post` and
/// handed out `id`.
pub open spec fn shader_id_step(pre: IdAllocator, post: IdAllocator, id: ShaderId) -> bool {
    &&& id.0 == pre.next_shader()
    &&& post.next_shader() == pre.next_shader() + 1
    &&& post.next_render_target() == pre.next_render_target()
}

/// One render-target allocation took the allocator from `pre` to `post` and
/// handed out `target`.
pub open spec fn render_target_step(
    pre: IdAllocator,
    post: IdAllocator,
    target: RenderTargetId,
) -> bool {
    &&& target == RenderTargetId::Generated(pre.next_render_target() as u64)
    &&& post.next_render_target() == pre.next_render_target() + 1
    &&& post.next_shader() == pre.next_shader()
}

/// Hands out a fresh shader id: the current counter value, which is then
/// advanced.
pub fn gen_shader_id(ids: &mut IdAllocator) -> (r: ShaderId)
    requires
        old(ids).next_shader() < u64::MAX,
    ensures
        r.0 == old(ids).next_shader(),
        final(ids).next_shader() == old(ids).next_shader() + 1,
        final(ids).next_render_target() == old(ids).next_render_target(),
{
    let id = ids.next_shader;
    ids.next_shader = id + 1;
    ShaderId(id)
}

/// Allocates a render target for later use and returns it as
/// `Generated(n)`, with `n` the current counter value, which is then
/// advanced. The label is accepted for a debug name that nothing shows yet.
pub fn gen_render_target(ids: &mut IdAllocator, _label: Option<&str>) -> (r: RenderTargetId)
    requires
        old(ids).next_render_target() < u64::MAX,
    ensures
        r == RenderTargetId::Generated(old(ids).next_render_target() as u64),
        final(ids).next_render_target() == old(ids).next_render_target() + 1,
        final(ids).next_shader() == old(ids).next_shader(),
{
    let id = ids.next_render_target;
    ids.next_render_target = id + 1;
    RenderTargetId::Generated(id)
}

/// Any run of shader-id allocations on one allocator, in whatever order its
/// callers were served, hands out pairwise distinct ids, and they are exactly
/// the counter values it went through: the `i`-th is the starting value
/// plus `i`.
pub proof fn lemma_shader_ids_unique(states: Seq<IdAllocator>, ids: Seq<ShaderId>)
    requires
        states.len() == ids.len() + 1,
        forall|i: int| 0 <= i < ids.len() ==> shader_id_step(states[i], states[i + 1], #[trigger] ids[i]),
    ensures
        forall|i: int| 0 <= i < ids.len() ==> #[trigger] ids[i].0 == states[0].next_shader() + i,
        states[ids.len() as int].next_shader() == states[0].next_shader() + ids.len(),
        forall|i: int, j: int| 0 <= i < j < ids.len() ==> ids[i] != ids[j],
    decreases ids.len(),
{
    if ids.len() > 0 {
        let n = ids.len() - 1;
        lemma_shader_ids_unique(states.drop_last(), ids.drop_last());
        assert(shader_id_step(states[n as int], states[n + 1], ids[n as int]));
        assert forall|i: int| 0 <= i < ids.len() implies #[trigger] ids[i].0 == states[0].next_shader() + i by {
            if i < n {
                assert(ids.drop_last()[i] == ids[i]);
            }
        }
    }
}

/// Successive render-target allocations on one allocator yield strictly
/// increasing `Generated` values.
pub proof fn lemma_render_targets_increase(states: Seq<IdAllocator>, targets: Seq<RenderTargetId>)
    requires
        states.len() == targets.len() + 1,
        forall|i: int| 0 <= i < targets.len() ==> render_target_step(states[i], states[i + 1], #[trigger] targets[i]),
    ensures
        forall|i: int| 0 <= i < targets.len() ==> #[trigger] targets[i] is Generated,
        forall|i: int, j: int| 0 <= i < j < targets.len() ==>
            #[trigger] targets[i]->Generated_0 < #[trigger] targets[j]->Generated_0,
{
    lemma_render_target_counter(states, targets);
}

proof fn lemma_render_target_counter(states: Seq<IdAllocator>, targets: Seq<RenderTargetId>)
    requires
        states.len() == targets.len() + 1,
        forall|i: int| 0 <= i < targets.len() ==> render_target_step(states[i], states[i + 1], #[trigger] targets[i]),
    ensures
        forall|i: int| 0 <= i < targets.len() ==>
            #[trigger] targets[i] == RenderTargetId::Generated((states[0].next_render_target() + i) as u64),
        forall|i: int| 0 <= i < states.len() ==>
            #[trigger] states[i].next_render_target() == states[0].next_render_target() + i,
    decreases targets.len(),
{
    if targets.len() > 0 {
        let n = targets.len() - 1;
        let ps = states.drop_last();
        let pt = targets.drop_last();
        lemma_render_target_counter(ps, pt);
        assert(ps[0] == states[0]);
        assert(ps[n as int] == states[n as int]);
        assert(render_target_step(states[n as int], states[n + 1], targets[n as int]));
        assert forall|i: int| 0 <= i < states.len() implies
            #[trigger] states[i].next_render_target() == states[0].next_render_target() + i by {
            if i <= n {
                assert(ps[i] == states[i]);
            }
        }
        assert forall|i: int| 0 <= i < targets.len() implies
            #[trigger] targets[i] == RenderTargetId::Generated((states[0].next_render_target() + i) as u64) by {
            if i < n {
                assert(pt[i] == targets[i]);
            }
        }
    }
}

} // verus!
