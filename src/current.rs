//! The shader bound for upcoming draws, with its per-instance uniform
//! overrides.
use vstd::prelude::*;

use crate::ids::ShaderId;
use crate::uniforms::{insert_entry, Uniform, UniformView, Uniforms};

verus! {

/// A shader together with uniform values that override its defaults. An
/// instance is not checked against any registry.
#[derive(Clone, Debug, PartialEq, Eq)]
pub struct ShaderInstance {
    pub id: ShaderId,
    pub uniforms: Uniforms,
}

/// What a [`ShaderInstance`] holds, as mathematical values.
pub struct InstanceView {
    pub id: ShaderId,
    pub uniforms: Seq<(Seq<char>, UniformView)>,
}

impl View for ShaderInstance {
    type V = InstanceView;

    open spec fn view(&self) -> InstanceView {
        InstanceView { id: self.id, uniforms: self.uniforms@ }
    }
}

/// The current binding: an instance, or none for the default shader.
pub struct CurrentShader {
    current: Option<ShaderInstance>,
}

impl View for CurrentShader {
    type V = Option<InstanceView>;

    closed spec fn view(&self) -> Option<InstanceView> {
        match self.current {
            Some(inst) => Some(inst@),
            None => None,
        }
    }
}

/// The binding after `set_shader(id)`: that shader, with no overrides.
pub open spec fn after_set_shader(state: Option<InstanceView>, id: ShaderId) -> Option<InstanceView> {
    Some(InstanceView { id, uniforms: Seq::empty() })
}

/// The binding after `set_default_shader()`: none.
pub open spec fn after_set_default_shader(state: Option<InstanceView>) -> Option<InstanceView> {
    None
}

/// The binding after `set_uniform(name, value)`: the override is recorded on
/// the bound instance; with nothing bound, nothing changes.
pub open spec fn after_set_uniform(
    state: Option<InstanceView>,
    name: Seq<char>,
    value: UniformView,
) -> Option<InstanceView> {
    match state {
        Some(inst) => Some(
            InstanceView { id: inst.id, uniforms: insert_entry(inst.uniforms, name, value) },
        ),
        None => None,
    }
}

impl CurrentShader {
    /// A context with nothing bound.
    pub fn new() -> (r: CurrentShader)
        ensures
            r@ == None::<InstanceView>,
    {
        CurrentShader { current: None }
    }
}

/// Binds `shader_id` with no uniform overrides, discarding whatever was
/// bound before together with its overrides.
pub fn set_shader(current: &mut CurrentShader, shader_id: ShaderId)
    ensures
        final(current)@ == after_set_shader(old(current)@, shader_id),
{
    current.current = Some(ShaderInstance { id: shader_id, uniforms: Uniforms::new() });
}

/// Unbinds any shader, so that draws use the default one.
pub fn set_default_shader(current: &mut CurrentShader)
    ensures
        final(current)@ == after_set_default_shader(old(current)@),
{
    current.current = None;
}

/// A copy of the current binding.
pub fn get_current_shader(current: &CurrentShader) -> (r: Option<ShaderInstance>)
    ensures
        match r {
            Some(inst) => current@ == Some(inst@),
            None => current@ == None::<InstanceView>,
        },
{
    match &current.current {
        Some(inst) => Some(ShaderInstance { id: inst.id, uniforms: inst.uniforms.duplicate() }),
        None => None,
    }
}

/// Records `value` as the override of the uniform `name` on the bound
/// instance, replacing an earlier override of that name. With nothing bound
/// there is nothing to attach it to, and the call changes nothing.
pub fn set_uniform(current: &mut CurrentShader, name: &str, value: Uniform)
    ensures
        final(current)@ == after_set_uniform(old(current)@, name@, value@),
{
    match &mut current.current {
        Some(inst) => {
            inst.uniforms.insert(name, value);
        },
        None => {},
    }
}

/// Binding a shader and reading the binding back gives that shader with no
/// overrides, whatever was bound before; binding the default shader after
/// it leaves nothing bound.
pub proof fn lemma_current_shader_round_trip(state: Option<InstanceView>, id: ShaderId)
    ensures
        after_set_shader(state, id) matches Some(inst) && inst.id == id && inst.uniforms.len() == 0,
        after_set_default_shader(after_set_shader(state, id)) is None,
{
}

/// Binding the default shader twice is the same as binding it once: nothing
/// is bound either way.
pub proof fn lemma_set_default_shader_idempotent(state: Option<InstanceView>)
    ensures
        after_set_default_shader(after_set_default_shader(state)) == after_set_default_shader(state),
        after_set_default_shader(state) is None,
{
}

} // verus!
