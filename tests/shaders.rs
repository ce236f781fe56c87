use comfy_shaders::text::push_decimal;
use comfy_shaders::{
    create_shader, gen_render_target, gen_shader_id, get_current_shader, set_default_shader,
    set_shader, set_uniform, uniform_declarations, CurrentShader, IdAllocator, NamedMap,
    RenderTargetId, ShaderError, ShaderId, ShaderMap, Uniform, UniformDef, UniformDefs,
    UniformDesc,
};

fn binding(index: usize, name: &str, ty: &str) -> String {
    format!(
        "\n            @group(3) @binding({})\n            var<uniform> {}: {};\n                ",
        index, name, ty
    )
}

fn custom(decl: &str) -> UniformDef {
    UniformDef::Custom { default_data: None, wgsl_decl: decl.to_string() }
}

#[test]
fn shader_ids_are_distinct_and_sequential() {
    let mut ids = IdAllocator::new();
    let got: Vec<u64> = (0..100).map(|_| gen_shader_id(&mut ids).0).collect();
    let expected: Vec<u64> = (0..100).collect();
    assert_eq!(got, expected);
    let mut sorted = got.clone();
    sorted.dedup();
    assert_eq!(sorted.len(), 100);
}

#[test]
fn shader_and_render_target_counters_are_independent() {
    let mut ids = IdAllocator::new();
    assert_eq!(gen_shader_id(&mut ids), ShaderId(0));
    assert!(matches!(gen_render_target(&mut ids, None), RenderTargetId::Generated(0)));
    assert_eq!(gen_shader_id(&mut ids), ShaderId(1));
    assert!(matches!(gen_render_target(&mut ids, Some("shadow")), RenderTargetId::Generated(1)));
}

#[test]
fn render_targets_strictly_increase() {
    let mut ids = IdAllocator::new();
    let mut last: Option<u64> = None;
    for _ in 0..20 {
        match gen_render_target(&mut ids, None) {
            RenderTargetId::Generated(n) => {
                if let Some(prev) = last {
                    assert!(n > prev);
                }
                last = Some(n);
            }
            RenderTargetId::Named(_) => panic!("expected a generated target"),
        }
    }
    assert_eq!(last, Some(19));
}

#[test]
fn allocator_reports_capacity() {
    let ids = IdAllocator::new();
    assert!(ids.can_gen_shader_id());
    assert!(ids.can_gen_render_target());
}

#[test]
fn declarations_for_float_and_custom_slots() {
    let mut defs: UniformDefs = NamedMap::new();
    defs.insert("a", UniformDef::F32(None));
    defs.insert("b", custom("X"));
    let decls = uniform_declarations(&defs);
    assert_eq!(decls, binding(0, "a", "f32") + &binding(1, "b", "X"));
    assert!(decls.contains("@binding(0)\n            var<uniform> a: f32;"));
    assert!(decls.contains("@binding(1)\n            var<uniform> b: X;"));

    let mut shaders = ShaderMap::new();
    let mut ids = IdAllocator::new();
    let id = create_shader(&mut shaders, &mut ids, "main", "fn body() {}", defs).unwrap();
    let shader = shaders.get(id).unwrap();
    assert_eq!(shader.source, decls + "\n" + "fn body() {}");
    assert_eq!(shader.uniform_defs.len(), 2);
}

#[test]
fn declarations_of_no_slots_are_empty() {
    let defs: UniformDefs = NamedMap::new();
    assert_eq!(uniform_declarations(&defs), "");
    let mut shaders = ShaderMap::new();
    let mut ids = IdAllocator::new();
    let id = create_shader(&mut shaders, &mut ids, "plain", "body", NamedMap::new()).unwrap();
    assert_eq!(shaders.get(id).unwrap().source, "\nbody");
}

#[test]
fn binding_indices_go_past_one_digit() {
    let mut defs: UniformDefs = NamedMap::new();
    let names = ["u0", "u1", "u2", "u3", "u4", "u5", "u6", "u7", "u8", "u9", "u10", "u11"];
    for n in names.iter() {
        defs.insert(n, UniformDef::F32(Some(1.0f32.to_bits())));
    }
    let decls = uniform_declarations(&defs);
    let expected: String = names.iter().enumerate().map(|(i, n)| binding(i, n, "f32")).collect();
    assert_eq!(decls, expected);
    assert!(decls.contains("@binding(11)\n            var<uniform> u11: f32;"));
}

#[test]
fn reinserting_a_slot_keeps_its_position() {
    let mut defs: UniformDefs = NamedMap::new();
    defs.insert("a", UniformDef::F32(None));
    defs.insert("b", UniformDef::F32(None));
    defs.insert("a", custom("vec4<f32>"));
    assert_eq!(defs.len(), 2);
    assert_eq!(defs.get("a").unwrap().to_wgsl(), "vec4<f32>");
    assert!(defs.get("c").is_none());
    let (name, def) = defs.entry(0);
    assert_eq!(name, "a");
    assert_eq!(def.to_wgsl(), "vec4<f32>");
    assert_eq!(
        uniform_declarations(&defs),
        binding(0, "a", "vec4<f32>") + &binding(1, "b", "f32")
    );
}

#[test]
fn type_tokens() {
    assert_eq!(UniformDef::F32(None).to_wgsl(), "f32");
    assert_eq!(UniformDef::F32(Some(0.5f32.to_bits())).to_wgsl(), "f32");
    assert_eq!(custom("mat4x4<f32>").to_wgsl(), "mat4x4<f32>");
}

#[test]
fn descriptions_become_definitions_with_defaults() {
    match UniformDesc::F32(2.0f32.to_bits()).into_def() {
        UniformDef::F32(Some(bits)) => assert_eq!(f32::from_bits(bits), 2.0),
        other => panic!("unexpected {:?}", other),
    }
    let desc = UniformDesc::Custom { default_data: vec![1, 2, 3, 4], wgsl_decl: "u32".to_string() };
    match desc.into_def() {
        UniformDef::Custom { default_data, wgsl_decl } => {
            assert_eq!(default_data, Some(vec![1, 2, 3, 4]));
            assert_eq!(wgsl_decl, "u32");
        }
        other => panic!("unexpected {:?}", other),
    }
}

#[test]
fn shader_display_name_and_id() {
    let mut shaders = ShaderMap::new();
    let mut ids = IdAllocator::new();
    let id = create_shader(&mut shaders, &mut ids, "Water", "body", NamedMap::new()).unwrap();
    let shader = shaders.get(id).unwrap();
    assert_eq!(shader.name, "Water Shader");
    assert_eq!(shader.id, id);
    assert_eq!(id, ShaderId(0));
}

#[test]
fn registry_isolation() {
    let mut shaders = ShaderMap::new();
    let mut ids = IdAllocator::new();
    let a = create_shader(&mut shaders, &mut ids, "A", "body of a", NamedMap::new()).unwrap();
    let b = create_shader(&mut shaders, &mut ids, "B", "body of b", NamedMap::new()).unwrap();
    assert_ne!(a, b);
    assert_eq!(shaders.len(), 2);
    let sa = shaders.get(a).unwrap();
    let sb = shaders.get(b).unwrap();
    assert_eq!(sa.name, "A Shader");
    assert_eq!(sb.name, "B Shader");
    assert!(sa.source.contains("body of a"));
    assert!(!sa.source.contains("body of b"));
    assert!(sb.source.contains("body of b"));
    assert!(!sb.source.contains("body of a"));
}

#[test]
fn id_already_taken_is_a_compile_error() {
    let mut shaders = ShaderMap::new();
    let mut first = IdAllocator::new();
    let mut second = IdAllocator::new();
    let a = create_shader(&mut shaders, &mut first, "A", "a", NamedMap::new()).unwrap();
    match create_shader(&mut shaders, &mut second, "B", "b", NamedMap::new()) {
        Err(ShaderError::CompileError(message)) => {
            assert_eq!(message, "Shader with name 'B' already exists")
        }
        Ok(id) => panic!("unexpected {:?}", id),
    }
    assert_eq!(shaders.len(), 1);
    assert_eq!(shaders.get(a).unwrap().name, "A Shader");
    assert!(second.can_gen_shader_id());
    assert_eq!(gen_shader_id(&mut second), ShaderId(1));
}

#[test]
fn unknown_id_is_absent() {
    let shaders = ShaderMap::new();
    assert!(shaders.get(ShaderId(3)).is_none());
    assert_eq!(shaders.len(), 0);
}

#[test]
fn current_shader_round_trip() {
    let mut current = CurrentShader::new();
    assert!(get_current_shader(&current).is_none());
    set_shader(&mut current, ShaderId(7));
    let inst = get_current_shader(&current).unwrap();
    assert_eq!(inst.id, ShaderId(7));
    assert_eq!(inst.uniforms.len(), 0);
    set_default_shader(&mut current);
    assert!(get_current_shader(&current).is_none());
}

#[test]
fn set_default_shader_twice() {
    let mut current = CurrentShader::new();
    set_shader(&mut current, ShaderId(1));
    set_default_shader(&mut current);
    assert!(get_current_shader(&current).is_none());
    set_default_shader(&mut current);
    assert!(get_current_shader(&current).is_none());
}

#[test]
fn uniform_overrides_attach_to_the_bound_instance() {
    let mut current = CurrentShader::new();
    set_uniform(&mut current, "time", Uniform::F32(1.0f32.to_bits()));
    assert!(get_current_shader(&current).is_none());

    set_shader(&mut current, ShaderId(2));
    set_uniform(&mut current, "time", Uniform::F32(1.0f32.to_bits()));
    set_uniform(&mut current, "tint", Uniform::Custom(vec![255, 0, 0, 255]));
    set_uniform(&mut current, "time", Uniform::F32(2.5f32.to_bits()));
    let inst = get_current_shader(&current).unwrap();
    assert_eq!(inst.uniforms.len(), 2);
    assert_eq!(inst.uniforms.get("time"), Some(&Uniform::F32(2.5f32.to_bits())));
    assert_eq!(inst.uniforms.get("tint"), Some(&Uniform::Custom(vec![255, 0, 0, 255])));

    set_shader(&mut current, ShaderId(3));
    let inst = get_current_shader(&current).unwrap();
    assert_eq!(inst.id, ShaderId(3));
    assert_eq!(inst.uniforms.len(), 0);
}

#[test]
fn snapshot_is_independent_of_later_changes() {
    let mut current = CurrentShader::new();
    set_shader(&mut current, ShaderId(4));
    set_uniform(&mut current, "k", Uniform::Custom(vec![1]));
    let snapshot = get_current_shader(&current).unwrap();
    set_uniform(&mut current, "k", Uniform::Custom(vec![2]));
    assert_eq!(snapshot.uniforms.get("k"), Some(&Uniform::Custom(vec![1])));
    let copy = snapshot.uniforms.duplicate();
    assert_eq!(copy, snapshot.uniforms);
}

#[test]
fn shader_id_text() {
    assert_eq!(ShaderId(42).to_string(), "ShaderId(42)");
    assert_eq!(ShaderId(0).to_string(), "ShaderId(0)");
}

#[test]
fn decimal_text() {
    let mut s = String::from("n=");
    push_decimal(&mut s, 0);
    assert_eq!(s, "n=0");
    let mut s = String::new();
    push_decimal(&mut s, 1000);
    assert_eq!(s, "1000");
    let mut s = String::new();
    push_decimal(&mut s, u64::MAX);
    assert_eq!(s, u64::MAX.to_string());
}

#[test]
fn uniform_copy() {
    let u = Uniform::Custom(vec![9, 8]);
    assert_eq!(u.duplicate(), u);
    assert_eq!(Uniform::F32(7).duplicate(), Uniform::F32(7));
}
