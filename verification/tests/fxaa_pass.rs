use fxaa_pass::cache::CompiledPipeline;
use fxaa_pass::cache::PipelineCache;
use fxaa_pass::cache::PipelineResolution;
use fxaa_pass::cache::PipelineState;
use fxaa_pass::fxaa::build_fxaa_layout;
use fxaa_pass::fxaa::extract_toggles;
use fxaa_pass::fxaa::ExtractedCamera;
use fxaa_pass::fxaa::FXAAPipeline;
use fxaa_pass::fxaa::FXAAPlugin;
use fxaa_pass::fxaa::BLIT_SHADER_ID;
use fxaa_pass::fxaa::FXAA;
use fxaa_pass::fxaa::FXAA_SHADER_ID;
use fxaa_pass::fxaa::FXAA_SHARED_SHADER_ID;
use fxaa_pass::fullscreen_vertex_shader::fullscreen_shader_vertex_state;
use fxaa_pass::node::FXAANode;
use fxaa_pass::node::LoadOp;
use fxaa_pass::node::NodeState;
use fxaa_pass::render_resource::ColorTargetState;
use fxaa_pass::render_resource::FragmentState;
use fxaa_pass::render_resource::PrimitiveTopology;
use fxaa_pass::render_resource::RenderPipelineDescriptor;
use fxaa_pass::render_resource::SamplerBindingType;
use fxaa_pass::render_resource::TextureFormat;
use fxaa_pass::render_resource::COLOR_WRITES_ALL;
use fxaa_pass::shader::RegistryError;
use fxaa_pass::shader::ShaderHandle;
use fxaa_pass::shader::ShaderRegistry;

fn make_descriptor(fragment_shader: u64, label: &str) -> RenderPipelineDescriptor {
    RenderPipelineDescriptor {
        label: label.to_owned(),
        layout: build_fxaa_layout(),
        vertex: fullscreen_shader_vertex_state(),
        fragment: FragmentState {
            shader: ShaderHandle {
                id: fragment_shader,
            },
            entry_point: "fs_main".to_owned(),
            target: ColorTargetState {
                format: TextureFormat::Bgra8UnormSrgb,
                blend: false,
                write_mask: COLOR_WRITES_ALL,
            },
        },
        primitive: PrimitiveTopology::TriangleList,
        depth_stencil: false,
        multisample_count: 1,
    }
}

fn installed_effect() -> (PipelineCache, FXAAPipeline) {
    let mut cache = PipelineCache::new();
    let pipeline = FXAAPipeline::new(&mut cache);
    (cache, pipeline)
}

#[test]
fn submit_identical_descriptors_returns_same_handle() {
    let mut cache = PipelineCache::new();
    let first = cache.submit(make_descriptor(FXAA_SHADER_ID, "fxaa pipeline"));
    let second = cache.submit(make_descriptor(FXAA_SHADER_ID, "fxaa pipeline"));
    assert_eq!(first, second);
    assert_eq!(cache.descriptors.len(), 1);
    assert_eq!(cache.states.len(), 1);
}

#[test]
fn submit_deduplicates_across_effects_and_frames() {
    let mut cache = PipelineCache::new();
    let first = cache.submit(make_descriptor(BLIT_SHADER_ID, "blit pipeline"));
    for _frame in 0..5 {
        let again = cache.submit(make_descriptor(BLIT_SHADER_ID, "blit pipeline"));
        assert_eq!(first, again);
    }
    assert_eq!(cache.descriptors.len(), 1);
}

#[test]
fn descriptors_differing_only_in_fragment_shader_get_distinct_handles() {
    let mut cache = PipelineCache::new();
    let effect = cache.submit(make_descriptor(FXAA_SHADER_ID, "pipeline"));
    let blit = cache.submit(make_descriptor(BLIT_SHADER_ID, "pipeline"));
    assert_ne!(effect, blit);
    assert_eq!(cache.descriptors.len(), 2);
}

#[test]
fn labels_are_diagnostic_only_for_deduplication() {
    let mut cache = PipelineCache::new();
    let first = cache.submit(make_descriptor(FXAA_SHADER_ID, "one label"));
    let second = cache.submit(make_descriptor(FXAA_SHADER_ID, "another label"));
    assert_eq!(first, second);
    assert_eq!(cache.descriptors.len(), 1);
}

#[test]
fn submit_returns_immediately_with_pending_resolution() {
    let mut cache = PipelineCache::new();
    let handle = cache.submit(make_descriptor(FXAA_SHADER_ID, "fxaa pipeline"));
    assert_eq!(cache.try_resolve(handle), PipelineResolution::Pending);
}

#[test]
fn successful_compilation_resolves_to_ready() {
    let mut cache = PipelineCache::new();
    let handle = cache.submit(make_descriptor(FXAA_SHADER_ID, "fxaa pipeline"));
    cache.finish_compilation(handle, true);
    assert_eq!(
        cache.try_resolve(handle),
        PipelineResolution::Ready(CompiledPipeline { id: handle.index })
    );
}

#[test]
fn failed_compilation_resolves_to_failed_permanently() {
    let mut cache = PipelineCache::new();
    let handle = cache.submit(make_descriptor(FXAA_SHADER_ID, "fxaa pipeline"));
    cache.finish_compilation(handle, false);
    assert_eq!(cache.try_resolve(handle), PipelineResolution::Failed);
    // A late or duplicate report never overwrites the failure.
    cache.finish_compilation(handle, true);
    assert_eq!(cache.try_resolve(handle), PipelineResolution::Failed);
    // Resubmitting the same descriptor returns the failed slot, unchanged.
    let again = cache.submit(make_descriptor(FXAA_SHADER_ID, "fxaa pipeline"));
    assert_eq!(again, handle);
    assert_eq!(cache.try_resolve(handle), PipelineResolution::Failed);
}

#[test]
fn duplicate_success_report_is_ignored() {
    let mut cache = PipelineCache::new();
    let handle = cache.submit(make_descriptor(FXAA_SHADER_ID, "fxaa pipeline"));
    cache.finish_compilation(handle, true);
    cache.finish_compilation(handle, false);
    assert_eq!(
        cache.try_resolve(handle),
        PipelineResolution::Ready(CompiledPipeline { id: handle.index })
    );
}

#[test]
fn pipeline_resource_queues_two_distinct_pipelines() {
    let (cache, pipeline) = installed_effect();
    assert_ne!(pipeline.fxaa_pipeline_id, pipeline.blit_pipeline_id);
    assert_eq!(cache.descriptors.len(), 2);
    assert_eq!(cache.states[pipeline.fxaa_pipeline_id.index], PipelineState::Queued);
    assert_eq!(cache.states[pipeline.blit_pipeline_id.index], PipelineState::Queued);
    assert_eq!(pipeline.hdr_texture_bind_group.entries.len(), 2);
}

#[test]
fn pipeline_resource_reinstall_reuses_cached_pipelines() {
    let (mut cache, pipeline) = installed_effect();
    let pipeline_again = FXAAPipeline::new(&mut cache);
    assert_eq!(pipeline.fxaa_pipeline_id, pipeline_again.fxaa_pipeline_id);
    assert_eq!(pipeline.blit_pipeline_id, pipeline_again.blit_pipeline_id);
    assert_eq!(cache.descriptors.len(), 2);
}

#[test]
fn scenario_enabled_and_resolved_executes_effect_pipeline() {
    let (mut cache, pipeline) = installed_effect();
    cache.finish_compilation(pipeline.fxaa_pipeline_id, true);
    cache.finish_compilation(pipeline.blit_pipeline_id, true);
    let node = FXAANode;
    let run = node.run(Some(FXAA { is_enabled: true }), &cache, &pipeline, 41, 42);
    assert_eq!(run.state, NodeState::Complete);
    let draw = run.draw.expect("enabled camera with resolved pipelines must draw");
    assert_eq!(draw.pipeline, CompiledPipeline { id: pipeline.fxaa_pipeline_id.index });
    assert_eq!(draw.bind_group.texture_view, 41);
    assert_eq!(draw.bind_group.sampler, SamplerBindingType::Filtering);
    assert_eq!(draw.target, 42);
    assert_eq!(draw.load, LoadOp::Preserve);
    assert_eq!(draw.write_mask, COLOR_WRITES_ALL);
    assert_eq!(draw.vertex_count, 3);
    assert!(!draw.uses_vertex_buffer);
}

#[test]
fn scenario_disabled_executes_blit_with_same_bind_group() {
    let (mut cache, pipeline) = installed_effect();
    cache.finish_compilation(pipeline.fxaa_pipeline_id, true);
    cache.finish_compilation(pipeline.blit_pipeline_id, true);
    let node = FXAANode;
    let enabled_run = node.run(Some(FXAA { is_enabled: true }), &cache, &pipeline, 41, 42);
    let disabled_run = node.run(Some(FXAA { is_enabled: false }), &cache, &pipeline, 41, 42);
    assert_eq!(disabled_run.state, NodeState::Complete);
    let draw = disabled_run.draw.expect("disabled camera must still run the blit");
    assert_eq!(draw.pipeline, CompiledPipeline { id: pipeline.blit_pipeline_id.index });
    assert_eq!(draw.bind_group, enabled_run.draw.expect("effect draw").bind_group);
    assert_eq!(draw.target, 42);
    assert_eq!(draw.vertex_count, 3);
}

#[test]
fn scenario_effect_unresolved_skips_even_with_blit_ready() {
    let (mut cache, pipeline) = installed_effect();
    cache.finish_compilation(pipeline.blit_pipeline_id, true);
    let node = FXAANode;
    let run = node.run(Some(FXAA { is_enabled: true }), &cache, &pipeline, 41, 42);
    assert_eq!(run.state, NodeState::Skipped);
    assert!(run.draw.is_none());
}

#[test]
fn missing_toggle_component_skips() {
    let (mut cache, pipeline) = installed_effect();
    cache.finish_compilation(pipeline.fxaa_pipeline_id, true);
    cache.finish_compilation(pipeline.blit_pipeline_id, true);
    let node = FXAANode;
    let run = node.run(None, &cache, &pipeline, 41, 42);
    assert_eq!(run.state, NodeState::Skipped);
    // No draw and no clear: load-preserve leaves the attachment's content
    // defined whatever the toggle state.
    assert!(run.draw.is_none());
}

#[test]
fn failed_required_pipeline_skips_every_frame() {
    let (mut cache, pipeline) = installed_effect();
    cache.finish_compilation(pipeline.fxaa_pipeline_id, false);
    cache.finish_compilation(pipeline.blit_pipeline_id, true);
    let node = FXAANode;
    for _frame in 0..3 {
        let run = node.run(Some(FXAA { is_enabled: true }), &cache, &pipeline, 7, 8);
        assert_eq!(run.state, NodeState::Skipped);
        assert!(run.draw.is_none());
    }
    // The blit branch is unaffected by the effect pipeline's failure.
    let run = node.run(Some(FXAA { is_enabled: false }), &cache, &pipeline, 7, 8);
    assert_eq!(run.state, NodeState::Complete);
}

#[test]
fn node_runs_identically_on_the_same_frame_snapshot() {
    let (mut cache, pipeline) = installed_effect();
    cache.finish_compilation(pipeline.fxaa_pipeline_id, true);
    cache.finish_compilation(pipeline.blit_pipeline_id, true);
    let node = FXAANode;
    let first = node.run(Some(FXAA { is_enabled: true }), &cache, &pipeline, 11, 12);
    let second = node.run(Some(FXAA { is_enabled: true }), &cache, &pipeline, 11, 12);
    assert_eq!(first, second);
    let third = node.run(Some(FXAA { is_enabled: false }), &cache, &pipeline, 11, 12);
    let fourth = node.run(Some(FXAA { is_enabled: false }), &cache, &pipeline, 11, 12);
    assert_eq!(third, fourth);
}

#[test]
fn registry_registration_is_idempotent() {
    let mut registry = ShaderRegistry::new();
    let first = registry.register(FXAA_SHADER_ID, "fn fs_main() {}".to_owned());
    let second = registry.register(FXAA_SHADER_ID, "fn fs_main() {}".to_owned());
    assert_eq!(first, Ok(ShaderHandle { id: FXAA_SHADER_ID }));
    assert_eq!(second, Ok(ShaderHandle { id: FXAA_SHADER_ID }));
    assert_eq!(registry.entries.len(), 1);
}

#[test]
fn registry_conflicting_registration_fails_loudly() {
    let mut registry = ShaderRegistry::new();
    registry
        .register(FXAA_SHADER_ID, "fn fs_main() {}".to_owned())
        .expect("first registration");
    let conflict = registry.register(FXAA_SHADER_ID, "fn other() {}".to_owned());
    assert_eq!(conflict, Err(RegistryError::ConflictingRegistration));
    // The original registration stands.
    let kept = registry
        .resolve(ShaderHandle { id: FXAA_SHADER_ID })
        .expect("still registered");
    assert_eq!(kept, "fn fs_main() {}");
}

#[test]
fn registry_unknown_handle_fails() {
    let registry = ShaderRegistry::new();
    let missing = registry.resolve(ShaderHandle { id: 5 });
    assert_eq!(missing, Err(RegistryError::UnknownShaderHandle));
}

#[test]
fn plugin_build_registers_three_sources_and_builds_resource() {
    let mut registry = ShaderRegistry::new();
    let mut cache = PipelineCache::new();
    let plugin = FXAAPlugin;
    let pipeline = plugin
        .build(
            &mut registry,
            &mut cache,
            "fxaa source".to_owned(),
            "shared source".to_owned(),
            "blit source".to_owned(),
        )
        .expect("installation succeeds on a fresh world");
    assert_eq!(
        registry.resolve(ShaderHandle { id: FXAA_SHADER_ID }).unwrap(),
        "fxaa source"
    );
    assert_eq!(
        registry.resolve(ShaderHandle { id: FXAA_SHARED_SHADER_ID }).unwrap(),
        "shared source"
    );
    assert_eq!(
        registry.resolve(ShaderHandle { id: BLIT_SHADER_ID }).unwrap(),
        "blit source"
    );
    assert_eq!(cache.descriptors.len(), 2);
    assert_ne!(pipeline.fxaa_pipeline_id, pipeline.blit_pipeline_id);
}

#[test]
fn plugin_build_is_idempotent() {
    let mut registry = ShaderRegistry::new();
    let mut cache = PipelineCache::new();
    let plugin = FXAAPlugin;
    let first = plugin
        .build(
            &mut registry,
            &mut cache,
            "fxaa source".to_owned(),
            "shared source".to_owned(),
            "blit source".to_owned(),
        )
        .expect("first installation");
    let second = plugin
        .build(
            &mut registry,
            &mut cache,
            "fxaa source".to_owned(),
            "shared source".to_owned(),
            "blit source".to_owned(),
        )
        .expect("reinstallation with identical sources");
    assert_eq!(registry.entries.len(), 3);
    assert_eq!(cache.descriptors.len(), 2);
    assert_eq!(first.fxaa_pipeline_id, second.fxaa_pipeline_id);
    assert_eq!(first.blit_pipeline_id, second.blit_pipeline_id);
}

#[test]
fn plugin_build_with_conflicting_source_fails() {
    let mut registry = ShaderRegistry::new();
    let mut cache = PipelineCache::new();
    let plugin = FXAAPlugin;
    plugin
        .build(
            &mut registry,
            &mut cache,
            "fxaa source".to_owned(),
            "shared source".to_owned(),
            "blit source".to_owned(),
        )
        .expect("first installation");
    let conflict = plugin.build(
        &mut registry,
        &mut cache,
        "fxaa source".to_owned(),
        "shared source".to_owned(),
        "different blit source".to_owned(),
    );
    assert!(matches!(conflict, Err(RegistryError::ConflictingRegistration)));
    // The cache is untouched by the failed reinstallation.
    assert_eq!(cache.descriptors.len(), 2);
}

#[test]
fn extraction_copies_every_camera_toggle() {
    let cameras = vec![
        ExtractedCamera { entity: 1, fxaa: FXAA { is_enabled: true } },
        ExtractedCamera { entity: 2, fxaa: FXAA { is_enabled: false } },
        ExtractedCamera { entity: 9, fxaa: FXAA { is_enabled: true } },
    ];
    let snapshot = extract_toggles(&cameras);
    assert_eq!(snapshot.entries, cameras);
    assert_eq!(snapshot.lookup(1), Some(FXAA { is_enabled: true }));
    assert_eq!(snapshot.lookup(2), Some(FXAA { is_enabled: false }));
    assert_eq!(snapshot.lookup(9), Some(FXAA { is_enabled: true }));
    // A camera without the component has no snapshot entry: feature absent.
    assert_eq!(snapshot.lookup(3), None);
}

#[test]
fn extraction_feeds_the_node_per_camera() {
    let (mut cache, pipeline) = installed_effect();
    cache.finish_compilation(pipeline.fxaa_pipeline_id, true);
    cache.finish_compilation(pipeline.blit_pipeline_id, true);
    let cameras = vec![
        ExtractedCamera { entity: 1, fxaa: FXAA { is_enabled: true } },
        ExtractedCamera { entity: 2, fxaa: FXAA { is_enabled: false } },
    ];
    let snapshot = extract_toggles(&cameras);
    let node = FXAANode;
    let run_enabled = node.run(snapshot.lookup(1), &cache, &pipeline, 3, 4);
    let run_disabled = node.run(snapshot.lookup(2), &cache, &pipeline, 3, 4);
    let run_absent = node.run(snapshot.lookup(7), &cache, &pipeline, 3, 4);
    assert_eq!(run_enabled.state, NodeState::Complete);
    assert_eq!(
        run_enabled.draw.unwrap().pipeline,
        CompiledPipeline { id: pipeline.fxaa_pipeline_id.index }
    );
    assert_eq!(run_disabled.state, NodeState::Complete);
    assert_eq!(
        run_disabled.draw.unwrap().pipeline,
        CompiledPipeline { id: pipeline.blit_pipeline_id.index }
    );
    assert_eq!(run_absent.state, NodeState::Skipped);
}
