use aurex::sdf::{
    clamp_lod_iterations, execute_scene_preprocess_stage, finalize_frame_stage,
    gpu_pipeline_descriptor, hash_noise_bits, lattice_hash, EffectGraphEvalCache,
    FrameDiagnostics, LodActivations, SampleCache, SampleKey, SceneBoundsCache, TemporalBuffer,
    RENDERER_STAGES, RENDER_PIPELINE_STAGES, RenderPipelineStage, RendererStage,
};

fn key(x: i32, seed: u32) -> SampleKey {
    SampleKey { x, y: 1, z: 2, t: 3, seed }
}

#[test]
fn sample_cache_counts_hits_and_misses() {
    let mut c: SampleCache<u32> = SampleCache::new();
    assert_eq!(c.get(key(0, 1)), None);
    c.insert(key(0, 1), 10);
    c.insert(key(5, 1), 20);
    assert_eq!(c.get(key(0, 1)), Some(10));
    assert_eq!(c.get(key(5, 1)), Some(20));
    assert_eq!(c.get(key(5, 2)), None);
    c.insert(key(0, 1), 11);
    assert_eq!(c.get(key(0, 1)), Some(11));
    assert_eq!(c.hits, 3);
    assert_eq!(c.misses, 2);
    c.clear();
    assert_eq!(c.get(key(0, 1)), None);
    assert_eq!(c.hits, 3);
    assert_eq!(c.misses, 3);
}

#[test]
fn scene_bounds_are_computed_once_per_seed() {
    let mut cache: SceneBoundsCache<u64> = SceneBoundsCache::new();
    assert_eq!(cache.get_or_insert_with(4, || 40), 40);
    assert_eq!(cache.get_or_insert_with(4, || 99), 40);
    assert_eq!(cache.get_or_insert_with(5, || 50), 50);
    assert_eq!(cache.entries.len(), 2);
}

#[test]
fn effect_graph_reuses_only_the_same_seed_and_tick() {
    let mut c = EffectGraphEvalCache::default();
    assert!(!c.should_reuse_tick(1, 10));
    c.mark_evaluated_tick(1, 10);
    assert!(c.should_reuse_tick(1, 10));
    assert!(!c.should_reuse_tick(1, 11));
    assert!(!c.should_reuse_tick(2, 10));
    c.mark_evaluated_tick(2, 11);
    assert_eq!(c.eval_count, 2);
}

#[test]
fn lod_counter_counts_and_resets() {
    let mut l = LodActivations::new();
    l.record_activation();
    l.record_activation();
    assert_eq!(l.lod_activation_count(), 2);
    l.reset_lod_counters();
    assert_eq!(l.lod_activation_count(), 0);
}

#[test]
fn lod_iterations_stay_between_two_and_the_limit() {
    assert_eq!(clamp_lod_iterations(0, 10, 8), (2, true));
    assert_eq!(clamp_lod_iterations(30, 10, 8), (10, false));
    assert_eq!(clamp_lod_iterations(6, 10, 8), (6, true));
    assert_eq!(clamp_lod_iterations(6, 0, 8), (2, true));
    assert_eq!(clamp_lod_iterations(8, 10, 8), (8, false));
}

#[test]
fn temporal_history_is_bounded() {
    let mut buf: TemporalBuffer<u32> = TemporalBuffer::default();
    for frame in 0..10u32 {
        buf.push_history(frame, 3);
    }
    assert!(buf.history.len() <= 3);
    assert_eq!(buf.history, vec![9, 8, 7]);
    assert_eq!(buf.max_history, 3);
}

#[test]
fn zero_history_depth_keeps_one_frame() {
    let mut buf: TemporalBuffer<u8> = TemporalBuffer::default();
    buf.push_history(1, 0);
    buf.push_history(2, 0);
    assert_eq!(buf.history, vec![2]);
    assert_eq!(buf.max_history, 1);
}

#[test]
fn noise_is_deterministic() {
    assert_eq!(hash_noise_bits(7), hash_noise_bits(7));
    assert_eq!(hash_noise_bits(7), 728_439_722);
    assert_eq!(hash_noise_bits(0), 1_376_312_589);
    assert_eq!(hash_noise_bits(-5), 770_326_493);
    assert_eq!(lattice_hash(1, 2, 3, 4), 365_345_680);
    assert_eq!(lattice_hash(0, 0, 0, 0), 0);
    assert!(hash_noise_bits(i32::MIN) >= 0);
}

#[test]
fn stages_are_recorded_in_order() {
    let d = FrameDiagnostics::default();
    let r = execute_scene_preprocess_stage(&5u32, 3u32, d, |s: &u32, c: u32| *s + c);
    assert_eq!(r.scene, 8);
    assert_eq!(r.diagnostics.stages, vec!["ScenePreprocess"]);
    let (frame, diag) = finalize_frame_stage("frame", r.diagnostics);
    assert_eq!(frame, "frame");
    assert_eq!(diag.stages, vec!["ScenePreprocess", "PostProcessing"]);
    assert_eq!(RENDERER_STAGES[0], RendererStage::ScenePreprocess);
    assert_eq!(RENDER_PIPELINE_STAGES[5], RenderPipelineStage::TemporalFeedback);
}

#[test]
fn pipeline_descriptor_keeps_its_inputs() {
    let d = gpu_pipeline_descriptor(640, 360, 96);
    assert_eq!((d.width, d.height, d.max_steps), (640, 360, 96));
}
