use aurex::bootstrap::{
    attempt_real_renderer_bootstrap, flag_enabled, real_bootstrap_status,
    run_real_renderer_event_loop, scene_override_from_value, should_short_circuit_procedural_setup,
    warmup_frames_from_value, RealRendererBootstrapResult, RenderBackendMode,
    RenderBackendReadiness, RenderBootstrapConfig, RenderBootstrapExecutor, RenderBootstrapPlan,
    RenderBootstrapStep, RENDER_MAIN_STAGES,
};
use aurex::renderer::{BackendTransition, MockRenderer};

/// Stand-in for the float rhythm snapshot the real runtime attaches.
#[derive(Debug, Clone, Copy, PartialEq)]
struct Snapshot {
    pulse: f32,
}

#[test]
fn mock_renderer_tracks_frame_progress() {
    let mut renderer = MockRenderer::<Snapshot>::new(RenderBootstrapConfig::default());

    let first = renderer.run_frame(&RENDER_MAIN_STAGES);
    let second = renderer.run_frame(&RENDER_MAIN_STAGES);

    assert_eq!(first.frame_id, 1);
    assert_eq!(second.frame_id, 2);
    assert_eq!(first.stages_executed, 3);
}

#[test]
fn bootstrap_executor_advances_through_steps() {
    let mut executor = RenderBootstrapExecutor::new(RenderBackendMode::WgpuPlanned);

    assert_eq!(executor.completed_count(), 0);
    assert_eq!(executor.total_count(), 7);

    let mut last = None;
    while let Some(step) = executor.execute_next() {
        last = Some(step);
    }

    assert_eq!(executor.completed_count(), executor.total_count());
    assert_eq!(executor.last_completed_step(), last);
    assert_eq!(
        executor.last_completed_step(),
        Some(RenderBootstrapStep::DrawBootScreen)
    );
}

#[test]
fn bootstrap_plan_matches_backend_mode() {
    let mock = RenderBootstrapPlan::for_mode(RenderBackendMode::Mock);
    assert_eq!(mock.ready_count(), 0);
    assert_eq!(mock.total_count(), 7);

    let planned = RenderBootstrapPlan::for_mode(RenderBackendMode::WgpuPlanned);
    assert_eq!(planned.ready_count(), planned.total_count());
    assert!(planned.summary().contains("DrawBootScreen:true"));
}

#[test]
fn readiness_contract_tracks_backend_mode() {
    let mock = RenderBackendReadiness::for_mode(RenderBackendMode::Mock);
    assert!(!mock.has_windowing);
    assert!(!mock.has_gpu_backend);
    assert!(!mock.can_present);

    let planned = RenderBackendReadiness::for_mode(RenderBackendMode::WgpuPlanned);
    assert!(planned.has_windowing);
    assert!(planned.has_gpu_backend);
    assert!(planned.can_present);
}

#[test]
fn backend_status_reflects_mode() {
    let renderer = MockRenderer::<Snapshot>::new(RenderBootstrapConfig::default());
    let status = renderer.backend_status();

    assert_eq!(status.mode, RenderBackendMode::Mock);
    assert!(status.ready);
}

#[test]
fn transition_to_wgpu_planned_sets_not_ready() {
    let mut renderer = MockRenderer::<Snapshot>::new(RenderBootstrapConfig::default());
    let t = renderer.transition_backend_mode(RenderBackendMode::WgpuPlanned);

    assert_eq!(t, BackendTransition::Transitioned);
    assert_eq!(
        renderer.backend_status().mode,
        RenderBackendMode::WgpuPlanned
    );
    assert!(!renderer.backend_status().ready);
}

#[test]
fn diagnostic_short_circuit_requires_procedural_mode() {
    assert!(!should_short_circuit_procedural_setup(false, true, false));
    assert!(!should_short_circuit_procedural_setup(false, false, true));
    assert!(should_short_circuit_procedural_setup(true, true, false));
}

#[test]
fn bypass_flag_short_circuits_procedural_setup() {
    assert!(should_short_circuit_procedural_setup(true, false, true));
    assert!(should_short_circuit_procedural_setup(true, true, true));
}

#[test]
fn procedural_setup_runs_normally_without_toggles() {
    assert!(!should_short_circuit_procedural_setup(true, false, false));
}

#[test]
fn real_bootstrap_reports_feature_disabled_by_default() {
    let status = attempt_real_renderer_bootstrap();
    assert_eq!(status.result, RealRendererBootstrapResult::FeatureDisabled);
    assert!(status.detail.contains("without real_graphics"));
}

#[test]
fn event_loop_refuses_without_graphics_backend() {
    assert_eq!(
        run_real_renderer_event_loop(),
        Err("real_graphics feature is disabled".to_string())
    );
}

#[test]
fn bootstrap_status_reports_first_failure() {
    let s = real_bootstrap_status(Some("no adapter".to_string()), Some("x".to_string()));
    assert_eq!(s.result, RealRendererBootstrapResult::AdapterUnavailable);
    assert_eq!(s.detail, "request_adapter failed: no adapter");

    let s = real_bootstrap_status(None, Some("lost".to_string()));
    assert_eq!(s.result, RealRendererBootstrapResult::DeviceRequestFailed);
    assert_eq!(s.detail, "request_device failed: lost");

    let s = real_bootstrap_status(None, None);
    assert_eq!(s.result, RealRendererBootstrapResult::Ready);
    assert!(s.detail.starts_with("adapter acquired"));
}

#[test]
fn plan_summary_lists_every_step_in_order() {
    let mock = RenderBootstrapPlan::for_mode(RenderBackendMode::Mock);
    assert_eq!(
        mock.summary(),
        "InitWindow:false,InitWgpuInstance:false,InitSurface:false,RequestDevice:false,\
ConfigureSwapchain:false,UploadBootScreenQuad:false,DrawBootScreen:false"
    );
    assert_eq!(RenderBootstrapStep::UploadBootScreenQuad.as_str(), "UploadBootScreenQuad");
}

#[test]
fn executor_reports_steps_in_plan_order_then_stops() {
    let mut executor = RenderBootstrapExecutor::new(RenderBackendMode::Mock);
    assert_eq!(executor.last_completed_step(), None);
    assert_eq!(executor.execute_next(), Some(RenderBootstrapStep::InitWindow));
    assert_eq!(executor.execute_next(), Some(RenderBootstrapStep::InitWgpuInstance));
    assert_eq!(executor.completed_count(), 2);
    assert_eq!(
        executor.last_completed_step(),
        Some(RenderBootstrapStep::InitWgpuInstance)
    );
    let copy = executor.clone();
    for _ in 0..5 {
        assert!(executor.execute_next().is_some());
    }
    assert_eq!(executor.execute_next(), None);
    assert_eq!(executor.execute_next(), None);
    assert_eq!(executor.completed_count(), 7);
    assert_eq!(copy.completed_count(), 2);
}

#[test]
fn config_defaults_and_mode_switch() {
    let c = RenderBootstrapConfig::default();
    assert_eq!(c.app_name, "Aurex-X");
    assert_eq!((c.viewport_width, c.viewport_height), (1280, 720));
    assert_eq!(c.backend_mode, RenderBackendMode::Mock);
    let w = c.with_backend_mode(RenderBackendMode::WgpuPlanned);
    assert_eq!(w.backend_mode, RenderBackendMode::WgpuPlanned);
    assert_eq!(w.app_name, "Aurex-X");
}

#[test]
fn renderer_transition_to_same_mode_is_noop() {
    let mut renderer = MockRenderer::<Snapshot>::new(RenderBootstrapConfig::default());
    assert_eq!(
        renderer.transition_backend_mode(RenderBackendMode::Mock),
        BackendTransition::Noop
    );
    assert!(renderer.backend_status().ready);
    renderer.transition_backend_mode(RenderBackendMode::WgpuPlanned);
    assert_eq!(
        renderer.transition_backend_mode(RenderBackendMode::Mock),
        BackendTransition::Transitioned
    );
    assert!(renderer.backend_status().ready);
}

#[test]
fn renderer_summary_header_and_rhythm_marker() {
    let mut renderer = MockRenderer::<Snapshot>::new(RenderBootstrapConfig::default());
    renderer.run_frame(&RENDER_MAIN_STAGES);
    assert_eq!(
        renderer.world_debug_summary(),
        "frames_rendered=1\nbackend_mode=Mock\nbackend_ready=true"
    );
    assert!(!renderer.world_debug_summary().contains("Rhythm:"));
    renderer.set_rhythm_snapshot(Snapshot { pulse: 0.82 });
    assert!(renderer.world_debug_summary().ends_with("\nRhythm:"));
    assert_eq!(renderer.rhythm_snapshot(), Some(Snapshot { pulse: 0.82 }));
    renderer.clear_rhythm_snapshot();
    assert_eq!(renderer.rhythm_snapshot(), None);
    for _ in 0..1233 {
        renderer.run_frame(&[]);
    }
    assert!(renderer
        .world_debug_summary()
        .starts_with("frames_rendered=1234\n"));
    assert_eq!(renderer.config().viewport_width, 1280);
}

#[test]
fn environment_flag_values() {
    assert!(flag_enabled(Some("TRUE")));
    assert!(flag_enabled(Some("1")));
    assert!(flag_enabled(Some("On")));
    assert!(flag_enabled(Some("yes")));
    assert!(!flag_enabled(Some(" yes")));
    assert!(!flag_enabled(Some("0")));
    assert!(!flag_enabled(None));

    assert_eq!(warmup_frames_from_value(Some("45")), 45);
    assert_eq!(warmup_frames_from_value(Some("+7")), 7);
    assert_eq!(warmup_frames_from_value(Some("0")), 120);
    assert_eq!(warmup_frames_from_value(Some("-3")), 120);
    assert_eq!(warmup_frames_from_value(Some("12a")), 120);
    assert_eq!(warmup_frames_from_value(Some("")), 120);
    assert_eq!(warmup_frames_from_value(Some("99999999999999999999999")), 120);
    assert_eq!(warmup_frames_from_value(None), 120);

    assert_eq!(
        scene_override_from_value(Some("  rings \n")),
        Some("rings".to_string())
    );
    assert_eq!(scene_override_from_value(Some(" \t ")), None);
    assert_eq!(scene_override_from_value(None), None);
}
