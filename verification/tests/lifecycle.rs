//! Render-state lifecycle: shader-watch debounce, hot reload, and the
//! per-frame decision.

use orbit_cube::pipeline::ShaderError;
use orbit_cube::render::{FrameAction, RenderState, SurfaceStatus};
use orbit_cube::watch::{FsEventKind, ShaderWatch, WatchDecision, DEBOUNCE_MS};

fn test_state() -> RenderState {
    RenderState::new(800, 400, String::from("vs"), String::from("fs"))
}

#[test]
fn first_relevant_event_triggers_a_reload() {
    let mut w = ShaderWatch::new();
    assert_eq!(w.note_event(FsEventKind::DataModified, 1_000, true), WatchDecision::Reload);
}

#[test]
fn two_events_within_the_window_give_one_reload() {
    let mut w = ShaderWatch::new();
    assert_eq!(w.note_event(FsEventKind::DataModified, 1_000, true), WatchDecision::Reload);
    assert_eq!(w.note_event(FsEventKind::DataModified, 1_150, true), WatchDecision::Debounced);
}

#[test]
fn an_event_exactly_at_the_window_edge_is_still_debounced() {
    let mut w = ShaderWatch::new();
    w.note_event(FsEventKind::DataModified, 1_000, true);
    assert_eq!(
        w.note_event(FsEventKind::DataModified, 1_000 + DEBOUNCE_MS, true),
        WatchDecision::Debounced
    );
}

#[test]
fn events_in_separate_windows_each_reload() {
    let mut w = ShaderWatch::new();
    assert_eq!(w.note_event(FsEventKind::Created, 1_000, true), WatchDecision::Reload);
    assert_eq!(w.note_event(FsEventKind::Removed, 1_201, true), WatchDecision::Reload);
}

#[test]
fn irrelevant_events_are_filtered_and_keep_the_window_free() {
    let mut w = ShaderWatch::new();
    assert_eq!(w.note_event(FsEventKind::Other, 1_000, true), WatchDecision::Filtered);
    assert_eq!(w.note_event(FsEventKind::DataModified, 1_001, true), WatchDecision::Reload);
}

#[test]
fn missing_shader_skips_the_rebuild_but_consumes_the_window() {
    let mut w = ShaderWatch::new();
    assert_eq!(
        w.note_event(FsEventKind::DataModified, 1_000, false),
        WatchDecision::SkippedMissing
    );
    assert_eq!(w.note_event(FsEventKind::DataModified, 1_100, true), WatchDecision::Debounced);
}

#[test]
fn reload_swaps_in_the_new_sources() {
    let mut s = test_state();
    let r = s.reload_shader_pipeline(Some(String::from("vs2")), Some(String::from("fs2")));
    assert_eq!(r, Ok(()));
    assert_eq!(s.pipeline.vertex_source, "vs2");
    assert_eq!(s.pipeline.fragment_source, "fs2");
}

#[test]
fn reload_with_missing_vertex_source_changes_nothing() {
    let mut s = test_state();
    let r = s.reload_shader_pipeline(None, Some(String::from("fs2")));
    assert_eq!(r, Err(ShaderError::MissingVertexSource));
    assert_eq!(s.pipeline.vertex_source, "vs");
    assert_eq!(s.pipeline.fragment_source, "fs");
}

#[test]
fn reload_with_missing_fragment_source_changes_nothing() {
    let mut s = test_state();
    let r = s.reload_shader_pipeline(Some(String::from("vs2")), None);
    assert_eq!(r, Err(ShaderError::MissingFragmentSource));
    assert_eq!(s.pipeline.vertex_source, "vs");
    assert_eq!(s.pipeline.fragment_source, "fs");
}

#[test]
fn reloading_twice_with_unchanged_sources_equals_one_reload() {
    let mut once = test_state();
    once.reload_shader_pipeline(Some(String::from("v")), Some(String::from("f"))).unwrap();
    let mut twice = test_state();
    twice.reload_shader_pipeline(Some(String::from("v")), Some(String::from("f"))).unwrap();
    twice.reload_shader_pipeline(Some(String::from("v")), Some(String::from("f"))).unwrap();
    assert_eq!(once.pipeline.vertex_source, twice.pipeline.vertex_source);
    assert_eq!(once.pipeline.fragment_source, twice.pipeline.fragment_source);
}

#[test]
fn an_acquired_frame_is_drawn_with_the_current_camera() {
    let mut s = test_state();
    s.camera.apply_scroll(1_000);
    match s.render(SurfaceStatus::Acquired, 16) {
        FrameAction::Draw(plan) => {
            assert_eq!((plan.clear.r, plan.clear.g, plan.clear.b, plan.clear.a), (255, 0, 0, 255));
            assert!(plan.clear_depth);
            assert_eq!(plan.index_count, 36);
            assert_eq!(plan.camera.distance, 4_500);
            assert_eq!((plan.width, plan.height), (800, 400));
            assert_eq!(plan.elapsed_ms, 16);
        },
        other => panic!("expected a draw, got {:?}", other),
    }
}

#[test]
fn a_timeout_skips_the_frame() {
    let s = test_state();
    assert_eq!(s.render(SurfaceStatus::Timeout, 0), FrameAction::SkipFrame);
}

#[test]
fn outdated_and_lost_surfaces_reconfigure() {
    let s = test_state();
    assert_eq!(s.render(SurfaceStatus::Outdated, 0), FrameAction::Reconfigure);
    assert_eq!(s.render(SurfaceStatus::Lost, 0), FrameAction::Reconfigure);
}

#[test]
fn out_of_memory_is_fatal() {
    let s = test_state();
    assert_eq!(s.render(SurfaceStatus::OutOfMemory, 0), FrameAction::Fatal);
}
