use solar_system::frame::{
    pick_surface_format, AcquireOutcome, Extent, FrameAction, SurfaceState,
};
use solar_system::passes::{plan_frame, Depth, Mesh, Pass};

fn ext(width: u32, height: u32) -> Extent {
    Extent { width, height }
}

#[test]
fn zero_sized_resize_changes_nothing() {
    let mut s = SurfaceState::new(ext(800, 600), 2048);
    assert_eq!(s.resize(ext(1024, 768)), Some(ext(1024, 768)));
    let before = s;
    assert_eq!(s.resize(ext(0, 500)), None);
    assert_eq!(s, before);
    assert_eq!(s.resize(ext(500, 0)), None);
    assert_eq!(s, before);
    let r = s.on_window_resized(ext(0, 0));
    assert_eq!(r.reallocate, None);
    assert_eq!(s.size, ext(1024, 768));
}

#[test]
fn outdated_surface_is_reconfigured_then_presents() {
    let mut s = SurfaceState::new(ext(800, 600), 2048);
    assert!(!s.can_render());
    s.on_window_resized(ext(1280, 720));
    assert!(s.can_render());
    assert_eq!(s.on_acquire(AcquireOutcome::Outdated), FrameAction::Reconfigure(ext(1280, 720)));
    assert_eq!(s.size, ext(1280, 720));
    assert_eq!(s.on_acquire(AcquireOutcome::Acquired), FrameAction::Present);
    assert_eq!(s.on_acquire(AcquireOutcome::Lost), FrameAction::Reconfigure(ext(1280, 720)));
}

#[test]
fn other_acquire_failures_are_reported() {
    let mut s = SurfaceState::new(ext(800, 600), 2048);
    s.on_window_resized(ext(640, 480));
    let before = s;
    assert_eq!(s.on_acquire(AcquireOutcome::Timeout), FrameAction::Report);
    assert_eq!(s.on_acquire(AcquireOutcome::OutOfMemory), FrameAction::Report);
    assert_eq!(s.on_acquire(AcquireOutcome::Other), FrameAction::Report);
    assert_eq!(s, before);
}

#[test]
fn stale_surface_of_a_minimised_window_skips() {
    let mut s = SurfaceState::new(ext(800, 600), 2048);
    s.on_window_resized(ext(640, 480));
    s.on_window_resized(ext(0, 0));
    assert_eq!(s.on_acquire(AcquireOutcome::Lost), FrameAction::Skip);
    assert_eq!(s.size, ext(640, 480));
}

#[test]
fn oversized_window_is_clamped_to_the_device_limit() {
    let mut s = SurfaceState::new(ext(800, 600), 2048);
    let r = s.on_window_resized(ext(4096, 1000));
    assert_eq!(r.reallocate, Some(ext(2048, 1000)));
    assert_eq!(r.request_window, Some(ext(2048, 1000)));
    assert_eq!(s.size, ext(2048, 1000));
    let r = s.on_window_resized(ext(2048, 2048));
    assert_eq!(r.request_window, None);
    assert_eq!(r.reallocate, Some(ext(2048, 2048)));
}

#[test]
fn surface_format_prefers_srgb() {
    assert_eq!(pick_surface_format(&vec![false, true, true]), 1);
    assert_eq!(pick_surface_format(&vec![false, false]), 0);
    assert_eq!(pick_surface_format(&vec![true]), 0);
}

#[test]
fn frame_passes_run_in_order_and_tonemap_last() {
    let plan = plan_frame(8);
    let order: Vec<Pass> = plan.iter().map(|s| s.pass).collect();
    assert_eq!(order, vec![Pass::Planets, Pass::Sun, Pass::Ring, Pass::Skybox, Pass::ToneMap]);
    assert_eq!(plan[0].instances, 8);
    assert_eq!(plan[0].mesh, Mesh::Sphere);
    assert_eq!(plan[2].mesh, Mesh::Ring);
    assert_eq!(plan[3].depth, Depth::TestOnly);
    assert_eq!(plan[4].depth, Depth::Off);
    assert_eq!(plan[4].camera_slot, None);
    assert!(plan[..3].iter().all(|s| s.depth == Depth::TestAndWrite && s.camera_slot == Some(1) && s.light_slot == Some(2)));
}
