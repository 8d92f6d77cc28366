use planar_video::driver::{accept_resize, surface_error_action, FrameAction, SurfaceErrorKind};

#[test]
fn lost_surface_is_reconfigured() {
    assert_eq!(surface_error_action(SurfaceErrorKind::Lost), FrameAction::Reconfigure);
}

#[test]
fn out_of_memory_exits() {
    assert_eq!(surface_error_action(SurfaceErrorKind::OutOfMemory), FrameAction::Exit);
}

#[test]
fn transient_errors_skip_the_frame() {
    assert_eq!(surface_error_action(SurfaceErrorKind::Timeout), FrameAction::SkipFrame);
    assert_eq!(surface_error_action(SurfaceErrorKind::Outdated), FrameAction::SkipFrame);
}

#[test]
fn resize_accepted_only_when_both_dimensions_positive() {
    assert_eq!(accept_resize(640, 480), Some((640, 480)));
    assert_eq!(accept_resize(0, 480), None);
    assert_eq!(accept_resize(640, 0), None);
    assert_eq!(accept_resize(0, 0), None);
}
