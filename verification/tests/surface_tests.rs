use screenshader::errors::RenderError;
use screenshader::surface::{
    SurfaceBinding, SurfaceCommand, SurfaceEvent, SurfacePhase,
};

#[test]
fn binding_opens_with_the_presentation_precheck() {
    let b = SurfaceBinding::new(1, 2, 0, 900);
    assert_eq!(b.command(), SurfaceCommand::QueryPresentation);
    assert_eq!(b.phase, SurfacePhase::AwaitPresentation);
    assert_eq!(b.window, 900);
}

#[test]
fn presentation_denied_fails_before_any_creation() {
    let mut b = SurfaceBinding::new(1, 2, 0, 900);
    let cmd = b.step(SurfaceEvent::PresentationSupport(false));
    assert_eq!(cmd, SurfaceCommand::Stop);
    assert_eq!(
        b.phase,
        SurfacePhase::Failed(RenderError::PresentationUnsupportedError)
    );
    // The machine is finished: even a created surface would change nothing.
    let cmd = b.step(SurfaceEvent::SurfaceCreated(77));
    assert_eq!(cmd, SurfaceCommand::Stop);
    assert_eq!(
        b.phase,
        SurfacePhase::Failed(RenderError::PresentationUnsupportedError)
    );
}

#[test]
fn incompatible_surface_fails_after_creation_succeeded() {
    let mut b = SurfaceBinding::new(1, 2, 0, 900);
    let cmd = b.step(SurfaceEvent::PresentationSupport(true));
    assert_eq!(cmd, SurfaceCommand::CreateSurface);
    let cmd = b.step(SurfaceEvent::SurfaceCreated(77));
    assert_eq!(cmd, SurfaceCommand::QuerySurfaceSupport(77));
    let cmd = b.step(SurfaceEvent::SurfaceSupport(false));
    assert_eq!(cmd, SurfaceCommand::Stop);
    assert_eq!(
        b.phase,
        SurfacePhase::Failed(RenderError::SurfaceIncompatibleError)
    );
}

#[test]
fn checked_path_binds_the_surface() {
    let mut b = SurfaceBinding::new(10, 20, 3, 900);
    b.step(SurfaceEvent::PresentationSupport(true));
    b.step(SurfaceEvent::SurfaceCreated(77));
    let cmd = b.step(SurfaceEvent::SurfaceSupport(true));
    assert_eq!(cmd, SurfaceCommand::Stop);
    match b.phase {
        SurfacePhase::Bound(s) => {
            assert_eq!(s.raw, 77);
            assert_eq!(s.window, 900);
            assert_eq!(s.instance_stamp, 10);
            assert_eq!(s.adapter_id, 20);
            assert_eq!(s.family_index, 3);
        }
        other => panic!("expected a bound surface, found {:?}", other),
    }
}

#[test]
fn out_of_protocol_answers_change_nothing() {
    let mut b = SurfaceBinding::new(1, 2, 0, 900);
    let cmd = b.step(SurfaceEvent::SurfaceSupport(true));
    assert_eq!(cmd, SurfaceCommand::QueryPresentation);
    assert_eq!(b.phase, SurfacePhase::AwaitPresentation);
}
