use winframe::device::{Color, ScriptedDevice, E_FAIL};
use winframe::geom::Size2D;
use winframe::target::{FrameOutcome, RenderTarget, StateKind, D2DERR_RECREATE_TARGET};

fn fresh() -> (RenderTarget, ScriptedDevice) {
    (RenderTarget::new(7, Size2D { width: 720, height: 640 }), ScriptedDevice::new())
}

#[test]
fn new_target_requires_creation_at_generation_zero() {
    let (rt, _dev) = fresh();
    assert_eq!(rt.state_kind(), StateKind::RequiresRecreation);
    assert_eq!(rt.generation(), 0);
}

#[test]
fn clean_frame_ends_created_with_generation_unchanged() {
    // Scenario: fresh target, begin_draw then end_draw with no platform
    // error: the machine ends in Created, generation still 0.
    let (mut rt, mut dev) = fresh();
    let ctx = rt.begin_draw(&mut dev).expect("device surface must be creatable");
    assert_eq!(rt.state_kind(), StateKind::Drawing);
    let outcome = ctx.end_draw(&mut rt, &mut dev);
    assert!(matches!(outcome, FrameOutcome::Presented));
    assert_eq!(rt.state_kind(), StateKind::Created);
    assert_eq!(rt.generation(), 0);
}

#[test]
fn device_loss_bumps_generation_and_recovers_in_one_begin() {
    // Scenario: end_draw reporting recreate-required leaves the machine
    // requiring re-creation with generation 1; the next begin_draw goes
    // straight through to Drawing by transparently rebuilding.
    let (mut rt, mut dev) = fresh();
    dev.push_frame_code(D2DERR_RECREATE_TARGET);
    let ctx = rt.begin_draw(&mut dev).expect("device surface must be creatable");
    let outcome = ctx.end_draw(&mut rt, &mut dev);
    assert!(matches!(outcome, FrameOutcome::RecreateRequired));
    assert_eq!(rt.state_kind(), StateKind::RequiresRecreation);
    assert_eq!(rt.generation(), 1);

    let ctx = rt.begin_draw(&mut dev).expect("recovery must rebuild the surface");
    assert_eq!(rt.state_kind(), StateKind::Drawing);
    assert_eq!(rt.generation(), 1);
    let outcome = ctx.end_draw(&mut rt, &mut dev);
    assert!(matches!(outcome, FrameOutcome::Presented));
    assert_eq!(rt.state_kind(), StateKind::Created);
    assert_eq!(rt.generation(), 1);
}

#[test]
fn generation_advances_by_exactly_one_per_loss() {
    let (mut rt, mut dev) = fresh();
    for expected in 1u64..=3 {
        dev.push_frame_code(D2DERR_RECREATE_TARGET);
        let ctx = rt.begin_draw(&mut dev).unwrap();
        let outcome = ctx.end_draw(&mut rt, &mut dev);
        assert!(matches!(outcome, FrameOutcome::RecreateRequired));
        assert_eq!(rt.generation(), expected);
    }
}

#[test]
fn brush_is_stamped_with_current_generation() {
    // A resource made before a device loss carries a generation strictly
    // below the target's generation after the loss; one made after
    // carries the new generation.
    let (mut rt, mut dev) = fresh();
    let early = rt
        .make_solid_color_brush(&mut dev, Color::rgb(255, 0, 0))
        .expect("brush creation must succeed");
    assert_eq!(early.generation(), 0);
    assert_eq!(rt.state_kind(), StateKind::Created);

    dev.push_frame_code(D2DERR_RECREATE_TARGET);
    let ctx = rt.begin_draw(&mut dev).unwrap();
    ctx.end_draw(&mut rt, &mut dev);
    assert_eq!(rt.generation(), 1);
    assert!(early.generation() < rt.generation());

    let late = rt
        .make_solid_color_brush(&mut dev, Color::rgb(0, 0, 255))
        .expect("brush creation must succeed");
    assert_eq!(late.generation(), rt.generation());
    assert_eq!(late.color(), Color::rgb(0, 0, 255));
}

#[test]
fn brushes_get_distinct_device_resources() {
    let (mut rt, mut dev) = fresh();
    let a = rt.make_solid_color_brush(&mut dev, Color::rgb(1, 2, 3)).unwrap();
    let b = rt.make_solid_color_brush(&mut dev, Color::rgb(4, 5, 6)).unwrap();
    assert_ne!(a.device_brush(), b.device_brush());
}

#[test]
fn brush_creation_during_frame_keeps_drawing_state() {
    let (mut rt, mut dev) = fresh();
    let ctx = rt.begin_draw(&mut dev).unwrap();
    let brush = rt.make_solid_color_brush(&mut dev, Color::rgb(9, 9, 9)).unwrap();
    assert_eq!(brush.generation(), 0);
    assert_eq!(rt.state_kind(), StateKind::Drawing);
    let outcome = ctx.end_draw(&mut rt, &mut dev);
    assert!(matches!(outcome, FrameOutcome::Presented));
}

#[test]
fn unexpected_end_error_is_reported_fatal() {
    let (mut rt, mut dev) = fresh();
    dev.push_frame_code(E_FAIL);
    let ctx = rt.begin_draw(&mut dev).unwrap();
    let outcome = ctx.end_draw(&mut rt, &mut dev);
    match outcome {
        FrameOutcome::Failed(e) => {
            assert_eq!(e.code(), E_FAIL);
            assert_eq!(e.source_hint(), "EndDraw");
        }
        _ => panic!("an unexpected platform error must be reported as Failed"),
    }
    assert_eq!(rt.generation(), 0);
}

#[test]
fn surface_creation_failure_is_reported() {
    let (mut rt, mut dev) = fresh();
    dev.set_surface_creation_failure(true);
    let err = rt.begin_draw(&mut dev).err().expect("creation must fail");
    assert_eq!(err.code(), E_FAIL);
    assert_eq!(err.source_hint(), "create_device_surface");
    assert_eq!(rt.state_kind(), StateKind::RequiresRecreation);
    // Once the environment recovers, the same target can proceed.
    dev.set_surface_creation_failure(false);
    let ctx = rt.begin_draw(&mut dev).expect("creation must now succeed");
    assert!(matches!(ctx.end_draw(&mut rt, &mut dev), FrameOutcome::Presented));
}

#[test]
fn brush_creation_failure_is_reported() {
    let (mut rt, mut dev) = fresh();
    dev.set_brush_creation_failure(true);
    let err = rt
        .make_solid_color_brush(&mut dev, Color::rgb(1, 1, 1))
        .err()
        .expect("brush creation must fail");
    assert_eq!(err.code(), E_FAIL);
    assert_eq!(err.source_hint(), "CreateSolidColorBrush");
}

#[test]
fn frame_report_classification_presents_on_success() {
    let (mut rt, mut dev) = fresh();
    let _ctx = rt.begin_draw(&mut dev).unwrap();
    let outcome = rt.apply_end_draw_report(Ok(()));
    assert!(matches!(outcome, FrameOutcome::Presented));
    assert_eq!(rt.state_kind(), StateKind::Created);
    assert_eq!(rt.generation(), 0);
}

#[test]
fn frame_report_classification_recovers_on_recreate_code() {
    // Exactly the platform's recreate-required code is swallowed into the
    // recovery transition.
    let (mut rt, mut dev) = fresh();
    let _ctx = rt.begin_draw(&mut dev).unwrap();
    let outcome = rt.apply_end_draw_report(Err(D2DERR_RECREATE_TARGET));
    assert!(matches!(outcome, FrameOutcome::RecreateRequired));
    assert_eq!(rt.state_kind(), StateKind::RequiresRecreation);
    assert_eq!(rt.generation(), 1);
}

#[test]
fn frame_report_classification_fails_on_any_other_code() {
    let (mut rt, mut dev) = fresh();
    let _ctx = rt.begin_draw(&mut dev).unwrap();
    match rt.apply_end_draw_report(Err(E_FAIL)) {
        FrameOutcome::Failed(e) => {
            assert_eq!(e.code(), E_FAIL);
            assert_eq!(e.source_hint(), "EndDraw");
        }
        _ => panic!("an unexpected code must be reported as Failed"),
    }
    assert_eq!(rt.state_kind(), StateKind::Drawing);
    assert_eq!(rt.generation(), 0);
}

#[test]
fn poisoned_state_is_never_observed() {
    // Across a varied, contract-respecting sequence of operations —
    // clean frames, device losses, brush creation, even a failed end —
    // the observable state is never the poisoned one.
    let (mut rt, mut dev) = fresh();
    let mut observed = vec![rt.state_kind()];
    let ctx = rt.begin_draw(&mut dev).unwrap();
    observed.push(rt.state_kind());
    ctx.end_draw(&mut rt, &mut dev);
    observed.push(rt.state_kind());

    dev.push_frame_code(D2DERR_RECREATE_TARGET);
    let ctx = rt.begin_draw(&mut dev).unwrap();
    ctx.end_draw(&mut rt, &mut dev);
    observed.push(rt.state_kind());

    rt.make_solid_color_brush(&mut dev, Color::rgb(0, 0, 0)).unwrap();
    observed.push(rt.state_kind());

    dev.push_frame_code(E_FAIL);
    let ctx = rt.begin_draw(&mut dev).unwrap();
    ctx.end_draw(&mut rt, &mut dev);
    observed.push(rt.state_kind());

    for state in observed {
        assert_ne!(state, StateKind::Poisoned);
    }
}

#[test]
fn second_frame_reuses_the_surface() {
    let (mut rt, mut dev) = fresh();
    let ctx = rt.begin_draw(&mut dev).unwrap();
    let first_surface = ctx.surface();
    ctx.end_draw(&mut rt, &mut dev);
    let ctx = rt.begin_draw(&mut dev).unwrap();
    assert_eq!(ctx.surface(), first_surface);
    ctx.end_draw(&mut rt, &mut dev);
}

#[test]
fn recovery_rebuilds_a_fresh_surface() {
    let (mut rt, mut dev) = fresh();
    dev.push_frame_code(D2DERR_RECREATE_TARGET);
    let ctx = rt.begin_draw(&mut dev).unwrap();
    let lost_surface = ctx.surface();
    ctx.end_draw(&mut rt, &mut dev);
    let ctx = rt.begin_draw(&mut dev).unwrap();
    assert_ne!(ctx.surface(), lost_surface);
    ctx.end_draw(&mut rt, &mut dev);
}
