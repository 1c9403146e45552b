use vsg::coords::{normalize, NormalizedCoordinate, RawPosition, Viewport};
use vsg::params::{
    apply_scroll, drain_pointer_moves, drain_scrolls, route_input, StimulusParameters,
};
use vsg::session::Session;
use vsg::transform::{synthesize, STIM_DEPTH};
use vsg::units::{StimError, COORD_UNIT, MAX_DIM, ORIENT_UNIT, SENS_DEN};
use vsg::variant::{MaterialHandle, MaterialRegistry, StimulusVariant};

// One device pixel, in coordinate units.
const PX: i64 = COORD_UNIT;

fn square_viewport() -> Viewport {
    Viewport { width: 800 * PX, height: 800 * PX }
}

fn full_registry() -> MaterialRegistry {
    MaterialRegistry {
        grating: Some(MaterialHandle { id: 11 }),
        gabor: Some(MaterialHandle { id: 22 }),
    }
}

#[test]
fn normalize_center_of_square_viewport() {
    let r = normalize(RawPosition { x: 400 * PX, y: 400 * PX }, &square_viewport());
    assert_eq!(r, Ok(NormalizedCoordinate { x: 0, y: 0 }));
}

#[test]
fn normalize_corners_of_square_viewport() {
    let vp = square_viewport();
    assert_eq!(
        normalize(RawPosition { x: 0, y: 0 }, &vp),
        Ok(NormalizedCoordinate { x: -COORD_UNIT, y: -COORD_UNIT })
    );
    assert_eq!(
        normalize(RawPosition { x: 800 * PX, y: 800 * PX }, &vp),
        Ok(NormalizedCoordinate { x: COORD_UNIT, y: COORD_UNIT })
    );
}

#[test]
fn normalize_stays_in_range_across_viewport() {
    let vp = Viewport { width: 800 * PX, height: 600 * PX };
    for px in 0..=800i64 {
        let y = (px * 600) / 800;
        let c = normalize(RawPosition { x: px * PX, y: y * PX }, &vp).unwrap();
        assert!(-COORD_UNIT <= c.x && c.x <= COORD_UNIT);
        assert!(-COORD_UNIT <= c.y && c.y <= COORD_UNIT);
    }
}

#[test]
fn normalize_accepts_largest_dimension() {
    let vp = Viewport { width: MAX_DIM, height: MAX_DIM };
    let c = normalize(RawPosition { x: MAX_DIM, y: 0 }, &vp).unwrap();
    assert_eq!(c, NormalizedCoordinate { x: COORD_UNIT, y: -COORD_UNIT });
}

#[test]
fn normalize_rejects_zero_viewport() {
    let vp = Viewport { width: 0, height: 600 * PX };
    let r = normalize(RawPosition { x: PX, y: PX }, &vp);
    assert_eq!(r, Err(StimError::InvalidViewport));
}

#[test]
fn normalize_rejects_negative_viewport() {
    let vp = Viewport { width: 800 * PX, height: -1 };
    let r = normalize(RawPosition { x: PX, y: PX }, &vp);
    assert_eq!(r, Err(StimError::InvalidViewport));
}

#[test]
fn scroll_scenario_single_event() {
    // Starting orientation 0.0; one scroll event of 2.0 at sensitivity 0.1
    // leaves an orientation of 0.2 radians.
    let mut p = StimulusParameters::default();
    drain_scrolls(&mut p, &vec![2 * COORD_UNIT]);
    // 0.2 radians, in orientation units; the scales relate by the
    // sensitivity, so the delta is accumulated without rounding.
    assert_eq!(ORIENT_UNIT, COORD_UNIT * SENS_DEN);
    assert_eq!(p.orientation, ORIENT_UNIT / 5);
    assert_eq!(p.position, NormalizedCoordinate { x: 0, y: 0 });
}

#[test]
fn scroll_sum_is_order_independent() {
    let mut a = StimulusParameters::default();
    a.orientation = 7;
    let mut b = a;
    drain_scrolls(&mut a, &vec![100, -250, 75]);
    drain_scrolls(&mut b, &vec![75, 100, -250]);
    assert_eq!(a.orientation, 7 + 100 - 250 + 75);
    assert_eq!(a.orientation, b.orientation);
}

#[test]
fn scroll_accumulates_and_never_resets() {
    let mut p = StimulusParameters::default();
    drain_scrolls(&mut p, &vec![500, 500]);
    drain_scrolls(&mut p, &Vec::new());
    drain_scrolls(&mut p, &vec![-200]);
    assert_eq!(p.orientation, 800);
    assert_eq!(apply_scroll(p.orientation, 200), 1000);
}

#[test]
fn pointer_drain_last_event_wins() {
    let vp = square_viewport();
    let mut p = StimulusParameters::default();
    let moves = vec![
        RawPosition { x: 0, y: 0 },
        RawPosition { x: 100 * PX, y: 700 * PX },
        RawPosition { x: 800 * PX, y: 400 * PX },
    ];
    assert_eq!(drain_pointer_moves(&mut p, &moves, &vp), Ok(()));
    assert_eq!(p.position, NormalizedCoordinate { x: COORD_UNIT, y: 0 });
}

#[test]
fn pointer_drain_empty_queue_is_idle() {
    let vp = square_viewport();
    let mut p = StimulusParameters::default();
    let before = p;
    assert_eq!(drain_pointer_moves(&mut p, &Vec::new(), &vp), Ok(()));
    assert_eq!(p, before);
}

#[test]
fn pointer_drain_invalid_viewport_keeps_parameters() {
    let vp = Viewport { width: -800, height: 600 * PX };
    let mut p = StimulusParameters::default();
    let before = p;
    let r = drain_pointer_moves(&mut p, &vec![RawPosition { x: PX, y: PX }], &vp);
    assert_eq!(r, Err(StimError::InvalidViewport));
    assert_eq!(p, before);
}

#[test]
fn router_updates_both_parameters_in_one_frame() {
    let vp = square_viewport();
    let mut p = StimulusParameters::default();
    let moves = vec![RawPosition { x: 200 * PX, y: 600 * PX }];
    let r = route_input(&mut p, &moves, &vec![4 * COORD_UNIT, -COORD_UNIT], &vp);
    assert_eq!(r, Ok(()));
    assert_eq!(p.position, NormalizedCoordinate { x: -COORD_UNIT / 2, y: COORD_UNIT / 2 });
    assert_eq!(p.orientation, 3 * COORD_UNIT);
}

#[test]
fn router_is_idle_on_empty_queues() {
    let vp = square_viewport();
    let mut p = StimulusParameters::default();
    p.orientation = 42;
    let before = p;
    let r = route_input(&mut p, &Vec::new(), &Vec::new(), &vp);
    assert_eq!(r, Ok(()));
    assert_eq!(p, before);
}

#[test]
fn synthesize_is_idempotent() {
    let mut p = StimulusParameters::default();
    drain_scrolls(&mut p, &vec![123_456]);
    let t1 = synthesize(&p);
    let t2 = synthesize(&p);
    assert_eq!(t1, t2);
    assert_eq!(t1.x, p.position.x);
    assert_eq!(t1.y, p.position.y);
    assert_eq!(t1.rotation, p.orientation);
    assert_eq!(t1.depth, STIM_DEPTH);
}

#[test]
fn toggle_scenario_two_presses() {
    // Grating, one toggle to Gabor, a second toggle back to Grating.
    let v0 = StimulusVariant::Grating;
    let v1 = v0.toggle();
    assert_eq!(v1, StimulusVariant::Gabor);
    let v2 = v1.toggle();
    assert_eq!(v2, StimulusVariant::Grating);
}

#[test]
fn session_setup_defaults() {
    let s = Session::new(full_registry()).unwrap();
    assert_eq!(s.params, StimulusParameters::default());
    assert_eq!(s.entity.variant, StimulusVariant::Grating);
    assert_eq!(s.entity.material, MaterialHandle { id: 11 });
    assert_eq!(s.entity.transform.x, 0);
    assert_eq!(s.entity.transform.y, 0);
    assert_eq!(s.entity.transform.depth, STIM_DEPTH);
    assert_eq!(s.entity.transform.rotation, 0);
    assert!(!s.toggle_pending);
}

#[test]
fn session_setup_fails_without_initial_payload() {
    let reg = MaterialRegistry { grating: None, gabor: Some(MaterialHandle { id: 22 }) };
    assert_eq!(Session::new(reg).unwrap_err(), StimError::VariantUnavailable);
}

#[test]
fn double_toggle_restores_material_handle() {
    let mut s = Session::new(full_registry()).unwrap();
    let vp = square_viewport();
    let handle_before = s.entity.material;

    s.request_toggle();
    let r1 = s.tick(&Vec::new(), &Vec::new(), &vp);
    assert_eq!(s.entity.variant, StimulusVariant::Gabor);
    assert_eq!(r1.snapshot.material, MaterialHandle { id: 22 });

    s.request_toggle();
    let r2 = s.tick(&Vec::new(), &Vec::new(), &vp);
    assert_eq!(s.entity.variant, StimulusVariant::Grating);
    assert_eq!(r2.snapshot.material, handle_before);
}

#[test]
fn toggle_at_frame_boundary_never_breaks_binding() {
    // A simulated scheduler: toggle requests land between, before and after
    // frames; every frame's snapshot must carry exactly the registry payload
    // of the variant active that frame.
    let reg = full_registry();
    let mut s = Session::new(reg).unwrap();
    let vp = square_viewport();
    for step in 0..16i64 {
        if step % 3 == 0 {
            s.request_toggle();
        }
        let rep = s.tick(&vec![RawPosition { x: step * 50 * PX, y: 0 }], &vec![step], &vp);
        let expected = match s.entity.variant {
            StimulusVariant::Grating => reg.grating.unwrap(),
            StimulusVariant::Gabor => reg.gabor.unwrap(),
        };
        assert_eq!(rep.snapshot.material, expected);
        assert_eq!(rep.toggle_error, None);
        assert_eq!(rep.input_error, None);
        if step % 3 == 0 {
            // The swap itself waited for the frame boundary and then took
            // effect before the draw.
            assert!(!s.toggle_pending);
        }
    }
}

#[test]
fn toggle_to_unavailable_variant_is_rejected() {
    let reg = MaterialRegistry { grating: Some(MaterialHandle { id: 11 }), gabor: None };
    let mut s = Session::new(reg).unwrap();
    let vp = square_viewport();
    s.request_toggle();
    let rep = s.tick(&Vec::new(), &vec![1_000], &vp);
    // The toggle failed loudly, the entity kept its prior valid state, and
    // the frame still rendered with the scroll applied.
    assert_eq!(rep.toggle_error, Some(StimError::VariantUnavailable));
    assert_eq!(s.entity.variant, StimulusVariant::Grating);
    assert_eq!(rep.snapshot.material, MaterialHandle { id: 11 });
    assert_eq!(s.params.orientation, 1_000);
    assert_eq!(rep.snapshot.transform.rotation, 1_000);
}

#[test]
fn tick_orders_input_before_synthesis() {
    let mut s = Session::new(full_registry()).unwrap();
    let vp = square_viewport();
    let rep = s.tick(
        &vec![RawPosition { x: 600 * PX, y: 200 * PX }],
        &vec![COORD_UNIT, -3 * COORD_UNIT],
        &vp,
    );
    // position (600, 200) of 800x800 -> (0.5, -0.5); orientation -2.0 of
    // scroll at 0.1 sensitivity -> -0.2 radians.
    assert_eq!(s.params.position, NormalizedCoordinate { x: COORD_UNIT / 2, y: -COORD_UNIT / 2 });
    assert_eq!(s.params.orientation, -2 * COORD_UNIT);
    assert_eq!(rep.snapshot.transform.x, COORD_UNIT / 2);
    assert_eq!(rep.snapshot.transform.y, -COORD_UNIT / 2);
    assert_eq!(rep.snapshot.transform.rotation, -2 * COORD_UNIT);
    assert_eq!(rep.input_error, None);
    assert_eq!(rep.toggle_error, None);
}

#[test]
fn tick_with_invalid_viewport_reports_and_continues() {
    let mut s = Session::new(full_registry()).unwrap();
    let bad = Viewport { width: 0, height: 0 };
    let rep = s.tick(&vec![RawPosition { x: PX, y: PX }], &vec![500], &bad);
    assert_eq!(rep.input_error, Some(StimError::InvalidViewport));
    // The frame was not aborted: the scroll applied and a snapshot with a
    // valid binding was still produced.
    assert_eq!(s.params.position, NormalizedCoordinate { x: 0, y: 0 });
    assert_eq!(s.params.orientation, 500);
    assert_eq!(rep.snapshot.material, MaterialHandle { id: 11 });
}

#[test]
fn idle_frames_change_nothing() {
    let mut s = Session::new(full_registry()).unwrap();
    let vp = square_viewport();
    let before = s;
    let rep = s.tick(&Vec::new(), &Vec::new(), &vp);
    assert_eq!(s, before);
    assert_eq!(rep.input_error, None);
    assert_eq!(rep.toggle_error, None);
    assert_eq!(rep.snapshot.transform, before.entity.transform);
}
