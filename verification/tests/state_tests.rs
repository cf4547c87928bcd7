use oxide_dock::state::{
    apply_reservation_outcome, dock_state_new, dock_window_placement, handle_event, hit_test,
    reserve_rect, teardown_actions, Event, Rect, ReservationAction, ScreenGeometry, ShellAction,
};

fn test_geometry() -> ScreenGeometry {
    ScreenGeometry { width: 1920, height: 1080, scale_factor: 1000, origin_x: 0, origin_y: 0 }
}

#[test]
fn new_state_is_idle() {
    let s = dock_state_new(vec![Some(1), None, Some(3)], test_geometry());
    assert_eq!(s.icons.len(), 3);
    assert!(!s.is_magnified);
    assert!(!s.is_dock_hidden);
    assert!(s.pointer_x.is_none());
    assert!(s.reserved.is_none());
    for (i, icon) in s.icons.iter().enumerate() {
        assert_eq!(icon.index, i);
        assert_eq!(icon.current_scale, 1000);
        assert_eq!(icon.target_scale, 1000);
    }
    // Base positions ascend one 58-pixel slot apart.
    assert_eq!(s.icons[1].base_x - s.icons[0].base_x, 58_000);
    assert_eq!(s.icons[2].base_x - s.icons[1].base_x, 58_000);
    // The slot without a bitmap keeps its place.
    assert_eq!(s.icons[1].bitmap_ref, None);
}

#[test]
fn pointer_move_magnifies_and_rearms() {
    let mut s = dock_state_new(vec![None; 4], test_geometry());
    let x = s.icons[1].base_x + 24_000;
    let eff = handle_event(&mut s, Event::PointerMoved(x));
    assert!(s.is_magnified);
    assert_eq!(s.pointer_x, Some(x));
    assert!(eff.rearm_leave);
    assert_eq!(eff.reservation, ReservationAction::Keep);
    assert_eq!(eff.layout.icons[1].scale, 1800);
    assert_eq!(s.icons[1].target_scale, 1800);
    assert_eq!(s.icons[1].current_scale, 1000);

    // Re-entering the magnified state is just a fresh solve.
    let eff2 = handle_event(&mut s, Event::PointerMoved(x));
    assert_eq!(eff2.layout, eff.layout);
    assert_eq!(s.icons[1].current_scale, 1800);
}

#[test]
fn pointer_leave_returns_to_idle() {
    let mut s = dock_state_new(vec![None; 4], test_geometry());
    let x = s.icons[2].base_x + 24_000;
    handle_event(&mut s, Event::PointerMoved(x));
    let eff = handle_event(&mut s, Event::PointerLeft);
    assert!(!s.is_magnified);
    assert!(s.pointer_x.is_none());
    assert!(!eff.rearm_leave);
    assert_eq!(eff.reservation, ReservationAction::Keep);
    for icon in eff.layout.icons.iter() {
        assert_eq!(icon.scale, 1000);
    }
}

#[test]
fn geometry_change_reissues_reservation() {
    let mut s = dock_state_new(vec![None; 2], test_geometry());
    let g2 = ScreenGeometry {
        width: 2560,
        height: 1440,
        scale_factor: 1500,
        origin_x: 100,
        origin_y: 50,
    };
    let eff = handle_event(&mut s, Event::ScreenGeometryChanged(g2));
    assert_eq!(s.geometry, g2);
    // Physical strip: round(82 * 1.5) = 123 pixels at the bottom edge.
    let expected = Rect { left: 100, top: 50 + 1440 - 123, right: 100 + 2560, bottom: 50 + 1440 };
    assert_eq!(eff.reservation, ReservationAction::Reacquire(expected));
    assert_eq!(reserve_rect(&g2), expected);
}

// Hiding releases the strip; un-hiding re-issues an equivalent
// reservation and restores the placement.
#[test]
fn hidden_toggle_roundtrip() {
    let g = test_geometry();
    let mut s = dock_state_new(vec![None; 3], g);
    let before_rect = reserve_rect(&g);
    let placement_before = dock_window_placement(&g, s.is_dock_hidden);

    let eff_hide = handle_event(&mut s, Event::DockHiddenToggled(true));
    assert!(s.is_dock_hidden);
    assert_eq!(eff_hide.reservation, ReservationAction::Release);
    // Hidden: only a 4-pixel sliver stays on screen.
    let hidden_placement = dock_window_placement(&s.geometry, true);
    assert_eq!(hidden_placement.y, 1080 - 4);
    assert_eq!(hidden_placement.height, 82);

    let eff_show = handle_event(&mut s, Event::DockHiddenToggled(false));
    assert!(!s.is_dock_hidden);
    assert_eq!(eff_show.reservation, ReservationAction::Reacquire(before_rect));
    assert_eq!(dock_window_placement(&s.geometry, s.is_dock_hidden), placement_before);
}

// A refused reservation leaves layout solving and animation untouched:
// the dock continues exactly as if the call had succeeded.
#[test]
fn reservation_failure_is_harmless() {
    let g = test_geometry();
    let mut granted = dock_state_new(vec![None; 3], g);
    let mut refused = dock_state_new(vec![None; 3], g);

    let e1 = handle_event(&mut granted, Event::ScreenGeometryChanged(g));
    let e2 = handle_event(&mut refused, Event::ScreenGeometryChanged(g));
    match e1.reservation {
        ReservationAction::Reacquire(rect) => apply_reservation_outcome(&mut granted, Some(rect)),
        _ => panic!("expected a reservation request"),
    }
    apply_reservation_outcome(&mut refused, None);
    assert!(granted.reserved.is_some());
    assert!(refused.reserved.is_none());

    let x = granted.icons[0].base_x + 24_000;
    let f1 = handle_event(&mut granted, Event::PointerMoved(x));
    let f2 = handle_event(&mut refused, Event::PointerMoved(x));
    assert_eq!(f1.layout, f2.layout);
    assert_eq!(e1.layout, e2.layout);
    assert_eq!(f1.rearm_leave, f2.rearm_leave);
}

#[test]
fn hit_test_uses_base_geometry() {
    let mut s = dock_state_new(vec![None; 3], test_geometry());
    let b0 = s.icons[0].base_x;
    assert_eq!(hit_test(&s, b0), Some(0));
    assert_eq!(hit_test(&s, b0 + 47_999), Some(0));
    assert_eq!(hit_test(&s, b0 + 48_000), None); // in the gap
    assert_eq!(hit_test(&s, b0 + 58_000), Some(1));
    assert_eq!(hit_test(&s, b0 - 1), None);
    assert_eq!(hit_test(&s, i64::MIN / 2), None);

    // Hit-testing ignores the animated layout: magnify first, same result.
    handle_event(&mut s, Event::PointerMoved(b0 + 24_000));
    assert_eq!(hit_test(&s, b0 + 58_000), Some(1));
}

#[test]
fn teardown_is_unconditional() {
    let acts = teardown_actions();
    assert_eq!(acts, vec![ShellAction::ReleaseReservation, ShellAction::ShowTaskbar]);
    // Idempotent: a second teardown asks for exactly the same actions.
    assert_eq!(teardown_actions(), acts);
}
