use oxide_dock::layout::{base_positions, calc_dock_layout};

// Five 48-pixel icons, 10-pixel spacing, pointer far outside the bar:
// every scale is one and the bar is 5*48 + 4*10 + 2*12 = 304 pixels wide
// (304_000 milli-pixels), centered in a 1920-pixel window.
#[test]
fn five_icons_idle_width() {
    let base = base_positions(5, 1920);
    assert_eq!(base.len(), 5);
    // Idle bar: (1920_000 - 304_000) / 2 = 808_000; icons start at +12_000.
    assert_eq!(base[0], 820_000);
    assert_eq!(base[1], 878_000);

    let layout = calc_dock_layout(&base, Some(50_000_000), 1920, 200);
    for icon in &layout.icons {
        assert_eq!(icon.scale, 1000);
    }
    assert_eq!(layout.bar_width, 304_000);
    assert_eq!(layout.bar_x, 808_000);
    assert_eq!(layout.bar_height, 60_000);
    // Bar sits 8 px above the bottom of the 200 px window.
    assert_eq!(layout.bar_y, 200_000 - 60_000 - 8_000);
}

// Solving twice with identical inputs yields bit-identical output.
#[test]
fn solver_is_pure() {
    let base = base_positions(7, 2560);
    let l1 = calc_dock_layout(&base, Some(1_280_000), 2560, 200);
    let l2 = calc_dock_layout(&base, Some(1_280_000), 2560, 200);
    assert_eq!(l1, l2);
    let l3 = calc_dock_layout(&base, None, 2560, 200);
    let l4 = calc_dock_layout(&base, None, 2560, 200);
    assert_eq!(l3, l4);
}

// Index order is kept: icon i ends at or before icon i+1 begins, under
// magnification too.
#[test]
fn icons_never_overlap() {
    let base = base_positions(6, 1920);
    let layout = calc_dock_layout(&base, Some(base[2] + 24_000), 1920, 200);
    for i in 0..5 {
        let end_i = layout.icons[i].x + (layout.icons[i].scale as i64) * 48;
        assert!(end_i <= layout.icons[i + 1].x);
    }
}

// A magnified icon grows upward from the bar's inner bottom edge.
#[test]
fn magnified_icon_rises() {
    let base = base_positions(3, 1920);
    let idle = calc_dock_layout(&base, None, 1920, 200);
    let hot = calc_dock_layout(&base, Some(base[1] + 24_000), 1920, 200);
    assert!(hot.icons[1].scale > idle.icons[1].scale);
    assert!(hot.icons[1].y < idle.icons[1].y);
    // The bar itself keeps its height and vertical position.
    assert_eq!(hot.bar_height, idle.bar_height);
    assert_eq!(hot.bar_y, idle.bar_y);
    assert!(hot.bar_width > idle.bar_width);
}

// Zero icons: the bar is just the two paddings, nothing panics.
#[test]
fn empty_dock() {
    let base = base_positions(0, 1920);
    let layout = calc_dock_layout(&base, None, 1920, 200);
    assert_eq!(layout.icons.len(), 0);
    assert_eq!(layout.bar_width, 24_000);
}

// A window narrower than the bar is accepted: the left edge goes
// negative, the solver does not clamp.
#[test]
fn narrow_window_not_clamped() {
    let base = base_positions(5, 100);
    let layout = calc_dock_layout(&base, None, 100, 200);
    assert_eq!(layout.bar_width, 304_000);
    assert!(layout.bar_x < 0);
    assert_eq!(layout.bar_x, -(304_000 - 100_000) / 2);
}
