use oxide_dock::anim::{anim_registers_new, drive, post, post_plan, AnimRequest, ANIM_DURATION};
use oxide_dock::layout::{base_positions, calc_dock_layout};

#[test]
fn drive_pairs_old_and_new() {
    let base = base_positions(3, 1920);
    let idle = calc_dock_layout(&base, None, 1920, 200);
    let hot = calc_dock_layout(&base, Some(base[1] + 24_000), 1920, 200);
    let plan = drive(&idle, &hot);
    assert_eq!(plan.icons.len(), 3);
    for (i, req) in plan.icons.iter().enumerate() {
        assert_eq!(req.index, i);
        assert_eq!(req.from_scale, idle.icons[i].scale);
        assert_eq!(req.to_scale, hot.icons[i].scale);
        assert_eq!(req.from_x, idle.icons[i].x);
        assert_eq!(req.to_x, hot.icons[i].x);
        assert_eq!(req.from_y, idle.icons[i].y);
        assert_eq!(req.to_y, hot.icons[i].y);
        assert_eq!(req.duration, ANIM_DURATION);
    }
    assert_eq!(plan.bar_x, hot.bar_x);
    assert_eq!(plan.bar_y, hot.bar_y);
    assert_eq!(plan.bar_width, hot.bar_width);
    assert_eq!(plan.bar_height, hot.bar_height);
}

fn request(index: usize, to_scale: u32) -> AnimRequest {
    AnimRequest {
        index,
        from_scale: 1000,
        to_scale,
        from_x: 0,
        from_y: 0,
        to_x: 0,
        to_y: 0,
        duration: ANIM_DURATION,
    }
}

// Last write wins: a second request for the same visual replaces the
// first outright, no queue builds up.
#[test]
fn last_write_wins() {
    let mut regs = anim_registers_new(2);
    post(&mut regs, request(0, 1200));
    post(&mut regs, request(0, 1700));
    assert_eq!(regs.slots[0], Some(request(0, 1700)));
    assert_eq!(regs.slots[1], None);

    let mut fresh = anim_registers_new(2);
    post(&mut fresh, request(0, 1700));
    assert_eq!(regs.slots[0], fresh.slots[0]);
}

#[test]
fn post_plan_fills_every_slot() {
    let base = base_positions(4, 1920);
    let idle = calc_dock_layout(&base, None, 1920, 200);
    let hot = calc_dock_layout(&base, Some(base[0] + 24_000), 1920, 200);
    let plan = drive(&idle, &hot);
    let mut regs = anim_registers_new(4);
    post_plan(&mut regs, &plan);
    for i in 0..4 {
        assert_eq!(regs.slots[i], Some(plan.icons[i]));
    }
}
