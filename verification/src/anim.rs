//! Animation driver: turn a layout delta into per-visual interpolation
//! requests.
//!
//! For every icon the driver emits one request carrying the scale and
//! position it is coming from (the old layout) and the ones it should
//! reach (the new layout) over a fixed short duration, plus the bar
//! background's new rectangle. Requests are fire-and-forget: they are
//! posted into per-visual registers where the newest request simply
//! overwrites any interpolation still in flight for the same visual —
//! last write wins, nothing queues, and no completion ever feeds back
//! into the state machine.

use vstd::prelude::*;
use crate::layout::DockLayout;

verus! {

/// Duration of one interpolation, in 100-nanosecond units (80 ms).
pub const ANIM_DURATION: i64 = 800_000;

/// One interpolation request for one icon visual.
#[derive(Clone, Copy, Debug, PartialEq, Eq, Structural)]
pub struct AnimRequest {
    /// Which icon visual this request targets.
    pub index: usize,
    /// Scale the visual is coming from, in milli-units.
    pub from_scale: u32,
    /// Scale the visual should reach.
    pub to_scale: u32,
    /// Position the visual is coming from, in milli-pixels.
    pub from_x: i64,
    pub from_y: i64,
    /// Position the visual should reach.
    pub to_x: i64,
    pub to_y: i64,
    /// Interpolation duration in 100-nanosecond units.
    pub duration: i64,
}

/// Everything one layout change asks the renderer to animate: one request
/// per icon and the bar background's new rectangle (applied immediately,
/// with its rounded-corner clip resized alongside).
#[derive(Clone, Debug)]
pub struct AnimationPlan {
    pub icons: Vec<AnimRequest>,
    pub bar_x: i64,
    pub bar_y: i64,
    pub bar_width: i64,
    pub bar_height: i64,
}

/// The request icon `i` is owed for the step from `old_l` to `new_l`.
pub open spec fn spec_anim_request(old_l: DockLayout, new_l: DockLayout, i: int) -> AnimRequest {
    AnimRequest {
        index: i as usize,
        from_scale: old_l.icons@[i].scale,
        to_scale: new_l.icons@[i].scale,
        from_x: old_l.icons@[i].x,
        from_y: old_l.icons@[i].y,
        to_x: new_l.icons@[i].x,
        to_y: new_l.icons@[i].y,
        duration: ANIM_DURATION,
    }
}

/// Convert a layout delta into one interpolation request per icon plus
/// the bar update. The two layouts must describe the same icon set.
pub fn drive(old_l: &DockLayout, new_l: &DockLayout) -> (plan: AnimationPlan)
    requires
        old_l.icons@.len() == new_l.icons@.len(),
    ensures
        plan.icons@.len() == new_l.icons@.len(),
        forall|i: int| 0 <= i < new_l.icons@.len()
            ==> #[trigger] plan.icons@[i] == spec_anim_request(*old_l, *new_l, i),
        plan.bar_x == new_l.bar_x,
        plan.bar_y == new_l.bar_y,
        plan.bar_width == new_l.bar_width,
        plan.bar_height == new_l.bar_height,
{
    let n = new_l.icons.len();
    let mut icons: Vec<AnimRequest> = Vec::new();
    for k in 0..n
        invariant
            n == new_l.icons@.len() == old_l.icons@.len(),
            icons@.len() == k,
            forall|i: int| 0 <= i < k
                ==> #[trigger] icons@[i] == spec_anim_request(*old_l, *new_l, i),
    {
        let from = old_l.icons[k];
        let to = new_l.icons[k];
        icons.push(AnimRequest {
            index: k,
            from_scale: from.scale,
            to_scale: to.scale,
            from_x: from.x,
            from_y: from.y,
            to_x: to.x,
            to_y: to.y,
            duration: ANIM_DURATION,
        });
    }
    AnimationPlan {
        icons,
        bar_x: new_l.bar_x,
        bar_y: new_l.bar_y,
        bar_width: new_l.bar_width,
        bar_height: new_l.bar_height,
    }
}

/// The per-visual registers of the animation subsystem: slot `i` holds the
/// most recently posted request for icon visual `i`, or `None` while no
/// request was ever posted. The renderer always reads the newest target,
/// so overwriting a slot is exactly the "cancel the in-flight
/// interpolation" of the model.
#[derive(Clone, Debug)]
pub struct AnimRegisters {
    pub slots: Vec<Option<AnimRequest>>,
}

/// Fresh registers for `n` icon visuals, all empty.
pub fn anim_registers_new(n: usize) -> (regs: AnimRegisters)
    ensures
        regs.slots@.len() == n,
        forall|i: int| 0 <= i < n ==> (#[trigger] regs.slots@[i]) is None,
{
    let mut slots: Vec<Option<AnimRequest>> = Vec::new();
    for k in 0..n
        invariant
            slots@.len() == k,
            forall|i: int| 0 <= i < k ==> (#[trigger] slots@[i]) is None,
    {
        slots.push(None);
    }
    AnimRegisters { slots }
}

/// Post one request: it replaces outright whatever was pending for the
/// same visual, and touches no other slot.
pub fn post(regs: &mut AnimRegisters, req: AnimRequest)
    requires
        req.index < old(regs).slots@.len(),
    ensures
        final(regs).slots@ == old(regs).slots@.update(req.index as int, Some(req)),
{
    let i = req.index;
    regs.slots.set(i, Some(req));
}

/// Post a whole plan, one request per icon visual.
pub fn post_plan(regs: &mut AnimRegisters, plan: &AnimationPlan)
    requires
        plan.icons@.len() == old(regs).slots@.len(),
        forall|i: int| 0 <= i < plan.icons@.len()
            ==> (#[trigger] plan.icons@[i]).index == i,
    ensures
        final(regs).slots@.len() == old(regs).slots@.len(),
        forall|i: int| 0 <= i < plan.icons@.len()
            ==> #[trigger] final(regs).slots@[i] == Some(plan.icons@[i]),
{
    let n = plan.icons.len();
    for k in 0..n
        invariant
            n == plan.icons@.len(),
            regs.slots@.len() == n,
            forall|i: int| 0 <= i < n ==> (#[trigger] plan.icons@[i]).index == i,
            forall|i: int| 0 <= i < k ==> #[trigger] regs.slots@[i] == Some(plan.icons@[i]),
    {
        post(regs, plan.icons[k]);
    }
}

/// Last write wins: posting a request and then a second one for the same
/// visual leaves the registers exactly as if only the second had ever
/// been posted — no queue of stale targets builds up.
pub proof fn lemma_last_write_wins(
    slots: Seq<Option<AnimRequest>>,
    first: AnimRequest,
    second: AnimRequest,
)
    requires
        first.index == second.index < slots.len(),
    ensures
        slots.update(first.index as int, Some(first)).update(second.index as int, Some(second))
            == slots.update(second.index as int, Some(second)),
{
    assert(slots.update(first.index as int, Some(first)).update(
        second.index as int,
        Some(second),
    ) =~= slots.update(second.index as int, Some(second)));
}

} // verus!
