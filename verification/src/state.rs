//! Dock state and the interaction state machine.
//!
//! A single `DockState` owns the icon sequence, the last known screen
//! geometry, the pointer state and the hidden flag. It is mutated only by
//! [`handle_event`], which consumes pointer, geometry and visibility events,
//! re-solves the layout, and tells the caller which shell-side effects to
//! perform: whether to re-arm the one-shot pointer-leave notification and
//! what to do about the reserved screen strip. The caller performs those
//! effects and reports the reservation outcome back through
//! [`apply_reservation_outcome`]; a refused reservation leaves everything
//! but the stored handle untouched, so the dock keeps rendering and
//! reacting without reserved space.

use vstd::prelude::*;
use crate::layout::{
    DockLayout, spec_layout_matches, calc_dock_layout, base_positions, spec_idle_bar_x,
    BAR_PADDING_H, ICON_SIZE, ICON_SLOT, MAX_ICONS, MAX_SCALE, SCALE_ONE, BASE_LIMIT, WIN_LIMIT,
};
use crate::magnify::COORD_LIMIT;

verus! {

/// Height in pixels of the dock's window surface handed to the layout
/// solver: room for the bar and for icons magnified above it.
pub const DOCK_WINDOW_HEIGHT_PX: i64 = 200;

/// Logical height in pixels of the strip the dock occupies at the bottom
/// of the screen: the bar, its bottom margin, and pointer-tracking slack.
pub const DOCK_SURFACE_HEIGHT_PX: i64 = 82;

/// Height in pixels of the sliver left visible when the dock is hidden.
pub const HIDDEN_STRIP_PX: i64 = 4;

/// A screen-aligned rectangle in physical pixels.
#[derive(Clone, Copy, Debug, PartialEq, Eq, Structural)]
pub struct Rect {
    pub left: i64,
    pub top: i64,
    pub right: i64,
    pub bottom: i64,
}

/// Current monitor geometry: size and origin in physical pixels, and the
/// DPI scale factor in milli-units (`1000` means no scaling).
#[derive(Clone, Copy, Debug, PartialEq, Eq, Structural)]
pub struct ScreenGeometry {
    pub width: i64,
    pub height: i64,
    pub scale_factor: u32,
    pub origin_x: i64,
    pub origin_y: i64,
}

/// One dock entry. `index` is the stable ordinal assigned when the icon
/// set is finalized; `base_x` is the unmagnified left edge inside the
/// dock window, fixed at the same moment; `bitmap_ref` is an opaque handle
/// owned by the external icon provider (`None` when no bitmap could be
/// resolved — the icon keeps its slot and stays clickable).
#[derive(Clone, Copy, Debug)]
pub struct Icon {
    pub index: usize,
    pub base_x: i64,
    pub current_scale: u32,
    pub target_scale: u32,
    pub bitmap_ref: Option<u64>,
}

/// What the state machine asks the shell to do about the reserved strip.
#[derive(Clone, Copy, Debug, PartialEq, Eq, Structural)]
pub enum ReservationAction {
    /// Leave the current reservation (or its absence) as it is.
    Keep,
    /// Release any reservation; the dock reserves nothing.
    Release,
    /// Release any previous reservation, then reserve this rectangle
    /// (one-at-a-time: never two live registrations).
    Reacquire(Rect),
}

/// What one event asks the caller to do.
#[derive(Clone, Debug)]
pub struct Effects {
    /// The freshly solved layout, to hand to the animation driver.
    pub layout: DockLayout,
    /// Whether to re-arm the one-shot pointer-leave notification with the
    /// host event source.
    pub rearm_leave: bool,
    /// What to do about the reserved screen strip.
    pub reservation: ReservationAction,
}

/// The events the state machine consumes.
#[derive(Clone, Copy, Debug, PartialEq, Eq, Structural)]
pub enum Event {
    /// The pointer moved to this x-coordinate (milli-pixels, window space).
    PointerMoved(i64),
    /// The pointer left the dock surface.
    PointerLeft,
    /// The monitor changed size, position or DPI.
    ScreenGeometryChanged(ScreenGeometry),
    /// The user toggled the dock's compact (hidden) mode.
    DockHiddenToggled(bool),
}

/// The mutable dock snapshot: icon sequence, screen geometry, pointer
/// state, hidden flag, and the handle of the currently reserved strip
/// (`None` while nothing is successfully registered).
#[derive(Clone, Debug)]
pub struct DockState {
    pub icons: Vec<Icon>,
    pub geometry: ScreenGeometry,
    pub pointer_x: Option<i64>,
    pub is_magnified: bool,
    pub is_dock_hidden: bool,
    pub reserved: Option<Rect>,
}

/// The base x-positions of an icon sequence, in index order.
pub open spec fn spec_base_seq(icons: Seq<Icon>) -> Seq<i64> {
    Seq::new(icons.len(), |i: int| icons[i].base_x)
}

/// A sound screen geometry: non-negative size within the solver's limits,
/// an origin within the same limits, and a positive DPI factor of at most
/// ten.
pub open spec fn spec_geometry_wf(g: ScreenGeometry) -> bool {
    &&& 0 <= g.width <= WIN_LIMIT
    &&& 0 <= g.height <= WIN_LIMIT
    &&& -WIN_LIMIT <= g.origin_x <= WIN_LIMIT
    &&& -WIN_LIMIT <= g.origin_y <= WIN_LIMIT
    &&& 1 <= g.scale_factor <= 10_000
}

/// Well-formedness of the dock state, established by [`dock_state_new`]
/// and preserved by every event:
/// - each icon's `index` is its position, so index order is base order;
/// - base positions ascend contiguously, one fixed slot apart, and were
///   never reassigned after finalization;
/// - every scale lies within `[SCALE_ONE, MAX_SCALE]`;
/// - the dock is magnified exactly when a pointer position is known.
pub open spec fn spec_dock_wf(s: DockState) -> bool {
    &&& s.icons@.len() <= MAX_ICONS
    &&& forall|i: int| 0 <= i < s.icons@.len() ==> (#[trigger] s.icons@[i]).index == i
    &&& forall|i: int| 0 < i < s.icons@.len()
        ==> (#[trigger] s.icons@[i]).base_x == s.icons@[i - 1].base_x + ICON_SLOT
    &&& forall|i: int| 0 <= i < s.icons@.len()
        ==> -BASE_LIMIT <= (#[trigger] s.icons@[i]).base_x <= BASE_LIMIT
    &&& forall|i: int| 0 <= i < s.icons@.len()
        ==> SCALE_ONE <= (#[trigger] s.icons@[i]).current_scale <= MAX_SCALE
    &&& forall|i: int| 0 <= i < s.icons@.len()
        ==> SCALE_ONE <= (#[trigger] s.icons@[i]).target_scale <= MAX_SCALE
    &&& s.is_magnified <==> s.pointer_x is Some
    &&& s.pointer_x matches Some(x) ==> -COORD_LIMIT <= x <= COORD_LIMIT
    &&& spec_geometry_wf(s.geometry)
}

/// Physical height in pixels of the dock surface under the given DPI
/// factor: the logical height scaled and rounded half-up.
pub open spec fn spec_surface_height_px(scale_factor: int) -> int {
    (DOCK_SURFACE_HEIGHT_PX * scale_factor + 500) / 1000
}

/// The bottom strip of the screen the dock asks the shell to keep free of
/// maximized windows.
pub open spec fn spec_reserve_rect(g: ScreenGeometry) -> Rect {
    Rect {
        left: g.origin_x,
        top: (g.origin_y + g.height - spec_surface_height_px(g.scale_factor as int)) as i64,
        right: (g.origin_x + g.width) as i64,
        bottom: (g.origin_y + g.height) as i64,
    }
}

/// The reservation the dock wants under the given geometry and hidden
/// flag: none while hidden, the bottom strip otherwise.
pub open spec fn spec_desired_reservation(g: ScreenGeometry, hidden: bool) -> Option<Rect> {
    if hidden {
        None
    } else {
        Some(spec_reserve_rect(g))
    }
}

/// Pointer position after an event.
pub open spec fn spec_pointer_after(e: Event, p: Option<i64>) -> Option<i64> {
    match e {
        Event::PointerMoved(x) => Some(x),
        Event::PointerLeft => None,
        _ => p,
    }
}

/// Hidden flag after an event.
pub open spec fn spec_hidden_after(e: Event, h: bool) -> bool {
    match e {
        Event::DockHiddenToggled(hidden) => hidden,
        _ => h,
    }
}

/// Screen geometry after an event.
pub open spec fn spec_geometry_after(e: Event, g: ScreenGeometry) -> ScreenGeometry {
    match e {
        Event::ScreenGeometryChanged(new_g) => new_g,
        _ => g,
    }
}

/// The reservation action an event triggers, given the geometry and hidden
/// flag that hold after it. Pointer events never touch the reservation;
/// a geometry change re-issues it (releasing first); hiding releases it
/// and un-hiding re-requests it.
pub open spec fn spec_reservation_action(e: Event, g: ScreenGeometry, hidden: bool) -> ReservationAction {
    match e {
        Event::PointerMoved(_) => ReservationAction::Keep,
        Event::PointerLeft => ReservationAction::Keep,
        Event::ScreenGeometryChanged(_) => if hidden {
            ReservationAction::Release
        } else {
            ReservationAction::Reacquire(spec_reserve_rect(g))
        },
        Event::DockHiddenToggled(h) => if h {
            ReservationAction::Release
        } else {
            ReservationAction::Reacquire(spec_reserve_rect(g))
        },
    }
}

/// A sound event: coordinates and geometries within the model's limits.
pub open spec fn spec_event_wf(e: Event) -> bool {
    match e {
        Event::PointerMoved(x) => -COORD_LIMIT <= x <= COORD_LIMIT,
        Event::ScreenGeometryChanged(g) => spec_geometry_wf(g),
        _ => true,
    }
}

/// Build the dock state at startup from the resolved icon bitmaps (one
/// entry per icon, `None` where no bitmap could be resolved) and the
/// initial screen geometry. Base positions are finalized here: the idle
/// packed positions, ascending one slot apart.
pub fn dock_state_new(bitmaps: Vec<Option<u64>>, geometry: ScreenGeometry) -> (s: DockState)
    requires
        bitmaps@.len() <= MAX_ICONS,
        spec_geometry_wf(geometry),
    ensures
        spec_dock_wf(s),
        s.icons@.len() == bitmaps@.len(),
        forall|i: int| 0 <= i < bitmaps@.len()
            ==> (#[trigger] s.icons@[i]).bitmap_ref == bitmaps@[i],
        forall|i: int| 0 <= i < bitmaps@.len()
            ==> (#[trigger] s.icons@[i]).base_x
                == spec_idle_bar_x(bitmaps@.len() as int, geometry.width as int) + BAR_PADDING_H
                    + i * ICON_SLOT,
        forall|i: int| 0 <= i < bitmaps@.len()
            ==> (#[trigger] s.icons@[i]).current_scale == SCALE_ONE
                && s.icons@[i].target_scale == SCALE_ONE,
        s.geometry == geometry,
        s.pointer_x is None,
        !s.is_magnified,
        !s.is_dock_hidden,
        s.reserved is None,
{
    let n = bitmaps.len();
    let base = base_positions(n, geometry.width);
    let mut icons: Vec<Icon> = Vec::new();
    let ghost start = spec_idle_bar_x(n as int, geometry.width as int) + BAR_PADDING_H;
    for k in 0..n
        invariant
            n == bitmaps@.len(),
            n == base@.len(),
            icons@.len() == k,
            forall|i: int| 0 <= i < n ==> #[trigger] base@[i] == start + i * ICON_SLOT,
            forall|i: int| 0 <= i < n ==> -BASE_LIMIT <= #[trigger] base@[i] <= BASE_LIMIT,
            forall|i: int| 0 <= i < k ==> (#[trigger] icons@[i]).index == i,
            forall|i: int| 0 <= i < k ==> (#[trigger] icons@[i]).base_x == base@[i],
            forall|i: int| 0 <= i < k ==> (#[trigger] icons@[i]).bitmap_ref == bitmaps@[i],
            forall|i: int| 0 <= i < k
                ==> (#[trigger] icons@[i]).current_scale == SCALE_ONE
                    && icons@[i].target_scale == SCALE_ONE,
    {
        icons.push(Icon {
            index: k,
            base_x: base[k],
            current_scale: SCALE_ONE,
            target_scale: SCALE_ONE,
            bitmap_ref: bitmaps[k],
        });
    }
    DockState {
        icons,
        geometry,
        pointer_x: None,
        is_magnified: false,
        is_dock_hidden: false,
        reserved: None,
    }
}

/// Consume one event: update the stored pointer, geometry and hidden
/// state, re-solve the layout in the resulting magnification state, set
/// each icon's animation target to its new scale (remembering the previous
/// target as the scale the visual is coming from), and report the shell
/// effects. The stored reservation handle is never touched here; only
/// [`apply_reservation_outcome`] records the outcome of the requested
/// action.
pub fn handle_event(s: &mut DockState, event: Event) -> (eff: Effects)
    requires
        spec_dock_wf(*old(s)),
        spec_event_wf(event),
    ensures
        spec_dock_wf(*final(s)),
        // The icon set itself is stable: count, indices, base positions
        // and bitmap handles never change after finalization.
        final(s).icons@.len() == old(s).icons@.len(),
        forall|i: int| 0 <= i < old(s).icons@.len()
            ==> (#[trigger] final(s).icons@[i]).index == old(s).icons@[i].index
                && final(s).icons@[i].base_x == old(s).icons@[i].base_x
                && final(s).icons@[i].bitmap_ref == old(s).icons@[i].bitmap_ref,
        // Scalar state follows the transition table.
        final(s).pointer_x == spec_pointer_after(event, old(s).pointer_x),
        final(s).is_magnified == (final(s).pointer_x is Some),
        final(s).is_dock_hidden == spec_hidden_after(event, old(s).is_dock_hidden),
        final(s).geometry == spec_geometry_after(event, old(s).geometry),
        final(s).reserved == old(s).reserved,
        // The layout is the solver's pure answer for the new state.
        spec_layout_matches(
            eff.layout,
            spec_base_seq(old(s).icons@),
            final(s).pointer_x,
            final(s).geometry.width as int,
            DOCK_WINDOW_HEIGHT_PX as int,
        ),
        // Each icon's animation target is its newly solved scale; the
        // previous target becomes the scale the visual is coming from.
        forall|i: int| 0 <= i < old(s).icons@.len()
            ==> (#[trigger] final(s).icons@[i]).target_scale == eff.layout.icons@[i].scale,
        forall|i: int| 0 <= i < old(s).icons@.len()
            ==> (#[trigger] final(s).icons@[i]).current_scale == old(s).icons@[i].target_scale,
        // Pointer movement re-arms the one-shot leave notification.
        eff.rearm_leave == (event matches Event::PointerMoved(_)),
        // The reservation request follows the hidden flag and geometry.
        eff.reservation == spec_reservation_action(event, final(s).geometry, final(s).is_dock_hidden),
{
    match event {
        Event::PointerMoved(x) => {
            s.pointer_x = Some(x);
            s.is_magnified = true;
        },
        Event::PointerLeft => {
            s.pointer_x = None;
            s.is_magnified = false;
        },
        Event::ScreenGeometryChanged(g) => {
            s.geometry = g;
        },
        Event::DockHiddenToggled(h) => {
            s.is_dock_hidden = h;
        },
    }

    // Extract the (immutable) base positions for the solver.
    let n = s.icons.len();
    let mut base: Vec<i64> = Vec::new();
    for k in 0..n
        invariant
            n == s.icons@.len(),
            base@.len() == k,
            forall|i: int| 0 <= i < s.icons@.len()
                ==> -BASE_LIMIT <= (#[trigger] s.icons@[i]).base_x <= BASE_LIMIT,
            forall|i: int| 0 <= i < k ==> #[trigger] base@[i] == s.icons@[i].base_x,
    {
        base.push(s.icons[k].base_x);
    }
    proof {
        assert(base@ =~= spec_base_seq(s.icons@));
    }

    let layout = calc_dock_layout(&base, s.pointer_x, s.geometry.width, DOCK_WINDOW_HEIGHT_PX);

    // Retarget the icons: the old target is what the visual was last sent
    // toward, so it becomes the starting scale of the next animation.
    let ghost icons_before = s.icons@;
    let mut retargeted: Vec<Icon> = Vec::new();
    for k in 0..n
        invariant
            n == s.icons@.len(),
            s.icons@ == icons_before,
            n == layout.icons@.len(),
            retargeted@.len() == k,
            forall|i: int| 0 <= i < n
                ==> SCALE_ONE <= (#[trigger] layout.icons@[i]).scale <= MAX_SCALE,
            forall|i: int| 0 <= i < n
                ==> SCALE_ONE <= (#[trigger] s.icons@[i]).target_scale <= MAX_SCALE,
            forall|i: int| 0 <= i < k
                ==> (#[trigger] retargeted@[i]).index == s.icons@[i].index
                    && retargeted@[i].base_x == s.icons@[i].base_x
                    && retargeted@[i].bitmap_ref == s.icons@[i].bitmap_ref
                    && retargeted@[i].current_scale == s.icons@[i].target_scale
                    && retargeted@[i].target_scale == layout.icons@[i].scale,
    {
        let old_icon = s.icons[k];
        retargeted.push(Icon {
            index: old_icon.index,
            base_x: old_icon.base_x,
            current_scale: old_icon.target_scale,
            target_scale: layout.icons[k].scale,
            bitmap_ref: old_icon.bitmap_ref,
        });
    }
    s.icons = retargeted;

    let rearm_leave = match event {
        Event::PointerMoved(_) => true,
        _ => false,
    };
    let reservation = match event {
        Event::PointerMoved(_) => ReservationAction::Keep,
        Event::PointerLeft => ReservationAction::Keep,
        Event::ScreenGeometryChanged(_) | Event::DockHiddenToggled(_) => {
            if s.is_dock_hidden {
                ReservationAction::Release
            } else {
                ReservationAction::Reacquire(reserve_rect(&s.geometry))
            }
        },
    };
    Effects { layout, rearm_leave, reservation }
}

/// The bottom strip the dock asks the shell to reserve under geometry `g`.
pub fn reserve_rect(g: &ScreenGeometry) -> (r: Rect)
    requires
        spec_geometry_wf(*g),
    ensures
        r == spec_reserve_rect(*g),
{
    let phys_h: i64 = (DOCK_SURFACE_HEIGHT_PX * (g.scale_factor as i64) + 500) / 1000;
    Rect {
        left: g.origin_x,
        top: g.origin_y + g.height - phys_h,
        right: g.origin_x + g.width,
        bottom: g.origin_y + g.height,
    }
}

/// Where the dock window sits on screen: a full-width strip whose visible
/// height collapses to a sliver while the dock is hidden.
#[derive(Clone, Copy, Debug, PartialEq, Eq, Structural)]
pub struct WindowPlacement {
    pub x: i64,
    pub y: i64,
    pub width: i64,
    pub height: i64,
}

/// The dock window's placement under geometry `g`: full screen width,
/// physical surface height, bottom-aligned so that only `HIDDEN_STRIP_PX`
/// pixels remain on screen while hidden.
pub open spec fn spec_window_placement(g: ScreenGeometry, hidden: bool) -> WindowPlacement {
    let phys = spec_surface_height_px(g.scale_factor as int);
    let visible: int = if hidden {
        HIDDEN_STRIP_PX as int
    } else {
        phys
    };
    WindowPlacement {
        x: g.origin_x,
        y: (g.origin_y + g.height - visible) as i64,
        width: g.width,
        height: phys as i64,
    }
}

/// Compute where the dock window belongs for the given geometry and
/// hidden flag; the caller moves and sizes the actual window.
pub fn dock_window_placement(g: &ScreenGeometry, hidden: bool) -> (p: WindowPlacement)
    requires
        spec_geometry_wf(*g),
    ensures
        p == spec_window_placement(*g, hidden),
{
    let phys: i64 = (DOCK_SURFACE_HEIGHT_PX * (g.scale_factor as i64) + 500) / 1000;
    let visible: i64 = if hidden {
        HIDDEN_STRIP_PX
    } else {
        phys
    };
    WindowPlacement {
        x: g.origin_x,
        y: g.origin_y + g.height - visible,
        width: g.width,
        height: phys,
    }
}

/// Whether a click at `x` (milli-pixels, window space) falls inside the
/// unmagnified square of icon `i`.
pub open spec fn spec_hit(icons: Seq<Icon>, i: int, x: int) -> bool {
    icons[i].base_x <= x < icons[i].base_x + ICON_SIZE
}

/// Hit-test a click against the static base geometry (not the animated
/// layout): the index of the icon whose unmagnified square contains `x`,
/// or `None` when the click lands outside every icon. A slot without a
/// bitmap is still clickable.
pub fn hit_test(s: &DockState, x: i64) -> (r: Option<usize>)
    requires
        spec_dock_wf(*s),
    ensures
        r matches Some(i) ==> 0 <= i < s.icons@.len() && spec_hit(s.icons@, i as int, x as int),
        r is None ==> forall|i: int| 0 <= i < s.icons@.len() ==> !spec_hit(s.icons@, i, x as int),
{
    let n = s.icons.len();
    for k in 0..n
        invariant
            n == s.icons@.len(),
            spec_dock_wf(*s),
            forall|i: int| 0 <= i < k ==> !spec_hit(s.icons@, i, x as int),
    {
        let b = s.icons[k].base_x;
        if b <= x && x < b + ICON_SIZE {
            return Some(k);
        }
    }
    None
}

/// The shell-side calls the dock issues outside of layout solving.
#[derive(Clone, Copy, Debug, PartialEq, Eq, Structural)]
pub enum ShellAction {
    /// Release any reserved screen strip.
    ReleaseReservation,
    /// Restore the host's native taskbar.
    ShowTaskbar,
}

/// The actions to perform when the dock is torn down: always release the
/// reservation and restore the taskbar, whatever the state and even if
/// earlier reservation attempts failed. Teardown is unconditional, and
/// idempotent because each action is (releasing with nothing reserved and
/// re-showing a visible taskbar are no-ops for the shell).
pub fn teardown_actions() -> (acts: Vec<ShellAction>)
    ensures
        acts@ =~= seq![ShellAction::ReleaseReservation, ShellAction::ShowTaskbar],
{
    let mut acts: Vec<ShellAction> = Vec::new();
    acts.push(ShellAction::ReleaseReservation);
    acts.push(ShellAction::ShowTaskbar);
    acts
}

/// Index order is base-position order: the §-invariant of the icon set in
/// executable form — an icon with a larger index sits strictly to the
/// right.
pub proof fn lemma_base_order(s: DockState, i: int, j: int)
    requires
        spec_dock_wf(s),
        0 <= i < j < s.icons@.len(),
    ensures
        s.icons@[i].base_x < s.icons@[j].base_x,
    decreases j - i,
{
    if j > i + 1 {
        lemma_base_order(s, i, j - 1);
    }
}

/// The solver never reads the reservation handle: two states that agree
/// on everything but the stored reservation yield identical layouts for
/// the same pointer. A refused or failed reservation therefore leaves
/// layout solving and animation untouched.
pub proof fn lemma_layout_ignores_reservation(
    s1: DockState,
    s2: DockState,
    pointer: Option<i64>,
    l1: DockLayout,
    l2: DockLayout,
)
    requires
        s1 == (DockState { reserved: s1.reserved, ..s2 }),
        spec_layout_matches(
            l1,
            spec_base_seq(s1.icons@),
            pointer,
            s1.geometry.width as int,
            DOCK_WINDOW_HEIGHT_PX as int,
        ),
        spec_layout_matches(
            l2,
            spec_base_seq(s2.icons@),
            pointer,
            s2.geometry.width as int,
            DOCK_WINDOW_HEIGHT_PX as int,
        ),
    ensures
        l1.bar_width == l2.bar_width,
        l1.bar_x == l2.bar_x,
        l1.bar_y == l2.bar_y,
        l1.bar_height == l2.bar_height,
        l1.icons@ == l2.icons@,
{
    assert(s1.icons@ == s2.icons@);
    crate::layout::lemma_layout_deterministic(
        l1,
        l2,
        spec_base_seq(s2.icons@),
        pointer,
        s2.geometry.width as int,
        DOCK_WINDOW_HEIGHT_PX as int,
    );
}

/// Hiding the dock and un-hiding it again restores the hidden flag, the
/// window placement, and the desired reservation exactly: the hide step
/// releases the strip, and the un-hide step re-issues an equivalent
/// reservation request for the unchanged geometry.
pub proof fn lemma_hidden_toggle_roundtrip(s: DockState)
    requires
        spec_dock_wf(s),
        !s.is_dock_hidden,
    ensures
        spec_hidden_after(
            Event::DockHiddenToggled(false),
            spec_hidden_after(Event::DockHiddenToggled(true), s.is_dock_hidden),
        ) == s.is_dock_hidden,
        spec_reservation_action(Event::DockHiddenToggled(true), s.geometry, true)
            == ReservationAction::Release,
        spec_reservation_action(Event::DockHiddenToggled(false), s.geometry, false)
            == ReservationAction::Reacquire(spec_reserve_rect(s.geometry)),
        spec_desired_reservation(s.geometry, false)
            == spec_desired_reservation(s.geometry, s.is_dock_hidden),
        spec_window_placement(s.geometry, false)
            == spec_window_placement(s.geometry, s.is_dock_hidden),
{
}

/// Record the outcome of a reservation action the caller performed: the
/// granted rectangle, or `None` when the shell refused (or the action was
/// a release). Nothing else changes — a refused reservation is a
/// degradation, never an error that propagates.
pub fn apply_reservation_outcome(s: &mut DockState, outcome: Option<Rect>)
    ensures
        *final(s) == (DockState { reserved: outcome, ..*old(s) }),
{
    s.reserved = outcome;
}

} // verus!
