//! Fixed-point geometry constants and the dock layout solver.
//!
//! All x/y coordinates and widths are in milli-pixels (one thousandth of a
//! pixel, `i64`), and scale factors are in milli-units (`u32`, `1000` means
//! a scale of one). Working in integers keeps the solver an exact function
//! of its inputs: the same base positions, pointer and window always produce
//! the identical layout.
//!
//! The solver packs the scaled icons left to right with a fixed gap, pads
//! the row on both sides, centers the resulting bar horizontally in the
//! window and anchors it near the bottom edge. Icons are bottom-anchored to
//! the bar's inner bottom edge, so a magnified icon grows upward.

use vstd::prelude::*;
use crate::magnify::{spec_scale_opt, spec_icon_center, magnify_scales, COORD_LIMIT};

verus! {

/// Scale factor of exactly one, in milli-units.
pub const SCALE_ONE: u32 = 1000;

/// Largest magnification factor, in milli-units (1.8).
pub const MAX_SCALE: u32 = 1800;

/// Side of an unmagnified icon, in milli-pixels (48 pixels).
pub const ICON_SIZE: i64 = 48000;

/// Gap between two neighbouring icons, in milli-pixels (10 pixels).
pub const ICON_SPACING: i64 = 10000;

/// Width one unmagnified icon occupies together with its trailing gap.
pub const ICON_SLOT: i64 = 58000;

/// Horizontal padding inside the bar on each side, in milli-pixels.
pub const BAR_PADDING_H: i64 = 12000;

/// Vertical padding inside the bar, in milli-pixels.
pub const BAR_PADDING_V: i64 = 6000;

/// Height of the bar: icon size plus vertical padding above and below.
pub const BAR_HEIGHT: i64 = 60000;

/// Gap between the bottom of the bar and the bottom of the window.
pub const BAR_BOTTOM_MARGIN: i64 = 8000;

/// Width in milli-pixels of an icon drawn at `MAX_SCALE`.
pub const MAX_ICON_WIDTH: i64 = 86400;

/// Largest number of icons a dock accepts.
pub const MAX_ICONS: usize = 4096;

/// Largest base-position magnitude the solver accepts, in milli-pixels.
pub const BASE_LIMIT: i64 = 1_000_000_000_000;

/// Largest window dimension the solver accepts, in pixels.
pub const WIN_LIMIT: i64 = 1_000_000_000;

/// Target geometry for one icon: its scale and the top-left corner of its
/// (scaled) square, in milli-pixels.
#[derive(Clone, Copy, Debug, PartialEq, Eq, Structural)]
pub struct IconTarget {
    pub scale: u32,
    pub x: i64,
    pub y: i64,
}

/// One solved dock layout: the bar's rectangle and the per-icon targets,
/// aligned by index with the icon sequence the solver was given.
#[derive(Clone, Debug, PartialEq)]
pub struct DockLayout {
    pub bar_width: i64,
    pub bar_x: i64,
    pub bar_y: i64,
    pub bar_height: i64,
    pub icons: Vec<IconTarget>,
}

/// Width in milli-pixels of an icon drawn at `scale` milli-units.
pub open spec fn spec_icon_width(scale: int) -> int {
    scale * 48
}

/// The scale sequence the magnification model assigns to the icons with the
/// given base positions under the given pointer.
pub open spec fn spec_layout_scales(base: Seq<i64>, pointer: Option<i64>) -> Seq<u32> {
    Seq::new(base.len(), |i: int| spec_scale_opt(spec_icon_center(base[i] as int), pointer) as u32)
}

/// Sum of the icon widths for a scale sequence.
pub open spec fn spec_widths_sum(scales: Seq<u32>) -> int
    decreases scales.len(),
{
    if scales.len() == 0 {
        0
    } else {
        spec_widths_sum(scales.drop_last()) + spec_icon_width(scales.last() as int)
    }
}

/// Width of the icon row: icon widths plus the gaps between neighbours.
pub open spec fn spec_content_width(scales: Seq<u32>) -> int {
    if scales.len() == 0 {
        0
    } else {
        spec_widths_sum(scales) + (scales.len() - 1) * ICON_SPACING
    }
}

/// Width of the bar: the icon row plus horizontal padding on both sides.
/// An empty dock yields a bar of just the two paddings.
pub open spec fn spec_bar_width(scales: Seq<u32>) -> int {
    spec_content_width(scales) + 2 * BAR_PADDING_H
}

/// Signed half of `a - b`, rounded toward zero (the bar may be wider than
/// the window, in which case its left edge goes negative).
pub open spec fn spec_half_diff(a: int, b: int) -> int {
    if a >= b {
        (a - b) / 2
    } else {
        -((b - a) / 2)
    }
}

/// Left edge of the bar: horizontally centered in the window.
pub open spec fn spec_bar_x(scales: Seq<u32>, win_width_px: int) -> int {
    spec_half_diff(win_width_px * 1000, spec_bar_width(scales))
}

/// Top edge of the bar: a fixed margin above the bottom of the window,
/// independent of the scales.
pub open spec fn spec_bar_y(win_height_px: int) -> int {
    win_height_px * 1000 - BAR_HEIGHT - BAR_BOTTOM_MARGIN
}

/// Left edge of icon `i`: icons pack left to right from the bar's inner
/// left edge, each advancing by its own width plus the fixed gap.
pub open spec fn spec_icon_x(scales: Seq<u32>, bar_x: int, i: int) -> int
    decreases i,
{
    if i <= 0 {
        bar_x + BAR_PADDING_H
    } else {
        spec_icon_x(scales, bar_x, i - 1) + spec_icon_width(scales[i - 1] as int) + ICON_SPACING
    }
}

/// Top edge of an icon at `scale`: bottom-anchored to the bar's inner
/// bottom edge, growing upward when magnified.
pub open spec fn spec_icon_y(bar_y: int, scale: int) -> int {
    bar_y + BAR_HEIGHT - BAR_PADDING_V - spec_icon_width(scale)
}

/// The layout the solver owes for the given inputs: every field is a pure
/// function of the base positions, the pointer and the window size.
pub open spec fn spec_layout_matches(
    layout: DockLayout,
    base: Seq<i64>,
    pointer: Option<i64>,
    win_width_px: int,
    win_height_px: int,
) -> bool {
    let scales = spec_layout_scales(base, pointer);
    let bar_x = spec_bar_x(scales, win_width_px);
    let bar_y = spec_bar_y(win_height_px);
    &&& layout.icons@.len() == base.len()
    &&& layout.bar_height == BAR_HEIGHT
    &&& layout.bar_width == spec_bar_width(scales)
    &&& layout.bar_x == bar_x
    &&& layout.bar_y == bar_y
    &&& forall|i: int| 0 <= i < base.len() ==> (#[trigger] layout.icons@[i]).scale == scales[i]
    &&& forall|i: int| 0 <= i < base.len() ==> (#[trigger] layout.icons@[i]).x == spec_icon_x(scales, bar_x, i)
    &&& forall|i: int| 0 <= i < base.len() ==> (#[trigger] layout.icons@[i]).y == spec_icon_y(bar_y, scales[i] as int)
}

/// Icons never overlap and keep their index order: for `i < j`, icon `i`
/// ends (its left edge plus its width) at or before icon `j` begins.
pub proof fn lemma_no_overlap(scales: Seq<u32>, bar_x: int, i: int, j: int)
    requires
        0 <= i < j < scales.len(),
    ensures
        spec_icon_x(scales, bar_x, i) + spec_icon_width(scales[i] as int)
            <= spec_icon_x(scales, bar_x, j),
    decreases j,
{
    if j > i + 1 {
        lemma_no_overlap(scales, bar_x, i, j - 1);
    }
}

/// The solver is a pure function: two layouts that both match the same
/// inputs are identical, field for field and icon for icon.
pub proof fn lemma_layout_deterministic(
    l1: DockLayout,
    l2: DockLayout,
    base: Seq<i64>,
    pointer: Option<i64>,
    win_width_px: int,
    win_height_px: int,
)
    requires
        spec_layout_matches(l1, base, pointer, win_width_px, win_height_px),
        spec_layout_matches(l2, base, pointer, win_width_px, win_height_px),
    ensures
        l1.bar_width == l2.bar_width,
        l1.bar_x == l2.bar_x,
        l1.bar_y == l2.bar_y,
        l1.bar_height == l2.bar_height,
        l1.icons@ == l2.icons@,
{
    assert(l1.icons@ =~= l2.icons@);
}

/// Helper: a pointwise larger scale sequence has a larger width sum.
proof fn lemma_widths_sum_le(s1: Seq<u32>, s2: Seq<u32>)
    requires
        s1.len() == s2.len(),
        forall|i: int| 0 <= i < s1.len() ==> #[trigger] s1[i] <= s2[i],
    ensures
        spec_widths_sum(s1) <= spec_widths_sum(s2),
    decreases s1.len(),
{
    if s1.len() > 0 {
        assert(forall|i: int| 0 <= i < s1.drop_last().len()
            ==> #[trigger] s1.drop_last()[i] <= s2.drop_last()[i]);
        lemma_widths_sum_le(s1.drop_last(), s2.drop_last());
        assert(s1.last() <= s2.last());
    }
}

/// The bar never narrows when one icon's scale grows and the others stay
/// fixed.
pub proof fn lemma_bar_width_monotone(s1: Seq<u32>, s2: Seq<u32>, k: int)
    requires
        s1.len() == s2.len(),
        0 <= k < s1.len(),
        s1[k] <= s2[k],
        forall|i: int| 0 <= i < s1.len() && i != k ==> #[trigger] s1[i] == s2[i],
    ensures
        spec_bar_width(s1) <= spec_bar_width(s2),
{
    assert forall|i: int| 0 <= i < s1.len() implies #[trigger] s1[i] <= s2[i] by {
        if i != k {
            assert(s1[i] == s2[i]);
        }
    }
    lemma_widths_sum_le(s1, s2);
}

/// The all-ones scale sequence of the idle (unmagnified) dock.
pub open spec fn spec_ones(n: int) -> Seq<u32> {
    Seq::new(n as nat, |i: int| SCALE_ONE)
}

/// Left edge of the idle bar for `n` icons in a `win_width_px` wide window.
pub open spec fn spec_idle_bar_x(n: int, win_width_px: int) -> int {
    spec_bar_x(spec_ones(n), win_width_px)
}

/// Helper: the width sum of `n` unmagnified icons is `n` times the icon size.
proof fn lemma_ones_sum(n: int)
    requires
        n >= 0,
    ensures
        spec_widths_sum(spec_ones(n)) == n * ICON_SIZE,
    decreases n,
{
    if n > 0 {
        assert(spec_ones(n).drop_last() =~= spec_ones(n - 1));
        lemma_ones_sum(n - 1);
    }
}

/// In the idle layout the icons sit one fixed slot apart: icon `i` is `i`
/// slots right of the bar's inner left edge.
pub proof fn lemma_idle_positions(n: int, bar_x: int, i: int)
    requires
        0 <= i <= n,
    ensures
        spec_icon_x(spec_ones(n), bar_x, i) == bar_x + BAR_PADDING_H + i * ICON_SLOT,
    decreases i,
{
    if i > 0 {
        lemma_idle_positions(n, bar_x, i - 1);
    }
}

/// Base x-positions for `n` icons in a window `win_width` pixels wide: the
/// packed icon positions of the idle layout, one fixed slot per icon,
/// ascending and contiguous. These positions are assigned once, when the
/// icon set is finalized, and never reassigned.
pub fn base_positions(n: usize, win_width: i64) -> (base: Vec<i64>)
    requires
        n <= MAX_ICONS,
        0 <= win_width <= WIN_LIMIT,
    ensures
        base@.len() == n,
        forall|i: int| 0 <= i < n
            ==> #[trigger] base@[i] == spec_icon_x(spec_ones(n as int), spec_idle_bar_x(n as int, win_width as int), i),
        forall|i: int| 0 <= i < n
            ==> #[trigger] base@[i] == spec_idle_bar_x(n as int, win_width as int) + BAR_PADDING_H + i * ICON_SLOT,
        forall|i: int| 0 <= i < n ==> -BASE_LIMIT <= #[trigger] base@[i] <= BASE_LIMIT,
{
    proof {
        lemma_ones_sum(n as int);
    }
    let bar_width0: i64 = if n == 0 {
        2 * BAR_PADDING_H
    } else {
        (n as i64) * ICON_SLOT - ICON_SPACING + 2 * BAR_PADDING_H
    };
    assert(bar_width0 == spec_bar_width(spec_ones(n as int)));
    let win_w_m: i64 = win_width * 1000;
    let bar_x: i64 = if win_w_m >= bar_width0 {
        (win_w_m - bar_width0) / 2
    } else {
        -((bar_width0 - win_w_m) / 2)
    };
    assert(bar_x == spec_idle_bar_x(n as int, win_width as int));

    let mut base: Vec<i64> = Vec::new();
    let mut cur_x: i64 = bar_x + BAR_PADDING_H;
    for k in 0..n
        invariant
            n <= MAX_ICONS,
            base@.len() == k,
            -600_000_000_000 <= bar_x <= 600_000_000_000,
            cur_x == bar_x + BAR_PADDING_H + k * ICON_SLOT,
            forall|i: int| 0 <= i < k
                ==> #[trigger] base@[i] == bar_x + BAR_PADDING_H + i * ICON_SLOT,
    {
        base.push(cur_x);
        cur_x = cur_x + ICON_SLOT;
    }
    proof {
        assert forall|i: int| 0 <= i < n
            implies #[trigger] base@[i]
                == spec_icon_x(spec_ones(n as int), spec_idle_bar_x(n as int, win_width as int), i) by {
            lemma_idle_positions(n as int, spec_idle_bar_x(n as int, win_width as int), i);
        }
    }
    base
}

/// Width in milli-pixels of an icon drawn at `scale` milli-units.
pub fn icon_width(scale: u32) -> (w: i64)
    requires
        scale <= MAX_SCALE,
    ensures
        w == spec_icon_width(scale as int),
        0 <= w <= MAX_ICON_WIDTH,
{
    (scale as i64) * 48
}

/// Solve the dock layout for the given icon base positions, pointer
/// position (`None` when the pointer is away from the dock), and window
/// size in pixels. The result is a pure function of these inputs: solving
/// twice with identical inputs yields the identical layout.
pub fn calc_dock_layout(
    base_positions: &Vec<i64>,
    pointer: Option<i64>,
    win_width: i64,
    win_height: i64,
) -> (layout: DockLayout)
    requires
        base_positions@.len() <= MAX_ICONS,
        forall|i: int| 0 <= i < base_positions@.len()
            ==> -BASE_LIMIT <= #[trigger] base_positions@[i] <= BASE_LIMIT,
        pointer matches Some(x) ==> -COORD_LIMIT <= x <= COORD_LIMIT,
        0 <= win_width <= WIN_LIMIT,
        0 <= win_height <= WIN_LIMIT,
    ensures
        spec_layout_matches(layout, base_positions@, pointer, win_width as int, win_height as int),
        forall|i: int| 0 <= i < base_positions@.len()
            ==> SCALE_ONE <= (#[trigger] layout.icons@[i]).scale <= MAX_SCALE,
{
    let ghost scales_spec = spec_layout_scales(base_positions@, pointer);
    let n = base_positions.len();

    // Centers of the icons, for the magnification model.
    let mut centers: Vec<i64> = Vec::new();
    for k in 0..n
        invariant
            n == base_positions@.len(),
            centers@.len() == k,
            forall|i: int| 0 <= i < base_positions@.len()
                ==> -BASE_LIMIT <= #[trigger] base_positions@[i] <= BASE_LIMIT,
            forall|i: int| 0 <= i < k
                ==> #[trigger] centers@[i] == spec_icon_center(base_positions@[i] as int),
            forall|i: int| 0 <= i < k
                ==> -COORD_LIMIT <= #[trigger] centers@[i] <= COORD_LIMIT,
    {
        centers.push(base_positions[k] + ICON_SIZE / 2);
    }
    let scales = magnify_scales(&centers, pointer);
    proof {
        assert forall|i: int| 0 <= i < n implies #[trigger] scales@[i] == scales_spec[i] by {
            assert(scales@[i] == spec_scale_opt(centers@[i] as int, pointer));
            assert(SCALE_ONE <= spec_scale_opt(centers@[i] as int, pointer) <= MAX_SCALE);
        }
        assert(scales@ =~= scales_spec);
    }

    // Total width of the icon row.
    let mut widths_total: i64 = 0;
    for k in 0..n
        invariant
            n == base_positions@.len() == scales@.len(),
            n <= MAX_ICONS,
            forall|i: int| 0 <= i < n ==> SCALE_ONE <= #[trigger] scales@[i] <= MAX_SCALE,
            widths_total == spec_widths_sum(scales@.subrange(0, k as int)),
            0 <= widths_total <= k * MAX_ICON_WIDTH,
    {
        let w = icon_width(scales[k]);
        proof {
            assert(scales@.subrange(0, k + 1).drop_last() =~= scales@.subrange(0, k as int));
            assert(scales@.subrange(0, k + 1).last() == scales@[k as int]);
        }
        widths_total = widths_total + w;
    }
    proof {
        assert(scales@.subrange(0, n as int) =~= scales@);
    }

    let content_width: i64 = if n == 0 {
        0
    } else {
        widths_total + ((n - 1) as i64) * ICON_SPACING
    };
    let bar_width: i64 = content_width + 2 * BAR_PADDING_H;
    assert(bar_width == spec_bar_width(scales@));

    // Center the bar horizontally; its left edge may go negative when the
    // bar is wider than the window.
    let win_w_m: i64 = win_width * 1000;
    let bar_x: i64 = if win_w_m >= bar_width {
        (win_w_m - bar_width) / 2
    } else {
        -((bar_width - win_w_m) / 2)
    };
    assert(bar_x == spec_bar_x(scales@, win_width as int));
    let bar_y: i64 = win_height * 1000 - BAR_HEIGHT - BAR_BOTTOM_MARGIN;

    // Pack the icons left to right from the bar's inner left edge.
    let mut icons: Vec<IconTarget> = Vec::new();
    let mut cur_x: i64 = bar_x + BAR_PADDING_H;
    for k in 0..n
        invariant
            n == base_positions@.len() == scales@.len(),
            n <= MAX_ICONS,
            forall|i: int| 0 <= i < n ==> SCALE_ONE <= #[trigger] scales@[i] <= MAX_SCALE,
            icons@.len() == k,
            cur_x == spec_icon_x(scales@, bar_x as int, k as int),
            bar_x + BAR_PADDING_H <= cur_x <= bar_x + BAR_PADDING_H + k * 96400,
            -2_000_000_000_000_000 <= bar_x <= 2_000_000_000_000_000,
            -2_000_000_000_000_000 <= bar_y <= 2_000_000_000_000_000,
            forall|i: int| 0 <= i < k ==> (#[trigger] icons@[i]).scale == scales@[i],
            forall|i: int| 0 <= i < k
                ==> (#[trigger] icons@[i]).x == spec_icon_x(scales@, bar_x as int, i),
            forall|i: int| 0 <= i < k
                ==> (#[trigger] icons@[i]).y == spec_icon_y(bar_y as int, scales@[i] as int),
    {
        let w = icon_width(scales[k]);
        let icon_y: i64 = bar_y + BAR_HEIGHT - BAR_PADDING_V - w;
        icons.push(IconTarget { scale: scales[k], x: cur_x, y: icon_y });
        cur_x = cur_x + w + ICON_SPACING;
    }

    let layout = DockLayout { bar_width, bar_x, bar_y, bar_height: BAR_HEIGHT, icons };
    layout
}

} // verus!
