use oxide_dock::magnify::{magnify_scales, scale_at};

// With no pointer, every icon keeps scale one, whatever the icon count.
#[test]
fn no_pointer_means_all_ones() {
    let centers: Vec<i64> = vec![100_000, 200_000, 300_000];
    let scales = magnify_scales(&centers, None);
    assert_eq!(scales, vec![1000, 1000, 1000]);
}

#[test]
fn no_pointer_zero_icons() {
    let centers: Vec<i64> = vec![];
    let scales = magnify_scales(&centers, None);
    assert!(scales.is_empty());
}

// The scale peaks at exactly the maximum when the pointer sits on the
// icon's center, and is strictly smaller anywhere else.
#[test]
fn peak_exactly_at_center() {
    let center: i64 = 500_000;
    assert_eq!(scale_at(center, center), 1800);
    assert!(scale_at(center, center + 1) < 1800);
    assert!(scale_at(center, center - 1) < 1800);
    assert!(scale_at(center, center + 1) >= 1000);
}

// The falloff is symmetric about the center.
#[test]
fn symmetric_about_center() {
    let center: i64 = 500_000;
    for d in [1i64, 5_000, 58_000, 300_000, 2_000_000] {
        assert_eq!(scale_at(center, center + d), scale_at(center, center - d));
    }
}

// The scale never grows as the pointer moves away.
#[test]
fn monotone_in_distance() {
    let center: i64 = 0;
    let mut prev = scale_at(center, center);
    for d in [1i64, 10_000, 50_000, 100_000, 200_000, 500_000, 1_000_000] {
        let s = scale_at(center, center + d);
        assert!(s <= prev);
        prev = s;
    }
}

// Far from the center the contribution vanishes entirely.
#[test]
fn far_pointer_gives_scale_one() {
    let center: i64 = 0;
    assert_eq!(scale_at(center, 900_000), 1000); // 900 px away
    assert_eq!(scale_at(center, -2_000_000), 1000);
}

// Pointer exactly at icon 2's center: that icon reaches the maximum, its
// neighbours sit strictly between one and the maximum and, the spacing
// being symmetric, equal each other.
#[test]
fn pointer_on_middle_icon() {
    // Five icons, one 58-pixel slot apart (48 px icon + 10 px gap).
    let centers: Vec<i64> = (0..5).map(|i| 844_000 + i * 58_000).collect();
    let scales = magnify_scales(&centers, Some(centers[2]));
    assert_eq!(scales[2], 1800);
    assert_eq!(scales[1], scales[3]);
    assert!(scales[1] > 1000 && scales[1] < 1800);
    assert_eq!(scales[0], scales[4]);
    assert!(scales[0] < scales[1]);
}
