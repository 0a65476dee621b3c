//! Displays, targets and the placement of the window.
use winglance_overlay::config::{HorizontalPosition, MonitorMode, OverlayPos, VerticalPosition};
use winglance_overlay::fullscreen::{
    DisplayInfo, Notices, Point, Rect, TargetMonitor, WindowFacts, anchor_unchanged, choose_target,
    effective_position_rect, foreground_fullscreens_target, foreground_monitor_index,
    fullscreen_candidate_rect, log_target_once, monitor_dpi, monitor_frequency_ms, placement, rect_covers_monitor,
    refresh_period_ms, resolve_target, scale_px, window_is_fullscreen,
};

fn anchor_pos(x: Option<i32>, y: Option<i32>) -> OverlayPos {
    OverlayPos {
        vertical: VerticalPosition::Bottom,
        horizontal: HorizontalPosition::Center,
        margin: 8,
        x,
        y,
        monitor: MonitorMode::ActiveWindow,
    }
}

fn fake_display(handle: u64, primary: bool) -> DisplayInfo {
    DisplayInfo {
        handle,
        work: Rect {
            left: 0,
            top: 0,
            right: 1920,
            bottom: 1080,
        },
        // Fake displays have no taskbars/app bars, so rcMonitor == rcWork.
        monitor: Rect {
            left: 0,
            top: 0,
            right: 1920,
            bottom: 1080,
        },
        primary,
        name: format!(r"\\.\DISPLAY{handle}"),
    }
}

#[test]
fn resolve_target_picks_the_foreground_monitor_for_active_window() {
    let displays = vec![fake_display(1, true), fake_display(2, false)];
    // The foreground window sits on the second display.
    assert_eq!(
        resolve_target(MonitorMode::ActiveWindow, &displays, Some(1)),
        Some(1),
        "ActiveWindow must target the foreground window's monitor"
    );
}

#[test]
fn resolve_target_falls_back_to_primary_without_a_foreground_monitor() {
    let displays = vec![fake_display(1, true), fake_display(2, false)];
    // No foreground window (or its monitor is not in the snapshot).
    assert_eq!(
        resolve_target(MonitorMode::ActiveWindow, &displays, None),
        Some(0),
        "ActiveWindow without a foreground monitor must fall back to primary"
    );
    // A stale foreground index (defensive: the lookup never yields one)
    // must not produce an out-of-bounds pick.
    assert_eq!(
        resolve_target(MonitorMode::ActiveWindow, &displays, Some(9)),
        Some(0),
        "an out-of-range foreground index must fall back to primary"
    );
}

#[test]
fn resolve_target_uses_the_primary_flag_for_primary() {
    // The primary display is not necessarily the first enumerated.
    let displays = vec![fake_display(1, false), fake_display(2, true)];
    assert_eq!(resolve_target(MonitorMode::Primary, &displays, Some(0)), Some(1));
    // No display flagged primary (should not happen): first enumerated wins.
    let unmarked = vec![fake_display(1, false), fake_display(2, false)];
    assert_eq!(resolve_target(MonitorMode::Primary, &unmarked, None), Some(0));
}

#[test]
fn resolve_target_maps_an_index_onto_the_enumeration_order() {
    let displays = vec![fake_display(1, true), fake_display(2, false), fake_display(3, false)];
    assert_eq!(resolve_target(MonitorMode::Index(0), &displays, None), Some(0));
    assert_eq!(resolve_target(MonitorMode::Index(2), &displays, None), Some(2));
    // The foreground monitor is irrelevant to an explicit index.
    assert_eq!(resolve_target(MonitorMode::Index(1), &displays, Some(2)), Some(1));
}

#[test]
fn resolve_target_falls_back_to_primary_for_an_out_of_range_index() {
    let displays = vec![fake_display(1, true), fake_display(2, false)];
    assert_eq!(
        resolve_target(MonitorMode::Index(2), &displays, None),
        Some(0),
        "an unattached index must resolve to primary, never to a missing display"
    );
    assert_eq!(resolve_target(MonitorMode::Index(7), &displays, None), Some(0));
}

#[test]
fn resolve_target_returns_none_without_any_display() {
    assert_eq!(resolve_target(MonitorMode::ActiveWindow, &[], None), None);
    assert_eq!(resolve_target(MonitorMode::Primary, &[], None), None);
    assert_eq!(resolve_target(MonitorMode::Index(0), &[], None), None);
}

#[test]
fn placement_anchors_against_the_target_work_area() {
    let work = Rect {
        left: 0,
        top: 0,
        right: 1920,
        bottom: 1040, // 1080 minus a 40px taskbar
    };
    let pos = anchor_pos(None, None);
    // Center anchor with the DIB inset subtracted; margin scaled by DPI.
    let point = placement(work, 400, 100, &pos, 0, 96);
    assert_eq!(point, Point { x: 760, y: 932 }, "centered, 8px from the bottom edge");
    let point = placement(work, 400, 100, &pos, 10, 96);
    assert_eq!(
        point,
        Point { x: 750, y: 922 },
        "the inset shifts the window, not the pill"
    );
    // 150 % DPI scales the margin.
    let point = placement(work, 600, 150, &pos, 10, 144);
    assert_eq!(point, Point { x: 650, y: 868 }, "margin scales with DPI");
    // Left/top anchors.
    let left_top = OverlayPos {
        vertical: VerticalPosition::Top,
        horizontal: HorizontalPosition::Left,
        ..anchor_pos(None, None)
    };
    let point = placement(work, 400, 100, &left_top, 0, 96);
    assert_eq!(point, Point { x: 8, y: 8 });
    // Right anchor.
    let right = OverlayPos {
        vertical: VerticalPosition::Bottom,
        horizontal: HorizontalPosition::Right,
        ..anchor_pos(None, None)
    };
    let point = placement(work, 400, 100, &right, 0, 96);
    assert_eq!(point, Point { x: 1512, y: 932 });
}

#[test]
fn placement_honors_absolute_overrides_and_clamps_them() {
    let work = Rect {
        left: 0,
        top: 0,
        right: 1920,
        bottom: 1040,
    };
    let custom = anchor_pos(Some(100), Some(200));
    let point = placement(work, 400, 100, &custom, 0, 96);
    assert_eq!(point, Point { x: 100, y: 200 }, "absolute overrides win over anchors");
    // A far-off override is clamped back into the work area.
    let huge = anchor_pos(Some(10_000), Some(10_000));
    let point = placement(work, 400, 100, &huge, 0, 96);
    assert_eq!(
        point,
        Point { x: 1520, y: 940 },
        "clamped to the work-area bottom-right"
    );
    // Absolute overrides are virtual-screen coordinates: a value beyond
    // the target's work area is clamped back into it (the pill on a
    // monitor left of the origin still lands on that monitor).
    let left_monitor = Rect {
        left: -1920,
        top: 0,
        right: 0,
        bottom: 1040,
    };
    let point = placement(left_monitor, 400, 100, &custom, 0, 96);
    assert_eq!(point, Point { x: -400, y: 200 }, "clamped to the target work area");
}

#[test]
fn placement_custom_overrides_land_the_pill_body_at_the_coordinate() {
    // Custom `position_x`/`position_y` are pill-body coordinates: the aura
    // inset is subtracted so the body (not the window) top-left lands at the
    // configured spot, exactly like the anchor arms.
    let work = Rect {
        left: 0,
        top: 0,
        right: 1920,
        bottom: 1040,
    };
    let custom = OverlayPos {
        x: Some(200),
        y: Some(300),
        ..anchor_pos(None, None)
    };
    // inset 10 at 1.0 scale: the window sits `inset` above/left of the body.
    let point = placement(work, 400, 100, &custom, 10, 96);
    assert_eq!(
        point,
        Point { x: 190, y: 290 },
        "the window top-left is the body coordinate minus the aura inset"
    );
    // At a non-1.0 scale the override scales first, then the inset subtracts.
    let point = placement(work, 400, 100, &custom, 15, 144);
    assert_eq!(
        point,
        Point {
            x: (200f32 * 1.5).round() as i32 - 15,
            y: (300f32 * 1.5).round() as i32 - 15
        },
        "scale applies to the override, then the inset is subtracted"
    );
}

#[test]
fn placement_with_no_work_area_inset_uses_the_full_monitor() {
    // Fullscreen or no taskbar: Windows reports rcWork == rcMonitor, so the
    // pill sits at the configured margin from the physical monitor edges —
    // never retaining a stale taskbar-sized gap.
    let work = Rect {
        left: 0,
        top: 0,
        right: 1920,
        bottom: 1080,
    };
    let bottom = anchor_pos(None, None);
    assert_eq!(
        placement(work, 400, 100, &bottom, 0, 96),
        Point {
            x: (1920 - 400) / 2,
            y: 1080 - 100 - 8
        },
        "bottom anchor uses the full-monitor bottom when there is no inset"
    );
    let top = OverlayPos {
        vertical: VerticalPosition::Top,
        ..anchor_pos(None, None)
    };
    assert_eq!(
        placement(work, 400, 100, &top, 0, 96),
        Point {
            x: (1920 - 400) / 2,
            y: 8
        }
    );
}

#[test]
fn placement_top_inset_anchors_against_the_work_area_top() {
    // Taskbar along the top edge: rcWork.top > rcMonitor.top. The top anchor
    // must read the work-area top, not the physical monitor top.
    let work = Rect {
        left: 0,
        top: 40,
        right: 1920,
        bottom: 1080,
    };
    let top_left = OverlayPos {
        vertical: VerticalPosition::Top,
        horizontal: HorizontalPosition::Left,
        ..anchor_pos(None, None)
    };
    let point = placement(work, 400, 100, &top_left, 0, 96);
    assert_eq!(
        point,
        Point { x: 8, y: 48 },
        "top-left pill sits margin from the work-area top-left"
    );
    // Anchoring on the physical monitor top (0) would land the pill at y = 8.
    assert_ne!(point.y, 8);
}

#[test]
fn placement_top_inset_sits_the_pill_body_margin_from_the_work_edge() {
    // With a non-zero aura (`inset`), the top anchor must place the PILL
    // BODY (window.y + inset) at exactly `margin` from the work-area top —
    // not `margin + inset`. The old `+ inset` sign shifted the pill down by
    // a double inset (pill body sat at margin + 2*inset). A full-monitor work
    // rect (no taskbar) isolates the sign from the fullscreen/aura logic.
    let work = Rect {
        left: 0,
        top: 0,
        right: 1920,
        bottom: 1080,
    };
    let top = OverlayPos {
        vertical: VerticalPosition::Top,
        ..anchor_pos(None, None)
    };
    let inset = 6;
    let point = placement(work, 400, 100, &top, inset, 96);
    // window.y = work.top + margin - inset = 0 + 8 - 6 = 2. The buggy `+ inset`
    // sign would yield y = 14 here.
    assert_eq!(
        point,
        Point {
            x: (1920 - 400) / 2 - inset,
            y: 8 - inset
        },
        "top anchor window.y = work.top + margin - inset"
    );
    // Pill body top = window.y + inset = margin below the work-area top,
    // matching the Bottom arm (vertical symmetry at this inset).
    let pill_top = point.y + inset;
    assert_eq!(
        pill_top - work.top,
        8,
        "pill body sits exactly `margin` (8) from the work-area top edge"
    );
    let bottom = anchor_pos(None, None);
    let bpoint = placement(work, 400, 100, &bottom, inset, 96);
    let pill_bottom = bpoint.y + 100 + inset;
    assert_eq!(
        work.bottom - pill_bottom,
        8,
        "pill body sits exactly `margin` (8) from the work-area bottom edge"
    );
}

#[test]
fn placement_left_inset_sits_the_pill_body_margin_from_the_work_edge() {
    // Mirror of the Top-arm regression, for the left edge: with a non-zero
    // aura (`inset`), the Left anchor must place the PILL BODY (window.x +
    // inset) at exactly `margin` from the work-area left — not `margin + inset`.
    // The old `+ inset` sign (identical to the former Top bug) shifted the pill
    // right by a double inset. A full-monitor work rect (no taskbar) isolates
    // the sign. (vertical defaults to Bottom via anchor_pos, the same
    // convention `placement_left_inset_anchors_against_the_work_area_left`
    // uses; only the horizontal Left arm is under test here.)
    let work = Rect {
        left: 0,
        top: 0,
        right: 1920,
        bottom: 1080,
    };
    let left = OverlayPos {
        horizontal: HorizontalPosition::Left,
        ..anchor_pos(None, None)
    };
    let inset = 6;
    let point = placement(work, 400, 100, &left, inset, 96);
    // window.x = work.left + margin - inset = 0 + 8 - 6 = 2. The buggy `+ inset`
    // sign would yield x = 14 here.
    assert_eq!(
        point,
        Point {
            x: 8 - inset,
            y: 1080 - 100 - 8 - inset
        },
        "left anchor window.x = work.left + margin - inset"
    );
    // Pill body left = window.x + inset = margin from the work-area left,
    // matching the Right arm (horizontal symmetry at this inset).
    let pill_left = point.x + inset;
    assert_eq!(
        pill_left - work.left,
        8,
        "pill body sits exactly `margin` (8) from the work-area left edge"
    );
    let right = OverlayPos {
        horizontal: HorizontalPosition::Right,
        ..anchor_pos(None, None)
    };
    let rpoint = placement(work, 400, 100, &right, inset, 96);
    let pill_right = rpoint.x + 400 + inset;
    assert_eq!(
        work.right - pill_right,
        8,
        "pill body sits exactly `margin` (8) from the work-area right edge"
    );
}

#[test]
fn placement_left_inset_anchors_against_the_work_area_left() {
    // Taskbar along the left edge: rcWork.left > rcMonitor.left.
    let work = Rect {
        left: 80,
        top: 0,
        right: 1920,
        bottom: 1080,
    };
    let left = OverlayPos {
        horizontal: HorizontalPosition::Left,
        ..anchor_pos(None, None)
    };
    let point = placement(work, 400, 100, &left, 0, 96);
    assert_eq!(
        point,
        Point {
            x: 88,
            y: 1080 - 100 - 8
        },
        "left pill sits margin from the work-area left"
    );
    // Anchoring on the physical monitor left (0) would land the pill at x = 8.
    assert_ne!(point.x, 8);
}

#[test]
fn placement_right_inset_anchors_against_the_work_area_right() {
    // Taskbar along the right edge: rcWork.right < rcMonitor.right.
    let work = Rect {
        left: 0,
        top: 0,
        right: 1840,
        bottom: 1080,
    };
    let right = OverlayPos {
        horizontal: HorizontalPosition::Right,
        ..anchor_pos(None, None)
    };
    let point = placement(work, 400, 100, &right, 0, 96);
    assert_eq!(
        point,
        Point {
            x: 1840 - 400 - 8,
            y: 1080 - 100 - 8
        }
    );
    // Anchoring on the physical monitor right (1920) would land the pill at x = 1512.
    assert_ne!(point.x, 1920 - 400 - 8);
}

#[test]
fn placement_bottom_inset_anchors_against_the_work_area_bottom() {
    // Taskbar along the bottom edge: rcWork.bottom < rcMonitor.bottom.
    let work = Rect {
        left: 0,
        top: 0,
        right: 1920,
        bottom: 1040,
    };
    let bottom = anchor_pos(None, None);
    let point = placement(work, 400, 100, &bottom, 0, 96);
    assert_eq!(
        point,
        Point {
            x: 760,
            y: 1040 - 100 - 8
        }
    );
    // Anchoring on the physical monitor bottom (1080) would land the pill at y = 972.
    assert_ne!(point.y, 1080 - 100 - 8);
}

#[test]
fn placement_respects_all_four_work_area_insets_at_once() {
    // Synthetic geometry with an inset on every edge: each anchor reads its
    // own work-area boundary, never a physical-monitor boundary.
    let work = Rect {
        left: 80,
        top: 40,
        right: 1840,
        bottom: 1040,
    };
    let span_w = work.right - work.left;
    let top_left = OverlayPos {
        vertical: VerticalPosition::Top,
        horizontal: HorizontalPosition::Left,
        ..anchor_pos(None, None)
    };
    let bottom_right = OverlayPos {
        vertical: VerticalPosition::Bottom,
        horizontal: HorizontalPosition::Right,
        ..anchor_pos(None, None)
    };
    let top_center = OverlayPos {
        vertical: VerticalPosition::Top,
        horizontal: HorizontalPosition::Center,
        ..anchor_pos(None, None)
    };
    assert_eq!(placement(work, 400, 100, &top_left, 0, 96), Point { x: 88, y: 48 });
    assert_eq!(
        placement(work, 400, 100, &bottom_right, 0, 96),
        Point {
            x: 1840 - 400 - 8,
            y: 1040 - 100 - 8
        },
    );
    assert_eq!(
        placement(work, 400, 100, &top_center, 0, 96),
        Point {
            x: 80 + (span_w - 400) / 2,
            y: 48
        },
    );
}

#[test]
fn placement_margin_runs_from_the_work_area_edge_exactly_once() {
    // Doubling the configured margin shifts the pill by exactly the extra
    // pixels, edge-relative — the margin is never compounded with a separate
    // edge offset.
    let work = Rect {
        left: 80,
        top: 40,
        right: 1840,
        bottom: 1040,
    };
    let near = OverlayPos {
        vertical: VerticalPosition::Top,
        horizontal: HorizontalPosition::Left,
        margin: 8,
        ..anchor_pos(None, None)
    };
    let far = OverlayPos {
        vertical: VerticalPosition::Top,
        horizontal: HorizontalPosition::Left,
        margin: 28,
        ..anchor_pos(None, None)
    };
    let near_pt = placement(work, 400, 100, &near, 0, 96);
    let far_pt = placement(work, 400, 100, &far, 0, 96);
    assert_eq!(
        (far_pt.x - near_pt.x, far_pt.y - near_pt.y),
        (20, 20),
        "the margin is measured from the work-area edge, applied exactly once"
    );
}

#[test]
fn compact_layout_shares_the_work_area_aware_placement() {
    // Compact and Expanded never pick a different edge to anchor to: both
    // flow through the same `placement` against the resolved work area, so a
    // compact pill rests on the same work-area edge as its expanded twin.
    let work = Rect {
        left: 80,
        top: 40,
        right: 1840,
        bottom: 1040,
    };
    let expanded = anchor_pos(None, None); // Bottom/Center, margin 8
    let compact = OverlayPos {
        vertical: VerticalPosition::Bottom,
        horizontal: HorizontalPosition::Left,
        margin: 4,
        ..anchor_pos(None, None)
    };
    let expanded_pt = placement(work, 600, 120, &expanded, 0, 96);
    let compact_pt = placement(work, 400, 100, &compact, 0, 96);
    assert_eq!(
        expanded_pt.y + 120,
        work.bottom - 8,
        "expanded pill bottom rests on the work-area bottom"
    );
    assert_eq!(
        compact_pt.y + 100,
        work.bottom - 4,
        "compact pill bottom rests on the work-area bottom too"
    );
}

#[test]
fn resolve_target_uses_the_selected_monitor_work_area_not_the_primary() {
    // Two monitors with distinct, asymmetric work areas: the primary carries
    // a bottom taskbar, the secondary a left taskbar and a negative virtual-
    // screen origin. The resolved target must surface the *selected*
    // monitor's work area, never the primary's.
    // The handles are arbitrary (Primary/Index selection never compares
    // handles), so reuse the existing `fake_display` helper rather than
    // casting integer literals to raw pointers.
    let mut primary = fake_display(1, true);
    primary.work = Rect {
        left: 0,
        top: 0,
        right: 1920,
        bottom: 1040,
    };
    let mut secondary = fake_display(2, false);
    secondary.work = Rect {
        left: -320,
        top: 0,
        right: 1840,
        bottom: 1080,
    };
    let displays = vec![primary, secondary];
    // Primary mode resolves the primary display and its work area.
    let primary_index = resolve_target(MonitorMode::Primary, &displays, None).unwrap();
    assert_eq!(primary_index, 0);
    assert_eq!(
        displays[primary_index].work,
        Rect {
            left: 0,
            top: 0,
            right: 1920,
            bottom: 1040
        },
    );
    // Explicit index resolves THAT display's work area (the negative-origin one).
    let secondary_index = resolve_target(MonitorMode::Index(1), &displays, None).unwrap();
    assert_eq!(secondary_index, 1);
    assert_eq!(
        displays[secondary_index].work,
        Rect {
            left: -320,
            top: 0,
            right: 1840,
            bottom: 1080
        },
    );
    // The chosen monitor's work area is the secondary's, not the primary's.
    assert_ne!(displays[secondary_index].work, displays[primary_index].work);
}

#[test]
fn rect_covers_monitor_detects_genuine_fullscreen_only() {
    // A monitor's full physical bounds.
    let monitor_rc = Rect {
        left: 0,
        top: 0,
        right: 1920,
        bottom: 1080,
    };
    // A maximized window covers the work area (inset here by a 40px bottom
    // taskbar) but NOT the full monitor, so it is not fullscreen-on-target.
    let maximized = Rect {
        left: 0,
        top: 0,
        right: 1920,
        bottom: 1040,
    };
    assert!(
        !rect_covers_monitor(&maximized, &monitor_rc),
        "maximized covers rcWork, not rcMonitor"
    );
    // A genuine fullscreen window covers the full monitor.
    assert!(
        rect_covers_monitor(&monitor_rc, &monitor_rc),
        "fullscreen covers rcMonitor"
    );
    // A normal (smaller) window does not.
    let normal = Rect {
        left: 100,
        top: 100,
        right: 900,
        bottom: 700,
    };
    assert!(!rect_covers_monitor(&normal, &monitor_rc));
    // An empty/ambiguous rect does not.
    let empty = Rect {
        left: 0,
        top: 0,
        right: 0,
        bottom: 0,
    };
    assert!(!rect_covers_monitor(&empty, &monitor_rc));
}

#[test]
fn rect_covers_monitor_is_relative_to_the_target_monitor() {
    // Foreground is fullscreen on monitor A (covers A entirely) but the
    // target is monitor B: it must not read as fullscreen-on-target.
    let monitor_a = Rect {
        left: 0,
        top: 0,
        right: 1920,
        bottom: 1080,
    };
    let monitor_b = Rect {
        left: -1920,
        top: 0,
        right: 0,
        bottom: 1080,
    };
    assert!(
        rect_covers_monitor(&monitor_a, &monitor_a),
        "foreground is fullscreen on A"
    );
    assert!(
        !rect_covers_monitor(&monitor_a, &monitor_b),
        "fullscreen on another monitor does not override the target work area"
    );
}

#[test]
fn effective_position_rect_collapses_to_rcmonitor_only_when_fullscreen() {
    let monitor_rc = Rect {
        left: 0,
        top: 0,
        right: 1920,
        bottom: 1080,
    };
    let work_rc = Rect {
        left: 0,
        top: 40,
        right: 1920,
        bottom: 1080,
    }; // top taskbar
    assert_eq!(
        effective_position_rect(monitor_rc, work_rc, false),
        work_rc,
        "no fullscreen -> work area"
    );
    assert_eq!(
        effective_position_rect(monitor_rc, work_rc, true),
        monitor_rc,
        "fullscreen -> physical monitor"
    );
}

#[test]
fn fullscreen_positioning_uses_the_physical_edge_with_no_stale_taskbar_gap() {
    // A top taskbar insets rcWork.top, but a genuine fullscreen foreground
    // on the target monitor collapses the effective rect to rcMonitor, so a
    // top anchor drops to the physical edge instead of leaving the taskbar
    // gap. Non-fullscreen keeps the work-area inset.
    let monitor_rc = Rect {
        left: 0,
        top: 0,
        right: 1920,
        bottom: 1080,
    };
    let work_rc = Rect {
        left: 0,
        top: 40,
        right: 1920,
        bottom: 1080,
    };
    let top_left = OverlayPos {
        vertical: VerticalPosition::Top,
        horizontal: HorizontalPosition::Left,
        ..anchor_pos(None, None)
    };
    let fullscreen_pt = placement(
        effective_position_rect(monitor_rc, work_rc, true),
        400,
        100,
        &top_left,
        0,
        96,
    );
    assert_eq!(
        fullscreen_pt,
        Point { x: 8, y: 8 },
        "fullscreen drops the work-area top inset"
    );
    let normal_pt = placement(
        effective_position_rect(monitor_rc, work_rc, false),
        400,
        100,
        &top_left,
        0,
        96,
    );
    assert_eq!(
        normal_pt,
        Point { x: 8, y: 48 },
        "non-fullscreen respects the work-area top inset"
    );
}

#[test]
fn anchor_unchanged_skips_when_nothing_moved_and_renders_on_flip_or_change() {
    let edge = Rect {
        left: 0,
        top: 0,
        right: 1920,
        bottom: 1040,
    };
    // First resolve has no previous anchor: never skip.
    assert!(!anchor_unchanged(None, edge, false));
    // Same anchor, no layout flip: skip (Alt-Tab between two normal apps).
    assert!(anchor_unchanged(Some(edge), edge, false));
    // Same anchor but Auto layout flipped: do not skip (size/contents
    // changed, e.g. fullscreen->normal flipping Auto Compact->Expanded).
    assert!(!anchor_unchanged(Some(edge), edge, true));
    // Anchor moved (rcWork<->rcMonitor, e.g. fullscreen enter/leave on the
    // target monitor): do not skip even with no layout flip.
    let moved = Rect {
        left: 0,
        top: 0,
        right: 1920,
        bottom: 1080,
    };
    assert!(!anchor_unchanged(Some(edge), moved, false));
}

fn app_window(rect: Rect) -> WindowFacts {
    WindowFacts {
        is_null: false,
        is_overlay: false,
        visible: true,
        minimized: false,
        class_name: Some("Chrome_WidgetWin_1".into()),
        tool_window: false,
        rect: Some(rect),
    }
}

#[test]
fn only_a_visible_app_window_counts_as_fullscreen() {
    let screen = Rect { left: 0, top: 0, right: 1920, bottom: 1080 };
    let near = Rect { left: 2, top: 2, right: 1918, bottom: 1078 };
    let short = Rect { left: 3, top: 0, right: 1920, bottom: 1080 };
    assert!(window_is_fullscreen(&app_window(screen), Some(screen)));
    assert!(window_is_fullscreen(&app_window(near), Some(screen)));
    assert!(!window_is_fullscreen(&app_window(short), Some(screen)));
    assert!(!window_is_fullscreen(&app_window(screen), None));
    let shell = WindowFacts { class_name: Some("WorkerW".into()), ..app_window(screen) };
    assert!(!window_is_fullscreen(&shell, Some(screen)));
    let tool = WindowFacts { tool_window: true, ..app_window(screen) };
    assert!(!window_is_fullscreen(&tool, Some(screen)));
    let hidden = WindowFacts { visible: false, ..app_window(screen) };
    assert!(!window_is_fullscreen(&hidden, Some(screen)));
    let minimized = WindowFacts { minimized: true, ..app_window(screen) };
    assert!(!window_is_fullscreen(&minimized, Some(screen)));
    let own = WindowFacts { is_overlay: true, ..app_window(screen) };
    assert!(!window_is_fullscreen(&own, Some(screen)));
    let none = WindowFacts { is_null: true, ..app_window(screen) };
    assert_eq!(fullscreen_candidate_rect(&none), None);
    let unreadable = WindowFacts { rect: None, ..app_window(screen) };
    assert!(!window_is_fullscreen(&unreadable, Some(screen)));
    let target = TargetMonitor { handle: 1, work: screen, monitor: screen, index: 0, primary: true };
    assert!(foreground_fullscreens_target(&target, &app_window(screen)));
    assert!(!foreground_fullscreens_target(&target, &app_window(short)));
}

#[test]
fn an_unattached_display_is_warned_about_at_intervals() {
    let displays = vec![fake_display(7, true), fake_display(8, false)];
    let mut notices = Notices::new();
    let first = choose_target(MonitorMode::Index(5), &displays, None, &mut notices, 0);
    assert_eq!(first.target.map(|t| (t.index, t.handle)), Some((0, 7)));
    assert!(first.warn && first.log);
    let soon = choose_target(MonitorMode::Index(5), &displays, None, &mut notices, 4_999);
    assert!(!soon.warn && !soon.log);
    let later = choose_target(MonitorMode::Index(5), &displays, None, &mut notices, 5_000);
    assert!(!later.warn && later.log);
    let again = choose_target(MonitorMode::Index(5), &displays, None, &mut notices, 10_000);
    assert!(again.warn);
    let other = choose_target(MonitorMode::Index(6), &displays, None, &mut notices, 10_001);
    assert!(other.warn, "another index is another warning");
    let back = choose_target(MonitorMode::Index(5), &displays, None, &mut notices, 19_999);
    assert!(!back.warn, "a warning in between does not make the first one due again");
    let waited = choose_target(MonitorMode::Index(5), &displays, None, &mut notices, 20_000);
    assert!(waited.warn);
    let attached = choose_target(MonitorMode::Index(1), &displays, None, &mut notices, 20_002);
    assert!(!attached.warn && attached.log);
    assert_eq!(choose_target(MonitorMode::Primary, &[], None, &mut notices, 0).target, None);
}

#[test]
fn each_target_is_logged_at_most_once_per_interval() {
    let mut given = Vec::new();
    assert!(log_target_once(&mut given, 0, 0));
    assert!(log_target_once(&mut given, 1, 100));
    assert!(!log_target_once(&mut given, 0, 200), "the other target's line changes nothing");
    assert!(!log_target_once(&mut given, 0, 4_999));
    assert!(log_target_once(&mut given, 0, 5_000));
    assert!(!log_target_once(&mut given, 1, 5_099));
    assert!(log_target_once(&mut given, 1, 5_100));
    assert_eq!(given.len(), 2, "only recent lines are remembered");
}

#[test]
fn the_foreground_display_is_found_by_its_handle() {
    let displays = vec![fake_display(7, true), fake_display(8, false)];
    assert_eq!(foreground_monitor_index(&displays, Some(8)), Some(1));
    assert_eq!(foreground_monitor_index(&displays, Some(9)), None);
    assert_eq!(foreground_monitor_index(&displays, None), None);
}

#[test]
fn periods_and_resolutions_are_kept_sane() {
    assert_eq!(refresh_period_ms(Some((60, 1)), None), 16);
    assert_eq!(refresh_period_ms(Some((120, 1)), None), 8);
    assert_eq!(refresh_period_ms(Some((144_000, 1_000)), None), 7);
    assert_eq!(refresh_period_ms(Some((240, 1)), None), 4);
    assert_eq!(refresh_period_ms(Some((85, 1)), None), 11);
    assert_eq!(refresh_period_ms(Some((170, 1)), None), 5);
    assert_eq!(refresh_period_ms(Some((360, 1)), None), 2);
    assert_eq!(refresh_period_ms(Some((0, 1)), Some(120)), 8);
    assert_eq!(refresh_period_ms(None, Some(60)), 16);
    assert_eq!(refresh_period_ms(None, Some(144)), 7);
    assert_eq!(refresh_period_ms(None, Some(165)), 6);
    assert_eq!(refresh_period_ms(None, Some(0)), 16);
    assert_eq!(refresh_period_ms(None, None), 16);
    assert_eq!(refresh_period_ms(Some((5_000, 1)), None), 1);
    assert_eq!(refresh_period_ms(None, Some(2)), 100);
    assert_eq!(monitor_frequency_ms(60), Some(16));
    assert_eq!(monitor_frequency_ms(0), None);
    assert_eq!(monitor_dpi(Some((120, 144))), 144);
    assert_eq!(monitor_dpi(Some((72, 72))), 96);
    assert_eq!(monitor_dpi(None), 96);
    assert_eq!(scale_px(-7, 96), -7);
    assert_eq!(scale_px(3, 144), 5);
    assert_eq!(scale_px(-3, 144), -5);
}

#[test]
fn a_pill_wider_than_the_display_starts_at_its_edge() {
    let work = Rect { left: 0, top: 0, right: 300, bottom: 80 };
    let point = placement(work, 400, 100, &anchor_pos(Some(50), Some(50)), 0, 96);
    assert_eq!(point, Point { x: 0, y: 0 });
}
