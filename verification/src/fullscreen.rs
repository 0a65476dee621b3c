//! Displays, target resolution, placement and fullscreen detection: pure
//! decisions over what the window system reports.
use crate::config::{elapsed, since, Config, HorizontalPosition, LayoutMode, MonitorMode, OverlayPos, VerticalPosition};
use crate::text::{
    contains, contains_text, folded, law_suffix_is_taken_off, normalize_for_match, optional_text, same_text,
    strip_suffix, without_suffix,
};
use vstd::prelude::*;

verus! {

/// A rectangle in virtual-screen coordinates.
#[derive(Clone, Copy, Debug, PartialEq, Eq, Structural)]
pub struct Rect {
    pub left: i32,
    pub top: i32,
    pub right: i32,
    pub bottom: i32,
}

/// A point in virtual-screen coordinates.
#[derive(Clone, Copy, Debug, PartialEq, Eq, Structural)]
pub struct Point {
    pub x: i32,
    pub y: i32,
}

/// One active display, in enumeration order.
#[derive(Debug)]
pub struct DisplayInfo {
    pub handle: u64,
    /// The bounds without taskbars and app bars.
    pub work: Rect,
    /// The physical bounds.
    pub monitor: Rect,
    pub primary: bool,
    pub name: String,
}

/// A resolved target display.
#[derive(Clone, Copy, Debug, PartialEq, Eq, Structural)]
pub struct TargetMonitor {
    pub handle: u64,
    pub work: Rect,
    pub monitor: Rect,
    pub index: usize,
    pub primary: bool,
}

/// The logical resolution: one logical pixel is one physical pixel at this DPI.
pub const BASE_DPI: u32 = 96;

/// How far a window may fall short of a monitor edge and still cover it.
pub const FULLSCREEN_TOLERANCE: i32 = 2;

/// Time between two warnings about the same unattached display.
pub const INDEX_WARN_INTERVAL_MS: u64 = 10_000;

/// Time between two log lines about the same target display.
pub const TARGET_LOG_INTERVAL_MS: u64 = 5_000;

/// `v` brought into `lo..=hi`.
pub open spec fn clamped(v: int, lo: int, hi: int) -> int {
    if v < lo {
        lo
    } else if v > hi {
        hi
    } else {
        v
    }
}

/// The frame period in ms for a refresh rate of `num / den` Hz: the whole
/// milliseconds of the exact period. 60 Hz give 16, 120 Hz 8 and 240 Hz 4. The
/// one exception is 144 Hz, whose 6.94 ms count as 7.
pub open spec fn frame_period(num: u32, den: u32) -> int {
    if num == 144 * den {
        7
    } else {
        1000 * den as int / num as int
    }
}

/// The monitor's refresh period in ms: from the compositor's live rate
/// (numerator and denominator in Hz) where it reports one, else from the
/// display mode's nominal frequency in Hz, else 16 ms; always within 1..=100.
pub fn refresh_period_ms(compose_rate: Option<(u32, u32)>, mode_hz: Option<u32>) -> (r: u32)
    ensures
        r == (match (compose_rate, mode_hz) {
            (Some((num, den)), _) if num != 0 && den != 0 => clamped(frame_period(num, den), 1, 100),
            (_, Some(hz)) if hz != 0 => clamped(frame_period(hz, 1), 1, 100),
            _ => 16,
        }),
        1 <= r <= 100,
{
    if let Some((num, den)) = compose_rate {
        if num != 0 && den != 0 {
            let period: u64 = if num as u64 == 144 * (den as u64) {
                7
            } else {
                1000 * (den as u64) / (num as u64)
            };
            return if period < 1 {
                1
            } else if period > 100 {
                100
            } else {
                period as u32
            };
        }
    }
    let hz: u32 = match mode_hz {
        Some(hz) => hz,
        None => 0,
    };
    if hz == 144 {
        return 7;
    }
    let period: u32 = match monitor_frequency_ms(hz) {
        Some(p) => p,
        None => 16,
    };
    if period < 1 {
        1
    } else if period > 100 {
        100
    } else {
        period
    }
}

/// A display mode's nominal frame period in ms; `None` for an unknown
/// frequency.
pub fn monitor_frequency_ms(frequency_hz: u32) -> (r: Option<u32>)
    ensures
        frequency_hz == 0 ==> r is None,
        frequency_hz > 0 ==> r == Some((1000int / frequency_hz as int) as u32),
{
    if frequency_hz == 0 {
        None
    } else {
        Some(1000 / frequency_hz)
    }
}

/// A display's effective DPI: the larger reported axis, at least 96; 96 where
/// nothing could be read.
pub fn monitor_dpi(reported: Option<(u32, u32)>) -> (r: u32)
    ensures
        r >= BASE_DPI,
        match reported {
            Some((x, y)) => {
                &&& r >= x
                &&& r >= y
                &&& (r == x || r == y || r == BASE_DPI)
            },
            None => r == BASE_DPI,
        },
{
    match reported {
        Some((x, y)) => {
            let larger: u32 = if x < y {
                y
            } else {
                x
            };
            if larger < BASE_DPI {
                BASE_DPI
            } else {
                larger
            }
        },
        None => BASE_DPI,
    }
}

/// Whether `i` is the first display flagged primary.
pub open spec fn is_first_primary(displays: Seq<DisplayInfo>, i: int) -> bool {
    &&& 0 <= i < displays.len()
    &&& displays[i].primary
    &&& forall|k: int| 0 <= k < i ==> !(#[trigger] displays[k]).primary
}

/// The primary display: the first flagged one, else the first enumerated.
pub open spec fn is_primary_index(displays: Seq<DisplayInfo>, i: int) -> bool {
    ||| is_first_primary(displays, i)
    ||| (i == 0 && displays.len() > 0 && forall|k: int| 0 <= k < displays.len() ==> !(#[trigger] displays[k]).primary)
}

/// The index of the primary display.
fn primary_index(displays: &[DisplayInfo]) -> (r: usize)
    requires
        displays@.len() > 0,
    ensures
        r < displays@.len(),
        is_primary_index(displays@, r as int),
{
    let mut i: usize = 0;
    while i < displays.len()
        invariant
            i <= displays@.len(),
            forall|k: int| 0 <= k < i ==> !(#[trigger] displays@[k]).primary,
        decreases displays@.len() - i,
    {
        if displays[i].primary {
            return i;
        }
        i = i + 1;
    }
    0
}

/// Whether `i` is the display that the pill targets: the foreground window's,
/// the primary one, or the numbered one; where that cannot be told or is not
/// attached, the primary one.
pub open spec fn resolves_to(
    mode: MonitorMode,
    displays: Seq<DisplayInfo>,
    foreground_nearest: Option<usize>,
    i: int,
) -> bool {
    &&& 0 <= i < displays.len()
    &&& match mode {
        MonitorMode::ActiveWindow => if foreground_nearest is Some && foreground_nearest->0 < displays.len() {
            i == foreground_nearest->0
        } else {
            is_primary_index(displays, i)
        },
        MonitorMode::Primary => is_primary_index(displays, i),
        MonitorMode::Index(n) => if (n as int) < displays.len() {
            i == n
        } else {
            is_primary_index(displays, i)
        },
    }
}

/// The display that the pill targets; `None` only without any display.
pub fn resolve_target(mode: MonitorMode, displays: &[DisplayInfo], foreground_nearest: Option<usize>) -> (r: Option<
    usize,
>)
    ensures
        r is None <==> displays@.len() == 0,
        r matches Some(i) ==> resolves_to(mode, displays@, foreground_nearest, i as int),
{
    if displays.len() == 0 {
        return None;
    }
    let primary: usize = primary_index(displays);
    match mode {
        MonitorMode::ActiveWindow => match foreground_nearest {
            Some(index) => if index < displays.len() {
                Some(index)
            } else {
                Some(primary)
            },
            None => Some(primary),
        },
        MonitorMode::Primary => Some(primary),
        MonitorMode::Index(n) => if (n as u64) < displays.len() as u64 {
            Some(n as usize)
        } else {
            Some(primary)
        },
    }
}

/// The primary display is unique: two indices that both answer are equal.
pub proof fn law_primary_index_is_unique(displays: Seq<DisplayInfo>, i: int, j: int)
    requires
        is_primary_index(displays, i),
        is_primary_index(displays, j),
    ensures
        i == j,
{
    if is_first_primary(displays, i) && is_first_primary(displays, j) {
        if i < j {
            assert(!displays[i].primary);
        } else if j < i {
            assert(!displays[j].primary);
        }
    } else if is_first_primary(displays, i) {
        assert(!displays[i].primary);
    } else if is_first_primary(displays, j) {
        assert(!displays[j].primary);
    }
}

/// The position of the display with the given handle, if it is enumerated.
pub fn foreground_monitor_index(displays: &[DisplayInfo], monitor: Option<u64>) -> (r: Option<usize>)
    ensures
        match r {
            Some(i) => {
                &&& i < displays@.len()
                &&& monitor == Some(displays@[i as int].handle)
                &&& forall|k: int| 0 <= k < i ==> monitor != Some((#[trigger] displays@[k]).handle)
            },
            None => forall|k: int| 0 <= k < displays@.len() ==> monitor != Some((#[trigger] displays@[k]).handle),
        },
{
    let handle: u64 = match monitor {
        Some(h) => h,
        None => {
            return None;
        },
    };
    let mut i: usize = 0;
    while i < displays.len()
        invariant
            i <= displays@.len(),
            monitor == Some(handle),
            forall|k: int| 0 <= k < i ==> monitor != Some((#[trigger] displays@[k]).handle),
        decreases displays@.len() - i,
    {
        if displays[i].handle == handle {
            return Some(i);
        }
        i = i + 1;
    }
    None
}

/// The target at `index` of the enumeration.
pub open spec fn target_of(displays: Seq<DisplayInfo>, index: int) -> TargetMonitor {
    let d = displays[index];
    TargetMonitor { handle: d.handle, work: d.work, monitor: d.monitor, index: index as usize, primary: d.primary }
}

/// The target at `index` of the enumeration.
pub fn target_at(displays: &[DisplayInfo], index: usize) -> (r: TargetMonitor)
    requires
        index < displays@.len(),
    ensures
        r == target_of(displays@, index as int),
{
    let d = &displays[index];
    TargetMonitor { handle: d.handle, work: d.work, monitor: d.monitor, index, primary: d.primary }
}

/// When the notice about a key was last given.
#[derive(Clone, Copy, Debug, PartialEq, Eq, Structural)]
pub struct LastNotice {
    pub key: u64,
    pub at: u64,
}

/// Whether a notice about `key` is due: none about this key was given within
/// the interval.
pub open spec fn notice_due(given: Seq<LastNotice>, key: u64, now: u64, interval: u64) -> bool {
    !exists|i: int|
        0 <= i < given.len() && (#[trigger] given[i]).key == key && since(given[i].at, now) < interval
}

/// The notices that were given within the interval, in their order.
pub open spec fn recent_notices(given: Seq<LastNotice>, now: u64, interval: u64) -> Seq<LastNotice>
    decreases given.len(),
{
    if given.len() == 0 {
        Seq::empty()
    } else {
        let before = recent_notices(given.drop_last(), now, interval);
        if since(given.last().at, now) < interval {
            before.push(given.last())
        } else {
            before
        }
    }
}

/// The notices to remember after one about `key` was asked for: where it is
/// due, it joins those that are still within the interval.
pub open spec fn after_notice(given: Seq<LastNotice>, key: u64, now: u64, interval: u64) -> Seq<LastNotice> {
    if notice_due(given, key, now, interval) {
        recent_notices(given, now, interval).push(LastNotice { key, at: now })
    } else {
        given
    }
}

proof fn lemma_recent_notice_stays(given: Seq<LastNotice>, now: u64, interval: u64, i: int)
    requires
        0 <= i < given.len(),
        since(given[i].at, now) < interval,
    ensures
        recent_notices(given, now, interval).contains(given[i]),
    decreases given.len(),
{
    let before = recent_notices(given.drop_last(), now, interval);
    let all = recent_notices(given, now, interval);
    if i == given.len() - 1 {
        assert(all.last() == given[i]);
    } else {
        lemma_recent_notice_stays(given.drop_last(), now, interval, i);
        let k = choose|k: int| 0 <= k < before.len() && before[k] == given[i];
        assert(all[k] == given[i]);
    }
}

/// A notice is given at most once per key and interval: whatever notices are
/// asked for in between, the same one is not due again before its interval
/// has passed.
pub proof fn law_notice_waits_out_its_interval(
    given: Seq<LastNotice>,
    key: u64,
    at: u64,
    others: Seq<LastNotice>,
    now: u64,
    interval: u64,
)
    requires
        notice_due(given, key, at, interval),
        forall|i: int| 0 <= i < others.len() ==> since(at, (#[trigger] others[i]).at) < interval,
        since(at, now) < interval,
    ensures
        !notice_due(after_notices(after_notice(given, key, at, interval), others, interval), key, now, interval),
{
    let first = after_notice(given, key, at, interval);
    assert(first.last() == LastNotice { key, at });
    lemma_notice_is_remembered(first, LastNotice { key, at }, others, interval);
    let all = after_notices(first, others, interval);
    let k = choose|k: int| 0 <= k < all.len() && all[k] == LastNotice { key, at };
    assert(all[k].key == key);
}

/// The notices to remember after a series of them was asked for, each with
/// its key and time.
pub open spec fn after_notices(given: Seq<LastNotice>, asked: Seq<LastNotice>, interval: u64) -> Seq<LastNotice>
    decreases asked.len(),
{
    if asked.len() == 0 {
        given
    } else {
        after_notice(after_notices(given, asked.drop_last(), interval), asked.last().key, asked.last().at, interval)
    }
}

proof fn lemma_notice_is_remembered(
    given: Seq<LastNotice>,
    notice: LastNotice,
    asked: Seq<LastNotice>,
    interval: u64,
)
    requires
        given.contains(notice),
        forall|i: int| 0 <= i < asked.len() ==> since(notice.at, (#[trigger] asked[i]).at) < interval,
    ensures
        after_notices(given, asked, interval).contains(notice),
    decreases asked.len(),
{
    if asked.len() > 0 {
        let rest = asked.drop_last();
        assert forall|i: int| 0 <= i < rest.len() implies since(notice.at, (#[trigger] rest[i]).at) < interval by {
            assert(rest[i] == asked[i]);
        }
        lemma_notice_is_remembered(given, notice, rest, interval);
        let before = after_notices(given, rest, interval);
        let (key, now) = (asked.last().key, asked.last().at);
        assert(since(notice.at, asked[asked.len() - 1].at) < interval);
        let k = choose|k: int| 0 <= k < before.len() && before[k] == notice;
        lemma_recent_notice_stays(before, now, interval, k);
        let kept = recent_notices(before, now, interval);
        let m = choose|m: int| 0 <= m < kept.len() && kept[m] == notice;
        let all = after_notices(given, asked, interval);
        if notice_due(before, key, now, interval) {
            assert(all[m] == notice);
        } else {
            assert(all[k] == notice);
        }
    }
}

fn give_notice(given: &mut Vec<LastNotice>, key: u64, now: u64, interval: u64) -> (due: bool)
    ensures
        due == notice_due(old(given)@, key, now, interval),
        final(given)@ == after_notice(old(given)@, key, now, interval),
{
    let mut kept: Vec<LastNotice> = Vec::new();
    let mut i: usize = 0;
    while i < given.len()
        invariant
            given@ == old(given)@,
            i <= given@.len(),
            kept@ == recent_notices(given@.take(i as int), now, interval),
            forall|k: int| 0 <= k < i ==> !((#[trigger] given@[k]).key == key && since(given@[k].at, now) < interval),
        decreases given@.len() - i,
    {
        let notice: LastNotice = given[i];
        assert(given@.take(i as int + 1).drop_last() =~= given@.take(i as int));
        if elapsed(notice.at, now) < interval {
            if notice.key == key {
                return false;
            }
            kept.push(notice);
        }
        i = i + 1;
    }
    assert(given@.take(i as int) =~= given@);
    kept.push(LastNotice { key, at: now });
    *given = kept;
    true
}

/// Whether to warn about a configured display index that is not attached: at
/// most once per index every ten seconds. Remembers a warning that is due.
pub fn warn_index_fallback(given: &mut Vec<LastNotice>, index: u32, now: u64) -> (due: bool)
    ensures
        due == notice_due(old(given)@, index as u64, now, INDEX_WARN_INTERVAL_MS),
        final(given)@ == after_notice(old(given)@, index as u64, now, INDEX_WARN_INTERVAL_MS),
{
    give_notice(given, index as u64, now, INDEX_WARN_INTERVAL_MS)
}

/// Whether to log the resolved target: at most once per target every five
/// seconds. Remembers a line that is due.
pub fn log_target_once(given: &mut Vec<LastNotice>, index: usize, now: u64) -> (due: bool)
    ensures
        due == notice_due(old(given)@, index as u64, now, TARGET_LOG_INTERVAL_MS),
        final(given)@ == after_notice(old(given)@, index as u64, now, TARGET_LOG_INTERVAL_MS),
{
    give_notice(given, index as u64, now, TARGET_LOG_INTERVAL_MS)
}

/// The recent warnings about unattached displays and the recent lines about
/// targets.
#[derive(Debug)]
pub struct Notices {
    pub unattached: Vec<LastNotice>,
    pub target: Vec<LastNotice>,
}

impl Notices {
    /// No notice was given yet.
    pub fn new() -> (r: Self)
        ensures
            r.unattached@.len() == 0,
            r.target@.len() == 0,
    {
        Notices { unattached: Vec::new(), target: Vec::new() }
    }
}

/// A resolved target, and which notices about it are due.
#[derive(Clone, Copy, Debug, PartialEq, Eq, Structural)]
pub struct TargetChoice {
    pub target: Option<TargetMonitor>,
    /// Whether to warn that the configured display is not attached.
    pub warn: bool,
    /// Whether to log the target.
    pub log: bool,
}

/// Whether a mode names a display that is not attached.
pub open spec fn unattached(mode: MonitorMode, displays: Seq<DisplayInfo>) -> bool {
    mode matches MonitorMode::Index(n) && n as int >= displays.len() && displays.len() > 0
}

/// Resolves the target display and takes note of the notices that are due.
pub fn choose_target(
    mode: MonitorMode,
    displays: &[DisplayInfo],
    foreground_nearest: Option<usize>,
    notices: &mut Notices,
    now: u64,
) -> (r: TargetChoice)
    ensures
        r.target is None <==> displays@.len() == 0,
        r.target matches Some(t) ==> {
            &&& resolves_to(mode, displays@, foreground_nearest, t.index as int)
            &&& t == target_of(displays@, t.index as int)
            &&& r.log == notice_due(old(notices).target@, t.index as u64, now, TARGET_LOG_INTERVAL_MS)
            &&& final(notices).target@ == after_notice(
                old(notices).target@,
                t.index as u64,
                now,
                TARGET_LOG_INTERVAL_MS,
            )
        },
        r.target is None ==> !r.log && final(notices).target@ == old(notices).target@,
        r.warn == (unattached(mode, displays@) && notice_due(
            old(notices).unattached@,
            mode->Index_0 as u64,
            now,
            INDEX_WARN_INTERVAL_MS,
        )),
        final(notices).unattached@ == (if unattached(mode, displays@) {
            after_notice(old(notices).unattached@, mode->Index_0 as u64, now, INDEX_WARN_INTERVAL_MS)
        } else {
            old(notices).unattached@
        }),
{
    let index: usize = match resolve_target(mode, displays, foreground_nearest) {
        Some(i) => i,
        None => {
            return TargetChoice { target: None, warn: false, log: false };
        },
    };
    let warn = match mode {
        MonitorMode::Index(n) => n as u64 >= displays.len() as u64 && warn_index_fallback(
            &mut notices.unattached,
            n,
            now,
        ),
        _ => false,
    };
    let log = log_target_once(&mut notices.target, index, now);
    TargetChoice { target: Some(target_at(displays, index)), warn, log }
}

/// `v` brought into the range of `i32`.
pub open spec fn to_i32(v: int) -> int {
    clamped(v, i32::MIN as int, i32::MAX as int)
}

/// A logical length in physical pixels: `v * dpi / 96`, rounded to the
/// nearest pixel, halves away from zero.
pub open spec fn scaled(v: int, dpi: u32) -> int {
    if v >= 0 {
        (2 * (v * dpi) + 96) / 192
    } else {
        -((2 * (-v * dpi) + 96) / 192)
    }
}

/// A logical length in physical pixels.
pub fn scale_px(v: i32, dpi: u32) -> (r: i32)
    ensures
        r == to_i32(scaled(v as int, dpi)),
{
    let wide: i128 = v as i128;
    let d: i128 = dpi as i128;
    let m: i128 = if wide >= 0 {
        wide
    } else {
        -wide
    };
    assert(0 <= m * d <= 0x8000_0000 * 0x1_0000_0000) by (nonlinear_arith)
        requires
            0 <= m <= 0x8000_0000,
            0 <= d <= 0x1_0000_0000,
    ;
    let rounded: i128 = (2 * (m * d) + 96) / 192;
    assert(m * d == (if v >= 0 {
        v * dpi
    } else {
        -v * dpi
    }));
    let signed: i128 = if wide >= 0 {
        rounded
    } else {
        -rounded
    };
    if signed < i32::MIN as i128 {
        i32::MIN
    } else if signed > i32::MAX as i128 {
        i32::MAX
    } else {
        signed as i32
    }
}

/// Half of `d`, truncated toward zero.
pub open spec fn half(d: int) -> int {
    if d >= 0 {
        d / 2
    } else {
        -(-d / 2)
    }
}

/// The unclamped left edge of a `width`-wide window.
pub open spec fn anchored_x(work: Rect, width: int, position: OverlayPos, inset: int, dpi: u32) -> int {
    let margin = to_i32(scaled(position.margin as int, dpi));
    match position.x {
        Some(px) => to_i32(scaled(px as int, dpi)) - inset,
        None => match position.horizontal {
            HorizontalPosition::Left => work.left + margin - inset,
            HorizontalPosition::Center => work.left + half(work.right - work.left - width) - inset,
            HorizontalPosition::Right => work.right - width - margin - inset,
        },
    }
}

/// The unclamped top edge of a `height`-tall window.
pub open spec fn anchored_y(work: Rect, height: int, position: OverlayPos, inset: int, dpi: u32) -> int {
    let margin = to_i32(scaled(position.margin as int, dpi));
    match position.y {
        Some(py) => to_i32(scaled(py as int, dpi)) - inset,
        None => match position.vertical {
            VerticalPosition::Top => work.top + margin - inset,
            VerticalPosition::Bottom => work.bottom - height - margin - inset,
        },
    }
}

/// The largest start of a span of `size` within `lo..hi`; `lo` where it does
/// not fit.
pub open spec fn last_start(lo: int, hi: int, size: int) -> int {
    if hi - size > lo {
        hi - size
    } else {
        lo
    }
}

fn clamp_i64(v: i64, lo: i64, hi: i64) -> (r: i64)
    ensures
        r == clamped(v as int, lo as int, hi as int),
{
    if v < lo {
        lo
    } else if v > hi {
        hi
    } else {
        v
    }
}

fn half_i64(d: i64) -> (r: i64)
    requires
        d > i64::MIN,
    ensures
        r == half(d as int),
{
    if d >= 0 {
        d / 2
    } else {
        -(-d / 2)
    }
}

/// The window's top-left for a `width` by `height` pill body on the given
/// work area. Anchors and absolute overrides place the pill body; the window
/// starts `inset` before it on both axes. The result is clamped into the work
/// area.
pub fn placement(work: Rect, width: i32, height: i32, position: &OverlayPos, inset: i32, dpi: u32) -> (r: Point)
    requires
        work.right - width <= i32::MAX,
        work.bottom - height <= i32::MAX,
    ensures
        r.x == clamped(
            anchored_x(work, width as int, *position, inset as int, dpi),
            work.left as int,
            last_start(work.left as int, work.right as int, width as int),
        ),
        r.y == clamped(
            anchored_y(work, height as int, *position, inset as int, dpi),
            work.top as int,
            last_start(work.top as int, work.bottom as int, height as int),
        ),
{
    let margin: i64 = scale_px(position.margin, dpi) as i64;
    let (left, top, right, bottom) = (work.left as i64, work.top as i64, work.right as i64, work.bottom as i64);
    let (w, h, i) = (width as i64, height as i64, inset as i64);
    let x: i64 = match position.x {
        Some(px) => scale_px(px, dpi) as i64 - i,
        None => match position.horizontal {
            HorizontalPosition::Left => left + margin - i,
            HorizontalPosition::Center => left + half_i64(right - left - w) - i,
            HorizontalPosition::Right => right - w - margin - i,
        },
    };
    let y: i64 = match position.y {
        Some(py) => scale_px(py, dpi) as i64 - i,
        None => match position.vertical {
            VerticalPosition::Top => top + margin - i,
            VerticalPosition::Bottom => bottom - h - margin - i,
        },
    };
    let max_x: i64 = if right - w > left {
        right - w
    } else {
        left
    };
    let max_y: i64 = if bottom - h > top {
        bottom - h
    } else {
        top
    };
    Point { x: clamp_i64(x, left, max_x) as i32, y: clamp_i64(y, top, max_y) as i32 }
}

/// The x coordinate that `placement` gives.
pub open spec fn placed_x(work: Rect, width: int, position: OverlayPos, inset: int, dpi: u32) -> int {
    clamped(
        anchored_x(work, width, position, inset, dpi),
        work.left as int,
        last_start(work.left as int, work.right as int, width),
    )
}

/// The y coordinate that `placement` gives.
pub open spec fn placed_y(work: Rect, height: int, position: OverlayPos, inset: int, dpi: u32) -> int {
    clamped(
        anchored_y(work, height, position, inset, dpi),
        work.top as int,
        last_start(work.top as int, work.bottom as int, height),
    )
}

/// A pill that fits the work area lands inside it, whatever the anchor, the
/// margin or the override.
pub proof fn law_placement_stays_in_the_work_area(
    work: Rect,
    width: int,
    height: int,
    position: OverlayPos,
    inset: int,
    dpi: u32,
)
    requires
        0 <= width <= work.right - work.left,
        0 <= height <= work.bottom - work.top,
    ensures
        work.left <= placed_x(work, width, position, inset, dpi),
        placed_x(work, width, position, inset, dpi) + width <= work.right,
        work.top <= placed_y(work, height, position, inset, dpi),
        placed_y(work, height, position, inset, dpi) + height <= work.bottom,
{
}

/// A right-anchored pill keeps its right edge while its width changes, and a
/// bottom-anchored one its bottom edge while its height changes, as long as
/// neither size is clamped.
pub proof fn law_far_anchors_stay_fixed_while_the_pill_grows(
    work: Rect,
    size_a: int,
    size_b: int,
    position: OverlayPos,
    inset: int,
    dpi: u32,
)
    requires
        position.horizontal == HorizontalPosition::Right,
        position.vertical == VerticalPosition::Bottom,
        position.x is None,
        position.y is None,
        0 <= to_i32(scaled(position.margin as int, dpi)) + inset,
        to_i32(scaled(position.margin as int, dpi)) + inset + size_a <= work.right - work.left,
        to_i32(scaled(position.margin as int, dpi)) + inset + size_b <= work.right - work.left,
        to_i32(scaled(position.margin as int, dpi)) + inset + size_a <= work.bottom - work.top,
        to_i32(scaled(position.margin as int, dpi)) + inset + size_b <= work.bottom - work.top,
    ensures
        placed_x(work, size_a, position, inset, dpi) + size_a == placed_x(work, size_b, position, inset, dpi) + size_b,
        placed_y(work, size_a, position, inset, dpi) + size_a == placed_y(work, size_b, position, inset, dpi) + size_b,
{
}

/// At 96 DPI logical and physical pixels agree.
pub proof fn law_base_dpi_keeps_lengths(v: int)
    ensures
        scaled(v, BASE_DPI) == v,
{
    if v >= 0 {
        assert((2 * (v * 96) + 96) / 192 == v) by (nonlinear_arith);
    } else {
        let m = -v;
        assert((2 * (m * 96) + 96) / 192 == m) by (nonlinear_arith);
    }
}

/// The sampled foreground that a layout decision is based on.
#[derive(Debug)]
pub struct ForegroundVerdict {
    /// The executable name with its extension, where it could be read.
    pub exe: Option<String>,
    /// Whether the foreground window covers its whole monitor.
    pub fullscreen: bool,
}

/// What the window system says of a window that may be fullscreen.
#[derive(Debug)]
pub struct WindowFacts {
    pub is_null: bool,
    pub is_overlay: bool,
    pub visible: bool,
    pub minimized: bool,
    pub class_name: Option<String>,
    pub tool_window: bool,
    pub rect: Option<Rect>,
}

/// Whether a window class is a desktop, shell or taskbar surface.
pub open spec fn is_shell_class(name: Seq<char>) -> bool {
    name == "Progman"@ || name == "WorkerW"@ || name == "Shell_TrayWnd"@ || name == "Shell_SecondaryTrayWnd"@
}

fn shell_class(name: &str) -> (r: bool)
    ensures
        r == is_shell_class(name@),
{
    same_text(name, "Progman") || same_text(name, "WorkerW") || same_text(name, "Shell_TrayWnd") || same_text(
        name,
        "Shell_SecondaryTrayWnd",
    )
}

impl WindowFacts {
    /// Whether the window may count as fullscreen at all: an application
    /// window that is visible and not minimized.
    pub open spec fn is_candidate(self) -> bool {
        &&& !self.is_null
        &&& !self.is_overlay
        &&& self.visible
        &&& !self.minimized
        &&& !(self.class_name matches Some(name) && is_shell_class(name@))
        &&& !self.tool_window
    }
}

/// The window's rectangle where it clears the fullscreen-candidate guards.
pub fn fullscreen_candidate_rect(window: &WindowFacts) -> (r: Option<Rect>)
    ensures
        r == (if window.is_candidate() {
            window.rect
        } else {
            None
        }),
{
    if window.is_null || window.is_overlay {
        return None;
    }
    if !window.visible || window.minimized {
        return None;
    }
    if let Some(name) = &window.class_name {
        if shell_class(name.as_str()) {
            return None;
        }
    }
    if window.tool_window {
        return None;
    }
    window.rect
}

/// Whether `window` reaches every edge of `monitor` within the tolerance.
pub open spec fn covers(window: Rect, monitor: Rect) -> bool {
    &&& window.left <= monitor.left + FULLSCREEN_TOLERANCE
    &&& window.top <= monitor.top + FULLSCREEN_TOLERANCE
    &&& window.right >= monitor.right - FULLSCREEN_TOLERANCE
    &&& window.bottom >= monitor.bottom - FULLSCREEN_TOLERANCE
}

/// Whether a window rectangle covers a monitor.
pub fn rect_covers_monitor(window: &Rect, monitor: &Rect) -> (r: bool)
    ensures
        r == covers(*window, *monitor),
{
    let t: i64 = FULLSCREEN_TOLERANCE as i64;
    window.left as i64 <= monitor.left as i64 + t && window.top as i64 <= monitor.top as i64 + t
        && window.right as i64 >= monitor.right as i64 - t && window.bottom as i64 >= monitor.bottom as i64 - t
}

/// A monitor's own bounds cover it.
pub proof fn law_full_bounds_cover(monitor: Rect)
    ensures
        covers(monitor, monitor),
{
}

/// Whether a window counts as a fullscreen app: a candidate whose rectangle
/// covers its own monitor. Anything unreadable does not count.
pub fn window_is_fullscreen(window: &WindowFacts, monitor: Option<Rect>) -> (r: bool)
    ensures
        r <==> window.is_candidate() && window.rect is Some && monitor is Some && covers(
            window.rect->0,
            monitor->0,
        ),
{
    match (fullscreen_candidate_rect(window), monitor) {
        (Some(rect), Some(rc)) => rect_covers_monitor(&rect, &rc),
        _ => false,
    }
}

/// Whether a fullscreen foreground window occupies the target display.
pub fn foreground_fullscreens_target(target: &TargetMonitor, window: &WindowFacts) -> (r: bool)
    ensures
        r <==> window.is_candidate() && window.rect is Some && covers(window.rect->0, target.monitor),
{
    match fullscreen_candidate_rect(window) {
        Some(rect) => rect_covers_monitor(&rect, &target.monitor),
        None => false,
    }
}

/// The rectangle that placement anchors against: the whole monitor under a
/// fullscreen app, the work area otherwise.
pub fn effective_position_rect(monitor_rc: Rect, work_rc: Rect, fullscreen: bool) -> (r: Rect)
    ensures
        r == (if fullscreen {
            monitor_rc
        } else {
            work_rc
        }),
{
    if fullscreen {
        monitor_rc
    } else {
        work_rc
    }
}

/// Whether a foreground switch left both the anchor and the layout as they
/// were. The first resolve never did.
pub fn anchor_unchanged(last: Option<Rect>, edge: Rect, layout_flipped: bool) -> (r: bool)
    ensures
        r == (last == Some(edge) && !layout_flipped),
{
    match last {
        Some(prev) => prev == edge && !layout_flipped,
        None => false,
    }
}

/// An executable name without its extension.
pub open spec fn exe_stem(exe: Seq<char>) -> Seq<char> {
    without_suffix(without_suffix(exe, ".exe"@), ".EXE"@)
}

/// Whether an executable is on the Auto-compact source list: some pattern's
/// folded form occurs in the folded name. A missing name and an empty list
/// match nothing.
pub open spec fn listed(config: Config, exe: Option<Seq<char>>) -> bool {
    exe matches Some(name) && exists|i: int|
        0 <= i < config.behavior.auto_compact_sources@.len() && contains_text(
            folded(exe_stem(name)),
            folded((#[trigger] config.behavior.auto_compact_sources@[i])@),
        )
}

/// Whether the foreground executable matches the Auto-compact source list.
pub fn auto_source_matches(config: &Config, exe_name: Option<&str>) -> (r: bool)
    ensures
        r == listed(
            *config,
            match exe_name {
                Some(s) => Some(s@),
                None => None,
            },
        ),
{
    let exe: &str = match exe_name {
        Some(e) => e,
        None => {
            return false;
        },
    };
    proof {
        reveal_strlit(".exe");
        reveal_strlit(".EXE");
    }
    let stem = strip_suffix(strip_suffix(exe, ".exe"), ".EXE");
    let name = normalize_for_match(stem);
    let patterns = &config.behavior.auto_compact_sources;
    let mut i: usize = 0;
    while i < patterns.len()
        invariant
            exe_name == Some(exe),
            patterns@ == config.behavior.auto_compact_sources@,
            i <= patterns@.len(),
            name@ == folded(exe_stem(exe@)),
            forall|k: int|
                0 <= k < i ==> !contains_text(name@, folded((#[trigger] config.behavior.auto_compact_sources@[k])@)),
        decreases patterns@.len() - i,
    {
        let pattern = normalize_for_match(patterns[i].as_str());
        if contains(&name, &pattern) {
            assert(contains_text(name@, folded(config.behavior.auto_compact_sources@[i as int]@)));
            return true;
        }
        i = i + 1;
    }
    false
}

/// `auto_source_matches` on a sampled name.
pub fn exe_listed(config: &Config, exe: &Option<String>) -> (r: bool)
    ensures
        r == listed(*config, optional_text(*exe)),
{
    match exe {
        Some(s) => auto_source_matches(config, Some(s.as_str())),
        None => auto_source_matches(config, None),
    }
}

/// The layout that a mode and a foreground sample give.
pub open spec fn decided_layout(config: Config, exe: Option<Seq<char>>, fullscreen: bool) -> LayoutMode {
    match config.overlay.layout {
        LayoutMode::Expanded => LayoutMode::Expanded,
        LayoutMode::Compact => LayoutMode::Compact,
        LayoutMode::PersistentCompact => LayoutMode::Compact,
        LayoutMode::Auto => if fullscreen || listed(config, exe) {
            LayoutMode::Compact
        } else {
            LayoutMode::Expanded
        },
    }
}

/// The effective pill layout: the explicit modes directly, Persistent Compact
/// always compact, Auto compact over a fullscreen or listed foreground app.
pub fn decide_layout(config: &Config, verdict: &ForegroundVerdict) -> (r: LayoutMode)
    ensures
        r == decided_layout(*config, optional_text(verdict.exe), verdict.fullscreen),
{
    match config.overlay.layout {
        LayoutMode::Expanded => LayoutMode::Expanded,
        LayoutMode::Compact => LayoutMode::Compact,
        LayoutMode::PersistentCompact => LayoutMode::Compact,
        LayoutMode::Auto => if verdict.fullscreen || exe_listed(config, &verdict.exe) {
            LayoutMode::Compact
        } else {
            LayoutMode::Expanded
        },
    }
}

/// A decided layout is always one that can be drawn.
pub proof fn law_decided_layout_is_concrete(config: Config, exe: Option<Seq<char>>, fullscreen: bool)
    ensures
        decided_layout(config, exe, fullscreen) == LayoutMode::Expanded || decided_layout(config, exe, fullscreen)
            == LayoutMode::Compact,
{
}

/// A logical length is scaled to the nearest physical pixel, and a length to
/// the left like one to the right, mirrored.
pub proof fn law_scaling_rounds_to_the_nearest(v: int, dpi: u32)
    ensures
        scaled(-v, dpi) == -scaled(v, dpi),
        v >= 0 ==> 192 * scaled(v, dpi) - 96 <= 2 * (v * dpi) < 192 * scaled(v, dpi) + 96,
{
    if v == 0 {
        assert(v * dpi == 0) by (nonlinear_arith)
            requires
                v == 0,
        ;
        assert(-v * dpi == 0) by (nonlinear_arith)
            requires
                v == 0,
        ;
    }
    assert(-(-v) == v);
}

/// A window that fits stands where its anchor says: its margin away from the
/// left or right edge, in the middle, or at the given coordinate, and its aura
/// ring reaches out by the inset. A coordinate wins over the anchor.
pub proof fn law_window_stands_at_its_anchor(work: Rect, width: int, position: OverlayPos, inset: int, dpi: u32)
    requires
        0 <= width <= work.right - work.left,
        i32::MIN <= scaled(position.margin as int, dpi) <= i32::MAX,
        position.x matches Some(x) ==> i32::MIN <= scaled(x as int, dpi) <= i32::MAX,
    ensures
        ({
            let at = placed_x(work, width, position, inset, dpi);
            let margin = scaled(position.margin as int, dpi);
            let wish = match position.x {
                Some(x) => scaled(x as int, dpi) - inset,
                None => match position.horizontal {
                    HorizontalPosition::Left => work.left + margin - inset,
                    HorizontalPosition::Right => work.right - (margin + width) - inset,
                    HorizontalPosition::Center => (work.left + work.right - width - (work.left + work.right - width
                        - 2 * work.left) % 2) / 2 - inset,
                },
            };
            &&& work.left <= wish && wish + width <= work.right ==> at == wish
            &&& wish < work.left ==> at == work.left
            &&& wish + width > work.right ==> at + width == work.right
        }),
{
}

/// Likewise from top to bottom.
pub proof fn law_window_stands_at_its_vertical_anchor(
    work: Rect,
    height: int,
    position: OverlayPos,
    inset: int,
    dpi: u32,
)
    requires
        0 <= height <= work.bottom - work.top,
        i32::MIN <= scaled(position.margin as int, dpi) <= i32::MAX,
        position.y matches Some(y) ==> i32::MIN <= scaled(y as int, dpi) <= i32::MAX,
    ensures
        ({
            let at = placed_y(work, height, position, inset, dpi);
            let margin = scaled(position.margin as int, dpi);
            let wish = match position.y {
                Some(y) => scaled(y as int, dpi) - inset,
                None => match position.vertical {
                    VerticalPosition::Top => work.top + margin - inset,
                    VerticalPosition::Bottom => work.bottom - (margin + height) - inset,
                },
            };
            &&& work.top <= wish && wish + height <= work.bottom ==> at == wish
            &&& wish < work.top ==> at == work.top
            &&& wish + height > work.bottom ==> at + height == work.bottom
        }),
{
}

/// A window that is too large for the area starts at its left and top edge.
pub proof fn law_oversized_window_starts_at_the_edge(
    work: Rect,
    width: int,
    height: int,
    position: OverlayPos,
    inset: int,
    dpi: u32,
)
    ensures
        width >= work.right - work.left ==> placed_x(work, width, position, inset, dpi) == work.left,
        height >= work.bottom - work.top ==> placed_y(work, height, position, inset, dpi) == work.top,
{
}

/// The frame period is the whole milliseconds of the exact one, but for
/// 144 Hz, which counts as 7.
pub proof fn law_frame_period_is_whole_milliseconds(num: u32, den: u32)
    requires
        num > 0,
    ensures
        num != 144 * den ==> frame_period(num, den) * num <= 1000 * den < (frame_period(num, den) + 1) * num,
        num == 144 * den ==> frame_period(num, den) == 7,
{
    let (n, d) = (1000 * den, num as int);
    let q = n / d;
    assert(q * d <= n < (q + 1) * d) by (nonlinear_arith)
        requires
            q == n / d,
            d > 0,
    ;
}

/// The pill targets the foreground window's display, the primary one or the
/// numbered one, as configured. Where that one is not attached or cannot be
/// told, it is the first display that is flagged primary, and the first of all
/// where none is.
pub proof fn law_target_is_the_configured_display(
    mode: MonitorMode,
    displays: Seq<DisplayInfo>,
    foreground_nearest: Option<usize>,
    i: int,
)
    requires
        resolves_to(mode, displays, foreground_nearest, i),
    ensures
        0 <= i < displays.len(),
        mode matches MonitorMode::Index(n) ==> n < displays.len() ==> i == n,
        mode is ActiveWindow && foreground_nearest is Some && foreground_nearest->0 < displays.len() ==> i
            == foreground_nearest->0,
        mode is Primary || (mode is ActiveWindow && (foreground_nearest is None || foreground_nearest->0
            >= displays.len())) || (mode is Index && mode->Index_0 >= displays.len()) ==> {
            &&& displays[i].primary || i == 0
            &&& !displays[i].primary ==> forall|k: int| 0 <= k < displays.len() ==> !(#[trigger] displays[k]).primary
            &&& forall|k: int| 0 <= k < i ==> !(#[trigger] displays[k]).primary
        },
{
}

/// A target carries what its display reports.
pub proof fn law_target_is_its_display(displays: Seq<DisplayInfo>, i: int)
    requires
        0 <= i < displays.len() <= usize::MAX,
    ensures
        target_of(displays, i).handle == displays[i].handle,
        target_of(displays, i).work == displays[i].work,
        target_of(displays, i).monitor == displays[i].monitor,
        target_of(displays, i).primary == displays[i].primary,
        target_of(displays, i).index == i,
{
}

/// Only a numbered display can be missing, and it is where the number is past
/// the last one.
pub proof fn law_only_a_numbered_display_can_be_missing(mode: MonitorMode, displays: Seq<DisplayInfo>)
    requires
        displays.len() > 0,
    ensures
        mode is ActiveWindow || mode is Primary ==> !unattached(mode, displays),
        mode matches MonitorMode::Index(n) ==> (unattached(mode, displays) <==> n >= displays.len()),
{
}

/// A notice is due again once its interval has passed, and one about a key
/// that was never given is due at once.
pub proof fn law_notice_comes_again(given: Seq<LastNotice>, key: u64, now: u64, interval: u64)
    requires
        forall|i: int| 0 <= i < given.len() && (#[trigger] given[i]).key == key ==> since(given[i].at, now) >= interval,
    ensures
        notice_due(given, key, now, interval),
        after_notice(given, key, now, interval).len() > 0,
        after_notice(given, key, now, interval).last() == (LastNotice { key, at: now }),
{
}

/// A notice that is not due changes nothing about what is remembered.
pub proof fn law_withheld_notice_is_not_remembered(given: Seq<LastNotice>, key: u64, now: u64, interval: u64, i: int)
    requires
        0 <= i < given.len(),
        given[i].key == key,
        since(given[i].at, now) < interval,
    ensures
        !notice_due(given, key, now, interval),
        after_notice(given, key, now, interval) == given,
{
}

/// A window covers a monitor where it falls short of no edge by more than two
/// pixels; reaching beyond an edge does not count against it.
pub proof fn law_covering_tolerates_two_pixels(window: Rect, monitor: Rect)
    ensures
        covers(window, monitor) ==> window.left - 2 <= monitor.left && window.top - 2 <= monitor.top && window.right
            + 2 >= monitor.right && window.bottom + 2 >= monitor.bottom,
        window.left > monitor.left + 2 || window.top > monitor.top + 2 || window.right < monitor.right - 2
            || window.bottom < monitor.bottom - 2 ==> !covers(window, monitor),
        window.left <= monitor.left + 2 && window.top <= monitor.top + 2 && window.right >= monitor.right - 2
            && window.bottom >= monitor.bottom - 2 ==> covers(window, monitor),
{
}

/// Neither no window nor the overlay's own, an invisible or minimized one, a
/// tool window or a surface of the desktop and taskbar counts as a fullscreen
/// app; any other window may.
pub proof fn law_only_an_application_window_counts(w: WindowFacts)
    ensures
        w.is_null || w.is_overlay || !w.visible || w.minimized || w.tool_window ==> !w.is_candidate(),
        w.class_name matches Some(name) ==> (name@ == "Progman"@ || name@ == "WorkerW"@ || name@ == "Shell_TrayWnd"@
            || name@ == "Shell_SecondaryTrayWnd"@) ==> !w.is_candidate(),
        !w.is_null && !w.is_overlay && w.visible && !w.minimized && !w.tool_window && (w.class_name is None || (
        w.class_name->0@ != "Progman"@ && w.class_name->0@ != "WorkerW"@ && w.class_name->0@ != "Shell_TrayWnd"@
            && w.class_name->0@ != "Shell_SecondaryTrayWnd"@)) ==> w.is_candidate(),
{
}

/// An executable is on the list where the folded form of any entry occurs in
/// its folded name; an unreadable name and an empty list match nothing.
pub proof fn law_any_entry_lists_an_executable(config: Config, name: Seq<char>, i: int)
    ensures
        !listed(config, None),
        config.behavior.auto_compact_sources@.len() == 0 ==> !listed(config, Some(name)),
        0 <= i < config.behavior.auto_compact_sources@.len() && contains_text(
            folded(exe_stem(name)),
            folded(config.behavior.auto_compact_sources@[i]@),
        ) ==> listed(config, Some(name)),
        listed(config, Some(name)) ==> exists|k: int|
            0 <= k < config.behavior.auto_compact_sources@.len() && contains_text(
                folded(exe_stem(name)),
                folded((#[trigger] config.behavior.auto_compact_sources@[k])@),
            ),
{
}

/// An executable's extension, in lower or upper case, says nothing about it.
pub proof fn law_extension_is_not_part_of_the_name(name: Seq<char>)
    ensures
        exe_stem(name + ".exe"@) == exe_stem(name),
        exe_stem(name + ".EXE"@) == without_suffix(name, ".EXE"@),
        name.len() >= 4 && name.skip(name.len() - 4) != ".exe"@ && name.skip(name.len() - 4) != ".EXE"@
            ==> exe_stem(name) == name,
        name.len() < 4 ==> exe_stem(name) == name,
        exe_stem(name).len() <= name.len(),
        exe_stem(name) == name.take(exe_stem(name).len() as int),
{
    reveal_strlit(".exe");
    reveal_strlit(".EXE");
    law_suffix_is_taken_off(name, ".exe"@);
    law_suffix_is_taken_off(without_suffix(name, ".exe"@), ".EXE"@);
    law_suffix_is_taken_off(name, ".EXE"@);
    let upper = name + ".EXE"@;
    assert(upper.skip(upper.len() - 4) =~= ".EXE"@);
    assert(".EXE"@[1] != ".exe"@[1]);
    law_suffix_is_taken_off(upper, ".exe"@);
    assert(exe_stem(name) =~= name.take(exe_stem(name).len() as int));
}

/// A value inside a range is left as it is, and one outside goes to the
/// nearer end; the range of `i32` is such a range.
pub proof fn law_clamping_goes_to_the_nearer_end(v: int, lo: int, hi: int)
    requires
        lo <= hi,
    ensures
        lo <= clamped(v, lo, hi) <= hi,
        lo <= v <= hi ==> clamped(v, lo, hi) == v,
        v < lo ==> clamped(v, lo, hi) == lo,
        v > hi ==> clamped(v, lo, hi) == hi,
        i32::MIN <= v <= i32::MAX ==> to_i32(v) == v,
        v < i32::MIN ==> to_i32(v) == i32::MIN,
        v > i32::MAX ==> to_i32(v) == i32::MAX,
{
}

/// Only notices within the interval stay remembered: what has aged out of it
/// is forgotten when the next notice is given.
pub proof fn law_old_notices_are_forgotten(given: Seq<LastNotice>, now: u64, interval: u64)
    ensures
        recent_notices(given, now, interval).len() <= given.len(),
        forall|i: int|
            0 <= i < recent_notices(given, now, interval).len() ==> {
                &&& since((#[trigger] recent_notices(given, now, interval)[i]).at, now) < interval
                &&& given.contains(recent_notices(given, now, interval)[i])
            },
    decreases given.len(),
{
    if given.len() > 0 {
        let init = given.drop_last();
        law_old_notices_are_forgotten(init, now, interval);
        let before = recent_notices(init, now, interval);
        let all = recent_notices(given, now, interval);
        assert forall|i: int| 0 <= i < all.len() implies since((#[trigger] all[i]).at, now) < interval
            && given.contains(all[i]) by {
            if i < before.len() {
                assert(all[i] == before[i]);
                assert(init.contains(before[i]));
                let k = choose|k: int| 0 <= k < init.len() && init[k] == before[i];
                assert(given[k] == all[i]);
            } else {
                assert(given[given.len() - 1] == all[i]);
            }
        }
    }
}

} // verus!
