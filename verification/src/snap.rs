//! Snapping the calculator window to the edge of a target window: the
//! configuration, the manager's state, and the placement geometry.
use vstd::prelude::*;
use vstd::string::*;

use crate::text::trim;
use crate::text::trim_seq;

verus! {

/// The side of the target window that the calculator window sticks to.
#[derive(Debug, Clone, Copy, PartialEq, Eq, Structural)]
pub enum SnapPosition {
    Left,
    Right,
    Top,
    Bottom,
}

/// The name under which a position is reported.
pub open spec fn position_name(p: SnapPosition) -> Seq<char> {
    match p {
        SnapPosition::Left => "Left"@,
        SnapPosition::Right => "Right"@,
        SnapPosition::Top => "Top"@,
        SnapPosition::Bottom => "Bottom"@,
    }
}

impl SnapPosition {
    /// The name under which this position is reported ("Left", "Right", "Top", "Bottom").
    pub fn name(&self) -> (r: String)
        ensures
            r@ == position_name(*self),
    {
        match self {
            SnapPosition::Left => String::from_str("Left"),
            SnapPosition::Right => String::from_str("Right"),
            SnapPosition::Top => String::from_str("Top"),
            SnapPosition::Bottom => String::from_str("Bottom"),
        }
    }
}

/// The texts that a sequence of strings holds.
pub open spec fn string_views(v: Seq<String>) -> Seq<Seq<char>> {
    v.map_values(|s: String| s@)
}

/// Each text with its surrounding whitespace removed.
pub open spec fn trim_all(v: Seq<Seq<char>>) -> Seq<Seq<char>> {
    v.map_values(|t: Seq<char>| trim_seq(t))
}

/// The predicate "not empty" on texts.
pub open spec fn non_empty() -> spec_fn(Seq<char>) -> bool {
    |t: Seq<char>| t.len() > 0
}

/// The trimmed texts of `ks` that are not empty, in order.
pub open spec fn trimmed_keywords(ks: Seq<String>) -> Seq<Seq<char>> {
    trim_all(string_views(ks)).filter(non_empty())
}

/// What to snap to and how.
#[derive(Debug, Clone)]
pub struct SnapConfig {
    pub position: SnapPosition,
    pub target_keyword: String,
    pub target_keywords: Option<Vec<String>>,
    pub gap: i32,
}

impl SnapConfig {
    /// The keywords that identify the target window: the trimmed, non-empty
    /// entries of `target_keywords` when that list is given and not empty,
    /// else `target_keyword` alone, as it stands.
    pub open spec fn spec_keywords(self) -> Seq<Seq<char>> {
        match self.target_keywords {
            Some(ks) => if ks@.len() > 0 {
                trimmed_keywords(ks@)
            } else {
                seq![self.target_keyword@]
            },
            None => seq![self.target_keyword@],
        }
    }

    /// The keywords that identify the target window.
    pub fn keywords(&self) -> (r: Vec<String>)
        ensures
            string_views(r@) == self.spec_keywords(),
    {
        match &self.target_keywords {
            Some(ks) => {
                if ks.len() > 0 {
                    let ghost trimmed = trim_all(string_views(ks@));
                    let mut out: Vec<String> = Vec::new();
                    let n = ks.len();
                    for i in 0..n
                        invariant
                            n == ks@.len(),
                            trimmed == trim_all(string_views(ks@)),
                            string_views(out@) == trimmed.take(i as int).filter(non_empty()),
                    {
                        let t = trim(ks[i].as_str());
                        assert(trimmed.take(i + 1).drop_last() =~= trimmed.take(i as int));
                        assert(trimmed.take(i + 1).last() == t@);
                        reveal_with_fuel(Seq::<Seq<char>>::filter, 1);
                        if !t.as_str().is_empty() {
                            let ghost before = out@;
                            out.push(t);
                            assert(string_views(out@) =~= string_views(before).push(t@));
                        }
                    }
                    assert(trimmed.take(n as int) =~= trimmed);
                    out
                } else {
                    let mut out: Vec<String> = Vec::new();
                    out.push(self.target_keyword.clone());
                    assert(string_views(out@) =~= seq![self.target_keyword@]);
                    out
                }
            },
            None => {
                let mut out: Vec<String> = Vec::new();
                out.push(self.target_keyword.clone());
                assert(string_views(out@) =~= seq![self.target_keyword@]);
                out
            },
        }
    }
}

/// The text that an optional string holds, if any.
pub open spec fn opt_view(o: Option<String>) -> Option<Seq<char>> {
    match o {
        Some(s) => Some(s@),
        None => None,
    }
}

/// What the snapping reports about itself.
#[derive(Debug, Clone)]
pub struct SnapStatus {
    pub enabled: bool,
    pub target_found: bool,
    pub target_title: Option<String>,
    pub position: String,
}

/// A status report, with its texts taken as character sequences.
pub struct SnapStatusView {
    pub enabled: bool,
    pub target_found: bool,
    pub target_title: Option<Seq<char>>,
    pub position: Seq<char>,
}

impl View for SnapStatus {
    type V = SnapStatusView;

    open spec fn view(&self) -> SnapStatusView {
        SnapStatusView {
            enabled: self.enabled,
            target_found: self.target_found,
            target_title: opt_view(self.target_title),
            position: self.position@,
        }
    }
}

/// A rectangle on the screen: top-left corner and size.
#[derive(Debug, Clone, Copy, PartialEq, Eq, Structural)]
pub struct WindowRect {
    pub x: i32,
    pub y: i32,
    pub width: i32,
    pub height: i32,
}

/// The state of a snap manager: whether snapping runs, what was last seen of
/// the target window, and the position of the configuration in force.
pub struct SnapManagerView {
    pub running: bool,
    pub target_found: bool,
    pub target_title: Option<Seq<char>>,
    pub position: Option<SnapPosition>,
}

impl SnapManagerView {
    /// The state of a manager that is not snapping and has seen nothing.
    pub open spec fn idle() -> SnapManagerView {
        SnapManagerView { running: false, target_found: false, target_title: None, position: None }
    }

    /// The state right after snapping starts with a configuration at position `p`.
    pub open spec fn started(p: SnapPosition) -> SnapManagerView {
        SnapManagerView { running: true, target_found: false, target_title: None, position: Some(p) }
    }

    /// This state after a look for the target window found `title` (or nothing).
    pub open spec fn observed(self, title: Option<String>) -> SnapManagerView {
        SnapManagerView { target_found: title is Some, target_title: opt_view(title), ..self }
    }

    /// A target is reported found exactly when a title is reported with it,
    /// and snapping runs exactly when a configuration is in force.
    pub open spec fn consistent(self) -> bool {
        &&& self.target_found == (self.target_title is Some)
        &&& self.running == (self.position is Some)
    }

    /// The report for this state: the configured position, "Right" when no
    /// configuration is in force.
    pub open spec fn status(self) -> SnapStatusView {
        SnapStatusView {
            enabled: self.running,
            target_found: self.target_found,
            target_title: self.target_title,
            position: match self.position {
                Some(p) => position_name(p),
                None => "Right"@,
            },
        }
    }
}

/// The state that the snapping loop and the commands share.
pub struct SnapManager {
    running: bool,
    target_found: bool,
    target_title: Option<String>,
    config: Option<SnapConfig>,
}

impl View for SnapManager {
    type V = SnapManagerView;

    closed spec fn view(&self) -> SnapManagerView {
        SnapManagerView {
            running: self.running,
            target_found: self.target_found,
            target_title: opt_view(self.target_title),
            position: match self.config {
                Some(c) => Some(c.position),
                None => None,
            },
        }
    }
}

impl SnapManager {
    /// A manager that is not snapping.
    pub fn new() -> (r: SnapManager)
        ensures
            r@ == SnapManagerView::idle(),
    {
        SnapManager { running: false, target_found: false, target_title: None, config: None }
    }

    /// Puts `config` in force and marks snapping as running, with no target
    /// seen yet.
    pub fn start(&mut self, config: SnapConfig)
        ensures
            final(self)@ == SnapManagerView::started(config.position),
    {
        self.stop();
        self.config = Some(config);
        self.running = true;
        self.target_found = false;
    }

    /// Stops snapping and forgets the target and the configuration.
    pub fn stop(&mut self)
        ensures
            final(self)@ == SnapManagerView::idle(),
    {
        self.running = false;
        self.target_found = false;
        self.target_title = None;
        self.config = None;
    }

    /// Whether snapping runs.
    pub fn is_running(&self) -> (r: bool)
        ensures
            r == self@.running,
    {
        self.running
    }

    /// Records what one look for the target window found: its title, or
    /// nothing.
    pub fn observe_target(&mut self, title: Option<String>)
        ensures
            final(self)@ == old(self)@.observed(title),
    {
        self.target_found = title.is_some();
        self.target_title = title;
    }

    /// The report on the snapping.
    pub fn status(&self) -> (r: SnapStatus)
        ensures
            r@ == self@.status(),
    {
        let position = match &self.config {
            Some(c) => c.position.name(),
            None => String::from_str("Right"),
        };
        let target_title = match &self.target_title {
            Some(t) => Some(t.clone()),
            None => None,
        };
        SnapStatus {
            enabled: self.is_running(),
            target_found: self.target_found,
            target_title,
            position,
        }
    }
}

/// `v` is a value of `i32`.
pub open spec fn fits_i32(v: int) -> bool {
    i32::MIN <= v <= i32::MAX
}

/// `v` brought into `[lo, hi]`.
pub open spec fn clamp_spec(v: int, lo: int, hi: int) -> int {
    if v < lo {
        lo
    } else if v > hi {
        hi
    } else {
        v
    }
}

/// The rectangle assumed for the monitor when its geometry cannot be read.
pub open spec fn default_monitor() -> WindowRect {
    WindowRect { x: 0, y: 0, width: 1920, height: 1080 }
}

/// The monitor's rectangle, or a 1920x1080 screen at the origin when it is unknown.
pub fn monitor_or_default(monitor: Option<WindowRect>) -> (r: WindowRect)
    ensures
        r == (match monitor {
            Some(m) => m,
            None => default_monitor(),
        }),
{
    match monitor {
        Some(m) => m,
        None => WindowRect { x: 0, y: 0, width: 1920, height: 1080 },
    }
}

/// Every intermediate value of the placement is an `i32`, and the window
/// (`w` wide, `h` high) is no larger than the monitor `m`.
pub open spec fn snap_inputs_ok(
    t: WindowRect,
    w: int,
    h: int,
    m: WindowRect,
    pos: SnapPosition,
    gap: int,
) -> bool {
    let right = m.x + m.width;
    let bottom = m.y + m.height;
    &&& fits_i32(right)
    &&& fits_i32(bottom)
    &&& match pos {
        SnapPosition::Right => {
            &&& fits_i32(t.x + t.width)
            &&& fits_i32(t.x + t.width + gap)
            &&& fits_i32(t.x + t.width + gap + w)
            &&& (t.x + t.width + gap + w > right ==> fits_i32(t.x - w) && fits_i32(t.x - w - gap))
        },
        SnapPosition::Left => {
            &&& fits_i32(t.x - w)
            &&& fits_i32(t.x - w - gap)
            &&& (t.x - w - gap < m.x ==> fits_i32(t.x + t.width) && fits_i32(t.x + t.width + gap))
        },
        SnapPosition::Top => {
            &&& fits_i32(t.y - h)
            &&& fits_i32(t.y - h - gap)
            &&& (t.y - h - gap < m.y ==> fits_i32(t.y + t.height) && fits_i32(
                t.y + t.height + gap,
            ))
        },
        SnapPosition::Bottom => {
            &&& fits_i32(t.y + t.height)
            &&& fits_i32(t.y + t.height + gap)
            &&& fits_i32(t.y + t.height + gap + h)
            &&& (t.y + t.height + gap + h > bottom ==> fits_i32(t.y - h) && fits_i32(
                t.y - h - gap,
            ))
        },
    }
    &&& fits_i32(right - w)
    &&& fits_i32(bottom - h)
    &&& m.x <= right - w
    &&& m.y <= bottom - h
}

/// Where a window `w` wide and `h` high goes beside target `t` on monitor
/// `m`: `gap` away from the chosen side of the target (aligned with the
/// target's left or top edge), on the opposite side when it would leave the
/// screen that way, and in the end moved into the monitor.
pub open spec fn snap_target(
    t: WindowRect,
    w: int,
    h: int,
    m: WindowRect,
    pos: SnapPosition,
    gap: int,
) -> (int, int) {
    let right = m.x + m.width;
    let bottom = m.y + m.height;
    let beside_right = t.x + t.width + gap;
    let beside_left = t.x - w - gap;
    let above = t.y - h - gap;
    let below = t.y + t.height + gap;
    let x = match pos {
        SnapPosition::Right => if beside_right + w > right {
            beside_left
        } else {
            beside_right
        },
        SnapPosition::Left => if beside_left < m.x {
            beside_right
        } else {
            beside_left
        },
        _ => t.x as int,
    };
    let y = match pos {
        SnapPosition::Bottom => if below + h > bottom {
            above
        } else {
            below
        },
        SnapPosition::Top => if above < m.y {
            below
        } else {
            above
        },
        _ => t.y as int,
    };
    (clamp_spec(x, m.x as int, right - w), clamp_spec(y, m.y as int, bottom - h))
}

/// `i32::clamp`.
fn clamp_i32(v: i32, lo: i32, hi: i32) -> (r: i32)
    requires
        lo <= hi,
    ensures
        r == clamp_spec(v as int, lo as int, hi as int),
{
    if v < lo {
        lo
    } else if v > hi {
        hi
    } else {
        v
    }
}

/// The top-left corner for the calculator window (`win_width` by
/// `win_height`, in physical pixels) snapped to `target` on `monitor`.
pub fn snap_position(
    target: &WindowRect,
    win_width: i32,
    win_height: i32,
    monitor: &WindowRect,
    position: SnapPosition,
    gap: i32,
) -> (r: (i32, i32))
    requires
        snap_inputs_ok(*target, win_width as int, win_height as int, *monitor, position, gap as int),
    ensures
        r.0 == snap_target(*target, win_width as int, win_height as int, *monitor, position, gap as int).0,
        r.1 == snap_target(*target, win_width as int, win_height as int, *monitor, position, gap as int).1,
{
    let mw = win_width;
    let mh = win_height;
    let screen_left = monitor.x;
    let screen_top = monitor.y;
    let screen_right = monitor.x + monitor.width;
    let screen_bottom = monitor.y + monitor.height;
    let (mut nx, mut ny) = match position {
        SnapPosition::Right => (target.x + target.width + gap, target.y),
        SnapPosition::Left => (target.x - mw - gap, target.y),
        SnapPosition::Top => (target.x, target.y - mh - gap),
        SnapPosition::Bottom => (target.x, target.y + target.height + gap),
    };
    if position == SnapPosition::Right && nx + mw > screen_right {
        nx = target.x - mw - gap;
    }
    if position == SnapPosition::Left && nx < screen_left {
        nx = target.x + target.width + gap;
    }
    if position == SnapPosition::Bottom && ny + mh > screen_bottom {
        ny = target.y - mh - gap;
    }
    if position == SnapPosition::Top && ny < screen_top {
        ny = target.y + target.height + gap;
    }
    nx = clamp_i32(nx, screen_left, screen_right - mw);
    ny = clamp_i32(ny, screen_top, screen_bottom - mh);
    (nx, ny)
}

/// Whether `v` is a value of `i32`.
fn fits_i32_exec(v: i64) -> (r: bool)
    ensures
        r == fits_i32(v as int),
{
    -2147483648i64 <= v && v <= 2147483647i64
}

/// Whether `snap_position` can place the window without overflow and with
/// the window no larger than the monitor.
pub fn snap_inputs_valid(
    target: &WindowRect,
    win_width: i32,
    win_height: i32,
    monitor: &WindowRect,
    position: SnapPosition,
    gap: i32,
) -> (r: bool)
    ensures
        r == snap_inputs_ok(*target, win_width as int, win_height as int, *monitor, position, gap as int),
{
    let w = win_width as i64;
    let h = win_height as i64;
    let g = gap as i64;
    let tx = target.x as i64;
    let ty = target.y as i64;
    let tw = target.width as i64;
    let th = target.height as i64;
    let mx = monitor.x as i64;
    let my = monitor.y as i64;
    let right = mx + monitor.width as i64;
    let bottom = my + monitor.height as i64;
    let sides = match position {
        SnapPosition::Right => {
            fits_i32_exec(tx + tw) && fits_i32_exec(tx + tw + g) && fits_i32_exec(tx + tw + g + w)
                && (!(tx + tw + g + w > right) || (fits_i32_exec(tx - w) && fits_i32_exec(
                tx - w - g,
            )))
        },
        SnapPosition::Left => {
            fits_i32_exec(tx - w) && fits_i32_exec(tx - w - g) && (!(tx - w - g < mx) || (
            fits_i32_exec(tx + tw) && fits_i32_exec(tx + tw + g)))
        },
        SnapPosition::Top => {
            fits_i32_exec(ty - h) && fits_i32_exec(ty - h - g) && (!(ty - h - g < my) || (
            fits_i32_exec(ty + th) && fits_i32_exec(ty + th + g)))
        },
        SnapPosition::Bottom => {
            fits_i32_exec(ty + th) && fits_i32_exec(ty + th + g) && fits_i32_exec(ty + th + g + h)
                && (!(ty + th + g + h > bottom) || (fits_i32_exec(ty - h) && fits_i32_exec(
                ty - h - g,
            )))
        },
    };
    fits_i32_exec(right) && fits_i32_exec(bottom) && sides && fits_i32_exec(right - w)
        && fits_i32_exec(bottom - h) && mx <= right - w && my <= bottom - h
}

/// `snap_position` where it can place the window; `None` where the placement
/// would overflow an `i32` or the window is larger than the monitor.
pub fn snap_position_checked(
    target: &WindowRect,
    win_width: i32,
    win_height: i32,
    monitor: &WindowRect,
    position: SnapPosition,
    gap: i32,
) -> (r: Option<(i32, i32)>)
    ensures
        r is None <==> !snap_inputs_ok(
            *target,
            win_width as int,
            win_height as int,
            *monitor,
            position,
            gap as int,
        ),
        r matches Some(p) ==> p.0 == snap_target(
            *target,
            win_width as int,
            win_height as int,
            *monitor,
            position,
            gap as int,
        ).0 && p.1 == snap_target(
            *target,
            win_width as int,
            win_height as int,
            *monitor,
            position,
            gap as int,
        ).1,
{
    if snap_inputs_valid(target, win_width, win_height, monitor, position, gap) {
        Some(snap_position(target, win_width, win_height, monitor, position, gap))
    } else {
        None
    }
}

/// The spot beside the target on the configured side, `gap` away from it and
/// aligned with its left or top edge.
pub open spec fn preferred_spot(t: WindowRect, w: int, h: int, pos: SnapPosition, gap: int) -> (
    int,
    int,
) {
    match pos {
        SnapPosition::Right => (t.x + t.width + gap, t.y as int),
        SnapPosition::Left => (t.x - w - gap, t.y as int),
        SnapPosition::Top => (t.x as int, t.y - h - gap),
        SnapPosition::Bottom => (t.x as int, t.y + t.height + gap),
    }
}

/// The spot beside the target on the side opposite the configured one.
pub open spec fn opposite_spot(t: WindowRect, w: int, h: int, pos: SnapPosition, gap: int) -> (
    int,
    int,
) {
    match pos {
        SnapPosition::Right => (t.x - w - gap, t.y as int),
        SnapPosition::Left => (t.x + t.width + gap, t.y as int),
        SnapPosition::Top => (t.x as int, t.y + t.height + gap),
        SnapPosition::Bottom => (t.x as int, t.y - h - gap),
    }
}

/// The spot on the configured side reaches past the monitor's edge on that side.
pub open spec fn blocked_ahead(t: WindowRect, w: int, h: int, m: WindowRect, pos: SnapPosition, gap: int) -> bool {
    let p = preferred_spot(t, w, h, pos, gap);
    match pos {
        SnapPosition::Right => p.0 + w > m.x + m.width,
        SnapPosition::Left => p.0 < m.x,
        SnapPosition::Top => p.1 < m.y,
        SnapPosition::Bottom => p.1 + h > m.y + m.height,
    }
}

/// A window `w` by `h` with its corner at `p` lies wholly on monitor `m`.
pub open spec fn on_monitor(p: (int, int), w: int, h: int, m: WindowRect) -> bool {
    &&& m.x <= p.0
    &&& p.0 + w <= m.x + m.width
    &&& m.y <= p.1
    &&& p.1 + h <= m.y + m.height
}

/// The snapped window always lies wholly on the monitor.
pub proof fn lemma_snap_stays_on_monitor(
    t: WindowRect,
    w: int,
    h: int,
    m: WindowRect,
    pos: SnapPosition,
    gap: int,
)
    requires
        snap_inputs_ok(t, w, h, m, pos, gap),
    ensures
        on_monitor(snap_target(t, w, h, m, pos, gap), w, h, m),
{
}

/// Where the window fits beside the target on the configured side, it is
/// placed exactly there: `gap` away from that side of the target.
pub proof fn lemma_snap_beside_target_when_it_fits(
    t: WindowRect,
    w: int,
    h: int,
    m: WindowRect,
    pos: SnapPosition,
    gap: int,
)
    requires
        snap_inputs_ok(t, w, h, m, pos, gap),
        on_monitor(preferred_spot(t, w, h, pos, gap), w, h, m),
    ensures
        snap_target(t, w, h, m, pos, gap) == preferred_spot(t, w, h, pos, gap),
{
}

/// Where the configured side would push the window off the monitor and the
/// opposite side of the target leaves room, the window goes to the opposite
/// side.
pub proof fn lemma_snap_flips_when_blocked(
    t: WindowRect,
    w: int,
    h: int,
    m: WindowRect,
    pos: SnapPosition,
    gap: int,
)
    requires
        snap_inputs_ok(t, w, h, m, pos, gap),
        blocked_ahead(t, w, h, m, pos, gap),
        on_monitor(opposite_spot(t, w, h, pos, gap), w, h, m),
    ensures
        snap_target(t, w, h, m, pos, gap) == opposite_spot(t, w, h, pos, gap),
{
}

/// The window follows the target: when the target moves by `(dx, dy)` and the
/// window fits beside it on the configured side before and after, the window
/// moves by the same amount.
pub proof fn lemma_snap_follows_target(
    t: WindowRect,
    dx: i32,
    dy: i32,
    w: int,
    h: int,
    m: WindowRect,
    pos: SnapPosition,
    gap: int,
)
    requires
        fits_i32(t.x + dx),
        fits_i32(t.y + dy),
        snap_inputs_ok(t, w, h, m, pos, gap),
        snap_inputs_ok(WindowRect { x: (t.x + dx) as i32, y: (t.y + dy) as i32, ..t }, w, h, m, pos, gap),
        on_monitor(preferred_spot(t, w, h, pos, gap), w, h, m),
        on_monitor(
            preferred_spot(WindowRect { x: (t.x + dx) as i32, y: (t.y + dy) as i32, ..t }, w, h, pos, gap),
            w,
            h,
            m,
        ),
    ensures
        snap_target(WindowRect { x: (t.x + dx) as i32, y: (t.y + dy) as i32, ..t }, w, h, m, pos, gap).0
            == snap_target(t, w, h, m, pos, gap).0 + dx,
        snap_target(WindowRect { x: (t.x + dx) as i32, y: (t.y + dy) as i32, ..t }, w, h, m, pos, gap).1
            == snap_target(t, w, h, m, pos, gap).1 + dy,
{
}

/// With a non-empty keyword list in the configuration, every keyword in use
/// is non-empty and already trimmed; otherwise the single `target_keyword`
/// is in use.
pub proof fn lemma_keywords_clean(cfg: SnapConfig)
    ensures
        cfg.target_keywords matches Some(ks) && ks@.len() > 0 ==> forall|i: int|
            0 <= i < cfg.spec_keywords().len() ==> {
                &&& (#[trigger] cfg.spec_keywords()[i]).len() > 0
                &&& trim_seq(cfg.spec_keywords()[i]) == cfg.spec_keywords()[i]
            },
        !(cfg.target_keywords matches Some(ks) && ks@.len() > 0) ==> cfg.spec_keywords() == seq![
            cfg.target_keyword@,
        ],
{
    broadcast use Seq::lemma_filter_pred;

    if let Some(ks) = cfg.target_keywords {
        if ks@.len() > 0 {
            let all = trim_all(string_views(ks@));
            let kept = all.filter(non_empty());
            assert forall|i: int| 0 <= i < kept.len() implies {
                &&& (#[trigger] kept[i]).len() > 0
                &&& trim_seq(kept[i]) == kept[i]
            } by {
                assert(non_empty()(kept[i]));
                assert(kept.contains(kept[i]));
                all.lemma_filter_contains_rev(non_empty(), kept[i]);
                let j = choose|j: int| 0 <= j < all.len() && all[j] == kept[i];
                crate::text::lemma_trim_idempotent(string_views(ks@)[j]);
            }
        }
    }
}

/// Stopping reports a disabled snapping with no target and the default
/// position, whatever the state before.
pub proof fn lemma_idle_status()
    ensures
        SnapManagerView::idle().status() == (SnapStatusView {
            enabled: false,
            target_found: false,
            target_title: None,
            position: "Right"@,
        }),
{
}

/// Looking for the target leaves the report's `enabled` and `position` as
/// they were, and reports exactly what was seen.
pub proof fn lemma_observation_status(v: SnapManagerView, title: Option<String>)
    ensures
        v.observed(title).status().enabled == v.status().enabled,
        v.observed(title).status().position == v.status().position,
        v.observed(title).status().target_found == (title is Some),
        v.observed(title).status().target_title == opt_view(title),
{
}

/// A started manager reports the started configuration's position until it
/// is stopped.
pub proof fn lemma_started_status(p: SnapPosition)
    ensures
        SnapManagerView::started(p).status() == (SnapStatusView {
            enabled: true,
            target_found: false,
            target_title: None,
            position: position_name(p),
        }),
{
}

/// Every operation keeps the manager consistent: a target is reported found
/// exactly when its title is reported, and snapping runs exactly when a
/// configuration is in force.
pub proof fn lemma_operations_keep_consistency(
    v: SnapManagerView,
    p: SnapPosition,
    title: Option<String>,
)
    requires
        v.consistent(),
    ensures
        SnapManagerView::idle().consistent(),
        SnapManagerView::started(p).consistent(),
        v.observed(title).consistent(),
{
}

/// The distance between two integers.
pub open spec fn distance(a: int, b: int) -> int {
    if a < b {
        b - a
    } else {
        a - b
    }
}

/// `r` is the point of `[lo, hi]` nearest to `s`.
pub open spec fn nearest_in(r: int, s: int, lo: int, hi: int) -> bool {
    &&& lo <= r <= hi
    &&& forall|z: int| lo <= z <= hi ==> distance(r, s) <= #[trigger] distance(z, s)
}

/// Clamping picks the nearest point of the interval.
proof fn lemma_clamp_is_nearest(v: int, lo: int, hi: int)
    requires
        lo <= hi,
    ensures
        nearest_in(clamp_spec(v, lo, hi), v, lo, hi),
{
}

/// Along the edge it sticks to, the window keeps the target's alignment as
/// far as the monitor allows: beside or below/above the target, its left
/// (for Top, Bottom) or top (for Left, Right) edge is the point of the
/// monitor's range nearest to the target's own left or top edge.
pub proof fn lemma_snap_cross_axis_follows_target_edge(
    t: WindowRect,
    w: int,
    h: int,
    m: WindowRect,
    pos: SnapPosition,
    gap: int,
)
    requires
        snap_inputs_ok(t, w, h, m, pos, gap),
    ensures
        (pos == SnapPosition::Top || pos == SnapPosition::Bottom) ==> nearest_in(
            snap_target(t, w, h, m, pos, gap).0,
            t.x as int,
            m.x as int,
            m.x + m.width - w,
        ),
        (pos == SnapPosition::Left || pos == SnapPosition::Right) ==> nearest_in(
            snap_target(t, w, h, m, pos, gap).1,
            t.y as int,
            m.y as int,
            m.y + m.height - h,
        ),
{
    lemma_clamp_is_nearest(t.x as int, m.x as int, m.x + m.width - w);
    lemma_clamp_is_nearest(t.y as int, m.y as int, m.y + m.height - h);
}

/// Across the edge it sticks to, the window takes the spot `gap` beyond the
/// chosen side of the target, or, where that spot reaches past the monitor on
/// that side, the spot `gap` beyond the opposite side; either way moved to the
/// nearest place on the monitor.
pub proof fn lemma_snap_main_axis_is_side_spot_on_monitor(
    t: WindowRect,
    w: int,
    h: int,
    m: WindowRect,
    pos: SnapPosition,
    gap: int,
)
    requires
        snap_inputs_ok(t, w, h, m, pos, gap),
    ensures
        pos == SnapPosition::Right ==> nearest_in(
            snap_target(t, w, h, m, pos, gap).0,
            if t.x + t.width + gap + w <= m.x + m.width {
                t.x + t.width + gap
            } else {
                t.x - w - gap
            },
            m.x as int,
            m.x + m.width - w,
        ),
        pos == SnapPosition::Left ==> nearest_in(
            snap_target(t, w, h, m, pos, gap).0,
            if t.x - w - gap >= m.x {
                t.x - w - gap
            } else {
                t.x + t.width + gap
            },
            m.x as int,
            m.x + m.width - w,
        ),
        pos == SnapPosition::Bottom ==> nearest_in(
            snap_target(t, w, h, m, pos, gap).1,
            if t.y + t.height + gap + h <= m.y + m.height {
                t.y + t.height + gap
            } else {
                t.y - h - gap
            },
            m.y as int,
            m.y + m.height - h,
        ),
        pos == SnapPosition::Top ==> nearest_in(
            snap_target(t, w, h, m, pos, gap).1,
            if t.y - h - gap >= m.y {
                t.y - h - gap
            } else {
                t.y + t.height + gap
            },
            m.y as int,
            m.y + m.height - h,
        ),
{
    let lo_x = m.x as int;
    let hi_x = m.x + m.width - w;
    let lo_y = m.y as int;
    let hi_y = m.y + m.height - h;
    lemma_clamp_is_nearest(t.x + t.width + gap, lo_x, hi_x);
    lemma_clamp_is_nearest(t.x - w - gap, lo_x, hi_x);
    lemma_clamp_is_nearest(t.y + t.height + gap, lo_y, hi_y);
    lemma_clamp_is_nearest(t.y - h - gap, lo_y, hi_y);
}

/// Placement succeeds for every moderate geometry where the window is no
/// larger than the monitor: coordinates, sizes and gap within 2^28 in size.
pub proof fn lemma_snap_inputs_ok_when_moderate(
    t: WindowRect,
    w: int,
    h: int,
    m: WindowRect,
    pos: SnapPosition,
    gap: int,
)
    requires
        -0x1000_0000 <= t.x <= 0x1000_0000,
        -0x1000_0000 <= t.y <= 0x1000_0000,
        -0x1000_0000 <= t.width <= 0x1000_0000,
        -0x1000_0000 <= t.height <= 0x1000_0000,
        -0x1000_0000 <= m.x <= 0x1000_0000,
        -0x1000_0000 <= m.y <= 0x1000_0000,
        -0x1000_0000 <= gap <= 0x1000_0000,
        0 <= w <= m.width <= 0x1000_0000,
        0 <= h <= m.height <= 0x1000_0000,
    ensures
        snap_inputs_ok(t, w, h, m, pos, gap),
{
}

/// A window wider or taller than the monitor cannot be placed on it.
pub proof fn lemma_snap_refuses_oversized_window(
    t: WindowRect,
    w: int,
    h: int,
    m: WindowRect,
    pos: SnapPosition,
    gap: int,
)
    requires
        w > m.width || h > m.height,
    ensures
        !snap_inputs_ok(t, w, h, m, pos, gap),
{
}

/// The four positions are reported as "Left", "Right", "Top" and "Bottom".
pub proof fn lemma_position_names()
    ensures
        position_name(SnapPosition::Left) == "Left"@,
        position_name(SnapPosition::Right) == "Right"@,
        position_name(SnapPosition::Top) == "Top"@,
        position_name(SnapPosition::Bottom) == "Bottom"@,
{
}

/// An empty list yields no keywords.
pub proof fn lemma_trimmed_keywords_empty()
    ensures
        trimmed_keywords(Seq::<String>::empty()) == Seq::<Seq<char>>::empty(),
{
    reveal_with_fuel(Seq::<Seq<char>>::filter, 1);
    assert(trim_all(string_views(Seq::<String>::empty())) =~= Seq::<Seq<char>>::empty());
}

/// Appending an entry to the list appends its trimmed text to the keywords
/// exactly when that text is not empty, and changes nothing else.
pub proof fn lemma_trimmed_keywords_push(ks: Seq<String>, k: String)
    ensures
        trimmed_keywords(ks.push(k)) == (if trim_seq(k@).len() > 0 {
            trimmed_keywords(ks).push(trim_seq(k@))
        } else {
            trimmed_keywords(ks)
        }),
{
    let a = trim_all(string_views(ks.push(k)));
    assert(a.drop_last() =~= trim_all(string_views(ks)));
    assert(a.last() == trim_seq(k@));
    reveal_with_fuel(Seq::<Seq<char>>::filter, 1);
}

/// With a non-empty list, every entry whose trimmed text is not empty is
/// among the keywords, trimmed.
pub proof fn lemma_keywords_keep_every_nonblank_entry(cfg: SnapConfig, j: int)
    requires
        cfg.target_keywords is Some,
        cfg.target_keywords->0@.len() > 0,
        0 <= j < cfg.target_keywords->0@.len(),
        trim_seq(cfg.target_keywords->0@[j]@).len() > 0,
    ensures
        cfg.spec_keywords().contains(trim_seq(cfg.target_keywords->0@[j]@)),
{
    let ks = cfg.target_keywords->0@;
    let all = trim_all(string_views(ks));
    assert(all[j] == trim_seq(ks[j]@));
    assert(non_empty()(all[j]));
    all.lemma_filter_contains(non_empty(), j);
}

/// An unknown monitor is taken as a 1920 by 1080 screen at the origin.
pub proof fn lemma_default_monitor()
    ensures
        default_monitor().x == 0 && default_monitor().y == 0,
        default_monitor().width == 1920 && default_monitor().height == 1080,
{
}

/// A reported title is the text of the string that was seen, if any.
pub proof fn lemma_opt_view(s: String)
    ensures
        opt_view(Some(s)) == Some(s@),
        opt_view(None) == None::<Seq<char>>,
{
}

/// With a non-empty keyword list, the keywords in use are exactly that
/// list's trimmed, non-empty entries, in the list's order.
pub proof fn lemma_keywords_from_list(cfg: SnapConfig)
    requires
        cfg.target_keywords is Some,
        cfg.target_keywords->0@.len() > 0,
    ensures
        cfg.spec_keywords() == trimmed_keywords(cfg.target_keywords->0@),
{
}

/// The report gives whether snapping runs, what was last seen of the target,
/// and the name of the configured position, "Right" when none is in force.
pub proof fn lemma_status_fields(v: SnapManagerView)
    ensures
        v.status().enabled == v.running,
        v.status().target_found == v.target_found,
        v.status().target_title == v.target_title,
        v.position is None ==> v.status().position == "Right"@,
        v.position is Some ==> v.status().position == position_name(v.position->0),
{
}

} // verus!
