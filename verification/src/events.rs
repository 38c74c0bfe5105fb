//! What the clock does with the window's events: menu commands and left
//! clicks. Each handler takes the clock's settings and the event's data and
//! says what changes and what the window must do.

use vstd::prelude::*;
use crate::state::{ClockState, DisplayMode};

verus! {

/// The commands of the clock's menus.
#[derive(Clone, Copy, Debug, PartialEq, Eq, Structural)]
pub enum MenuCommand {
    Exit,
    ShowSeconds,
    AlwaysOnTop,
    ViewAnalog,
    ViewDigital,
}

/// The menu item identifiers: the toolkit's own for Exit, and the four after
/// the toolkit's highest reserved identifier for the clock's items.
#[derive(Clone, Copy, Debug, PartialEq, Eq)]
pub struct MenuIds {
    pub exit: i32,
    pub show_seconds: i32,
    pub always_on_top: i32,
    pub view_analog: i32,
    pub view_digital: i32,
}

impl MenuIds {
    /// The identifiers, from the toolkit's highest reserved identifier and its
    /// Exit identifier.
    pub fn new(id_highest: i32, id_exit: i32) -> (ids: MenuIds)
        requires
            id_highest <= i32::MAX - 4,
        ensures
            ids.exit == id_exit,
            ids.show_seconds == id_highest + 1,
            ids.always_on_top == id_highest + 2,
            ids.view_analog == id_highest + 3,
            ids.view_digital == id_highest + 4,
    {
        MenuIds {
            exit: id_exit,
            show_seconds: id_highest + 1,
            always_on_top: id_highest + 2,
            view_analog: id_highest + 3,
            view_digital: id_highest + 4,
        }
    }

    /// The command an identifier selects; Exit is tried first, then the
    /// clock's items in menu order.
    pub open spec fn command_spec(self, id: i32) -> Option<MenuCommand> {
        if id == self.exit {
            Some(MenuCommand::Exit)
        } else if id == self.show_seconds {
            Some(MenuCommand::ShowSeconds)
        } else if id == self.always_on_top {
            Some(MenuCommand::AlwaysOnTop)
        } else if id == self.view_analog {
            Some(MenuCommand::ViewAnalog)
        } else if id == self.view_digital {
            Some(MenuCommand::ViewDigital)
        } else {
            None
        }
    }

    /// The command that the menu item `id` stands for, if any.
    pub fn command(&self, id: i32) -> (c: Option<MenuCommand>)
        ensures
            c == self.command_spec(id),
    {
        if id == self.exit {
            Some(MenuCommand::Exit)
        } else if id == self.show_seconds {
            Some(MenuCommand::ShowSeconds)
        } else if id == self.always_on_top {
            Some(MenuCommand::AlwaysOnTop)
        } else if id == self.view_analog {
            Some(MenuCommand::ViewAnalog)
        } else if id == self.view_digital {
            Some(MenuCommand::ViewDigital)
        } else {
            None
        }
    }
}

/// Which check and radio items of the menus are ticked.
#[derive(Clone, Copy, Debug, PartialEq, Eq)]
pub struct MenuChecks {
    pub show_seconds: bool,
    pub always_on_top: bool,
    pub view_analog: bool,
    pub view_digital: bool,
}

/// The ticks the menus open with: seconds shown, not on top, analog face.
pub fn initial_menu_checks() -> (m: MenuChecks)
    ensures
        m == (MenuChecks { show_seconds: true, always_on_top: false, view_analog: true, view_digital: false }),
{
    MenuChecks { show_seconds: true, always_on_top: false, view_analog: true, view_digital: false }
}

/// What the window must do after a menu command.
#[derive(Clone, Copy, Debug, PartialEq, Eq, Structural)]
pub enum MenuEffect {
    /// Close the frame.
    Close,
    /// Repaint the clock.
    Refresh,
    /// Keep the frame above other windows, or stop doing so.
    SetStayOnTop(bool),
    /// Nothing.
    Nothing,
}

/// The settings after a menu command. `checked` is whether the command's
/// own item is ticked, where the frame has a menu bar to ask.
pub open spec fn menu_state_spec(s: ClockState, cmd: MenuCommand, checked: Option<bool>) -> ClockState {
    match cmd {
        MenuCommand::ShowSeconds => match checked {
            Some(c) => ClockState { show_seconds: c, ..s },
            None => s,
        },
        MenuCommand::ViewAnalog => ClockState { mode: DisplayMode::Analog, ..s },
        MenuCommand::ViewDigital => ClockState { mode: DisplayMode::Digital, ..s },
        _ => s,
    }
}

/// What the window does after a menu command.
pub open spec fn menu_effect_spec(cmd: MenuCommand, checked: Option<bool>) -> MenuEffect {
    match cmd {
        MenuCommand::Exit => MenuEffect::Close,
        MenuCommand::AlwaysOnTop => match checked {
            Some(c) => MenuEffect::SetStayOnTop(c),
            None => MenuEffect::Nothing,
        },
        _ => MenuEffect::Refresh,
    }
}

/// Carries out a menu command on the settings: Exit closes the frame;
/// Show seconds takes its item's tick and repaints; Always on top follows
/// its item's tick; the View items switch the face and repaint.
pub fn on_menu(state: &mut ClockState, cmd: MenuCommand, checked: Option<bool>) -> (e: MenuEffect)
    ensures
        *final(state) == menu_state_spec(*old(state), cmd, checked),
        e == menu_effect_spec(cmd, checked),
{
    match cmd {
        MenuCommand::Exit => MenuEffect::Close,
        MenuCommand::ShowSeconds => {
            if let Some(c) = checked {
                state.show_seconds = c;
            }
            MenuEffect::Refresh
        },
        MenuCommand::AlwaysOnTop => match checked {
            Some(c) => MenuEffect::SetStayOnTop(c),
            None => MenuEffect::Nothing,
        },
        MenuCommand::ViewAnalog => {
            state.mode = DisplayMode::Analog;
            MenuEffect::Refresh
        },
        MenuCommand::ViewDigital => {
            state.mode = DisplayMode::Digital;
            MenuEffect::Refresh
        },
    }
}

/// The longest time between the two clicks of a double click: 450 ms.
pub const DOUBLE_CLICK_THRESHOLD_NS: u64 = 450_000_000;
/// The farthest the second click of a double click may land from the first,
/// along either axis, in pixels.
pub const DOUBLE_CLICK_MAX_DISTANCE: i32 = 6;
/// The coordinate recorded for a click whose position is unknown.
pub const UNKNOWN_POSITION: i32 = -9999;

/// A left click: when (nanoseconds on a monotonic clock) and where.
#[derive(Clone, Copy, Debug, PartialEq, Eq)]
pub struct Click {
    pub at_ns: u64,
    pub x: i32,
    pub y: i32,
}

/// The click that may start a double click.
#[derive(Clone, Copy, Debug, PartialEq, Eq)]
pub struct ClickTracker {
    pub last: Option<Click>,
}

impl ClickTracker {
    /// A tracker that remembers no click.
    pub fn new() -> (t: ClickTracker)
        ensures
            t.last is None,
    {
        ClickTracker { last: None }
    }
}

/// Where a click counts as being: its position, or (-9999, -9999) when the
/// event gives none.
pub open spec fn click_point(pos: Option<(i32, i32)>) -> (i32, i32) {
    match pos {
        Some(p) => p,
        None => (-9999i32, -9999i32),
    }
}

/// `b - a`, or zero where `b` comes before `a`.
pub open spec fn elapsed(a: u64, b: u64) -> int {
    if b >= a { b - a } else { 0 }
}

pub open spec fn abs_int(v: int) -> int {
    if v >= 0 { v } else { -v }
}

/// Whether a click at `now_ns`, at (`x`, `y`), completes a double click
/// begun by `prev`: at most 450 ms later and at most 6 pixels away along
/// each axis.
pub open spec fn completes_double_click(prev: Click, now_ns: u64, x: i32, y: i32) -> bool {
    &&& elapsed(prev.at_ns, now_ns) <= 450_000_000
    &&& abs_int(x - prev.x) <= 6
    &&& abs_int(y - prev.y) <= 6
}

/// Whether the click at `now_ns` and `pos` is the second click of a double
/// click, given what the tracker remembers.
pub open spec fn is_double_click(t: ClickTracker, now_ns: u64, pos: Option<(i32, i32)>) -> bool {
    match t.last {
        Some(prev) => completes_double_click(prev, now_ns, click_point(pos).0, click_point(pos).1),
        None => false,
    }
}

/// Handles a left click on the clock. A double click switches the title bar
/// (hidden becomes shown and shown becomes hidden), forgets the clicks, and
/// returns whether the title bar is now to be visible. Any other click is
/// remembered as the possible start of a double click, and `None` returned.
pub fn on_left_down(
    state: &mut ClockState,
    tracker: &mut ClickTracker,
    now_ns: u64,
    pos: Option<(i32, i32)>,
) -> (title_bar_visible: Option<bool>)
    ensures
        is_double_click(*old(tracker), now_ns, pos) ==> {
            &&& *final(state) == (ClockState { title_bar_hidden: !old(state).title_bar_hidden, ..*old(state) })
            &&& final(tracker).last is None
            &&& title_bar_visible == Some(!final(state).title_bar_hidden)
        },
        !is_double_click(*old(tracker), now_ns, pos) ==> {
            &&& *final(state) == *old(state)
            &&& final(tracker).last == Some(Click { at_ns: now_ns, x: click_point(pos).0, y: click_point(pos).1 })
            &&& title_bar_visible is None
        },
{
    let (x, y) = match pos {
        Some(p) => p,
        None => (UNKNOWN_POSITION, UNKNOWN_POSITION),
    };
    if let Some(prev) = tracker.last {
        let waited: u64 = if now_ns >= prev.at_ns { now_ns - prev.at_ns } else { 0 };
        let dx: i64 = x as i64 - prev.x as i64;
        let dy: i64 = y as i64 - prev.y as i64;
        let max_d = DOUBLE_CLICK_MAX_DISTANCE as i64;
        let in_time = waited <= DOUBLE_CLICK_THRESHOLD_NS;
        let near = -max_d <= dx && dx <= max_d && -max_d <= dy && dy <= max_d;
        if in_time && near {
            state.title_bar_hidden = !state.title_bar_hidden;
            tracker.last = None;
            return Some(!state.title_bar_hidden);
        }
    }
    tracker.last = Some(Click { at_ns: now_ns, x, y });
    None
}


/// Each of the clock's menu items selects its own command, as long as the
/// toolkit's Exit identifier is not one of the four after its highest
/// reserved one.
pub proof fn lemma_ids_select_their_commands(id_highest: i32, id_exit: i32, ids: MenuIds)
    requires
        id_highest <= i32::MAX - 4,
        ids == (MenuIds {
            exit: id_exit,
            show_seconds: (id_highest + 1) as i32,
            always_on_top: (id_highest + 2) as i32,
            view_analog: (id_highest + 3) as i32,
            view_digital: (id_highest + 4) as i32,
        }),
        !(id_highest < id_exit <= id_highest + 4),
    ensures
        ids.command_spec(ids.exit) == Some(MenuCommand::Exit),
        ids.command_spec(ids.show_seconds) == Some(MenuCommand::ShowSeconds),
        ids.command_spec(ids.always_on_top) == Some(MenuCommand::AlwaysOnTop),
        ids.command_spec(ids.view_analog) == Some(MenuCommand::ViewAnalog),
        ids.command_spec(ids.view_digital) == Some(MenuCommand::ViewDigital),
{
}

/// Choosing the same menu command twice, with its item ticked the same way,
/// does no more than choosing it once; and no menu command touches the title
/// bar.
pub proof fn lemma_menu_idempotent(s: ClockState, cmd: MenuCommand, checked: Option<bool>)
    ensures
        menu_state_spec(menu_state_spec(s, cmd, checked), cmd, checked) == menu_state_spec(s, cmd, checked),
        menu_state_spec(s, cmd, checked).title_bar_hidden == s.title_bar_hidden,
{
}

/// The View items decide the face whatever it was, and Exit and Always on
/// top leave the settings as they were.
pub proof fn lemma_view_selects_face(s: ClockState, checked: Option<bool>)
    ensures
        menu_state_spec(s, MenuCommand::ViewAnalog, checked).mode == DisplayMode::Analog,
        menu_state_spec(s, MenuCommand::ViewDigital, checked).mode == DisplayMode::Digital,
        menu_state_spec(s, MenuCommand::Exit, checked) == s,
        menu_state_spec(s, MenuCommand::AlwaysOnTop, checked) == s,
{
}

/// The settings and tracker after a left click, as `on_left_down` leaves
/// them.
pub open spec fn after_click(s: ClockState, t: ClickTracker, now_ns: u64, pos: Option<(i32, i32)>) -> (ClockState, ClickTracker) {
    if is_double_click(t, now_ns, pos) {
        (ClockState { title_bar_hidden: !s.title_bar_hidden, ..s }, ClickTracker { last: None })
    } else {
        (s, ClickTracker { last: Some(Click { at_ns: now_ns, x: click_point(pos).0, y: click_point(pos).1 }) })
    }
}

/// A first click never completes a double click, and neither does the click
/// right after a double click: the clicks that made it are forgotten.
pub proof fn lemma_double_click_needs_fresh_pair(s: ClockState, now_ns: u64, pos: Option<(i32, i32)>)
    ensures
        !is_double_click(ClickTracker { last: None }, now_ns, pos),
        after_click(s, ClickTracker { last: None }, now_ns, pos).0 == s,
{
}

/// Two quick clicks on the same spot switch the title bar; two more switch it
/// back: the settings end as they began.
pub proof fn lemma_two_double_clicks_restore(s: ClockState, t0: u64, x: i32, y: i32)
    requires
        t0 <= u64::MAX - 3,
    ensures
        ({
            let p = Some((x, y));
            let (s1, k1) = after_click(s, ClickTracker { last: None }, t0, p);
            let (s2, k2) = after_click(s1, k1, (t0 + 1) as u64, p);
            let (s3, k3) = after_click(s2, k2, (t0 + 2) as u64, p);
            let (s4, k4) = after_click(s3, k3, (t0 + 3) as u64, p);
            &&& s2.title_bar_hidden == !s.title_bar_hidden
            &&& s4 == s
            &&& k4.last is None
        }),
{
}

/// A click that comes more than 450 ms after the remembered one, or lands
/// more than 6 pixels away from it along either axis, starts a new pair.
pub proof fn lemma_slow_or_far_click_starts_over(prev: Click, now_ns: u64, x: i32, y: i32)
    requires
        (now_ns >= prev.at_ns && now_ns - prev.at_ns > 450_000_000) || x - prev.x > 6 || x - prev.x < -6
            || y - prev.y > 6 || y - prev.y < -6,
    ensures
        !is_double_click(ClickTracker { last: Some(prev) }, now_ns, Some((x, y))),
{
}

/// What each menu command does, whatever its item's tick: Exit closes the
/// frame and changes no setting; Show seconds repaints and, where the tick is
/// known, makes the seconds shown exactly when it is ticked; Always on top
/// asks for the window to stay on top exactly when ticked and changes no
/// setting; the View items repaint with the chosen face and keep every other
/// setting.
pub proof fn lemma_menu_commands_do_their_job(s: ClockState, checked: Option<bool>)
    ensures
        menu_effect_spec(MenuCommand::Exit, checked) == MenuEffect::Close,
        menu_state_spec(s, MenuCommand::Exit, checked) == s,
        menu_effect_spec(MenuCommand::ShowSeconds, checked) == MenuEffect::Refresh,
        menu_state_spec(s, MenuCommand::ShowSeconds, checked).mode == s.mode,
        menu_state_spec(s, MenuCommand::ShowSeconds, checked).title_bar_hidden == s.title_bar_hidden,
        checked == Some(true) ==> menu_state_spec(s, MenuCommand::ShowSeconds, checked).show_seconds,
        checked == Some(false) ==> !menu_state_spec(s, MenuCommand::ShowSeconds, checked).show_seconds,
        checked is None ==> menu_state_spec(s, MenuCommand::ShowSeconds, checked) == s,
        checked == Some(true) ==> menu_effect_spec(MenuCommand::AlwaysOnTop, checked) == MenuEffect::SetStayOnTop(true),
        checked == Some(false) ==> menu_effect_spec(MenuCommand::AlwaysOnTop, checked) == MenuEffect::SetStayOnTop(false),
        checked is None ==> menu_effect_spec(MenuCommand::AlwaysOnTop, checked) == MenuEffect::Nothing,
        menu_state_spec(s, MenuCommand::AlwaysOnTop, checked) == s,
        menu_effect_spec(MenuCommand::ViewAnalog, checked) == MenuEffect::Refresh,
        menu_effect_spec(MenuCommand::ViewDigital, checked) == MenuEffect::Refresh,
        menu_state_spec(s, MenuCommand::ViewAnalog, checked) == (ClockState {
            show_seconds: s.show_seconds,
            mode: DisplayMode::Analog,
            title_bar_hidden: s.title_bar_hidden,
        }),
        menu_state_spec(s, MenuCommand::ViewDigital, checked) == (ClockState {
            show_seconds: s.show_seconds,
            mode: DisplayMode::Digital,
            title_bar_hidden: s.title_bar_hidden,
        }),
{
}

/// A click at most 450 ms after the remembered one (or stamped before it),
/// and at most 6 pixels from it along each axis, in any direction, completes
/// a double click; together with `lemma_slow_or_far_click_starts_over` this
/// says exactly which clicks do.
pub proof fn lemma_quick_near_click_is_double(prev: Click, now_ns: u64, x: i32, y: i32)
    requires
        now_ns < prev.at_ns || now_ns - prev.at_ns <= 450_000_000,
        -6 <= x - prev.x <= 6,
        -6 <= y - prev.y <= 6,
    ensures
        is_double_click(ClickTracker { last: Some(prev) }, now_ns, Some((x, y))),
{
}

/// A click without a position counts at (-9999, -9999); one with a position
/// counts where it is.
pub proof fn lemma_click_point(pos: Option<(i32, i32)>)
    ensures
        pos is None ==> click_point(pos) == (-9999i32, -9999i32),
        pos is Some ==> click_point(pos) == pos.unwrap(),
{
}

} // verus!
