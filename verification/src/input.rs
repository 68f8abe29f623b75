//! Input state tracker: per-key and per-button state with edge triggering
//! (just-pressed / just-released valid for exactly one tick), the last seen
//! cursor position, and the scroll delta accumulated over the current tick.

use vstd::prelude::*;

verus! {

/// Number of tracked key slots; covers the window system's key codes.
pub const KEY_COUNT: usize = 512;

/// Number of tracked mouse-button slots.
pub const BUTTON_COUNT: usize = 16;

/// Bound on the magnitude of a single scroll event accepted by the tracker.
pub const SCROLL_STEP_LIMIT: i64 = 0x100000;

/// Bound on the scroll delta accumulated within one tick.
pub const SCROLL_ACC_LIMIT: i64 = 0x4000000000000;

/// Key codes of the keys this core gives a meaning to.
pub const KEY_SPACE: usize = 32;

pub const KEY_A: usize = 65;

pub const KEY_D: usize = 68;

pub const KEY_S: usize = 83;

pub const KEY_W: usize = 87;

pub const KEY_ESCAPE: usize = 256;

pub const KEY_F11: usize = 300;

pub const KEY_LEFT_SHIFT: usize = 340;

pub const KEY_LEFT_CONTROL: usize = 341;

pub const KEY_RIGHT_SHIFT: usize = 344;

/// The left mouse button, the only one beside the right one that the
/// application handler is told about.
pub const BUTTON_LEFT: usize = 1;

/// The right mouse button.
pub const BUTTON_RIGHT: usize = 2;

/// Steady or edge-triggered state of one key or button.
#[derive(Clone, Copy, Debug, PartialEq, Eq, Structural)]
pub enum KeyState {
    Unpressed,
    Pressed,
    JustPressed,
    JustReleased,
}

/// A press or release reported by the window system.
#[derive(Clone, Copy, Debug, PartialEq, Eq, Structural)]
pub enum ButtonAction {
    Press,
    Release,
}

/// Whether the key is held, steadily or since this tick.
pub open spec fn is_down(s: KeyState) -> bool {
    s == KeyState::Pressed || s == KeyState::JustPressed
}

/// Press transition: an auto-repeat press of a key already held is a no-op.
pub open spec fn press_state(s: KeyState) -> KeyState {
    if is_down(s) {
        s
    } else {
        KeyState::JustPressed
    }
}

/// Release transition: a release of a key not held is a no-op.
pub open spec fn release_state(s: KeyState) -> KeyState {
    if is_down(s) {
        KeyState::JustReleased
    } else {
        s
    }
}

/// The transition an action performs on one slot.
pub open spec fn apply_action(s: KeyState, a: ButtonAction) -> KeyState {
    match a {
        ButtonAction::Press => press_state(s),
        ButtonAction::Release => release_state(s),
    }
}

/// Start-of-tick demotion: edge states collapse to their steady form.
pub open spec fn demote_state(s: KeyState) -> KeyState {
    match s {
        KeyState::JustPressed => KeyState::Pressed,
        KeyState::JustReleased => KeyState::Unpressed,
        other => other,
    }
}

/// Mathematical image of the tracker.
#[verifier::ext_equal]
pub struct InputView {
    pub keys: Seq<KeyState>,
    pub buttons: Seq<KeyState>,
    pub cursor_x: int,
    pub cursor_y: int,
    pub scroll_x: int,
    pub scroll_y: int,
}

/// What `begin_tick` does to the whole tracker: every slot is demoted and
/// the scroll accumulator starts over.
pub open spec fn view_begin_tick(v: InputView) -> InputView {
    InputView {
        keys: v.keys.map_values(|s: KeyState| demote_state(s)),
        buttons: v.buttons.map_values(|s: KeyState| demote_state(s)),
        scroll_x: 0,
        scroll_y: 0,
        ..v
    }
}

/// What a key event does to the tracker.
pub open spec fn view_key_event(v: InputView, key: int, a: ButtonAction) -> InputView {
    InputView { keys: v.keys.update(key, apply_action(v.keys[key], a)), ..v }
}

/// What a mouse-button event does to the tracker.
pub open spec fn view_button_event(v: InputView, button: int, a: ButtonAction) -> InputView {
    InputView { buttons: v.buttons.update(button, apply_action(v.buttons[button], a)), ..v }
}

/// What a cursor move does to the tracker.
pub open spec fn view_cursor_move(v: InputView, x: int, y: int) -> InputView {
    InputView { cursor_x: x, cursor_y: y, ..v }
}

/// What a scroll event does to the tracker: the delta accumulates.
pub open spec fn view_scroll(v: InputView, dx: int, dy: int) -> InputView {
    InputView { scroll_x: v.scroll_x + dx, scroll_y: v.scroll_y + dy, ..v }
}

/// Current and previous-frame input state, updated once per raw event and
/// once per tick by the dispatcher, read-only everywhere else.
pub struct InputState {
    keys: Vec<KeyState>,
    buttons: Vec<KeyState>,
    cursor_x: i64,
    cursor_y: i64,
    scroll_x: i64,
    scroll_y: i64,
}

impl View for InputState {
    type V = InputView;

    closed spec fn view(&self) -> InputView {
        InputView {
            keys: self.keys@,
            buttons: self.buttons@,
            cursor_x: self.cursor_x as int,
            cursor_y: self.cursor_y as int,
            scroll_x: self.scroll_x as int,
            scroll_y: self.scroll_y as int,
        }
    }
}

impl InputState {
    /// Slot counts and scroll bounds every operation preserves.
    pub open spec fn wf(self) -> bool {
        &&& self@.keys.len() == KEY_COUNT
        &&& self@.buttons.len() == BUTTON_COUNT
        &&& -SCROLL_ACC_LIMIT <= self@.scroll_x <= SCROLL_ACC_LIMIT
        &&& -SCROLL_ACC_LIMIT <= self@.scroll_y <= SCROLL_ACC_LIMIT
    }

    /// A tracker with every slot unpressed, the cursor at the origin and no
    /// accumulated scroll.
    pub fn new() -> (r: InputState)
        ensures
            r.wf(),
            forall|i: int| 0 <= i < KEY_COUNT ==> r@.keys[i] == KeyState::Unpressed,
            forall|i: int| 0 <= i < BUTTON_COUNT ==> r@.buttons[i] == KeyState::Unpressed,
            r@.cursor_x == 0,
            r@.cursor_y == 0,
            r@.scroll_x == 0,
            r@.scroll_y == 0,
    {
        let mut keys: Vec<KeyState> = Vec::new();
        let mut i: usize = 0;
        while i < KEY_COUNT
            invariant
                i <= KEY_COUNT,
                keys@.len() == i,
                forall|j: int| 0 <= j < i ==> keys@[j] == KeyState::Unpressed,
            decreases KEY_COUNT - i,
        {
            keys.push(KeyState::Unpressed);
            i = i + 1;
        }
        let mut buttons: Vec<KeyState> = Vec::new();
        let mut b: usize = 0;
        while b < BUTTON_COUNT
            invariant
                b <= BUTTON_COUNT,
                buttons@.len() == b,
                forall|j: int| 0 <= j < b ==> buttons@[j] == KeyState::Unpressed,
            decreases BUTTON_COUNT - b,
        {
            buttons.push(KeyState::Unpressed);
            b = b + 1;
        }
        InputState { keys, buttons, cursor_x: 0, cursor_y: 0, scroll_x: 0, scroll_y: 0 }
    }

    /// Demotes every edge state left from the prior tick and restarts the
    /// scroll accumulator; called once per tick before events are drained.
    pub fn begin_tick(&mut self)
        requires
            old(self).wf(),
        ensures
            final(self).wf(),
            final(self)@ == view_begin_tick(old(self)@),
    {
        let n = self.keys.len();
        let mut i: usize = 0;
        while i < n
            invariant
                i <= n,
                n == KEY_COUNT,
                self.keys@.len() == KEY_COUNT,
                self.buttons@ == old(self)@.buttons,
                self.cursor_x == old(self).cursor_x,
                self.cursor_y == old(self).cursor_y,
                self.scroll_x == old(self).scroll_x,
                self.scroll_y == old(self).scroll_y,
                forall|j: int| 0 <= j < i ==> self.keys@[j] == demote_state(old(self)@.keys[j]),
                forall|j: int| i <= j < KEY_COUNT ==> self.keys@[j] == old(self)@.keys[j],
            decreases n - i,
        {
            let s = self.keys[i];
            self.keys[i] = demote(s);
            i = i + 1;
        }
        let m = self.buttons.len();
        let mut b: usize = 0;
        while b < m
            invariant
                b <= m,
                m == BUTTON_COUNT,
                self.buttons@.len() == BUTTON_COUNT,
                self.keys@.len() == KEY_COUNT,
                forall|j: int| 0 <= j < KEY_COUNT
                    ==> self.keys@[j] == demote_state(old(self)@.keys[j]),
                self.cursor_x == old(self).cursor_x,
                self.cursor_y == old(self).cursor_y,
                self.scroll_x == old(self).scroll_x,
                self.scroll_y == old(self).scroll_y,
                forall|j: int| 0 <= j < b
                    ==> self.buttons@[j] == demote_state(old(self)@.buttons[j]),
                forall|j: int| b <= j < BUTTON_COUNT ==> self.buttons@[j] == old(self)@.buttons[j],
            decreases m - b,
        {
            let s = self.buttons[b];
            self.buttons[b] = demote(s);
            b = b + 1;
        }
        self.scroll_x = 0;
        self.scroll_y = 0;
        proof {
            assert(self@.keys =~= old(self)@.keys.map_values(|s: KeyState| demote_state(s)));
            assert(self@.buttons =~= old(self)@.buttons.map_values(
                |s: KeyState| demote_state(s),
            ));
            assert(self@ =~= view_begin_tick(old(self)@));
        }
    }

    /// Applies a press or release to one key slot.
    pub fn on_key_event(&mut self, key: usize, action: ButtonAction)
        requires
            old(self).wf(),
            key < KEY_COUNT,
        ensures
            final(self).wf(),
            final(self)@ == view_key_event(old(self)@, key as int, action),
    {
        let s = self.keys[key];
        self.keys[key] = apply(s, action);
        proof {
            assert(self@ =~= view_key_event(old(self)@, key as int, action));
        }
    }

    /// Applies a press or release to one mouse-button slot.
    pub fn on_mouse_button_event(&mut self, button: usize, action: ButtonAction)
        requires
            old(self).wf(),
            button < BUTTON_COUNT,
        ensures
            final(self).wf(),
            final(self)@ == view_button_event(old(self)@, button as int, action),
    {
        let s = self.buttons[button];
        self.buttons[button] = apply(s, action);
        proof {
            assert(self@ =~= view_button_event(old(self)@, button as int, action));
        }
    }

    /// Records the last known cursor position.
    pub fn on_cursor_move(&mut self, x: i64, y: i64)
        requires
            old(self).wf(),
        ensures
            final(self).wf(),
            final(self)@ == view_cursor_move(old(self)@, x as int, y as int),
    {
        self.cursor_x = x;
        self.cursor_y = y;
        proof {
            assert(self@ =~= view_cursor_move(old(self)@, x as int, y as int));
        }
    }

    /// Accumulates a scroll delta for the current tick; the value is a
    /// one-shot delta, restarted by `begin_tick`, never a persistent level.
    pub fn on_scroll(&mut self, dx: i64, dy: i64)
        requires
            old(self).wf(),
            -SCROLL_ACC_LIMIT <= old(self)@.scroll_x + dx <= SCROLL_ACC_LIMIT,
            -SCROLL_ACC_LIMIT <= old(self)@.scroll_y + dy <= SCROLL_ACC_LIMIT,
        ensures
            final(self).wf(),
            final(self)@ == view_scroll(old(self)@, dx as int, dy as int),
    {
        self.scroll_x = self.scroll_x + dx;
        self.scroll_y = self.scroll_y + dy;
        proof {
            assert(self@ =~= view_scroll(old(self)@, dx as int, dy as int));
        }
    }

    /// Current state of one key; side-effect free.
    pub fn query_key(&self, key: usize) -> (s: KeyState)
        requires
            self.wf(),
            key < KEY_COUNT,
        ensures
            s == self@.keys[key as int],
    {
        self.keys[key]
    }

    /// Whether the key was pressed on the current tick; side-effect free.
    pub fn query_just_pressed(&self, key: usize) -> (b: bool)
        requires
            self.wf(),
            key < KEY_COUNT,
        ensures
            b == (self@.keys[key as int] == KeyState::JustPressed),
    {
        match self.keys[key] {
            KeyState::JustPressed => true,
            _ => false,
        }
    }

    /// Whether the key is held, steadily or since this tick.
    pub fn key_down(&self, key: usize) -> (b: bool)
        requires
            self.wf(),
            key < KEY_COUNT,
        ensures
            b == is_down(self@.keys[key as int]),
    {
        match self.keys[key] {
            KeyState::Pressed => true,
            KeyState::JustPressed => true,
            _ => false,
        }
    }

    /// Current state of one mouse button; side-effect free.
    pub fn query_button(&self, button: usize) -> (s: KeyState)
        requires
            self.wf(),
            button < BUTTON_COUNT,
        ensures
            s == self@.buttons[button as int],
    {
        self.buttons[button]
    }

    /// Last known cursor position.
    pub fn cursor(&self) -> (p: (i64, i64))
        ensures
            p.0 == self@.cursor_x,
            p.1 == self@.cursor_y,
    {
        (self.cursor_x, self.cursor_y)
    }

    /// Scroll delta accumulated since the current tick began.
    pub fn scroll(&self) -> (p: (i64, i64))
        ensures
            p.0 == self@.scroll_x,
            p.1 == self@.scroll_y,
    {
        (self.scroll_x, self.scroll_y)
    }
}

/// Executable form of `demote_state`.
fn demote(s: KeyState) -> (r: KeyState)
    ensures
        r == demote_state(s),
{
    match s {
        KeyState::JustPressed => KeyState::Pressed,
        KeyState::JustReleased => KeyState::Unpressed,
        other => other,
    }
}

/// Executable form of `apply_action`.
fn apply(s: KeyState, a: ButtonAction) -> (r: KeyState)
    ensures
        r == apply_action(s, a),
{
    let down = match s {
        KeyState::Pressed => true,
        KeyState::JustPressed => true,
        _ => false,
    };
    match a {
        ButtonAction::Press => if down {
            s
        } else {
            KeyState::JustPressed
        },
        ButtonAction::Release => if down {
            KeyState::JustReleased
        } else {
            s
        },
    }
}

/// One step of the per-key history: a press or release, or the tick boundary.
pub enum KeyEv {
    Act(ButtonAction),
    Tick,
}

/// The state of one key after a history of events and tick boundaries.
pub open spec fn run_key(s: KeyState, evs: Seq<KeyEv>) -> KeyState
    decreases evs.len(),
{
    if evs.len() == 0 {
        s
    } else {
        let prev = run_key(s, evs.drop_last());
        match evs.last() {
            KeyEv::Act(a) => apply_action(prev, a),
            KeyEv::Tick => demote_state(prev),
        }
    }
}

/// The edge cycle of a key: pressed from rest it reads just-pressed, after
/// exactly one tick boundary it reads pressed and keeps doing so, a release
/// then reads just-released, and one tick boundary later it is unpressed.
pub proof fn lemma_key_edge_cycle(s: KeyState)
    requires
        !is_down(s),
    ensures
        press_state(s) == KeyState::JustPressed,
        demote_state(press_state(s)) == KeyState::Pressed,
        demote_state(demote_state(press_state(s))) == KeyState::Pressed,
        release_state(demote_state(press_state(s))) == KeyState::JustReleased,
        demote_state(release_state(demote_state(press_state(s)))) == KeyState::Unpressed,
{
}

/// Edge states never survive a tick boundary: whatever the history, a run
/// that ends on a tick leaves the key in a steady state, so just-pressed and
/// just-released each hold for exactly one tick cycle.
pub proof fn lemma_edge_state_one_tick(s: KeyState, evs: Seq<KeyEv>)
    requires
        evs.len() > 0,
        evs.last() == KeyEv::Tick,
    ensures
        run_key(s, evs) != KeyState::JustPressed,
        run_key(s, evs) != KeyState::JustReleased,
{
}

} // verus!
