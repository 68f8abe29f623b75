//! Event dispatcher: the single per-frame orchestration point.  Each tick
//! it advances the frame clock, demotes the tracker's edge states, drains
//! the window system's raw events in arrival order, and routes each to the
//! input tracker, the application event handler and the UI overlay.  The
//! window system's push-style callbacks are replaced by an explicit
//! poll-then-drain loop over an ordered sequence of typed event records.
//!
//! The event model carries plain presses and releases only: a frontend
//! whose window system emits auto-repeat events drops them before handing
//! the queue in.  A repeated press of a held key would leave the tracker's
//! state untouched but would still be forwarded as a fresh press
//! notification, as every press is.

use vstd::prelude::*;

verus! {

use crate::clock::{scaled_delta, FrameClock, TIME_LIMIT};
use crate::input::{
    is_down, view_begin_tick, view_button_event, view_cursor_move, view_key_event, view_scroll,
    ButtonAction, InputState, InputView, KeyState, BUTTON_COUNT, BUTTON_LEFT, BUTTON_RIGHT,
    KEY_COUNT, KEY_ESCAPE, KEY_F11, SCROLL_STEP_LIMIT,
};

/// Largest number of raw events one tick accepts.
pub const EVENTS_LIMIT: usize = 1000000000;

/// A raw event drained from the window system's queue.
#[derive(Clone, Copy, Debug, PartialEq, Eq, Structural)]
pub enum RawEvent {
    Key(usize, ButtonAction),
    CursorMove(i64, i64),
    MouseButton(usize, ButtonAction),
    Scroll(i64, i64),
    FramebufferResize(u32, u32),
}

/// A discrete notification to the application event handler.
#[derive(Clone, Copy, Debug, PartialEq, Eq, Structural)]
pub enum AppNote {
    KeyPressed(usize),
    KeyReleased(usize),
    LmbPressed,
    LmbReleased,
    RmbPressed,
    RmbReleased,
    MouseMoved(i64, i64),
    ScrollChanged(i64, i64),
    WindowResized(u32, u32),
}

/// A notification forwarded to the UI overlay.
#[derive(Clone, Copy, Debug, PartialEq, Eq, Structural)]
pub enum UiNote {
    MouseMoved(i64, i64),
    MouseClick(usize, ButtonAction),
    Scroll(i64, i64),
}

/// One routed notification: who receives it and what it says.  Mouse
/// clicks reach the overlay first and then, for the left and right buttons,
/// the application; which of the two a click was meant for is an open
/// question left to the product, so both receive every click.
#[derive(Clone, Copy, Debug, PartialEq, Eq, Structural)]
pub enum Note {
    App(AppNote),
    Ui(UiNote),
}

/// Whether a raw event carries identifiers and deltas in range.
pub open spec fn event_ok(e: RawEvent) -> bool {
    match e {
        RawEvent::Key(k, _) => k < KEY_COUNT,
        RawEvent::MouseButton(b, _) => b < BUTTON_COUNT,
        RawEvent::Scroll(dx, dy) => -SCROLL_STEP_LIMIT <= dx <= SCROLL_STEP_LIMIT
            && -SCROLL_STEP_LIMIT <= dy <= SCROLL_STEP_LIMIT,
        _ => true,
    }
}

/// Whether a whole tick's worth of raw events is in range.
pub open spec fn events_ok(evs: Seq<RawEvent>) -> bool {
    &&& evs.len() <= EVENTS_LIMIT
    &&& forall|i: int| 0 <= i < evs.len() ==> #[trigger] event_ok(evs[i])
}

/// The notifications one raw event produces, in emission order.  A press of
/// the reserved shutdown key produces none: it raises the close flag
/// instead of being forwarded.
pub open spec fn notes_of(e: RawEvent) -> Seq<Note> {
    match e {
        RawEvent::Key(k, a) => if k == KEY_ESCAPE && a == ButtonAction::Press {
            seq![]
        } else if a == ButtonAction::Press {
            seq![Note::App(AppNote::KeyPressed(k))]
        } else {
            seq![Note::App(AppNote::KeyReleased(k))]
        },
        RawEvent::CursorMove(x, y) => seq![
            Note::App(AppNote::MouseMoved(x, y)),
            Note::Ui(UiNote::MouseMoved(x, y)),
        ],
        RawEvent::MouseButton(b, a) => {
            let ui = seq![Note::Ui(UiNote::MouseClick(b, a))];
            if b == BUTTON_LEFT {
                ui.push(
                    Note::App(
                        if a == ButtonAction::Press {
                            AppNote::LmbPressed
                        } else {
                            AppNote::LmbReleased
                        },
                    ),
                )
            } else if b == BUTTON_RIGHT {
                ui.push(
                    Note::App(
                        if a == ButtonAction::Press {
                            AppNote::RmbPressed
                        } else {
                            AppNote::RmbReleased
                        },
                    ),
                )
            } else {
                ui
            }
        },
        RawEvent::Scroll(dx, dy) => seq![
            Note::App(AppNote::ScrollChanged(dx, dy)),
            Note::Ui(UiNote::Scroll(dx, dy)),
        ],
        RawEvent::FramebufferResize(w, h) => seq![Note::App(AppNote::WindowResized(w, h))],
    }
}

/// All notifications a tick's events produce, in order: events are handled
/// in arrival order and never reordered or coalesced.
pub open spec fn route(evs: Seq<RawEvent>) -> Seq<Note>
    decreases evs.len(),
{
    if evs.len() == 0 {
        seq![]
    } else {
        route(evs.drop_last()) + notes_of(evs.last())
    }
}

/// What one raw event does to the input tracker.  The shutdown key's press
/// is intercepted before the tracker sees it; a resize does not touch the
/// tracker.
pub open spec fn input_step(v: InputView, e: RawEvent) -> InputView {
    match e {
        RawEvent::Key(k, a) => if k == KEY_ESCAPE && a == ButtonAction::Press {
            v
        } else {
            view_key_event(v, k as int, a)
        },
        RawEvent::CursorMove(x, y) => view_cursor_move(v, x as int, y as int),
        RawEvent::MouseButton(b, a) => view_button_event(v, b as int, a),
        RawEvent::Scroll(dx, dy) => view_scroll(v, dx as int, dy as int),
        RawEvent::FramebufferResize(_, _) => v,
    }
}

/// The tracker after a tick's events, folded in arrival order.
pub open spec fn input_after(v: InputView, evs: Seq<RawEvent>) -> InputView
    decreases evs.len(),
{
    if evs.len() == 0 {
        v
    } else {
        input_step(input_after(v, evs.drop_last()), evs.last())
    }
}

/// Whether some event is a press of the reserved shutdown key.
pub open spec fn any_close(evs: Seq<RawEvent>) -> bool
    decreases evs.len(),
{
    if evs.len() == 0 {
        false
    } else {
        any_close(evs.drop_last()) || evs.last() == RawEvent::Key(
            KEY_ESCAPE,
            ButtonAction::Press,
        )
    }
}

/// The framebuffer size after a tick's events.
pub open spec fn size_after(w: u32, h: u32, evs: Seq<RawEvent>) -> (u32, u32)
    decreases evs.len(),
{
    if evs.len() == 0 {
        (w, h)
    } else {
        match evs.last() {
            RawEvent::FramebufferResize(w2, h2) => (w2, h2),
            _ => size_after(w, h, evs.drop_last()),
        }
    }
}

/// The sum of the horizontal deltas of a tick's raw scroll events.
pub open spec fn scroll_sum_x(evs: Seq<RawEvent>) -> int
    decreases evs.len(),
{
    if evs.len() == 0 {
        0
    } else {
        scroll_sum_x(evs.drop_last()) + match evs.last() {
            RawEvent::Scroll(dx, _) => dx as int,
            _ => 0,
        }
    }
}

/// The sum of the vertical deltas of a tick's raw scroll events.
pub open spec fn scroll_sum_y(evs: Seq<RawEvent>) -> int
    decreases evs.len(),
{
    if evs.len() == 0 {
        0
    } else {
        scroll_sum_y(evs.drop_last()) + match evs.last() {
            RawEvent::Scroll(_, dy) => dy as int,
            _ => 0,
        }
    }
}

/// The per-frame orchestration point: owns the frame clock and the input
/// tracker, holds the tracked framebuffer size and the close-requested
/// flag, and leaves the window itself to the windowing collaborator.
pub struct EventLoop {
    pub clock: FrameClock,
    pub input: InputState,
    pub width: u32,
    pub height: u32,
    pub close_requested: bool,
}

impl EventLoop {
    /// The clock's and the tracker's invariants together.
    pub open spec fn wf(self) -> bool {
        &&& self.clock.wf()
        &&& self.input.wf()
    }

    /// A dispatcher for a freshly created window of the given framebuffer
    /// size; instants handed to `update` count from this moment.
    pub fn new(w: u32, h: u32) -> (r: EventLoop)
        ensures
            r.wf(),
            r.clock == (FrameClock { now: 0, dt: 0, time: 0, timescale: 1000 }),
            forall|i: int| 0 <= i < KEY_COUNT ==> r.input@.keys[i] == KeyState::Unpressed,
            forall|i: int| 0 <= i < BUTTON_COUNT ==> r.input@.buttons[i] == KeyState::Unpressed,
            r.input@.scroll_x == 0 && r.input@.scroll_y == 0,
            r.width == w,
            r.height == h,
            r.close_requested == false,
    {
        EventLoop {
            clock: FrameClock::new(0),
            input: InputState::new(),
            width: w,
            height: h,
            close_requested: false,
        }
    }

    /// The tracked framebuffer size.
    pub fn size(&self) -> (s: (u32, u32))
        ensures
            s.0 == self.width,
            s.1 == self.height,
    {
        (self.width, self.height)
    }

    /// Whether a key is currently held.
    pub fn is_key_down(&self, key: usize) -> (b: bool)
        requires
            self.wf(),
            key < KEY_COUNT,
        ensures
            b == is_down(self.input@.keys[key as int]),
    {
        self.input.key_down(key)
    }

    /// Whether a key is currently up.
    pub fn is_key_up(&self, key: usize) -> (b: bool)
        requires
            self.wf(),
            key < KEY_COUNT,
        ensures
            b == !is_down(self.input@.keys[key as int]),
    {
        !self.input.key_down(key)
    }

    /// The fullscreen decision: on the tick the toggle key was pressed the
    /// caller is told which window mode to switch to; performing the
    /// monitor switch is the windowing collaborator's side, and a missing
    /// monitor there degrades to a no-op.
    pub fn set_fullscreen(&self, fullscreen: &bool) -> (r: Option<bool>)
        requires
            self.wf(),
        ensures
            r == if self.input@.keys[KEY_F11 as int] == KeyState::JustPressed {
                Some(!*fullscreen)
            } else {
                None::<bool>
            },
    {
        if self.input.query_just_pressed(KEY_F11) {
            Some(!*fullscreen)
        } else {
            None
        }
    }

    /// One tick: advances the clock to `now`, demotes the tracker's edge
    /// states, restarts the scroll accumulator, then drains the given raw
    /// events in arrival order, updating the tracker and emitting the
    /// routed notifications.  A press of the shutdown key raises the close
    /// flag instead of being forwarded; a resize updates the tracked size.
    /// The buffer swap and the poll itself belong to the windowing
    /// collaborator, which hands the drained queue in.
    pub fn update(&mut self, now: u64, events: &Vec<RawEvent>) -> (out: Vec<Note>)
        requires
            old(self).wf(),
            old(self).clock.now <= now <= TIME_LIMIT,
            old(self).clock.time + scaled_delta(
                now - old(self).clock.now,
                old(self).clock.timescale as int,
            ) <= u64::MAX,
            events_ok(events@),
        ensures
            final(self).wf(),
            final(self).clock.dt == scaled_delta(
                now - old(self).clock.now,
                old(self).clock.timescale as int,
            ),
            final(self).clock.time == old(self).clock.time + final(self).clock.dt,
            final(self).clock.now == now,
            final(self).clock.timescale == old(self).clock.timescale,
            final(self).input@ == input_after(view_begin_tick(old(self).input@), events@),
            out@ == route(events@),
            final(self).close_requested == (old(self).close_requested || any_close(events@)),
            (final(self).width, final(self).height) == size_after(
                old(self).width,
                old(self).height,
                events@,
            ),
    {
        self.clock.tick(now);
        self.input.begin_tick();
        let ghost v0 = self.input@;
        let ghost c1 = self.clock;
        let mut out: Vec<Note> = Vec::new();
        let n = events.len();
        let mut i: usize = 0;
        while i < n
            invariant
                i <= n,
                n == events@.len(),
                events_ok(events@),
                self.clock == c1,
                self.input.wf(),
                v0 == view_begin_tick(old(self).input@),
                v0.scroll_x == 0 && v0.scroll_y == 0,
                self.input@ == input_after(v0, events@.take(i as int)),
                out@ == route(events@.take(i as int)),
                self.close_requested == (old(self).close_requested || any_close(
                    events@.take(i as int),
                )),
                (self.width, self.height) == size_after(
                    old(self).width,
                    old(self).height,
                    events@.take(i as int),
                ),
                -1048576 * (i as int) <= self.input@.scroll_x <= 1048576 * (i as int),
                -1048576 * (i as int) <= self.input@.scroll_y <= 1048576 * (i as int),
            decreases n - i,
        {
            let ev = events[i];
            proof {
                assert(event_ok(events@[i as int]));
            }
            match ev {
                RawEvent::Key(k, a) => {
                    let close = k == KEY_ESCAPE && matches!(a, ButtonAction::Press);
                    if close {
                        self.close_requested = true;
                    } else {
                        self.input.on_key_event(k, a);
                        match a {
                            ButtonAction::Press => out.push(Note::App(AppNote::KeyPressed(k))),
                            ButtonAction::Release => out.push(Note::App(AppNote::KeyReleased(k))),
                        }
                    }
                },
                RawEvent::CursorMove(x, y) => {
                    self.input.on_cursor_move(x, y);
                    out.push(Note::App(AppNote::MouseMoved(x, y)));
                    out.push(Note::Ui(UiNote::MouseMoved(x, y)));
                },
                RawEvent::MouseButton(b, a) => {
                    self.input.on_mouse_button_event(b, a);
                    out.push(Note::Ui(UiNote::MouseClick(b, a)));
                    if b == BUTTON_LEFT {
                        match a {
                            ButtonAction::Press => out.push(Note::App(AppNote::LmbPressed)),
                            ButtonAction::Release => out.push(Note::App(AppNote::LmbReleased)),
                        }
                    } else if b == BUTTON_RIGHT {
                        match a {
                            ButtonAction::Press => out.push(Note::App(AppNote::RmbPressed)),
                            ButtonAction::Release => out.push(Note::App(AppNote::RmbReleased)),
                        }
                    }
                },
                RawEvent::Scroll(dx, dy) => {
                    proof {
                        assert(SCROLL_STEP_LIMIT == 1048576);
                        assert(1048576 * ((i + 1) as int) == 1048576 * (i as int) + 1048576);
                        assert(1048576 * ((i + 1) as int) <= 1048576 * 1000000000);
                    }
                    self.input.on_scroll(dx, dy);
                    out.push(Note::App(AppNote::ScrollChanged(dx, dy)));
                    out.push(Note::Ui(UiNote::Scroll(dx, dy)));
                },
                RawEvent::FramebufferResize(w, h) => {
                    self.width = w;
                    self.height = h;
                    out.push(Note::App(AppNote::WindowResized(w, h)));
                },
            }
            proof {
                let pre = events@.take(i as int);
                let post = events@.take((i + 1) as int);
                assert(post.drop_last() =~= pre);
                assert(post.last() == events@[i as int]);
                assert(self.input@ =~= input_after(v0, post));
                assert(out@ =~= route(post));
            }
            i = i + 1;
        }
        proof {
            assert(events@.take(n as int) =~= events@);
        }
        out
    }
}

/// The horizontal scroll delta one notification reports to the application
/// handler; every other notification reports none.
pub open spec fn note_scroll_x(n: Note) -> int {
    match n {
        Note::App(AppNote::ScrollChanged(dx, _)) => dx as int,
        _ => 0,
    }
}

/// The vertical counterpart of `note_scroll_x`.
pub open spec fn note_scroll_y(n: Note) -> int {
    match n {
        Note::App(AppNote::ScrollChanged(_, dy)) => dy as int,
        _ => 0,
    }
}

/// Over a sequence of notifications, the sum of the scroll deltas reported
/// to the application handler.
pub open spec fn notes_scroll_x(ns: Seq<Note>) -> int
    decreases ns.len(),
{
    if ns.len() == 0 {
        0
    } else {
        notes_scroll_x(ns.drop_last()) + note_scroll_x(ns.last())
    }
}

/// The vertical counterpart of `notes_scroll_x`.
pub open spec fn notes_scroll_y(ns: Seq<Note>) -> int
    decreases ns.len(),
{
    if ns.len() == 0 {
        0
    } else {
        notes_scroll_y(ns.drop_last()) + note_scroll_y(ns.last())
    }
}

/// The scroll sums of a one-notification run.
proof fn lemma_notes_scroll_single(n: Note)
    ensures
        notes_scroll_x(seq![n]) == note_scroll_x(n),
        notes_scroll_y(seq![n]) == note_scroll_y(n),
{
    assert(seq![n].drop_last() =~= Seq::<Note>::empty());
    assert(seq![n].last() == n);
    assert(notes_scroll_x(Seq::<Note>::empty()) == 0);
    assert(notes_scroll_y(Seq::<Note>::empty()) == 0);
}

/// The scroll sums of a two-notification run.
proof fn lemma_notes_scroll_pair(n1: Note, n2: Note)
    ensures
        notes_scroll_x(seq![n1, n2]) == note_scroll_x(n1) + note_scroll_x(n2),
        notes_scroll_y(seq![n1, n2]) == note_scroll_y(n1) + note_scroll_y(n2),
{
    assert(seq![n1, n2].drop_last() =~= seq![n1]);
    assert(seq![n1, n2].last() == n2);
    lemma_notes_scroll_single(n1);
}

/// The scroll sums distribute over concatenation of notification runs.
proof fn lemma_notes_scroll_concat(a: Seq<Note>, b: Seq<Note>)
    ensures
        notes_scroll_x(a + b) == notes_scroll_x(a) + notes_scroll_x(b),
        notes_scroll_y(a + b) == notes_scroll_y(a) + notes_scroll_y(b),
    decreases b.len(),
{
    if b.len() == 0 {
        assert(a + b =~= a);
    } else {
        lemma_notes_scroll_concat(a, b.drop_last());
        assert((a + b).drop_last() =~= a + b.drop_last());
        assert((a + b).last() == b.last());
    }
}

/// Round trip of the scroll accumulation: in any tick, the total scroll
/// delta reported to the application handler equals the sum of the raw
/// scroll events the tick received; with `view_begin_tick` restarting the
/// tracker's accumulator at zero, both equal the tracker's value at the end
/// of the tick.
pub proof fn lemma_scroll_round_trip(evs: Seq<RawEvent>)
    ensures
        notes_scroll_x(route(evs)) == scroll_sum_x(evs),
        notes_scroll_y(route(evs)) == scroll_sum_y(evs),
    decreases evs.len(),
{
    if evs.len() > 0 {
        lemma_scroll_round_trip(evs.drop_last());
        lemma_notes_scroll_concat(route(evs.drop_last()), notes_of(evs.last()));
        let ns = notes_of(evs.last());
        match evs.last() {
            RawEvent::Scroll(dx, dy) => {
                assert(ns =~= seq![
                    Note::App(AppNote::ScrollChanged(dx, dy)),
                    Note::Ui(UiNote::Scroll(dx, dy)),
                ]);
                lemma_notes_scroll_pair(
                    Note::App(AppNote::ScrollChanged(dx, dy)),
                    Note::Ui(UiNote::Scroll(dx, dy)),
                );
            },
            RawEvent::Key(k, a) => {
                if !(k == KEY_ESCAPE && a == ButtonAction::Press) {
                    lemma_notes_scroll_single(ns.last());
                    assert(ns =~= seq![ns.last()]);
                }
            },
            RawEvent::CursorMove(x, y) => {
                assert(ns =~= seq![
                    Note::App(AppNote::MouseMoved(x, y)),
                    Note::Ui(UiNote::MouseMoved(x, y)),
                ]);
                lemma_notes_scroll_pair(
                    Note::App(AppNote::MouseMoved(x, y)),
                    Note::Ui(UiNote::MouseMoved(x, y)),
                );
            },
            RawEvent::MouseButton(b, a) => {
                if b == BUTTON_LEFT || b == BUTTON_RIGHT {
                    assert(ns =~= seq![Note::Ui(UiNote::MouseClick(b, a)), ns.last()]);
                    lemma_notes_scroll_pair(Note::Ui(UiNote::MouseClick(b, a)), ns.last());
                } else {
                    lemma_notes_scroll_single(Note::Ui(UiNote::MouseClick(b, a)));
                }
            },
            RawEvent::FramebufferResize(w, h) => {
                lemma_notes_scroll_single(Note::App(AppNote::WindowResized(w, h)));
            },
        }
    }
}

/// The tracker's accumulator after a tick equals the tick's raw scroll sum:
/// folding any event run onto a tracker adds exactly the run's scroll sum
/// to the accumulator, and `view_begin_tick` starts the tick at zero.
pub proof fn lemma_tracker_scroll(v: InputView, evs: Seq<RawEvent>)
    ensures
        input_after(v, evs).scroll_x == v.scroll_x + scroll_sum_x(evs),
        input_after(v, evs).scroll_y == v.scroll_y + scroll_sum_y(evs),
    decreases evs.len(),
{
    if evs.len() > 0 {
        lemma_tracker_scroll(v, evs.drop_last());
    }
}

} // verus!
