//! The window's loop state and the policy that drives one pass of the loop.

use vstd::prelude::*;
use crate::events::{Action, AppUnits, HwEvent, NativeButton, NativeEvent};
use crate::events::{decode_mouse, spec_decode_mouse};

verus! {

/// The backend-independent state of a window while its loop runs: the live
/// hardware size, whether a redraw is owed, whether quit was requested, and
/// the unit mode the window was built with.
#[derive(Debug, Clone, Copy, PartialEq, Eq, Structural)]
pub struct WindowState {
    /// Live width of the native window, in hardware pixels.
    pub hw_width: i32,
    /// Live height of the native window, in hardware pixels.
    pub hw_height: i32,
    /// A render pass is owed on the next loop cycle.
    pub expose_requested: bool,
    /// A native quit notification was seen; the loop must stop.
    pub quit_requested: bool,
    /// Coordinate space the window reports in; fixed once the window is built.
    pub units: AppUnits,
}

/// How a native notification changes the window's state: quit sets the quit
/// flag, expose and restore mark a redraw owed, a resize stores the new
/// hardware size and marks a redraw owed, and every other notification leaves
/// the state unchanged. The unit mode is never changed.
pub open spec fn next_state(s: WindowState, e: NativeEvent) -> WindowState {
    match e {
        NativeEvent::Quit => WindowState { quit_requested: true, ..s },
        NativeEvent::Exposed => WindowState { expose_requested: true, ..s },
        NativeEvent::Restored => WindowState { expose_requested: true, ..s },
        NativeEvent::Resized { width, height } => WindowState {
            hw_width: width,
            hw_height: height,
            expose_requested: true,
            ..s
        },
        _ => s,
    }
}

/// The actions a native notification demands, in order. A resize repoints the
/// viewport, reports the new size to the callback, and then runs one render
/// pass inline (some platforms fail to repaint after a resize without it).
/// Pointer events dispatch the classified event; quit and every ignored
/// notification demand nothing.
pub open spec fn event_actions(e: NativeEvent) -> Seq<Action> {
    match e {
        NativeEvent::Resized { width, height } => seq![
            Action::SetViewport { width, height },
            Action::Dispatch(HwEvent::Resize { width, height }),
            Action::Render,
        ],
        NativeEvent::PointerDown { device, button, x, y } => seq![
            Action::Dispatch(HwEvent::MouseDown {
                x,
                y,
                kind: spec_decode_mouse(device, button).0,
                button: spec_decode_mouse(device, button).1,
            }),
        ],
        NativeEvent::PointerUp { device, button, x, y } => seq![
            Action::Dispatch(HwEvent::MouseUp {
                x,
                y,
                kind: spec_decode_mouse(device, button).0,
                button: spec_decode_mouse(device, button).1,
            }),
        ],
        NativeEvent::PointerMove { device, x, y } => seq![
            Action::Dispatch(HwEvent::MouseMove {
                x,
                y,
                kind: spec_decode_mouse(device, NativeButton::Unknown).0,
            }),
        ],
        _ => seq![],
    }
}

/// What the loop does before its first cycle: it announces the window to the
/// callback, once.
pub open spec fn start_actions() -> Seq<Action> {
    seq![Action::Dispatch(HwEvent::Show)]
}

impl WindowState {
    /// The hardware size is never negative.
    pub open spec fn wf(self) -> bool {
        0 <= self.hw_width && 0 <= self.hw_height
    }

    /// Seed the state from the actual native window size, with no redraw owed
    /// and no quit requested yet.
    pub fn new(hw_width: i32, hw_height: i32, units: AppUnits) -> (r: WindowState)
        requires
            0 <= hw_width,
            0 <= hw_height,
        ensures
            r == (WindowState {
                hw_width,
                hw_height,
                expose_requested: false,
                quit_requested: false,
                units,
            }),
            r.wf(),
    {
        WindowState { hw_width, hw_height, expose_requested: false, quit_requested: false, units }
    }

    /// Request a render pass on a following loop cycle.
    pub fn post_redisplay(&mut self)
        ensures
            *final(self) == (WindowState { expose_requested: true, ..*old(self) }),
    {
        self.expose_requested = true;
    }

    /// The window's live size, in hardware pixels.
    pub fn hw_size(&self) -> (r: (i32, i32))
        ensures
            r == (self.hw_width, self.hw_height),
    {
        (self.hw_width, self.hw_height)
    }

    /// The unit mode the window was built with.
    pub fn units(&self) -> (r: AppUnits)
        ensures
            r == self.units,
    {
        self.units
    }

    /// Apply one native notification: move to the next state and hand back
    /// the actions the loop must now take, in order.
    pub fn handle_event(&mut self, e: &NativeEvent) -> (r: Vec<Action>)
        requires
            old(self).wf(),
            e.wf(),
        ensures
            *final(self) == next_state(*old(self), *e),
            final(self).wf(),
            r@ == event_actions(*e),
    {
        let mut actions: Vec<Action> = Vec::new();
        match *e {
            NativeEvent::Quit => {
                self.quit_requested = true;
            },
            NativeEvent::Exposed => {
                self.expose_requested = true;
            },
            NativeEvent::Restored => {
                self.expose_requested = true;
            },
            NativeEvent::Resized { width, height } => {
                self.hw_width = width;
                self.hw_height = height;
                self.expose_requested = true;
                actions.push(Action::SetViewport { width, height });
                actions.push(Action::Dispatch(HwEvent::Resize { width, height }));
                actions.push(Action::Render);
            },
            NativeEvent::PointerDown { device, button, x, y } => {
                let (kind, button) = decode_mouse(device, button);
                actions.push(Action::Dispatch(HwEvent::MouseDown { x, y, kind, button }));
            },
            NativeEvent::PointerUp { device, button, x, y } => {
                let (kind, button) = decode_mouse(device, button);
                actions.push(Action::Dispatch(HwEvent::MouseUp { x, y, kind, button }));
            },
            NativeEvent::PointerMove { device, x, y } => {
                let (kind, _) = decode_mouse(device, NativeButton::Unknown);
                actions.push(Action::Dispatch(HwEvent::MouseMove { x, y, kind }));
            },
            NativeEvent::Other => {},
        }
        proof {
            assert(actions@ =~= event_actions(*e));
        }
        actions
    }

    /// What the loop does before its first cycle: mark a redraw owed and hand
    /// back the single action that announces the window to the callback.
    pub fn begin(&mut self) -> (r: Vec<Action>)
        ensures
            *final(self) == (WindowState { expose_requested: true, ..*old(self) }),
            r@ == start_actions(),
    {
        self.expose_requested = true;
        let mut actions: Vec<Action> = Vec::new();
        actions.push(Action::Dispatch(HwEvent::Show));
        proof {
            assert(actions@ =~= start_actions());
        }
        actions
    }

    /// Whether the next event fetch must poll without blocking: never block
    /// while a render is owed, so the owed frame is not delayed.
    pub fn poll_events(&self) -> (r: bool)
        ensures
            r == self.expose_requested,
    {
        self.expose_requested
    }

    /// Whether the loop should run another cycle: it stops exactly when quit
    /// was requested.
    pub fn should_continue(&self) -> (r: bool)
        ensures
            r == !self.quit_requested,
    {
        !self.quit_requested
    }

    /// After the event queue is drained: whether a render pass runs now. The
    /// owed flag is consumed, so one request yields one pass.
    pub fn take_render(&mut self) -> (r: bool)
        ensures
            r == old(self).expose_requested,
            *final(self) == (WindowState { expose_requested: false, ..*old(self) }),
    {
        let r = self.expose_requested;
        self.expose_requested = false;
        r
    }
}

/// A native quit notification sets quit-requested, stops the loop, and
/// demands no action at all: the callback is never invoked for it.
pub proof fn lemma_quit_terminates(s: WindowState, e: NativeEvent)
    requires
        e is Quit,
    ensures
        next_state(s, e).quit_requested,
        event_actions(e).len() == 0,
{
}

/// Only the loop's start step announces the window: it dispatches the show
/// event exactly once, before any render, and no native notification ever
/// dispatches it again.
pub proof fn lemma_show_emitted_once(e: NativeEvent)
    ensures
        start_actions().len() == 1,
        start_actions()[0] == Action::Dispatch(HwEvent::Show),
        forall|i: int|
            0 <= i < event_actions(e).len() ==> event_actions(e)[i] != Action::Dispatch(
                HwEvent::Show,
            ),
{
}

/// A resize notification stores the delivered size as the live hardware size,
/// dispatches a resize event carrying that same size, and leaves a redraw
/// owed afterwards.
pub proof fn lemma_resize_tracks_native_size(s: WindowState, width: i32, height: i32)
    ensures
        next_state(s, NativeEvent::Resized { width, height }).hw_width == width,
        next_state(s, NativeEvent::Resized { width, height }).hw_height == height,
        next_state(s, NativeEvent::Resized { width, height }).expose_requested,
        event_actions(NativeEvent::Resized { width, height }).contains(
            Action::Dispatch(HwEvent::Resize { width, height }),
        ),
{
    assert(event_actions(NativeEvent::Resized { width, height })[1] == Action::Dispatch(
        HwEvent::Resize { width, height },
    ));
}

/// No native notification ever changes the unit mode: it is fixed when the
/// window is built.
pub proof fn lemma_units_never_change(s: WindowState, e: NativeEvent)
    ensures
        next_state(s, e).units == s.units,
{
}

/// The quit flag is never cleared: once quit is requested, every later
/// notification leaves it requested, so the loop's stop is final.
pub proof fn lemma_quit_is_sticky(s: WindowState, e: NativeEvent)
    requires
        s.quit_requested,
    ensures
        next_state(s, e).quit_requested,
{
}

/// The state reached from `s` after a whole stream of native notifications.
/// The loop's own redraw bookkeeping (marking a render owed at the start,
/// consuming the owed flag, redisplay requests from the callback) touches the
/// redraw flag alone, so for the quit flag, the unit mode and the hardware
/// size this is exact for any run of the loop.
pub open spec fn state_after(s: WindowState, es: Seq<NativeEvent>) -> WindowState
    decreases es.len(),
{
    if es.len() == 0 {
        s
    } else {
        next_state(state_after(s, es.drop_last()), es.last())
    }
}

/// Every callback invocation and render pass that the notifications of a
/// stream demand, in arrival order.
pub open spec fn events_actions(es: Seq<NativeEvent>) -> Seq<Action>
    decreases es.len(),
{
    if es.len() == 0 {
        Seq::empty()
    } else {
        events_actions(es.drop_last()) + event_actions(es.last())
    }
}

/// The full action trace of a run: the start step's announcement first, then
/// what each arriving notification demands. Render passes owed at the end of
/// a cycle come on top of this trace; they are never a dispatch.
pub open spec fn trace_actions(es: Seq<NativeEvent>) -> Seq<Action> {
    start_actions() + events_actions(es)
}

/// No notification of a stream ever dispatches the show event.
pub proof fn lemma_events_actions_no_show(es: Seq<NativeEvent>)
    ensures
        forall|i: int|
            0 <= i < events_actions(es).len() ==> events_actions(es)[i] != Action::Dispatch(
                HwEvent::Show,
            ),
    decreases es.len(),
{
    if es.len() > 0 {
        lemma_events_actions_no_show(es.drop_last());
    }
}

/// Over a whole run, whatever native notifications arrive, the show event is
/// dispatched exactly once — by the loop's start step — and it stands before
/// every other action of the trace, so it precedes every render.
pub proof fn lemma_trace_shows_once_first(es: Seq<NativeEvent>)
    ensures
        trace_actions(es).len() >= 1,
        trace_actions(es)[0] == Action::Dispatch(HwEvent::Show),
        forall|i: int|
            1 <= i < trace_actions(es).len() ==> trace_actions(es)[i] != Action::Dispatch(
                HwEvent::Show,
            ),
{
    lemma_events_actions_no_show(es);
}

/// Once any notification of the stream is quit, the state after the stream
/// has quit requested: delivering quit makes the loop stop.
pub proof fn lemma_quit_in_stream_stops_loop(s: WindowState, es: Seq<NativeEvent>)
    requires
        exists|i: int| 0 <= i < es.len() && es[i] is Quit,
    ensures
        state_after(s, es).quit_requested,
    decreases es.len(),
{
    let i = choose|i: int| 0 <= i < es.len() && es[i] is Quit;
    if i == es.len() - 1 {
        lemma_quit_terminates(state_after(s, es.drop_last()), es.last());
    } else {
        assert(es.drop_last()[i] is Quit);
        lemma_quit_in_stream_stops_loop(s, es.drop_last());
        lemma_quit_is_sticky(state_after(s, es.drop_last()), es.last());
    }
}

/// The unit mode the window was built with survives any stream of
/// notifications unchanged.
pub proof fn lemma_units_constant_over_stream(s: WindowState, es: Seq<NativeEvent>)
    ensures
        state_after(s, es).units == s.units,
    decreases es.len(),
{
    if es.len() > 0 {
        lemma_units_constant_over_stream(s, es.drop_last());
    }
}

} // verus!
