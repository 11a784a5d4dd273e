//! Window host: the dispatcher that routes host events to the fade animator
//! and the capture engine.
//!
//! The outer shell owns the real window, pulls one event at a time from the
//! host queue, and hands each to `Controller::handle_event` together with
//! whether the window currently holds input focus. The returned action tells
//! the shell what to perform: quit, apply an alpha to the layered window,
//! run a capture, ask for foreground activation, or leave the event to the
//! host's default handling.

use vstd::prelude::*;

use crate::fade::{spec_alpha, spec_decayed, FadeState, DECAY_FULL};

verus! {

/// Identity of the periodic fade timer registered on the overlay window.
pub const TIMER_ID: usize = 6543;

/// Identity of the global capture hotkey registered at startup.
pub const HOTKEY_ID: i32 = 123456;

/// Period of the fade timer, in host time units.
pub const TIMER_PERIOD: u32 = 5;

/// Color treated as fully transparent by the compositor, chosen not to
/// collide with expected captured content.
pub const COLOR_KEY: u32 = 0x123456;

/// Initial screen position of the overlay window.
pub const WINDOW_X: i32 = 200;

/// Initial screen position of the overlay window.
pub const WINDOW_Y: i32 = 200;

/// Initial width of the overlay window.
pub const WINDOW_WIDTH: i32 = 500;

/// Initial height of the overlay window.
pub const WINDOW_HEIGHT: i32 = 500;

/// One event pulled from the host queue, reduced to what the dispatcher
/// reads: the kind and the identity it carries.
#[derive(Clone, Copy, Debug, PartialEq, Eq, Structural)]
pub enum Event {
    /// The window is being destroyed.
    Destroy,
    /// A timer fired; `id` names which one.
    Timer { id: usize },
    /// A registered hotkey was pressed; `id` names which one.
    Hotkey { id: i32 },
    /// Anything the dispatcher does not recognize.
    Other,
}

/// What the shell must perform after dispatching one event.
#[derive(Clone, Copy, Debug, PartialEq, Eq, Structural)]
pub enum Action {
    /// Signal process termination; dispatch no further event.
    Quit,
    /// Apply this alpha to the layered window, keeping the color key.
    ApplyAlpha { alpha: u8 },
    /// Run one capture of the window's current client area, then report
    /// its outcome through `Controller::capture_finished`.
    Capture,
    /// Request foreground activation and input focus for the window.
    RequestFocus,
    /// Hand the event to the host's default handling, unmodified.
    PassThrough,
}

/// The dispatcher's own state: the fade animator, the alpha last applied to
/// the window, and whether termination was signalled.
#[derive(Clone, Copy, Debug, PartialEq, Eq, Structural)]
pub struct Controller {
    pub fade: FadeState,
    /// Alpha last handed to the shell; the window keeps it until the next
    /// timer tick with a positive counter.
    pub alpha: u8,
    /// A destroy event was dispatched.
    pub terminated: bool,
}

/// The dispatcher's state after one event. Only three events change it: a
/// destroy marks termination, and a matching timer tick with a positive
/// decay counter records the applied alpha and lowers the counter. A
/// hotkey changes nothing by itself: the capture's own outcome is reported
/// separately through `spec_capture_finished`.
pub open spec fn spec_next(c: Controller, ev: Event, focused: bool) -> Controller {
    match ev {
        Event::Destroy => Controller { terminated: true, ..c },
        Event::Timer { id } => if id == TIMER_ID && c.fade.decay > 0 {
            Controller {
                fade: FadeState { decay: spec_decayed(c.fade.decay) },
                alpha: spec_alpha(c.fade.decay),
                ..c
            }
        } else {
            c
        },
        Event::Hotkey { id: _ } => c,
        Event::Other => c,
    }
}

/// The action one event elicits: quit on destroy; a transparency update on
/// a matching timer tick while the counter is positive; on the matching
/// hotkey a capture when the window holds focus, else a focus request
/// (first press focuses, second press captures); everything else passes
/// through to default handling.
pub open spec fn spec_action(c: Controller, ev: Event, focused: bool) -> Action {
    match ev {
        Event::Destroy => Action::Quit,
        Event::Timer { id } => if id == TIMER_ID && c.fade.decay > 0 {
            Action::ApplyAlpha { alpha: spec_alpha(c.fade.decay) }
        } else {
            Action::PassThrough
        },
        Event::Hotkey { id } => if id == HOTKEY_ID {
            if focused {
                Action::Capture
            } else {
                Action::RequestFocus
            }
        } else {
            Action::PassThrough
        },
        Event::Other => Action::PassThrough,
    }
}

/// The dispatcher's state after a capture reports its outcome: a successful
/// capture arms the fade counter to full, whatever it held before; a failed
/// one changes nothing, so no flash follows.
pub open spec fn spec_capture_finished(c: Controller, captured: bool) -> Controller {
    if captured {
        Controller { fade: FadeState { decay: DECAY_FULL }, ..c }
    } else {
        c
    }
}

impl Controller {
    /// The state right after the window is created: no capture yet, so the
    /// decay counter is zero and the startup transparency application put
    /// the idle alpha on the window, which shows as fully transparent
    /// through the color key alone.
    pub fn new() -> (c: Controller)
        ensures
            c.fade.decay == 0,
            c.alpha == spec_alpha(0),
            !c.terminated,
    {
        Controller { fade: FadeState { decay: 0 }, alpha: 255, terminated: false }
    }

    /// Dispatch one event, given whether the window holds input focus, and
    /// return the action the shell must perform.
    pub fn handle_event(&mut self, ev: Event, focused: bool) -> (a: Action)
        ensures
            *final(self) == spec_next(*old(self), ev, focused),
            a == spec_action(*old(self), ev, focused),
    {
        match ev {
            Event::Destroy => {
                self.terminated = true;
                Action::Quit
            },
            Event::Timer { id } => {
                if id == TIMER_ID && self.fade.decay > 0 {
                    let alpha: u8 = self.fade.step();
                    self.alpha = alpha;
                    Action::ApplyAlpha { alpha }
                } else {
                    Action::PassThrough
                }
            },
            Event::Hotkey { id } => {
                if id == HOTKEY_ID {
                    if focused {
                        Action::Capture
                    } else {
                        Action::RequestFocus
                    }
                } else {
                    Action::PassThrough
                }
            },
            Event::Other => Action::PassThrough,
        }
    }

    /// Record a capture's outcome: arm the flash on success, leave
    /// everything untouched on failure.
    pub fn capture_finished(&mut self, captured: bool)
        ensures
            *final(self) == spec_capture_finished(*old(self), captured),
    {
        if captured {
            self.fade.arm();
        }
    }
}

/// A timer tick while the decay counter is zero is a no-op: the state is
/// unchanged, no transparency update is requested, and the event goes to
/// default handling.
pub proof fn lemma_idle_timer_is_noop(c: Controller, id: usize, focused: bool)
    requires
        c.fade.decay == 0,
    ensures
        spec_next(c, (Event::Timer { id }), focused) == c,
        spec_action(c, (Event::Timer { id }), focused) == Action::PassThrough,
{
}

/// A hotkey press while the window lacks focus performs no capture: the
/// state is unchanged and the only action is a focus request, so neither
/// the screen is read nor the clipboard touched.
pub proof fn lemma_unfocused_hotkey_only_focuses(c: Controller)
    ensures
        spec_next(c, (Event::Hotkey { id: HOTKEY_ID }), false) == c,
        spec_action(c, (Event::Hotkey { id: HOTKEY_ID }), false) == Action::RequestFocus,
{
}

/// A hotkey press while the window holds focus starts a capture, and a
/// successful capture arms the decay counter to full, whatever it held
/// before.
pub proof fn lemma_focused_capture_arms(c: Controller)
    ensures
        spec_action(c, (Event::Hotkey { id: HOTKEY_ID }), true) == Action::Capture,
        spec_capture_finished(spec_next(c, (Event::Hotkey { id: HOTKEY_ID }), true), true)
            .fade.decay == DECAY_FULL,
{
}

} // verus!
