//! A model of the native windows: what each effect does to the main and the
//! overlay window when it succeeds. The model is what the laws of the shell
//! are stated over, and a host to run plans against where there is no
//! windowing layer.
//!
//! A window is absent, hidden or visible. An effect that fails leaves both
//! windows as they were.

use crate::effect::{Effect, WindowId, WindowOp};
use crate::plan::{Cursor, Execution, Plan, PlanView, Turn};
use crate::window_manager::Presence;
use crate::AppState;
use vstd::prelude::*;

verus! {

/// The life of one native window.
#[derive(Clone, Copy, Debug, PartialEq, Eq, Structural)]
pub enum WindowState {
    /// Never created, or destroyed.
    Absent,
    /// Exists but is not on screen.
    Hidden,
    /// Exists and is on screen.
    Visible,
}

impl WindowState {
    pub open spec fn spec_is_present(self) -> bool {
        self != WindowState::Absent
    }

    pub open spec fn spec_after(self, op: WindowOp) -> WindowState {
        match op {
            WindowOp::Build(config) => if config.visible {
                WindowState::Visible
            } else {
                WindowState::Hidden
            },
            WindowOp::Show => if self.spec_is_present() {
                WindowState::Visible
            } else {
                WindowState::Absent
            },
            WindowOp::Hide => if self.spec_is_present() {
                WindowState::Hidden
            } else {
                WindowState::Absent
            },
            WindowOp::Close => WindowState::Absent,
            _ => self,
        }
    }

    /// Whether the windowing layer knows the window.
    #[verifier::when_used_as_spec(spec_is_present)]
    pub fn is_present(self) -> (present: bool)
        ensures
            present == self.spec_is_present(),
    {
        match self {
            WindowState::Absent => false,
            _ => true,
        }
    }

    /// The window after `op` succeeded on it. Building brings it into being,
    /// closing destroys it, showing and hiding move an existing window on and
    /// off screen; the other calls change neither existence nor visibility.
    #[verifier::when_used_as_spec(spec_after)]
    pub fn after(self, op: WindowOp) -> (next: WindowState)
        ensures
            next == self.spec_after(op),
    {
        match op {
            WindowOp::Build(config) => {
                if config.visible {
                    WindowState::Visible
                } else {
                    WindowState::Hidden
                }
            },
            WindowOp::Show => {
                if self.is_present() {
                    WindowState::Visible
                } else {
                    WindowState::Absent
                }
            },
            WindowOp::Hide => {
                if self.is_present() {
                    WindowState::Hidden
                } else {
                    WindowState::Absent
                }
            },
            WindowOp::Close => WindowState::Absent,
            _ => self,
        }
    }
}

/// The two native windows.
#[derive(Clone, Copy, Debug, PartialEq, Eq, Structural)]
pub struct Desktop {
    pub main: WindowState,
    pub overlay: WindowState,
}

impl Desktop {
    pub open spec fn spec_presence(self) -> Presence {
        Presence { main: self.main.spec_is_present(), overlay: self.overlay.spec_is_present() }
    }

    pub open spec fn spec_after(self, effect: Effect) -> Desktop {
        match effect {
            Effect::Window { target: WindowId::Main, op } => Desktop {
                main: self.main.spec_after(op),
                overlay: self.overlay,
            },
            Effect::Window { target: WindowId::Overlay, op } => Desktop {
                main: self.main,
                overlay: self.overlay.spec_after(op),
            },
            _ => self,
        }
    }

    /// Which windows a lookup by label finds.
    #[verifier::when_used_as_spec(spec_presence)]
    pub fn presence(self) -> (presence: Presence)
        ensures
            presence == self.spec_presence(),
    {
        Presence { main: self.main.is_present(), overlay: self.overlay.is_present() }
    }

    /// The windows after `effect` succeeded. Only a call on a window changes
    /// them, and only the window it is made on.
    #[verifier::when_used_as_spec(spec_after)]
    pub fn after(self, effect: Effect) -> (next: Desktop)
        ensures
            next == self.spec_after(effect),
    {
        match effect {
            Effect::Window { target: WindowId::Main, op } => Desktop {
                main: self.main.after(op),
                overlay: self.overlay,
            },
            Effect::Window { target: WindowId::Overlay, op } => Desktop {
                main: self.main,
                overlay: self.overlay.after(op),
            },
            _ => self,
        }
    }
}

/// Every effect succeeds.
pub open spec fn always() -> spec_fn(Cursor) -> bool {
    |at: Cursor| true
}

/// Where a plan stands, and what the windows are, once the host has performed
/// every effect that the plan asked for from `at` on. `succeeds` tells, for each
/// place in the plan, whether the effect asked for there succeeds.
pub open spec fn play(plan: PlanView, at: Cursor, desktop: Desktop, succeeds: spec_fn(Cursor) -> bool) -> (
    Cursor,
    Desktop,
)
    decreases plan.remaining(at),
{
    match plan.pending(at) {
        None => (at, desktop),
        Some(effect) => {
            let next = if succeeds(at) {
                desktop.spec_after(effect)
            } else {
                desktop
            };
            play(plan, plan.advance(at, succeeds(at)), next, succeeds)
        },
    }
}

/// The windows together with the visibility flag.
pub struct World {
    pub desktop: Desktop,
    pub overlay_visible: bool,
}

impl World {
    /// The flag is up exactly when the overlay window exists and is shown.
    pub open spec fn consistent(self) -> bool {
        self.overlay_visible <==> self.desktop.overlay == WindowState::Visible
    }

    /// The flag is up only when the overlay window exists and is shown.
    pub open spec fn flag_is_backed(self) -> bool {
        self.overlay_visible ==> self.desktop.overlay == WindowState::Visible
    }

    /// The world after `plan` was carried out from its start.
    pub open spec fn carry_out(self, plan: PlanView, succeeds: spec_fn(Cursor) -> bool) -> World {
        let (end, desktop) = play(plan, Cursor::start(), self.desktop, succeeds);
        World { desktop, overlay_visible: plan.flag_after(end, self.overlay_visible) }
    }
}

/// Whether carrying out `plan` ends in failure.
pub open spec fn fails(plan: PlanView, desktop: Desktop, succeeds: spec_fn(Cursor) -> bool) -> bool {
    play(plan, Cursor::start(), desktop, succeeds).0.failed
}

impl Desktop {
    /// Carries `plan` out on these windows, every effect succeeding, and
    /// settles the visibility flag in `state`.
    pub fn carry_out(&mut self, plan: Plan, state: &mut AppState) -> (result: Result<(), String>)
        ensures
            result is Ok,
            final(state).settings == old(state).settings,
            (World { desktop: *final(self), overlay_visible: final(state).overlay_visible }) == (World {
                desktop: *old(self),
                overlay_visible: old(state).overlay_visible,
            }).carry_out(plan@, always()),
    {
        let ghost steps = plan@;
        let ghost windows = *self;
        let mut run = Execution::start(plan);
        loop
            invariant
                steps == plan@,
                run@.plan == steps,
                run@.failure is None,
                !run@.at.failed,
                state.settings == old(state).settings,
                state.overlay_visible == old(state).overlay_visible,
                windows == *old(self),
                play(steps, run@.at, *self, always()) == play(
                    steps,
                    Cursor::start(),
                    windows,
                    always(),
                ),
            decreases steps.remaining(run@.at),
        {
            let ghost at = run@.at;
            match run.turn(state) {
                Turn::Perform(effect) => {
                    *self = self.after(effect);
                    run.report(Ok(()));
                },
                Turn::Finished(result) => {
                    assert(play(steps, at, *self, always()) == (at, *self));
                    return result;
                },
            }
        }
    }
}

} // verus!
