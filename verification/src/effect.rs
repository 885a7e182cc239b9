//! The vocabulary in which the core tells its host what to do: calls against a
//! native window found by its label, notifications to the user interface,
//! persistence, and process exit. The core never touches a window itself.

use crate::settings::{Position, Size};
use vstd::prelude::*;

verus! {

/// The two logical windows of the application.
#[derive(Clone, Copy, Debug, PartialEq, Eq, Structural)]
pub enum WindowId {
    Main,
    Overlay,
}

impl WindowId {
    /// The text of the window's label.
    pub open spec fn label_text(self) -> Seq<char> {
        match self {
            WindowId::Main => "main"@,
            WindowId::Overlay => "overlay"@,
        }
    }

    /// The label under which the windowing layer knows the window.
    pub fn label(self) -> (label: &'static str)
        ensures
            label@ == self.label_text(),
    {
        match self {
            WindowId::Main => "main",
            WindowId::Overlay => "overlay",
        }
    }

    /// The window that carries `label`, if it is one of the two.
    pub fn from_label(label: &str) -> (window: Option<WindowId>)
        ensures
            window == (if label@ == WindowId::Main.label_text() {
                Some(WindowId::Main)
            } else if label@ == WindowId::Overlay.label_text() {
                Some(WindowId::Overlay)
            } else {
                None
            }),
    {
        let given = label.to_owned();
        if given == WindowId::Main.label().to_owned() {
            Some(WindowId::Main)
        } else if given == WindowId::Overlay.label().to_owned() {
            Some(WindowId::Overlay)
        } else {
            None
        }
    }
}

/// Everything the windowing layer is told when a window is built.
#[derive(Clone, Copy, Debug, PartialEq, Eq, Structural)]
pub struct WindowConfig {
    pub size: Size,
    pub position: Position,
    pub decorations: bool,
    pub transparent: bool,
    pub always_on_top: bool,
    pub skip_taskbar: bool,
    pub resizable: bool,
    pub visible: bool,
    pub visible_on_all_workspaces: bool,
}

/// One call against a native window.
#[derive(Clone, Copy, Debug, PartialEq, Eq, Structural)]
pub enum WindowOp {
    /// Construct the window; it does not exist yet.
    Build(WindowConfig),
    Show,
    Hide,
    /// Destroy the window.
    Close,
    SetFocus,
    SetAlwaysOnTop(bool),
    /// Click-through: pointer input passes to whatever lies beneath.
    SetIgnoreCursorEvents(bool),
    SetPosition(Position),
    SetSize(Size),
}

/// A notification consumed by the user interface.
#[derive(Clone, Copy, Debug, PartialEq, Eq, Structural)]
pub enum Signal {
    /// A new caption; the text travels beside the plan that publishes it.
    CaptionUpdate,
    /// Ask the main window to open its settings panel.
    OpenSettings,
    /// The global hotkey was pressed.
    ToggleOverlay,
}

impl Signal {
    /// The text of the channel's name.
    pub open spec fn channel_name(self) -> Seq<char> {
        match self {
            Signal::CaptionUpdate => "caption-update"@,
            Signal::OpenSettings => "open-settings"@,
            Signal::ToggleOverlay => "toggle-overlay"@,
        }
    }

    /// The name of the channel on which the signal is published.
    pub fn channel(self) -> (name: &'static str)
        ensures
            name@ == self.channel_name(),
    {
        match self {
            Signal::CaptionUpdate => "caption-update",
            Signal::OpenSettings => "open-settings",
            Signal::ToggleOverlay => "toggle-overlay",
        }
    }
}

/// One unit of work that only the host can do.
#[derive(Clone, Copy, Debug, PartialEq, Eq, Structural)]
pub enum Effect {
    /// Call `op` on the window `target`.
    Window { target: WindowId, op: WindowOp },
    /// Publish `signal` to one window, or to every listener. Having no
    /// listener is not a failure.
    Emit { signal: Signal, recipient: Option<WindowId> },
    /// Write the current settings snapshot to disk.
    PersistSettings,
    /// Terminate the process.
    Exit { code: i32 },
}

/// An effect together with what its failure means.
#[derive(Clone, Copy, Debug, PartialEq, Eq, Structural)]
pub struct Step {
    pub effect: Effect,
    /// A failed required step ends its plan; a failed optional one is passed over.
    pub required: bool,
}

impl Step {
    pub open spec fn spec_required(effect: Effect) -> Step {
        Step { effect, required: true }
    }

    pub open spec fn spec_optional(effect: Effect) -> Step {
        Step { effect, required: false }
    }

    pub open spec fn spec_call(target: WindowId, op: WindowOp) -> Step {
        Step::spec_required(Effect::Window { target, op })
    }

    pub open spec fn spec_attempt(target: WindowId, op: WindowOp) -> Step {
        Step::spec_optional(Effect::Window { target, op })
    }

    /// A step whose failure ends the plan.
    #[verifier::when_used_as_spec(spec_required)]
    pub fn required(effect: Effect) -> (step: Step)
        ensures
            step == Step::spec_required(effect),
    {
        Step { effect, required: true }
    }

    /// A step whose failure is passed over.
    #[verifier::when_used_as_spec(spec_optional)]
    pub fn optional(effect: Effect) -> (step: Step)
        ensures
            step == Step::spec_optional(effect),
    {
        Step { effect, required: false }
    }

    /// A window call whose failure ends the plan.
    #[verifier::when_used_as_spec(spec_call)]
    pub fn call(target: WindowId, op: WindowOp) -> (step: Step)
        ensures
            step == Step::spec_call(target, op),
    {
        Step { effect: Effect::Window { target, op }, required: true }
    }

    /// A window call whose failure is passed over.
    #[verifier::when_used_as_spec(spec_attempt)]
    pub fn attempt(target: WindowId, op: WindowOp) -> (step: Step)
        ensures
            step == Step::spec_attempt(target, op),
    {
        Step { effect: Effect::Window { target, op }, required: false }
    }
}

/// The step where the condition holds, no step where it does not.
pub open spec fn only_if(condition: bool, step: Step) -> Seq<Step> {
    if condition {
        seq![step]
    } else {
        seq![]
    }
}

} // verus!
