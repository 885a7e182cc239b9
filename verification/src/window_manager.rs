//! The overlay window controller: which native calls create, show, hide,
//! close and adjust the overlay window, given whether the window exists.
//!
//! Every operation but creation is a silent no-op on an absent window, and
//! creation is a no-op on a present one.

use crate::effect::{Step, WindowConfig, WindowId, WindowOp};
use crate::settings::{OverlaySettings, Position, Size};
use vstd::prelude::*;

verus! {

/// Title of the overlay window.
pub const OVERLAY_TITLE: &'static str = "Captions";

/// Route of the page that the overlay window displays.
pub const OVERLAY_ROUTE: &'static str = "/overlay";

/// The operating system families on which the shell runs.
#[derive(Clone, Copy, Debug, PartialEq, Eq, Structural)]
pub enum Platform {
    MacOs,
    Windows,
    Linux,
}

impl Platform {
    pub open spec fn spec_native_transparency(self) -> bool {
        self != Platform::Windows
    }

    pub open spec fn spec_spans_workspaces(self) -> bool {
        self == Platform::MacOs
    }

    /// Whether the overlay window is made transparent by the windowing layer.
    /// On Windows it is not: the embedded browser renders transparent
    /// undecorated windows unreliably, and the page itself paints the
    /// transparency instead.
    #[verifier::when_used_as_spec(spec_native_transparency)]
    pub fn native_transparency(self) -> (transparent: bool)
        ensures
            transparent == self.spec_native_transparency(),
    {
        match self {
            Platform::MacOs => true,
            Platform::Windows => false,
            Platform::Linux => true,
        }
    }

    /// Whether the overlay window is asked to appear on every workspace.
    #[verifier::when_used_as_spec(spec_spans_workspaces)]
    pub fn spans_workspaces(self) -> (spans: bool)
        ensures
            spans == self.spec_spans_workspaces(),
    {
        match self {
            Platform::MacOs => true,
            Platform::Windows => false,
            Platform::Linux => false,
        }
    }
}

/// Which of the two windows the windowing layer currently knows.
#[derive(Clone, Copy, Debug, PartialEq, Eq, Structural)]
pub struct Presence {
    pub main: bool,
    pub overlay: bool,
}

/// The overlay window as it is built on `platform` from `settings`: placed and
/// sized as the settings say, undecorated, always on top, kept out of the
/// task bar, resizable and shown at once.
pub open spec fn overlay_window(platform: Platform, settings: OverlaySettings) -> WindowConfig {
    WindowConfig {
        size: settings.size,
        position: settings.position,
        decorations: false,
        transparent: platform.spec_native_transparency(),
        always_on_top: true,
        skip_taskbar: true,
        resizable: true,
        visible: true,
        visible_on_all_workspaces: platform.spec_spans_workspaces(),
    }
}

/// The calls that create the overlay window: build it, pin it on top once
/// more (some window managers only honour the request on a live window), and
/// make it click-through where the settings ask for that. None at all where
/// the window already exists.
pub open spec fn creation_steps(present: bool, platform: Platform, settings: OverlaySettings) -> Seq<
    Step,
> {
    if present {
        seq![]
    } else if settings.click_through {
        seq![
            Step::spec_call(WindowId::Overlay, WindowOp::Build(overlay_window(platform, settings))),
            Step::spec_call(WindowId::Overlay, WindowOp::SetAlwaysOnTop(true)),
            Step::spec_call(WindowId::Overlay, WindowOp::SetIgnoreCursorEvents(true)),
        ]
    } else {
        seq![
            Step::spec_call(WindowId::Overlay, WindowOp::Build(overlay_window(platform, settings))),
            Step::spec_call(WindowId::Overlay, WindowOp::SetAlwaysOnTop(true)),
        ]
    }
}

/// One call on the overlay window where it exists, nothing where it does not.
pub open spec fn overlay_steps(present: bool, op: WindowOp) -> Seq<Step> {
    if present {
        seq![Step::spec_call(WindowId::Overlay, op)]
    } else {
        seq![]
    }
}

fn on_overlay(present: bool, op: WindowOp) -> (steps: Vec<Step>)
    ensures
        steps@ == overlay_steps(present, op),
{
    let mut steps = Vec::new();
    if present {
        steps.push(Step::call(WindowId::Overlay, op));
    }
    steps
}

/// The calls that bring the overlay window into being. Creation is
/// idempotent: on a window that exists nothing is done.
pub fn create_overlay_window(present: bool, platform: Platform, settings: &OverlaySettings) -> (steps:
    Vec<Step>)
    ensures
        steps@ == creation_steps(present, platform, *settings),
{
    let mut steps = Vec::new();
    if present {
        return steps;
    }
    let config = WindowConfig {
        size: settings.size,
        position: settings.position,
        decorations: false,
        transparent: platform.native_transparency(),
        always_on_top: true,
        skip_taskbar: true,
        resizable: true,
        visible: true,
        visible_on_all_workspaces: platform.spans_workspaces(),
    };
    steps.push(Step::call(WindowId::Overlay, WindowOp::Build(config)));
    steps.push(Step::call(WindowId::Overlay, WindowOp::SetAlwaysOnTop(true)));
    if settings.click_through {
        steps.push(Step::call(WindowId::Overlay, WindowOp::SetIgnoreCursorEvents(true)));
    }
    steps
}

/// Destroys the overlay window where it exists.
pub fn close_overlay_window(present: bool) -> (steps: Vec<Step>)
    ensures
        steps@ == overlay_steps(present, WindowOp::Close),
{
    on_overlay(present, WindowOp::Close)
}

/// Shows the overlay window where it exists.
pub fn show_overlay_window(present: bool) -> (steps: Vec<Step>)
    ensures
        steps@ == overlay_steps(present, WindowOp::Show),
{
    on_overlay(present, WindowOp::Show)
}

/// Hides the overlay window where it exists.
pub fn hide_overlay_window(present: bool) -> (steps: Vec<Step>)
    ensures
        steps@ == overlay_steps(present, WindowOp::Hide),
{
    on_overlay(present, WindowOp::Hide)
}

/// Switches click-through on the overlay window where it exists.
pub fn set_ignore_cursor_events(present: bool, ignore: bool) -> (steps: Vec<Step>)
    ensures
        steps@ == overlay_steps(present, WindowOp::SetIgnoreCursorEvents(ignore)),
{
    on_overlay(present, WindowOp::SetIgnoreCursorEvents(ignore))
}

/// Moves the overlay window where it exists.
pub fn set_overlay_position(present: bool, x: i32, y: i32) -> (steps: Vec<Step>)
    ensures
        steps@ == overlay_steps(present, WindowOp::SetPosition(Position { x, y })),
{
    on_overlay(present, WindowOp::SetPosition(Position { x, y }))
}

/// Resizes the overlay window where it exists.
pub fn set_overlay_size(present: bool, width: u32, height: u32) -> (steps: Vec<Step>)
    ensures
        steps@ == overlay_steps(present, WindowOp::SetSize(Size { width, height })),
{
    on_overlay(present, WindowOp::SetSize(Size { width, height }))
}

} // verus!
