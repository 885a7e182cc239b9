//! The core of a desktop shell that shows live captions in a floating overlay
//! window beside its main window: which native calls each trigger leads to,
//! and how the shared visibility flag follows.
//!
//! The core makes no native call. A trigger is turned into a
//! [`plan::Plan`]; the host performs the plan's effects one by one and
//! reports how each went, and the core sets the flag in the [`AppState`]
//! when the plan has run.

use crate::effect::{only_if, Effect, Signal, Step, WindowId, WindowOp};
use crate::plan::{flagless, Plan, PlanView};
use crate::settings::{AppSettings, OverlaySettings};
use crate::window_manager::{creation_steps, Platform, Presence};
use vstd::prelude::*;

pub mod commands;
pub mod desktop;
pub mod effect;
pub mod laws;
pub mod plan;
pub mod settings;
pub mod window_manager;

verus! {

/// Tooltip of the tray icon.
pub const TRAY_TOOLTIP: &'static str = "Jutukuva Subtiitrid";

/// The state shared by every trigger for the lifetime of the process. The
/// host keeps it behind a lock; the core reads and writes it only while the
/// host holds that lock.
#[derive(Debug, PartialEq, Eq)]
pub struct AppState {
    /// The settings snapshot.
    pub settings: AppSettings,
    /// The visibility flag: whether the overlay window exists and is shown.
    pub overlay_visible: bool,
}

impl AppState {
    /// The state at startup: the loaded settings, and no overlay yet.
    pub fn new(settings: AppSettings) -> (state: AppState)
        ensures
            state.settings == settings,
            !state.overlay_visible,
    {
        AppState { settings, overlay_visible: false }
    }
}

/// The entries of the tray menu.
#[derive(Clone, Copy, Debug, PartialEq, Eq, Structural)]
pub enum TrayItem {
    ShowMain,
    ShowOverlay,
    Quit,
}

impl TrayItem {
    /// The text of the entry's identifier.
    pub open spec fn id_text(self) -> Seq<char> {
        match self {
            TrayItem::ShowMain => "show_main"@,
            TrayItem::ShowOverlay => "show_overlay"@,
            TrayItem::Quit => "quit"@,
        }
    }

    /// The text of the entry's title.
    pub open spec fn title_text(self) -> Seq<char> {
        match self {
            TrayItem::ShowMain => "Näita peaaken"@,
            TrayItem::ShowOverlay => "Näita ülekatet"@,
            TrayItem::Quit => "Välju"@,
        }
    }

    /// The identifier under which a selection of the entry is reported.
    pub fn id(self) -> (id: &'static str)
        ensures
            id@ == self.id_text(),
    {
        match self {
            TrayItem::ShowMain => "show_main",
            TrayItem::ShowOverlay => "show_overlay",
            TrayItem::Quit => "quit",
        }
    }

    /// The title that the menu displays.
    pub fn title(self) -> (title: &'static str)
        ensures
            title@ == self.title_text(),
    {
        match self {
            TrayItem::ShowMain => "Näita peaaken",
            TrayItem::ShowOverlay => "Näita ülekatet",
            TrayItem::Quit => "Välju",
        }
    }

    /// The entry with the identifier `id`, if there is one.
    pub fn from_id(id: &str) -> (item: Option<TrayItem>)
        ensures
            item == (if id@ == TrayItem::ShowMain.id_text() {
                Some(TrayItem::ShowMain)
            } else if id@ == TrayItem::ShowOverlay.id_text() {
                Some(TrayItem::ShowOverlay)
            } else if id@ == TrayItem::Quit.id_text() {
                Some(TrayItem::Quit)
            } else {
                None
            }),
    {
        let given = id.to_owned();
        if given == TrayItem::ShowMain.id().to_owned() {
            Some(TrayItem::ShowMain)
        } else if given == TrayItem::ShowOverlay.id().to_owned() {
            Some(TrayItem::ShowOverlay)
        } else if given == TrayItem::Quit.id().to_owned() {
            Some(TrayItem::Quit)
        } else {
            None
        }
    }
}

/// The entries of the tray menu, from top to bottom.
pub fn tray_menu() -> (items: Vec<TrayItem>)
    ensures
        items@ == seq![TrayItem::ShowMain, TrayItem::ShowOverlay, TrayItem::Quit],
{
    let mut items = Vec::new();
    items.push(TrayItem::ShowMain);
    items.push(TrayItem::ShowOverlay);
    items.push(TrayItem::Quit);
    items
}

/// A button of the pointing device.
#[derive(Clone, Copy, Debug, PartialEq, Eq, Structural)]
pub enum MouseButton {
    Left,
    Right,
    Middle,
}

/// Whether a button went down or came up.
#[derive(Clone, Copy, Debug, PartialEq, Eq, Structural)]
pub enum ButtonState {
    Up,
    Down,
}

/// What can set the shell in motion besides a command of the user interface.
#[derive(Clone, Copy, Debug, PartialEq, Eq, Structural)]
pub enum Trigger {
    /// The user asked the window to close; the windowing layer closes it
    /// when the trigger has been handled.
    WindowCloseRequested(WindowId),
    /// The window is gone.
    WindowDestroyed(WindowId),
    /// An entry of the tray menu was selected.
    TrayMenu(TrayItem),
    /// The tray icon was clicked.
    TrayIconClick { button: MouseButton, state: ButtonState },
    /// The global hotkey was pressed.
    Hotkey,
}

impl Trigger {
    pub open spec fn spec_leaves_event_thread(self) -> bool {
        self == Trigger::TrayMenu(TrayItem::ShowOverlay)
    }

    /// Whether the host must carry the trigger's plan out on a thread of its
    /// own. Creating a window on the thread that is delivering a tray event
    /// can deadlock the windowing layer, so the way over to the overlay from
    /// the tray leaves that thread.
    #[verifier::when_used_as_spec(spec_leaves_event_thread)]
    pub fn leaves_event_thread(self) -> (leaves: bool)
        ensures
            leaves == self.spec_leaves_event_thread(),
    {
        match self {
            Trigger::TrayMenu(TrayItem::ShowOverlay) => true,
            _ => false,
        }
    }
}

/// Going back to the main window: the overlay is hidden, the flag lowered,
/// the main window shown and focused. Each call is made as far as its window
/// exists, and none of them can fail the plan.
pub open spec fn show_main_window_plan(presence: Presence) -> PlanView {
    PlanView {
        steps: only_if(presence.overlay, Step::spec_attempt(WindowId::Overlay, WindowOp::Hide))
            + only_if(presence.main, Step::spec_attempt(WindowId::Main, WindowOp::Show)) + only_if(
            presence.main,
            Step::spec_attempt(WindowId::Main, WindowOp::SetFocus),
        ),
        recovery: seq![],
        on_success: Some(false),
        on_failure: Some(false),
    }
}

/// Going over to the overlay from the tray: the main window is hidden
/// first, then the overlay is created, or shown where it exists, and the
/// flag raised. If creation fails the main window is shown again and the
/// flag stays as it was.
pub open spec fn spawn_show_overlay_window_plan(
    presence: Presence,
    platform: Platform,
    settings: OverlaySettings,
) -> PlanView {
    PlanView {
        steps: only_if(presence.main, Step::spec_attempt(WindowId::Main, WindowOp::Hide)) + (
        if presence.overlay {
            seq![Step::spec_attempt(WindowId::Overlay, WindowOp::Show)]
        } else {
            creation_steps(false, platform, settings)
        }),
        recovery: only_if(presence.main, Step::spec_attempt(WindowId::Main, WindowOp::Show)),
        on_success: Some(true),
        on_failure: None,
    }
}

/// Leaving through the tray: both windows are closed as far as that works,
/// then the process exits.
pub open spec fn quit_plan(presence: Presence) -> PlanView {
    flagless(
        only_if(presence.overlay, Step::spec_attempt(WindowId::Overlay, WindowOp::Close))
            + only_if(presence.main, Step::spec_attempt(WindowId::Main, WindowOp::Close))
            + seq![Step::spec_required(Effect::Exit { code: 0 })],
    )
}

/// What the window `closing` being asked to close leads to. With the main
/// window the overlay goes too; with the overlay only the flag is lowered,
/// and the main window is left as it is.
pub open spec fn close_requested_plan(closing: WindowId, presence: Presence) -> PlanView {
    PlanView {
        steps: only_if(
            closing == WindowId::Main && presence.overlay,
            Step::spec_attempt(WindowId::Overlay, WindowOp::Close),
        ),
        recovery: seq![],
        on_success: Some(false),
        on_failure: Some(false),
    }
}

/// The plan for each trigger.
pub open spec fn run_plan(
    trigger: Trigger,
    presence: Presence,
    platform: Platform,
    settings: OverlaySettings,
) -> PlanView {
    match trigger {
        Trigger::WindowCloseRequested(closing) => close_requested_plan(closing, presence),
        Trigger::WindowDestroyed(gone) => flagless(
            only_if(gone == WindowId::Main, Step::spec_required(Effect::Exit { code: 0 })),
        ),
        Trigger::TrayMenu(TrayItem::ShowMain) => show_main_window_plan(presence),
        Trigger::TrayMenu(TrayItem::ShowOverlay) => spawn_show_overlay_window_plan(
            presence,
            platform,
            settings,
        ),
        Trigger::TrayMenu(TrayItem::Quit) => quit_plan(presence),
        Trigger::TrayIconClick { button, state } => if button == MouseButton::Left && state
            == ButtonState::Up {
            show_main_window_plan(presence)
        } else {
            flagless(seq![])
        },
        Trigger::Hotkey => flagless(
            seq![
                Step::spec_optional(
                    Effect::Emit { signal: Signal::ToggleOverlay, recipient: None },
                ),
            ],
        ),
    }
}

/// Returns to the main window: hides the overlay, lowers the flag, shows and
/// focuses the main window.
pub fn show_main_window(presence: Presence) -> (plan: Plan)
    ensures
        plan@ == show_main_window_plan(presence),
{
    let mut steps = Vec::new();
    if presence.overlay {
        steps.push(Step::attempt(WindowId::Overlay, WindowOp::Hide));
    }
    if presence.main {
        steps.push(Step::attempt(WindowId::Main, WindowOp::Show));
        steps.push(Step::attempt(WindowId::Main, WindowOp::SetFocus));
    }
    assert(steps@ =~= show_main_window_plan(presence).steps);
    Plan::new(steps, Some(false), Some(false))
}

/// Goes over to the overlay from the tray. The host runs the plan on a
/// worker thread, off the thread that delivered the tray event. The main
/// window is hidden before the overlay is created and shown again if the
/// creation fails.
pub fn spawn_show_overlay_window(state: &AppState, presence: Presence, platform: Platform) -> (plan:
    Plan)
    ensures
        plan@ == spawn_show_overlay_window_plan(presence, platform, state.settings.overlay),
{
    let mut steps = Vec::new();
    let mut recovery = Vec::new();
    if presence.main {
        steps.push(Step::attempt(WindowId::Main, WindowOp::Hide));
        recovery.push(Step::attempt(WindowId::Main, WindowOp::Show));
    }
    if presence.overlay {
        steps.push(Step::attempt(WindowId::Overlay, WindowOp::Show));
    } else {
        let mut creation = window_manager::create_overlay_window(
            false,
            platform,
            &state.settings.overlay,
        );
        steps.append(&mut creation);
    }
    assert(steps@ =~= spawn_show_overlay_window_plan(
        presence,
        platform,
        state.settings.overlay,
    ).steps);
    assert(recovery@ =~= spawn_show_overlay_window_plan(
        presence,
        platform,
        state.settings.overlay,
    ).recovery);
    Plan { steps, recovery, on_success: Some(true), on_failure: None }
}

fn quit(presence: Presence) -> (plan: Plan)
    ensures
        plan@ == quit_plan(presence),
{
    let mut steps = Vec::new();
    if presence.overlay {
        steps.push(Step::attempt(WindowId::Overlay, WindowOp::Close));
    }
    if presence.main {
        steps.push(Step::attempt(WindowId::Main, WindowOp::Close));
    }
    steps.push(Step::required(Effect::Exit { code: 0 }));
    assert(steps@ =~= quit_plan(presence).steps);
    Plan::new(steps, None, None)
}

/// Reacts to a trigger that has no caller to answer to: a native window
/// event, the tray, the global hotkey.
///
/// Closing the main window closes the overlay and lowers the flag; closing
/// the overlay only lowers the flag. The destruction of the main window ends
/// the process. The tray leads back to the main window, over to the overlay,
/// or out of the application; a click with the primary button on the tray
/// icon leads back to the main window. The hotkey is handed on to the user
/// interface, which toggles the overlay.
pub fn run(trigger: Trigger, state: &AppState, presence: Presence, platform: Platform) -> (plan:
    Plan)
    ensures
        plan@ == run_plan(trigger, presence, platform, state.settings.overlay),
{
    match trigger {
        Trigger::WindowCloseRequested(closing) => {
            let mut steps = Vec::new();
            if closing == WindowId::Main && presence.overlay {
                steps.push(Step::attempt(WindowId::Overlay, WindowOp::Close));
            }
            Plan::new(steps, Some(false), Some(false))
        },
        Trigger::WindowDestroyed(gone) => {
            let mut steps = Vec::new();
            if gone == WindowId::Main {
                steps.push(Step::required(Effect::Exit { code: 0 }));
            }
            Plan::new(steps, None, None)
        },
        Trigger::TrayMenu(TrayItem::ShowMain) => show_main_window(presence),
        Trigger::TrayMenu(TrayItem::ShowOverlay) => spawn_show_overlay_window(
            state,
            presence,
            platform,
        ),
        Trigger::TrayMenu(TrayItem::Quit) => quit(presence),
        Trigger::TrayIconClick { button, state: button_state } => {
            if button == MouseButton::Left && button_state == ButtonState::Up {
                show_main_window(presence)
            } else {
                Plan::new(Vec::new(), None, None)
            }
        },
        Trigger::Hotkey => {
            let mut steps = Vec::new();
            steps.push(
                Step::optional(Effect::Emit { signal: Signal::ToggleOverlay, recipient: None }),
            );
            Plan::new(steps, None, None)
        },
    }
}

} // verus!
