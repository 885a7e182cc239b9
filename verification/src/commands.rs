//! The commands that the user interface issues. Each one updates the shared
//! state as far as it can at once and returns the plan that the host carries
//! out; the visibility flag follows when the plan has run.

use crate::effect::{only_if, Effect, Signal, Step, WindowId, WindowOp};
use crate::plan::{flagless, Plan, PlanView};
use crate::settings::{AppSettings, AppSettingsView, OverlaySettings, Position, Size};
use crate::window_manager;
use crate::window_manager::{creation_steps, overlay_steps, Platform, Presence};
use crate::AppState;
use vstd::prelude::*;

verus! {

/// The content of a caption notification. The text is opaque to the core.
#[derive(Debug, PartialEq, Eq)]
pub struct CaptionPayload {
    pub text: String,
}

impl Clone for CaptionPayload {
    fn clone(&self) -> (copy: Self)
        ensures
            copy == *self,
    {
        CaptionPayload { text: self.text.clone() }
    }
}

/// Writing the settings snapshot; a failure to write is the command's failure.
pub open spec fn persist_plan() -> PlanView {
    flagless(seq![Step::spec_required(Effect::PersistSettings)])
}

/// Showing the overlay: create it where it does not exist, show it where it
/// does. The flag is raised once that has succeeded.
pub open spec fn show_overlay_plan(present: bool, platform: Platform, settings: OverlaySettings) -> PlanView {
    PlanView {
        steps: if present {
            overlay_steps(true, WindowOp::Show)
        } else {
            creation_steps(false, platform, settings)
        },
        recovery: seq![],
        on_success: Some(true),
        on_failure: None,
    }
}

/// Hiding the overlay; the flag is lowered once that has succeeded.
pub open spec fn hide_overlay_plan(present: bool) -> PlanView {
    PlanView {
        steps: overlay_steps(present, WindowOp::Hide),
        recovery: seq![],
        on_success: Some(false),
        on_failure: None,
    }
}

/// Closing the overlay; the flag is lowered once that has succeeded.
pub open spec fn close_overlay_plan(present: bool) -> PlanView {
    PlanView {
        steps: overlay_steps(present, WindowOp::Close),
        recovery: seq![],
        on_success: Some(false),
        on_failure: None,
    }
}

/// Toggling: hide where the flag is up, show where it is down.
pub open spec fn toggle_overlay_plan(
    visible: bool,
    present: bool,
    platform: Platform,
    settings: OverlaySettings,
) -> PlanView {
    if visible {
        hide_overlay_plan(present)
    } else {
        show_overlay_plan(present, platform, settings)
    }
}

/// Showing and focusing the main window, then asking it to open its settings
/// panel. Nothing where there is no main window.
pub open spec fn show_main_with_settings_plan(main_present: bool) -> PlanView {
    flagless(
        if main_present {
            seq![
                Step::spec_call(WindowId::Main, WindowOp::Show),
                Step::spec_call(WindowId::Main, WindowOp::SetFocus),
                Step::spec_required(
                    Effect::Emit { signal: Signal::OpenSettings, recipient: Some(WindowId::Main) },
                ),
            ]
        } else {
            seq![]
        },
    )
}

/// The steps that end the application: the overlay is closed as far as that
/// works, the main window must close, then the process exits.
pub open spec fn close_app_steps(presence: Presence) -> Seq<Step> {
    only_if(presence.overlay, Step::spec_attempt(WindowId::Overlay, WindowOp::Close)) + only_if(
        presence.main,
        Step::spec_call(WindowId::Main, WindowOp::Close),
    ) + seq![Step::spec_required(Effect::Exit { code: 0 })]
}

/// Ending the application. The flag is lowered whether or not the main
/// window could be closed.
pub open spec fn close_app_plan(presence: Presence) -> PlanView {
    PlanView {
        steps: close_app_steps(presence),
        recovery: seq![],
        on_success: Some(false),
        on_failure: Some(false),
    }
}

/// Publishing a caption to every listener.
pub open spec fn broadcast_plan() -> PlanView {
    flagless(
        seq![Step::spec_required(Effect::Emit { signal: Signal::CaptionUpdate, recipient: None })],
    )
}

fn persist() -> (plan: Plan)
    ensures
        plan@ == persist_plan(),
{
    let mut steps = Vec::new();
    steps.push(Step::required(Effect::PersistSettings));
    Plan::new(steps, None, None)
}

/// The current settings snapshot.
pub fn get_settings(state: &AppState) -> (settings: AppSettings)
    ensures
        settings == state.settings,
{
    state.settings.clone()
}

/// Replaces the snapshot by `new_settings` and asks for it to be written.
/// The snapshot is replaced at once and stays replaced if writing fails.
pub fn save_settings(state: &mut AppState, new_settings: AppSettings) -> (plan: Plan)
    ensures
        final(state).settings == new_settings,
        final(state).overlay_visible == old(state).overlay_visible,
        plan@ == persist_plan(),
{
    state.settings = new_settings;
    persist()
}

/// Replaces the snapshot by the initial record and asks for it to be written.
/// The caller is answered with the new snapshot once it is written.
pub fn reset_settings(state: &mut AppState) -> (plan: Plan)
    ensures
        final(state).settings@ == AppSettingsView::initial(),
        final(state).overlay_visible == old(state).overlay_visible,
        plan@ == persist_plan(),
{
    state.settings = AppSettings::default();
    persist()
}

/// Brings the overlay on screen, creating it from the current settings where
/// it does not exist.
pub fn show_overlay(state: &AppState, presence: Presence, platform: Platform) -> (plan: Plan)
    ensures
        plan@ == show_overlay_plan(presence.overlay, platform, state.settings.overlay),
{
    let steps = if presence.overlay {
        window_manager::show_overlay_window(true)
    } else {
        window_manager::create_overlay_window(false, platform, &state.settings.overlay)
    };
    Plan::new(steps, Some(true), None)
}

/// Takes the overlay off screen without destroying it.
pub fn hide_overlay(presence: Presence) -> (plan: Plan)
    ensures
        plan@ == hide_overlay_plan(presence.overlay),
{
    Plan::new(window_manager::hide_overlay_window(presence.overlay), Some(false), None)
}

/// Destroys the overlay window.
pub fn close_overlay(presence: Presence) -> (plan: Plan)
    ensures
        plan@ == close_overlay_plan(presence.overlay),
{
    Plan::new(window_manager::close_overlay_window(presence.overlay), Some(false), None)
}

/// Hides the overlay where the flag is up and shows it where the flag is
/// down. The command's answer is the flag after the plan has run.
pub fn toggle_overlay(state: &AppState, presence: Presence, platform: Platform) -> (plan: Plan)
    ensures
        plan@ == toggle_overlay_plan(
            state.overlay_visible,
            presence.overlay,
            platform,
            state.settings.overlay,
        ),
{
    if state.overlay_visible {
        hide_overlay(presence)
    } else {
        show_overlay(state, presence, platform)
    }
}

/// Moves the live overlay window; nothing where there is none.
pub fn set_overlay_position(presence: Presence, x: i32, y: i32) -> (plan: Plan)
    ensures
        plan@ == flagless(overlay_steps(presence.overlay, WindowOp::SetPosition(Position { x, y }))),
{
    Plan::new(window_manager::set_overlay_position(presence.overlay, x, y), None, None)
}

/// Resizes the live overlay window; nothing where there is none.
pub fn set_overlay_size(presence: Presence, width: u32, height: u32) -> (plan: Plan)
    ensures
        plan@ == flagless(overlay_steps(presence.overlay, WindowOp::SetSize(Size { width, height }))),
{
    Plan::new(window_manager::set_overlay_size(presence.overlay, width, height), None, None)
}

/// Switches click-through on the live overlay window; nothing where there is
/// none.
pub fn set_click_through(presence: Presence, enabled: bool) -> (plan: Plan)
    ensures
        plan@ == flagless(overlay_steps(presence.overlay, WindowOp::SetIgnoreCursorEvents(enabled))),
{
    Plan::new(window_manager::set_ignore_cursor_events(presence.overlay, enabled), None, None)
}

/// The visibility flag.
pub fn get_overlay_visible(state: &AppState) -> (visible: bool)
    ensures
        visible == state.overlay_visible,
{
    state.overlay_visible
}

/// Records the code of the last session, or that there is none, and asks for
/// the settings to be written.
pub fn set_last_session_code(state: &mut AppState, code: Option<String>) -> (plan: Plan)
    ensures
        final(state).settings.last_session_code == code,
        final(state).settings.overlay == old(state).settings.overlay,
        final(state).settings.font == old(state).settings.font,
        final(state).settings.connection == old(state).settings.connection,
        final(state).settings.theme == old(state).settings.theme,
        final(state).overlay_visible == old(state).overlay_visible,
        plan@ == persist_plan(),
{
    state.settings.last_session_code = code;
    persist()
}

/// The code of the last session, if one is recorded.
pub fn get_last_session_code(state: &AppState) -> (code: Option<String>)
    ensures
        code == state.settings.last_session_code,
{
    match &state.settings.last_session_code {
        Some(code) => Some(code.clone()),
        None => None,
    }
}

/// Wraps `text` as a caption and gives the plan that publishes it to every
/// listening window. Only a failure to publish fails the command.
pub fn broadcast_caption(text: String) -> (broadcast: (CaptionPayload, Plan))
    ensures
        broadcast.0.text == text,
        broadcast.1@ == broadcast_plan(),
{
    let mut steps = Vec::new();
    steps.push(Step::required(Effect::Emit { signal: Signal::CaptionUpdate, recipient: None }));
    (CaptionPayload { text }, Plan::new(steps, None, None))
}

/// Shows and focuses the main window and has it open its settings panel.
pub fn show_main_with_settings(presence: Presence) -> (plan: Plan)
    ensures
        plan@ == show_main_with_settings_plan(presence.main),
{
    let mut steps = Vec::new();
    if presence.main {
        steps.push(Step::call(WindowId::Main, WindowOp::Show));
        steps.push(Step::call(WindowId::Main, WindowOp::SetFocus));
        steps.push(
            Step::required(
                Effect::Emit { signal: Signal::OpenSettings, recipient: Some(WindowId::Main) },
            ),
        );
    }
    assert(steps@ =~= show_main_with_settings_plan(presence.main).steps);
    Plan::new(steps, None, None)
}

/// Ends the application: closes the overlay, lowers the flag, closes the main
/// window and exits with code 0. Where the main window cannot be closed the
/// command fails and the process stays.
pub fn close_app(presence: Presence) -> (plan: Plan)
    ensures
        plan@ == close_app_plan(presence),
{
    let mut steps = Vec::new();
    if presence.overlay {
        steps.push(Step::attempt(WindowId::Overlay, WindowOp::Close));
    }
    if presence.main {
        steps.push(Step::call(WindowId::Main, WindowOp::Close));
    }
    steps.push(Step::required(Effect::Exit { code: 0 }));
    assert(steps@ =~= close_app_steps(presence));
    Plan::new(steps, Some(false), Some(false))
}

} // verus!
