use overlay_captions::commands;
use overlay_captions::desktop::{Desktop, WindowState};
use overlay_captions::effect::{Effect, Signal, Step, WindowConfig, WindowId, WindowOp};
use overlay_captions::plan::{Execution, Plan, Turn};
use overlay_captions::settings::{AppSettings, Position, Size};
use overlay_captions::window_manager::{
    close_overlay_window, create_overlay_window, hide_overlay_window, set_ignore_cursor_events,
    set_overlay_position, set_overlay_size, show_overlay_window, Platform, Presence,
    OVERLAY_ROUTE, OVERLAY_TITLE,
};
use overlay_captions::AppState;

/// Performs a plan on the model windows. The effects listed in `failing`
/// fail and leave the windows alone. Returns the effects that the plan asked
/// for, in order, and the result.
fn drive(
    desktop: &mut Desktop,
    state: &mut AppState,
    plan: Plan,
    failing: &[Effect],
) -> (Vec<Effect>, Result<(), String>) {
    let mut asked = Vec::new();
    let mut run = Execution::start(plan);
    loop {
        match run.turn(state) {
            Turn::Perform(effect) => {
                asked.push(effect);
                if failing.contains(&effect) {
                    run.report(Err(format!("native failure {}", asked.len())));
                } else {
                    *desktop = desktop.after(effect);
                    run.report(Ok(()));
                }
            }
            Turn::Finished(result) => return (asked, result),
        }
    }
}

fn fresh() -> (Desktop, AppState) {
    (
        Desktop { main: WindowState::Visible, overlay: WindowState::Absent },
        AppState::new(AppSettings::default()),
    )
}

fn on_overlay(op: WindowOp) -> Effect {
    Effect::Window { target: WindowId::Overlay, op }
}

fn on_main(op: WindowOp) -> Effect {
    Effect::Window { target: WindowId::Main, op }
}

fn default_overlay_on(platform: Platform) -> WindowConfig {
    WindowConfig {
        size: Size { width: 600, height: 160 },
        position: Position { x: 500, y: 600 },
        decorations: false,
        transparent: platform != Platform::Windows,
        always_on_top: true,
        skip_taskbar: true,
        resizable: true,
        visible: true,
        visible_on_all_workspaces: platform == Platform::MacOs,
    }
}

#[test]
fn toggle_creates_and_shows_then_hides() {
    let (mut desktop, mut state) = fresh();
    assert_eq!(state.settings.overlay.enabled, false);
    assert_eq!(commands::get_overlay_visible(&state), false);

    let plan = commands::toggle_overlay(&state, desktop.presence(), Platform::Linux);
    let (asked, result) = drive(&mut desktop, &mut state, plan, &[]);
    assert_eq!(result, Ok(()));
    assert_eq!(
        asked,
        vec![
            on_overlay(WindowOp::Build(default_overlay_on(Platform::Linux))),
            on_overlay(WindowOp::SetAlwaysOnTop(true)),
        ]
    );
    assert_eq!(desktop.overlay, WindowState::Visible);
    assert_eq!(commands::get_overlay_visible(&state), true);

    let plan = commands::toggle_overlay(&state, desktop.presence(), Platform::Linux);
    let (asked, result) = drive(&mut desktop, &mut state, plan, &[]);
    assert_eq!(result, Ok(()));
    assert_eq!(asked, vec![on_overlay(WindowOp::Hide)]);
    assert_eq!(desktop.overlay, WindowState::Hidden);
    assert_eq!(commands::get_overlay_visible(&state), false);
}

#[test]
fn third_toggle_shows_the_hidden_window_again() {
    let (mut desktop, mut state) = fresh();
    for _ in 0..2 {
        let plan = commands::toggle_overlay(&state, desktop.presence(), Platform::MacOs);
        drive(&mut desktop, &mut state, plan, &[]).1.unwrap();
    }
    let plan = commands::toggle_overlay(&state, desktop.presence(), Platform::MacOs);
    let (asked, result) = drive(&mut desktop, &mut state, plan, &[]);
    assert_eq!(result, Ok(()));
    assert_eq!(asked, vec![on_overlay(WindowOp::Show)]);
    assert_eq!(desktop.overlay, WindowState::Visible);
    assert_eq!(state.overlay_visible, true);
}

#[test]
fn creation_builds_the_window_from_the_settings() {
    let mut settings = AppSettings::default().overlay;
    settings.position = Position { x: -20, y: 35 };
    settings.size = Size { width: 800, height: 120 };
    settings.always_on_top = false;
    let steps = create_overlay_window(false, Platform::Linux, &settings);
    let mut config = default_overlay_on(Platform::Linux);
    config.position = Position { x: -20, y: 35 };
    config.size = Size { width: 800, height: 120 };
    assert_eq!(
        steps,
        vec![
            Step { effect: on_overlay(WindowOp::Build(config)), required: true },
            Step { effect: on_overlay(WindowOp::SetAlwaysOnTop(true)), required: true },
        ]
    );
}

#[test]
fn creation_applies_click_through_when_enabled() {
    let mut settings = AppSettings::default().overlay;
    settings.click_through = true;
    let steps = create_overlay_window(false, Platform::Windows, &settings);
    assert_eq!(
        steps,
        vec![
            Step {
                effect: on_overlay(WindowOp::Build(default_overlay_on(Platform::Windows))),
                required: true
            },
            Step { effect: on_overlay(WindowOp::SetAlwaysOnTop(true)), required: true },
            Step { effect: on_overlay(WindowOp::SetIgnoreCursorEvents(true)), required: true },
        ]
    );
}

#[test]
fn transparency_is_native_everywhere_but_on_windows() {
    assert_eq!(Platform::MacOs.native_transparency(), true);
    assert_eq!(Platform::Linux.native_transparency(), true);
    assert_eq!(Platform::Windows.native_transparency(), false);
    assert_eq!(Platform::MacOs.spans_workspaces(), true);
    assert_eq!(Platform::Linux.spans_workspaces(), false);
    assert_eq!(Platform::Windows.spans_workspaces(), false);
    let settings = AppSettings::default().overlay;
    for platform in [Platform::MacOs, Platform::Windows, Platform::Linux] {
        let steps = create_overlay_window(false, platform, &settings);
        assert_eq!(steps[0].effect, on_overlay(WindowOp::Build(default_overlay_on(platform))));
    }
    assert_eq!(OVERLAY_TITLE, "Captions");
    assert_eq!(OVERLAY_ROUTE, "/overlay");
}

#[test]
fn creating_twice_leaves_one_window_and_no_error() {
    let (mut desktop, mut state) = fresh();
    let settings = state.settings.overlay.clone();

    let first = create_overlay_window(desktop.presence().overlay, Platform::Linux, &settings);
    let builds = first
        .iter()
        .filter(|step| matches!(step.effect, Effect::Window { op: WindowOp::Build(_), .. }))
        .count();
    assert_eq!(builds, 1);
    let (_, result) = drive(&mut desktop, &mut state, Plan::new(first, None, None), &[]);
    assert_eq!(result, Ok(()));
    assert_eq!(desktop.overlay, WindowState::Visible);

    let second = create_overlay_window(desktop.presence().overlay, Platform::Linux, &settings);
    assert_eq!(second, vec![]);
    let before = desktop;
    let (asked, result) = drive(&mut desktop, &mut state, Plan::new(second, None, None), &[]);
    assert_eq!(asked, vec![]);
    assert_eq!(result, Ok(()));
    assert_eq!(desktop, before);
}

#[test]
fn window_calls_are_silent_on_an_absent_window() {
    assert_eq!(show_overlay_window(false), vec![]);
    assert_eq!(hide_overlay_window(false), vec![]);
    assert_eq!(close_overlay_window(false), vec![]);
    assert_eq!(set_ignore_cursor_events(false, true), vec![]);
    assert_eq!(set_overlay_position(false, 1, 2), vec![]);
    assert_eq!(set_overlay_size(false, 3, 4), vec![]);
}

#[test]
fn window_calls_reach_a_present_window() {
    let required = |op| vec![Step { effect: on_overlay(op), required: true }];
    assert_eq!(show_overlay_window(true), required(WindowOp::Show));
    assert_eq!(hide_overlay_window(true), required(WindowOp::Hide));
    assert_eq!(close_overlay_window(true), required(WindowOp::Close));
    assert_eq!(
        set_ignore_cursor_events(true, false),
        required(WindowOp::SetIgnoreCursorEvents(false))
    );
    assert_eq!(
        set_overlay_position(true, -7, 9),
        required(WindowOp::SetPosition(Position { x: -7, y: 9 }))
    );
    assert_eq!(
        set_overlay_size(true, 640, 200),
        required(WindowOp::SetSize(Size { width: 640, height: 200 }))
    );
}

#[test]
fn geometry_commands_leave_the_flag_alone() {
    let (mut desktop, mut state) = fresh();
    desktop.overlay = WindowState::Hidden;
    let presence = desktop.presence();
    for plan in [
        commands::set_overlay_position(presence, 10, 20),
        commands::set_overlay_size(presence, 300, 100),
        commands::set_click_through(presence, true),
    ] {
        assert_eq!(plan.steps.len(), 1);
        assert_eq!(plan.on_success, None);
        assert_eq!(plan.on_failure, None);
        let (_, result) = drive(&mut desktop, &mut state, plan, &[]);
        assert_eq!(result, Ok(()));
        assert_eq!(desktop.overlay, WindowState::Hidden);
        assert_eq!(state.overlay_visible, false);
    }
    let absent = Presence { main: true, overlay: false };
    assert_eq!(commands::set_overlay_position(absent, 10, 20).steps, vec![]);
    assert_eq!(commands::set_overlay_size(absent, 300, 100).steps, vec![]);
    assert_eq!(commands::set_click_through(absent, true).steps, vec![]);
}

#[test]
fn flag_follows_the_window_through_a_sequence_of_commands() {
    let (mut desktop, mut state) = fresh();
    let script = ["show", "toggle", "toggle", "hide", "hide", "show", "close", "hide", "toggle",
        "close", "close", "toggle", "show", "show"];
    for command in script {
        let presence = desktop.presence();
        let plan = match command {
            "show" => commands::show_overlay(&state, presence, Platform::Windows),
            "hide" => commands::hide_overlay(presence),
            "close" => commands::close_overlay(presence),
            _ => commands::toggle_overlay(&state, presence, Platform::Windows),
        };
        let (_, result) = drive(&mut desktop, &mut state, plan, &[]);
        assert_eq!(result, Ok(()));
        assert_eq!(
            commands::get_overlay_visible(&state),
            desktop.overlay == WindowState::Visible,
            "after {command}"
        );
        assert_eq!(desktop.main, WindowState::Visible);
    }
    assert_eq!(desktop.overlay, WindowState::Visible);
}

#[test]
fn close_then_show_builds_a_new_window() {
    let (mut desktop, mut state) = fresh();
    let plan = commands::show_overlay(&state, desktop.presence(), Platform::Linux);
    drive(&mut desktop, &mut state, plan, &[]).1.unwrap();
    let plan = commands::close_overlay(desktop.presence());
    let (asked, result) = drive(&mut desktop, &mut state, plan, &[]);
    assert_eq!(asked, vec![on_overlay(WindowOp::Close)]);
    assert_eq!(result, Ok(()));
    assert_eq!(desktop.overlay, WindowState::Absent);
    assert_eq!(state.overlay_visible, false);
    let plan = commands::show_overlay(&state, desktop.presence(), Platform::Linux);
    let (asked, _) = drive(&mut desktop, &mut state, plan, &[]);
    assert_eq!(asked[0], on_overlay(WindowOp::Build(default_overlay_on(Platform::Linux))));
    assert_eq!(desktop.overlay, WindowState::Visible);
    assert_eq!(state.overlay_visible, true);
}

#[test]
fn failed_build_reports_the_failure_and_keeps_the_flag() {
    let (mut desktop, mut state) = fresh();
    let build = on_overlay(WindowOp::Build(default_overlay_on(Platform::Linux)));
    let plan = commands::show_overlay(&state, desktop.presence(), Platform::Linux);
    let (asked, result) = drive(&mut desktop, &mut state, plan, &[build]);
    assert_eq!(asked, vec![build]);
    assert_eq!(result, Err("native failure 1".to_string()));
    assert_eq!(desktop.overlay, WindowState::Absent);
    assert_eq!(state.overlay_visible, false);
}

#[test]
fn failure_after_the_build_keeps_the_flag_down() {
    let (mut desktop, mut state) = fresh();
    state.settings.overlay.click_through = true;
    let pin = on_overlay(WindowOp::SetAlwaysOnTop(true));
    let plan = commands::toggle_overlay(&state, desktop.presence(), Platform::Linux);
    let (asked, result) = drive(&mut desktop, &mut state, plan, &[pin]);
    assert_eq!(asked.len(), 2);
    assert_eq!(result, Err("native failure 2".to_string()));
    assert_eq!(state.overlay_visible, false);
}

#[test]
fn failed_hide_keeps_the_flag_up() {
    let (mut desktop, mut state) = fresh();
    let plan = commands::show_overlay(&state, desktop.presence(), Platform::Linux);
    drive(&mut desktop, &mut state, plan, &[]).1.unwrap();
    let plan = commands::hide_overlay(desktop.presence());
    let (_, result) = drive(&mut desktop, &mut state, plan, &[on_overlay(WindowOp::Hide)]);
    assert_eq!(result, Err("native failure 1".to_string()));
    assert_eq!(desktop.overlay, WindowState::Visible);
    assert_eq!(state.overlay_visible, true);
}

#[test]
fn hide_without_a_window_lowers_the_flag() {
    let (mut desktop, mut state) = fresh();
    let plan = commands::hide_overlay(desktop.presence());
    let (asked, result) = drive(&mut desktop, &mut state, plan, &[]);
    assert_eq!(asked, vec![]);
    assert_eq!(result, Ok(()));
    assert_eq!(state.overlay_visible, false);
}

#[test]
fn main_window_with_settings_is_shown_focused_and_signalled() {
    let (mut desktop, mut state) = fresh();
    desktop.main = WindowState::Hidden;
    let plan = commands::show_main_with_settings(desktop.presence());
    let (asked, result) = drive(&mut desktop, &mut state, plan, &[]);
    assert_eq!(
        asked,
        vec![
            on_main(WindowOp::Show),
            on_main(WindowOp::SetFocus),
            Effect::Emit { signal: Signal::OpenSettings, recipient: Some(WindowId::Main) },
        ]
    );
    assert_eq!(result, Ok(()));
    assert_eq!(desktop.main, WindowState::Visible);
    assert_eq!(Signal::OpenSettings.channel(), "open-settings");
}

#[test]
fn main_window_with_settings_stops_at_the_first_failure() {
    let (mut desktop, mut state) = fresh();
    let plan = commands::show_main_with_settings(desktop.presence());
    let (asked, result) =
        drive(&mut desktop, &mut state, plan, &[on_main(WindowOp::SetFocus)]);
    assert_eq!(asked, vec![on_main(WindowOp::Show), on_main(WindowOp::SetFocus)]);
    assert_eq!(result, Err("native failure 2".to_string()));
}

#[test]
fn main_window_with_settings_does_nothing_without_a_main_window() {
    let plan = commands::show_main_with_settings(Presence { main: false, overlay: true });
    assert_eq!(plan.steps, vec![]);
}

#[test]
fn caption_is_published_to_every_listener() {
    let (payload, plan) = commands::broadcast_caption("Tere, maailm!".to_string());
    assert_eq!(payload.text, "Tere, maailm!");
    assert_eq!(payload.clone(), payload);
    assert_eq!(
        plan.steps,
        vec![Step {
            effect: Effect::Emit { signal: Signal::CaptionUpdate, recipient: None },
            required: true
        }]
    );
    assert_eq!(plan.on_success, None);
    assert_eq!(Signal::CaptionUpdate.channel(), "caption-update");
}

#[test]
fn closing_the_application_closes_both_windows_and_exits() {
    let (mut desktop, mut state) = fresh();
    let plan = commands::show_overlay(&state, desktop.presence(), Platform::Linux);
    drive(&mut desktop, &mut state, plan, &[]).1.unwrap();
    let plan = commands::close_app(desktop.presence());
    let (asked, result) = drive(&mut desktop, &mut state, plan, &[]);
    assert_eq!(
        asked,
        vec![on_overlay(WindowOp::Close), on_main(WindowOp::Close), Effect::Exit { code: 0 }]
    );
    assert_eq!(result, Ok(()));
    assert_eq!(desktop, Desktop { main: WindowState::Absent, overlay: WindowState::Absent });
    assert_eq!(state.overlay_visible, false);
}

#[test]
fn application_stays_when_the_main_window_cannot_close() {
    let (mut desktop, mut state) = fresh();
    let plan = commands::show_overlay(&state, desktop.presence(), Platform::Linux);
    drive(&mut desktop, &mut state, plan, &[]).1.unwrap();
    let plan = commands::close_app(desktop.presence());
    let (asked, result) = drive(&mut desktop, &mut state, plan, &[on_main(WindowOp::Close)]);
    assert_eq!(asked, vec![on_overlay(WindowOp::Close), on_main(WindowOp::Close)]);
    assert_eq!(result, Err("native failure 2".to_string()));
    assert_eq!(state.overlay_visible, false);
}

#[test]
fn application_exits_though_the_overlay_cannot_close() {
    let (mut desktop, mut state) = fresh();
    desktop.overlay = WindowState::Hidden;
    let plan = commands::close_app(desktop.presence());
    let (asked, result) =
        drive(&mut desktop, &mut state, plan, &[on_overlay(WindowOp::Close)]);
    assert_eq!(asked.last(), Some(&Effect::Exit { code: 0 }));
    assert_eq!(result, Ok(()));
}

#[test]
fn report_without_a_pending_effect_changes_nothing() {
    let mut state = AppState::new(AppSettings::default());
    let mut run = Execution::start(Plan::new(vec![], Some(true), None));
    run.report(Err("late".to_string()));
    assert_eq!(run.turn(&mut state), Turn::Finished(Ok(())));
    assert_eq!(state.overlay_visible, true);
}

#[test]
fn failed_optional_step_is_passed_over() {
    let (mut desktop, mut state) = fresh();
    desktop.overlay = WindowState::Visible;
    let steps = vec![
        Step::attempt(WindowId::Overlay, WindowOp::Hide),
        Step::call(WindowId::Main, WindowOp::Hide),
    ];
    let (asked, result) = drive(
        &mut desktop,
        &mut state,
        Plan::new(steps, Some(true), Some(false)),
        &[on_overlay(WindowOp::Hide)],
    );
    assert_eq!(asked.len(), 2);
    assert_eq!(result, Ok(()));
    assert_eq!(desktop, Desktop { main: WindowState::Hidden, overlay: WindowState::Visible });
    assert_eq!(state.overlay_visible, true);
}

#[test]
fn model_host_carries_a_plan_out() {
    let (mut desktop, mut state) = fresh();
    let plan = commands::show_overlay(&state, desktop.presence(), Platform::Linux);
    assert_eq!(desktop.carry_out(plan, &mut state), Ok(()));
    assert_eq!(desktop.overlay, WindowState::Visible);
    assert_eq!(state.overlay_visible, true);
    assert_eq!(state.settings, AppSettings::default());
}

#[test]
fn model_windows_follow_the_calls() {
    let config = default_overlay_on(Platform::Linux);
    assert_eq!(WindowState::Absent.after(WindowOp::Build(config)), WindowState::Visible);
    let mut unseen = config;
    unseen.visible = false;
    assert_eq!(WindowState::Absent.after(WindowOp::Build(unseen)), WindowState::Hidden);
    assert_eq!(WindowState::Absent.after(WindowOp::Show), WindowState::Absent);
    assert_eq!(WindowState::Hidden.after(WindowOp::Show), WindowState::Visible);
    assert_eq!(WindowState::Visible.after(WindowOp::Hide), WindowState::Hidden);
    assert_eq!(WindowState::Absent.after(WindowOp::Hide), WindowState::Absent);
    assert_eq!(WindowState::Visible.after(WindowOp::Close), WindowState::Absent);
    assert_eq!(WindowState::Hidden.after(WindowOp::SetFocus), WindowState::Hidden);
    assert_eq!(WindowState::Visible.after(WindowOp::SetAlwaysOnTop(true)), WindowState::Visible);
    assert!(!WindowState::Absent.is_present());
    assert!(WindowState::Hidden.is_present());
    let desktop = Desktop { main: WindowState::Visible, overlay: WindowState::Absent };
    assert_eq!(desktop.presence(), Presence { main: true, overlay: false });
    assert_eq!(desktop.after(Effect::PersistSettings), desktop);
    assert_eq!(desktop.after(Effect::Exit { code: 0 }), desktop);
}
