//! What holds of the shell whatever the triggers and their order. The laws
//! on windows are stated over the model of the native windows.

use crate::commands::{
    close_overlay_plan, hide_overlay_plan, show_overlay_plan, toggle_overlay_plan,
};
use crate::desktop::{fails, play, Desktop, WindowState, World};
use crate::effect::{Effect, Step, WindowId, WindowOp};
use crate::plan::{flagless, Cursor, PlanView};
use crate::settings::{
    is_opacity, loaded, AppSettingsView, OverlaySettings, PartialSettingsView, StoredSettings,
};
use crate::window_manager::{creation_steps, overlay_steps, Platform};
use crate::{close_requested_plan, show_main_window_plan, spawn_show_overlay_window_plan};
use vstd::prelude::*;

verus! {

/// Writing a record and loading what was written gives the record back.
pub proof fn lemma_saved_settings_load_back(settings: AppSettingsView)
    ensures
        settings.stored().completed() == settings,
{
}

/// The initial opacity lies between transparent and opaque, and a record
/// that is written and loaded keeps its opacity where it lies.
pub proof fn lemma_opacity_stays_valid(settings: AppSettingsView)
    ensures
        is_opacity(AppSettingsView::initial().overlay.opacity_bits),
        is_opacity(settings.stored().completed().overlay.opacity_bits) == is_opacity(
            settings.overlay.opacity_bits,
        ),
{
}

/// A settings file that names no field loads as the initial record, as a
/// missing, an unreadable and a malformed file do.
pub proof fn lemma_nothing_stored_loads_initial()
    ensures
        PartialSettingsView::blank().completed() == AppSettingsView::initial(),
        loaded(StoredSettings::Missing) == AppSettingsView::initial(),
        loaded(StoredSettings::Unreadable) == AppSettingsView::initial(),
        loaded(StoredSettings::Malformed) == AppSettingsView::initial(),
{
}

/// A record that lacks nothing but the font colour loads as itself with the
/// initial font colour.
pub proof fn lemma_missing_font_color_is_filled(settings: AppSettingsView)
    ensures
        ({
            let stored = settings.stored();
            let without = PartialSettingsView {
                font: crate::settings::PartialFontView { color: None, ..stored.font },
                ..stored
            };
            without.completed() == (AppSettingsView {
                font: crate::settings::FontSettingsView {
                    color: AppSettingsView::initial().font.color,
                    ..settings.font
                },
                ..settings
            })
        }),
{
}

/// How many overlay windows the steps build.
pub open spec fn overlay_builds(steps: Seq<Step>) -> nat
    decreases steps.len(),
{
    if steps.len() == 0 {
        0
    } else {
        overlay_builds(steps.drop_last()) + (match steps.last().effect {
            Effect::Window { target: WindowId::Overlay, op: WindowOp::Build(_) } => 1nat,
            _ => 0nat,
        })
    }
}

/// A plan without steps asks nothing of the host: the windows stay as they
/// are and the plan cannot fail.
pub proof fn lemma_no_steps_no_change(plan: PlanView, desktop: Desktop, succeeds: spec_fn(Cursor) -> bool)
    requires
        plan.steps.len() == 0,
    ensures
        play(plan, Cursor::start(), desktop, succeeds) == (Cursor::start(), desktop),
        !fails(plan, desktop, succeeds),
{
}

/// Creation is idempotent. Creating the overlay twice in a row, with no
/// close in between, leaves exactly one overlay window, provided the first
/// creation got the window built where there was none. The window exists
/// after the first creation; the first creation builds one window where
/// there was none and no window where there was one; the second creation
/// makes no native call at all, so it builds nothing, leaves the windows
/// alone and does not fail.
pub proof fn lemma_creation_is_idempotent(
    desktop: Desktop,
    platform: Platform,
    settings: OverlaySettings,
    first_succeeds: spec_fn(Cursor) -> bool,
    second_succeeds: spec_fn(Cursor) -> bool,
)
    requires
        desktop.overlay.spec_is_present() || first_succeeds(Cursor::start()),
    ensures
        ({
            let first = flagless(creation_steps(desktop.spec_presence().overlay, platform, settings));
            let created = play(first, Cursor::start(), desktop, first_succeeds).1;
            let second = flagless(creation_steps(created.spec_presence().overlay, platform, settings));
            &&& created.overlay.spec_is_present()
            &&& created.main == desktop.main
            &&& overlay_builds(first.steps) == (if desktop.overlay.spec_is_present() {
                0nat
            } else {
                1nat
            })
            &&& second.steps.len() == 0
            &&& overlay_builds(second.steps) == 0
            &&& play(second, Cursor::start(), created, second_succeeds).1 == created
            &&& !fails(second, created, second_succeeds)
        }),
{
    let first = flagless(creation_steps(desktop.spec_presence().overlay, platform, settings));
    reveal_with_fuel(play, 4);
    reveal_with_fuel(overlay_builds, 4);
    if !desktop.overlay.spec_is_present() {
        if settings.click_through {
            assert(first.steps.drop_last().drop_last().drop_last().len() == 0);
        } else {
            assert(first.steps.drop_last().drop_last().len() == 0);
        }
    }
}

/// The overlay window has three states, and the controller moves it between
/// them as follows when its calls succeed: creation takes an absent window on
/// screen and leaves an existing one alone; showing and hiding take an
/// existing window on and off screen and do nothing to an absent one;
/// closing leaves no window; moving, resizing and click-through change
/// neither existence nor visibility. None of them touches the main window.
pub proof fn lemma_controller_transitions(
    desktop: Desktop,
    platform: Platform,
    settings: OverlaySettings,
    op: WindowOp,
    succeeds: spec_fn(Cursor) -> bool,
)
    requires
        forall|at: Cursor| #[trigger] succeeds(at),
        op !is Build,
    ensures
        ({
            let present = desktop.overlay.spec_is_present();
            let created = play(
                flagless(creation_steps(present, platform, settings)),
                Cursor::start(),
                desktop,
                succeeds,
            ).1;
            let called = play(flagless(overlay_steps(present, op)), Cursor::start(), desktop, succeeds).1;
            &&& created.main == desktop.main
            &&& created.overlay == (if present {
                desktop.overlay
            } else {
                WindowState::Visible
            })
            &&& called.main == desktop.main
            &&& called.overlay == (match op {
                WindowOp::Show => if present {
                    WindowState::Visible
                } else {
                    WindowState::Absent
                },
                WindowOp::Hide => if present {
                    WindowState::Hidden
                } else {
                    WindowState::Absent
                },
                WindowOp::Close => WindowState::Absent,
                _ => desktop.overlay,
            })
        }),
{
    reveal_with_fuel(play, 4);
    assert(succeeds(Cursor { failed: false, index: 0 }));
    assert(succeeds(Cursor { failed: false, index: 1 }));
    assert(succeeds(Cursor { failed: false, index: 2 }));
}

/// The commands of the user interface that act on the overlay.
pub enum OverlayCommand {
    Show,
    Hide,
    Close,
    Toggle,
}

/// One command as it is issued: on a platform, with the overlay settings of
/// the moment, and with the fate of each effect that it leads to.
pub struct Invocation {
    pub command: OverlayCommand,
    pub platform: Platform,
    pub settings: OverlaySettings,
    pub succeeds: spec_fn(Cursor) -> bool,
}

impl Invocation {
    /// Whether the command sets out to show the overlay in `world`.
    pub open spec fn shows(self, world: World) -> bool {
        match self.command {
            OverlayCommand::Show => true,
            OverlayCommand::Toggle => !world.overlay_visible,
            _ => false,
        }
    }

    /// The plan that the command gives in `world`.
    pub open spec fn plan(self, world: World) -> PlanView {
        let present = world.desktop.spec_presence().overlay;
        match self.command {
            OverlayCommand::Show => show_overlay_plan(present, self.platform, self.settings),
            OverlayCommand::Hide => hide_overlay_plan(present),
            OverlayCommand::Close => close_overlay_plan(present),
            OverlayCommand::Toggle => toggle_overlay_plan(
                world.overlay_visible,
                present,
                self.platform,
                self.settings,
            ),
        }
    }

    /// Whether the command leaves a creation half done in `world`: there is
    /// no overlay window, the command builds one, and a later step of the
    /// creation fails.
    pub open spec fn stops_half_way(self, world: World) -> bool {
        &&& self.shows(world)
        &&& !world.desktop.overlay.spec_is_present()
        &&& (self.succeeds)(Cursor::start())
        &&& fails(self.plan(world), world.desktop, self.succeeds)
    }
}

/// The world after the commands were carried out one after the other.
pub open spec fn after_commands(world: World, invocations: Seq<Invocation>) -> World
    decreases invocations.len(),
{
    if invocations.len() == 0 {
        world
    } else {
        let earlier = after_commands(world, invocations.drop_last());
        earlier.carry_out(invocations.last().plan(earlier), invocations.last().succeeds)
    }
}

/// Whether none of the commands leaves a creation half done.
pub open spec fn no_creation_stops_half_way(world: World, invocations: Seq<Invocation>) -> bool
    decreases invocations.len(),
{
    invocations.len() == 0 || (no_creation_stops_half_way(world, invocations.drop_last())
        && !invocations.last().stops_half_way(after_commands(world, invocations.drop_last())))
}

/// A command keeps the flag and the overlay window consistent, whichever of
/// its effects fail, unless it leaves a creation half done: afterwards the
/// flag is up exactly when the overlay window exists and is shown.
pub proof fn lemma_command_keeps_consistency(world: World, invocation: Invocation)
    requires
        world.consistent(),
        !invocation.stops_half_way(world),
    ensures
        world.carry_out(invocation.plan(world), invocation.succeeds).consistent(),
{
    reveal_with_fuel(play, 4);
}

/// Flag and window stay consistent. After any sequence of show, hide, close
/// and toggle commands, the flag is up exactly when the overlay window
/// exists and is shown. Effects may fail; only a creation that builds the
/// window and then fails is left out, for it leaves a window on screen that
/// the flag does not know of.
pub proof fn lemma_commands_keep_consistency(world: World, invocations: Seq<Invocation>)
    requires
        world.consistent(),
        no_creation_stops_half_way(world, invocations),
    ensures
        after_commands(world, invocations).consistent(),
    decreases invocations.len(),
{
    if invocations.len() > 0 {
        lemma_commands_keep_consistency(world, invocations.drop_last());
        lemma_command_keeps_consistency(
            after_commands(world, invocations.drop_last()),
            invocations.last(),
        );
    }
}

/// A creation that stops half way does break the consistency: the overlay
/// window is on screen and the flag is down.
pub proof fn lemma_half_creation_leaves_unknown_window(world: World, invocation: Invocation)
    requires
        world.consistent(),
        invocation.stops_half_way(world),
    ensures
        ({
            let after = world.carry_out(invocation.plan(world), invocation.succeeds);
            &&& after.desktop.overlay == WindowState::Visible
            &&& !after.overlay_visible
        }),
{
    reveal_with_fuel(play, 4);
}

/// The flag is never ahead of the window. Whichever effects of a command
/// fail, if the flag was up only with the overlay window on screen before,
/// it is so afterwards.
pub proof fn lemma_command_keeps_flag_backed(world: World, invocation: Invocation)
    requires
        world.flag_is_backed(),
    ensures
        world.carry_out(invocation.plan(world), invocation.succeeds).flag_is_backed(),
{
    reveal_with_fuel(play, 4);
}

/// The flag is never ahead of the window, after any sequence of show, hide,
/// close and toggle commands and whichever of their effects fail.
pub proof fn lemma_commands_keep_flag_backed(world: World, invocations: Seq<Invocation>)
    requires
        world.flag_is_backed(),
    ensures
        after_commands(world, invocations).flag_is_backed(),
    decreases invocations.len(),
{
    if invocations.len() > 0 {
        lemma_commands_keep_flag_backed(world, invocations.drop_last());
        lemma_command_keeps_flag_backed(
            after_commands(world, invocations.drop_last()),
            invocations.last(),
        );
    }
}

/// Closing the main window takes the overlay along. When the main window is
/// asked to close while the overlay is on screen, and the call that closes
/// the overlay succeeds, the overlay window is gone and the flag is down.
/// The flag is down even where that call fails.
pub proof fn lemma_main_close_cascades(world: World, succeeds: spec_fn(Cursor) -> bool)
    requires
        world.desktop.overlay == WindowState::Visible,
    ensures
        ({
            let after = world.carry_out(
                close_requested_plan(WindowId::Main, world.desktop.spec_presence()),
                succeeds,
            );
            &&& succeeds(Cursor::start()) ==> after.desktop.overlay == WindowState::Absent
            &&& !after.overlay_visible
        }),
{
    reveal_with_fuel(play, 2);
}

/// Closing the overlay does not touch the main window. When the overlay
/// window is asked to close, no native call is made, the main window stays
/// as it is, and the flag is down.
pub proof fn lemma_overlay_close_leaves_main(world: World, succeeds: spec_fn(Cursor) -> bool)
    ensures
        ({
            let plan = close_requested_plan(WindowId::Overlay, world.desktop.spec_presence());
            let after = world.carry_out(plan, succeeds);
            &&& plan.steps.len() == 0
            &&& after.desktop == world.desktop
            &&& !after.overlay_visible
        }),
{
}

/// The close command does not touch the main window either: whatever comes
/// of it the main window stays as it is, and unless the call that closes the
/// overlay fails, the overlay window is gone and the flag is down.
pub proof fn lemma_close_command_leaves_main(world: World, succeeds: spec_fn(Cursor) -> bool)
    ensures
        ({
            let plan = close_overlay_plan(world.desktop.spec_presence().overlay);
            let after = world.carry_out(plan, succeeds);
            &&& after.desktop.main == world.desktop.main
            &&& !fails(plan, world.desktop, succeeds) ==> after.desktop.overlay
                == WindowState::Absent && !after.overlay_visible
        }),
{
    reveal_with_fuel(play, 2);
}

/// The way over to the overlay from the tray does not strand the user. If
/// the main window is on screen, the creation of the overlay fails and the
/// call that shows the main window again succeeds, then the main window is
/// on screen afterwards and the flag is as it was.
pub proof fn lemma_failed_creation_restores_main(
    world: World,
    platform: Platform,
    settings: OverlaySettings,
    succeeds: spec_fn(Cursor) -> bool,
)
    requires
        world.desktop.main == WindowState::Visible,
        fails(
            spawn_show_overlay_window_plan(world.desktop.spec_presence(), platform, settings),
            world.desktop,
            succeeds,
        ),
        succeeds(Cursor { failed: true, index: 0 }),
    ensures
        ({
            let plan = spawn_show_overlay_window_plan(
                world.desktop.spec_presence(),
                platform,
                settings,
            );
            let after = world.carry_out(plan, succeeds);
            &&& after.desktop.main == WindowState::Visible
            &&& after.overlay_visible == world.overlay_visible
        }),
{
    reveal_with_fuel(play, 6);
}

/// The tray leads back to the main window. Where both windows exist and
/// every call succeeds, the main window is on screen afterwards and the
/// overlay is hidden; the flag is down whatever fails.
pub proof fn lemma_show_main_hides_overlay(world: World, succeeds: spec_fn(Cursor) -> bool)
    ensures
        ({
            let after = world.carry_out(
                show_main_window_plan(world.desktop.spec_presence()),
                succeeds,
            );
            &&& !after.overlay_visible
            &&& (forall|at: Cursor| #[trigger] succeeds(at)) ==> {
                &&& after.desktop.overlay != WindowState::Visible
                &&& world.desktop.main.spec_is_present() ==> after.desktop.main
                    == WindowState::Visible
            }
        }),
{
    reveal_with_fuel(play, 4);
    let plan = show_main_window_plan(world.desktop.spec_presence());
    if forall|at: Cursor| #[trigger] succeeds(at) {
        assert(succeeds(Cursor { failed: false, index: 0 }));
        assert(succeeds(Cursor { failed: false, index: 1 }));
        assert(succeeds(Cursor { failed: false, index: 2 }));
    }
}

/// The tray leads over to the overlay. Where every call succeeds, the
/// overlay is on screen afterwards, the main window is not, and the flag is
/// up.
pub proof fn lemma_tray_shows_overlay(
    world: World,
    platform: Platform,
    settings: OverlaySettings,
    succeeds: spec_fn(Cursor) -> bool,
)
    requires
        forall|at: Cursor| #[trigger] succeeds(at),
    ensures
        ({
            let after = world.carry_out(
                spawn_show_overlay_window_plan(world.desktop.spec_presence(), platform, settings),
                succeeds,
            );
            &&& after.desktop.overlay == WindowState::Visible
            &&& after.desktop.main != WindowState::Visible
            &&& after.overlay_visible
        }),
{
    reveal_with_fuel(play, 6);
    assert(succeeds(Cursor { failed: false, index: 0 }));
    assert(succeeds(Cursor { failed: false, index: 1 }));
    assert(succeeds(Cursor { failed: false, index: 2 }));
    assert(succeeds(Cursor { failed: false, index: 3 }));
}

} // verus!
