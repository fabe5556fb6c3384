//! How the desktop shell answers a tray or menu request: whether the pet is
//! shown, whether it stays on top, and which side effects the request needs.

use vstd::prelude::*;

use crate::platform::TrayAction;
use crate::preferences::{normalize_scale_bits, spec_normalize_scale_bits};

verus! {

/// What to do with the pet window.
#[derive(Debug, Clone, Copy, PartialEq, Eq, Structural)]
pub enum WindowCommand {
    Keep,
    Show,
    Hide,
}

/// The outcome of a request: the new visibility and stay-on-top setting,
/// and the effects the shell performs.
#[derive(Debug, Clone, Copy, PartialEq, Eq, Structural)]
pub struct DesktopPlan {
    pub pet_visible: bool,
    pub always_on_top: bool,
    pub window: WindowCommand,
    pub open_settings: bool,
    pub reset_position: bool,
    pub toggle_startup: bool,
    /// The new user scale in percent, for `SetScale`.
    pub scale_percent: Option<u32>,
    /// The preferences changed and must be saved.
    pub save_preferences: bool,
    pub quit: bool,
}

pub open spec fn unchanged_plan(pet_visible: bool, always_on_top: bool) -> DesktopPlan {
    DesktopPlan {
        pet_visible,
        always_on_top,
        window: WindowCommand::Keep,
        open_settings: false,
        reset_position: false,
        toggle_startup: false,
        scale_percent: None,
        save_preferences: false,
        quit: false,
    }
}

pub open spec fn spec_plan_desktop_action(
    action: TrayAction,
    pet_visible: bool,
    always_on_top: bool,
) -> DesktopPlan {
    let keep = unchanged_plan(pet_visible, always_on_top);
    match action {
        TrayAction::Settings => DesktopPlan { open_settings: true, ..keep },
        TrayAction::Show => DesktopPlan { pet_visible: true, window: WindowCommand::Show, ..keep },
        TrayAction::Hide => DesktopPlan { pet_visible: false, window: WindowCommand::Hide, ..keep },
        TrayAction::ToggleVisibility => DesktopPlan {
            pet_visible: !pet_visible,
            window: if pet_visible {
                WindowCommand::Hide
            } else {
                WindowCommand::Show
            },
            ..keep
        },
        TrayAction::ResetPosition => DesktopPlan {
            pet_visible: true,
            window: WindowCommand::Show,
            reset_position: true,
            save_preferences: true,
            ..keep
        },
        TrayAction::ToggleStartup => DesktopPlan { toggle_startup: true, ..keep },
        TrayAction::SetScale(percent) => DesktopPlan {
            scale_percent: Some(percent),
            save_preferences: true,
            ..keep
        },
        TrayAction::ToggleAlwaysOnTop => DesktopPlan {
            always_on_top: !always_on_top,
            save_preferences: true,
            ..keep
        },
        TrayAction::Exit => DesktopPlan { quit: true, ..keep },
    }
}

/// Plans the answer to `action` while the pet is `pet_visible` and the
/// stay-on-top preference is `always_on_top`.
pub fn plan_desktop_action(
    action: TrayAction,
    pet_visible: bool,
    always_on_top: bool,
) -> (plan: DesktopPlan)
    ensures
        plan == spec_plan_desktop_action(action, pet_visible, always_on_top),
{
    let keep = DesktopPlan {
        pet_visible,
        always_on_top,
        window: WindowCommand::Keep,
        open_settings: false,
        reset_position: false,
        toggle_startup: false,
        scale_percent: None,
        save_preferences: false,
        quit: false,
    };
    match action {
        TrayAction::Settings => DesktopPlan { open_settings: true, ..keep },
        TrayAction::Show => DesktopPlan { pet_visible: true, window: WindowCommand::Show, ..keep },
        TrayAction::Hide => DesktopPlan { pet_visible: false, window: WindowCommand::Hide, ..keep },
        TrayAction::ToggleVisibility => DesktopPlan {
            pet_visible: !pet_visible,
            window: if pet_visible {
                WindowCommand::Hide
            } else {
                WindowCommand::Show
            },
            ..keep
        },
        TrayAction::ResetPosition => DesktopPlan {
            pet_visible: true,
            window: WindowCommand::Show,
            reset_position: true,
            save_preferences: true,
            ..keep
        },
        TrayAction::ToggleStartup => DesktopPlan { toggle_startup: true, ..keep },
        TrayAction::SetScale(percent) => DesktopPlan {
            scale_percent: Some(percent),
            save_preferences: true,
            ..keep
        },
        TrayAction::ToggleAlwaysOnTop => DesktopPlan {
            always_on_top: !always_on_top,
            save_preferences: true,
            ..keep
        },
        TrayAction::Exit => DesktopPlan { quit: true, ..keep },
    }
}

/// The scale the renderers use, as binary32 bits, always within 0.6 ..= 1.4.
#[derive(Debug, Clone, Copy, PartialEq, Eq, Structural)]
pub struct UserScale {
    pub bits: u32,
}

impl UserScale {
    pub fn new() -> (s: UserScale)
        ensures
            s.bits == crate::preferences::DEFAULT_SCALE_BITS,
    {
        UserScale { bits: crate::preferences::DEFAULT_SCALE_BITS }
    }

    /// Sets a new scale, made safe; returns whether it changed, in which case
    /// cached sprite images and window regions are stale.
    pub fn set(&mut self, bits: u32) -> (changed: bool)
        ensures
            final(self).bits == spec_normalize_scale_bits(bits),
            changed == (old(self).bits != spec_normalize_scale_bits(bits)),
    {
        let normalized = normalize_scale_bits(bits);
        let changed = self.bits != normalized;
        self.bits = normalized;
        changed
    }
}

/// Toggling visibility twice leaves the pet as it was, and Show and Hide
/// always end visible and hidden.
pub proof fn law_visibility_requests(visible: bool, on_top: bool)
    ensures
        spec_plan_desktop_action(
            TrayAction::ToggleVisibility,
            spec_plan_desktop_action(TrayAction::ToggleVisibility, visible, on_top).pet_visible,
            on_top,
        ).pet_visible == visible,
        spec_plan_desktop_action(TrayAction::Show, visible, on_top).pet_visible,
        !spec_plan_desktop_action(TrayAction::Hide, visible, on_top).pet_visible,
        spec_plan_desktop_action(TrayAction::ResetPosition, visible, on_top).pet_visible,
{
}

/// Only the stay-on-top request changes the stay-on-top setting, and two
/// toggles undo each other.
pub proof fn law_always_on_top_requests(action: TrayAction, visible: bool, on_top: bool)
    ensures
        action != TrayAction::ToggleAlwaysOnTop ==> spec_plan_desktop_action(action, visible, on_top).always_on_top == on_top,
        spec_plan_desktop_action(
            TrayAction::ToggleAlwaysOnTop,
            visible,
            spec_plan_desktop_action(TrayAction::ToggleAlwaysOnTop, visible, on_top).always_on_top,
        ).always_on_top == on_top,
{
}

/// The window does what the plan says of visibility: every request about
/// visibility (Show, Hide, toggling, resetting the position) shows the window
/// when the pet ends visible and hides it when it ends hidden, so Show always
/// shows and Hide always hides; every other request leaves the window and
/// the visibility as they were.
pub proof fn law_window_follows_visibility(action: TrayAction, visible: bool, on_top: bool)
    ensures
        ({
            let plan = spec_plan_desktop_action(action, visible, on_top);
            if action == TrayAction::Show || action == TrayAction::Hide || action == TrayAction::ToggleVisibility
                || action == TrayAction::ResetPosition {
                plan.window == (if plan.pet_visible { WindowCommand::Show } else { WindowCommand::Hide })
            } else {
                plan.window == WindowCommand::Keep && plan.pet_visible == visible
            }
        }),
        spec_plan_desktop_action(TrayAction::Show, visible, on_top).window == WindowCommand::Show,
        spec_plan_desktop_action(TrayAction::Hide, visible, on_top).window == WindowCommand::Hide,
{
}

} // verus!
