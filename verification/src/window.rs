//! The main window's remembered geometry, and when a relaunch surfaces
//! the window.

use vstd::prelude::*;

verus! {

/// The smallest width that is restored from a saved window state.
pub const MIN_RESTORED_WIDTH: u32 = 960;

/// The smallest height that is restored from a saved window state.
pub const MIN_RESTORED_HEIGHT: u32 = 640;

/// The main window's size, position and maximised flag, as saved between
/// runs.
#[derive(Debug, Clone, Copy, PartialEq, Eq, Structural)]
pub struct WindowState {
    pub width: u32,
    pub height: u32,
    pub x: i32,
    pub y: i32,
    pub maximized: bool,
}

/// What to apply to the window when a saved state is restored.
#[derive(Debug, Clone, Copy, PartialEq, Eq)]
pub struct RestorePlan {
    /// The size to set, or `None` to keep the current one.
    pub size: Option<(u32, u32)>,
    /// The position to move the window to.
    pub position: (i32, i32),
    /// Whether to maximise the window.
    pub maximize: bool,
}

/// A saved size is restored only when it is at least the smallest one.
pub open spec fn restorable_size(width: u32, height: u32) -> bool {
    width >= MIN_RESTORED_WIDTH && height >= MIN_RESTORED_HEIGHT
}

/// The plan for restoring `state`: its size when restorable, its position,
/// and its maximised flag.
pub open spec fn restore_plan_of(state: WindowState) -> RestorePlan {
    RestorePlan {
        size: if restorable_size(state.width, state.height) {
            Some((state.width, state.height))
        } else {
            None
        },
        position: (state.x, state.y),
        maximize: state.maximized,
    }
}

/// How to restore a saved window state: the size only when it is at least
/// 960 by 640, the position always, and maximised when it was.
pub fn restore_plan(state: &WindowState) -> (r: RestorePlan)
    ensures
        r == restore_plan_of(*state),
{
    let mut plan = RestorePlan { size: None, position: (state.x, state.y), maximize: state.maximized };
    if state.width >= MIN_RESTORED_WIDTH && state.height >= MIN_RESTORED_HEIGHT {
        plan.size = Some((state.width, state.height));
    }
    plan
}

/// The state saved for a window of the given size and position: maximised
/// only when the window said it is.
pub open spec fn captured_state_of(
    width: u32,
    height: u32,
    x: i32,
    y: i32,
    maximized: Option<bool>,
) -> WindowState {
    WindowState { width, height, x, y, maximized: maximized == Some(true) }
}

/// The state to save for a window of the given inner size and outer
/// position; when the window could not say whether it is maximised, it
/// counts as not maximised.
pub fn captured_state(width: u32, height: u32, x: i32, y: i32, maximized: Option<bool>) -> (r:
    WindowState)
    ensures
        r == captured_state_of(width, height, x, y, maximized),
{
    let known_maximized = match maximized {
        Some(m) => m,
        None => false,
    };
    WindowState { width, height, x, y, maximized: known_maximized }
}

/// Law: restoring what was saved puts the window back where it was,
/// maximised as it was, and at its size whenever that size is at least the
/// smallest one restored.
pub proof fn law_restore_returns_saved_geometry(
    width: u32,
    height: u32,
    x: i32,
    y: i32,
    maximized: bool,
)
    ensures
        ({
            let plan = restore_plan_of(captured_state_of(width, height, x, y, Some(maximized)));
            &&& plan.position == (x, y)
            &&& plan.maximize == maximized
            &&& (width >= 960 && height >= 640 ==> plan.size == Some((width, height)))
            &&& (width < 960 || height < 640 ==> plan.size is None)
        }),
{
}

pub open spec fn surfaces_on_relaunch(visible: Option<bool>, minimized: Option<bool>) -> bool {
    !(visible == Some(true) && minimized == Some(false))
}

/// Whether a duplicate launch should bring the main window up: not when the
/// window is known to be visible and known not to be minimised (it is on
/// screen already, and focus is left where it is); in every other case,
/// including when the window cannot say, it should.
pub fn surface_on_relaunch(visible: Option<bool>, minimized: Option<bool>) -> (r: bool)
    ensures
        r == surfaces_on_relaunch(visible, minimized),
{
    match (visible, minimized) {
        (Some(true), Some(false)) => false,
        _ => true,
    }
}

/// Law: a relaunch leaves the window alone only when the window is known
/// to be on screen: known visible and known not minimised. A window that is
/// hidden (for instance closed to the tray, minimised or not), minimised,
/// or that cannot say, is always brought up.
pub proof fn law_relaunch_surfaces_every_window_not_on_screen(
    visible: Option<bool>,
    minimized: Option<bool>,
)
    ensures
        visible != Some(true) ==> surfaces_on_relaunch(visible, minimized),
        minimized != Some(false) ==> surfaces_on_relaunch(visible, minimized),
        !surfaces_on_relaunch(Some(true), Some(false)),
{
}

} // verus!
