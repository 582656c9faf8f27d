//! The shell's decisions: what each window, run, shortcut, menu or relaunch
//! event leads to. The host performs the effects in the order given.

use vstd::prelude::*;
use crate::text::{decimal, owned, push_decimal};
use crate::paths::names_existing_dir;
use crate::workspace::{first_dir_answered, requested_workspace};

verus! {

/// An event that the shell reacts to.
#[derive(Debug, Clone, Copy, PartialEq, Eq, Structural)]
pub enum ShellEvent {
    /// The main window was resized.
    WindowResized,
    /// The main window was moved.
    WindowMoved,
    /// The user asked to close the main window.
    WindowCloseRequested,
    /// Any other window event.
    OtherWindowEvent,
    /// The application is about to exit.
    ExitRequested,
    /// A global shortcut fired: whether it was a key press, and whether it
    /// is the shortcut that summons the window.
    Shortcut { pressed: bool, is_show_shortcut: bool },
}

/// Something the host does on the shell's behalf.
#[derive(Debug, Clone, PartialEq, Eq)]
pub enum ShellEffect {
    /// Save the main window's size, position and maximised flag.
    SaveWindowState,
    /// Keep the window from closing.
    PreventClose,
    /// Hide the main window (the server keeps running).
    HideWindow,
    /// Show the one-time notice that the app went on in the background.
    ShowBackgroundNotice,
    /// Stop the hosted server.
    StopServer,
    /// Record the hosted server as stopped.
    MarkServerStopped,
    /// Restart the hosted server.
    RestartServer,
    /// Show, un-minimise and focus the main window.
    ShowMainWindow,
    /// Show the main window only if it is not on screen already.
    SurfaceIfHidden,
    /// Make the given folder the server's workspace.
    SwitchWorkspace(String),
    /// Open the hosted page in the system browser.
    OpenInBrowser,
    /// Open the data folder in the file manager.
    RevealDataDir,
    /// Ask the page to open the connection settings.
    EmitOpenConnectionSettings,
    /// Turn launching at login on or off.
    ToggleAutostart,
    /// Quit the application.
    ExitApp,
}

/// The shell's own state: whether the background notice was shown in this
/// run.
pub struct ShellState {
    hide_notice_shown: bool,
}

/// What the event `ev` leads to when the background notice has (or has
/// not) been shown: whether it has been shown afterwards, and the effects.
pub open spec fn shell_step(notice_shown: bool, ev: ShellEvent) -> (bool, Seq<ShellEffect>) {
    match ev {
        ShellEvent::WindowResized => (notice_shown, seq![ShellEffect::SaveWindowState]),
        ShellEvent::WindowMoved => (notice_shown, seq![ShellEffect::SaveWindowState]),
        ShellEvent::WindowCloseRequested => {
            let base = seq![
                ShellEffect::SaveWindowState,
                ShellEffect::PreventClose,
                ShellEffect::HideWindow,
            ];
            if notice_shown {
                (true, base)
            } else {
                (true, base.push(ShellEffect::ShowBackgroundNotice))
            }
        },
        ShellEvent::OtherWindowEvent => (notice_shown, seq![]),
        ShellEvent::ExitRequested => (notice_shown, seq![ShellEffect::StopServer]),
        ShellEvent::Shortcut { pressed, is_show_shortcut } => (
            notice_shown,
            if pressed && is_show_shortcut {
                seq![ShellEffect::ShowMainWindow]
            } else {
                seq![]
            },
        ),
    }
}

impl ShellState {
    pub closed spec fn notice_shown(&self) -> bool {
        self.hide_notice_shown
    }

    /// The state at the start of a run: no notice shown yet.
    pub fn new() -> (r: ShellState)
        ensures
            !r.notice_shown(),
    {
        ShellState { hide_notice_shown: false }
    }

    /// Reacts to one event. Resizing or moving the window saves its state;
    /// closing it saves its state, keeps it from closing and hides it, and
    /// the first time in a run also shows the background notice; an exit
    /// stops the server; the summoning shortcut, when pressed, shows the
    /// window.
    pub fn handle(&mut self, ev: ShellEvent) -> (r: Vec<ShellEffect>)
        ensures
            (final(self).notice_shown(), r@) == shell_step(old(self).notice_shown(), ev),
    {
        let mut effects: Vec<ShellEffect> = Vec::new();
        match ev {
            ShellEvent::WindowResized | ShellEvent::WindowMoved => {
                effects.push(ShellEffect::SaveWindowState);
            },
            ShellEvent::WindowCloseRequested => {
                effects.push(ShellEffect::SaveWindowState);
                effects.push(ShellEffect::PreventClose);
                effects.push(ShellEffect::HideWindow);
                if !self.hide_notice_shown {
                    self.hide_notice_shown = true;
                    effects.push(ShellEffect::ShowBackgroundNotice);
                }
            },
            ShellEvent::OtherWindowEvent => {},
            ShellEvent::ExitRequested => {
                effects.push(ShellEffect::StopServer);
            },
            ShellEvent::Shortcut { pressed, is_show_shortcut } => {
                if pressed && is_show_shortcut {
                    effects.push(ShellEffect::ShowMainWindow);
                }
            },
        }
        assert(effects@ =~= shell_step(old(self).notice_shown(), ev).1);
        effects
    }
}

/// How many times the background notice is shown while the events `evs`
/// are handled in order, starting from `notice_shown`.
pub open spec fn notices_shown(notice_shown: bool, evs: Seq<ShellEvent>) -> nat
    decreases evs.len(),
{
    if evs.len() == 0 {
        0
    } else {
        let (next, effects) = shell_step(notice_shown, evs[0]);
        (if effects.contains(ShellEffect::ShowBackgroundNotice) {
            1nat
        } else {
            0nat
        }) + notices_shown(next, evs.drop_first())
    }
}

/// Whether the state is shown as having shown the notice after the events.
pub open spec fn notice_state_after(notice_shown: bool, evs: Seq<ShellEvent>) -> bool
    decreases evs.len(),
{
    if evs.len() == 0 {
        notice_shown
    } else {
        notice_state_after(shell_step(notice_shown, evs[0]).0, evs.drop_first())
    }
}

proof fn lemma_step_notice(notice_shown: bool, ev: ShellEvent)
    ensures
        shell_step(notice_shown, ev).1.contains(ShellEffect::ShowBackgroundNotice) <==> (!notice_shown
            && ev == ShellEvent::WindowCloseRequested),
        shell_step(notice_shown, ev).0 == (notice_shown || ev == ShellEvent::WindowCloseRequested),
{
    let effects = shell_step(notice_shown, ev).1;
    if !notice_shown && ev == ShellEvent::WindowCloseRequested {
        assert(effects[3] == ShellEffect::ShowBackgroundNotice);
    } else if effects.contains(ShellEffect::ShowBackgroundNotice) {
        let i = choose|i: int| 0 <= i < effects.len() && effects[i] == ShellEffect::ShowBackgroundNotice;
        assert(effects[i] == ShellEffect::ShowBackgroundNotice);
    }
}

/// Law: once the background notice has been shown, it is never shown again
/// in the same run.
pub proof fn law_notice_never_repeats(evs: Seq<ShellEvent>)
    ensures
        notices_shown(true, evs) == 0,
    decreases evs.len(),
{
    if evs.len() > 0 {
        lemma_step_notice(true, evs[0]);
        law_notice_never_repeats(evs.drop_first());
    }
}

/// Law: over any run, the background notice is shown exactly once if the
/// window was ever asked to close, and never otherwise.
pub proof fn law_notice_shown_once_per_run(evs: Seq<ShellEvent>)
    ensures
        notices_shown(false, evs) == (if evs.contains(ShellEvent::WindowCloseRequested) {
            1nat
        } else {
            0nat
        }),
    decreases evs.len(),
{
    if evs.len() > 0 {
        let ev = evs[0];
        let rest = evs.drop_first();
        lemma_step_notice(false, ev);
        if ev == ShellEvent::WindowCloseRequested {
            law_notice_never_repeats(rest);
            assert(evs.contains(ShellEvent::WindowCloseRequested)) by {
                assert(evs[0] == ShellEvent::WindowCloseRequested);
            }
        } else {
            law_notice_shown_once_per_run(rest);
            assert(rest.contains(ShellEvent::WindowCloseRequested) == evs.contains(
                ShellEvent::WindowCloseRequested,
            )) by {
                if evs.contains(ShellEvent::WindowCloseRequested) {
                    let i = choose|i: int|
                        0 <= i < evs.len() && evs[i] == ShellEvent::WindowCloseRequested;
                    assert(i > 0);
                    assert(rest[i - 1] == ShellEvent::WindowCloseRequested);
                }
                if rest.contains(ShellEvent::WindowCloseRequested) {
                    let i = choose|i: int|
                        0 <= i < rest.len() && rest[i] == ShellEvent::WindowCloseRequested;
                    assert(evs[i + 1] == ShellEvent::WindowCloseRequested);
                }
            }
        }
    }
}

/// Law: closing the window never quits. A close request always saves the
/// window state, keeps the window from closing and hides it, and no event
/// the shell reacts to leads to quitting the application.
pub proof fn law_closing_keeps_running(notice_shown: bool, ev: ShellEvent)
    ensures
        !shell_step(notice_shown, ev).1.contains(ShellEffect::ExitApp),
        ev == ShellEvent::WindowCloseRequested ==> {
            let effects = shell_step(notice_shown, ev).1;
            &&& effects[0] == ShellEffect::SaveWindowState
            &&& effects[1] == ShellEffect::PreventClose
            &&& effects[2] == ShellEffect::HideWindow
        },
{
    let effects = shell_step(notice_shown, ev).1;
    if effects.contains(ShellEffect::ExitApp) {
        let i = choose|i: int| 0 <= i < effects.len() && effects[i] == ShellEffect::ExitApp;
        assert(effects[i] == ShellEffect::ExitApp);
    }
}

/// Law: an exit always stops the hosted server, whatever happened before
/// in the run (whether or not the window was closed to the tray), and
/// nothing else; the notice state is left as it was.
pub proof fn law_exit_always_stops_the_server(notice_shown: bool)
    ensures
        shell_step(notice_shown, ShellEvent::ExitRequested).1 == seq![ShellEffect::StopServer],
        shell_step(notice_shown, ShellEvent::ExitRequested).0 == notice_shown,
        shell_step(true, ShellEvent::ExitRequested).1 == shell_step(false, ShellEvent::ExitRequested).1,
{
}

/// Law: pressing the summoning shortcut always shows the main window,
/// whatever happened before in the run (also after the window was closed
/// to the tray); releasing it, or any other shortcut, does nothing.
pub proof fn law_summoning_shortcut_always_shows_the_window(
    notice_shown: bool,
    pressed: bool,
    is_show_shortcut: bool,
)
    ensures
        shell_step(notice_shown, ShellEvent::Shortcut { pressed: true, is_show_shortcut: true }).1
            == seq![ShellEffect::ShowMainWindow],
        !(pressed && is_show_shortcut) ==> shell_step(
            notice_shown,
            ShellEvent::Shortcut { pressed, is_show_shortcut },
        ).1 == Seq::<ShellEffect>::empty(),
{
}

/// Law: the background notice is the only thing the shell remembers. Every
/// event other than a close request has the same effects whether or not
/// the notice was shown, and a close request differs only in showing it.
pub proof fn law_only_closing_depends_on_the_notice(ev: ShellEvent)
    ensures
        ev != ShellEvent::WindowCloseRequested ==> shell_step(true, ev).1 == shell_step(false, ev).1,
        shell_step(false, ShellEvent::WindowCloseRequested).1 == shell_step(
            true,
            ShellEvent::WindowCloseRequested,
        ).1.push(ShellEffect::ShowBackgroundNotice),
{
}

/// Law: resizing or moving the window saves its state and does nothing
/// else; other window events do nothing; once the notice was shown, a
/// close request saves the state, keeps the window from closing and hides
/// it, and nothing more. None of these changes the notice state, except
/// the close request, which records the notice as shown.
pub proof fn law_window_events_save_and_hide(notice_shown: bool)
    ensures
        shell_step(notice_shown, ShellEvent::WindowResized) == (notice_shown, seq![
            ShellEffect::SaveWindowState,
        ]),
        shell_step(notice_shown, ShellEvent::WindowMoved) == (notice_shown, seq![
            ShellEffect::SaveWindowState,
        ]),
        shell_step(notice_shown, ShellEvent::OtherWindowEvent) == (
            notice_shown,
            Seq::<ShellEffect>::empty(),
        ),
        shell_step(true, ShellEvent::WindowCloseRequested) == (true, seq![
            ShellEffect::SaveWindowState,
            ShellEffect::PreventClose,
            ShellEffect::HideWindow,
        ]),
        shell_step(notice_shown, ShellEvent::WindowCloseRequested).0,
{
}

// ---------------------------------------------------------------------------
// Menu and tray actions.

/// An entry of the tray menu (and of the in-window menu, which fires the
/// same actions).
#[derive(Debug, Clone, Copy, PartialEq, Eq, Structural)]
pub enum MenuAction {
    OpenInBrowser,
    RestartServer,
    StopServer,
    OpenDataDir,
    ConnectionSettings,
    ShowWindow,
    ToggleAutostart,
    Quit,
    /// An id that names no action.
    Unrecognized,
}

pub open spec fn menu_effects_of(action: MenuAction) -> Seq<ShellEffect> {
    match action {
        MenuAction::OpenInBrowser => seq![ShellEffect::OpenInBrowser],
        MenuAction::RestartServer => seq![ShellEffect::RestartServer],
        MenuAction::StopServer => seq![ShellEffect::StopServer, ShellEffect::MarkServerStopped],
        MenuAction::OpenDataDir => seq![ShellEffect::RevealDataDir],
        MenuAction::ConnectionSettings => seq![
            ShellEffect::ShowMainWindow,
            ShellEffect::EmitOpenConnectionSettings,
        ],
        MenuAction::ShowWindow => seq![ShellEffect::ShowMainWindow],
        MenuAction::ToggleAutostart => seq![ShellEffect::ToggleAutostart],
        MenuAction::Quit => seq![ShellEffect::ExitApp],
        MenuAction::Unrecognized => seq![],
    }
}

/// The effects of a menu action, in order.
pub fn menu_effects(action: MenuAction) -> (r: Vec<ShellEffect>)
    ensures
        r@ == menu_effects_of(action),
{
    let mut effects: Vec<ShellEffect> = Vec::new();
    match action {
        MenuAction::OpenInBrowser => effects.push(ShellEffect::OpenInBrowser),
        MenuAction::RestartServer => effects.push(ShellEffect::RestartServer),
        MenuAction::StopServer => {
            effects.push(ShellEffect::StopServer);
            effects.push(ShellEffect::MarkServerStopped);
        },
        MenuAction::OpenDataDir => effects.push(ShellEffect::RevealDataDir),
        MenuAction::ConnectionSettings => {
            effects.push(ShellEffect::ShowMainWindow);
            effects.push(ShellEffect::EmitOpenConnectionSettings);
        },
        MenuAction::ShowWindow => effects.push(ShellEffect::ShowMainWindow),
        MenuAction::ToggleAutostart => effects.push(ShellEffect::ToggleAutostart),
        MenuAction::Quit => effects.push(ShellEffect::ExitApp),
        MenuAction::Unrecognized => {},
    }
    assert(effects@ =~= menu_effects_of(action));
    effects
}

/// Law: only the quit entry quits the application.
pub proof fn law_only_quit_exits(action: MenuAction)
    ensures
        menu_effects_of(action).contains(ShellEffect::ExitApp) <==> action == MenuAction::Quit,
{
    let effects = menu_effects_of(action);
    if action == MenuAction::Quit {
        assert(effects[0] == ShellEffect::ExitApp);
    } else if effects.contains(ShellEffect::ExitApp) {
        let i = choose|i: int| 0 <= i < effects.len() && effects[i] == ShellEffect::ExitApp;
        assert(effects[i] == ShellEffect::ExitApp);
    }
}

/// Law: each menu entry does what it names. Only the stop entry stops the
/// server (and records it as stopped); only the show-window and
/// connection-settings entries show the window, and the latter then asks
/// the page for its settings; only the restart entry restarts the server;
/// an id that names no entry does nothing.
pub proof fn law_menu_entries_do_what_they_name(action: MenuAction)
    ensures
        menu_effects_of(action).contains(ShellEffect::StopServer) <==> action
            == MenuAction::StopServer,
        menu_effects_of(action).contains(ShellEffect::ShowMainWindow) <==> (action
            == MenuAction::ShowWindow || action == MenuAction::ConnectionSettings),
        menu_effects_of(action).contains(ShellEffect::RestartServer) <==> action
            == MenuAction::RestartServer,
        action == MenuAction::StopServer ==> menu_effects_of(action) == seq![
            ShellEffect::StopServer,
            ShellEffect::MarkServerStopped,
        ],
        action == MenuAction::ConnectionSettings ==> menu_effects_of(action) == seq![
            ShellEffect::ShowMainWindow,
            ShellEffect::EmitOpenConnectionSettings,
        ],
        action == MenuAction::Unrecognized ==> menu_effects_of(action).len() == 0,
{
    let effects = menu_effects_of(action);
    assert forall|e: ShellEffect| #[trigger] effects.contains(e) implies exists|i: int|
        0 <= i < effects.len() && effects[i] == e by {}
    if action == MenuAction::StopServer {
        assert(effects[0] == ShellEffect::StopServer);
    }
    if action == MenuAction::ShowWindow || action == MenuAction::ConnectionSettings {
        assert(effects[0] == ShellEffect::ShowMainWindow);
    }
    if action == MenuAction::RestartServer {
        assert(effects[0] == ShellEffect::RestartServer);
    }
}

/// What toggling launch-at-login does.
#[derive(Debug, Clone, Copy, PartialEq, Eq, Structural)]
pub struct AutostartToggle {
    /// Turn it on (`true`) or off (`false`).
    pub enable: bool,
    /// The tick to show on the menu entry once that succeeded.
    pub checked_after: bool,
}

/// How to toggle launch-at-login, given whether it is on now (unknown
/// counts as off): turn it to the other setting, and once that succeeded,
/// show the entry ticked exactly when it is now on.
pub fn autostart_toggle(enabled: Option<bool>) -> (r: AutostartToggle)
    ensures
        r.enable == !(enabled == Some(true)),
        r.checked_after == r.enable,
{
    let now_enabled = match enabled {
        Some(e) => e,
        None => false,
    };
    AutostartToggle { enable: !now_enabled, checked_after: !now_enabled }
}

pub open spec fn browser_url_of(running: Option<Seq<char>>, default_port: u16) -> Seq<char> {
    match running {
        Some(u) => u,
        None => "http://127.0.0.1:"@ + decimal(default_port as nat),
    }
}

/// The address to open in the system browser: the running server's, or
/// else the local address on the default port.
pub fn browser_url(running: Option<String>, default_port: u16) -> (r: String)
    ensures
        r@ == browser_url_of(running.deep_view(), default_port),
{
    match running {
        Some(u) => u,
        None => {
            let mut url = owned("http://127.0.0.1:");
            push_decimal(&mut url, default_port as u64);
            url
        },
    }
}

/// How many lines of the server log to show: the number asked for, or a
/// hundred when none was.
pub fn log_tail_lines(requested: Option<usize>) -> (r: usize)
    ensures
        r == match requested {
            Some(n) => n,
            None => 100,
        },
{
    match requested {
        Some(n) => n,
        None => 100,
    }
}

// ---------------------------------------------------------------------------
// A second launch while the app is running.

pub open spec fn relaunch_effects_of(workspace: Option<String>) -> Seq<ShellEffect> {
    match workspace {
        Some(dir) => seq![
            ShellEffect::SwitchWorkspace(dir),
            ShellEffect::RestartServer,
            ShellEffect::ShowMainWindow,
        ],
        None => seq![ShellEffect::SurfaceIfHidden],
    }
}

/// What a second launch leads to: with a workspace folder, switch the
/// server to it, restart it and show the window; without one, show the
/// window only if it is not on screen already.
pub fn relaunch_effects(workspace: Option<String>) -> (r: Vec<ShellEffect>)
    ensures
        r@ == relaunch_effects_of(workspace),
{
    let mut effects: Vec<ShellEffect> = Vec::new();
    match workspace {
        Some(dir) => {
            effects.push(ShellEffect::SwitchWorkspace(dir));
            effects.push(ShellEffect::RestartServer);
            effects.push(ShellEffect::ShowMainWindow);
        },
        None => {
            effects.push(ShellEffect::SurfaceIfHidden);
        },
    }
    assert(effects@ =~= relaunch_effects_of(workspace));
    effects
}

/// What a second launch with the arguments `args` leads to; the workspace
/// is the one the arguments ask for, as `requested_workspace` finds it by
/// asking the file system about them in turn.
pub fn on_second_instance(args: &[String]) -> (r: Vec<ShellEffect>)
    ensures
        exists|w: Option<String>|
            first_dir_answered(args@, names_existing_dir, w) && r@ == relaunch_effects_of(w),
        args@.len() <= 1 ==> r@ == seq![ShellEffect::SurfaceIfHidden],
{
    let workspace = requested_workspace(args);
    relaunch_effects(workspace)
}

/// Law: a second launch that names a workspace switches the server to
/// exactly that folder, restarts it and shows the window; one that names
/// none only surfaces the window if it is not on screen, and neither
/// restarts nor switches anything.
pub proof fn law_relaunch_restarts_only_for_a_workspace(workspace: Option<String>, dir: String)
    ensures
        relaunch_effects_of(workspace).contains(ShellEffect::RestartServer) <==> workspace is Some,
        relaunch_effects_of(workspace).contains(ShellEffect::SwitchWorkspace(dir)) <==> workspace
            == Some(dir),
        workspace is None ==> relaunch_effects_of(workspace) == seq![ShellEffect::SurfaceIfHidden],
        workspace is Some ==> relaunch_effects_of(workspace).last() == ShellEffect::ShowMainWindow,
{
    let effects = relaunch_effects_of(workspace);
    if let Some(d) = workspace {
        assert(effects[0] == ShellEffect::SwitchWorkspace(d));
        assert(effects[1] == ShellEffect::RestartServer);
    }
    if effects.contains(ShellEffect::SwitchWorkspace(dir)) {
        let i = choose|i: int| 0 <= i < effects.len() && effects[i] == ShellEffect::SwitchWorkspace(dir);
        assert(effects[i] == ShellEffect::SwitchWorkspace(dir));
    }
    if effects.contains(ShellEffect::RestartServer) {
        let i = choose|i: int| 0 <= i < effects.len() && effects[i] == ShellEffect::RestartServer;
        assert(effects[i] == ShellEffect::RestartServer);
    }
}

} // verus!
