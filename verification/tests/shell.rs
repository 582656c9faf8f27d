use dsh_desktop::shell::log_tail_lines;
use dsh_desktop::shell::{
    autostart_toggle, browser_url, menu_effects, on_second_instance, relaunch_effects,
    AutostartToggle, MenuAction, ShellEffect, ShellEvent, ShellState,
};

#[test]
fn closing_hides_and_shows_the_notice_only_once() {
    let mut state = ShellState::new();
    assert_eq!(
        state.handle(ShellEvent::WindowCloseRequested),
        vec![
            ShellEffect::SaveWindowState,
            ShellEffect::PreventClose,
            ShellEffect::HideWindow,
            ShellEffect::ShowBackgroundNotice
        ]
    );
    assert_eq!(
        state.handle(ShellEvent::WindowCloseRequested),
        vec![ShellEffect::SaveWindowState, ShellEffect::PreventClose, ShellEffect::HideWindow]
    );
}

#[test]
fn resizing_and_moving_save_the_window_state() {
    let mut state = ShellState::new();
    assert_eq!(state.handle(ShellEvent::WindowResized), vec![ShellEffect::SaveWindowState]);
    assert_eq!(state.handle(ShellEvent::WindowMoved), vec![ShellEffect::SaveWindowState]);
    assert_eq!(state.handle(ShellEvent::OtherWindowEvent), vec![]);
}

#[test]
fn exit_stops_the_server() {
    let mut state = ShellState::new();
    assert_eq!(state.handle(ShellEvent::ExitRequested), vec![ShellEffect::StopServer]);
}

#[test]
fn only_a_press_of_the_show_shortcut_shows_the_window() {
    let mut state = ShellState::new();
    assert_eq!(
        state.handle(ShellEvent::Shortcut { pressed: true, is_show_shortcut: true }),
        vec![ShellEffect::ShowMainWindow]
    );
    assert_eq!(
        state.handle(ShellEvent::Shortcut { pressed: false, is_show_shortcut: true }),
        vec![]
    );
    assert_eq!(
        state.handle(ShellEvent::Shortcut { pressed: true, is_show_shortcut: false }),
        vec![]
    );
}

#[test]
fn menu_actions() {
    assert_eq!(menu_effects(MenuAction::OpenInBrowser), vec![ShellEffect::OpenInBrowser]);
    assert_eq!(menu_effects(MenuAction::RestartServer), vec![ShellEffect::RestartServer]);
    assert_eq!(
        menu_effects(MenuAction::StopServer),
        vec![ShellEffect::StopServer, ShellEffect::MarkServerStopped]
    );
    assert_eq!(menu_effects(MenuAction::OpenDataDir), vec![ShellEffect::RevealDataDir]);
    assert_eq!(
        menu_effects(MenuAction::ConnectionSettings),
        vec![ShellEffect::ShowMainWindow, ShellEffect::EmitOpenConnectionSettings]
    );
    assert_eq!(menu_effects(MenuAction::ShowWindow), vec![ShellEffect::ShowMainWindow]);
    assert_eq!(menu_effects(MenuAction::ToggleAutostart), vec![ShellEffect::ToggleAutostart]);
    assert_eq!(menu_effects(MenuAction::Quit), vec![ShellEffect::ExitApp]);
    assert_eq!(menu_effects(MenuAction::Unrecognized), vec![]);
}

#[test]
fn autostart_toggles_to_the_other_setting() {
    assert_eq!(autostart_toggle(Some(true)), AutostartToggle { enable: false, checked_after: false });
    assert_eq!(autostart_toggle(Some(false)), AutostartToggle { enable: true, checked_after: true });
    assert_eq!(autostart_toggle(None), AutostartToggle { enable: true, checked_after: true });
}

#[test]
fn browser_url_falls_back_to_the_default_port() {
    assert_eq!(browser_url(None, 8787), "http://127.0.0.1:8787");
    assert_eq!(browser_url(None, 0), "http://127.0.0.1:0");
    assert_eq!(browser_url(None, 65535), "http://127.0.0.1:65535");
    assert_eq!(
        browser_url(Some("http://127.0.0.1:4000".to_string()), 8787),
        "http://127.0.0.1:4000"
    );
}

#[test]
fn relaunch_with_and_without_a_workspace() {
    assert_eq!(
        relaunch_effects(Some("D:\\work".to_string())),
        vec![
            ShellEffect::SwitchWorkspace("D:\\work".to_string()),
            ShellEffect::RestartServer,
            ShellEffect::ShowMainWindow
        ]
    );
    assert_eq!(relaunch_effects(None), vec![ShellEffect::SurfaceIfHidden]);
}

#[test]
fn second_instance_uses_the_requested_workspace() {
    let args = vec!["dsh-desktop.exe".to_string(), ".".to_string()];
    assert_eq!(
        on_second_instance(&args),
        vec![
            ShellEffect::SwitchWorkspace(".".to_string()),
            ShellEffect::RestartServer,
            ShellEffect::ShowMainWindow
        ]
    );
    let args = vec!["dsh-desktop.exe".to_string()];
    assert_eq!(on_second_instance(&args), vec![ShellEffect::SurfaceIfHidden]);
}

#[test]
fn log_tail_defaults_to_a_hundred_lines() {
    assert_eq!(log_tail_lines(None), 100);
    assert_eq!(log_tail_lines(Some(7)), 7);
}
