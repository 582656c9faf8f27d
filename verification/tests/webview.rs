use dsh_desktop::webview::{
    grants_permission, is_blocked_menu_item, is_external_http, navigation_decision,
    new_window_decision, context_menu_removals, NavigationDecision, NewWindowDecision,
    PermissionKind,
};

#[test]
fn outbound_links_are_external() {
    assert!(is_external_http("https://github.com/x"));
    assert!(is_external_http("http://example.org"));
    assert!(!is_external_http("http://127.0.0.1:8787/chat"));
    assert!(!is_external_http("http://localhost:3000"));
    assert!(is_external_http("https://example.com/search?q=localhost"));
    assert!(is_external_http("https://example.org/127.0.0.1"));
    assert!(is_external_http("http://localhost.example.org/"));
    assert!(is_external_http("http://[::1]:8787/"));
    assert!(!is_external_http("http://LocalHost:8787/"));
    assert!(!is_external_http("https://user:pw@localhost/x"));
    assert!(!is_external_http("http://127.0.0.1"));
    assert!(!is_external_http("http://127.0.0.1?x=1"));
    assert!(is_external_http("http://localhost@example.org/"));
    assert!(!is_external_http("file:///C:/x"));
    assert!(!is_external_http("mailto:a@b.c"));
    assert!(!is_external_http("HTTP://EXAMPLE.ORG"));
    assert!(!is_external_http(""));
}

#[test]
fn a_backslash_ends_the_host() {
    assert!(is_external_http("http://evil.example\\@localhost/"));
    assert!(!is_external_http("http://localhost\\chat"));
    assert!(!is_external_http("https://127.0.0.1:8787\\x?y=1"));
}

#[test]
fn bracketed_hosts_keep_their_colons() {
    assert!(is_external_http("http://[::1]/"));
    assert!(is_external_http("https://[::1]:8787/chat"));
    assert!(is_external_http("http://[localhost]:80/"));
    assert!(!is_external_http("http://[::1]@localhost:8787/"));
}

#[test]
fn new_windows_are_always_handled() {
    assert_eq!(
        new_window_decision("https://example.org"),
        NewWindowDecision { open_externally: true, handled: true }
    );
    assert_eq!(
        new_window_decision("http://127.0.0.1:1/x"),
        NewWindowDecision { open_externally: false, handled: true }
    );
}

#[test]
fn outbound_navigation_is_cancelled() {
    assert_eq!(
        navigation_decision("https://example.org"),
        NavigationDecision { open_externally: true, cancel: true }
    );
    assert_eq!(
        navigation_decision("http://localhost:8787/"),
        NavigationDecision { open_externally: false, cancel: false }
    );
}

#[test]
fn only_navigation_reload_and_inspect_are_blocked() {
    for name in ["back", "forward", "reload", "inspectElement"] {
        assert!(is_blocked_menu_item(name));
    }
    for name in ["copy", "cut", "paste", "selectAll", "Back", "inspect", ""] {
        assert!(!is_blocked_menu_item(name));
    }
}

#[test]
fn removals_go_from_the_back_and_keep_everything_else_in_order() {
    let mut items: Vec<String> =
        ["back", "forward", "copy", "reload", "paste", "inspectElement", "back"]
            .iter()
            .map(|s| s.to_string())
            .collect();
    let removals = context_menu_removals(&items);
    assert_eq!(removals, vec![6, 5, 3, 1, 0]);
    for k in removals {
        items.remove(k);
    }
    assert_eq!(items, vec!["copy".to_string(), "paste".to_string()]);
    assert!(context_menu_removals(&[]).is_empty());
    assert!(context_menu_removals(&["copy".to_string()]).is_empty());
}

#[test]
fn only_the_clipboard_is_granted() {
    assert!(grants_permission(PermissionKind::Clipboard));
    assert!(!grants_permission(PermissionKind::Other));
}

#[test]
fn an_outbound_link_naming_localhost_in_its_query_leaves() {
    assert_eq!(
        navigation_decision("https://example.com/search?q=localhost"),
        NavigationDecision { open_externally: true, cancel: true }
    );
    assert_eq!(
        new_window_decision("https://example.com/search?q=localhost"),
        NewWindowDecision { open_externally: true, handled: true }
    );
}
