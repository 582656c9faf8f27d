use dsh_desktop::settings::{normalize_connection_settings, ConnectionChoice, SettingsError};

fn ok(url: Option<&str>, mode: &str) -> ConnectionChoice {
    ConnectionChoice { server_url: url.map(|u| u.to_string()), connection_mode: mode.to_string() }
}

#[test]
fn mode_is_trimmed_and_lower_cased() {
    assert_eq!(normalize_connection_settings(None, "  SMART \t"), Ok(ok(None, "smart")));
    assert_eq!(
        normalize_connection_settings(Some("http://h:1".to_string()), "Connect"),
        Ok(ok(Some("http://h:1"), "connect"))
    );
}

#[test]
fn unknown_mode_is_refused() {
    assert_eq!(normalize_connection_settings(None, "auto"), Err(SettingsError::InvalidMode));
    assert_eq!(normalize_connection_settings(None, ""), Err(SettingsError::InvalidMode));
    assert_eq!(
        normalize_connection_settings(None, "smartx"),
        Err(SettingsError::InvalidMode)
    );
}

#[test]
fn mode_is_checked_before_the_address() {
    assert_eq!(
        normalize_connection_settings(Some("   ".to_string()), "bogus"),
        Err(SettingsError::InvalidMode)
    );
}

#[test]
fn address_without_scheme_gets_http() {
    assert_eq!(
        normalize_connection_settings(Some("  192.168.1.5:8080 ".to_string()), "smart"),
        Ok(ok(Some("http://192.168.1.5:8080"), "smart"))
    );
    assert_eq!(
        normalize_connection_settings(Some("https://x.example".to_string()), "smart"),
        Ok(ok(Some("https://x.example"), "smart"))
    );
    assert_eq!(
        normalize_connection_settings(Some("ftp://x".to_string()), "smart"),
        Ok(ok(Some("http://ftp://x"), "smart"))
    );
}

#[test]
fn blank_address_is_dropped() {
    assert_eq!(
        normalize_connection_settings(Some(" \u{3000}\n".to_string()), "smart"),
        Ok(ok(None, "smart"))
    );
}

#[test]
fn connect_needs_an_address() {
    assert_eq!(
        normalize_connection_settings(None, "connect"),
        Err(SettingsError::ConnectWithoutAddress)
    );
    assert_eq!(
        normalize_connection_settings(Some("  ".to_string()), "connect"),
        Err(SettingsError::ConnectWithoutAddress)
    );
    assert_eq!(
        normalize_connection_settings(Some("localhost:7".to_string()), "connect"),
        Ok(ok(Some("http://localhost:7"), "connect"))
    );
}

#[test]
fn normalizing_twice_changes_nothing() {
    let first = normalize_connection_settings(Some("  example.org/x ".to_string()), " Connect ")
        .unwrap();
    let second =
        normalize_connection_settings(first.server_url.clone(), &first.connection_mode).unwrap();
    assert_eq!(first, second);
}

#[test]
fn settings_error_messages() {
    assert_eq!(SettingsError::InvalidMode.message(), "连接模式只能是 smart 或 connect。");
    assert_eq!(
        SettingsError::ConnectWithoutAddress.message(),
        "固定地址模式需要有效的 Web UI 地址（http:// 或 https://）。"
    );
}
