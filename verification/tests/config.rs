use totoro::config::{
    listen_port, parse_port, resolve, server_settings, Environment, InvalidPort, LogLevel, Notify,
    ServerSettings, Variable, DEFAULT_PORT,
};

fn text(s: &str) -> Option<String> {
    Some(s.to_string())
}

#[test]
fn resolve_outside_production_needs_no_webhook() {
    let settings = resolve(text("key-us1"), text("abc123"), None, false).unwrap();
    assert_eq!(settings.api_key, "key-us1");
    assert_eq!(settings.list_id, "abc123");
    assert!(matches!(settings.notify, Notify::DryRun));
}

#[test]
fn resolve_outside_production_ignores_webhook() {
    let settings = resolve(text("k"), text("l"), text("https://chat.example/hook"), false).unwrap();
    assert!(matches!(settings.notify, Notify::DryRun));
}

#[test]
fn resolve_in_production_takes_webhook() {
    let settings = resolve(text("k"), text("l"), text("https://chat.example/hook"), true).unwrap();
    assert_eq!(settings.api_key, "k");
    assert_eq!(settings.list_id, "l");
    match settings.notify {
        Notify::Live { url } => assert_eq!(url, "https://chat.example/hook"),
        Notify::DryRun => panic!("production must deliver"),
    }
}

#[test]
fn resolve_reports_missing_api_key_first() {
    assert_eq!(resolve(None, None, None, true).unwrap_err(), Variable::ApiKey);
    assert_eq!(resolve(None, text("l"), text("u"), false).unwrap_err(), Variable::ApiKey);
}

#[test]
fn resolve_reports_missing_list_id() {
    assert_eq!(resolve(text("k"), None, None, true).unwrap_err(), Variable::ListId);
    assert_eq!(resolve(text("k"), None, text("u"), false).unwrap_err(), Variable::ListId);
}

#[test]
fn resolve_reports_missing_webhook_in_production() {
    assert_eq!(resolve(text("k"), text("l"), None, true).unwrap_err(), Variable::WebhookUrl);
}

#[test]
fn resolve_keeps_empty_values() {
    let settings = resolve(text(""), text(""), text(""), true).unwrap();
    assert_eq!(settings.api_key, "");
    assert_eq!(settings.list_id, "");
    assert!(matches!(settings.notify, Notify::Live { ref url } if url.is_empty()));
}

#[test]
fn variable_names() {
    assert_eq!(Variable::ApiKey.name(), "TOTORO_MAILCHIMP_APIKEY");
    assert_eq!(Variable::ListId.name(), "TOTORO_MAILCHIMP_LIST_ID");
    assert_eq!(Variable::WebhookUrl.name(), "TOTORO_BASECAMP_BOTURL");
    assert_eq!(Variable::Production.name(), "TOTORO_PRODUCTION");
    assert_eq!(Variable::Port.name(), "FUNCTIONS_CUSTOMHANDLER_PORT");
}

#[test]
fn port_defaults_to_3000() {
    assert_eq!(DEFAULT_PORT, 3000);
    assert_eq!(listen_port(None), Ok(3000));
}

#[test]
fn port_override() {
    assert_eq!(listen_port(Some("8080")), Ok(8080));
    assert_eq!(listen_port(Some("0")), Ok(0));
    assert_eq!(listen_port(Some("65535")), Ok(65535));
}

#[test]
fn port_that_is_no_number() {
    assert_eq!(listen_port(Some("http")), Err(InvalidPort));
    assert_eq!(listen_port(Some("")), Err(InvalidPort));
    assert_eq!(listen_port(Some("65536")), Err(InvalidPort));
}

#[test]
fn parse_port_agrees_with_std() {
    let cases = [
        "", "+", "-", "0", "00", "007", "+0", "+80", "++80", "-80", "80", "8080", "65535", "65536",
        "065535", "0000000000000000000000080", "99999", "100000", "4294967296", "4294967376",
        "18446744073709551616", " 80", "80 ", "8 0", "80a", "a80", "8_0", "0x50", "8.0", "１２", "٣",
        "+65535", "+65536", "3000\n",
    ];
    for case in cases {
        assert_eq!(parse_port(case), case.parse::<u16>().ok(), "text {:?}", case);
    }
}

#[test]
fn parse_port_reads_back_every_port() {
    for port in 0..=u16::MAX {
        assert_eq!(parse_port(&port.to_string()), Some(port));
    }
}

#[test]
fn server_settings_in_production() {
    assert_eq!(
        server_settings(None, true),
        Ok(ServerSettings {
            environment: Environment::Production,
            loopback_only: false,
            port: 3000,
            log_level: LogLevel::Normal,
        })
    );
    assert_eq!(server_settings(Some("9000"), true).unwrap().port, 9000);
}

#[test]
fn server_settings_in_development() {
    assert_eq!(
        server_settings(Some("8081"), false),
        Ok(ServerSettings {
            environment: Environment::Development,
            loopback_only: true,
            port: 8081,
            log_level: LogLevel::Debug,
        })
    );
    assert_eq!(server_settings(None, false).unwrap().port, 3000);
}

#[test]
fn server_settings_refuse_bad_port() {
    assert_eq!(server_settings(Some("port"), true), Err(InvalidPort));
    assert_eq!(server_settings(Some("70000"), false), Err(InvalidPort));
}
