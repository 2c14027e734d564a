use notifyme::catalog::{describe, FieldType};
use notifyme::config::{Config, DEFAULT_PORT};
use notifyme::dispatch::NotifyMeService;
use notifyme::server::{bind_address, cors_policy, post_path, sse_path};

#[test]
fn port_defaults_when_unset() {
    assert_eq!(Config::from_port_text(None).mcp_port, DEFAULT_PORT);
    assert_eq!(DEFAULT_PORT, 6656);
}

#[test]
fn port_parses_decimal_text() {
    assert_eq!(Config::from_port_text(Some("8080")).mcp_port, 8080);
    assert_eq!(Config::from_port_text(Some("+123")).mcp_port, 123);
    assert_eq!(Config::from_port_text(Some("007")).mcp_port, 7);
    assert_eq!(Config::from_port_text(Some("65535")).mcp_port, 65535);
    assert_eq!(Config::from_port_text(Some("0")).mcp_port, 0);
}

#[test]
fn port_defaults_on_text_that_is_no_port() {
    assert_eq!(Config::from_port_text(Some("")).mcp_port, DEFAULT_PORT);
    assert_eq!(Config::from_port_text(Some("+")).mcp_port, DEFAULT_PORT);
    assert_eq!(Config::from_port_text(Some("abc")).mcp_port, DEFAULT_PORT);
    assert_eq!(Config::from_port_text(Some("80a")).mcp_port, DEFAULT_PORT);
    assert_eq!(Config::from_port_text(Some("65536")).mcp_port, DEFAULT_PORT);
    assert_eq!(Config::from_port_text(Some("-1")).mcp_port, DEFAULT_PORT);
    assert_eq!(Config::from_port_text(Some(" 80")).mcp_port, DEFAULT_PORT);
    assert_eq!(Config::from_port_text(Some("999999999999999999999")).mcp_port, DEFAULT_PORT);
}

#[test]
fn catalog_lists_the_three_tools_with_their_schemas() {
    let cat = describe();
    let names: Vec<&str> = cat.iter().map(|t| t.name.as_str()).collect();
    assert_eq!(
        names,
        vec!["send_notification", "send_notification_with_duration", "set_notification_sound"]
    );
    for tool in &cat {
        assert!(!tool.description.is_empty());
    }
    let send = &cat[0];
    assert_eq!(send.fields.len(), 2);
    assert_eq!(send.fields[0].name, "title");
    assert!(matches!(send.fields[0].ty, FieldType::Text));
    assert!(send.fields[0].required);
    assert_eq!(send.fields[1].name, "message");
    let timed = &cat[1];
    assert_eq!(timed.fields.len(), 3);
    assert_eq!(timed.fields[2].name, "duration_seconds");
    assert!(matches!(timed.fields[2].ty, FieldType::OptionalUInt));
    assert!(!timed.fields[2].required);
    let sound = &cat[2];
    assert_eq!(sound.fields.len(), 1);
    assert_eq!(sound.fields[0].name, "sound_path");
}

#[test]
fn server_announces_its_identity() {
    let service = NotifyMeService::new(Config::new(6656));
    assert_eq!(service.config.mcp_port, 6656);
    let info = service.get_info();
    assert_eq!(info.name, "NotifyMe");
    assert_eq!(info.version, "0.1.0");
    assert_eq!(info.protocol_version, "2024-11-05");
    assert_eq!(
        info.instructions,
        "NotifyMe MCP server: tools=send_notification, send_notification_with_duration, set_notification_sound"
    );
}

#[test]
fn transport_binds_loopback_with_fixed_paths() {
    assert_eq!(bind_address(6656), "127.0.0.1:6656");
    assert_eq!(bind_address(80), "127.0.0.1:80");
    assert_eq!(sse_path(), "/sse");
    assert_eq!(post_path(), "/message");
}

#[test]
fn cross_origin_policy_is_permissive_without_credentials() {
    let cors = cors_policy();
    assert!(cors.allow_any_origin);
    assert!(cors.allow_any_method);
    assert!(!cors.allow_credentials);
    assert_eq!(cors.allowed_headers, vec!["content-type", "authorization"]);
}
