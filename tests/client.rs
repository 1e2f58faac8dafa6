use snx_gui::client::{
    apply_status, config_to_save, connect_request_text, connection_from_response,
    disconnect_request_text, missing_fields, remove_password, response_text, startup_config,
    status_from_reply, status_request_text, strip_nul_bytes, submit_connect, MissingFields,
    ServiceError, StatusIndicators,
};
use snx_gui::model::{
    ConnectionStatus, LoginType, TunnelParams, TunnelServiceRequest, TunnelServiceResponse,
    TunnelType, UserConfig,
};

fn entered_params() -> TunnelParams {
    let mut p = TunnelParams::default();
    p.server_name = "vpn.example.com".to_string();
    p.user_name = "alice".to_string();
    p.password = "s3cret".to_string();
    p.log_level = "debug".to_string();
    p.search_domains = vec!["corp.example.com".to_string()];
    p.no_dns = true;
    p.tunnel_type = TunnelType::Ipsec;
    p.ca_cert = Some("/etc/ca.pem".to_string());
    p.login_type = LoginType::PasswordWithMfa;
    p
}

#[test]
fn remove_password_keeps_the_rest() {
    let r = remove_password(entered_params());
    assert_eq!(r.password, "");
    assert_eq!(r.user_name, "alice");
    assert_eq!(r.server_name, "vpn.example.com");
    assert_eq!(r.log_level, "debug");
    assert_eq!(r.search_domains, vec!["corp.example.com".to_string()]);
    assert!(r.no_dns);
    assert_eq!(r.tunnel_type, TunnelType::Ipsec);
    assert_eq!(r.ca_cert, Some("/etc/ca.pem".to_string()));
    assert_eq!(r.login_type, LoginType::PasswordWithMfa);
}

#[test]
fn saved_config_with_remember_me_drops_password() {
    let saved = config_to_save(UserConfig { tunnel_params: entered_params(), remember_me: true });
    assert!(saved.remember_me);
    assert_eq!(saved.tunnel_params.password, "");
    assert_eq!(saved.tunnel_params.user_name, "alice");
    assert_eq!(saved.tunnel_params.tunnel_type, TunnelType::Ipsec);
    let again = config_to_save(saved.clone());
    assert_eq!(again.tunnel_params.user_name, saved.tunnel_params.user_name);
    assert_eq!(again.tunnel_params.password, "");
    assert!(again.remember_me);
}

#[test]
fn saved_config_without_remember_me_is_default() {
    let saved = config_to_save(UserConfig { tunnel_params: entered_params(), remember_me: false });
    assert!(!saved.remember_me);
    let d = TunnelParams::default();
    assert_eq!(saved.tunnel_params.user_name, d.user_name);
    assert_eq!(saved.tunnel_params.server_name, d.server_name);
    assert_eq!(saved.tunnel_params.password, "");
    assert_eq!(saved.tunnel_params.log_level, "info");
    assert_eq!(saved.tunnel_params.tunnel_type, TunnelType::Ssl);
    assert_eq!(saved.tunnel_params.login_type, LoginType::PasswordWithMsAuth);
    assert!(!saved.tunnel_params.no_dns);
    assert_eq!(saved.tunnel_params.ca_cert, None);
}

#[test]
fn startup_config_without_file_is_default() {
    let c = startup_config(None);
    assert!(!c.remember_me);
    assert_eq!(c.tunnel_params.log_level, "info");
    assert_eq!(c.tunnel_params.user_name, "");
    let loaded = startup_config(Some(UserConfig { tunnel_params: entered_params(), remember_me: true }));
    assert!(loaded.remember_me);
    assert_eq!(loaded.tunnel_params.user_name, "alice");
}

#[test]
fn connect_with_all_required_fields_empty() {
    let attempt = submit_connect(TunnelParams::default());
    assert_eq!(
        attempt.missing,
        MissingFields { username: true, password: true, server_address: true }
    );
    assert!(attempt.request.is_none());
}

#[test]
fn connect_flags_only_the_empty_fields() {
    let mut p = entered_params();
    p.password = String::new();
    let attempt = submit_connect(p);
    assert_eq!(
        attempt.missing,
        MissingFields { username: false, password: true, server_address: false }
    );
    assert!(attempt.request.is_none());
    let mut q = entered_params();
    q.server_name = String::new();
    assert_eq!(
        missing_fields(&q),
        MissingFields { username: false, password: false, server_address: true }
    );
}

#[test]
fn connect_with_complete_fields_sends_request() {
    let attempt = submit_connect(entered_params());
    assert!(attempt.missing.is_complete());
    match attempt.request {
        Some(TunnelServiceRequest::Connect(p)) => {
            assert_eq!(p.user_name, "alice");
            assert_eq!(p.password, "s3cret");
        }
        _ => panic!("expected a connect request"),
    }
}

#[test]
fn request_texts() {
    assert_eq!(status_request_text(), "\"GetStatus\"");
    assert_eq!(disconnect_request_text(), "\"Disconnect\"");
    assert_eq!(connect_request_text("{\"a\":1}"), "{\"Connect\": {\"a\":1}}");
    assert_eq!(connect_request_text(""), "{\"Connect\": }");
}

#[test]
fn strip_nul_bytes_keeps_order() {
    assert_eq!(strip_nul_bytes(&vec![0, 104, 0, 0, 105, 0]), vec![104, 105]);
    assert_eq!(strip_nul_bytes(&vec![0, 0]), Vec::<u8>::new());
    assert_eq!(strip_nul_bytes(&vec![]), Vec::<u8>::new());
}

#[test]
fn response_text_of_a_reply() {
    let mut buf = vec![0u8; 16];
    buf[..4].copy_from_slice(b"\"Ok\"");
    assert_eq!(response_text(&buf, Some(4)), Ok("\"Ok\"".to_string()));
    let accented = vec![0x63, 0x61, 0x66, 0xc3, 0xa9, 0, 0];
    assert_eq!(response_text(&accented, Some(5)), Ok("caf\u{e9}".to_string()));
}

#[test]
fn response_text_errors() {
    let buf = vec![0x41u8, 0, 0];
    assert_eq!(response_text(&buf, None), Err(ServiceError::NotReceived));
    assert_eq!(response_text(&buf, Some(0)), Err(ServiceError::NotReceived));
    assert_eq!(response_text(&vec![0xff, 0xfe, 0], Some(2)), Err(ServiceError::InvalidText));
}

#[test]
fn response_mapping_to_connection() {
    let since = TunnelServiceResponse::ConnectionStatus(ConnectionStatus {
        connected_since: Some("2024-01-01T10:00:00Z".to_string()),
    });
    let down = TunnelServiceResponse::ConnectionStatus(ConnectionStatus { connected_since: None });
    assert!(connection_from_response(&since));
    assert!(!connection_from_response(&down));
    assert!(connection_from_response(&TunnelServiceResponse::Success));
    assert!(!connection_from_response(&TunnelServiceResponse::Error("boom".to_string())));
    assert_eq!(status_from_reply(Some(&since)), Ok(true));
    assert_eq!(status_from_reply(Some(&down)), Ok(false));
    assert_eq!(status_from_reply(None), Err(ServiceError::Unparseable));
}

#[test]
fn status_indicators_follow_outcome() {
    let prev = StatusIndicators { service_running: true, connected: true };
    assert_eq!(
        apply_status(prev, Err(ServiceError::Unparseable)),
        StatusIndicators { service_running: false, connected: true }
    );
    assert_eq!(
        apply_status(prev, Ok(false)),
        StatusIndicators { service_running: true, connected: false }
    );
    let stopped = StatusIndicators { service_running: false, connected: false };
    assert_eq!(
        apply_status(stopped, Ok(true)),
        StatusIndicators { service_running: true, connected: true }
    );
}
