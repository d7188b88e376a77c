//! Session and cache property builders, and event value objects.

use rsolace::solcache::CacheSessionProps;
use rsolace::solevent::SolEvent;
use rsolace::solprops::SessionProps;
use rsolace::types::SolClientSessionEvent;

#[test]
fn test_ssl_trust_store_dir_none() {
    let props = SessionProps::default().ssl_trust_store_dir(None);
    assert!(props.ssl_trust_store_dir.is_none());
}

#[test]
fn test_ssl_trust_store_dir_empty_string() {
    // Empty string should be set (not ignored)
    let props = SessionProps::default().ssl_trust_store_dir(Some(""));
    assert!(props.ssl_trust_store_dir.is_some());
}

#[test]
fn test_ssl_trust_store_dir_with_path() {
    let props = SessionProps::default().ssl_trust_store_dir(Some("/path/to/certs"));
    assert!(props.ssl_trust_store_dir.is_some());
}

#[test]
fn test_ssl_validate_certificate() {
    let props = SessionProps::default().ssl_validate_certificate(Some(false));
    assert!(props.ssl_validate_certificate.is_some());
}

#[test]
fn test_ssl_validate_certificate_none() {
    let props = SessionProps::default().ssl_validate_certificate(None);
    assert!(props.ssl_validate_certificate.is_none());
}

#[test]
fn session_props_defaults() {
    let props = SessionProps::default();
    assert_eq!(props.host, "");
    assert_eq!(props.connect_timeout_ms, 30000);
    assert!(props.tcp_nodelay);
    assert_eq!(props.keep_alive_int_ms, 3000);
    assert_eq!(props.keep_alive_limit, 3);
    assert_eq!(props.compression_level, 0);
    assert_eq!(props.connect_retries, 0);
    assert_eq!(props.reconnect_retry_wait_ms, 3000);
    assert!(!props.reapply_subscriptions);
    assert!(props.oauth2_access_token.is_none());
}

#[test]
fn session_props_builder_chain_sets_fields() {
    let props = SessionProps::default()
        .host("tcps://localhost:55443")
        .vpn("default")
        .username("user")
        .password("pass")
        .compression_level(1)
        .connect_timeout_ms(5000)
        .client_name("c1")
        .keep_alive_int_ms(1000)
        .keep_alive_limit(5)
        .connect_retries(3)
        .reconnect_retries(10)
        .reconnect_retry_wait_ms(250)
        .reapply_subscriptions(true)
        .generate_sender_id(true)
        .generate_sequence_number(true)
        .generate_send_timestamps(true)
        .generate_rcv_timestamps(true)
        .tcp_nodelay(false)
        .ssl_trust_store_dir(Some("/certs"))
        .ssl_validate_certificate(Some(true));
    assert_eq!(props.host, "tcps://localhost:55443");
    assert_eq!(props.vpn, "default");
    assert_eq!(props.username, "user");
    assert_eq!(props.password, "pass");
    assert_eq!(props.compression_level, 1);
    assert_eq!(props.connect_timeout_ms, 5000);
    assert_eq!(props.client_name, "c1");
    assert_eq!(props.keep_alive_int_ms, 1000);
    assert_eq!(props.keep_alive_limit, 5);
    assert_eq!(props.connect_retries, 3);
    assert_eq!(props.reconnect_retries, 10);
    assert_eq!(props.reconnect_retry_wait_ms, 250);
    assert!(props.reapply_subscriptions);
    assert!(props.generate_sender_id);
    assert!(props.generate_sequence_number);
    assert!(props.generate_send_timestamps);
    assert!(props.generate_rcv_timestamps);
    assert!(!props.tcp_nodelay);
    assert_eq!(props.ssl_trust_store_dir.as_deref(), Some("/certs"));
    assert_eq!(props.ssl_validate_certificate, Some(true));
}

#[test]
fn auth_props_builder_sets_fields() {
    let props = SessionProps::default()
        .authentication_scheme(Some("AUTHENTICATION_SCHEME_OAUTH2"))
        .oauth2_access_token(Some("tok"))
        .oauth2_issuer_identifier(Some("iss"))
        .oidc_id_token(Some("idt"))
        .ssl_cipher_suites(Some("suite"))
        .ssl_excluded_protocols(Some("SSLv3"))
        .ssl_client_certificate_file(Some("/c.pem"))
        .ssl_client_private_key_file(Some("/k.pem"))
        .ssl_client_private_key_file_password(Some("pw"))
        .ssl_trusted_common_name_list(Some("cn1,cn2"))
        .ssl_validate_certificate_date(Some(true))
        .ssl_validate_certificate_host(Some(false));
    assert_eq!(props.authentication_scheme.as_deref(), Some("AUTHENTICATION_SCHEME_OAUTH2"));
    assert_eq!(props.oauth2_access_token.as_deref(), Some("tok"));
    assert_eq!(props.oauth2_issuer_identifier.as_deref(), Some("iss"));
    assert_eq!(props.oidc_id_token.as_deref(), Some("idt"));
    assert_eq!(props.ssl_cipher_suites.as_deref(), Some("suite"));
    assert_eq!(props.ssl_excluded_protocols.as_deref(), Some("SSLv3"));
    assert_eq!(props.ssl_client_certificate_file.as_deref(), Some("/c.pem"));
    assert_eq!(props.ssl_client_private_key_file.as_deref(), Some("/k.pem"));
    assert_eq!(props.ssl_client_private_key_file_password.as_deref(), Some("pw"));
    assert_eq!(props.ssl_trusted_common_name_list.as_deref(), Some("cn1,cn2"));
    assert_eq!(props.ssl_validate_certificate_date, Some(true));
    assert_eq!(props.ssl_validate_certificate_host, Some(false));
}

#[test]
fn cache_props_defaults_and_builder() {
    let props = CacheSessionProps::default();
    assert_eq!(props.cache_name, "");
    assert_eq!(props.max_msgs, 1);
    assert_eq!(props.max_age, 0);
    assert_eq!(props.request_reply_timeout_ms, 10000);
    let props = CacheSessionProps::default()
        .cache_name("dc1")
        .max_msgs(0)
        .max_age(60)
        .request_reply_timeout(2500);
    assert_eq!(props.cache_name, "dc1");
    assert_eq!(props.max_msgs, 0);
    assert_eq!(props.max_age, 60);
    assert_eq!(props.request_reply_timeout_ms, 2500);
}

#[test]
fn event_carries_its_parts() {
    let ev = SolEvent::new(SolClientSessionEvent::ReconnectingNotice, 0, "link down");
    assert_eq!(ev.session_event, SolClientSessionEvent::ReconnectingNotice);
    assert_eq!(ev.response_code, 0);
    assert_eq!(ev.info, "link down");
    assert_eq!(ev.get_session_event_string(), "ReconnectingNotice");
}
