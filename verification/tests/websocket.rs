use rustyscript::ext::web::Permissions;
use rustyscript::ext::websocket::{extensions, snapshot_extensions, ExtensionInit, WebSocketOptions};

fn sample_options() -> WebSocketOptions<u32> {
    WebSocketOptions {
        user_agent: "agent/1.0".to_string(),
        root_cert_store_provider: Some(7),
        unsafely_ignore_certificate_errors: Some(vec!["localhost".to_string()]),
    }
}

#[test]
fn default_options_are_empty() {
    let options: WebSocketOptions<u32> = WebSocketOptions::default();
    assert_eq!(options.user_agent, "");
    assert!(options.root_cert_store_provider.is_none());
    assert!(options.unsafely_ignore_certificate_errors.is_none());
}

#[test]
fn extensions_lists_transport_then_globals_with_sources() {
    let list = extensions(sample_options());
    assert_eq!(list.len(), 2);
    match &list[0] {
        ExtensionInit::Transport { options, with_sources } => {
            assert_eq!(options.user_agent, "agent/1.0");
            assert_eq!(options.root_cert_store_provider, Some(7));
            assert_eq!(
                options.unsafely_ignore_certificate_errors,
                Some(vec!["localhost".to_string()])
            );
            assert!(*with_sources);
        }
        _ => panic!("the transport comes first"),
    }
    match &list[1] {
        ExtensionInit::Globals { with_sources } => assert!(*with_sources),
        _ => panic!("the globals come second"),
    }
}

#[test]
fn snapshot_extensions_lists_the_same_without_sources() {
    let list = snapshot_extensions(sample_options());
    assert_eq!(list.len(), 2);
    match &list[0] {
        ExtensionInit::Transport { options, with_sources } => {
            assert_eq!(options.user_agent, "agent/1.0");
            assert_eq!(options.root_cert_store_provider, Some(7));
            assert!(!*with_sources);
        }
        _ => panic!("the transport comes first"),
    }
    match &list[1] {
        ExtensionInit::Globals { with_sources } => assert!(!*with_sources),
        _ => panic!("the globals come second"),
    }
}

#[test]
fn check_net_url_allows_every_url() {
    let mut permissions = Permissions;
    let secure = url::Url::parse("wss://example.com/socket").unwrap();
    let local = url::Url::parse("ws://127.0.0.1:8080/").unwrap();
    assert_eq!(permissions.check_net_url(&secure, "WebSocket()"), Ok(()));
    assert_eq!(permissions.check_net_url(&local, "new WebSocketStream()"), Ok(()));
    assert_eq!(permissions.check_net_url(&local, ""), Ok(()));
    assert_eq!(permissions, Permissions);
}
