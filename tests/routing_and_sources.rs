use my_reverse_proxy::client_certs::{alpn_protocols, SavedClientCerts};
use my_reverse_proxy::content_type::{detect_by_extension, WebContentType};
use my_reverse_proxy::engine::{after_outcome, next_action, SourceAction, SourceState};
use my_reverse_proxy::proxy_pass_to::ProxyPassTo;
use my_reverse_proxy::routing::{
    error_response, find_host, is_hop_by_hop, find_location, is_user_allowed, route_request, HostConfiguration,
    Location, ProxyPassError,
};
use my_reverse_proxy::ssh_file::{
    FileOverSshRequestExecutor, PathOverSshContentSource, SshFailure,
};

fn loc(prefix: &str, allowed: Option<Vec<&str>>) -> Location {
    Location {
        path_prefix: prefix.to_string(),
        proxy_pass: ProxyPassTo::Static,
        allowed_users: allowed.map(|v| v.into_iter().map(|s| s.to_string()).collect()),
    }
}

#[test]
fn longest_prefix_location_is_selected() {
    let locations = vec![loc("/", None), loc("/api", None), loc("/api/v2", None)];
    assert_eq!(find_location(&locations, "/api/v2/x"), Some(2));
    assert_eq!(find_location(&locations, "/api/x"), Some(1));
    assert_eq!(find_location(&locations, "/index.html"), Some(0));
}

#[test]
fn equal_prefixes_go_by_declaration_order() {
    let locations = vec![loc("/a", None), loc("/", None), loc("/a", None)];
    assert_eq!(find_location(&locations, "/a/b"), Some(0));
    let none = vec![loc("/api", None)];
    assert_eq!(find_location(&none, "/other"), None);
    let empty: Vec<Location> = vec![];
    assert_eq!(find_location(&empty, "/"), None);
}

fn hosts() -> Vec<HostConfiguration> {
    vec![
        HostConfiguration { host: "a.test:8080".to_string(), locations: vec![loc("/", None)] },
        HostConfiguration {
            host: "s.test:8443".to_string(),
            locations: vec![loc("/secret", Some(vec!["alice"]))],
        },
    ]
}

#[test]
fn routing_outcomes() {
    let h = hosts();
    assert_eq!(find_host(&h, "s.test:8443"), Some(1));
    assert_eq!(route_request(&h, "a.test:8080", "/hello", &None), Ok((0, 0)));
    assert_eq!(route_request(&h, "b.test", "/", &None), Err(ProxyPassError::NoHostFound));
    assert_eq!(route_request(&h, "s.test:8443", "/open", &None), Err(ProxyPassError::NoLocationFound));
}

#[test]
fn client_certificate_allow_list() {
    let h = hosts();
    let alice = Some("alice".to_string());
    let bob = Some("bob".to_string());
    assert_eq!(route_request(&h, "s.test:8443", "/secret", &alice), Ok((1, 0)));
    assert_eq!(route_request(&h, "s.test:8443", "/secret", &bob), Err(ProxyPassError::Forbidden));
    assert_eq!(route_request(&h, "s.test:8443", "/secret", &None), Err(ProxyPassError::Forbidden));
    assert!(is_user_allowed(&None, &None));
}

#[test]
fn error_responses() {
    let r = error_response(ProxyPassError::Timeout);
    assert_eq!((r.status_code, r.body.as_str()), (500, "Timeout"));
    let r = error_response(ProxyPassError::NoLocationFound);
    assert_eq!((r.status_code, r.body.as_str()), (404, "Not Found"));
    let r = error_response(ProxyPassError::NoHostFound);
    assert_eq!((r.status_code, r.body.as_str()), (404, "Not Found"));
    let r = error_response(ProxyPassError::Forbidden);
    assert_eq!(r.status_code, 403);
    let r = error_response(ProxyPassError::UpstreamIo);
    assert_eq!((r.status_code, r.body.as_str()), (500, "Internal Server Error"));
    assert!(ProxyPassError::Timeout.is_timeout());
    assert!(!ProxyPassError::SshSessionError.is_timeout());
}

#[test]
fn timed_out_source_reconnects_next_time() {
    assert_eq!(next_action(SourceState::Disconnected), SourceAction::Connect);
    let s = after_outcome(Ok(()));
    assert_eq!(next_action(s), SourceAction::Send);
    let s = after_outcome(Err(ProxyPassError::Timeout));
    assert_eq!(s, SourceState::Disconnected);
    assert_eq!(next_action(s), SourceAction::Connect);
}

fn connected_source(default_file: Option<&str>) -> PathOverSshContentSource {
    let mut src = PathOverSshContentSource::new(
        "${srv}".to_string(),
        "/var/www".to_string(),
        default_file.map(|s| s.to_string()),
        5000,
    );
    assert!(src.needs_connect());
    assert_eq!(src.connect_if_require(Ok(())), Ok(()));
    assert!(!src.needs_connect());
    src
}

#[test]
fn ssh_file_default_index() {
    let src = connected_source(Some("index.html"));
    let exec = src.get_request_executor("/").ok().unwrap();
    assert!(!exec.needs_home());
    let path = exec.remote_file_path();
    assert_eq!(path, "/var/www/index.html");
    let r = FileOverSshRequestExecutor::complete(&path, Ok(b"<html/>".to_vec())).ok().unwrap();
    assert_eq!(r.status_code, 200);
    assert_eq!(r.content_type, Some(WebContentType::Html));
    assert_eq!(r.content_type.unwrap().as_str(), "text/html");
    assert_eq!(r.body, b"<html/>".to_vec());
}

#[test]
fn ssh_file_missing_is_not_found() {
    let src = connected_source(Some("index.html"));
    let exec = src.get_request_executor("/missing.html").ok().unwrap();
    let path = exec.remote_file_path();
    assert_eq!(path, "/var/www/missing.html");
    let r = FileOverSshRequestExecutor::complete(&path, Err(SshFailure { session_code: Some(-28) }))
        .ok()
        .unwrap();
    assert_eq!(r.status_code, 404);
    assert_eq!(r.content_type, None);
    assert_eq!(r.body, b"Not found".to_vec());
    let e = FileOverSshRequestExecutor::complete(&path, Err(SshFailure { session_code: Some(-7) }));
    assert_eq!(e.err(), Some(ProxyPassError::SshSessionError));
    let e = FileOverSshRequestExecutor::complete(&path, Err(SshFailure { session_code: None }));
    assert_eq!(e.err(), Some(ProxyPassError::SshSessionError));
}

#[test]
fn ssh_source_must_be_connected() {
    let mut src = PathOverSshContentSource::new("${srv}".to_string(), "/w".to_string(), None, 1);
    assert_eq!(src.get_request_executor("/a").err(), Some(ProxyPassError::ConnectionIsDisposed));
    assert_eq!(src.connect_if_require(Err(ProxyPassError::Timeout)), Err(ProxyPassError::Timeout));
    assert!(src.needs_connect());
    assert_eq!(src.connect_if_require(Ok(())), Ok(()));
    src.disconnect();
    assert!(src.needs_connect());
    let src = connected_source(None);
    let exec = src.get_request_executor("/").ok().unwrap();
    assert_eq!(exec.remote_file_path(), "/var/www/");
}

#[test]
fn home_shorthand_expands_once_at_the_start() {
    let mut src = PathOverSshContentSource::new("${srv}".to_string(), "~/foo".to_string(), None, 1);
    src.connect_if_require(Ok(())).unwrap();
    let mut exec = src.get_request_executor("/a~b.txt").ok().unwrap();
    assert!(exec.needs_home());
    exec.remember_home("  /home/u\n");
    assert_eq!(exec.home_value(), Some("/home/u".to_string()));
    assert!(!exec.needs_home());
    assert_eq!(exec.remote_file_path(), "/home/u/foo/a~b.txt");
    src.set_home_value(exec.home_value().unwrap());
    let exec2 = src.get_request_executor("/x").ok().unwrap();
    assert!(!exec2.needs_home());
    assert_eq!(exec2.remote_file_path(), "/home/u/foo/x");
}

#[test]
fn content_types_by_extension() {
    assert_eq!(detect_by_extension("/var/www/index.html"), Some(WebContentType::Html));
    assert_eq!(detect_by_extension("a.min.js"), Some(WebContentType::JavaScript));
    assert_eq!(detect_by_extension("/v1.2/readme"), None);
    assert_eq!(detect_by_extension("file.unknown"), None);
    assert_eq!(detect_by_extension(""), None);
    assert_eq!(detect_by_extension("x.png"), Some(WebContentType::Png));
}

#[test]
fn client_cert_slot_hands_over_one_value() {
    let mut certs = SavedClientCerts::new();
    assert!(certs.create_slot(7));
    assert!(!certs.create_slot(7));
    assert_eq!(certs.take(7), None);
    assert!(certs.publish(7, Some("alice".to_string())));
    assert!(!certs.publish(7, None));
    assert_eq!(certs.take(7), Some(Some("alice".to_string())));
    assert_eq!(certs.take(7), None);
    assert!(!certs.publish(7, None));
    assert!(certs.create_slot(8));
    assert!(certs.publish(8, None));
    assert_eq!(certs.take(8), Some(None));
}

#[test]
fn alpn_lists() {
    assert_eq!(alpn_protocols(true), vec![b"h2".to_vec()]);
    assert_eq!(
        alpn_protocols(false),
        vec![b"h2".to_vec(), b"http/1.1".to_vec(), b"http/1.0".to_vec()]
    );
}

#[test]
fn hop_by_hop_headers_are_recognised() {
    assert!(is_hop_by_hop("connection"));
    assert!(is_hop_by_hop("transfer-encoding"));
    assert!(!is_hop_by_hop("content-type"));
    assert!(!is_hop_by_hop("x-upstream"));
}
