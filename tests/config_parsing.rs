use my_reverse_proxy::end_point::{EndpointSettings, EndpointType, LocationSettings};
use my_reverse_proxy::engine::{EndpointKind, ListenPorts};
use my_reverse_proxy::file_source::FileSource;
use my_reverse_proxy::proxy_pass_to::{ConfigError, ProxyPassTo, SshContent};
use my_reverse_proxy::ssh_settings::{find_ssh_config, SshAuth, SshConfigSettings};

fn round_trip(s: &str) -> String {
    ProxyPassTo::parse(s).unwrap().as_string()
}

#[test]
fn proxy_pass_round_trips_canonical_forms() {
    for s in [
        "http://127.0.0.1:9001",
        "https://example.com/api",
        "tcp://10.0.0.1:5432",
        "ssh:${srv}->10.0.0.1:22",
        "ssh:${srv}->/var/www;default=index.html",
        "ssh:${srv}->~/site",
        "file:/home/u/www",
        "static:",
    ] {
        assert_eq!(round_trip(s), s);
    }
}

#[test]
fn proxy_pass_variants() {
    match ProxyPassTo::parse("tcp://10.0.0.1:5432").unwrap() {
        ProxyPassTo::Tcp(a) => assert_eq!(a, "10.0.0.1:5432"),
        _ => panic!("expected tcp"),
    }
    match ProxyPassTo::parse("ssh:${srv}->/var/www;default=index.html").unwrap() {
        ProxyPassTo::Ssh(c) => {
            assert_eq!(c.credentials, "${srv}");
            match c.remote_content {
                SshContent::FilePath { path, default_file } => {
                    assert_eq!(path, "/var/www");
                    assert_eq!(default_file, Some("index.html".to_string()));
                }
                _ => panic!("expected a path"),
            }
        }
        _ => panic!("expected ssh"),
    }
    match ProxyPassTo::parse("ssh:${srv}->10.0.0.1:22").unwrap() {
        ProxyPassTo::Ssh(c) => match c.remote_content {
            SshContent::RemoteHost(h) => assert_eq!(h, "10.0.0.1:22"),
            _ => panic!("expected a host"),
        },
        _ => panic!("expected ssh"),
    }
    assert!(matches!(ProxyPassTo::parse("static:").unwrap(), ProxyPassTo::Static));
    match ProxyPassTo::parse("file:/srv").unwrap() {
        ProxyPassTo::LocalPath(p) => assert_eq!(p, "/srv"),
        _ => panic!("expected a local path"),
    }
}

#[test]
fn proxy_pass_errors() {
    assert_eq!(ProxyPassTo::parse("ftp://x").err(), Some(ConfigError::UnknownProxyPassTo));
    assert_eq!(ProxyPassTo::parse("").err(), Some(ConfigError::UnknownProxyPassTo));
    assert_eq!(ProxyPassTo::parse("static:x").err(), Some(ConfigError::UnknownProxyPassTo));
    assert_eq!(ProxyPassTo::parse("ssh:${srv}").err(), Some(ConfigError::InvalidSshTarget));
}

#[test]
fn file_source_kinds_and_text() {
    match FileSource::from_src("https://certs/ca.pem").unwrap() {
        FileSource::Http(s) => assert_eq!(s, "https://certs/ca.pem"),
        _ => panic!("expected http"),
    }
    match FileSource::from_src("/etc/cert.pem").unwrap() {
        FileSource::File(s) => assert_eq!(s, "/etc/cert.pem"),
        _ => panic!("expected file"),
    }
    let ssh = FileSource::from_src("ssh:${srv}->~/cert.pem").unwrap();
    assert!(matches!(ssh, FileSource::Ssh(_)));
    assert_eq!(ssh.as_str(), "ssh:${srv}->~/cert.pem");
    assert_eq!(FileSource::from_src("ssh:nothing").err(), Some(ConfigError::InvalidSshTarget));
}

fn endpoint(t: &str, ssl: Option<&str>, ca: Option<&str>) -> EndpointSettings {
    EndpointSettings {
        endpoint_type: t.to_string(),
        ssl_certificate: ssl.map(|s| s.to_string()),
        client_certificate_ca: ca.map(|s| s.to_string()),
        debug: None,
    }
}

fn location(proxy_pass_to: &str) -> LocationSettings {
    LocationSettings { location: Some("/".to_string()), proxy_pass_to: proxy_pass_to.to_string() }
}

#[test]
fn endpoint_types() {
    let none: Vec<LocationSettings> = vec![];
    match endpoint("http", None, None).get_type("a.test:8080", &none).unwrap() {
        EndpointType::Http1 { host_str, debug } => {
            assert_eq!(host_str, "a.test:8080");
            assert!(!debug);
        }
        _ => panic!("expected http"),
    }
    match endpoint("https", Some("cert1"), Some("CA1")).get_type("s.test:8443", &none).unwrap() {
        EndpointType::Https { ssl_id, client_ca_id, .. } => {
            assert_eq!(ssl_id, "cert1");
            assert_eq!(client_ca_id, Some("CA1".to_string()));
        }
        _ => panic!("expected https"),
    }
    assert!(matches!(
        endpoint("https2", Some("c"), None).get_type("h", &none).unwrap(),
        EndpointType::Https2 { .. }
    ));
    assert!(matches!(
        endpoint("http2", None, None).get_type("h", &none).unwrap(),
        EndpointType::Http2 { .. }
    ));
    let mut debug = endpoint("http", None, None);
    debug.debug = Some(true);
    assert!(debug.get_debug());
}

#[test]
fn tcp_endpoint_types() {
    match endpoint("tcp", None, None).get_type("t", &vec![location("tcp://10.0.0.1:5432")]).unwrap() {
        EndpointType::Tcp { remote_addr, .. } => assert_eq!(remote_addr, "10.0.0.1:5432"),
        _ => panic!("expected tcp"),
    }
    match endpoint("tcp", None, None)
        .get_type("t", &vec![location("ssh:${srv}->10.0.0.1:22")])
        .unwrap()
    {
        EndpointType::TcpOverSsh { ssh_credentials, remote_host, .. } => {
            assert_eq!(ssh_credentials, "${srv}");
            assert_eq!(remote_host, "10.0.0.1:22");
        }
        _ => panic!("expected tcp over ssh"),
    }
}

#[test]
fn endpoint_type_errors() {
    let none: Vec<LocationSettings> = vec![];
    assert_eq!(
        endpoint("https", None, None).get_type("h", &none).err(),
        Some(ConfigError::MissingSslCertificate)
    );
    assert_eq!(
        endpoint("udp", None, None).get_type("h", &none).err(),
        Some(ConfigError::UnknownEndpointType)
    );
    assert_eq!(
        endpoint("tcp", None, None).get_type("h", &none).err(),
        Some(ConfigError::TcpLocationCount)
    );
    assert_eq!(
        endpoint("tcp", None, None).get_type("h", &vec![location("http://x")]).err(),
        Some(ConfigError::TcpUnsupportedProxyPass)
    );
    assert_eq!(
        endpoint("tcp", None, None).get_type("h", &vec![location("ssh:${s}->/var/www")]).err(),
        Some(ConfigError::TcpUnsupportedProxyPass)
    );
    assert_eq!(
        endpoint("tcp", None, None).get_type("h", &vec![location("bogus")]).err(),
        Some(ConfigError::UnknownProxyPassTo)
    );
}

#[test]
fn listen_ports_must_agree() {
    let mut ports = ListenPorts::new();
    assert_eq!(ports.add(8080, EndpointKind::Http1), Ok(()));
    assert_eq!(ports.add(8080, EndpointKind::Http1), Ok(()));
    assert_eq!(ports.add(8080, EndpointKind::Tcp), Err(ConfigError::PortTypeConflict));
    assert_eq!(ports.get(8080), Some(EndpointKind::Http1));
    assert_eq!(ports.get(9090), None);
    let t = EndpointType::Tcp { remote_addr: "x:1".to_string(), debug: false };
    assert_eq!(t.kind(), EndpointKind::Tcp);
}

#[test]
fn ssh_credentials_reference_names_an_entry() {
    let configs = vec![
        SshConfigSettings {
            id: "build".to_string(),
            host: "10.0.0.2".to_string(),
            port: 22,
            user: "ci".to_string(),
            auth: SshAuth::Agent,
        },
        SshConfigSettings {
            id: "srv".to_string(),
            host: "10.0.0.1".to_string(),
            port: 2222,
            user: "u".to_string(),
            auth: SshAuth::Password("pw".to_string()),
        },
    ];
    assert_eq!(find_ssh_config("${srv}", &configs), Ok(1));
    assert_eq!(find_ssh_config("${build}", &configs), Ok(0));
    assert_eq!(find_ssh_config("srv", &configs), Err(ConfigError::UnknownSshConfig));
    assert_eq!(find_ssh_config("${other}", &configs), Err(ConfigError::UnknownSshConfig));
}
