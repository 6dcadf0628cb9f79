use vstd::prelude::*;

use crate::proxy_pass_to::{
    opt_view, parse_proxy_pass, ConfigError, ProxyPassModel, ProxyPassTo, SshContent,
    SshContentModel,
};
use crate::text::str_eq;

verus! {

/// One location of a host as written in the settings.
pub struct LocationSettings {
    pub location: Option<String>,
    pub proxy_pass_to: String,
}

/// A host's endpoint as written in the settings.
pub struct EndpointSettings {
    pub endpoint_type: String,
    pub ssl_certificate: Option<String>,
    pub client_certificate_ca: Option<String>,
    pub debug: Option<bool>,
}

/// The protocol stack presented on a listen port.
pub enum EndpointType {
    Http1 { host_str: String, debug: bool },
    Https { host_str: String, ssl_id: String, client_ca_id: Option<String>, debug: bool },
    Http2 { host_str: String, debug: bool },
    Https2 { host_str: String, ssl_id: String, client_ca_id: Option<String>, debug: bool },
    Tcp { remote_addr: String, debug: bool },
    TcpOverSsh { ssh_credentials: String, remote_host: String, debug: bool },
}

pub enum EndpointTypeModel {
    Http1 { host_str: Seq<char>, debug: bool },
    Https { host_str: Seq<char>, ssl_id: Seq<char>, client_ca_id: Option<Seq<char>>, debug: bool },
    Http2 { host_str: Seq<char>, debug: bool },
    Https2 {
        host_str: Seq<char>,
        ssl_id: Seq<char>,
        client_ca_id: Option<Seq<char>>,
        debug: bool,
    },
    Tcp { remote_addr: Seq<char>, debug: bool },
    TcpOverSsh { ssh_credentials: Seq<char>, remote_host: Seq<char>, debug: bool },
}

impl View for EndpointType {
    type V = EndpointTypeModel;

    open spec fn view(&self) -> EndpointTypeModel {
        match self {
            EndpointType::Http1 { host_str, debug } => EndpointTypeModel::Http1 {
                host_str: host_str@,
                debug: *debug,
            },
            EndpointType::Https { host_str, ssl_id, client_ca_id, debug } => EndpointTypeModel::Https {
                host_str: host_str@,
                ssl_id: ssl_id@,
                client_ca_id: opt_view(*client_ca_id),
                debug: *debug,
            },
            EndpointType::Http2 { host_str, debug } => EndpointTypeModel::Http2 {
                host_str: host_str@,
                debug: *debug,
            },
            EndpointType::Https2 { host_str, ssl_id, client_ca_id, debug } => EndpointTypeModel::Https2 {
                host_str: host_str@,
                ssl_id: ssl_id@,
                client_ca_id: opt_view(*client_ca_id),
                debug: *debug,
            },
            EndpointType::Tcp { remote_addr, debug } => EndpointTypeModel::Tcp {
                remote_addr: remote_addr@,
                debug: *debug,
            },
            EndpointType::TcpOverSsh { ssh_credentials, remote_host, debug } => EndpointTypeModel::TcpOverSsh {
                ssh_credentials: ssh_credentials@,
                remote_host: remote_host@,
                debug: *debug,
            },
        }
    }
}

pub open spec fn endpoint_result_view(r: Result<EndpointType, ConfigError>) -> Result<
    EndpointTypeModel,
    ConfigError,
> {
    match r {
        Ok(v) => Ok(v@),
        Err(e) => Err(e),
    }
}

/// The debug flag, off where it is not set.
pub open spec fn debug_of(e: EndpointSettings) -> bool {
    match e.debug {
        Some(d) => d,
        None => false,
    }
}

/// What a `tcp` endpoint relays to, given its single location's target.
pub open spec fn tcp_endpoint_of(p: Result<ProxyPassModel, ConfigError>, debug: bool) -> Result<
    EndpointTypeModel,
    ConfigError,
> {
    match p {
        Err(e) => Err(e),
        Ok(ProxyPassModel::Tcp(a)) => Ok(EndpointTypeModel::Tcp { remote_addr: a, debug }),
        Ok(ProxyPassModel::Ssh(c)) => match c.remote_content {
            SshContentModel::RemoteHost(h) => Ok(
                EndpointTypeModel::TcpOverSsh {
                    ssh_credentials: c.credentials,
                    remote_host: h,
                    debug,
                },
            ),
            SshContentModel::FilePath(_, _) => Err(ConfigError::TcpUnsupportedProxyPass),
        },
        Ok(_) => Err(ConfigError::TcpUnsupportedProxyPass),
    }
}

/// The endpoint type that a host's settings and locations describe.
pub open spec fn endpoint_type_of(
    e: EndpointSettings,
    host: Seq<char>,
    locations: Seq<LocationSettings>,
) -> Result<EndpointTypeModel, ConfigError> {
    let t = e.endpoint_type@;
    let debug = debug_of(e);
    if t == "http"@ {
        Ok(EndpointTypeModel::Http1 { host_str: host, debug })
    } else if t == "https"@ || t == "https2"@ {
        match e.ssl_certificate {
            None => Err(ConfigError::MissingSslCertificate),
            Some(ssl) => if t == "https"@ {
                Ok(
                    EndpointTypeModel::Https {
                        host_str: host,
                        ssl_id: ssl@,
                        client_ca_id: opt_view(e.client_certificate_ca),
                        debug,
                    },
                )
            } else {
                Ok(
                    EndpointTypeModel::Https2 {
                        host_str: host,
                        ssl_id: ssl@,
                        client_ca_id: opt_view(e.client_certificate_ca),
                        debug,
                    },
                )
            },
        }
    } else if t == "http2"@ {
        Ok(EndpointTypeModel::Http2 { host_str: host, debug })
    } else if t == "tcp"@ {
        if locations.len() != 1 {
            Err(ConfigError::TcpLocationCount)
        } else {
            tcp_endpoint_of(parse_proxy_pass(locations[0].proxy_pass_to@), debug)
        }
    } else {
        Err(ConfigError::UnknownEndpointType)
    }
}

fn clone_opt(o: &Option<String>) -> (r: Option<String>)
    ensures
        opt_view(r) == opt_view(*o),
{
    match o {
        Some(s) => Some(s.clone()),
        None => None,
    }
}

impl EndpointSettings {
    pub fn get_debug(&self) -> (r: bool)
        ensures
            r == debug_of(*self),
    {
        match self.debug {
            Some(d) => d,
            None => false,
        }
    }

    /// The endpoint type of `host`, checked against its locations.
    pub fn get_type(&self, host: &str, locations: &Vec<LocationSettings>) -> (r: Result<
        EndpointType,
        ConfigError,
    >)
        ensures
            endpoint_result_view(r) == endpoint_type_of(*self, host@, locations@),
    {
        let t = self.endpoint_type.as_str();
        let debug = self.get_debug();
        if str_eq(t, "http") {
            return Ok(EndpointType::Http1 { host_str: host.to_owned(), debug });
        }
        let is_https = str_eq(t, "https");
        if is_https || str_eq(t, "https2") {
            return match &self.ssl_certificate {
                None => Err(ConfigError::MissingSslCertificate),
                Some(ssl) => {
                    if is_https {
                        Ok(
                            EndpointType::Https {
                                host_str: host.to_owned(),
                                ssl_id: ssl.clone(),
                                client_ca_id: clone_opt(&self.client_certificate_ca),
                                debug,
                            },
                        )
                    } else {
                        Ok(
                            EndpointType::Https2 {
                                host_str: host.to_owned(),
                                ssl_id: ssl.clone(),
                                client_ca_id: clone_opt(&self.client_certificate_ca),
                                debug,
                            },
                        )
                    }
                },
            };
        }
        if str_eq(t, "http2") {
            return Ok(EndpointType::Http2 { host_str: host.to_owned(), debug });
        }
        if str_eq(t, "tcp") {
            if locations.len() != 1 {
                return Err(ConfigError::TcpLocationCount);
            }
            let proxy_pass = ProxyPassTo::parse(locations[0].proxy_pass_to.as_str());
            return match proxy_pass {
                Err(e) => Err(e),
                Ok(ProxyPassTo::Tcp(remote_addr)) => Ok(EndpointType::Tcp { remote_addr, debug }),
                Ok(ProxyPassTo::Ssh(c)) => match c.remote_content {
                    SshContent::RemoteHost(remote_host) => Ok(
                        EndpointType::TcpOverSsh {
                            ssh_credentials: c.credentials,
                            remote_host,
                            debug,
                        },
                    ),
                    SshContent::FilePath { .. } => Err(ConfigError::TcpUnsupportedProxyPass),
                },
                Ok(_) => Err(ConfigError::TcpUnsupportedProxyPass),
            };
        }
        Err(ConfigError::UnknownEndpointType)
    }
}

} // verus!
