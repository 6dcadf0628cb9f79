use vstd::prelude::*;

use crate::text::{
    concat2, concat3, contains_seq, find_exec, first_occurrence, has_prefix, starts_with_exec,
    str_eq, substring,
};

verus! {

/// Why a configuration value was refused.
#[derive(Clone, Copy, Debug, PartialEq, Eq, Structural)]
pub enum ConfigError {
    /// A `proxy_pass_to` value with none of the known schemes.
    UnknownProxyPassTo,
    /// An `ssh:` target without the `->` between credentials and remote part.
    InvalidSshTarget,
    /// An endpoint type token other than `http`, `https`, `http2`, `https2`, `tcp`.
    UnknownEndpointType,
    /// An `https` or `https2` endpoint without an SSL certificate.
    MissingSslCertificate,
    /// A `tcp` endpoint whose host does not have exactly one location.
    TcpLocationCount,
    /// A `tcp` endpoint whose location cannot be relayed as raw bytes.
    TcpUnsupportedProxyPass,
    /// Hosts that share a listen port with different endpoint types.
    PortTypeConflict,
    /// An `ssh:` target whose credentials name no entry of the `ssh` section.
    UnknownSshConfig,
}

/// What is reached over an SSH session: a host and port to tunnel to, or a
/// remote path to fetch files under (absolute, or starting with `~`).
pub enum SshContent {
    RemoteHost(String),
    FilePath { path: String, default_file: Option<String> },
}

/// An `ssh:` target: the credentials reference (the text between `ssh:` and
/// `->`, such as `${id}`) and what is reached with it.
pub struct SshConfiguration {
    pub credentials: String,
    pub remote_content: SshContent,
}

/// Where the requests of a location go.
pub enum ProxyPassTo {
    Http(String),
    Tcp(String),
    Ssh(SshConfiguration),
    LocalPath(String),
    Static,
}

pub enum SshContentModel {
    RemoteHost(Seq<char>),
    FilePath(Seq<char>, Option<Seq<char>>),
}

pub struct SshConfigurationModel {
    pub credentials: Seq<char>,
    pub remote_content: SshContentModel,
}

pub enum ProxyPassModel {
    Http(Seq<char>),
    Tcp(Seq<char>),
    Ssh(SshConfigurationModel),
    LocalPath(Seq<char>),
    Static,
}

pub open spec fn opt_view(o: Option<String>) -> Option<Seq<char>> {
    match o {
        Some(s) => Some(s@),
        None => None,
    }
}

impl View for SshContent {
    type V = SshContentModel;

    open spec fn view(&self) -> SshContentModel {
        match self {
            SshContent::RemoteHost(h) => SshContentModel::RemoteHost(h@),
            SshContent::FilePath { path, default_file } => SshContentModel::FilePath(
                path@,
                opt_view(*default_file),
            ),
        }
    }
}

impl View for SshConfiguration {
    type V = SshConfigurationModel;

    open spec fn view(&self) -> SshConfigurationModel {
        SshConfigurationModel { credentials: self.credentials@, remote_content: self.remote_content@ }
    }
}

impl View for ProxyPassTo {
    type V = ProxyPassModel;

    open spec fn view(&self) -> ProxyPassModel {
        match self {
            ProxyPassTo::Http(u) => ProxyPassModel::Http(u@),
            ProxyPassTo::Tcp(a) => ProxyPassModel::Tcp(a@),
            ProxyPassTo::Ssh(c) => ProxyPassModel::Ssh(c@),
            ProxyPassTo::LocalPath(p) => ProxyPassModel::LocalPath(p@),
            ProxyPassTo::Static => ProxyPassModel::Static,
        }
    }
}

pub open spec fn http_prefix() -> Seq<char> {
    "http://"@
}

pub open spec fn https_prefix() -> Seq<char> {
    "https://"@
}

pub open spec fn tcp_prefix() -> Seq<char> {
    "tcp://"@
}

pub open spec fn ssh_prefix() -> Seq<char> {
    "ssh:"@
}

pub open spec fn file_prefix() -> Seq<char> {
    "file:"@
}

pub open spec fn static_value() -> Seq<char> {
    "static:"@
}

pub open spec fn ssh_separator() -> Seq<char> {
    "->"@
}

pub open spec fn default_file_marker() -> Seq<char> {
    ";default="@
}

/// A remote part that starts with `/` or `~` names a path; anything else is
/// a host and port. A path may carry `;default=<file>`, split at its first
/// occurrence.
pub open spec fn parse_ssh_content(r: Seq<char>) -> SshContentModel {
    if r.len() > 0 && (r[0] == '/' || r[0] == '~') {
        if contains_seq(r, default_file_marker()) {
            let k = first_occurrence(r, default_file_marker());
            SshContentModel::FilePath(
                r.subrange(0, k),
                Some(r.subrange(k + default_file_marker().len(), r.len() as int)),
            )
        } else {
            SshContentModel::FilePath(r, None)
        }
    } else {
        SshContentModel::RemoteHost(r)
    }
}

/// Reads `<credentials>-><remote>` (what follows `ssh:`), split at the first `->`.
pub open spec fn parse_ssh_target(s: Seq<char>) -> Result<SshConfigurationModel, ConfigError> {
    if contains_seq(s, ssh_separator()) {
        let k = first_occurrence(s, ssh_separator());
        Ok(
            SshConfigurationModel {
                credentials: s.subrange(0, k),
                remote_content: parse_ssh_content(
                    s.subrange(k + ssh_separator().len(), s.len() as int),
                ),
            },
        )
    } else {
        Err(ConfigError::InvalidSshTarget)
    }
}

pub open spec fn after(s: Seq<char>, p: Seq<char>) -> Seq<char> {
    s.subrange(p.len() as int, s.len() as int)
}

/// What a `proxy_pass_to` value means.
pub open spec fn parse_proxy_pass(s: Seq<char>) -> Result<ProxyPassModel, ConfigError> {
    if has_prefix(s, http_prefix()) || has_prefix(s, https_prefix()) {
        Ok(ProxyPassModel::Http(s))
    } else if has_prefix(s, tcp_prefix()) {
        Ok(ProxyPassModel::Tcp(after(s, tcp_prefix())))
    } else if has_prefix(s, ssh_prefix()) {
        match parse_ssh_target(after(s, ssh_prefix())) {
            Ok(c) => Ok(ProxyPassModel::Ssh(c)),
            Err(e) => Err(e),
        }
    } else if has_prefix(s, file_prefix()) {
        Ok(ProxyPassModel::LocalPath(after(s, file_prefix())))
    } else if s == static_value() {
        Ok(ProxyPassModel::Static)
    } else {
        Err(ConfigError::UnknownProxyPassTo)
    }
}

pub open spec fn ssh_content_text(c: SshContentModel) -> Seq<char> {
    match c {
        SshContentModel::RemoteHost(h) => h,
        SshContentModel::FilePath(p, None) => p,
        SshContentModel::FilePath(p, Some(d)) => p + default_file_marker() + d,
    }
}

pub open spec fn ssh_target_text(c: SshConfigurationModel) -> Seq<char> {
    c.credentials + ssh_separator() + ssh_content_text(c.remote_content)
}

/// The `proxy_pass_to` text of a target.
pub open spec fn proxy_pass_text(p: ProxyPassModel) -> Seq<char> {
    match p {
        ProxyPassModel::Http(u) => u,
        ProxyPassModel::Tcp(a) => tcp_prefix() + a,
        ProxyPassModel::Ssh(c) => ssh_prefix() + ssh_target_text(c),
        ProxyPassModel::LocalPath(p) => file_prefix() + p,
        ProxyPassModel::Static => static_value(),
    }
}

pub open spec fn result_view(r: Result<ProxyPassTo, ConfigError>) -> Result<
    ProxyPassModel,
    ConfigError,
> {
    match r {
        Ok(v) => Ok(v@),
        Err(e) => Err(e),
    }
}

pub open spec fn ssh_result_view(r: Result<SshConfiguration, ConfigError>) -> Result<
    SshConfigurationModel,
    ConfigError,
> {
    match r {
        Ok(v) => Ok(v@),
        Err(e) => Err(e),
    }
}

proof fn lemma_prefix_split(s: Seq<char>, p: Seq<char>)
    requires
        has_prefix(s, p),
    ensures
        s == p + after(s, p),
{
    assert(s =~= p + after(s, p));
}

proof fn lemma_split_at(s: Seq<char>, k: int, m: Seq<char>)
    requires
        0 <= k,
        k + m.len() <= s.len(),
        s.subrange(k, k + m.len()) == m,
    ensures
        s == s.subrange(0, k) + m + s.subrange(k + m.len(), s.len() as int),
{
    assert(s =~= s.subrange(0, k) + m + s.subrange(k + m.len(), s.len() as int));
}

/// Reading the remote part of an SSH target and writing it back gives the
/// same text.
pub proof fn lemma_ssh_content_round_trip(r: Seq<char>)
    ensures
        ssh_content_text(parse_ssh_content(r)) == r,
{
    if r.len() > 0 && (r[0] == '/' || r[0] == '~') {
        if contains_seq(r, default_file_marker()) {
            let k = first_occurrence(r, default_file_marker());
            crate::text::lemma_first_occurrence(r, default_file_marker());
            lemma_split_at(r, k, default_file_marker());
        }
    }
}

/// Reading an SSH target and writing it back gives the same text.
pub proof fn lemma_ssh_target_round_trip(s: Seq<char>)
    requires
        parse_ssh_target(s) is Ok,
    ensures
        ssh_target_text(parse_ssh_target(s)->Ok_0) == s,
{
    let k = first_occurrence(s, ssh_separator());
    crate::text::lemma_first_occurrence(s, ssh_separator());
    lemma_split_at(s, k, ssh_separator());
    lemma_ssh_content_round_trip(s.subrange(k + ssh_separator().len(), s.len() as int));
}

/// Every `proxy_pass_to` value that is accepted is written back exactly as
/// it was read.
pub proof fn lemma_proxy_pass_round_trip(s: Seq<char>)
    requires
        parse_proxy_pass(s) is Ok,
    ensures
        proxy_pass_text(parse_proxy_pass(s)->Ok_0) == s,
{
    if has_prefix(s, http_prefix()) || has_prefix(s, https_prefix()) {
    } else if has_prefix(s, tcp_prefix()) {
        lemma_prefix_split(s, tcp_prefix());
    } else if has_prefix(s, ssh_prefix()) {
        lemma_prefix_split(s, ssh_prefix());
        lemma_ssh_target_round_trip(after(s, ssh_prefix()));
    } else if has_prefix(s, file_prefix()) {
        lemma_prefix_split(s, file_prefix());
    }
}

impl SshContent {
    /// Reads the remote part of an SSH target.
    pub fn parse(r: &str) -> (res: SshContent)
        ensures
            res@ == parse_ssh_content(r@),
    {
        let n = r.unicode_len();
        if n > 0 && (r.get_char(0) == '/' || r.get_char(0) == '~') {
            match find_exec(r, ";default=") {
                Some(k) => {
                    let m = ";default=".unicode_len();
                    SshContent::FilePath {
                        path: substring(r, 0, k),
                        default_file: Some(substring(r, k + m, n)),
                    }
                },
                None => SshContent::FilePath { path: r.to_owned(), default_file: None },
            }
        } else {
            SshContent::RemoteHost(r.to_owned())
        }
    }

    /// The text of the remote part.
    pub fn as_string(&self) -> (r: String)
        ensures
            r@ == ssh_content_text(self@),
    {
        match self {
            SshContent::RemoteHost(h) => h.clone(),
            SshContent::FilePath { path, default_file } => match default_file {
                Some(d) => concat3(path.as_str(), ";default=", d.as_str()),
                None => path.clone(),
            },
        }
    }
}

impl SshConfiguration {
    /// Reads `<credentials>-><remote>`.
    pub fn parse(s: &str) -> (r: Result<SshConfiguration, ConfigError>)
        ensures
            ssh_result_view(r) == parse_ssh_target(s@),
    {
        match find_exec(s, "->") {
            Some(k) => {
                let n = s.unicode_len();
                let m = "->".unicode_len();
                let rest = substring(s, k + m, n);
                Ok(
                    SshConfiguration {
                        credentials: substring(s, 0, k),
                        remote_content: SshContent::parse(rest.as_str()),
                    },
                )
            },
            None => Err(ConfigError::InvalidSshTarget),
        }
    }

    /// The text `<credentials>-><remote>`.
    pub fn as_string(&self) -> (r: String)
        ensures
            r@ == ssh_target_text(self@),
    {
        let content = self.remote_content.as_string();
        concat3(self.credentials.as_str(), "->", content.as_str())
    }
}

/// The text that follows the prefix `p` of `s`.
fn rest_after(s: &str, p: &str) -> (r: String)
    requires
        has_prefix(s@, p@),
    ensures
        r@ == after(s@, p@),
{
    substring(s, p.unicode_len(), s.unicode_len())
}

impl ProxyPassTo {
    /// Reads a `proxy_pass_to` value.
    pub fn parse(s: &str) -> (r: Result<ProxyPassTo, ConfigError>)
        ensures
            result_view(r) == parse_proxy_pass(s@),
    {
        if starts_with_exec(s, "http://") || starts_with_exec(s, "https://") {
            Ok(ProxyPassTo::Http(s.to_owned()))
        } else if starts_with_exec(s, "tcp://") {
            Ok(ProxyPassTo::Tcp(rest_after(s, "tcp://")))
        } else if starts_with_exec(s, "ssh:") {
            let rest = rest_after(s, "ssh:");
            match SshConfiguration::parse(rest.as_str()) {
                Ok(c) => Ok(ProxyPassTo::Ssh(c)),
                Err(e) => Err(e),
            }
        } else if starts_with_exec(s, "file:") {
            Ok(ProxyPassTo::LocalPath(rest_after(s, "file:")))
        } else if str_eq(s, "static:") {
            Ok(ProxyPassTo::Static)
        } else {
            Err(ConfigError::UnknownProxyPassTo)
        }
    }

    /// The `proxy_pass_to` text of this target.
    pub fn as_string(&self) -> (r: String)
        ensures
            r@ == proxy_pass_text(self@),
    {
        match self {
            ProxyPassTo::Http(u) => u.clone(),
            ProxyPassTo::Tcp(a) => concat2("tcp://", a.as_str()),
            ProxyPassTo::Ssh(c) => {
                let t = c.as_string();
                concat2("ssh:", t.as_str())
            },
            ProxyPassTo::LocalPath(p) => concat2("file:", p.as_str()),
            ProxyPassTo::Static => "static:".to_owned(),
        }
    }
}

} // verus!
