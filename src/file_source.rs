use vstd::prelude::*;

use crate::proxy_pass_to::{
    after, lemma_ssh_target_round_trip, parse_ssh_target, ssh_prefix, ssh_target_text,
    ConfigError, SshConfiguration, SshConfigurationModel,
};
use crate::text::{concat2, has_prefix, starts_with_exec, substring};

verus! {

/// Where a certificate or key file is loaded from.
pub enum FileSource {
    File(String),
    Http(String),
    Ssh(SshConfiguration),
}

pub enum FileSourceModel {
    File(Seq<char>),
    Http(Seq<char>),
    Ssh(SshConfigurationModel),
}

impl View for FileSource {
    type V = FileSourceModel;

    open spec fn view(&self) -> FileSourceModel {
        match self {
            FileSource::File(s) => FileSourceModel::File(s@),
            FileSource::Http(s) => FileSourceModel::Http(s@),
            FileSource::Ssh(c) => FileSourceModel::Ssh(c@),
        }
    }
}

pub open spec fn http_scheme() -> Seq<char> {
    "http"@
}

/// What a source text names: a URL where it starts with `http`, a file over
/// SSH where it starts with `ssh:`, a local file otherwise.
pub open spec fn parse_file_source(s: Seq<char>) -> Result<FileSourceModel, ConfigError> {
    if has_prefix(s, http_scheme()) {
        Ok(FileSourceModel::Http(s))
    } else if has_prefix(s, ssh_prefix()) {
        match parse_ssh_target(after(s, ssh_prefix())) {
            Ok(c) => Ok(FileSourceModel::Ssh(c)),
            Err(e) => Err(e),
        }
    } else {
        Ok(FileSourceModel::File(s))
    }
}

pub open spec fn file_source_text(f: FileSourceModel) -> Seq<char> {
    match f {
        FileSourceModel::File(s) => s,
        FileSourceModel::Http(s) => s,
        FileSourceModel::Ssh(c) => ssh_prefix() + ssh_target_text(c),
    }
}

pub open spec fn file_source_result_view(r: Result<FileSource, ConfigError>) -> Result<
    FileSourceModel,
    ConfigError,
> {
    match r {
        Ok(v) => Ok(v@),
        Err(e) => Err(e),
    }
}

/// Every source text that is accepted is written back exactly as it was read.
pub proof fn lemma_file_source_round_trip(s: Seq<char>)
    requires
        parse_file_source(s) is Ok,
    ensures
        file_source_text(parse_file_source(s)->Ok_0) == s,
{
    if !has_prefix(s, http_scheme()) && has_prefix(s, ssh_prefix()) {
        assert(s =~= ssh_prefix() + after(s, ssh_prefix()));
        lemma_ssh_target_round_trip(after(s, ssh_prefix()));
    }
}

impl FileSource {
    /// Reads a source text.
    pub fn from_src(src: &str) -> (r: Result<FileSource, ConfigError>)
        ensures
            file_source_result_view(r) == parse_file_source(src@),
    {
        if starts_with_exec(src, "http") {
            return Ok(FileSource::Http(src.to_owned()));
        }
        if starts_with_exec(src, "ssh:") {
            let rest = substring(src, "ssh:".unicode_len(), src.unicode_len());
            return match SshConfiguration::parse(rest.as_str()) {
                Ok(c) => Ok(FileSource::Ssh(c)),
                Err(e) => Err(e),
            };
        }
        Ok(FileSource::File(src.to_owned()))
    }

    /// The source text.
    pub fn as_str(&self) -> (r: String)
        ensures
            r@ == file_source_text(self@),
    {
        match self {
            FileSource::File(s) => s.clone(),
            FileSource::Http(s) => s.clone(),
            FileSource::Ssh(c) => {
                let t = c.as_string();
                concat2("ssh:", t.as_str())
            },
        }
    }
}

} // verus!
