use vstd::prelude::*;

use crate::content_type::{content_type_of_path, detect_by_extension, WebContentType};
use crate::proxy_pass_to::opt_view;
use crate::routing::ProxyPassError;
use crate::text::{concat2, concat3, str_eq, substring};

verus! {

/// The SSH session error code that a remote reports for a missing file.
pub const SSH_FILE_NOT_FOUND_CODE: i32 = -28;

/// A failed SSH operation: the session error code where the failure is one
/// of the SSH library's session errors.
#[derive(Clone, Copy, Debug, PartialEq, Eq, Structural)]
pub struct SshFailure {
    pub session_code: Option<i32>,
}

/// What a content source answers to one request.
pub struct RequestExecutorResult {
    pub status_code: u16,
    pub content_type: Option<WebContentType>,
    pub body: Vec<u8>,
}

/// The remote path of a request: `default_file` under `root` for the path
/// `/` where one is configured, `root` followed by the path otherwise.
pub open spec fn remote_path_of(
    root: Seq<char>,
    uri_path: Seq<char>,
    default_file: Option<Seq<char>>,
) -> Seq<char> {
    if uri_path == "/"@ && default_file is Some {
        root + "/"@ + default_file->Some_0
    } else {
        root + uri_path
    }
}

/// The file that a request for `uri_path` reads under `root`.
pub fn resolve_file_path(root: &str, uri_path: &str, default_file: &Option<String>) -> (r: String)
    ensures
        r@ == remote_path_of(root@, uri_path@, opt_view(*default_file)),
{
    if str_eq(uri_path, "/") {
        match default_file {
            Some(d) => concat3(root, "/", d.as_str()),
            None => concat2(root, uri_path),
        }
    } else {
        concat2(root, uri_path)
    }
}

/// A leading `~` stands for the home directory; nothing else is substituted.
pub open spec fn expand_home(path: Seq<char>, home: Seq<char>) -> Seq<char> {
    if path.len() > 0 && path[0] == '~' {
        home + path.subrange(1, path.len() as int)
    } else {
        path
    }
}

pub open spec fn needs_home_of(path: Seq<char>, home: Option<Seq<char>>) -> bool {
    path.len() > 0 && path[0] == '~' && home is None
}

/// A path that starts with `~` becomes the home directory followed by the
/// rest of the path, kept as it is (another `~` in it included); any other
/// path is left alone.
pub proof fn lemma_expand_home(path: Seq<char>, home: Seq<char>)
    ensures
        path.len() > 0 && path[0] == '~' ==> {
            &&& expand_home(path, home).len() == home.len() + path.len() - 1
            &&& expand_home(path, home).subrange(0, home.len() as int) == home
            &&& expand_home(path, home).subrange(home.len() as int, expand_home(path, home).len() as int)
                == path.subrange(1, path.len() as int)
        },
        !(path.len() > 0 && path[0] == '~') ==> expand_home(path, home) == path,
{
    if path.len() > 0 && path[0] == '~' {
        let r = expand_home(path, home);
        assert(r.subrange(0, home.len() as int) =~= home);
        assert(r.subrange(home.len() as int, r.len() as int) =~= path.subrange(1, path.len() as int));
    }
}

/// The response for a finished download of `path`: the file with the type of
/// its extension, `404 Not found` where the remote reports the missing-file
/// code, a session error otherwise.
pub open spec fn download_response_of(
    path: Seq<char>,
    download: Result<Vec<u8>, SshFailure>,
    r: Result<RequestExecutorResult, ProxyPassError>,
) -> bool {
    match download {
        Ok(content) => r matches Ok(res) && res.status_code == 200 && res.content_type
            == content_type_of_path(path) && res.body@ == content@,
        Err(f) => if f.session_code == Some(SSH_FILE_NOT_FOUND_CODE) {
            r matches Ok(res) && res.status_code == 404 && res.content_type is None && res.body@
                == "Not found"@.map_values(|c: char| c as u8)
        } else {
            r == Err::<RequestExecutorResult, ProxyPassError>(ProxyPassError::SshSessionError)
        },
    }
}

pub uninterp spec fn trimmed(s: Seq<char>) -> Seq<char>;

/// Relies on str::trim: the text without its leading and trailing whitespace.
#[verifier::external_body]
fn trim_text(s: &str) -> (r: String)
    ensures
        r@ == trimmed(s@),
{
    s.trim().to_string()
}

fn not_found_body() -> (r: Vec<u8>)
    ensures
        r@ == "Not found"@.map_values(|c: char| c as u8),
{
    let r: Vec<u8> = vec![78u8, 111, 116, 32, 102, 111, 117, 110, 100];
    proof {
        reveal_strlit("Not found");
        assert(r@ =~= "Not found"@.map_values(|c: char| c as u8));
    }
    r
}

/// Files under a remote path, fetched over an SSH session.
pub struct PathOverSshContentSource {
    pub connected: bool,
    pub ssh_credentials: String,
    pub home_value: Option<String>,
    pub default_file: Option<String>,
    pub file_path: String,
    pub execute_timeout_ms: u64,
}

impl PathOverSshContentSource {
    pub open spec fn is_connected(&self) -> bool {
        self.connected
    }

    pub open spec fn home(&self) -> Option<Seq<char>> {
        opt_view(self.home_value)
    }

    pub open spec fn default_file_spec(&self) -> Option<Seq<char>> {
        opt_view(self.default_file)
    }

    pub fn new(
        ssh_credentials: String,
        file_path: String,
        default_file: Option<String>,
        execute_timeout_ms: u64,
    ) -> (r: Self)
        ensures
            !r.is_connected(),
            r.home() is None,
            r.ssh_credentials == ssh_credentials,
            r.file_path == file_path,
            r.default_file_spec() == opt_view(default_file),
            r.execute_timeout_ms == execute_timeout_ms,
    {
        PathOverSshContentSource {
            connected: false,
            ssh_credentials,
            home_value: None,
            default_file,
            file_path,
            execute_timeout_ms,
        }
    }

    /// Whether a session must be opened before the next request.
    pub fn needs_connect(&self) -> (r: bool)
        ensures
            r == !self.is_connected(),
    {
        !self.connected
    }

    /// Takes the outcome of opening a session; a source that already has one
    /// keeps it.
    pub fn connect_if_require(&mut self, connect_result: Result<(), ProxyPassError>) -> (r: Result<
        (),
        ProxyPassError,
    >)
        ensures
            old(self).is_connected() ==> r is Ok && final(self).is_connected(),
            !old(self).is_connected() ==> r == connect_result && final(self).is_connected()
                == (connect_result is Ok),
            final(self).home() == old(self).home(),
            final(self).default_file_spec() == old(self).default_file_spec(),
            final(self).file_path == old(self).file_path,
            final(self).ssh_credentials == old(self).ssh_credentials,
            final(self).execute_timeout_ms == old(self).execute_timeout_ms,
    {
        if self.connected {
            return Ok(());
        }
        if connect_result.is_ok() {
            self.connected = true;
        }
        connect_result
    }

    /// Drops the session after a failure; the next request opens a new one.
    pub fn disconnect(&mut self)
        ensures
            !final(self).is_connected(),
            final(self).home() == old(self).home(),
            final(self).default_file_spec() == old(self).default_file_spec(),
            final(self).file_path == old(self).file_path,
            final(self).ssh_credentials == old(self).ssh_credentials,
            final(self).execute_timeout_ms == old(self).execute_timeout_ms,
    {
        self.connected = false;
    }

    /// Keeps the home directory that an executor resolved, for later requests.
    pub fn set_home_value(&mut self, home: String)
        ensures
            final(self).home() == Some(home@),
            final(self).is_connected() == old(self).is_connected(),
            final(self).default_file_spec() == old(self).default_file_spec(),
            final(self).file_path == old(self).file_path,
            final(self).ssh_credentials == old(self).ssh_credentials,
            final(self).execute_timeout_ms == old(self).execute_timeout_ms,
    {
        self.home_value = Some(home);
    }

    /// The executor of a request for `uri_path`.
    pub fn get_request_executor(&self, uri_path: &str) -> (r: Result<
        FileOverSshRequestExecutor,
        ProxyPassError,
    >)
        ensures
            !self.is_connected() ==> r == Err::<FileOverSshRequestExecutor, ProxyPassError>(
                ProxyPassError::ConnectionIsDisposed,
            ),
            self.is_connected() ==> (r matches Ok(e) && e.file_path_spec() == remote_path_of(
                self.file_path@,
                uri_path@,
                self.default_file_spec(),
            ) && e.home() == self.home() && e.execute_timeout_ms == self.execute_timeout_ms),
    {
        if !self.connected {
            return Err(ProxyPassError::ConnectionIsDisposed);
        }
        let file_path = resolve_file_path(self.file_path.as_str(), uri_path, &self.default_file);
        let home_value = match &self.home_value {
            Some(h) => Some(h.clone()),
            None => None,
        };
        Ok(
            FileOverSshRequestExecutor {
                file_path,
                home_value,
                execute_timeout_ms: self.execute_timeout_ms,
            },
        )
    }
}

/// One request for a file over SSH.
pub struct FileOverSshRequestExecutor {
    pub file_path: String,
    pub home_value: Option<String>,
    pub execute_timeout_ms: u64,
}

impl FileOverSshRequestExecutor {
    pub open spec fn file_path_spec(&self) -> Seq<char> {
        self.file_path@
    }

    pub open spec fn home(&self) -> Option<Seq<char>> {
        opt_view(self.home_value)
    }

    /// Whether the path needs the home directory and it is not known yet;
    /// it is then resolved by running `echo $HOME` on the session.
    pub fn needs_home(&self) -> (r: bool)
        ensures
            r == needs_home_of(self.file_path_spec(), self.home()),
    {
        let n = self.file_path.unicode_len();
        n > 0 && self.file_path.get_char(0) == '~' && self.home_value.is_none()
    }

    /// Keeps the home directory.
    pub fn set_home(&mut self, home: String)
        ensures
            final(self).home() == Some(home@),
            final(self).file_path_spec() == old(self).file_path_spec(),
            final(self).execute_timeout_ms == old(self).execute_timeout_ms,
    {
        self.home_value = Some(home);
    }

    /// Keeps the home directory printed by `echo $HOME`, trimmed.
    pub fn remember_home(&mut self, echo_output: &str)
        ensures
            final(self).home() == Some(trimmed(echo_output@)),
            final(self).file_path_spec() == old(self).file_path_spec(),
            final(self).execute_timeout_ms == old(self).execute_timeout_ms,
    {
        let home = trim_text(echo_output);
        self.set_home(home);
    }

    /// The home directory, where it is known.
    pub fn home_value(&self) -> (r: Option<String>)
        ensures
            opt_view(r) == self.home(),
    {
        match &self.home_value {
            Some(h) => Some(h.clone()),
            None => None,
        }
    }

    /// The path to download, with a leading `~` replaced by the home directory.
    pub fn remote_file_path(&self) -> (r: String)
        requires
            !needs_home_of(self.file_path_spec(), self.home()),
        ensures
            self.home() is Some ==> r@ == expand_home(self.file_path_spec(), self.home()->Some_0),
            self.home() is None ==> r@ == self.file_path_spec(),
    {
        let n = self.file_path.unicode_len();
        if n > 0 && self.file_path.get_char(0) == '~' {
            match &self.home_value {
                Some(home) => {
                    let rest = substring(self.file_path.as_str(), 1, n);
                    concat2(home.as_str(), rest.as_str())
                },
                None => self.file_path.clone(),
            }
        } else {
            self.file_path.clone()
        }
    }

    /// Turns the outcome of downloading `path` into the request's answer.
    pub fn complete(path: &str, download: Result<Vec<u8>, SshFailure>) -> (r: Result<
        RequestExecutorResult,
        ProxyPassError,
    >)
        ensures
            download_response_of(path@, download, r),
    {
        match download {
            Ok(content) => Ok(
                RequestExecutorResult {
                    status_code: 200,
                    content_type: detect_by_extension(path),
                    body: content,
                },
            ),
            Err(f) => {
                if let Some(code) = f.session_code {
                    if code == SSH_FILE_NOT_FOUND_CODE {
                        return Ok(
                            RequestExecutorResult {
                                status_code: 404,
                                content_type: None,
                                body: not_found_body(),
                            },
                        );
                    }
                }
                Err(ProxyPassError::SshSessionError)
            },
        }
    }
}

} // verus!
