//! Deploying a bootc image onto a host over SSH: the request, its
//! validation, the remote script, and the decisions taken around the SSH
//! session.
use vstd::prelude::*;

use crate::errors::{is_unprocessable, unprocessable, Error};
use crate::text::{
    chars_of, is_blank, owned, push_char, push_chars, push_str, string_of, trim, trimmed,
    trimmed_chars,
};

verus! {

/// Request body of `POST /hosts/{id}/deploy`.
#[derive(Debug)]
pub struct DeployHostRequest {
    /// Fully-qualified bootc image reference to deploy on the host.
    pub image: String,
    /// SSH port used to reach the host. Defaults to 22.
    pub ssh_port: Option<u16>,
    /// SSH user override. Defaults to the host's registered `host_user`.
    pub ssh_user: Option<String>,
    /// Optional SSH password override for this deployment request.
    pub ssh_password: Option<String>,
    /// Optional SSH private key path on the control-plane host.
    pub ssh_private_key_path: Option<String>,
    /// Install bootc before switching image. Defaults to true.
    pub install_bootc: Option<bool>,
    /// Reboot after `bootc switch`. Defaults to true.
    pub reboot: Option<bool>,
}

/// Whether an optional string is present but blank.
pub open spec fn blank_opt(o: Option<String>) -> bool {
    o matches Some(s) && trim(s@).len() == 0
}

impl DeployHostRequest {
    /// The message of the first rule the request breaks, if any.
    pub open spec fn validation_error(&self) -> Option<Seq<char>> {
        if trim(self.image@).len() == 0 {
            Some("image is required"@)
        } else if self.ssh_password is Some && self.ssh_private_key_path is Some {
            Some("provide either ssh_password or ssh_private_key_path, but not both"@)
        } else if blank_opt(self.ssh_user) {
            Some("ssh_user cannot be empty"@)
        } else if blank_opt(self.ssh_private_key_path) {
            Some("ssh_private_key_path cannot be empty"@)
        } else if self.ssh_port == Some(0u16) {
            Some("ssh_port must be greater than 0"@)
        } else {
            None
        }
    }

    /// Checks the request, answering the first broken rule as an
    /// `UnprocessableEntity` error.
    pub fn validate(&self) -> (r: Result<(), Error>)
        ensures
            self.validation_error() is None ==> r is Ok,
            self.validation_error() matches Some(m) ==> (r matches Err(e) && is_unprocessable(e, m)),
    {
        if is_blank(self.image.as_str()) {
            return Err(unprocessable("image is required"));
        }
        if self.ssh_password.is_some() && self.ssh_private_key_path.is_some() {
            return Err(unprocessable("provide either ssh_password or ssh_private_key_path, but not both"));
        }
        if let Some(user) = &self.ssh_user {
            if is_blank(user.as_str()) {
                return Err(unprocessable("ssh_user cannot be empty"));
            }
        }
        if let Some(path) = &self.ssh_private_key_path {
            if is_blank(path.as_str()) {
                return Err(unprocessable("ssh_private_key_path cannot be empty"));
            }
        }
        if let Some(port) = self.ssh_port {
            if port == 0 {
                return Err(unprocessable("ssh_port must be greater than 0"));
            }
        }
        Ok(())
    }

    pub open spec fn spec_ssh_port(&self) -> u16 {
        match self.ssh_port {
            Some(p) => p,
            None => 22,
        }
    }

    /// The SSH port, 22 unless given.
    pub fn ssh_port(&self) -> (r: u16)
        ensures
            r == self.spec_ssh_port(),
    {
        match self.ssh_port {
            Some(p) => p,
            None => 22,
        }
    }

    pub open spec fn spec_install_bootc(&self) -> bool {
        match self.install_bootc {
            Some(b) => b,
            None => true,
        }
    }

    /// Whether bootc is installed first; true unless given.
    pub fn install_bootc(&self) -> (r: bool)
        ensures
            r == self.spec_install_bootc(),
    {
        match self.install_bootc {
            Some(b) => b,
            None => true,
        }
    }

    pub open spec fn spec_reboot(&self) -> bool {
        match self.reboot {
            Some(b) => b,
            None => true,
        }
    }

    /// Whether the host reboots after the switch; true unless given.
    pub fn reboot(&self) -> (r: bool)
        ensures
            r == self.spec_reboot(),
    {
        match self.reboot {
            Some(b) => b,
            None => true,
        }
    }
}

// ---------------------------------------------------------------------------
// Shell quoting
// ---------------------------------------------------------------------------

/// How one character is written inside single quotes: a quote closes the
/// quoted text, is written double-quoted, and the quoted text reopens.
pub open spec fn escape_quote(c: char) -> Seq<char> {
    if c == '\'' {
        seq!['\'', '"', '\'', '"', '\'']
    } else {
        seq![c]
    }
}

pub open spec fn quote_body(v: Seq<char>) -> Seq<char>
    decreases v.len(),
{
    if v.len() == 0 {
        Seq::empty()
    } else {
        quote_body(v.drop_last()) + escape_quote(v.last())
    }
}

/// `v` as a single-quoted shell word.
pub open spec fn single_quoted(v: Seq<char>) -> Seq<char> {
    seq!['\''] + quote_body(v) + seq!['\'']
}

/// Quotes a value for the shell: `'...'`, with each embedded `'` written as `'"'"'`.
pub fn shell_single_quote(value: &str) -> (r: String)
    ensures
        r@ == single_quoted(value@),
{
    let v = chars_of(value);
    let mut r = String::new();
    push_char(&mut r, '\'');
    let n = v.len();
    for i in 0..n
        invariant
            n == v@.len(),
            r@ == seq!['\''] + quote_body(v@.take(i as int)),
    {
        let c = v[i];
        if c == '\'' {
            push_char(&mut r, '\'');
            push_char(&mut r, '"');
            push_char(&mut r, '\'');
            push_char(&mut r, '"');
            push_char(&mut r, '\'');
        } else {
            push_char(&mut r, c);
        }
        assert(v@.take(i + 1).drop_last() =~= v@.take(i as int));
        assert(v@.take(i + 1).last() == c);
        assert(r@ =~= seq!['\''] + quote_body(v@.take(i + 1)));
    }
    push_char(&mut r, '\'');
    assert(v@.take(n as int) =~= value@);
    assert(r@ =~= single_quoted(value@));
    r
}

/// Where a POSIX shell is while reading a word.
#[derive(Debug)]
pub enum QuoteState {
    Outside,
    InSingle,
    InDouble,
}

pub open spec fn prepend(c: char, o: Option<Seq<char>>) -> Option<Seq<char>> {
    match o {
        Some(t) => Some(seq![c] + t),
        None => None,
    }
}

/// The text a POSIX shell reads from a word made of single- and
/// double-quoted segments. Words holding anything this does not model
/// (unquoted characters, `$`, backquote or backslash inside double quotes,
/// an unterminated quote) read as `None`.
pub open spec fn shell_unquote(st: QuoteState, s: Seq<char>) -> Option<Seq<char>>
    decreases s.len(),
{
    if s.len() == 0 {
        if st is Outside {
            Some(Seq::empty())
        } else {
            None
        }
    } else {
        let c = s[0];
        let rest = s.drop_first();
        match st {
            QuoteState::Outside => if c == '\'' {
                shell_unquote(QuoteState::InSingle, rest)
            } else if c == '"' {
                shell_unquote(QuoteState::InDouble, rest)
            } else {
                None
            },
            QuoteState::InSingle => if c == '\'' {
                shell_unquote(QuoteState::Outside, rest)
            } else {
                prepend(c, shell_unquote(QuoteState::InSingle, rest))
            },
            QuoteState::InDouble => if c == '"' {
                shell_unquote(QuoteState::Outside, rest)
            } else if c == '$' || c == '`' || c == '\\' {
                None
            } else {
                prepend(c, shell_unquote(QuoteState::InDouble, rest))
            },
        }
    }
}

pub open spec fn prepend_all(v: Seq<char>, o: Option<Seq<char>>) -> Option<Seq<char>> {
    match o {
        Some(t) => Some(v + t),
        None => None,
    }
}

proof fn lemma_unquote_body(v: Seq<char>, rest: Seq<char>)
    ensures
        shell_unquote(QuoteState::InSingle, quote_body(v) + rest) == prepend_all(
            v,
            shell_unquote(QuoteState::InSingle, rest),
        ),
    decreases v.len(),
{
    if v.len() == 0 {
        assert(quote_body(v) + rest =~= rest);
        assert(shell_unquote(QuoteState::InSingle, rest) matches Some(t) ==> v + t =~= t);
    } else {
        let c = v.last();
        let tail = escape_quote(c) + rest;
        lemma_unquote_body(v.drop_last(), tail);
        assert(quote_body(v) + rest =~= quote_body(v.drop_last()) + tail);
        if c == '\'' {
            let t1 = tail.drop_first();
            let t2 = t1.drop_first();
            let t3 = t2.drop_first();
            let t4 = t3.drop_first();
            let t5 = t4.drop_first();
            assert(t5 =~= rest);
            assert(tail[0] == '\'' && t1[0] == '"' && t2[0] == '\'' && t3[0] == '"' && t4[0] == '\'');
            assert(shell_unquote(QuoteState::InSingle, tail) == shell_unquote(QuoteState::Outside, t1));
            assert(shell_unquote(QuoteState::Outside, t1) == shell_unquote(QuoteState::InDouble, t2));
            assert(shell_unquote(QuoteState::InDouble, t2) == prepend('\'', shell_unquote(QuoteState::InDouble, t3)));
            assert(shell_unquote(QuoteState::InDouble, t3) == shell_unquote(QuoteState::Outside, t4));
            assert(shell_unquote(QuoteState::Outside, t4) == shell_unquote(QuoteState::InSingle, t5));
        } else {
            assert(tail.drop_first() =~= rest);
        }
        match shell_unquote(QuoteState::InSingle, rest) {
            Some(t) => {
                assert(v.drop_last() + (seq![c] + t) =~= v + t);
            },
            None => {},
        }
    }
}

/// A single-quoted word reads back, in the shell, as exactly the quoted value.
pub proof fn lemma_shell_quote_roundtrip(v: Seq<char>)
    ensures
        shell_unquote(QuoteState::Outside, single_quoted(v)) == Some(v),
{
    let q = single_quoted(v);
    assert(q.drop_first() =~= quote_body(v) + seq!['\'']);
    lemma_unquote_body(v, seq!['\'']);
    assert(seq!['\''].drop_first() =~= Seq::<char>::empty());
    assert(seq!['\''][0] == '\'');
    assert(shell_unquote(QuoteState::Outside, Seq::<char>::empty()) == Some(Seq::<char>::empty()));
    assert(shell_unquote(QuoteState::InSingle, seq!['\'']) == Some(Seq::<char>::empty()));
    assert(v + Seq::<char>::empty() =~= v);
}

// ---------------------------------------------------------------------------
// The deployment script
// ---------------------------------------------------------------------------

pub open spec fn script_preamble() -> Seq<char> {
    "set -euo pipefail\n\
run_privileged() {\n\
  if [ \"$(id -u)\" -eq 0 ]; then\n\
    \"$@\"\n\
  else\n\
    sudo -n \"$@\"\n\
  fi\n\
}\n"@
}

pub open spec fn script_install_bootc() -> Seq<char> {
    "if ! command -v bootc >/dev/null 2>&1; then\n\
  if command -v dnf >/dev/null 2>&1; then\n\
    run_privileged dnf install -y bootc\n\
  elif command -v apt-get >/dev/null 2>&1; then\n\
    run_privileged apt-get update\n\
    run_privileged apt-get install -y bootc\n\
  else\n\
    echo \"bootc is not installed and no supported package manager was found\" >&2\n\
    exit 1\n\
  fi\n\
fi\n"@
}

/// The script run on the host: define `run_privileged`, optionally install
/// bootc, switch to the (trimmed, quoted) image, optionally reboot.
pub open spec fn bootc_script(install: bool, image: Seq<char>, reboot: bool) -> Seq<char> {
    script_preamble() + (if install { script_install_bootc() } else { Seq::empty() })
        + "run_privileged bootc switch "@ + single_quoted(trim(image)) + "\n"@ + (if reboot {
        "run_privileged systemctl reboot\n"@
    } else {
        Seq::empty()
    })
}

/// The shell script that switches the host to the requested image.
pub fn build_bootc_script(request: &DeployHostRequest) -> (r: String)
    ensures
        r@ == bootc_script(request.spec_install_bootc(), request.image@, request.spec_reboot()),
{
    let mut script = owned(
        "set -euo pipefail\n\
run_privileged() {\n\
  if [ \"$(id -u)\" -eq 0 ]; then\n\
    \"$@\"\n\
  else\n\
    sudo -n \"$@\"\n\
  fi\n\
}\n",
    );
    let ghost s0 = script@;
    if request.install_bootc() {
        push_str(
            &mut script,
            "if ! command -v bootc >/dev/null 2>&1; then\n\
  if command -v dnf >/dev/null 2>&1; then\n\
    run_privileged dnf install -y bootc\n\
  elif command -v apt-get >/dev/null 2>&1; then\n\
    run_privileged apt-get update\n\
    run_privileged apt-get install -y bootc\n\
  else\n\
    echo \"bootc is not installed and no supported package manager was found\" >&2\n\
    exit 1\n\
  fi\n\
fi\n",
        );
    }
    let ghost s1 = script@;
    assert(s1 =~= s0 + (if request.spec_install_bootc() { script_install_bootc() } else { Seq::empty() }));
    push_str(&mut script, "run_privileged bootc switch ");
    let image = trimmed(request.image.as_str());
    let quoted = shell_single_quote(image.as_str());
    push_str(&mut script, quoted.as_str());
    push_str(&mut script, "\n");
    let ghost s2 = script@;
    if request.reboot() {
        push_str(&mut script, "run_privileged systemctl reboot\n");
    }
    assert(script@ =~= s2 + (if request.spec_reboot() {
        "run_privileged systemctl reboot\n"@
    } else {
        Seq::empty()
    }));
    script
}

/// The command line that runs `script` on the host.
pub open spec fn remote_command_text(script: Seq<char>) -> Seq<char> {
    "bash -lc "@ + single_quoted(script)
}

/// `bash -lc '<script>'`.
pub fn remote_command(script: &str) -> (r: String)
    ensures
        r@ == remote_command_text(script@),
{
    let mut r = owned("bash -lc ");
    let q = shell_single_quote(script);
    push_str(&mut r, q.as_str());
    r
}

// ---------------------------------------------------------------------------
// SSH session decisions
// ---------------------------------------------------------------------------

/// Why a deployment failed.
#[derive(Debug)]
pub enum DeployError {
    InvalidNodePort(i32),
    MissingSshUser,
    MissingSshAuthentication,
    SshConnectTimeout { address: String, port: u16 },
    AuthenticationFailed { user: String },
    /// A failed SSH operation, with the SSH library's message.
    Ssh(String),
    /// An SSH key that could not be read, with the SSH library's message.
    SshKey(String),
    InvalidSshKeyPath { path: String },
    RemoteCommandFailed { status: Option<u32>, stdout: String, stderr: String },
    NodeUnavailable { address: String, port: u16 },
}

/// The host's gRPC port as a TCP port, or `InvalidNodePort`.
pub fn node_port(port: i32) -> (r: Result<u16, DeployError>)
    ensures
        0 <= port <= 65535 ==> r == Ok::<u16, DeployError>(port as u16),
        !(0 <= port <= 65535) ==> (r matches Err(DeployError::InvalidNodePort(p)) && p == port),
{
    if 0 <= port && port <= 65535 {
        Ok(port as u16)
    } else {
        Err(DeployError::InvalidNodePort(port))
    }
}

/// The password to authenticate with: the request's, trimmed, unless blank.
pub open spec fn resolved_password(request: DeployHostRequest) -> Option<Seq<char>> {
    match request.ssh_password {
        Some(p) => if trim(p@).len() > 0 {
            Some(trim(p@))
        } else {
            None
        },
        None => None,
    }
}

pub fn resolve_password(request: &DeployHostRequest) -> (r: Option<String>)
    ensures
        resolved_password(*request) is None ==> r is None,
        resolved_password(*request) matches Some(p) ==> (r matches Some(s) && s@ == p),
{
    match &request.ssh_password {
        Some(p) => {
            let t = trimmed(p.as_str());
            if t.as_str().unicode_len() > 0 {
                Some(t)
            } else {
                None
            }
        },
        None => None,
    }
}

/// The SSH user: the request's, trimmed, unless blank; else the host's, trimmed.
pub open spec fn resolved_ssh_user(request: DeployHostRequest, host_user: Seq<char>) -> Seq<char> {
    match request.ssh_user {
        Some(u) => if trim(u@).len() > 0 {
            trim(u@)
        } else {
            trim(host_user)
        },
        None => trim(host_user),
    }
}

/// The SSH user to log in as; `MissingSshUser` when there is none.
pub fn resolve_ssh_user(request: &DeployHostRequest, host_user: &str) -> (r: Result<String, DeployError>)
    ensures
        resolved_ssh_user(*request, host_user@).len() == 0 ==> r matches Err(DeployError::MissingSshUser),
        resolved_ssh_user(*request, host_user@).len() > 0 ==> (r matches Ok(u) && u@ == resolved_ssh_user(
            *request,
            host_user@,
        )),
{
    let from_request = match &request.ssh_user {
        Some(u) => {
            let t = trimmed(u.as_str());
            if t.as_str().unicode_len() > 0 {
                Some(t)
            } else {
                None
            }
        },
        None => None,
    };
    let user = match from_request {
        Some(u) => u,
        None => trimmed(host_user),
    };
    if user.as_str().unicode_len() == 0 {
        Err(DeployError::MissingSshUser)
    } else {
        Ok(user)
    }
}

/// How the SSH session authenticates.
#[derive(Debug)]
pub enum AuthMethod {
    Password(String),
    PrivateKey(String),
}

/// Password authentication when a password is given, else the private key
/// when a key path is given, else `MissingSshAuthentication`.
pub fn auth_method(password: Option<String>, key_path: Option<String>) -> (r: Result<AuthMethod, DeployError>)
    ensures
        password matches Some(p) ==> (r matches Ok(AuthMethod::Password(q)) && q == p),
        password is None ==> (key_path matches Some(k) ==> (r matches Ok(AuthMethod::PrivateKey(q))
            && q == k)),
        password is None && key_path is None ==> r matches Err(DeployError::MissingSshAuthentication),
{
    match password {
        Some(p) => Ok(AuthMethod::Password(p)),
        None => match key_path {
            Some(k) => Ok(AuthMethod::PrivateKey(k)),
            None => Err(DeployError::MissingSshAuthentication),
        },
    }
}

/// `base` with `rest` appended as `PathBuf::push` does on Unix: an absolute
/// `rest` replaces `base`, and a separator is added unless `base` is empty
/// or already ends with one.
pub open spec fn path_join(base: Seq<char>, rest: Seq<char>) -> Seq<char> {
    if rest.len() > 0 && rest[0] == '/' {
        rest
    } else if base.len() == 0 || base.last() == '/' {
        base + rest
    } else {
        base + seq!['/'] + rest
    }
}

/// Where a private key path points: `~` is the home directory, `~/x` is `x`
/// under it, anything else is the trimmed path itself.
pub open spec fn key_path_target(path: Seq<char>, home: Option<Seq<char>>) -> Option<Seq<char>> {
    let t = trim(path);
    if t.len() == 0 {
        None
    } else if t == seq!['~'] {
        home
    } else if t.len() >= 2 && t[0] == '~' && t[1] == '/' {
        match home {
            Some(h) => Some(path_join(h, t.skip(2))),
            None => None,
        }
    } else {
        Some(t)
    }
}

/// Resolves a private key path, with `home` the value of `$HOME` (if set).
pub fn expand_private_key_path(path: &str, home: Option<&str>) -> (r: Result<String, DeployError>)
    ensures
        key_path_target(path@, match home {
            Some(h) => Some(h@),
            None => None,
        }) matches Some(t) ==> (r matches Ok(s) && s@ == t),
        key_path_target(path@, match home {
            Some(h) => Some(h@),
            None => None,
        }) is None ==> (r matches Err(DeployError::InvalidSshKeyPath { path: p }) && p@ == path@),
{
    let t = trimmed_chars(path);
    if t.len() == 0 {
        return Err(DeployError::InvalidSshKeyPath { path: owned(path) });
    }
    if t.len() == 1 && t[0] == '~' {
        assert(t@ =~= seq!['~']);
        return match home {
            Some(h) => Ok(owned(h)),
            None => Err(DeployError::InvalidSshKeyPath { path: owned(path) }),
        };
    }
    assert(t@ != seq!['~']) by {
        if t@ == seq!['~'] {
            assert(t@.len() == 1);
        }
    }
    if t.len() >= 2 && t[0] == '~' && t[1] == '/' {
        match home {
            Some(h) => {
                let hv = chars_of(h);
                let n = t.len();
                if n > 2 && t[2] == '/' {
                    let mut r = String::new();
                    push_chars(&mut r, &t, 2, n);
                    assert(r@ =~= t@.skip(2));
                    return Ok(r);
                }
                let mut r = string_of(&hv);
                if hv.len() > 0 && hv[hv.len() - 1] != '/' {
                    push_char(&mut r, '/');
                }
                push_chars(&mut r, &t, 2, n);
                assert(t@.subrange(2, n as int) =~= t@.skip(2));
                assert(r@ =~= path_join(h@, t@.skip(2)));
                Ok(r)
            },
            None => Err(DeployError::InvalidSshKeyPath { path: owned(path) }),
        }
    } else {
        Ok(string_of(&t))
    }
}

/// What one message from the remote command's channel carries.
#[derive(Debug)]
pub enum ChannelEvent {
    Data(Vec<u8>),
    ExtendedData { data: Vec<u8>, ext: u32 },
    ExitStatus(u32),
    Other,
}

/// Output and exit status gathered from the remote command so far.
#[derive(Debug)]
pub struct CommandCapture {
    pub stdout: Vec<u8>,
    pub stderr: Vec<u8>,
    pub exit_status: Option<u32>,
}

impl CommandCapture {
    pub fn new() -> (r: CommandCapture)
        ensures
            r.stdout@.len() == 0,
            r.stderr@.len() == 0,
            r.exit_status is None,
    {
        CommandCapture { stdout: Vec::new(), stderr: Vec::new(), exit_status: None }
    }

    /// Records one channel message: data goes to stdout, extended data of
    /// type 1 to stderr and any other type to stdout, an exit status is kept.
    pub fn absorb(&mut self, event: ChannelEvent)
        ensures
            match event {
                ChannelEvent::Data(d) => final(self).stdout@ == old(self).stdout@ + d@
                    && final(self).stderr@ == old(self).stderr@ && final(self).exit_status
                    == old(self).exit_status,
                ChannelEvent::ExtendedData { data, ext } => if ext == 1 {
                    final(self).stderr@ == old(self).stderr@ + data@ && final(self).stdout@ == old(
                        self,
                    ).stdout@ && final(self).exit_status == old(self).exit_status
                } else {
                    final(self).stdout@ == old(self).stdout@ + data@ && final(self).stderr@ == old(
                        self,
                    ).stderr@ && final(self).exit_status == old(self).exit_status
                },
                ChannelEvent::ExitStatus(s) => final(self).exit_status == Some(s) && final(self).stdout@
                    == old(self).stdout@ && final(self).stderr@ == old(self).stderr@,
                ChannelEvent::Other => final(self).stdout@ == old(self).stdout@ && final(self).stderr@
                    == old(self).stderr@ && final(self).exit_status == old(self).exit_status,
            },
    {
        match event {
            ChannelEvent::Data(d) => {
                let mut d = d;
                self.stdout.append(&mut d);
            },
            ChannelEvent::ExtendedData { data, ext } => {
                let mut data = data;
                if ext == 1 {
                    self.stderr.append(&mut data);
                } else {
                    self.stdout.append(&mut data);
                }
            },
            ChannelEvent::ExitStatus(s) => {
                self.exit_status = Some(s);
            },
            ChannelEvent::Other => {},
        }
    }
}

/// The text `String::from_utf8_lossy` makes of some bytes.
pub uninterp spec fn utf8_lossy(bytes: Seq<u8>) -> Seq<char>;

/// Calls `String::from_utf8_lossy`; its result is named `utf8_lossy`, a
/// function of the bytes alone.
#[verifier::external_body]
fn lossy_string(bytes: &[u8]) -> (r: String)
    ensures
        r@ == utf8_lossy(bytes@),
{
    String::from_utf8_lossy(bytes).into_owned()
}

/// The trimmed text of some output bytes.
pub fn output_text(bytes: &[u8]) -> (r: String)
    ensures
        r@ == trim(utf8_lossy(bytes@)),
{
    let s = lossy_string(bytes);
    trimmed(s.as_str())
}

/// The outcome of the remote command: success on exit status 0, or when no
/// status came and the session was allowed to drop (a reboot); otherwise
/// `RemoteCommandFailed` with the status and the trimmed output.
pub fn command_outcome(capture: &CommandCapture, allow_disconnect: bool) -> (r: Result<(), DeployError>)
    ensures
        capture.exit_status == Some(0u32) ==> r is Ok,
        capture.exit_status is None && allow_disconnect ==> r is Ok,
        (capture.exit_status matches Some(s) && s != 0) || (capture.exit_status is None && !allow_disconnect)
            ==> (r matches Err(DeployError::RemoteCommandFailed { status, stdout, stderr }) && status
            == capture.exit_status && stdout@ == trim(utf8_lossy(capture.stdout@)) && stderr@ == trim(
            utf8_lossy(capture.stderr@),
        )),
{
    match capture.exit_status {
        Some(0) => Ok(()),
        None if allow_disconnect => Ok(()),
        status => Err(
            DeployError::RemoteCommandFailed {
                status,
                stdout: output_text(capture.stdout.as_slice()),
                stderr: output_text(capture.stderr.as_slice()),
            },
        ),
    }
}

} // verus!
