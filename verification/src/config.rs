//! Settings, keyring naming, editor choice and SSH host-key text.
use vstd::prelude::*;
use crate::model::{ConnectionInfo, ConnView, Protocol, Timestamp, opt_chars};
use crate::listing::{parse_unsigned, parse_unsigned_exec};
use crate::text::{chars_of, trim_ws, trim_ws_exec, string_of, decimal, u64_to_decimal, concat2, concat3, push_char, str_eq};

verus! {

/// User settings. Not the theme: colors stay in the theme file.
#[derive(Debug, Clone, PartialEq, Eq)]
pub struct AppConfig {
    /// `$VISUAL` / `$EDITOR` still win when set. Empty / omitted = use env then `vi`.
    pub editor: Option<String>,
}

impl Default for AppConfig {
    /// No editor configured.
    fn default() -> (r: Self)
        ensures
            r.editor.is_none(),
    {
        AppConfig { editor: None }
    }
}

impl AppConfig {
    /// The configured editor, or the empty text.
    pub fn editor_or_empty(&self) -> (r: String)
        ensures
            r@ == match self.editor {
                Some(e) => e@,
                None => Seq::<char>::empty(),
            },
    {
        match &self.editor {
            Some(e) => e.clone(),
            None => String::new(),
        }
    }

    /// Settings with `editor` trimmed; a blank editor is left unset.
    pub fn with_editor(editor: &str) -> (r: Self)
        ensures
            match r.editor {
                Some(e) => trim_ws(editor@).len() > 0 && e@ == trim_ws(editor@),
                None => trim_ws(editor@).len() == 0,
            },
    {
        let cs = chars_of(editor);
        let t = trim_ws_exec(&cs);
        AppConfig {
            editor: if t.len() == 0 {
                None
            } else {
                Some(string_of(&t))
            },
        }
    }
}

/// The text of an optional setting, or `fallback` when it is unset.
pub open spec fn or_text(o: Option<Seq<char>>, fallback: Seq<char>) -> Seq<char> {
    match o {
        Some(x) => x,
        None => fallback,
    }
}

/// The start-up connection the `DD_FTP_*` settings give: host (else
/// `127.0.0.1`), name (else the host), port (else, or when it is not a
/// number up to 65535, 22), user (else `user`), password, key file and
/// path (else `/`), over SFTP.
pub open spec fn env_connection(
    host: Option<Seq<char>>,
    name: Option<Seq<char>>,
    port: Option<Seq<char>>,
    user: Option<Seq<char>>,
    pass: Option<Seq<char>>,
    key: Option<Seq<char>>,
    path: Option<Seq<char>>,
) -> ConnView {
    let h = or_text(host, "127.0.0.1"@);
    ConnView {
        name: or_text(name, h),
        host: h,
        port: match port {
            Some(p) => match parse_unsigned(p, 65535) {
                Some(v) => v as u16,
                None => 22,
            },
            None => 22,
        },
        protocol: Protocol::Sftp,
        username: or_text(user, "user"@),
        password: pass,
        private_key: key,
        initial_path: or_text(path, "/"@),
    }
}

/// The start-up connection from the `DD_FTP_HOST`, `DD_FTP_NAME`,
/// `DD_FTP_PORT`, `DD_FTP_USER`, `DD_FTP_PASS`, `DD_FTP_KEY` and
/// `DD_FTP_PATH` values (`None` when unset).
pub fn connection_from_env(
    host: Option<String>,
    name: Option<String>,
    port: Option<String>,
    user: Option<String>,
    pass: Option<String>,
    key: Option<String>,
    path: Option<String>,
) -> (r: ConnectionInfo)
    ensures
        r@ == env_connection(
            opt_chars(host),
            opt_chars(name),
            opt_chars(port),
            opt_chars(user),
            opt_chars(pass),
            opt_chars(key),
            opt_chars(path),
        ),
{
    let host = match host {
        Some(h) => h,
        None => String::from_str("127.0.0.1"),
    };
    let name = match name {
        Some(n) => n,
        None => host.clone(),
    };
    let port: u16 = match port {
        Some(p) => {
            let cs = chars_of(p.as_str());
            match parse_unsigned_exec(&cs, 65535) {
                Some(v) => v as u16,
                None => 22,
            }
        },
        None => 22,
    };
    let username = match user {
        Some(u) => u,
        None => String::from_str("user"),
    };
    let initial_path = match path {
        Some(p) => p,
        None => String::from_str("/"),
    };
    ConnectionInfo {
        name,
        host,
        port,
        protocol: Protocol::Sftp,
        username,
        password: pass,
        private_key: key,
        initial_path,
    }
}

/// Saved sites, and which one is connected to at start.
#[derive(Debug, Clone)]
pub struct SiteConfig {
    pub sites: Vec<ConnectionInfo>,
    pub default_site: Option<usize>,
}

impl Default for SiteConfig {
    /// No saved sites, no default.
    fn default() -> (r: Self)
        ensures
            r.sites@.len() == 0,
            r.default_site.is_none(),
    {
        SiteConfig { sites: Vec::new(), default_site: None }
    }
}

/// A site can be saved: it has a name, a host and a user (not just
/// whitespace), and a port.
pub open spec fn site_ready(info: ConnectionInfo) -> bool {
    trim_ws(info.name@).len() > 0 && trim_ws(info.host@).len() > 0 && trim_ws(info.username@).len() > 0
        && info.port != 0
}

/// Whether `info` can be saved as a site.
pub fn bookmark_ready(info: &ConnectionInfo) -> (r: bool)
    ensures
        r == site_ready(*info),
{
    let name = chars_of(info.name.as_str());
    let host = chars_of(info.host.as_str());
    let user = chars_of(info.username.as_str());
    trim_ws_exec(&name).len() > 0 && trim_ws_exec(&host).len() > 0 && trim_ws_exec(&user).len() > 0
        && info.port != 0
}

/// Why a connection cannot be attempted, if it cannot: a blank name,
/// host or user, or port 0, checked in that order.
pub open spec fn connect_problem(info: ConnectionInfo) -> Option<Seq<char>> {
    if trim_ws(info.name@).len() == 0 {
        Some("Connect failed: label/name is required"@)
    } else if trim_ws(info.host@).len() == 0 {
        Some("Connect failed: host is required"@)
    } else if trim_ws(info.username@).len() == 0 {
        Some("Connect failed: username is required"@)
    } else if info.port == 0 {
        Some("Connect failed: port must be > 0"@)
    } else {
        None
    }
}

/// Whether a connection can be attempted with `info`, and the reason when not.
pub fn connect_check(info: &ConnectionInfo) -> (r: Result<(), String>)
    ensures
        match connect_problem(*info) {
            Some(m) => r matches Err(e) && e@ == m,
            None => r is Ok,
        },
{
    let name = chars_of(info.name.as_str());
    let host = chars_of(info.host.as_str());
    let user = chars_of(info.username.as_str());
    if trim_ws_exec(&name).len() == 0 {
        Err(String::from_str("Connect failed: label/name is required"))
    } else if trim_ws_exec(&host).len() == 0 {
        Err(String::from_str("Connect failed: host is required"))
    } else if trim_ws_exec(&user).len() == 0 {
        Err(String::from_str("Connect failed: username is required"))
    } else if info.port == 0 {
        Err(String::from_str("Connect failed: port must be > 0"))
    } else {
        Ok(())
    }
}

/// The remote folder a connection starts in: its initial path, or `/`
/// when that is blank.
pub open spec fn start_path_of(info: ConnectionInfo) -> Seq<char> {
    if trim_ws(info.initial_path@).len() == 0 {
        "/"@
    } else {
        info.initial_path@
    }
}

/// The remote folder a connection starts in.
pub fn start_path(info: &ConnectionInfo) -> (r: String)
    ensures
        r@ == start_path_of(*info),
{
    let p = chars_of(info.initial_path.as_str());
    if trim_ws_exec(&p).len() == 0 {
        String::from_str("/")
    } else {
        info.initial_path.clone()
    }
}

/// Two sites are the same site when host, user and port agree.
pub open spec fn same_site(a: ConnectionInfo, b: ConnectionInfo) -> bool {
    a.host@ == b.host@ && a.username@ == b.username@ && a.port == b.port
}

/// Index of the first site in `sites` that is the same site as `info`.
pub open spec fn first_same(sites: Seq<ConnectionInfo>, info: ConnectionInfo) -> Option<int>
    decreases sites.len(),
{
    if sites.len() == 0 {
        None
    } else {
        match first_same(sites.drop_last(), info) {
            Some(k) => Some(k),
            None => if same_site(sites.last(), info) {
                Some(sites.len() - 1)
            } else {
                None
            },
        }
    }
}

/// Index of the first site in `sites` named `name`.
pub open spec fn first_named(sites: Seq<ConnectionInfo>, name: Seq<char>) -> Option<int>
    decreases sites.len(),
{
    if sites.len() == 0 {
        None
    } else {
        match first_named(sites.drop_last(), name) {
            Some(k) => Some(k),
            None => if sites.last().name@ == name {
                Some(sites.len() - 1)
            } else {
                None
            },
        }
    }
}

proof fn lemma_first_same_bounds(sites: Seq<ConnectionInfo>, info: ConnectionInfo)
    ensures
        match first_same(sites, info) {
            Some(k) => 0 <= k < sites.len() && same_site(sites[k], info)
                && forall|m: int| 0 <= m < k ==> !same_site(#[trigger] sites[m], info),
            None => forall|m: int| 0 <= m < sites.len() ==> !same_site(#[trigger] sites[m], info),
        },
    decreases sites.len(),
{
    if sites.len() > 0 {
        lemma_first_same_bounds(sites.drop_last(), info);
        assert(forall|m: int| 0 <= m < sites.len() - 1 ==> sites.drop_last()[m] == sites[m]);
    }
}

proof fn lemma_first_named_bounds(sites: Seq<ConnectionInfo>, name: Seq<char>)
    ensures
        match first_named(sites, name) {
            Some(k) => 0 <= k < sites.len() && sites[k].name@ == name
                && forall|m: int| 0 <= m < k ==> (#[trigger] sites[m]).name@ != name,
            None => forall|m: int| 0 <= m < sites.len() ==> (#[trigger] sites[m]).name@ != name,
        },
    decreases sites.len(),
{
    if sites.len() > 0 {
        lemma_first_named_bounds(sites.drop_last(), name);
        assert(forall|m: int| 0 <= m < sites.len() - 1 ==> sites.drop_last()[m] == sites[m]);
    }
}

proof fn lemma_first_same_is(sites: Seq<ConnectionInfo>, info: ConnectionInfo, k: int)
    requires
        0 <= k <= sites.len(),
        k < sites.len() ==> same_site(sites[k], info),
        forall|m: int| 0 <= m < k ==> !same_site(#[trigger] sites[m], info),
    ensures
        first_same(sites, info) == if k < sites.len() { Some(k) } else { None::<int> },
    decreases sites.len(),
{
    lemma_first_same_bounds(sites, info);
}

proof fn lemma_first_named_is(sites: Seq<ConnectionInfo>, name: Seq<char>, k: int)
    requires
        0 <= k <= sites.len(),
        k < sites.len() ==> sites[k].name@ == name,
        forall|m: int| 0 <= m < k ==> (#[trigger] sites[m]).name@ != name,
    ensures
        first_named(sites, name) == if k < sites.len() { Some(k) } else { None::<int> },
    decreases sites.len(),
{
    lemma_first_named_bounds(sites, name);
}

/// A saved site is found again: after `upsert` added or replaced `info`,
/// saving a site with the same host, user and port replaces an entry
/// instead of adding another.
pub proof fn law_saved_site_is_found(sites: Seq<ConnectionInfo>, info: ConnectionInfo, again: ConnectionInfo, k: int)
    requires
        same_site(info, again),
        0 <= k < sites.len(),
    ensures
        first_same(sites.push(info), again) is Some,
        first_same(sites.update(k, info), again) is Some,
{
    assert(sites.push(info).drop_last() =~= sites);
    lemma_first_same_bounds(sites.update(k, info), again);
    assert(sites.update(k, info)[k] == info);
}

/// The default index after the site at `idx` left a list of `n` sites.
pub open spec fn default_after_removal(d: Option<usize>, idx: int, n: int) -> Option<usize> {
    match d {
        None => None,
        Some(x) => if n == 0 {
            None
        } else if x == idx {
            Some(0)
        } else if x > idx {
            Some((x - 1) as usize)
        } else {
            Some(x)
        },
    }
}

/// Why a site cannot be made the default.
#[derive(Debug, Clone, Copy, PartialEq, Eq, Structural)]
pub enum DefaultSiteError {
    /// There are no saved sites.
    NoSites,
    /// The selection is not a saved site.
    InvalidSelection,
}

fn find_same(sites: &Vec<ConnectionInfo>, info: &ConnectionInfo) -> (r: usize)
    ensures
        r <= sites@.len(),
        r < sites@.len() ==> same_site(sites@[r as int], *info),
        forall|m: int| 0 <= m < r ==> !same_site(#[trigger] sites@[m], *info),
{
    let mut k: usize = 0;
    while k < sites.len()
        invariant
            k <= sites@.len(),
            forall|m: int| 0 <= m < k ==> !same_site(#[trigger] sites@[m], *info),
        decreases sites@.len() - k,
    {
        if str_eq(sites[k].host.as_str(), info.host.as_str()) && str_eq(
            sites[k].username.as_str(),
            info.username.as_str(),
        ) && sites[k].port == info.port {
            return k;
        }
        k = k + 1;
    }
    k
}

fn find_named(sites: &Vec<ConnectionInfo>, name: &str) -> (r: usize)
    ensures
        r <= sites@.len(),
        r < sites@.len() ==> sites@[r as int].name@ == name@,
        forall|m: int| 0 <= m < r ==> (#[trigger] sites@[m]).name@ != name@,
{
    let mut k: usize = 0;
    while k < sites.len()
        invariant
            k <= sites@.len(),
            forall|m: int| 0 <= m < k ==> (#[trigger] sites@[m]).name@ != name@,
        decreases sites@.len() - k,
    {
        if str_eq(sites[k].name.as_str(), name) {
            return k;
        }
        k = k + 1;
    }
    k
}

impl SiteConfig {
    /// Saves `info`: it replaces the same site (host, user, port) when one is
    /// saved, else it is added at the end. A list without a default gets
    /// one: the replaced site, or the first site. Returns the site's index.
    pub fn upsert(&mut self, info: ConnectionInfo) -> (idx: usize)
        ensures
            match first_same(old(self).sites@, info) {
                Some(k) => idx == k && final(self).sites@ == old(self).sites@.update(k, info)
                    && final(self).default_site == (match old(self).default_site {
                    None => Some(idx),
                    Some(d) => Some(d),
                }),
                None => idx == old(self).sites@.len() && final(self).sites@ == old(self).sites@.push(info)
                    && final(self).default_site == (match old(self).default_site {
                    None => Some(0usize),
                    Some(d) => Some(d),
                }),
            },
    {
        let k = find_same(&self.sites, &info);
        proof {
            lemma_first_same_is(old(self).sites@, info, k as int);
        }
        if k < self.sites.len() {
            self.sites.set(k, info);
            if self.default_site.is_none() {
                self.default_site = Some(k);
            }
            k
        } else {
            let n = self.sites.len();
            self.sites.push(info);
            if self.default_site.is_none() {
                self.default_site = Some(0);
            }
            n
        }
    }

    /// Removes the first site named `name` and returns it; the default index
    /// follows the sites that stay (the first one when the default left).
    /// `None`, changing nothing, when no site has that name.
    pub fn remove_named(&mut self, name: &str) -> (r: Option<ConnectionInfo>)
        ensures
            match first_named(old(self).sites@, name@) {
                Some(k) => r == Some(old(self).sites@[k]) && final(self).sites@ == old(self).sites@.remove(k)
                    && final(self).default_site == default_after_removal(
                    old(self).default_site,
                    k,
                    old(self).sites@.len() - 1,
                ),
                None => r is None && final(self).sites@ == old(self).sites@
                    && final(self).default_site == old(self).default_site,
            },
    {
        let k = find_named(&self.sites, name);
        proof {
            lemma_first_named_is(old(self).sites@, name@, k as int);
        }
        if k == self.sites.len() {
            return None;
        }
        let removed = self.sites.remove(k);
        self.default_site = match self.default_site {
            None => None,
            Some(d) => if self.sites.len() == 0 {
                None
            } else if d == k {
                Some(0)
            } else if d > k {
                Some(d - 1)
            } else {
                Some(d)
            },
        };
        Some(removed)
    }

    /// Makes the site at `selected` the default by moving it to the front
    /// (the front site takes its place).
    pub fn make_default(&mut self, selected: usize) -> (r: Result<(), DefaultSiteError>)
        ensures
            old(self).sites@.len() == 0 ==> r == Err::<(), DefaultSiteError>(DefaultSiteError::NoSites)
                && *final(self) == *old(self),
            old(self).sites@.len() > 0 && selected >= old(self).sites@.len() ==> r == Err::<(), DefaultSiteError>(
                DefaultSiteError::InvalidSelection,
            ) && *final(self) == *old(self),
            selected < old(self).sites@.len() ==> r is Ok && final(self).sites@ == old(self).sites@.update(
                0,
                old(self).sites@[selected as int],
            ).update(selected as int, old(self).sites@[0]) && final(self).default_site == Some(0usize),
    {
        if self.sites.len() == 0 {
            return Err(DefaultSiteError::NoSites);
        }
        if selected >= self.sites.len() {
            return Err(DefaultSiteError::InvalidSelection);
        }
        if selected != 0 {
            let front = self.sites[0].snapshot();
            let chosen = self.sites[selected].snapshot();
            self.sites.set(0, chosen);
            self.sites.set(selected, front);
        }
        self.default_site = Some(0);
        Ok(())
    }
}

/// Reads and writes the saved-sites file.
pub struct SiteManager;

/// Stores site passwords in the system keyring.
pub struct SecretStore;

/// The keyring entry name of a site's password.
pub open spec fn password_key_of(site_name: Seq<char>, username: Seq<char>, host: Seq<char>, port: u16) -> Seq<char> {
    "site:"@ + site_name + "|user:"@ + username + "|host:"@ + host + "|port:"@ + decimal(port as nat)
        + "|password"@
}

impl SecretStore {
    /// The keyring service every entry is stored under.
    pub fn service_name() -> (r: &'static str)
        ensures
            r@ == "dd_ftp"@,
    {
        "dd_ftp"
    }

    /// The keyring entry name of a site's password.
    pub fn password_key(site_name: &str, username: &str, host: &str, port: u16) -> (r: String)
        ensures
            r@ == password_key_of(site_name@, username@, host@, port),
    {
        let a = concat3("site:", site_name, "|user:");
        let b = concat3(a.as_str(), username, "|host:");
        let c = concat3(b.as_str(), host, "|port:");
        let p = u64_to_decimal(port as u64);
        concat3(c.as_str(), p.as_str(), "|password")
    }
}

/// The editor command: `$VISUAL`, else `$EDITOR`, else the configured one
/// (each trimmed, blank ones skipped), else `vi`.
pub open spec fn editor_choice(visual: Option<Seq<char>>, editor_env: Option<Seq<char>>, configured: Seq<char>) -> Seq<char> {
    match visual {
        Some(v) if trim_ws(v).len() > 0 => trim_ws(v),
        _ => match editor_env {
            Some(e) if trim_ws(e).len() > 0 => trim_ws(e),
            _ => if trim_ws(configured).len() > 0 {
                trim_ws(configured)
            } else {
                "vi"@
            },
        },
    }
}

/// An optional text as characters.
pub open spec fn opt_text(o: Option<&str>) -> Option<Seq<char>> {
    match o {
        Some(s) => Some(s@),
        None => None,
    }
}

fn trimmed_nonblank(o: Option<&str>) -> (r: Option<String>)
    ensures
        match opt_text(o) {
            Some(s) => if trim_ws(s).len() > 0 {
                r matches Some(t) && t@ == trim_ws(s)
            } else {
                r.is_none()
            },
            None => r.is_none(),
        },
{
    match o {
        Some(s) => {
            let cs = chars_of(s);
            let t = trim_ws_exec(&cs);
            if t.len() > 0 {
                Some(string_of(&t))
            } else {
                None
            }
        },
        None => None,
    }
}

/// The editor command from `$VISUAL`, `$EDITOR` and the setting.
pub fn resolve_editor_with(visual: Option<&str>, editor_env: Option<&str>, configured: &str) -> (r: String)
    ensures
        r@ == editor_choice(opt_text(visual), opt_text(editor_env), configured@),
{
    if let Some(s) = trimmed_nonblank(visual) {
        return s;
    }
    if let Some(s) = trimmed_nonblank(editor_env) {
        return s;
    }
    let cs = chars_of(configured);
    let t = trim_ws_exec(&cs);
    if t.len() > 0 {
        return string_of(&t);
    }
    String::from_str("vi")
}

/// Where a remote file is edited locally, and how it looked when fetched.
#[derive(Debug, Clone, Copy, PartialEq, Eq)]
pub struct FileFingerprint {
    pub modified: Option<Timestamp>,
    pub len: u64,
}

/// Whether the first bytes of a file mark it as binary: they hold a NUL.
pub fn looks_binary_bytes(data: &[u8]) -> (r: bool)
    ensures
        r == data@.contains(0u8),
{
    let mut i: usize = 0;
    while i < data.len()
        invariant
            i <= data@.len(),
            forall|k: int| 0 <= k < i ==> data@[k] != 0u8,
        decreases data@.len() - i,
    {
        if data[i] == 0 {
            assert(data@[i as int] == 0u8);
            return true;
        }
        i = i + 1;
    }
    false
}

/// Which FTP flavour a session speaks.
#[derive(Debug, Clone, Copy, PartialEq, Eq, Structural)]
pub enum FtpVariant {
    Ftp,
    Ftps,
}

/// A plain-FTP session handle; it holds no connection state of its own.
pub struct FtpSession;

/// A host key offered by a server, for the user to accept or reject.
#[derive(Debug, Clone, PartialEq, Eq)]
pub struct HostKeyOffer {
    pub host: String,
    pub port: u16,
    pub fingerprint: String,
    pub changed: bool,
}

/// Errors of the session layer.
#[derive(Debug)]
pub enum CoreError {
    NotConnected,
    Unsupported(&'static str),
}

/// The message of a session error.
pub open spec fn core_error_text(e: CoreError) -> Seq<char> {
    match e {
        CoreError::NotConnected => "not connected"@,
        CoreError::Unsupported(what) => "unsupported operation: "@ + what@,
    }
}

impl CoreError {
    /// The message shown for the error.
    pub fn message(&self) -> (r: String)
        ensures
            r@ == core_error_text(*self),
    {
        match self {
            CoreError::NotConnected => String::from_str("not connected"),
            CoreError::Unsupported(what) => concat2("unsupported operation: ", what),
        }
    }
}

/// How `known_hosts` names a host: bare on port 22, `[host]:port` otherwise.
pub open spec fn host_spec_of(host: Seq<char>, port: u16) -> Seq<char> {
    if port != 22 {
        "["@ + host + "]:"@ + decimal(port as nat)
    } else {
        host
    }
}

/// How `known_hosts` names a host.
pub fn host_spec(host: &str, port: u16) -> (r: String)
    ensures
        r@ == host_spec_of(host@, port),
{
    if port != 22 {
        let a = concat3("[", host, "]:");
        let p = u64_to_decimal(port as u64);
        concat2(a.as_str(), p.as_str())
    } else {
        String::from_str(host)
    }
}

/// The base64 digit for a 6-bit value.
pub open spec fn b64_char(v: int) -> char {
    if v < 26 {
        (('A' as int) + v) as char
    } else if v < 52 {
        (('a' as int) + v - 26) as char
    } else if v < 62 {
        (('0' as int) + v - 52) as char
    } else if v == 62 {
        '+'
    } else {
        '/'
    }
}

/// The four base64 digits of a 24-bit group.
pub open spec fn quad(n: int) -> Seq<char> {
    seq![b64_char(n / 262144), b64_char((n / 4096) % 64), b64_char((n / 64) % 64), b64_char(n % 64)]
}

/// Standard base64 of `d` without `=` padding: each three bytes give four
/// digits, a last pair gives three and a last single byte two.
pub open spec fn b64(d: Seq<u8>) -> Seq<char>
    decreases d.len(),
{
    if d.len() >= 3 {
        quad(d[0] * 65536 + d[1] * 256 + d[2]) + b64(d.subrange(3, d.len() as int))
    } else if d.len() == 2 {
        quad(d[0] * 65536 + d[1] * 256).subrange(0, 3)
    } else if d.len() == 1 {
        quad(d[0] * 65536).subrange(0, 2)
    } else {
        Seq::empty()
    }
}

fn b64_digit(v: u32) -> (c: char)
    requires
        v < 64,
    ensures
        c == b64_char(v as int),
{
    if v < 26 {
        ((65 + v) as u8) as char
    } else if v < 52 {
        ((97 + v - 26) as u8) as char
    } else if v < 62 {
        ((48 + v - 52) as u8) as char
    } else if v == 62 {
        '+'
    } else {
        '/'
    }
}

fn push_digits(out: &mut String, n: u32, count: usize)
    requires
        n < 16777216,
        2 <= count <= 4,
    ensures
        final(out)@ == old(out)@ + quad(n as int).subrange(0, count as int),
{
    let a = n >> 18;
    let b = (n >> 12) & 63;
    let c = (n >> 6) & 63;
    let d = n & 63;
    assert(a as int == (n as int) / 262144) by (bit_vector)
        requires
            a == n >> 18,
    ;
    assert(b as int == ((n as int) / 4096) % 64) by (bit_vector)
        requires
            b == (n >> 12) & 63,
    ;
    assert(c as int == ((n as int) / 64) % 64) by (bit_vector)
        requires
            c == (n >> 6) & 63,
    ;
    assert(d as int == (n as int) % 64) by (bit_vector)
        requires
            d == n & 63,
    ;
    let ghost start = out@;
    push_char(out, b64_digit(a));
    push_char(out, b64_digit(b));
    if count >= 3 {
        push_char(out, b64_digit(c));
    }
    if count >= 4 {
        push_char(out, b64_digit(d));
    }
    assert(out@ =~= start + quad(n as int).subrange(0, count as int));
}

proof fn lemma_b64_step(d: Seq<u8>)
    requires
        d.len() >= 3,
    ensures
        b64(d) == quad(d[0] * 65536 + d[1] * 256 + d[2]) + b64(d.subrange(3, d.len() as int)),
{
}

proof fn lemma_b64_tail(d: Seq<u8>)
    requires
        d.len() < 3,
    ensures
        d.len() == 2 ==> b64(d) == quad(d[0] * 65536 + d[1] * 256).subrange(0, 3),
        d.len() == 1 ==> b64(d) == quad(d[0] * 65536).subrange(0, 2),
        d.len() == 0 ==> b64(d) == Seq::<char>::empty(),
{
}

/// Standard base64 of `data` without padding.
pub fn base64_nopad(data: &[u8]) -> (r: String)
    ensures
        r@ == b64(data@),
{
    let mut out = String::new();
    let mut i: usize = 0;
    let len = data.len();
    proof {
        assert(data@.subrange(0, data@.len() as int) =~= data@);
    }
    while i < len && len - i >= 3
        invariant
            len == data@.len(),
            i <= len,
            out@ + b64(data@.subrange(i as int, len as int)) == b64(data@),
        decreases len - i,
    {
        let x = data[i] as u32;
        let y = data[i + 1] as u32;
        let z = data[i + 2] as u32;
        let n: u32 = x * 65536 + y * 256 + z;
        let ghost rest = data@.subrange(i as int, len as int);
        proof {
            assert(rest[0] == data@[i as int] && rest[1] == data@[i + 1] && rest[2] == data@[i + 2]);
            assert(rest.subrange(3, rest.len() as int) =~= data@.subrange(i + 3, len as int));
            lemma_b64_step(rest);
        }
        push_digits(&mut out, n, 4);
        proof {
            assert(quad(n as int).subrange(0, 4) =~= quad(n as int));
        }
        i = i + 3;
    }
    let left = len - i;
    let ghost rest = data@.subrange(i as int, len as int);
    proof {
        lemma_b64_tail(rest);
    }
    if left == 2 {
        let x = data[i] as u32;
        let y = data[i + 1] as u32;
        let n: u32 = x * 65536 + y * 256;
        proof {
            assert(rest[0] == data@[i as int] && rest[1] == data@[i + 1]);
        }
        push_digits(&mut out, n, 3);
    } else if left == 1 {
        let x = data[i] as u32;
        let n: u32 = x * 65536;
        proof {
            assert(rest[0] == data@[i as int]);
        }
        push_digits(&mut out, n, 2);
    } else {
        proof {
            assert(out@ + Seq::<char>::empty() =~= out@);
        }
    }
    out
}

/// The SHA-256 fingerprint text of a key hash, as `ssh-keygen -lf` shows it.
pub fn sha256_fingerprint(hash: &[u8]) -> (r: String)
    ensures
        r@ == "SHA256:"@ + b64(hash@),
{
    let b = base64_nopad(hash);
    concat2("SHA256:", b.as_str())
}

/// What the known-hosts file says of a server's key for its host and port.
#[derive(Debug, Clone, Copy, PartialEq, Eq, Structural)]
pub enum KnownHost {
    /// The saved key is this key.
    Match,
    /// No key is saved for the host and port.
    NotFound,
    /// A different key is saved: the server's key changed.
    Mismatch,
    /// The file could not be read or checked.
    Failure,
}

/// The next step in checking a server's key.
#[derive(Debug)]
pub enum HostKeyStep {
    /// The key is known: go on.
    Trusted,
    /// Stop with this error.
    Refused(String),
    /// Put the key to the user; on acceptance it is saved.
    Ask(HostKeyOffer),
}

/// `host:port`
pub open spec fn host_port(host: Seq<char>, port: u16) -> Seq<char> {
    host + ":"@ + decimal(port as nat)
}

/// Decides on a server's key from the known-hosts check: a known key is
/// trusted, an unreadable file stops the connection, and an unknown or
/// changed key is offered to the user with its SHA-256 fingerprint (without
/// the `SHA256:` prefix) and whether it changed.
pub fn host_key_step(check: KnownHost, host: &str, port: u16, key_hash: &[u8]) -> (r: HostKeyStep)
    ensures
        check == KnownHost::Match ==> r is Trusted,
        check == KnownHost::Failure ==> (r matches HostKeyStep::Refused(m) && m@ == "host key check failed for "@
            + host_port(host@, port)),
        (check == KnownHost::NotFound || check == KnownHost::Mismatch) ==> (r matches HostKeyStep::Ask(o)
            && o.host@ == host@ && o.port == port && o.fingerprint@ == b64(key_hash@) && o.changed == (check
            == KnownHost::Mismatch)),
{
    match check {
        KnownHost::Match => HostKeyStep::Trusted,
        KnownHost::Failure => {
            let p = u64_to_decimal(port as u64);
            let a = concat3("host key check failed for ", host, ":");
            HostKeyStep::Refused(concat2(a.as_str(), p.as_str()))
        },
        KnownHost::NotFound | KnownHost::Mismatch => HostKeyStep::Ask(
            HostKeyOffer {
                host: String::from_str(host),
                port,
                fingerprint: base64_nopad(key_hash),
                changed: matches!(check, KnownHost::Mismatch),
            },
        ),
    }
}

/// The user's answer on an offered key: accepted goes on (the key is then
/// saved), rejected stops with `host key rejected for host:port`.
pub fn host_key_answer(accepted: bool, host: &str, port: u16) -> (r: Result<(), String>)
    ensures
        accepted ==> r is Ok,
        !accepted ==> (r matches Err(m) && m@ == "host key rejected for "@ + host_port(host@, port)),
{
    if accepted {
        Ok(())
    } else {
        let p = u64_to_decimal(port as u64);
        let a = concat3("host key rejected for ", host, ":");
        Err(concat2(a.as_str(), p.as_str()))
    }
}

} // verus!
