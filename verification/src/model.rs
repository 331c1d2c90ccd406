//! Connection settings, listing entries and transfer jobs.
use vstd::prelude::*;

verus! {

#[derive(Debug, Clone, Copy, PartialEq, Eq, Structural)]
pub enum Protocol {
    Sftp,
    Ftp,
    Ftps,
}

#[derive(Debug, Clone, PartialEq, Eq)]
pub struct ConnectionInfo {
    pub name: String,
    pub host: String,
    pub port: u16,
    pub protocol: Protocol,
    pub username: String,
    pub password: Option<String>,
    pub private_key: Option<String>,
    pub initial_path: String,
}

/// Connection settings with their strings taken as character sequences.

pub struct ConnView {
    pub name: Seq<char>,
    pub host: Seq<char>,
    pub port: u16,
    pub protocol: Protocol,
    pub username: Seq<char>,
    pub password: Option<Seq<char>>,
    pub private_key: Option<Seq<char>>,
    pub initial_path: Seq<char>,
}

impl View for ConnectionInfo {
    type V = ConnView;

    open spec fn view(&self) -> ConnView {
        ConnView {
            name: self.name@,
            host: self.host@,
            port: self.port,
            protocol: self.protocol,
            username: self.username@,
            password: opt_chars(self.password),
            private_key: opt_chars(self.private_key),
            initial_path: self.initial_path@,
        }
    }
}

/// A copy of an optional string.
pub fn copy_opt_string(s: &Option<String>) -> (r: Option<String>)
    ensures
        r == *s,
{
    match s {
        Some(v) => Some(v.clone()),
        None => None,
    }
}

impl ConnectionInfo {
    /// A field-for-field copy.
    pub fn snapshot(&self) -> (r: ConnectionInfo)
        ensures
            r == *self,
    {
        ConnectionInfo {
            name: self.name.clone(),
            host: self.host.clone(),
            port: self.port,
            protocol: self.protocol,
            username: self.username.clone(),
            password: copy_opt_string(&self.password),
            private_key: copy_opt_string(&self.private_key),
            initial_path: self.initial_path.clone(),
        }
    }
}

/// The settings of a new site.
pub open spec fn default_conn() -> ConnView {
    ConnView {
        name: "New Site"@,
        host: "127.0.0.1"@,
        port: 22,
        protocol: Protocol::Sftp,
        username: Seq::empty(),
        password: None,
        private_key: None,
        initial_path: "/"@,
    }
}

impl Default for ConnectionInfo {
    fn default() -> (r: Self)
        ensures
            r@ == default_conn(),
            r.name@ == "New Site"@,
            r.host@ == "127.0.0.1"@,
            r.port == 22,
            r.protocol == Protocol::Sftp,
            r.username@.len() == 0,
            r.password.is_none(),
            r.private_key.is_none(),
            r.initial_path@ == "/"@,
    {
        ConnectionInfo {
            name: String::from_str("New Site"),
            host: String::from_str("127.0.0.1"),
            port: 22,
            protocol: Protocol::Sftp,
            username: String::new(),
            password: None,
            private_key: None,
            initial_path: String::from_str("/"),
        }
    }
}

#[derive(Debug, Clone, Copy, PartialEq, Eq, Structural)]
pub enum EntryKind {
    File,
    Directory,
    Symlink,
    Other,
}

/// A UTC instant: whole seconds since the Unix epoch and the nanoseconds past them.
#[derive(Debug, Clone, Copy, PartialEq, Eq, Structural)]
pub struct Timestamp {
    pub secs: i64,
    pub nanos: u32,
}

#[derive(Debug, Clone, PartialEq, Eq)]
pub struct FileEntry {
    pub name: String,
    pub path: String,
    pub kind: EntryKind,
    pub size: u64,
    pub modified: Option<Timestamp>,
    pub permissions: Option<String>,
}

/// A listing entry with its strings taken as character sequences.

pub struct EntryView {
    pub name: Seq<char>,
    pub path: Seq<char>,
    pub kind: EntryKind,
    pub size: u64,
    pub modified: Option<Timestamp>,
    pub permissions: Option<Seq<char>>,
}

/// The characters of an optional string.
pub open spec fn opt_chars(o: Option<String>) -> Option<Seq<char>> {
    match o {
        Some(s) => Some(s@),
        None => None,
    }
}

impl View for FileEntry {
    type V = EntryView;

    open spec fn view(&self) -> EntryView {
        EntryView {
            name: self.name@,
            path: self.path@,
            kind: self.kind,
            size: self.size,
            modified: self.modified,
            permissions: opt_chars(self.permissions),
        }
    }
}

/// The views of a list of entries.
pub open spec fn entry_views(v: Seq<FileEntry>) -> Seq<EntryView> {
    v.map_values(|e: FileEntry| e@)
}

impl FileEntry {
    pub fn is_dir(&self) -> (r: bool)
        ensures
            r == (self.kind == EntryKind::Directory),
    {
        self.kind == EntryKind::Directory
    }

    /// A field-for-field copy.
    pub fn snapshot(&self) -> (r: FileEntry)
        ensures
            r == *self,
    {
        FileEntry {
            name: self.name.clone(),
            path: self.path.clone(),
            kind: self.kind,
            size: self.size,
            modified: self.modified,
            permissions: copy_opt_string(&self.permissions),
        }
    }
}

#[derive(Debug, Clone, Copy, PartialEq, Eq, Structural)]
pub enum TransferDirection {
    Upload,
    Download,
}

#[derive(Debug, Clone, Copy, PartialEq, Eq, Structural)]
pub enum TransferStatus {
    Pending,
    Active,
    Completed,
    Failed,
    Cancelled,
}

#[derive(Debug, Clone, PartialEq, Eq)]
pub struct TransferJob {
    /// The job's UUID, as its 128-bit value.
    pub id: u128,
    pub local_path: String,
    pub remote_path: String,
    pub direction: TransferDirection,
    pub size_bytes: Option<u64>,
    pub transferred_bytes: u64,
    pub status: TransferStatus,
    pub retries: u8,
    pub created_at: Timestamp,
    pub updated_at: Timestamp,
    pub last_error: Option<String>,
}

/// Lower-case hexadecimal digit of `d` (below 16).
pub open spec fn hex_digit(d: int) -> char {
    if d < 10 {
        (('0' as int) + d) as char
    } else {
        (('a' as int) + d - 10) as char
    }
}

/// Hex digit `j` (0 to 31, most significant first) of a 128-bit value.
pub open spec fn nibble(id: u128, j: int) -> int {
    ((id as int) / (vstd::arithmetic::power2::pow2((4 * (31 - j)) as nat) as int)) % 16
}

/// The hyphenated lower-case text of a UUID (`8-4-4-4-12` hex digits).
pub open spec fn uuid_text(id: u128) -> Seq<char> {
    let hex = Seq::new(32, |j: int| hex_digit(nibble(id, j)));
    hex.subrange(0, 8) + seq!['-'] + hex.subrange(8, 12) + seq!['-'] + hex.subrange(12, 16) + seq!['-']
        + hex.subrange(16, 20) + seq!['-'] + hex.subrange(20, 32)
}

/// `uuid::Uuid::from_u128(id).to_string()`: the `Display` form of the
/// UUID, which the uuid crate documents as the hyphenated lower-case form.
#[verifier::external_body]
pub(crate) fn job_id_text(id: u128) -> (r: String)
    ensures
        r@ == uuid_text(id),
{
    uuid::Uuid::from_u128(id).to_string()
}

#[verifier::external_type_specification]
#[verifier::external_body]
pub struct ExSystemTime(std::time::SystemTime);

/// `std::time::SystemTime::now`: the system clock. Nothing is stated of it:
/// it is the clock.
#[verifier::external_body]
fn system_now() -> (r: std::time::SystemTime) {
    std::time::SystemTime::now()
}

/// `SystemTime::duration_since(UNIX_EPOCH)` as whole seconds and the
/// nanoseconds past them: `Ok` when `t` is not before the epoch, else `Err`
/// with how far before it lies (`SystemTimeError::duration`). Stated: the
/// nanoseconds are below one billion (`Duration::subsec_nanos`); the values
/// themselves are the clock's.
#[verifier::external_body]
fn since_epoch(t: &std::time::SystemTime) -> (r: Result<(u64, u32), (u64, u32)>)
    ensures
        match r {
            Ok((_, n)) => n < 1_000_000_000,
            Err((_, n)) => n < 1_000_000_000,
        },
{
    match t.duration_since(std::time::UNIX_EPOCH) {
        Ok(d) => Ok((d.as_secs(), d.subsec_nanos())),
        Err(e) => Err((e.duration().as_secs(), e.duration().subsec_nanos())),
    }
}

/// The current UTC time from the system clock, also when the clock is set
/// before 1970; seconds beyond the `i64` range saturate. Nothing is stated
/// of which time it is: it is the clock.
pub(crate) fn now_utc() -> (r: Timestamp)
    ensures
        r.nanos < 1_000_000_000,
{
    let now = system_now();
    match since_epoch(&now) {
        Ok((s, n)) => {
            let secs: i64 = if s <= 0x7fff_ffff_ffff_ffffu64 {
                s as i64
            } else {
                0x7fff_ffff_ffff_ffffi64
            };
            Timestamp { secs, nanos: n }
        },
        Err((s, n)) => {
            if s >= 0x7fff_ffff_ffff_ffffu64 {
                return Timestamp { secs: -0x7fff_ffff_ffff_ffffi64 - 1, nanos: 0 };
            }
            let back = s as i64;
            if n == 0 {
                Timestamp { secs: -back, nanos: 0 }
            } else {
                Timestamp { secs: -back - 1, nanos: 1_000_000_000 - n }
            }
        },
    }
}

impl TransferJob {
    /// A fresh pending job with the id `id` (drawn at random by the caller),
    /// stamped with the current time.
    pub fn new(id: u128, local_path: &str, remote_path: &str, direction: TransferDirection) -> (r: Self)
        ensures
            r.id == id,
            r.local_path@ == local_path@,
            r.remote_path@ == remote_path@,
            r.direction == direction,
            r.size_bytes.is_none(),
            r.transferred_bytes == 0,
            r.status == TransferStatus::Pending,
            r.retries == 0,
            r.created_at == r.updated_at,
            r.last_error.is_none(),
    {
        let now = now_utc();
        TransferJob {
            id,
            local_path: String::from_str(local_path),
            remote_path: String::from_str(remote_path),
            direction,
            size_bytes: None,
            transferred_bytes: 0,
            status: TransferStatus::Pending,
            retries: 0,
            created_at: now,
            updated_at: now,
            last_error: None,
        }
    }

    /// A field-for-field copy.
    pub fn snapshot(&self) -> (r: TransferJob)
        ensures
            r == *self,
    {
        TransferJob {
            id: self.id,
            local_path: self.local_path.clone(),
            remote_path: self.remote_path.clone(),
            direction: self.direction,
            size_bytes: self.size_bytes,
            transferred_bytes: self.transferred_bytes,
            status: self.status,
            retries: self.retries,
            created_at: self.created_at,
            updated_at: self.updated_at,
            last_error: copy_opt_string(&self.last_error),
        }
    }
}

} // verus!
