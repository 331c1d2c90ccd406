//! The folder-transfer drain: files found by a scan wait in order; each is
//! checked against its destination (and, for uploads, its remote parent
//! folders are created first) before it is queued, skipped, or put to the
//! user. The decisions live here; the event loop does the listing, folder
//! creation and prompting they call for.
use vstd::prelude::*;
use crate::model::TransferDirection;
use crate::state::{AppState, AppView, OverwritePolicy, PendingFile, PromptKind, TextPromptKind};
use crate::batch::IoWork;
use crate::model::{FileEntry, TransferJob, TransferStatus};
use crate::paths::PathError;
use crate::queue::enqueue_spec;
use crate::reducer::status_set;
use crate::paths::{
    parent_remote, parent_remote_path, basename_of, remote_basename, mkdir_chain,
    remote_mkdir_chain, remote_child, safe_remote_child, local_child, safe_local_child,
};
use crate::text::{
    chars_of, contains_chars, contains_seq, lowercase_chars, to_lower, str_eq,
};

verus! {

#[derive(Debug, Clone, Copy, PartialEq, Eq, Structural)]
pub enum OverwriteChoice {
    Skip,
    Overwrite,
    OverwriteAll,
    SkipAll,
    Abort,
    Rename,
}

#[derive(Debug, Clone, PartialEq, Eq, Structural)]
pub enum DrainEvent {
    BeginDownload { dest_exists: bool },
    BeginUpload,
    UploadList { dest_exists: bool },
    UploadParentMissing,
    UploadParentsCreated,
}

#[derive(Debug, Clone, PartialEq, Eq)]
pub enum DrainStep {
    ListParent(String),
    CreateParents,
    Enqueue,
    Skip,
    Prompt,
}

/// A drain step with its path as characters.
pub enum StepView {
    ListParent(Seq<char>),
    CreateParents,
    Enqueue,
    Skip,
    Prompt,
}

impl View for DrainStep {
    type V = StepView;

    open spec fn view(&self) -> StepView {
        match self {
            DrainStep::ListParent(p) => StepView::ListParent(p@),
            DrainStep::CreateParents => StepView::CreateParents,
            DrainStep::Enqueue => StepView::Enqueue,
            DrainStep::Skip => StepView::Skip,
            DrainStep::Prompt => StepView::Prompt,
        }
    }
}

/// What to do with a file whose destination does or does not exist.
pub open spec fn conflict_step(dest_exists: bool, policy: OverwritePolicy) -> StepView {
    if !dest_exists {
        StepView::Enqueue
    } else {
        match policy {
            OverwritePolicy::Ask => StepView::Prompt,
            OverwritePolicy::OverwriteAll => StepView::Enqueue,
            OverwritePolicy::SkipAll => StepView::Skip,
        }
    }
}

/// What to do next with `file` on `event`: downloads are checked against
/// the local destination; uploads first list the remote parent, create it
/// when it is missing, then check the destination. Any other pairing skips.
pub open spec fn step_for(direction: TransferDirection, remote_path: Seq<char>, event: DrainEvent, policy: OverwritePolicy) -> StepView {
    match (direction, event) {
        (TransferDirection::Download, DrainEvent::BeginDownload { dest_exists }) => conflict_step(dest_exists, policy),
        (TransferDirection::Upload, DrainEvent::BeginUpload) => StepView::ListParent(parent_remote(remote_path)),
        (TransferDirection::Upload, DrainEvent::UploadList { dest_exists }) => conflict_step(dest_exists, policy),
        (TransferDirection::Upload, DrainEvent::UploadParentMissing) => StepView::CreateParents,
        (TransferDirection::Upload, DrainEvent::UploadParentsCreated) => conflict_step(false, policy),
        _ => StepView::Skip,
    }
}

/// What to do with a file whose destination does or does not exist.
pub fn resolve_conflict(dest_exists: bool, policy: OverwritePolicy) -> (r: DrainStep)
    ensures
        r@ == conflict_step(dest_exists, policy),
{
    if !dest_exists {
        DrainStep::Enqueue
    } else {
        match policy {
            OverwritePolicy::Ask => DrainStep::Prompt,
            OverwritePolicy::OverwriteAll => DrainStep::Enqueue,
            OverwritePolicy::SkipAll => DrainStep::Skip,
        }
    }
}

/// What to do next with `file` on `event` under `policy`.
pub fn drain_step(file: &PendingFile, event: DrainEvent, policy: OverwritePolicy) -> (r: DrainStep)
    ensures
        r@ == step_for(file.direction, file.remote_path@, event, policy),
{
    match (file.direction, event) {
        (TransferDirection::Download, DrainEvent::BeginDownload { dest_exists }) => resolve_conflict(dest_exists, policy),
        (TransferDirection::Upload, DrainEvent::BeginUpload) => DrainStep::ListParent(parent_remote_path(file.remote_path.as_str())),
        (TransferDirection::Upload, DrainEvent::UploadList { dest_exists }) => resolve_conflict(dest_exists, policy),
        (TransferDirection::Upload, DrainEvent::UploadParentMissing) => DrainStep::CreateParents,
        (TransferDirection::Upload, DrainEvent::UploadParentsCreated) => resolve_conflict(false, policy),
        _ => DrainStep::Skip,
    }
}

/// A scanned file joins the end of the waiting files; nothing is queued yet.
pub fn apply_scan_item(pending_scan: &mut Vec<PendingFile>, file: PendingFile)
    ensures
        final(pending_scan)@ == old(pending_scan)@.push(file),
{
    pending_scan.push(file);
}

/// A failed remote operation, as the drain reads it: whether some cause in
/// its chain is an I/O error of kind `AlreadyExists`, and its message.
#[derive(Debug, Clone, PartialEq, Eq)]
pub struct OpError {
    pub already_exists: bool,
    pub message: String,
}

/// The phrases by which servers report that a folder is already there.
pub open spec fn says_exists(lower: Seq<char>) -> bool {
    contains_seq(lower, "already exists"@) || contains_seq(lower, "file exists"@) || contains_seq(
        lower,
        "directory exists"@,
    ) || contains_seq(lower, "folder exists"@) || contains_seq(lower, "file exist"@)
}

/// Whether a failed folder creation only found the folder already there:
/// an `AlreadyExists` I/O cause, or a message saying so in any case.
pub open spec fn already_exists(err: OpError) -> bool {
    err.already_exists || says_exists(lowercase_chars(err.message@))
}

fn contains_str(hay: &[char], needle: &str) -> (r: bool)
    ensures
        r == contains_seq(hay@, needle@),
{
    let n = chars_of(needle);
    contains_chars(hay, &n)
}

/// Whether `err` only reports that the folder already exists.
pub fn is_already_exists_error(err: &OpError) -> (r: bool)
    ensures
        r == already_exists(*err),
{
    if err.already_exists {
        return true;
    }
    let lower = chars_of(to_lower(err.message.as_str()).as_str());
    contains_str(&lower, "already exists") || contains_str(&lower, "file exists") || contains_str(
        &lower,
        "directory exists",
    ) || contains_str(&lower, "folder exists") || contains_str(&lower, "file exist")
}

/// A folder creation that found the folder already there counts as done.
pub fn drain_mkdir_outcome(result: Result<(), OpError>) -> (r: Result<(), OpError>)
    ensures
        match result {
            Ok(()) => r is Ok,
            Err(e) => if already_exists(e) {
                r is Ok
            } else {
                r == Err::<(), OpError>(e)
            },
        },
{
    match result {
        Ok(()) => Ok(()),
        Err(err) => {
            if is_already_exists_error(&err) {
                Ok(())
            } else {
                Err(err)
            }
        },
    }
}

/// Whether another transfer worker may start.
pub fn should_spawn(connected: bool, cancel_requested: bool, active: usize, max: usize, pending_len: usize) -> (r: bool)
    ensures
        r == (connected && !cancel_requested && active < max && pending_len > 0),
{
    connected && !cancel_requested && active < max && pending_len > 0
}

/// Whether a worker message belongs to the current generation of workers.
pub fn accept_worker_msg(current: u64, msg_gen: u64) -> (r: bool)
    ensures
        r == (current == msg_gen),
{
    current == msg_gen
}

/// A waiting file with its paths as characters.
pub struct PendingView {
    pub local_path: Seq<char>,
    pub remote_path: Seq<char>,
    pub direction: TransferDirection,
    pub size_bytes: Option<u64>,
}

impl View for PendingFile {
    type V = PendingView;

    open spec fn view(&self) -> PendingView {
        PendingView {
            local_path: self.local_path@,
            remote_path: self.remote_path@,
            direction: self.direction,
            size_bytes: self.size_bytes,
        }
    }
}

/// The drain's own state: the waiting files (front first), the remote
/// folders still to create for the front upload, and the conflict policy
/// chosen for the rest of the batch.
#[derive(Debug)]
pub struct DrainQueue {
    pub pending_scan: Vec<PendingFile>,
    pub mkdir_queue: Vec<String>,
    pub overwrite_policy: OverwritePolicy,
}

/// The drain state with paths as characters.
pub struct DrainView {
    pub pending: Seq<PendingView>,
    pub mkdir: Seq<Seq<char>>,
    pub policy: OverwritePolicy,
}

/// The views of a list of waiting files.
pub open spec fn pending_views(v: Seq<PendingFile>) -> Seq<PendingView> {
    v.map_values(|f: PendingFile| f@)
}

/// The views of a list of paths.
pub open spec fn path_views(v: Seq<String>) -> Seq<Seq<char>> {
    v.map_values(|p: String| p@)
}

impl View for DrainQueue {
    type V = DrainView;

    open spec fn view(&self) -> DrainView {
        DrainView {
            pending: pending_views(self.pending_scan@),
            mkdir: path_views(self.mkdir_queue@),
            policy: self.overwrite_policy,
        }
    }
}

/// The state after the batch ends or is abandoned: nothing waits, and the
/// policy is back to asking.
pub open spec fn cleared(d: DrainView) -> DrainView {
    DrainView { pending: Seq::empty(), mkdir: Seq::empty(), policy: OverwritePolicy::Ask }
}

/// The state with the front file dropped (done with, one way or another).
pub open spec fn front_done(d: DrainView) -> DrainView {
    DrainView { pending: d.pending.drop_first(), ..d }
}

/// What the event loop does after a drain decision.
#[derive(Debug)]
pub enum DrainOrder {
    /// Nothing waits any more: the batch is over.
    Finished,
    /// Queue this file, then decide on the next one.
    Enqueue(PendingFile),
    /// The file was skipped; decide on the next one.
    Next,
    /// Ask the user what to do with the front file.
    Prompt,
    /// List this remote folder and report whether the front file is in it.
    ListParent(String),
    /// Create this remote folder and report the outcome.
    CreateFolder(String),
    /// Report this error, then decide on the next file.
    Fail(String),
    /// Wait: nothing to do until the next event.
    Wait,
}

/// What the event loop does, with its values as characters.
pub enum OrderView {
    Finished,
    Enqueue(PendingView),
    Next,
    Prompt,
    ListParent(Seq<char>),
    CreateFolder(Seq<char>),
    Fail(Seq<char>),
    Wait,
}

impl View for DrainOrder {
    type V = OrderView;

    open spec fn view(&self) -> OrderView {
        match self {
            DrainOrder::Finished => OrderView::Finished,
            DrainOrder::Enqueue(f) => OrderView::Enqueue(f@),
            DrainOrder::Next => OrderView::Next,
            DrainOrder::Prompt => OrderView::Prompt,
            DrainOrder::ListParent(p) => OrderView::ListParent(p@),
            DrainOrder::CreateFolder(p) => OrderView::CreateFolder(p@),
            DrainOrder::Fail(m) => OrderView::Fail(m@),
            DrainOrder::Wait => OrderView::Wait,
        }
    }
}

/// One decision on the front file when the drain moves on. For a
/// download, `local_dest_exists` says whether its local destination exists.
pub open spec fn scan_next(d: DrainView, local_dest_exists: bool) -> (DrainView, OrderView) {
    if d.pending.len() == 0 {
        (cleared(d), OrderView::Finished)
    } else {
        let f = d.pending[0];
        match f.direction {
            TransferDirection::Download => match conflict_step(local_dest_exists, d.policy) {
                StepView::Enqueue => (front_done(d), OrderView::Enqueue(f)),
                StepView::Skip => (front_done(d), OrderView::Next),
                _ => (d, OrderView::Prompt),
            },
            TransferDirection::Upload => (d, OrderView::ListParent(parent_remote(f.remote_path))),
        }
    }
}

/// The decision once the front upload's destination is known to exist or not.
pub open spec fn conflict_decided(d: DrainView, dest_exists: bool) -> (DrainView, OrderView) {
    let f = d.pending[0];
    match conflict_step(dest_exists, d.policy) {
        StepView::Enqueue => (front_done(d), OrderView::Enqueue(f)),
        StepView::Skip => (front_done(d), OrderView::Next),
        _ => (d, OrderView::Prompt),
    }
}

/// The decision after the front upload's remote parent was listed:
/// `listed` holds the listed names, or the error when the listing failed.
pub open spec fn list_decided(d: DrainView, listed: Result<Seq<Seq<char>>, Seq<char>>, remote_cwd: Seq<char>) -> (DrainView, OrderView) {
    if d.pending.len() == 0 {
        (d, OrderView::Wait)
    } else {
        let f = d.pending[0];
        match listed {
            Ok(ns) => conflict_decided(d, ns.contains(basename_of(f.remote_path))),
            Err(err) => {
                let parent = parent_remote(f.remote_path);
                if parent == remote_cwd {
                    (front_done(d), OrderView::Fail("Remote list failed: "@ + err))
                } else {
                    match mkdir_chain(remote_cwd, parent) {
                        Some(chain) => if chain.len() > 0 {
                            (DrainView { mkdir: chain, ..d }, OrderView::CreateFolder(chain[0]))
                        } else {
                            conflict_decided(d, false)
                        },
                        None => (front_done(d), OrderView::Fail("path escapes directory"@)),
                    }
                }
            },
        }
    }
}

/// The decision after the front pending folder creation finished: on
/// success the next folder is created, or, when none is left, the front
/// upload is decided with its parents in place; on failure the file is
/// dropped and the error reported.
pub open spec fn mkdir_decided(d: DrainView, result: Result<(), OpError>) -> (DrainView, OrderView) {
    let ok = match result {
        Ok(()) => true,
        Err(e) => already_exists(e),
    };
    if ok {
        let rest = if d.mkdir.len() > 0 {
            d.mkdir.drop_first()
        } else {
            d.mkdir
        };
        let d1 = DrainView { mkdir: rest, ..d };
        if rest.len() > 0 {
            (d1, OrderView::CreateFolder(rest[0]))
        } else if d1.pending.len() == 0 {
            (d1, OrderView::Next)
        } else {
            match step_for(d1.pending[0].direction, d1.pending[0].remote_path, DrainEvent::UploadParentsCreated, d1.policy) {
                StepView::Enqueue => (front_done(d1), OrderView::Enqueue(d1.pending[0])),
                StepView::Skip => (front_done(d1), OrderView::Next),
                StepView::Prompt => (d1, OrderView::Prompt),
                _ => (d1, OrderView::Next),
            }
        }
    } else {
        let d1 = DrainView { mkdir: Seq::empty(), ..d };
        (
            if d1.pending.len() > 0 {
                front_done(d1)
            } else {
                d1
            },
            OrderView::Fail(
                "Create folder failed: "@ + match result {
                    Err(e) => e.message@,
                    Ok(()) => Seq::empty(),
                },
            ),
        )
    }
}

/// The decision on the user's answer to the overwrite prompt. `Rename`
/// keeps the file waiting while the user types its new name.
pub open spec fn choice_decided(d: DrainView, choice: OverwriteChoice) -> (DrainView, OrderView) {
    let d1 = match choice {
        OverwriteChoice::OverwriteAll => DrainView { policy: OverwritePolicy::OverwriteAll, ..d },
        OverwriteChoice::SkipAll => DrainView { policy: OverwritePolicy::SkipAll, ..d },
        _ => d,
    };
    match choice {
        OverwriteChoice::Abort => (cleared(d), OrderView::Wait),
        OverwriteChoice::Rename => (d, OrderView::Wait),
        OverwriteChoice::Skip | OverwriteChoice::SkipAll => (
            if d1.pending.len() > 0 {
                front_done(d1)
            } else {
                d1
            },
            OrderView::Next,
        ),
        _ => if d1.pending.len() > 0 {
            (front_done(d1), OrderView::Enqueue(d1.pending[0]))
        } else {
            (d1, OrderView::Next)
        },
    }
}

impl DrainQueue {
    /// An empty drain that asks on conflicts.
    pub fn new() -> (r: Self)
        ensures
            r@ == cleared(r@),
    {
        let r = DrainQueue { pending_scan: Vec::new(), mkdir_queue: Vec::new(), overwrite_policy: OverwritePolicy::Ask };
        proof {
            assert(pending_views(r.pending_scan@) =~= Seq::<PendingView>::empty());
            assert(path_views(r.mkdir_queue@) =~= Seq::<Seq<char>>::empty());
        }
        r
    }

    /// Forgets the batch: no waiting files, no folders to create, asking again.
    pub fn clear_scan_state(&mut self)
        ensures
            final(self)@ == cleared(old(self)@),
    {
        self.pending_scan = Vec::new();
        self.mkdir_queue = Vec::new();
        self.overwrite_policy = OverwritePolicy::Ask;
        proof {
            assert(pending_views(self.pending_scan@) =~= Seq::<PendingView>::empty());
            assert(path_views(self.mkdir_queue@) =~= Seq::<Seq<char>>::empty());
        }
    }

    fn pop_front(&mut self) -> (r: PendingFile)
        requires
            old(self).pending_scan@.len() > 0,
        ensures
            final(self)@ == front_done(old(self)@),
            r@ == old(self)@.pending[0],
            r == old(self).pending_scan@[0],
    {
        let r = self.pending_scan.remove(0);
        proof {
            assert(pending_views(self.pending_scan@) =~= pending_views(old(self).pending_scan@).drop_first());
        }
        r
    }

    /// Decides on the front file as the drain moves on; for a download,
    /// `local_dest_exists` tells whether its local destination exists.
    pub fn drain_scan_next(&mut self, local_dest_exists: bool) -> (r: DrainOrder)
        ensures
            (final(self)@, r@) == scan_next(old(self)@, local_dest_exists),
    {
        if self.pending_scan.len() == 0 {
            self.clear_scan_state();
            return DrainOrder::Finished;
        }
        let direction = self.pending_scan[0].direction;
        match direction {
            TransferDirection::Download => {
                match resolve_conflict(local_dest_exists, self.overwrite_policy) {
                    DrainStep::Enqueue => DrainOrder::Enqueue(self.pop_front()),
                    DrainStep::Skip => {
                        self.pop_front();
                        DrainOrder::Next
                    },
                    _ => DrainOrder::Prompt,
                }
            },
            TransferDirection::Upload => DrainOrder::ListParent(parent_remote_path(self.pending_scan[0].remote_path.as_str())),
        }
    }

    fn apply_drain_conflict(&mut self, dest_exists: bool) -> (r: DrainOrder)
        requires
            old(self).pending_scan@.len() > 0,
        ensures
            (final(self)@, r@) == conflict_decided(old(self)@, dest_exists),
    {
        match resolve_conflict(dest_exists, self.overwrite_policy) {
            DrainStep::Enqueue => DrainOrder::Enqueue(self.pop_front()),
            DrainStep::Skip => {
                self.pop_front();
                DrainOrder::Next
            },
            _ => DrainOrder::Prompt,
        }
    }

    /// Decides on the front upload once its remote parent was listed:
    /// `listed` holds the listed names, or the error text of a failed listing.
    pub fn handle_drain_list_result(&mut self, listed: Result<Vec<String>, String>, remote_cwd: &str) -> (r: DrainOrder)
        ensures
            (final(self)@, r@) == list_decided(old(self)@, match listed {
                Ok(v) => Ok(path_views(v@)),
                Err(e) => Err(e@),
            }, remote_cwd@),
    {
        if self.pending_scan.len() == 0 {
            return DrainOrder::Wait;
        }
        let dest_name = remote_basename(self.pending_scan[0].remote_path.as_str());
        match listed {
            Ok(v) => {
                let ghost ns = path_views(v@);
                let mut found = false;
                let mut i: usize = 0;
                while i < v.len()
                    invariant
                        i <= v@.len(),
                        ns == path_views(v@),
                        found <==> exists|k: int| 0 <= k < i && ns[k] == dest_name@,
                    decreases v@.len() - i,
                {
                    let same = str_eq(v[i].as_str(), dest_name.as_str());
                    proof {
                        assert(ns[i as int] == v@[i as int]@);
                        if same {
                            assert(ns[i as int] == dest_name@);
                        }
                    }
                    if same {
                        found = true;
                    }
                    i = i + 1;
                }
                proof {
                    if found {
                        let k = choose|k: int| 0 <= k < i && ns[k] == dest_name@;
                        assert(ns.contains(dest_name@));
                    } else {
                        assert(!ns.contains(dest_name@));
                    }
                }
                self.apply_drain_conflict(found)
            },
            Err(err) => {
                let parent = parent_remote_path(self.pending_scan[0].remote_path.as_str());
                if str_eq(parent.as_str(), remote_cwd) {
                    self.pop_front();
                    return DrainOrder::Fail(crate::text::concat2("Remote list failed: ", err.as_str()));
                }
                match remote_mkdir_chain(remote_cwd, parent.as_str()) {
                    Ok(chain) => {
                        if chain.len() > 0 {
                            let first = chain[0].clone();
                            self.mkdir_queue = chain;
                            proof {
                                assert(path_views(self.mkdir_queue@) =~= mkdir_chain(remote_cwd@, parent@).unwrap());
                            }
                            DrainOrder::CreateFolder(first)
                        } else {
                            self.apply_drain_conflict(false)
                        }
                    },
                    Err(_) => {
                        self.pop_front();
                        DrainOrder::Fail(String::from_str("path escapes directory"))
                    },
                }
            },
        }
    }

    /// Decides after the front pending folder creation finished.
    pub fn handle_drain_mkdir_result(&mut self, result: Result<(), OpError>) -> (r: DrainOrder)
        ensures
            (final(self)@, r@) == mkdir_decided(old(self)@, result),
    {
        let ghost res = result;
        match drain_mkdir_outcome(result) {
            Ok(()) => {
                if self.mkdir_queue.len() > 0 {
                    self.mkdir_queue.remove(0);
                    proof {
                        assert(path_views(self.mkdir_queue@) =~= path_views(old(self).mkdir_queue@).drop_first());
                    }
                }
                if self.mkdir_queue.len() > 0 {
                    return DrainOrder::CreateFolder(self.mkdir_queue[0].clone());
                }
                if self.pending_scan.len() == 0 {
                    return DrainOrder::Next;
                }
                match drain_step(&self.pending_scan[0], DrainEvent::UploadParentsCreated, self.overwrite_policy) {
                    DrainStep::Enqueue => DrainOrder::Enqueue(self.pop_front()),
                    DrainStep::Skip => {
                        self.pop_front();
                        DrainOrder::Next
                    },
                    DrainStep::Prompt => DrainOrder::Prompt,
                    _ => DrainOrder::Next,
                }
            },
            Err(err) => {
                self.mkdir_queue = Vec::new();
                proof {
                    assert(path_views(self.mkdir_queue@) =~= Seq::<Seq<char>>::empty());
                }
                if self.pending_scan.len() > 0 {
                    self.pop_front();
                }
                let msg = crate::text::concat2("Create folder failed: ", err.message.as_str());
                DrainOrder::Fail(msg)
            },
        }
    }

    /// Carries out the user's answer to the overwrite prompt.
    pub fn apply_overwrite_choice(&mut self, choice: OverwriteChoice) -> (r: DrainOrder)
        ensures
            (final(self)@, r@) == choice_decided(old(self)@, choice),
    {
        match choice {
            OverwriteChoice::Abort => {
                self.clear_scan_state();
                return DrainOrder::Wait;
            },
            OverwriteChoice::Rename => {
                return DrainOrder::Wait;
            },
            OverwriteChoice::OverwriteAll => {
                self.overwrite_policy = OverwritePolicy::OverwriteAll;
            },
            OverwriteChoice::SkipAll => {
                self.overwrite_policy = OverwritePolicy::SkipAll;
            },
            _ => {},
        }
        match choice {
            OverwriteChoice::Skip | OverwriteChoice::SkipAll => {
                if self.pending_scan.len() > 0 {
                    self.pop_front();
                }
                DrainOrder::Next
            },
            _ => {
                if self.pending_scan.len() > 0 {
                    DrainOrder::Enqueue(self.pop_front())
                } else {
                    DrainOrder::Next
                }
            },
        }
    }
}

/// The folder part of a local path, as `std::path::Path::parent` gives it.
pub uninterp spec fn path_parent(p: Seq<char>) -> Option<Seq<char>>;

/// The last component of a local path, as `std::path::Path::file_name` gives it.
pub uninterp spec fn path_file_name(p: Seq<char>) -> Option<Seq<char>>;

/// `std::path::Path::parent` of `p`; the contract names the result.
#[verifier::external_body]
pub(crate) fn local_parent(p: &str) -> (r: Option<String>)
    ensures
        crate::model::opt_chars(r) == path_parent(p@),
{
    match std::path::Path::new(p).parent() {
        Some(q) => Some(q.to_string_lossy().into_owned()),
        None => None,
    }
}

/// `std::path::Path::file_name` of `p`; the contract names the result.
#[verifier::external_body]
pub(crate) fn local_file_name(p: &str) -> (r: Option<String>)
    ensures
        crate::model::opt_chars(r) == path_file_name(p@),
{
    match std::path::Path::new(p).file_name() {
        Some(q) => Some(q.to_string_lossy().into_owned()),
        None => None,
    }
}

/// The state after the front file is renamed to `new_name` in its folder,
/// and whether the new name was accepted. A name that is not one plain
/// component is refused and the file left as it was. A local file with no
/// folder part is placed in `local_cwd`.
pub open spec fn rename_decided(d: DrainView, new_name: Seq<char>, local_cwd: Seq<char>) -> (DrainView, bool) {
    if d.pending.len() == 0 {
        (d, true)
    } else {
        let f = d.pending[0];
        match f.direction {
            TransferDirection::Upload => match remote_child(parent_remote(f.remote_path), new_name) {
                Some(p) => (DrainView { pending: d.pending.update(0, PendingView { remote_path: p, ..f }), ..d }, true),
                None => (d, false),
            },
            TransferDirection::Download => {
                let parent = match path_parent(f.local_path) {
                    Some(q) => q,
                    None => local_cwd,
                };
                match local_child(parent, new_name) {
                    Some(p) => (DrainView { pending: d.pending.update(0, PendingView { local_path: p, ..f }), ..d }, true),
                    None => (d, false),
                }
            },
        }
    }
}

/// The name the rename prompt starts from: the front file's name.
pub open spec fn rename_suggestion_of(d: DrainView) -> Seq<char> {
    if d.pending.len() == 0 {
        Seq::empty()
    } else {
        let f = d.pending[0];
        match f.direction {
            TransferDirection::Upload => basename_of(f.remote_path),
            TransferDirection::Download => match path_file_name(f.local_path) {
                Some(n) => n,
                None => Seq::empty(),
            },
        }
    }
}

impl DrainQueue {
    /// Renames the front file to `new_name` in its folder. Returns `false`,
    /// changing nothing, when the name would leave that folder.
    pub fn apply_overwrite_rename(&mut self, new_name: &str, local_cwd: &str) -> (r: bool)
        ensures
            (final(self)@, r) == rename_decided(old(self)@, new_name@, local_cwd@),
    {
        if self.pending_scan.len() == 0 {
            return true;
        }
        let f = &self.pending_scan[0];
        let (lp, rp, direction, size) = (f.local_path.clone(), f.remote_path.clone(), f.direction, f.size_bytes);
        match direction {
            TransferDirection::Upload => {
                let parent = parent_remote_path(rp.as_str());
                match safe_remote_child(parent.as_str(), new_name) {
                    Ok(p) => {
                        let nf = PendingFile { local_path: lp, remote_path: p, direction, size_bytes: size };
                        self.pending_scan.set(0, nf);
                        proof {
                            assert(pending_views(self.pending_scan@) =~= pending_views(old(self).pending_scan@).update(0, nf@));
                        }
                        true
                    },
                    Err(_) => false,
                }
            },
            TransferDirection::Download => {
                let parent = match local_parent(lp.as_str()) {
                    Some(q) => q,
                    None => String::from_str(local_cwd),
                };
                match safe_local_child(parent.as_str(), new_name) {
                    Ok(p) => {
                        let nf = PendingFile { local_path: p, remote_path: rp, direction, size_bytes: size };
                        self.pending_scan.set(0, nf);
                        proof {
                            assert(pending_views(self.pending_scan@) =~= pending_views(old(self).pending_scan@).update(0, nf@));
                        }
                        true
                    },
                    Err(_) => false,
                }
            },
        }
    }

    /// The name the rename prompt starts from.
    pub fn rename_suggestion(&self) -> (r: String)
        ensures
            r@ == rename_suggestion_of(self@),
    {
        if self.pending_scan.len() == 0 {
            return String::new();
        }
        let f = &self.pending_scan[0];
        match f.direction {
            TransferDirection::Upload => remote_basename(f.remote_path.as_str()),
            TransferDirection::Download => match local_file_name(f.local_path.as_str()) {
                Some(n) => n,
                None => String::new(),
            },
        }
    }
}

/// An upload is never queued when the drain first reaches it: its remote
/// parent is listed first, and nothing changes until the listing is back.
pub proof fn law_upload_lists_parent_first(d: DrainView, local_dest_exists: bool)
    requires
        d.pending.len() > 0,
        d.pending[0].direction == TransferDirection::Upload,
    ensures
        scan_next(d, local_dest_exists) == (d, OrderView::ListParent(parent_remote(d.pending[0].remote_path))),
{
}

/// While parent folders remain to be created, the front file waits.
pub proof fn law_folders_before_file(d: DrainView, result: Result<(), OpError>)
    requires
        d.mkdir.len() > 1,
        result is Ok,
    ensures
        mkdir_decided(d, result).0.pending == d.pending,
        mkdir_decided(d, result).1 == OrderView::CreateFolder(d.mkdir[1]),
{
}

/// Files leave in order: whenever a decision queues a file, it is the
/// front file, and the rest wait as they were.
pub proof fn law_files_leave_in_order(d: DrainView, local_dest_exists: bool, dest_exists: bool, choice: OverwriteChoice)
    ensures
        scan_next(d, local_dest_exists).1 matches OrderView::Enqueue(f) ==> f == d.pending[0]
            && scan_next(d, local_dest_exists).0.pending == d.pending.drop_first(),
        d.pending.len() > 0 ==> (conflict_decided(d, dest_exists).1 matches OrderView::Enqueue(f) ==> f
            == d.pending[0] && conflict_decided(d, dest_exists).0.pending == d.pending.drop_first()),
        choice_decided(d, choice).1 matches OrderView::Enqueue(f) ==> f == d.pending[0]
            && choice_decided(d, choice).0.pending == d.pending.drop_first(),
{
}

/// "Overwrite all" and "skip all" hold for every later conflict of the batch.
pub proof fn law_apply_to_all(d: DrainView)
    ensures
        conflict_step(true, choice_decided(d, OverwriteChoice::OverwriteAll).0.policy) == StepView::Enqueue,
        conflict_step(true, choice_decided(d, OverwriteChoice::SkipAll).0.policy) == StepView::Skip,
{
}

/// A folder that already exists is as good as one just created: the drain
/// goes on exactly as after a success.
pub proof fn law_existing_folder_is_success(d: DrainView, e: OpError)
    requires
        already_exists(e),
    ensures
        mkdir_decided(d, Err(e)) == mkdir_decided(d, Ok(())),
{
}

/// A file whose destination does not exist is always queued, whatever the policy.
pub proof fn law_no_conflict_queues(policy: OverwritePolicy)
    ensures
        conflict_step(false, policy) == StepView::Enqueue,
{
}

/// The waiting file for transferring `entry` between the two current
/// folders, or `None` when its name would leave either of them. An upload
/// reads the entry's own path; a download writes beside the local folder.
pub open spec fn pending_for(local_cwd: Seq<char>, remote_cwd: Seq<char>, entry: FileEntry, direction: TransferDirection) -> Option<PendingView> {
    match direction {
        TransferDirection::Upload => match remote_child(remote_cwd, entry.name@) {
            Some(r) => Some(PendingView { local_path: entry.path@, remote_path: r, direction, size_bytes: Some(entry.size) }),
            None => None,
        },
        TransferDirection::Download => match (local_child(local_cwd, entry.name@), remote_child(remote_cwd, entry.name@)) {
            (Some(l), Some(r)) => Some(PendingView { local_path: l, remote_path: r, direction, size_bytes: Some(entry.size) }),
            _ => None,
        },
    }
}

/// The waiting file for transferring `entry` between the current folders.
pub fn pending_from_entry(app: &AppState, entry: &FileEntry, direction: TransferDirection) -> (r: Result<PendingFile, PathError>)
    ensures
        match pending_for(app.local_cwd@, app.remote_cwd@, *entry, direction) {
            Some(v) => r matches Ok(f) && f@ == v,
            None => r is Err,
        },
{
    match direction {
        TransferDirection::Upload => {
            let remote_path = safe_remote_child(app.remote_cwd.as_str(), entry.name.as_str())?;
            Ok(PendingFile { local_path: entry.path.clone(), remote_path, direction, size_bytes: Some(entry.size) })
        },
        TransferDirection::Download => {
            let local_path = safe_local_child(app.local_cwd.as_str(), entry.name.as_str())?;
            let remote_path = safe_remote_child(app.remote_cwd.as_str(), entry.name.as_str())?;
            Ok(PendingFile { local_path, remote_path, direction, size_bytes: Some(entry.size) })
        },
    }
}

/// A job made for a waiting file: its paths, direction and size, pending,
/// nothing sent yet, no retries and no error.
pub open spec fn job_for(j: TransferJob, f: PendingView) -> bool {
    &&& j.local_path@ == f.local_path
    &&& j.remote_path@ == f.remote_path
    &&& j.direction == f.direction
    &&& j.size_bytes == f.size_bytes
    &&& j.transferred_bytes == 0
    &&& j.status == TransferStatus::Pending
    &&& j.retries == 0
    &&& j.last_error.is_none()
}

/// The state after a job for a waiting file is queued. The drain's enqueue
/// leaves a requested cancel in force (only the user's own transfer
/// commands clear it).
pub open spec fn file_enqueued(s: AppView, j: TransferJob) -> AppView {
    let q = enqueue_spec(s.queue, j);
    AppView { queue: q, status: "Queue: "@ + crate::text::decimal(q.pending.len()) + " pending"@, ..s }
}

/// Queues a job with the id `id` for `file` and reports the pending count.
pub fn enqueue_pending_file(app: &mut AppState, file: PendingFile, id: u128)
    ensures
        exists|j: TransferJob| j.id == id && job_for(j, file@) && final(app)@ == #[trigger] file_enqueued(old(app)@, j),
{
    let mut job = TransferJob::new(id, file.local_path.as_str(), file.remote_path.as_str(), file.direction);
    job.size_bytes = file.size_bytes;
    let ghost j = job;
    app.queue.enqueue(job);
    let n = crate::text::u64_to_decimal(app.queue.pending.len() as u64);
    let st = crate::text::concat3("Queue: ", n.as_str(), " pending");
    app.status = st;
    assert(job_for(j, file@));
    assert(app@ == file_enqueued(old(app)@, j));
}

/// The state after jobs `js` were queued one by one for waiting files.
pub open spec fn files_parked(s: AppView, js: Seq<TransferJob>) -> AppView
    decreases js.len(),
{
    if js.len() == 0 {
        s
    } else {
        file_enqueued(files_parked(s, js.drop_last()), js.last())
    }
}

impl DrainQueue {
    /// On a cancel, the files still waiting go to the queue as pending jobs,
    /// in order and without conflict checks (a requested cancel keeps them
    /// from starting); the batch is then over. The `k`-th file's job gets
    /// the id `ids[k]` (the caller draws at least one per waiting file).
    pub fn park_pending_scan(&mut self, app: &mut AppState, ids: &Vec<u128>)
        requires
            ids@.len() >= old(self).pending_scan@.len(),
        ensures
            final(self)@ == cleared(old(self)@),
            exists|js: Seq<TransferJob>|
                js.len() == old(self)@.pending.len() && (forall|i: int|
                    0 <= i < js.len() ==> job_for(#[trigger] js[i], old(self)@.pending[i]) && js[i].id == ids@[i])
                    && final(app)@ == files_parked(old(app)@, js),
    {
        let ghost js: Seq<TransferJob> = Seq::empty();
        let ghost start = old(self)@.pending;
        let ghost s0 = old(app)@;
        let mut k: usize = 0;
        let n = self.pending_scan.len();
        while self.pending_scan.len() > 0
            invariant
                k + self.pending_scan@.len() == n,
                n == start.len(),
                ids@.len() >= n,
                pending_views(self.pending_scan@) == start.skip(k as int),
                js.len() == k,
                forall|i: int| 0 <= i < k ==> job_for(#[trigger] js[i], start[i]) && js[i].id == ids@[i],
                app@ == files_parked(s0, js),
            decreases self.pending_scan@.len(),
        {
            let ghost old_ps = self.pending_scan@;
            let file = self.pending_scan.remove(0);
            proof {
                assert(self.pending_scan@ =~= old_ps.drop_first());
                assert(pending_views(old_ps)[0] == old_ps[0]@);
                assert(start.skip(k as int)[0] == start[k as int]);
                assert(file@ == start[k as int]);
                assert forall|i: int| 0 <= i < pending_views(self.pending_scan@).len() implies #[trigger] pending_views(
                    self.pending_scan@,
                )[i] == start.skip(k + 1)[i] by {
                    assert(pending_views(self.pending_scan@)[i] == old_ps[i + 1]@);
                    assert(pending_views(old_ps)[i + 1] == old_ps[i + 1]@);
                    assert(start.skip(k as int)[i + 1] == start[k + 1 + i]);
                }
                assert(pending_views(self.pending_scan@) =~= start.skip(k + 1));
            }
            let ghost before = app@;
            let id = ids[k];
            enqueue_pending_file(app, file, id);
            proof {
                let j = choose|j: TransferJob| j.id == id && job_for(j, file@) && app@ == #[trigger] file_enqueued(before, j);
                let js2 = js.push(j);
                assert(js2.drop_last() =~= js);
                assert forall|i: int| 0 <= i < k + 1 implies job_for(#[trigger] js2[i], start[i]) && js2[i].id == ids@[i] by {
                    if i < k {
                        assert(js2[i] == js[i]);
                    }
                }
                js = js2;
            }
            k = k + 1;
        }
        self.clear_scan_state();
    }

    /// The user's cancel (Ctrl+C): a cancel is requested, so no new worker
    /// starts and the drain stands still; the files still waiting are
    /// parked in the queue as pending jobs with the ids `ids` (see
    /// [`DrainQueue::park_pending_scan`]), and the request is reported.
    /// Nothing else of the state changes.
    pub fn request_cancel(&mut self, app: &mut AppState, ids: &Vec<u128>)
        requires
            ids@.len() >= old(self).pending_scan@.len(),
        ensures
            final(app).worker_cancel_requested,
            final(self)@ == cleared(old(self)@),
            exists|js: Seq<TransferJob>|
                js.len() == old(self)@.pending.len() && (forall|i: int|
                    0 <= i < js.len() ==> job_for(#[trigger] js[i], old(self)@.pending[i]) && js[i].id == ids@[i])
                    && final(app)@ == status_set(
                    files_parked(cancel_marked(old(app)@), js),
                    "Cancel requested for active transfers"@,
                ),
    {
        mark_cancel(app);
        self.park_pending_scan(app, ids);
        proof {
            lemma_parked_keeps_cancel(cancel_marked(old(app)@), choose|js: Seq<TransferJob>|
                js.len() == old(self)@.pending.len() && (forall|i: int|
                    0 <= i < js.len() ==> job_for(#[trigger] js[i], old(self)@.pending[i]) && js[i].id == ids@[i])
                    && app@ == files_parked(cancel_marked(old(app)@), js));
        }
        crate::reducer::reduce(app, crate::actions::Action::SetStatus(String::from_str("Cancel requested for active transfers")));
        proof {
            reveal(status_set);
        }
    }
}

/// The state with a cancel requested.
pub open spec fn cancel_marked(s: AppView) -> AppView {
    AppView { worker_cancel_requested: true, ..s }
}

fn mark_cancel(app: &mut AppState)
    ensures
        final(app)@ == cancel_marked(old(app)@),
{
    app.worker_cancel_requested = true;
}

/// Parking files in the queue leaves a requested cancel in force.
proof fn lemma_parked_keeps_cancel(s: AppView, js: Seq<TransferJob>)
    ensures
        files_parked(s, js).worker_cancel_requested == s.worker_cancel_requested,
    decreases js.len(),
{
    if js.len() > 0 {
        lemma_parked_keeps_cancel(s, js.drop_last());
    }
}

/// The drain stands still: a cancel was requested, other input/output
/// work is in progress, or a choice prompt (or the prompt for a new name of
/// a conflicting file) is open.
pub open spec fn drain_held(s: AppView, io: IoWork) -> bool {
    ||| s.worker_cancel_requested
    ||| !(io is Idle)
    ||| s.prompt_kind matches Some(PromptKind::Choice(_))
    ||| s.prompt_kind == Some(PromptKind::Text(TextPromptKind::OverwriteRename))
}

impl DrainQueue {
    /// The next drain decision, unless the drain is held (see
    /// [`drain_held`]): then nothing changes and it waits.
    pub fn scan_next_unless_cancelled(&mut self, app: &AppState, io: IoWork, local_dest_exists: bool) -> (r: DrainOrder)
        ensures
            drain_held(app@, io) ==> final(self)@ == old(self)@ && r@ == OrderView::Wait,
            !drain_held(app@, io) ==> (final(self)@, r@) == scan_next(old(self)@, local_dest_exists),
    {
        if app.worker_cancel_requested || !matches!(io, IoWork::Idle) {
            return DrainOrder::Wait;
        }
        let held = match app.prompt_kind {
            Some(PromptKind::Choice(_)) => true,
            Some(PromptKind::Text(TextPromptKind::OverwriteRename)) => true,
            _ => false,
        };
        if held {
            return DrainOrder::Wait;
        }
        self.drain_scan_next(local_dest_exists)
    }
}

/// A single Overwrite or Skip answer settles only the file asked about:
/// the policy for later conflicts stays as it was. So, asking, the next
/// conflicting download is put to the user again; only the "all" answers
/// change the policy.
pub proof fn law_single_answer_keeps_policy(d: DrainView, choice: OverwriteChoice)
    ensures
        (choice == OverwriteChoice::Overwrite || choice == OverwriteChoice::Skip) ==> choice_decided(d, choice).0.policy
            == d.policy,
        choice == OverwriteChoice::OverwriteAll ==> choice_decided(d, choice).0.policy == OverwritePolicy::OverwriteAll,
        choice == OverwriteChoice::SkipAll ==> choice_decided(d, choice).0.policy == OverwritePolicy::SkipAll,
        (d.policy == OverwritePolicy::Ask && d.pending.len() >= 2 && d.pending[1].direction
            == TransferDirection::Download) ==> scan_next(choice_decided(d, OverwriteChoice::Overwrite).0, true).1
            == OrderView::Prompt,
{
}

} // verus!
