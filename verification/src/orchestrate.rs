//! The publish-and-schedule state machine: each staged file is uploaded in
//! order, its transient copy is removed regardless of outcome, and a
//! successful publish with a positive TTL gets exactly one deferred deletion
//! task. The surrounding program performs the network and filesystem calls
//! and feeds each outcome back as an event.

use vstd::prelude::*;
use crate::submission::StagedFile;
use crate::validate::ValidatedSubmission;

verus! {

/// What `mime_guess::from_path` derives from a path: a deterministic lookup
/// on the path's extension alone.
pub uninterp spec fn mime_of(path: Seq<char>) -> Seq<char>;

/// Relies on `mime_guess::from_path(..).first_or_octet_stream()`: a pure
/// table lookup keyed on the path's extension, falling back to
/// `application/octet-stream`; the result depends on the path alone.
#[verifier::external_body]
fn guess_content_type(path: &str) -> (r: String)
    ensures
        r@ == mime_of(path@),
{
    mime_guess::from_path(path).first_or_octet_stream().to_string()
}

/// The content type an object is published under, guessed from its path.
pub fn content_type_for(path: &str) -> (r: String)
    ensures
        r@ == mime_of(path@),
{
    guess_content_type(path)
}

/// A published object's name and its time-bounded retrieval link.
#[derive(Debug)]
pub struct UploadInfo {
    pub file_name: String,
    pub download_url: String,
}

/// One durable upload for the surrounding program to perform.
#[derive(Debug)]
pub struct UploadRequest {
    pub key: String,
    pub temp_path: String,
    pub content_type: String,
}

/// How one upload attempt ended.
#[derive(Debug)]
pub enum UploadEvent {
    Succeeded { download_url: String },
    Failed { detail: String },
}

/// The per-file result recorded for the response.
#[derive(Debug)]
pub enum FileOutcome {
    Published { info: UploadInfo, ttl_seconds: u64 },
    UploadFailed { file_name: String, detail: String },
}

/// A deferred deletion: remove `key` from the durable store once
/// `delay_seconds` have elapsed.
#[derive(Debug)]
pub struct DeletionTask {
    pub key: String,
    pub delay_seconds: u64,
}

/// Decides whether a published object gets a deferred deletion: exactly one
/// task, delayed by the full TTL, when the TTL is positive; none when it is
/// zero, leaving the object until it is removed by hand.
pub fn schedule_deletion(key: String, ttl_seconds: u64) -> (r: Option<DeletionTask>)
    ensures
        r is Some <==> ttl_seconds > 0,
        r matches Some(t) ==> t.key == key && t.delay_seconds == ttl_seconds,
{
    if ttl_seconds > 0 {
        Some(DeletionTask { key, delay_seconds: ttl_seconds })
    } else {
        None
    }
}

/// The outcome a file's attempt yields, given how the upload ended.
pub open spec fn outcome_for(f: StagedFile, ttl: u64, ev: UploadEvent) -> FileOutcome {
    match ev {
        UploadEvent::Succeeded { download_url } => FileOutcome::Published {
            info: UploadInfo { file_name: f.staged_name, download_url },
            ttl_seconds: ttl,
        },
        UploadEvent::Failed { detail } => FileOutcome::UploadFailed {
            file_name: f.staged_name,
            detail,
        },
    }
}

/// The keys of the published outcomes, in order.
pub open spec fn published_keys(outs: Seq<FileOutcome>) -> Seq<Seq<char>>
    decreases outs.len(),
{
    if outs.len() == 0 {
        Seq::empty()
    } else {
        let rest = published_keys(outs.drop_last());
        match outs.last() {
            FileOutcome::Published { info, .. } => rest.push(info.file_name@),
            FileOutcome::UploadFailed { .. } => rest,
        }
    }
}

/// An outcome speaks of the file it was recorded for.
pub open spec fn outcome_matches(o: FileOutcome, f: StagedFile, ttl: u64) -> bool {
    match o {
        FileOutcome::Published { info, ttl_seconds } => info.file_name@ == f.staged_name@
            && ttl_seconds == ttl,
        FileOutcome::UploadFailed { file_name, .. } => file_name@ == f.staged_name@,
    }
}

/// The actions owed after one attempt: the transient copy to remove
/// unconditionally, and the deferred deletion to launch on success when the
/// TTL is positive.
#[derive(Debug)]
pub struct StepActions {
    pub cleanup_path: String,
    pub deletion: Option<DeletionTask>,
}

/// Drives one validated submission's files through upload, cleanup and
/// deletion scheduling, recording one outcome per file.
pub struct Orchestrator {
    pub files: Vec<StagedFile>,
    pub ttl_seconds: u64,
    pub next: usize,
    pub outcomes: Vec<FileOutcome>,
    pub cleanups: Vec<String>,
    pub scheduled: Vec<DeletionTask>,
}

impl Orchestrator {
    /// The machine's invariant: files before `next` have exactly one
    /// recorded outcome and exactly one ordered cleanup each, and the
    /// scheduled deletions are exactly the published keys when the TTL is
    /// positive, none otherwise.
    pub open spec fn wf(self) -> bool {
        &&& self.next <= self.files@.len()
        &&& self.outcomes@.len() == self.next
        &&& self.cleanups@.len() == self.next
        &&& (forall|i: int|
            0 <= i < self.next ==> (#[trigger] self.cleanups@[i])@
                == self.files@[i].temp_path_spec())
        &&& (forall|i: int|
            0 <= i < self.next ==> outcome_matches(
                #[trigger] self.outcomes@[i],
                self.files@[i],
                self.ttl_seconds,
            ))
        &&& if self.ttl_seconds > 0 {
            &&& self.scheduled@.len() == published_keys(self.outcomes@).len()
            &&& (forall|j: int|
                0 <= j < self.scheduled@.len() ==> (#[trigger] self.scheduled@[j]).key@
                    == published_keys(self.outcomes@)[j] && self.scheduled@[j].delay_seconds
                    == self.ttl_seconds)
        } else {
            self.scheduled@.len() == 0
        }
    }

    /// Starts the machine over a validated submission's files.
    pub fn new(v: ValidatedSubmission) -> (r: Orchestrator)
        ensures
            r.wf(),
            r.files == v.files,
            r.ttl_seconds == v.ttl_seconds,
            r.next == 0,
            r.outcomes@.len() == 0,
            r.cleanups@.len() == 0,
            r.scheduled@.len() == 0,
    {
        let r = Orchestrator {
            files: v.files,
            ttl_seconds: v.ttl_seconds,
            next: 0,
            outcomes: Vec::new(),
            cleanups: Vec::new(),
            scheduled: Vec::new(),
        };
        proof {
            assert(published_keys(r.outcomes@).len() == 0);
        }
        r
    }

    /// Whether every file has been attempted.
    pub fn is_complete(&self) -> (r: bool)
        ensures
            r == (self.next == self.files@.len()),
    {
        self.next == self.files.len()
    }

    /// The upload owed for the next unattempted file: its key is the staged
    /// name, its content type is guessed from the transient path.
    pub fn next_request(&self) -> (r: Option<UploadRequest>)
        requires
            self.wf(),
        ensures
            r is Some <==> self.next < self.files@.len(),
            r matches Some(req) ==> {
                &&& req.key@ == self.files@[self.next as int].staged_name@
                &&& req.temp_path@ == self.files@[self.next as int].temp_path_spec()
                &&& req.content_type@ == mime_of(self.files@[self.next as int].temp_path_spec())
            },
    {
        if self.next < self.files.len() {
            let f = &self.files[self.next];
            let temp_path = f.temp_path();
            let content_type = guess_content_type(temp_path.as_str());
            Some(UploadRequest { key: f.staged_name.clone(), temp_path, content_type })
        } else {
            None
        }
    }

    /// Records how the current file's upload ended: one outcome is appended,
    /// its transient copy's removal is ordered unconditionally, and on
    /// success with a positive TTL exactly one deferred deletion is
    /// scheduled, delayed by the full TTL.
    pub fn record_outcome(&mut self, ev: UploadEvent) -> (actions: StepActions)
        requires
            old(self).wf(),
            old(self).next < old(self).files@.len(),
        ensures
            final(self).wf(),
            final(self).files == old(self).files,
            final(self).ttl_seconds == old(self).ttl_seconds,
            final(self).next == old(self).next + 1,
            final(self).outcomes@ == old(self).outcomes@.push(
                outcome_for(
                    old(self).files@[old(self).next as int],
                    old(self).ttl_seconds,
                    ev,
                ),
            ),
            final(self).cleanups@.len() == old(self).cleanups@.len() + 1,
            actions.cleanup_path@ == old(self).files@[old(self).next as int].temp_path_spec(),
            ev matches UploadEvent::Succeeded { .. } && old(self).ttl_seconds > 0 ==> {
                &&& final(self).scheduled@.len() == old(self).scheduled@.len() + 1
                &&& actions.deletion matches Some(t) && t.key@ == old(self).files@[old(
                    self,
                ).next as int].staged_name@ && t.delay_seconds == old(self).ttl_seconds
            },
            !(ev matches UploadEvent::Succeeded { .. }) || old(self).ttl_seconds == 0 ==> {
                &&& final(self).scheduled@ == old(self).scheduled@
                &&& actions.deletion is None
            },
    {
        let file_count = self.files.len();
        let file = &self.files[self.next];
        let key = file.staged_name.clone();
        let cleanup_path = file.temp_path();
        let succeeded = match &ev {
            UploadEvent::Succeeded { .. } => true,
            UploadEvent::Failed { .. } => false,
        };
        let outcome = match ev {
            UploadEvent::Succeeded { download_url } => FileOutcome::Published {
                info: UploadInfo { file_name: key.clone(), download_url },
                ttl_seconds: self.ttl_seconds,
            },
            UploadEvent::Failed { detail } => FileOutcome::UploadFailed {
                file_name: key.clone(),
                detail,
            },
        };
        proof {
            assert(self.outcomes@.push(outcome).drop_last() =~= self.outcomes@);
            assert(self.outcomes@.push(outcome).last() == outcome);
        }
        self.outcomes.push(outcome);
        self.cleanups.push(cleanup_path.clone());
        let deletion: Option<DeletionTask> = if succeeded && self.ttl_seconds > 0 {
            let task = DeletionTask { key, delay_seconds: self.ttl_seconds };
            self.scheduled.push(
                DeletionTask { key: task.key.clone(), delay_seconds: task.delay_seconds },
            );
            Some(task)
        } else {
            None
        };
        proof {
            assert(self.next < file_count);
        }
        self.next = self.next + 1;
        StepActions { cleanup_path, deletion }
    }
}

} // verus!
