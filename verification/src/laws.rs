//! The pipeline's guarantees, stated on their own so a reader sees them in
//! one place: rejections happen before any durable upload, completion
//! accounts for every file, and deferred deletions match the published
//! objects one for one.

use vstd::prelude::*;
use crate::orchestrate::{published_keys, Orchestrator};
use crate::submission::Submission;
use crate::validate::{decision_spec, Rejection};

verus! {

/// A submission whose secret differs from the expected one is rejected as
/// unauthorized. The validator's verdict precedes every upload, so no object
/// of such a submission reaches the backing store.
pub proof fn lemma_wrong_secret_rejected(sub: Submission, expected: Seq<char>)
    requires
        sub.secret@ != expected,
    ensures
        decision_spec(sub, expected) == Some(Rejection::Unauthorized),
{
}

/// A submission with the right secret but no staged file is rejected for
/// want of a file, again before any backing-store call.
pub proof fn lemma_no_file_rejected(sub: Submission, expected: Seq<char>)
    requires
        sub.secret@ == expected,
        sub.files@.len() == 0,
    ensures
        decision_spec(sub, expected) == Some(Rejection::NoFileUploaded),
{
}

/// Once every file has been attempted, the orchestrator holds exactly one
/// outcome per staged file and has ordered exactly one transient-copy
/// removal per staged file, whatever the upload outcomes were.
pub proof fn lemma_completion_counts(o: Orchestrator)
    requires
        o.wf(),
        o.next == o.files@.len(),
    ensures
        o.outcomes@.len() == o.files@.len(),
        o.cleanups@.len() == o.files@.len(),
        forall|i: int|
            0 <= i < o.files@.len() ==> (#[trigger] o.cleanups@[i])@
                == o.files@[i].temp_path_spec(),
{
}

/// With a positive TTL, the scheduled deferred deletions are exactly the
/// published keys, in order, each delayed by the full TTL; with a zero TTL
/// nothing is ever scheduled.
pub proof fn lemma_deletions_match_published(o: Orchestrator)
    requires
        o.wf(),
    ensures
        o.ttl_seconds > 0 ==> o.scheduled@.len() == published_keys(o.outcomes@).len(),
        o.ttl_seconds > 0 ==> forall|j: int|
            0 <= j < o.scheduled@.len() ==> (#[trigger] o.scheduled@[j]).key@
                == published_keys(o.outcomes@)[j] && o.scheduled@[j].delay_seconds
                == o.ttl_seconds,
        o.ttl_seconds == 0 ==> o.scheduled@.len() == 0,
{
}

} // verus!
