//! Post-parse validation: the access-secret check, the optional rename of a
//! single staged file to the caller-supplied identifier, and the
//! non-emptiness check. All of it completes before any durable upload.

use vstd::prelude::*;
use crate::submission::{StagedFile, Submission};
use crate::text::str_equal;
use crate::ttl::{resolve, resolve_spec};

verus! {

/// Why a submission was rejected before any upload was attempted.
#[derive(Clone, Copy, PartialEq, Eq, Structural, Debug)]
pub enum Rejection {
    Unauthorized,
    NoFileUploaded,
}

pub open spec fn rejection_message_spec(r: Rejection) -> Seq<char> {
    match r {
        Rejection::Unauthorized => "Invalid password"@,
        Rejection::NoFileUploaded => "No file uploaded"@,
    }
}

impl Rejection {
    /// The response body reported for this rejection.
    pub fn message(&self) -> (r: String)
        ensures
            r@ == rejection_message_spec(*self),
    {
        match self {
            Rejection::Unauthorized => "Invalid password".to_owned(),
            Rejection::NoFileUploaded => "No file uploaded".to_owned(),
        }
    }
}

/// Index of the last dot in `s`, or -1 where there is none.
pub open spec fn last_dot(s: Seq<char>) -> int
    decreases s.len(),
{
    if s.len() == 0 {
        -1
    } else if s.last() == '.' {
        s.len() - 1
    } else {
        last_dot(s.drop_last())
    }
}

/// A file name has an extension when a dot stands after its first character;
/// a lone leading dot marks a hidden name, not an extension.
pub open spec fn has_extension(s: Seq<char>) -> bool {
    last_dot(s) >= 1
}

pub open spec fn extension_of(s: Seq<char>) -> Seq<char> {
    s.subrange(last_dot(s) + 1, s.len() as int)
}

/// The staged name after a rename: the identifier keeps the original
/// extension where one existed, else stands verbatim.
pub open spec fn renamed_name_spec(identifier: Seq<char>, original: Seq<char>) -> Seq<char> {
    if has_extension(original) {
        identifier + "."@ + extension_of(original)
    } else {
        identifier
    }
}

proof fn lemma_last_dot_in_range(s: Seq<char>)
    ensures
        -1 <= last_dot(s) < s.len(),
    decreases s.len(),
{
    if s.len() > 0 && s.last() != '.' {
        lemma_last_dot_in_range(s.drop_last());
    }
}

/// Index of the last dot of `s`, where one exists.
fn find_last_dot(s: &str) -> (r: Option<usize>)
    ensures
        r matches Some(j) ==> j == last_dot(s@),
        r is None ==> last_dot(s@) == -1,
{
    let n = s.unicode_len();
    proof {
        assert(s@.take(n as int) =~= s@);
    }
    let mut i: usize = n;
    while i > 0
        invariant
            0 <= i <= n,
            n == s@.len(),
            last_dot(s@) == last_dot(s@.take(i as int)),
        decreases i,
    {
        let c = s.get_char(i - 1);
        proof {
            assert(s@.take(i as int).drop_last() =~= s@.take(i - 1));
            assert(s@.take(i as int).last() == s@[i - 1]);
        }
        if c == '.' {
            return Some(i - 1);
        }
        i = i - 1;
    }
    proof {
        assert(s@.take(0).len() == 0);
    }
    None
}

/// Builds the staged name the identifier dictates for `original`.
pub fn renamed_name(identifier: &str, original: &str) -> (r: String)
    ensures
        r@ == renamed_name_spec(identifier@, original@),
{
    proof {
        lemma_last_dot_in_range(original@);
    }
    match find_last_dot(original) {
        Some(j) => {
            if j >= 1 {
                let n = original.unicode_len();
                let ext = original.substring_char(j + 1, n);
                let r = identifier.to_owned();
                let r = r.concat(".");
                r.concat(ext)
            } else {
                identifier.to_owned()
            }
        },
        None => identifier.to_owned(),
    }
}

/// The rename the surrounding program must perform in transient storage
/// before the upload, so the published key reflects the identifier.
#[derive(Debug)]
pub struct RenameStep {
    pub from_path: String,
    pub to_path: String,
}

/// A submission that passed validation: its files carry their final staged
/// names, and the expiry is resolved to seconds.
#[derive(Debug)]
pub struct ValidatedSubmission {
    pub files: Vec<StagedFile>,
    pub ttl_seconds: u64,
    pub rename: Option<RenameStep>,
}

/// The validator's decision: the secret is judged first, then non-emptiness.
pub open spec fn decision_spec(sub: Submission, expected: Seq<char>) -> Option<Rejection> {
    if sub.secret@ != expected {
        Some(Rejection::Unauthorized)
    } else if sub.files@.len() == 0 {
        Some(Rejection::NoFileUploaded)
    } else {
        None
    }
}

/// Whether the identifier replaces the staged name: it must be non-empty and
/// the submission must hold exactly one file.
pub open spec fn wants_rename(sub: Submission) -> bool {
    sub.identifier@.len() > 0 && sub.files@.len() == 1
}

impl Submission {
    /// Checks the access secret against the expected one, applies the
    /// identifier rename where it is due, and requires at least one staged
    /// file. Success hands back the files under their final staged names and
    /// the resolved TTL; the surrounding program performs the returned
    /// rename in transient storage before uploading.
    pub fn validate(self, expected_secret: &str) -> (r: Result<ValidatedSubmission, Rejection>)
        ensures
            r is Err <==> decision_spec(self, expected_secret@) is Some,
            r matches Err(e) ==> Some(e) == decision_spec(self, expected_secret@),
            r matches Ok(v) ==> {
                &&& v.ttl_seconds == resolve_spec(self.ttl_value, self.ttl_unit@)
                &&& v.files@.len() == self.files@.len()
                &&& (forall|i: int|
                    0 <= i < self.files@.len() ==> (#[trigger] v.files@[i]).original_name
                        == self.files@[i].original_name && v.files@[i].temp_dir
                        == self.files@[i].temp_dir)
                &&& if wants_rename(self) {
                    &&& v.files@[0].staged_name@ == renamed_name_spec(
                        self.identifier@,
                        self.files@[0].staged_name@,
                    )
                    &&& v.rename matches Some(step) && step.from_path@
                        == self.files@[0].temp_path_spec() && step.to_path@
                        == v.files@[0].temp_path_spec()
                } else {
                    v.files@ == self.files@ && v.rename is None
                }
            },
    {
        if !str_equal(self.secret.as_str(), expected_secret) {
            return Err(Rejection::Unauthorized);
        }
        let ttl_seconds = resolve(self.ttl_value, self.ttl_unit.as_str());
        let mut files = self.files;
        let mut rename: Option<RenameStep> = None;
        if !self.identifier.as_str().is_empty() && files.len() == 1 {
            let old_file = match files.pop() {
                Some(f) => f,
                None => vstd::pervasive::unreached(),
            };
            let new_name = renamed_name(self.identifier.as_str(), old_file.staged_name.as_str());
            let from_path = old_file.temp_path();
            let new_file = StagedFile {
                original_name: old_file.original_name,
                temp_dir: old_file.temp_dir,
                staged_name: new_name,
            };
            let to_path = new_file.temp_path();
            files.push(new_file);
            rename = Some(RenameStep { from_path, to_path });
        }
        if files.len() == 0 {
            return Err(Rejection::NoFileUploaded);
        }
        Ok(ValidatedSubmission { files, ttl_seconds, rename })
    }
}

} // verus!
