//! The in-flight submission being parsed: named fields are classified into
//! typed slots, and each `file` part becomes one staged file.

use vstd::prelude::*;
use crate::text::{str_equal, parse_u64, parses_as_u64, parsed_u64};

verus! {

/// A file payload written to transient storage during parsing. The staged
/// name starts as the client-declared name and may later be replaced through
/// the submission's identifier; the transient copy always lives directly
/// under `temp_dir`.
#[derive(Debug)]
pub struct StagedFile {
    pub original_name: String,
    pub temp_dir: String,
    pub staged_name: String,
}

impl StagedFile {
    /// Where this file's transient copy lives.
    pub open spec fn temp_path_spec(self) -> Seq<char> {
        self.temp_dir@ + "/"@ + self.staged_name@
    }

    pub fn temp_path(&self) -> (r: String)
        ensures
            r@ == self.temp_path_spec(),
    {
        let p = self.temp_dir.clone();
        let p = p.concat("/");
        p.concat(self.staged_name.as_str())
    }
}

/// The slot a named multipart field belongs to. Unrecognized names fall into
/// `OtherField` and are ignored without error.
#[derive(Clone, Copy, PartialEq, Eq, Structural, Debug)]
pub enum FieldKind {
    FileField,
    IdentifierField,
    TtlValueField,
    TtlUnitField,
    PasswordField,
    OtherField,
}

pub open spec fn classify_spec(name: Seq<char>) -> FieldKind {
    if name == "file"@ {
        FieldKind::FileField
    } else if name == "identifier"@ {
        FieldKind::IdentifierField
    } else if name == "ttl_value"@ {
        FieldKind::TtlValueField
    } else if name == "ttl_unit"@ {
        FieldKind::TtlUnitField
    } else if name == "password"@ {
        FieldKind::PasswordField
    } else {
        FieldKind::OtherField
    }
}

/// Sorts a field name into its slot.
pub fn classify_field(name: &str) -> (k: FieldKind)
    ensures
        k == classify_spec(name@),
{
    if str_equal(name, "file") {
        FieldKind::FileField
    } else if str_equal(name, "identifier") {
        FieldKind::IdentifierField
    } else if str_equal(name, "ttl_value") {
        FieldKind::TtlValueField
    } else if str_equal(name, "ttl_unit") {
        FieldKind::TtlUnitField
    } else if str_equal(name, "password") {
        FieldKind::PasswordField
    } else {
        FieldKind::OtherField
    }
}

/// One in-flight upload request, collected field by field. Defaults: a TTL of
/// one hour, empty identifier and secret, no files.
#[derive(Debug)]
pub struct Submission {
    pub files: Vec<StagedFile>,
    pub identifier: String,
    pub ttl_value: u64,
    pub ttl_unit: String,
    pub secret: String,
}

/// What recording one text field does to the submission: the matching slot is
/// replaced, everything else is kept. Malformed numeric text for the TTL
/// magnitude leaves the prior value in place, and unrecognized fields change
/// nothing.
pub open spec fn record_text_spec(sub: Submission, kind: FieldKind, text: String) -> Submission {
    match kind {
        FieldKind::IdentifierField => Submission { identifier: text, ..sub },
        FieldKind::TtlValueField => if parses_as_u64(text@) {
            Submission { ttl_value: parsed_u64(text@), ..sub }
        } else {
            sub
        },
        FieldKind::TtlUnitField => Submission { ttl_unit: text, ..sub },
        FieldKind::PasswordField => Submission { secret: text, ..sub },
        _ => sub,
    }
}

impl Submission {
    /// A fresh submission with the documented defaults.
    pub fn new() -> (r: Submission)
        ensures
            r.files@.len() == 0,
            r.identifier@.len() == 0,
            r.ttl_value == 1,
            r.ttl_unit@ == "hours"@,
            r.secret@.len() == 0,
    {
        Submission {
            files: Vec::new(),
            identifier: String::new(),
            ttl_value: 1,
            ttl_unit: "hours".to_owned(),
            secret: String::new(),
        }
    }

    /// Records one decoded text field into its slot.
    pub fn record_text(&mut self, kind: FieldKind, text: String)
        ensures
            *final(self) == record_text_spec(*old(self), kind, text),
    {
        match kind {
            FieldKind::IdentifierField => {
                self.identifier = text;
            },
            FieldKind::TtlValueField => {
                match parse_u64(text.as_str()) {
                    Some(v) => {
                        self.ttl_value = v;
                    },
                    None => {},
                }
            },
            FieldKind::TtlUnitField => {
                self.ttl_unit = text;
            },
            FieldKind::PasswordField => {
                self.secret = text;
            },
            _ => {},
        }
    }

    /// Appends a freshly staged file; its staged name starts as the declared
    /// original name.
    pub fn stage_file(&mut self, original_name: String, temp_dir: String)
        ensures
            final(self).files@ == old(self).files@.push(
                StagedFile {
                    original_name: original_name,
                    temp_dir: temp_dir,
                    staged_name: original_name,
                },
            ),
            final(self).identifier == old(self).identifier,
            final(self).ttl_value == old(self).ttl_value,
            final(self).ttl_unit == old(self).ttl_unit,
            final(self).secret == old(self).secret,
    {
        let staged_name = original_name.clone();
        self.files.push(StagedFile { original_name, temp_dir, staged_name });
    }
}

/// The declared filename of a `file` part, or the fallback placeholder where
/// the part carried none.
pub fn original_name_or_placeholder(declared: Option<String>) -> (r: String)
    ensures
        declared matches Some(n) ==> r == n,
        declared is None ==> r@ == "unnamed"@,
{
    match declared {
        Some(n) => n,
        None => "unnamed".to_owned(),
    }
}

} // verus!
