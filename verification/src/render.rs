//! Assembles the human-readable response: one paragraph per file, joined by
//! a separator.

use vstd::prelude::*;
use crate::orchestrate::FileOutcome;
use crate::text::dec_chars;

verus! {

/// The paragraph reported for one file: the retrieval link and expiry on
/// success, the error detail on failure.
pub open spec fn render_outcome_spec(o: FileOutcome) -> Seq<char> {
    match o {
        FileOutcome::Published { info, ttl_seconds } => "<p>File: "@ + info.file_name@
            + " uploaded successfully! <br>Download: <a href='"@ + info.download_url@ + "'>"@
            + info.download_url@ + "</a> <br>Expires in: "@ + dec_chars(ttl_seconds as nat)
            + " seconds</p>"@,
        FileOutcome::UploadFailed { file_name, detail } => "<p>Upload failed for "@ + file_name@
            + ": "@ + detail@ + "</p>"@,
    }
}

/// All paragraphs, separator-joined, in recording order.
pub open spec fn render_outcomes_spec(outs: Seq<FileOutcome>) -> Seq<char>
    decreases outs.len(),
{
    if outs.len() == 0 {
        Seq::empty()
    } else if outs.len() == 1 {
        render_outcome_spec(outs[0])
    } else {
        render_outcomes_spec(outs.drop_last()) + "<hr>"@ + render_outcome_spec(outs.last())
    }
}

/// Renders one file's paragraph.
pub fn render_outcome(o: &FileOutcome) -> (r: String)
    ensures
        r@ == render_outcome_spec(*o),
{
    match o {
        FileOutcome::Published { info, ttl_seconds } => {
            let mut s = "<p>File: ".to_owned();
            s.append(info.file_name.as_str());
            s.append(" uploaded successfully! <br>Download: <a href='");
            s.append(info.download_url.as_str());
            s.append("'>");
            s.append(info.download_url.as_str());
            s.append("</a> <br>Expires in: ");
            let ttl = crate::text::u64_to_string(*ttl_seconds);
            s.append(ttl.as_str());
            s.append(" seconds</p>");
            proof {
                assert(s@ =~= render_outcome_spec(*o));
            }
            s
        },
        FileOutcome::UploadFailed { file_name, detail } => {
            let mut s = "<p>Upload failed for ".to_owned();
            s.append(file_name.as_str());
            s.append(": ");
            s.append(detail.as_str());
            s.append("</p>");
            proof {
                assert(s@ =~= render_outcome_spec(*o));
            }
            s
        },
    }
}

/// Renders the whole response body, one paragraph per recorded outcome.
pub fn render_outcomes(outs: &Vec<FileOutcome>) -> (r: String)
    ensures
        r@ == render_outcomes_spec(outs@),
{
    let mut s = String::new();
    let mut i: usize = 0;
    proof {
        assert(outs@.take(0).len() == 0);
    }
    while i < outs.len()
        invariant
            0 <= i <= outs@.len(),
            s@ == render_outcomes_spec(outs@.take(i as int)),
        decreases outs@.len() - i,
    {
        proof {
            assert(outs@.take(i + 1).drop_last() =~= outs@.take(i as int));
            assert(outs@.take(i + 1).last() == outs@[i as int]);
            assert(outs@.take(i + 1)[0] == outs@[0]);
        }
        if i > 0 {
            s.append("<hr>");
        }
        let para = render_outcome(&outs[i]);
        s.append(para.as_str());
        i = i + 1;
    }
    proof {
        assert(outs@.take(outs@.len() as int) =~= outs@);
    }
    s
}

} // verus!
