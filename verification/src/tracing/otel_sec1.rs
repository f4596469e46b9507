//! SEC-1 audit of exported span attributes: no prompt or completion bodies.

use vstd::prelude::*;
use crate::text::{contains_str, contains_text};

verus! {

/// Lower-case form of `s`, as `str::to_lowercase` gives it (Unicode case mapping).
pub uninterp spec fn lowercase_of(s: Seq<char>) -> Seq<char>;

/// Lower-cases `s` with `str::to_lowercase`.
#[verifier::external_body]
fn to_lowercase(s: &str) -> (r: String)
    ensures
        r@ == lowercase_of(s@),
{
    s.to_lowercase()
}

/// Attribute fragments that would carry prompt or completion text.
pub open spec fn forbidden_fragments() -> Seq<Seq<char>> {
    seq!["prompt.text"@, "completion.text"@, "prompt_text"@, "completion_text"@]
}

/// Whether lower-cased attribute text holds none of the forbidden fragments.
pub open spec fn sec1_clean(lower: Seq<char>) -> bool {
    forall|k: int| 0 <= k < forbidden_fragments().len() ==> !contains_text(lower, #[trigger] forbidden_fragments()[k])
}

/// Whether already lower-cased attribute text passes the SEC-1 audit.
pub fn lowered_attributes_are_sec1_clean(lower: &str) -> (r: bool)
    ensures
        r == sec1_clean(lower@),
{
    let a = contains_str(lower, "prompt.text");
    let b = contains_str(lower, "completion.text");
    let c = contains_str(lower, "prompt_text");
    let d = contains_str(lower, "completion_text");
    proof {
        assert(forbidden_fragments()[0] == "prompt.text"@);
        assert(forbidden_fragments()[1] == "completion.text"@);
        assert(forbidden_fragments()[2] == "prompt_text"@);
        assert(forbidden_fragments()[3] == "completion_text"@);
    }
    !(a || b || c || d)
}

/// Returns true when serialized attributes contain no SEC-1 violation,
/// compared without regard to case.
pub fn attributes_are_sec1_clean(attrs_debug: &str) -> (r: bool)
    ensures
        r == sec1_clean(lowercase_of(attrs_debug@)),
{
    let lower = to_lowercase(attrs_debug);
    lowered_attributes_are_sec1_clean(lower.as_str())
}

} // verus!
