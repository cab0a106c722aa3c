use vstd::prelude::*;

verus! {

/// The text that replaces a configured secret when a configuration is shown.
pub open spec fn redacted_text() -> Seq<char> {
    Seq::new(14, |i: int| '#')
}

/// What `empty_or_redacted` gives for a value: nothing stays nothing,
/// anything else becomes the redaction marker.
pub open spec fn spec_empty_or_redacted(src: Seq<char>) -> Seq<char> {
    if src.len() == 0 {
        Seq::empty()
    } else {
        redacted_text()
    }
}

/// Hides a secret value, keeping only whether one was configured.
pub fn empty_or_redacted(src: &str) -> (res: String)
    ensures
        res@ == spec_empty_or_redacted(src@),
{
    if src.is_empty() {
        String::new()
    } else {
        let res = "##############".to_string();
        proof {
            reveal_strlit("##############");
            assert(res@ =~= redacted_text());
        }
        res
    }
}

/// A hidden value tells only whether a value was set: two values are shown
/// alike exactly when both or neither are empty.
pub proof fn law_redaction_reveals_only_presence(a: Seq<char>, b: Seq<char>)
    ensures
        (spec_empty_or_redacted(a) == spec_empty_or_redacted(b)) <==> ((a.len() == 0) == (b.len()
            == 0)),
{
    if a.len() == 0 && b.len() != 0 {
        assert(spec_empty_or_redacted(b).len() == 14);
    }
    if a.len() != 0 && b.len() == 0 {
        assert(spec_empty_or_redacted(a).len() == 14);
    }
}

/// Hiding a hidden value changes nothing.
pub proof fn law_redaction_idempotent(a: Seq<char>)
    ensures
        spec_empty_or_redacted(spec_empty_or_redacted(a)) == spec_empty_or_redacted(a),
{
}

} // verus!
