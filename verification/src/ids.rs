//! Identifiers made up by the agent for records that arrive without one.

use vstd::prelude::*;

verus! {

/// The prefix of a made-up identifier.
pub open spec fn unknown_prefix() -> Seq<char> {
    "unknown-"@
}

/// A made-up identifier: `unknown-` followed by the text of a UUID.
pub open spec fn spec_unknown_id(uuid: Seq<char>) -> Seq<char> {
    unknown_prefix() + uuid
}

/// The identifier for a record whose real one is not known: `unknown-` followed by
/// `uuid`, the text of a fresh UUID that the caller draws.
pub fn unknown_id(uuid: &str) -> (r: String)
    ensures
        r@ == spec_unknown_id(uuid@),
{
    let mut r = String::new();
    r.append("unknown-");
    r.append(uuid);
    proof {
        reveal_strlit("unknown-");
        assert(r@ =~= spec_unknown_id(uuid@));
    }
    r
}

} // verus!
