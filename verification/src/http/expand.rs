//! The expansion parameter of backend queries.

use vstd::prelude::*;

verus! {

/// `expand[]=` and the expansion, for each expansion in turn (with nothing between).
pub open spec fn spec_expand_terms(expansions: Seq<Seq<char>>) -> Seq<char>
    decreases expansions.len(),
{
    if expansions.len() == 0 {
        Seq::empty()
    } else {
        spec_expand_terms(expansions.drop_last()) + "expand[]="@ + expansions.last()
    }
}

/// The expansion parameter: none without expansions.
pub fn build_expand_query(expansions: &Vec<String>) -> (r: Option<String>)
    ensures
        expansions@.len() == 0 ==> r is None,
        expansions@.len() > 0 ==> (r matches Some(q) && q@ == spec_expand_terms(
            crate::http::search::texts(expansions@),
        )),
{
    if expansions.len() == 0 {
        return None;
    }
    let mut query = String::new();
    let mut i: usize = 0;
    while i < expansions.len()
        invariant
            0 <= i <= expansions@.len(),
            query@ == spec_expand_terms(crate::http::search::texts(expansions@.take(i as int))),
        decreases expansions@.len() - i,
    {
        query.append("expand[]=");
        query.append(expansions[i].as_str());
        proof {
            reveal_strlit("expand[]=");
            let t = crate::http::search::texts(expansions@.take(i + 1));
            assert(t.drop_last() =~= crate::http::search::texts(expansions@.take(i as int)));
            assert(t.last() == expansions@[i as int]@);
        }
        i = i + 1;
    }
    proof {
        assert(expansions@.take(expansions@.len() as int) =~= expansions@);
    }
    Some(query)
}

} // verus!
