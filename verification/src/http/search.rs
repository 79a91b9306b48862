//! The search parameter of backend queries: clauses such as `device_id:abc` or
//! `-id:a,b`, joined into a group.

use vstd::prelude::*;

verus! {

/// How a search clause compares a field with its values.
#[derive(Debug, Clone, Copy, PartialEq, Eq, Structural)]
pub enum SearchOperator {
    Equals,
    Contains,
}

pub open spec fn spec_search_operator_str(op: SearchOperator) -> Seq<char> {
    match op {
        SearchOperator::Equals => ":"@,
        SearchOperator::Contains => "~"@,
    }
}

impl SearchOperator {
    /// The operator as the query writes it.
    pub fn as_str(&self) -> (r: &'static str)
        ensures
            r@ == spec_search_operator_str(*self),
    {
        match self {
            SearchOperator::Equals => {
                proof {
                    reveal_strlit(":");
                }
                ":"
            },
            SearchOperator::Contains => {
                proof {
                    reveal_strlit("~");
                }
                "~"
            },
        }
    }
}

/// How the clauses of a group combine.
#[derive(Debug, Clone, Copy, PartialEq, Eq, Structural)]
pub enum LogicalOperator {
    And,
}

pub open spec fn spec_logical_operator_str(op: LogicalOperator) -> Seq<char> {
    match op {
        LogicalOperator::And => "AND"@,
    }
}

impl LogicalOperator {
    /// The operator as the query writes it.
    pub fn as_str(&self) -> (r: &'static str)
        ensures
            r@ == spec_logical_operator_str(*self),
    {
        match self {
            LogicalOperator::And => {
                proof {
                    reveal_strlit("AND");
                }
                "AND"
            },
        }
    }
}

/// The texts of the strings.
pub open spec fn texts(v: Seq<String>) -> Seq<Seq<char>> {
    v.map_values(|s: String| s@)
}

/// The values, in order, with `sep` between each two.
pub open spec fn spec_join(values: Seq<Seq<char>>, sep: Seq<char>) -> Seq<char>
    decreases values.len(),
{
    if values.len() == 0 {
        Seq::empty()
    } else if values.len() == 1 {
        values[0]
    } else {
        spec_join(values.drop_last(), sep) + sep + values.last()
    }
}

/// The values, in order, with `sep` between each two.
pub fn join(values: &Vec<String>, sep: &str) -> (r: String)
    ensures
        r@ == spec_join(texts(values@), sep@),
{
    let mut result = String::new();
    let mut i: usize = 0;
    while i < values.len()
        invariant
            0 <= i <= values@.len(),
            result@ == spec_join(texts(values@.take(i as int)), sep@),
        decreases values@.len() - i,
    {
        proof {
            let t = texts(values@.take(i + 1));
            assert(t.drop_last() =~= texts(values@.take(i as int)));
            assert(t.last() == values@[i as int]@);
        }
        if i > 0 {
            result.append(sep);
        }
        result.append(values[i].as_str());
        proof {
            if i == 0 {
                assert(result@ =~= texts(values@.take(1))[0]);
            }
        }
        i = i + 1;
    }
    proof {
        assert(values@.take(values@.len() as int) =~= values@);
    }
    result
}

/// A search clause: the key, the operator and the values separated by commas,
/// preceded by `-` when negated.
pub open spec fn spec_search_clause(key: Seq<char>, op: SearchOperator, values: Seq<Seq<char>>, not: bool) -> Seq<char> {
    (if not {
        "-"@
    } else {
        Seq::empty()
    }) + key + spec_search_operator_str(op) + spec_join(values, ","@)
}

pub fn format_search_clause(key: &str, op: SearchOperator, values: &Vec<String>, not: bool) -> (r: String)
    ensures
        r@ == spec_search_clause(key@, op, texts(values@), not),
{
    let mut r = String::new();
    if not {
        r.append("-");
    }
    r.append(key);
    r.append(op.as_str());
    let joined = join(values, ",");
    r.append(joined.as_str());
    proof {
        reveal_strlit("-");
        reveal_strlit(",");
        assert(r@ =~= spec_search_clause(key@, op, texts(values@), not));
    }
    r
}

/// The separator of a group: the operator between spaces.
pub open spec fn spec_group_separator(op: LogicalOperator) -> Seq<char> {
    " "@ + spec_logical_operator_str(op) + " "@
}

pub fn format_search_group(clauses: &Vec<String>, op: LogicalOperator) -> (r: String)
    ensures
        r@ == spec_join(texts(clauses@), spec_group_separator(op)),
{
    let mut sep = String::new();
    sep.append(" ");
    sep.append(op.as_str());
    sep.append(" ");
    proof {
        reveal_strlit(" ");
        assert(sep@ =~= spec_group_separator(op));
    }
    join(clauses, sep.as_str())
}

} // verus!
