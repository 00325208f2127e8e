//! Memory facts as the user manages them.

use vstd::prelude::*;
use crate::cli::opt_view;
use crate::text;

verus! {

/// How the user narrows the memory list.
#[derive(Debug, Clone)]
pub struct MemoryFactFilters {
    pub fact_type: Option<String>,
    pub include_deleted: Option<bool>,
    pub limit: Option<usize>,
}

/// The memory query a filter asks for.
#[derive(Debug, Clone)]
pub struct MemoryQuery {
    pub include_deleted: bool,
    pub fact_type: Option<String>,
    pub limit: usize,
}

/// The query for the given filters: deleted facts left out, all types, at
/// most 100 facts, unless the filters say otherwise.
pub fn memory_query(filters: Option<MemoryFactFilters>) -> (r: MemoryQuery)
    ensures
        match filters {
            Some(f) => {
                &&& r.include_deleted == (f.include_deleted == Some(true))
                &&& opt_view(r.fact_type) == opt_view(f.fact_type)
                &&& r.limit == match f.limit {
                    Some(l) => l,
                    None => 100,
                }
            },
            None => !r.include_deleted && r.fact_type is None && r.limit == 100,
        },
{
    match filters {
        Some(f) => MemoryQuery {
            include_deleted: match f.include_deleted {
                Some(b) => b,
                None => false,
            },
            fact_type: f.fact_type,
            limit: match f.limit {
                Some(l) => l,
                None => 100,
            },
        },
        None => MemoryQuery { include_deleted: false, fact_type: None, limit: 100 },
    }
}

/// The kinds of fact a user may record.
pub open spec fn valid_fact_type(t: Seq<char>) -> bool {
    t == "event"@ || t == "preference"@ || t == "commitment"@ || t == "trait"@ || t == "custom"@
}

/// A new fact's content, trimmed, which must not be empty; its type must be
/// one of the five kinds.
pub fn validate_new_memory_fact<'a>(fact_type: &str, content: &'a str) -> (r: Result<&'a str, String>)
    ensures
        text::trim(content@).len() == 0 ==> r is Err && r->Err_0@ == "Memory content cannot be empty."@,
        text::trim(content@).len() > 0 && !valid_fact_type(fact_type@) ==> r is Err && r->Err_0@
            == "Invalid fact type '"@ + fact_type@ + "'. Must be one of: event, preference, commitment, trait, custom"@,
        text::trim(content@).len() > 0 && valid_fact_type(fact_type@) ==> r is Ok && r->Ok_0@ == text::trim(content@),
{
    let c = text::trim_str(content);
    if c.unicode_len() == 0 {
        return Err(text::owned("Memory content cannot be empty."));
    }
    if !(text::str_eq(fact_type, "event") || text::str_eq(fact_type, "preference") || text::str_eq(fact_type, "commitment")
        || text::str_eq(fact_type, "trait") || text::str_eq(fact_type, "custom")) {
        let mut m = crate::error::prefixed("Invalid fact type '", fact_type);
        m.append("'. Must be one of: event, preference, commitment, trait, custom");
        return Err(m);
    }
    Ok(c)
}

} // verus!
