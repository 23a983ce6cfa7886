//! Text-level detectors for statements that some parsers reject: DROP INDEX
//! CONCURRENTLY, REINDEX CONCURRENTLY, and REINDEX without it.
use vstd::prelude::*;
use crate::patterns::{
    ascii_ieq, captures_all, captures_view, eq_ignore_ascii_case, group, group_at, groups_view,
    is_match, regex_captures, regex_matches, to_upper, upper_of,
};

verus! {

/// DROP INDEX CONCURRENTLY, in any case.
pub const DROP_INDEX_CONCURRENTLY_PATTERN: &'static str = r"(?i)DROP\s+INDEX\s+CONCURRENTLY\s+";

/// REINDEX of a kind that supports CONCURRENTLY, with CONCURRENTLY.
pub const REINDEX_CONCURRENTLY_PATTERN: &'static str = r"(?i)REINDEX\s+(?:\([^)]*\)\s+)?(INDEX|TABLE|SCHEMA|DATABASE)\s+CONCURRENTLY\s+";

/// REINDEX of a kind that supports CONCURRENTLY: group 1 is the kind, group 2
/// CONCURRENTLY when present, group 3 the target.
pub const REINDEX_PATTERN: &'static str = r"(?i)REINDEX\s+(?:\([^)]*\)\s+)?(INDEX|TABLE|SCHEMA|DATABASE)\s+(CONCURRENTLY\s+)?([^\s;]+)";

/// Whether the text holds DROP INDEX CONCURRENTLY.
pub fn contains_drop_index_concurrently(sql: &str) -> (r: bool)
    ensures
        r == regex_matches(DROP_INDEX_CONCURRENTLY_PATTERN@, sql@),
{
    is_match(DROP_INDEX_CONCURRENTLY_PATTERN, sql)
}

/// Whether the text holds REINDEX ... CONCURRENTLY.
pub fn contains_reindex_concurrently(sql: &str) -> (r: bool)
    ensures
        r == regex_matches(REINDEX_CONCURRENTLY_PATTERN@, sql@),
{
    is_match(REINDEX_CONCURRENTLY_PATTERN, sql)
}

/// A REINDEX without CONCURRENTLY found in the text.
#[derive(Debug, Clone)]
pub struct ReindexMatch {
    /// INDEX, TABLE, SCHEMA or DATABASE.
    pub reindex_type: String,
    /// The index, table, schema or database rebuilt.
    pub target_name: String,
}

/// What one match of [`REINDEX_PATTERN`] yields: its kind in upper case and
/// its target, unless it is concurrent or names `IF` as its target (REINDEX
/// has no IF EXISTS).
pub open spec fn reindex_match_of(c: Seq<Option<Seq<char>>>) -> Option<(Seq<char>, Seq<char>)> {
    if group(c, 2) is Some {
        None
    } else {
        match (group(c, 1), group(c, 3)) {
            (Some(k), Some(t)) => if ascii_ieq(t, "IF"@) {
                None
            } else {
                Some((upper_of(k), t))
            },
            _ => None,
        }
    }
}

/// What the matches yield, in order.
pub open spec fn reindex_matches_spec(all: Seq<Seq<Option<Seq<char>>>>) -> Seq<(Seq<char>, Seq<char>)>
    decreases all.len(),
{
    if all.len() == 0 {
        Seq::empty()
    } else {
        reindex_matches_spec(all.drop_last()) + match reindex_match_of(all.last()) {
            Some(m) => seq![m],
            None => Seq::empty(),
        }
    }
}

/// The views of found REINDEX statements.
pub open spec fn match_views(v: Seq<ReindexMatch>) -> Seq<(Seq<char>, Seq<char>)> {
    v.map_values(|m: ReindexMatch| (m.reindex_type@, m.target_name@))
}

/// The REINDEX statements without CONCURRENTLY among the given matches of
/// [`REINDEX_PATTERN`].
pub fn reindex_matches_from(captures: &Vec<Vec<Option<String>>>) -> (r: Vec<ReindexMatch>)
    ensures
        match_views(r@) == reindex_matches_spec(captures_view(captures@)),
{
    let mut out: Vec<ReindexMatch> = Vec::new();
    let mut i: usize = 0;
    while i < captures.len()
        invariant
            i <= captures.len(),
            match_views(out@) == reindex_matches_spec(captures_view(captures@.subrange(0, i as int))),
        decreases captures.len() - i,
    {
        proof {
            assert(captures_view(captures@.subrange(0, i as int + 1)).drop_last() =~= captures_view(
                captures@.subrange(0, i as int),
            ));
            assert(captures_view(captures@.subrange(0, i as int + 1)).last() == groups_view(
                captures@[i as int]@,
            ));
        }
        let c = &captures[i];
        let ghost before = out@;
        let concurrent = group_at(c, 2);
        let kind = group_at(c, 1);
        let target = group_at(c, 3);
        if concurrent.is_none() {
            match (kind, target) {
                (Some(k), Some(t)) => {
                    if !eq_ignore_ascii_case(t.as_str(), "IF") {
                        out.push(ReindexMatch { reindex_type: to_upper(k.as_str()), target_name: t });
                    }
                },
                _ => {},
            }
        }
        proof {
            assert(match_views(out@) =~= match_views(before) + match reindex_match_of(
                groups_view(c@),
            ) {
                Some(m) => seq![m],
                None => Seq::empty(),
            });
        }
        i = i + 1;
    }
    proof {
        assert(captures@.subrange(0, i as int) =~= captures@);
    }
    out
}

/// The REINDEX statements without CONCURRENTLY in the text, in order.
pub fn detect_reindex_violations(sql: &str) -> (r: Vec<ReindexMatch>)
    ensures
        match_views(r@) == reindex_matches_spec(regex_captures(REINDEX_PATTERN@, sql@)),
{
    let captures = captures_all(REINDEX_PATTERN, sql);
    reindex_matches_from(&captures)
}

} // verus!
