//! CREATE INDEX without CONCURRENTLY: blocks writes to the table while the
//! index is built.
use vstd::prelude::*;
use crate::checks::Check;
use crate::config::Config;
use crate::helpers::{name_or, no_violations, one_violation, opt_range_var_name, opt_rv_name, unique_prefix};
use crate::messages::{
    add_index_alternative, add_index_problem, make_add_index_alternative, make_add_index_problem,
};
use crate::text::{join, join_spec, owned, strs};
use crate::tree::{IndexElem, IndexStmt, Statement};
use crate::violation::{Violation, ViolationView, views, violation_of};

verus! {

/// Flags CREATE INDEX without CONCURRENTLY.
pub struct AddIndexCheck;

/// How the indexed columns are shown: their names, `<expr>` for expressions.
pub open spec fn index_columns_spec(params: Seq<IndexElem>) -> Seq<Seq<char>> {
    params.map_values(|p: IndexElem| name_or(p.name@, "<expr>"@))
}

/// The shown names of the indexed columns.
pub fn index_column_names(params: &Vec<IndexElem>) -> (r: Vec<String>)
    ensures
        strs(r@) == index_columns_spec(params@),
{
    let mut out: Vec<String> = Vec::new();
    let mut i: usize = 0;
    while i < params.len()
        invariant
            i <= params.len(),
            out@.len() == i,
            strs(out@) == index_columns_spec(params@.subrange(0, i as int)),
        decreases params.len() - i,
    {
        let name = if params[i].name.as_str().unicode_len() == 0 {
            owned("<expr>")
        } else {
            params[i].name.clone()
        };
        let ghost prev = out@;
        out.push(name);
        proof {
            let a = params@.subrange(0, i as int);
            let b = params@.subrange(0, i as int + 1);
            assert forall|j: int| 0 <= j < i + 1 implies strs(out@)[j] == index_columns_spec(b)[j] by {
                if j < i {
                    assert(strs(prev)[j] == index_columns_spec(a)[j]);
                    assert(b[j] == a[j]);
                }
            }
            assert(strs(out@) =~= index_columns_spec(b));
        }
        i = i + 1;
    }
    proof {
        assert(params@.subrange(0, i as int) =~= params@);
    }
    out
}

/// One violation for a CREATE INDEX that is not concurrent.
pub open spec fn add_index_spec(node: Statement) -> Seq<ViolationView> {
    match node {
        Statement::CreateIndex(ix) => if !ix.concurrent {
            let u = if ix.unique { "UNIQUE "@ } else { ""@ };
            let index = name_or(ix.idxname@, "<unnamed>"@);
            let table = opt_rv_name(ix.relation);
            seq![
                violation_of(
                    "ADD INDEX without CONCURRENTLY"@,
                    add_index_problem(u, index, table),
                    add_index_alternative(
                        u,
                        index,
                        table,
                        join_spec(index_columns_spec(ix.params@), ", "@),
                    ),
                ),
            ]
        } else {
            Seq::empty()
        },
        _ => Seq::empty(),
    }
}

impl Check for AddIndexCheck {
    open spec fn spec_name(&self) -> Seq<char> {
        "AddIndexCheck"@
    }

    open spec fn spec_check(&self, node: Statement, config: Config) -> Seq<ViolationView> {
        add_index_spec(node)
    }

    fn name(&self) -> (r: &'static str) {
        "AddIndexCheck"
    }

    fn check(&self, node: &Statement, config: &Config) -> (r: Vec<Violation>) {
        match node {
            Statement::CreateIndex(ix) => {
                if ix.concurrent {
                    return no_violations();
                }
                let u = unique_prefix(ix.unique);
                let index = if ix.idxname.as_str().unicode_len() == 0 {
                    owned("<unnamed>")
                } else {
                    ix.idxname.clone()
                };
                let table = opt_range_var_name(&ix.relation);
                let cols = index_column_names(&ix.params);
                let columns = join(&cols, ", ");
                one_violation(
                    Violation::new(
                        owned("ADD INDEX without CONCURRENTLY"),
                        make_add_index_problem(u, index.as_str(), table.as_str()),
                        make_add_index_alternative(u, index.as_str(), table.as_str(), columns.as_str()),
                    ),
                )
            },
            _ => no_violations(),
        }
    }
}

} // verus!
