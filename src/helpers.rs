//! Navigation of statement trees and the classification predicates that the
//! checks share.
use vstd::prelude::*;
use vstd::string::StringExecFns;
use crate::text::{join, join_spec, owned, str_eq, strs};
use crate::tree::{
    AlterTableCmd, CmdDef, ColumnDef, Constraint, ConstraintKind, ExprKind, RangeVar,
    Statement, TableElement,
};
use crate::violation::{Violation, ViolationView, views};

verus! {

/// The violations of a sequence of elements: those of each element, in order.
pub open spec fn gather<A>(s: Seq<A>, f: spec_fn(A) -> Seq<ViolationView>) -> Seq<ViolationView>
    decreases s.len(),
{
    if s.len() == 0 {
        Seq::empty()
    } else {
        gather(s.drop_last(), f) + f(s.last())
    }
}

/// Gathering one element more appends that element's violations.
pub proof fn lemma_gather_step<A>(s: Seq<A>, i: int, f: spec_fn(A) -> Seq<ViolationView>)
    requires
        0 <= i < s.len(),
    ensures
        gather(s.subrange(0, i + 1), f) == gather(s.subrange(0, i), f) + f(s[i]),
{
    assert(s.subrange(0, i + 1).drop_last() =~= s.subrange(0, i));
}

/// Gathering over a whole prefix range is gathering over the sequence.
pub proof fn lemma_gather_all<A>(s: Seq<A>, f: spec_fn(A) -> Seq<ViolationView>)
    ensures
        gather(s.subrange(0, s.len() as int), f) == gather(s, f),
{
    assert(s.subrange(0, s.len() as int) =~= s);
}

/// Appends `more` to `out`.
pub fn extend(out: &mut Vec<Violation>, more: Vec<Violation>)
    ensures
        views(final(out)@) == views(old(out)@) + views(more@),
{
    let ghost o = out@;
    let ghost m = more@;
    let mut more = more;
    out.append(&mut more);
    proof {
        assert(views(out@) =~= views(o) + views(m));
    }
}

/// No violation.
pub fn no_violations() -> (r: Vec<Violation>)
    ensures
        views(r@) == Seq::<ViolationView>::empty(),
{
    let r: Vec<Violation> = Vec::new();
    assert(views(r@) =~= Seq::<ViolationView>::empty());
    r
}

/// The one violation `v`.
pub fn one_violation(v: Violation) -> (r: Vec<Violation>)
    ensures
        views(r@) == seq![v@],
{
    let mut r: Vec<Violation> = Vec::new();
    r.push(v);
    assert(views(r@) =~= seq![v@]);
    r
}

/// The display name of a relation: `schema.name`, or `name` when unqualified.
pub open spec fn rv_name(rv: RangeVar) -> Seq<char> {
    if rv.schemaname@.len() == 0 {
        rv.relname@
    } else {
        rv.schemaname@ + "."@ + rv.relname@
    }
}

/// The display name of an optional relation; empty when absent.
pub open spec fn opt_rv_name(rv: Option<RangeVar>) -> Seq<char> {
    match rv {
        Some(r) => rv_name(r),
        None => Seq::empty(),
    }
}

/// `name`, or `fallback` when `name` is empty.
pub open spec fn name_or(name: Seq<char>, fallback: Seq<char>) -> Seq<char> {
    if name.len() == 0 { fallback } else { name }
}

/// The last segment of a type name; empty when there is none.
pub open spec fn type_name_spec(names: Seq<String>) -> Seq<char> {
    if names.len() == 0 {
        Seq::empty()
    } else {
        names.last()@
    }
}

/// Whether the column carries a constraint of the given kind.
pub open spec fn has_constraint(col: ColumnDef, kind: ConstraintKind) -> bool {
    exists|j: int| 0 <= j < col.constraints@.len() && col.constraints@[j].kind == kind
}

/// The column definition that an ALTER TABLE command carries, if any.
pub open spec fn cmd_column(cmd: AlterTableCmd) -> Option<ColumnDef> {
    match cmd.def {
        CmdDef::Column(c) => Some(c),
        _ => None,
    }
}

/// The constraint that an ALTER TABLE command carries, if any.
pub open spec fn cmd_constraint(cmd: AlterTableCmd) -> Option<Constraint> {
    match cmd.def {
        CmdDef::Constraint(c) => Some(c),
        _ => None,
    }
}

/// The prefix of a unique index in SQL text.
pub fn unique_prefix(is_unique: bool) -> (r: &'static str)
    ensures
        r@ == (if is_unique { "UNIQUE "@ } else { ""@ }),
{
    if is_unique { "UNIQUE " } else { "" }
}

/// The IF EXISTS clause in SQL text.
pub fn if_exists_clause(if_exists: bool) -> (r: &'static str)
    ensures
        r@ == (if if_exists { " IF EXISTS"@ } else { ""@ }),
{
    if if_exists { " IF EXISTS" } else { "" }
}

/// The display name of a relation.
pub fn range_var_name(rv: &RangeVar) -> (r: String)
    ensures
        r@ == rv_name(*rv),
{
    if rv.schemaname.as_str().unicode_len() == 0 {
        rv.relname.clone()
    } else {
        let mut s = rv.schemaname.clone();
        s.append(".");
        s.append(rv.relname.as_str());
        s
    }
}

/// The display name of an optional relation.
pub fn opt_range_var_name(rv: &Option<RangeVar>) -> (r: String)
    ensures
        r@ == opt_rv_name(*rv),
{
    match rv {
        Some(r) => range_var_name(r),
        None => String::new(),
    }
}

/// The last segment of a type name, e.g. `int4` of `pg_catalog.int4`.
pub fn type_name_str(names: &Vec<String>) -> (r: String)
    ensures
        r@ == type_name_spec(names@),
{
    if names.len() == 0 {
        String::new()
    } else {
        names[names.len() - 1].clone()
    }
}

/// The type name of a column definition.
pub fn column_type_name(col: &ColumnDef) -> (r: String)
    ensures
        r@ == type_name_spec(col.type_names@),
{
    type_name_str(&col.type_names)
}

/// The key columns of a constraint, separated by commas.
pub fn constraint_columns_str(c: &Constraint) -> (r: String)
    ensures
        r@ == join_spec(strs(c.keys@), ", "@),
{
    join(&c.keys, ", ")
}

/// The column definition of an ALTER TABLE command, if it carries one.
pub fn cmd_def_as_column_def(cmd: &AlterTableCmd) -> (r: Option<&ColumnDef>)
    ensures
        r matches Some(c) ==> cmd_column(*cmd) == Some(*c),
        r is None ==> cmd_column(*cmd) is None,
{
    match &cmd.def {
        CmdDef::Column(c) => Some(c),
        _ => None,
    }
}

/// The constraint of an ALTER TABLE command, if it carries one.
pub fn cmd_def_as_constraint(cmd: &AlterTableCmd) -> (r: Option<&Constraint>)
    ensures
        r matches Some(c) ==> cmd_constraint(*cmd) == Some(*c),
        r is None ==> cmd_constraint(*cmd) is None,
{
    match &cmd.def {
        CmdDef::Constraint(c) => Some(c),
        _ => None,
    }
}

/// Fixed-length CHAR (internally `bpchar`).
pub fn is_char_type(ty: &str) -> (r: bool)
    ensures
        r == (ty@ == "bpchar"@),
{
    str_eq(ty, "bpchar")
}

/// TIMESTAMP without time zone.
pub fn is_timestamp_without_tz(ty: &str) -> (r: bool)
    ensures
        r == (ty@ == "timestamp"@),
{
    str_eq(ty, "timestamp")
}

/// A short integer type: SMALLINT, INT, SERIAL or SMALLSERIAL.
pub open spec fn short_integer_spec(t: Seq<char>) -> bool {
    t == "int2"@ || t == "int4"@ || t == "serial"@ || t == "smallserial"@
}

/// Whether the type is a short integer (SMALLINT, INT, SERIAL, SMALLSERIAL).
pub fn is_short_integer(ty: &str) -> (r: bool)
    ensures
        r == short_integer_spec(ty@),
{
    str_eq(ty, "int2") || str_eq(ty, "int4") || str_eq(ty, "serial")
        || str_eq(ty, "smallserial")
}

/// JSON (not JSONB).
pub fn is_json_type(ty: &str) -> (r: bool)
    ensures
        r == (ty@ == "json"@),
{
    str_eq(ty, "json")
}

/// Whether the column carries a constraint of the given kind.
pub fn column_has_constraint(col: &ColumnDef, kind: ConstraintKind) -> (r: bool)
    ensures
        r == has_constraint(*col, kind),
{
    let mut i: usize = 0;
    while i < col.constraints.len()
        invariant
            i <= col.constraints.len(),
            forall|j: int| 0 <= j < i ==> col.constraints@[j].kind != kind,
        decreases col.constraints.len() - i,
    {
        if col.constraints[i].kind == kind {
            return true;
        }
        i = i + 1;
    }
    false
}

/// A SERIAL type: SERIAL, BIGSERIAL or SMALLSERIAL.
pub open spec fn serial_spec(t: Seq<char>) -> bool {
    t == "serial"@ || t == "bigserial"@ || t == "smallserial"@
}

/// Whether the column's type is a SERIAL type.
pub fn is_serial_pattern(col: &ColumnDef) -> (r: bool)
    ensures
        r == serial_spec(type_name_spec(col.type_names@)),
{
    let t = column_type_name(col);
    str_eq(t.as_str(), "serial") || str_eq(t.as_str(), "bigserial") || str_eq(
        t.as_str(),
        "smallserial",
    )
}

/// Whether an expression is a literal constant (not a call, operator or cast).
pub open spec fn constant_expr(e: Option<ExprKind>) -> bool {
    e == Some(ExprKind::Constant)
}

/// Whether the column's DEFAULT is a literal constant.
pub open spec fn constant_default_spec(col: ColumnDef) -> bool {
    exists|j: int|
        0 <= j < col.constraints@.len() && col.constraints@[j].kind == ConstraintKind::Default
            && constant_expr(col.constraints@[j].expr)
}

/// Whether the expression is a literal constant.
pub fn is_constant_expr(e: &Option<ExprKind>) -> (r: bool)
    ensures
        r == constant_expr(*e),
{
    match e {
        Some(ExprKind::Constant) => true,
        _ => false,
    }
}

/// Whether the column has a DEFAULT whose expression is a literal constant.
pub fn is_constant_default(col: &ColumnDef) -> (r: bool)
    ensures
        r == constant_default_spec(*col),
{
    let mut i: usize = 0;
    while i < col.constraints.len()
        invariant
            i <= col.constraints.len(),
            forall|j: int|
                0 <= j < i ==> !(col.constraints@[j].kind == ConstraintKind::Default
                    && constant_expr(col.constraints@[j].expr)),
        decreases col.constraints.len() - i,
    {
        if col.constraints[i].kind == ConstraintKind::Default && is_constant_expr(
            &col.constraints[i].expr,
        ) {
            return true;
        }
        i = i + 1;
    }
    false
}

/// The qualified names of the objects of a DROP, segments joined by dots.
pub open spec fn drop_names_spec(objects: Seq<Vec<String>>) -> Seq<Seq<char>> {
    objects.map_values(|o: Vec<String>| join_spec(strs(o@), "."@))
}

/// The qualified names of the objects of a DROP.
pub fn drop_object_names(objects: &Vec<Vec<String>>) -> (r: Vec<String>)
    ensures
        strs(r@) == drop_names_spec(objects@),
{
    let mut out: Vec<String> = Vec::new();
    let mut i: usize = 0;
    while i < objects.len()
        invariant
            i <= objects.len(),
            out@.len() == i,
            strs(out@) == drop_names_spec(objects@.subrange(0, i as int)),
        decreases objects.len() - i,
    {
        let name = join(&objects[i], ".");
        let ghost prev = out@;
        out.push(name);
        proof {
            let a = objects@.subrange(0, i as int);
            let b = objects@.subrange(0, i as int + 1);
            assert forall|j: int| 0 <= j < i + 1 implies strs(out@)[j] == drop_names_spec(b)[j] by {
                if j < i {
                    assert(strs(prev)[j] == drop_names_spec(a)[j]);
                    assert(b[j] == a[j]);
                }
            }
            assert(strs(out@) =~= drop_names_spec(b));
        }
        i = i + 1;
    }
    proof {
        assert(objects@.subrange(0, i as int) =~= objects@);
    }
    out
}

/// The table name and the commands of an ALTER TABLE statement.
pub fn alter_table_cmds(node: &Statement) -> (r: Option<(String, &Vec<AlterTableCmd>)>)
    ensures
        match *node {
            Statement::AlterTable { relation, cmds } => r matches Some((t, c)) && t@ == opt_rv_name(
                relation,
            ) && *c == cmds,
            _ => r is None,
        },
{
    match node {
        Statement::AlterTable { relation, cmds } => Some((opt_range_var_name(relation), cmds)),
        _ => None,
    }
}

} // verus!
