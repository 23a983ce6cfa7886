//! Properties of the library that relate several calls or hold of every
//! input, stated over the specifications of the checks, the registry, the
//! resolver and the scripting bridge.
use vstd::prelude::*;
use crate::checks::{
    Check, CmdRule, DropRule, DropTableCheck, ElemRule, cmd_rule_fn, cmd_rule_spec, drop_rule_fn,
    elem_rule_fn, elem_rule_spec,
};
use crate::checks::add_column::{lemma_add_column_alternative_nonempty, lemma_add_column_problem_nonempty};
use crate::checks::drop_objects::drop_object_spec;
use crate::checks::truncate_table::truncate_fn;
use crate::checks::short_int_primary_key::{
    find_cmd_col, find_elem_col, key_fn_cmds, key_fn_elems, pk_cmd_fn, pk_elem_fn, short_int_col,
};
use crate::helpers::{cmd_constraint, opt_rv_name};
use crate::messages::group_messages_nonempty;
use crate::tree::{AlterTableCmd, ColumnDef, TableElement};
use crate::violation::well_formed_violation;
use crate::messages::drop_table_problem;
use crate::text::join_spec;
use crate::tree::{DropStmt, ObjectKind};
use crate::config::Config;
use crate::helpers::gather;
use crate::ignore::{
    IgnoreRange, after_marker, ignore_ranges_spec, lemma_line_end_bounds, line_end, line_ignored,
    marker, ranges_from, statement_line,
};
use crate::registry::{
    BuiltinCheck, CheckEntry, all_builtins, builtin_entries, builtin_entries_upto, entry_name,
    entry_spec, outcome_at, outcomes_for, run_all, run_checks, statement_spec, statements_upto,
};
use crate::scripting::{
    ScriptItem, ScriptOutcome, ScriptValue, first_malformed, item_fn, lookup_str, record_violation,
    well_formed_item,
    script_result_spec, well_formed_record,
};
use crate::messages::script_error_operation;
use crate::text::strs;
use crate::tree::{RawStatement, Statement};
use crate::violation::{Violation, ViolationView, views, violation_of};

verus! {

/// Each range starts before it ends, and ends before the next one starts.
pub open spec fn ordered_ranges(r: Seq<IgnoreRange>) -> bool {
    &&& forall|k: int| 0 <= k < r.len() ==> (#[trigger] r[k]).start_line < r[k].end_line
    &&& forall|k: int, j: int|
        0 <= k < j < r.len() ==> (#[trigger] r[k]).end_line < (#[trigger] r[j]).start_line
}

/// Whether the line lies strictly inside the range.
pub open spec fn covers(r: IgnoreRange, line: int) -> bool {
    r.start_line < line < r.end_line
}

/// The least start line that the blocks found from a line on can have.
pub open spec fn first_possible_start(open: Option<usize>, line: int) -> int {
    match open {
        Some(st) => st as int,
        None => line,
    }
}

proof fn lemma_ranges_from_ordered(s: Seq<u8>, i: int, line: int, open: Option<usize>)
    requires
        0 <= i,
        1 <= line <= i + 1,
        s.len() < usize::MAX,
        open matches Some(st) ==> 1 <= st < line,
    ensures
        ordered_ranges(ranges_from(s, i, line, open)),
        forall|k: int|
            0 <= k < ranges_from(s, i, line, open).len() ==> (#[trigger] ranges_from(s, i, line, open)[k]).start_line
                >= first_possible_start(open, line),
    decreases s.len() + 1 - i,
{
    if i <= s.len() {
        let e = line_end(s, i);
        lemma_line_end_bounds(s, i);
        let (emit, next) = after_marker(marker(s, i, e), open, line);
        lemma_ranges_from_ordered(s, e + 1, line + 1, next);
        let rest = ranges_from(s, e + 1, line + 1, next);
        let all = ranges_from(s, i, line, open);
        assert(all == emit + rest);
        assert forall|k: int| 0 <= k < all.len() implies (#[trigger] all[k]).start_line < all[k].end_line
            && all[k].start_line >= first_possible_start(open, line) by {
            if k < emit.len() {
                assert(all[k] == emit[k]);
            } else {
                assert(all[k] == rest[k - emit.len()]);
            }
        }
        assert forall|k: int, j: int| 0 <= k < j < all.len() implies (#[trigger] all[k]).end_line
            < (#[trigger] all[j]).start_line by {
            if j < emit.len() {
            } else if k < emit.len() {
                assert(all[k] == emit[k]);
                assert(all[j] == rest[j - emit.len()]);
            } else {
                assert(all[k] == rest[k - emit.len()]);
                assert(all[j] == rest[j - emit.len()]);
            }
        }
    }
}

/// The `safety-assured` blocks of a text are in order and do not overlap:
/// each starts before it ends, each ends before the next starts, so a line
/// lies inside at most one of them.
pub proof fn lemma_ignore_ranges_disjoint(s: Seq<u8>)
    requires
        s.len() < usize::MAX,
    ensures
        ordered_ranges(ignore_ranges_spec(s)),
        forall|line: int, k: int, j: int|
            0 <= k < ignore_ranges_spec(s).len() && 0 <= j < ignore_ranges_spec(s).len()
                && #[trigger] covers(ignore_ranges_spec(s)[k], line) && #[trigger] covers(
                ignore_ranges_spec(s)[j],
                line,
            ) ==> k == j,
{
    lemma_ranges_from_ordered(s, 0, 1, None);
    let r = ignore_ranges_spec(s);
    assert forall|line: int, k: int, j: int|
        0 <= k < r.len() && 0 <= j < r.len() && #[trigger] covers(r[k], line) && #[trigger] covers(
            r[j],
            line,
        ) implies k == j by {
        if k < j {
            assert(r[k].end_line < r[j].start_line);
        } else if j < k {
            assert(r[j].end_line < r[k].start_line);
        }
    }
}

/// Whether a built-in check looks at statements of this kind at all.
pub open spec fn targets(b: BuiltinCheck, node: Statement) -> bool {
    match b {
        BuiltinCheck::AddColumn | BuiltinCheck::AddPrimaryKey | BuiltinCheck::AddSerialColumn
        | BuiltinCheck::AddUniqueConstraint | BuiltinCheck::AlterColumnType
        | BuiltinCheck::DropColumn | BuiltinCheck::GeneratedColumn
        | BuiltinCheck::UnnamedConstraint => node is AlterTable,
        BuiltinCheck::CharType | BuiltinCheck::TimestampType
        | BuiltinCheck::ShortIntegerPrimaryKey => node is AlterTable || node is CreateTable,
        BuiltinCheck::AddIndex | BuiltinCheck::WideIndex => node is CreateIndex,
        BuiltinCheck::DropDatabase | BuiltinCheck::DropIndex | BuiltinCheck::DropTable => node is Drop,
        BuiltinCheck::Reindex => node is Reindex,
        BuiltinCheck::TruncateTable => node is Truncate,
    }
}

/// A check finds nothing in a statement of a kind that it does not target.
pub proof fn lemma_untargeted_statement_silent(b: BuiltinCheck, node: Statement, config: Config)
    requires
        !targets(b, node),
    ensures
        b.spec_check(node, config) == Seq::<ViolationView>::empty(),
{
}

/// A check is pure: two results that it returned for the same statement and
/// configuration are equal.
pub proof fn lemma_check_pure(
    b: BuiltinCheck,
    node: Statement,
    config: Config,
    first: Seq<Violation>,
    second: Seq<Violation>,
)
    requires
        views(first) == b.spec_check(node, config),
        views(second) == b.spec_check(node, config),
    ensures
        views(first) == views(second),
{
}

/// The registry is deterministic: two results of a run over the same
/// statements, text, ranges, configuration and script outcomes hold the same
/// violations in the same order.
pub proof fn lemma_runs_deterministic(
    entries: Seq<CheckEntry>,
    stmts: Seq<RawStatement>,
    sql: Seq<u8>,
    ranges: Seq<IgnoreRange>,
    config: Config,
    outcomes: Seq<Vec<ScriptOutcome>>,
    first: Seq<Violation>,
    second: Seq<Violation>,
)
    requires
        views(first) == statements_upto(entries, stmts, sql, ranges, config, outcomes, stmts.len() as int),
        views(second) == statements_upto(entries, stmts, sql, ranges, config, outcomes, stmts.len() as int),
    ensures
        views(first) == views(second),
{
}

/// What each statement of a file yields, in source order.
pub open spec fn statement_results(
    entries: Seq<CheckEntry>,
    stmts: Seq<RawStatement>,
    sql: Seq<u8>,
    ranges: Seq<IgnoreRange>,
    config: Config,
    outcomes: Seq<Vec<ScriptOutcome>>,
) -> Seq<Seq<ViolationView>> {
    Seq::new(
        stmts.len(),
        |k: int| statement_spec(entries, stmts[k], sql, ranges, config, outcomes_for(outcomes, k)),
    )
}

/// What each active check yields on one statement, in registry order.
pub open spec fn check_results(
    entries: Seq<CheckEntry>,
    node: Statement,
    config: Config,
    outcomes: Seq<ScriptOutcome>,
) -> Seq<Seq<ViolationView>> {
    Seq::new(entries.len(), |i: int| entry_spec(entries[i], node, config, outcome_at(outcomes, i)))
}

proof fn lemma_statements_prefix(
    entries: Seq<CheckEntry>,
    stmts: Seq<RawStatement>,
    sql: Seq<u8>,
    ranges: Seq<IgnoreRange>,
    config: Config,
    outcomes: Seq<Vec<ScriptOutcome>>,
    n: int,
)
    requires
        0 <= n <= stmts.len(),
    ensures
        statements_upto(entries, stmts, sql, ranges, config, outcomes, n) == statement_results(
            entries,
            stmts,
            sql,
            ranges,
            config,
            outcomes,
        ).subrange(0, n).flatten(),
    decreases n,
{
    let r = statement_results(entries, stmts, sql, ranges, config, outcomes);
    if n == 0 {
        assert(r.subrange(0, 0) =~= Seq::<Seq<ViolationView>>::empty());
    } else {
        lemma_statements_prefix(entries, stmts, sql, ranges, config, outcomes, n - 1);
        assert(r.subrange(0, n) =~= r.subrange(0, n - 1).push(r[n - 1]));
        r.subrange(0, n - 1).lemma_flatten_push(r[n - 1]);
    }
}

proof fn lemma_checks_prefix(
    entries: Seq<CheckEntry>,
    node: Statement,
    config: Config,
    outcomes: Seq<ScriptOutcome>,
    n: int,
)
    requires
        0 <= n <= entries.len(),
    ensures
        run_checks(entries, node, config, outcomes, n) == check_results(entries, node, config, outcomes).subrange(0, n).flatten(),
    decreases n,
{
    let r = check_results(entries, node, config, outcomes);
    if n == 0 {
        assert(r.subrange(0, 0) =~= Seq::<Seq<ViolationView>>::empty());
    } else {
        lemma_checks_prefix(entries, node, config, outcomes, n - 1);
        assert(r.subrange(0, n) =~= r.subrange(0, n - 1).push(r[n - 1]));
        r.subrange(0, n - 1).lemma_flatten_push(r[n - 1]);
    }
}

/// The order of a run: what the registry finds in a file is what each
/// statement yields, concatenated in source order; what it finds in a
/// statement is what each active check yields, concatenated in registry
/// order. Identical inputs thus give identical sequences.
pub proof fn lemma_run_order(
    entries: Seq<CheckEntry>,
    stmts: Seq<RawStatement>,
    sql: Seq<u8>,
    ranges: Seq<IgnoreRange>,
    config: Config,
    outcomes: Seq<Vec<ScriptOutcome>>,
    node: Statement,
    node_outcomes: Seq<ScriptOutcome>,
)
    ensures
        statements_upto(entries, stmts, sql, ranges, config, outcomes, stmts.len() as int)
            == statement_results(entries, stmts, sql, ranges, config, outcomes).flatten(),
        run_all(entries, node, config, node_outcomes) == check_results(entries, node, config, node_outcomes).flatten(),
{
    let r = statement_results(entries, stmts, sql, ranges, config, outcomes);
    lemma_statements_prefix(entries, stmts, sql, ranges, config, outcomes, stmts.len() as int);
    assert(r.subrange(0, stmts.len() as int) =~= r);
    let c = check_results(entries, node, config, node_outcomes);
    lemma_checks_prefix(entries, node, config, node_outcomes, entries.len() as int);
    assert(c.subrange(0, entries.len() as int) =~= c);
}

/// A statement that starts on a line inside a `safety-assured` block adds no
/// violation, from any check, to what the registry finds in a file.
pub proof fn lemma_exempt_statement_silent(
    entries: Seq<CheckEntry>,
    stmts: Seq<RawStatement>,
    sql: Seq<u8>,
    ranges: Seq<IgnoreRange>,
    config: Config,
    outcomes: Seq<Vec<ScriptOutcome>>,
    k: int,
)
    requires
        0 <= k < stmts.len(),
        line_ignored(statement_line(sql, stmts[k].location), ranges),
    ensures
        statements_upto(entries, stmts, sql, ranges, config, outcomes, k + 1) == statements_upto(
            entries,
            stmts,
            sql,
            ranges,
            config,
            outcomes,
            k,
        ),
{
    let s = statements_upto(entries, stmts, sql, ranges, config, outcomes, k);
    assert(s + Seq::<ViolationView>::empty() =~= s);
}

proof fn lemma_contains_push(names: Seq<Seq<char>>, x: Seq<char>, n: Seq<char>)
    ensures
        names.push(x).contains(n) <==> (names.contains(n) || n == x),
{
    if names.contains(n) {
        let j = choose|j: int| 0 <= j < names.len() && names[j] == n;
        assert(names.push(x)[j] == n);
    }
    if n == x {
        assert(names.push(x)[names.len() as int] == x);
    }
    if names.push(x).contains(n) {
        let j = choose|j: int| 0 <= j < names.push(x).len() && names.push(x)[j] == n;
        if j < names.len() {
            assert(names[j] == n);
        }
    }
}

proof fn lemma_disable_upto(config: Config, disabled: Config, x: Seq<char>, n: int)
    requires
        strs(disabled.disable_checks@) == strs(config.disable_checks@).push(x),
        0 <= n <= all_builtins().len(),
    ensures
        builtin_entries_upto(disabled, n) == builtin_entries_upto(config, n).filter(
            |e: CheckEntry| entry_name(e) != x,
        ),
    decreases n,
{
    let pred = |e: CheckEntry| entry_name(e) != x;
    if n == 0 {
        assert(builtin_entries_upto(config, 0).filter(pred) =~= Seq::<CheckEntry>::empty());
    } else {
        lemma_disable_upto(config, disabled, x, n - 1);
        let b = all_builtins()[n - 1];
        lemma_contains_push(strs(config.disable_checks@), x, b.spec_name());
        let prev = builtin_entries_upto(config, n - 1);
        prev.lemma_filter_push(CheckEntry::Builtin(b), pred);
        if config.check_enabled(b.spec_name()) {
            assert(builtin_entries_upto(config, n) =~= prev.push(CheckEntry::Builtin(b)));
            if b.spec_name() != x {
                assert(builtin_entries_upto(disabled, n) =~= prev.filter(pred).push(
                    CheckEntry::Builtin(b),
                ));
            } else {
                assert(builtin_entries_upto(disabled, n) =~= prev.filter(pred));
            }
        } else {
            assert(builtin_entries_upto(config, n) =~= prev);
            assert(builtin_entries_upto(disabled, n) =~= prev.filter(pred));
        }
    }
}

/// Disabling a check by name removes exactly that check from the registry,
/// and with it exactly the violations it would have produced; the other
/// checks keep their order.
pub proof fn lemma_disable_removes_exactly(
    config: Config,
    disabled: Config,
    x: Seq<char>,
    node: Statement,
    eval: Config,
)
    requires
        strs(disabled.disable_checks@) == strs(config.disable_checks@).push(x),
    ensures
        builtin_entries(disabled) == builtin_entries(config).filter(
            |e: CheckEntry| entry_name(e) != x,
        ),
        run_all(builtin_entries(disabled), node, eval, Seq::empty()) == run_all(
            builtin_entries(config).filter(|e: CheckEntry| entry_name(e) != x),
            node,
            eval,
            Seq::empty(),
        ),
{
    lemma_disable_upto(config, disabled, x, all_builtins().len() as int);
}

proof fn lemma_unknown_name_upto(config: Config, disabled: Config, x: Seq<char>, n: int)
    requires
        strs(disabled.disable_checks@) == strs(config.disable_checks@).push(x),
        forall|j: int| 0 <= j < all_builtins().len() ==> #[trigger] all_builtins()[j].spec_name() != x,
        0 <= n <= all_builtins().len(),
    ensures
        builtin_entries_upto(disabled, n) == builtin_entries_upto(config, n),
    decreases n,
{
    if n > 0 {
        lemma_unknown_name_upto(config, disabled, x, n - 1);
        lemma_contains_push(strs(config.disable_checks@), x, all_builtins()[n - 1].spec_name());
    }
}

/// Disabling a name that no built-in check has changes nothing.
pub proof fn lemma_disable_unknown_name(config: Config, disabled: Config, x: Seq<char>)
    requires
        strs(disabled.disable_checks@) == strs(config.disable_checks@).push(x),
        forall|j: int| 0 <= j < all_builtins().len() ==> #[trigger] all_builtins()[j].spec_name() != x,
    ensures
        builtin_entries(disabled) == builtin_entries(config),
{
    lemma_unknown_name_upto(config, disabled, x, all_builtins().len() as int);
}

/// Whether every element of the array is a well-formed record.
pub open spec fn all_well_formed(items: Seq<ScriptItem>) -> bool {
    forall|i: int|
        0 <= i < items.len() ==> (#[trigger] items[i] matches ScriptItem::Record(rec)
            && well_formed_record(rec@))
}

/// The violation that a well-formed record stands for: its three fields,
/// verbatim.
pub open spec fn record_fields(item: ScriptItem) -> ViolationView {
    match item {
        ScriptItem::Record(rec) => violation_of(
            lookup_str(rec@, "operation"@, 0)->Some_0,
            lookup_str(rec@, "problem"@, 0)->Some_0,
            lookup_str(rec@, "safe_alternative"@, 0)->Some_0,
        ),
        ScriptItem::Other => violation_of(Seq::empty(), Seq::empty(), Seq::empty()),
    }
}

proof fn lemma_first_malformed(items: Seq<ScriptItem>, i: int)
    requires
        0 <= i <= items.len(),
    ensures
        first_malformed(items, i) is None <==> forall|j: int|
            i <= j < items.len() ==> #[trigger] well_formed_item(items[j]),
    decreases items.len() - i,
{
    if i < items.len() {
        lemma_first_malformed(items, i + 1);
    }
}

proof fn lemma_records_gather(check: Seq<char>, items: Seq<ScriptItem>, n: int)
    requires
        all_well_formed(items),
        0 <= n <= items.len(),
    ensures
        gather(items.subrange(0, n), item_fn(check)).len() == n,
        forall|i: int| 0 <= i < n ==> #[trigger] gather(items.subrange(0, n), item_fn(check))[i]
            == record_fields(items[i]),
    decreases n,
{
    if n > 0 {
        lemma_records_gather(check, items, n - 1);
        assert(items.subrange(0, n).drop_last() =~= items.subrange(0, n - 1));
        assert(items[n - 1] matches ScriptItem::Record(rec) && well_formed_record(rec@));
    }
}

/// The contract of a custom check script: no value gives no violation; a
/// well-formed record gives one violation with its three fields verbatim; an
/// array of N well-formed records gives N violations in array order; any
/// other value (another type, a record that lacks a field or leaves one
/// empty, an array with any element that is not such a record) gives exactly
/// one violation tagged as a script error.
pub proof fn lemma_script_contract(check: Seq<char>, v: ScriptValue)
    ensures
        match v {
            ScriptValue::Unit => script_result_spec(check, v).len() == 0,
            ScriptValue::Record(rec) => if well_formed_record(rec@) {
                script_result_spec(check, v) == seq![record_fields(ScriptItem::Record(rec))]
            } else {
                script_result_spec(check, v).len() == 1 && script_result_spec(check, v)[0].operation
                    == script_error_operation(check)
            },
            ScriptValue::Array(items) => if all_well_formed(items@) {
                script_result_spec(check, v).len() == items@.len() && forall|i: int|
                    0 <= i < items@.len() ==> #[trigger] script_result_spec(check, v)[i]
                        == record_fields(items@[i])
            } else {
                script_result_spec(check, v).len() == 1 && script_result_spec(check, v)[0].operation
                    == script_error_operation(check)
            },
            ScriptValue::Other(_) => script_result_spec(check, v).len() == 1 && script_result_spec(
                check,
                v,
            )[0].operation == script_error_operation(check),
        },
{
    if let ScriptValue::Array(items) = v {
        lemma_first_malformed(items@, 0);
        if !all_well_formed(items@) {
            let i = choose|i: int|
                0 <= i < items@.len() && !(#[trigger] items@[i] matches ScriptItem::Record(rec)
                    && well_formed_record(rec@));
            assert(!well_formed_item(items@[i]));
        } else {
            assert forall|j: int| 0 <= j < items@.len() implies #[trigger] well_formed_item(items@[j]) by {
                assert(items@[j] matches ScriptItem::Record(rec) && well_formed_record(rec@));
            }
        }
        if all_well_formed(items@) {
            lemma_records_gather(check, items@, items@.len() as int);
            assert(items@.subrange(0, items@.len() as int) =~= items@);
        }
    }
}

proof fn lemma_drop_table_prefix(d: DropStmt, n: int)
    requires
        d.kind == ObjectKind::Table,
        0 <= n <= d.objects@.len(),
    ensures
        gather(d.objects@.subrange(0, n), drop_rule_fn(DropRule::Table, d)).len() == n,
        forall|i: int|
            0 <= i < n ==> #[trigger] gather(d.objects@.subrange(0, n), drop_rule_fn(DropRule::Table, d))[i].operation
                == "DROP TABLE"@ && gather(d.objects@.subrange(0, n), drop_rule_fn(DropRule::Table, d))[i].problem
                == drop_table_problem(join_spec(strs(d.objects@[i]@), "."@)),
    decreases n,
{
    if n > 0 {
        lemma_drop_table_prefix(d, n - 1);
        let f = drop_rule_fn(DropRule::Table, d);
        assert(d.objects@.subrange(0, n).drop_last() =~= d.objects@.subrange(0, n - 1));
        let a = gather(d.objects@.subrange(0, n - 1), f);
        let b = f(d.objects@[n - 1]);
        assert(gather(d.objects@.subrange(0, n), f) == a + b);
        assert forall|i: int| 0 <= i < n implies #[trigger] (a + b)[i].operation == "DROP TABLE"@ && (a
            + b)[i].problem == drop_table_problem(join_spec(strs(d.objects@[i]@), "."@)) by {
            if i < n - 1 {
                assert((a + b)[i] == a[i]);
            } else {
                assert((a + b)[i] == b[0]);
            }
        }
    }
}

/// DROP TABLE of several tables yields one violation per table, in order, all
/// of the same operation, each naming its table.
pub proof fn lemma_drop_table_one_per_table(d: DropStmt, config: Config)
    requires
        d.kind == ObjectKind::Table,
    ensures
        DropTableCheck.spec_check(Statement::Drop(d), config).len() == d.objects@.len(),
        forall|i: int|
            0 <= i < d.objects@.len() ==> #[trigger] DropTableCheck.spec_check(Statement::Drop(d), config)[i].operation
                == "DROP TABLE"@ && DropTableCheck.spec_check(Statement::Drop(d), config)[i].problem
                == drop_table_problem(join_spec(strs(d.objects@[i]@), "."@)),
{
    lemma_drop_table_prefix(d, d.objects@.len() as int);
    assert(d.objects@.subrange(0, d.objects@.len() as int) =~= d.objects@);
}

/// Every violation in the sequence has three non-empty texts.
pub open spec fn all_well_formed_violations(vs: Seq<ViolationView>) -> bool {
    forall|i: int| 0 <= i < vs.len() ==> well_formed_violation(#[trigger] vs[i])
}

proof fn lemma_gather_well_formed<A>(s: Seq<A>, f: spec_fn(A) -> Seq<ViolationView>)
    requires
        forall|x: A| all_well_formed_violations(#[trigger] f(x)),
    ensures
        all_well_formed_violations(gather(s, f)),
    decreases s.len(),
{
    if s.len() > 0 {
        lemma_gather_well_formed(s.drop_last(), f);
        let a = gather(s.drop_last(), f);
        let b = f(s.last());
        assert(all_well_formed_violations(b));
        assert forall|i: int| 0 <= i < (a + b).len() implies well_formed_violation(#[trigger] (a + b)[i]) by {
            if i < a.len() {
                assert((a + b)[i] == a[i]);
            } else {
                assert((a + b)[i] == b[i - a.len()]);
            }
        }
    }
}

proof fn lemma_operations_nonempty()
    ensures
        "ADD COLUMN with DEFAULT"@.len() > 0,
        "ADD COLUMN with SERIAL"@.len() > 0,
        "ADD UNIQUE constraint"@.len() > 0,
        "ALTER COLUMN TYPE"@.len() > 0,
        "ADD COLUMN with CHAR type"@.len() > 0,
        "CREATE TABLE with CHAR column"@.len() > 0,
        "DROP COLUMN"@.len() > 0,
        "ADD COLUMN with GENERATED STORED"@.len() > 0,
        "PRIMARY KEY with short integer type"@.len() > 0,
        "ADD COLUMN with TIMESTAMP"@.len() > 0,
        "CREATE TABLE with TIMESTAMP"@.len() > 0,
        "CONSTRAINT without name"@.len() > 0,
        "DROP DATABASE"@.len() > 0,
        "DROP INDEX without CONCURRENTLY"@.len() > 0,
        "DROP TABLE"@.len() > 0,
        "REINDEX without CONCURRENTLY"@.len() > 0,
        "ADD INDEX without CONCURRENTLY"@.len() > 0,
        "CREATE INDEX with too many columns"@.len() > 0,
        "ADD PRIMARY KEY"@.len() > 0,
        "TRUNCATE TABLE"@.len() > 0,
{
    reveal_strlit("ADD PRIMARY KEY");
    reveal_strlit("TRUNCATE TABLE");
    reveal_strlit("ADD COLUMN with DEFAULT");
    reveal_strlit("ADD COLUMN with SERIAL");
    reveal_strlit("ADD UNIQUE constraint");
    reveal_strlit("ALTER COLUMN TYPE");
    reveal_strlit("ADD COLUMN with CHAR type");
    reveal_strlit("CREATE TABLE with CHAR column");
    reveal_strlit("DROP COLUMN");
    reveal_strlit("ADD COLUMN with GENERATED STORED");
    reveal_strlit("PRIMARY KEY with short integer type");
    reveal_strlit("ADD COLUMN with TIMESTAMP");
    reveal_strlit("CREATE TABLE with TIMESTAMP");
    reveal_strlit("CONSTRAINT without name");
    reveal_strlit("DROP DATABASE");
    reveal_strlit("DROP INDEX without CONCURRENTLY");
    reveal_strlit("DROP TABLE");
    reveal_strlit("REINDEX without CONCURRENTLY");
    reveal_strlit("ADD INDEX without CONCURRENTLY");
    reveal_strlit("CREATE INDEX with too many columns");
}

proof fn lemma_cmd_rule_well_formed(rule: CmdRule, table: Seq<char>, cmd: AlterTableCmd, config: Config)
    ensures
        all_well_formed_violations(cmd_rule_spec(rule, table, cmd, config)),
{
    broadcast use group_messages_nonempty, lemma_add_column_problem_nonempty, lemma_add_column_alternative_nonempty;
    lemma_operations_nonempty();
}

proof fn lemma_elem_rule_well_formed(rule: ElemRule, table: Seq<char>, e: TableElement)
    ensures
        all_well_formed_violations(elem_rule_spec(rule, table, e)),
{
    broadcast use group_messages_nonempty;
    lemma_operations_nonempty();
}

proof fn lemma_drop_rule_well_formed(rule: DropRule, d: DropStmt, o: Vec<String>)
    ensures
        all_well_formed_violations(drop_object_spec(rule, d, o)),
{
    broadcast use group_messages_nonempty;
    lemma_operations_nonempty();
}

proof fn lemma_short_int_col_well_formed(table: Seq<char>, col: ColumnDef)
    ensures
        all_well_formed_violations(short_int_col(table, col)),
{
    broadcast use group_messages_nonempty;
    lemma_operations_nonempty();
}

proof fn lemma_concat_well_formed(a: Seq<ViolationView>, p: Seq<ViolationView>)
    requires
        all_well_formed_violations(a),
        all_well_formed_violations(p),
    ensures
        all_well_formed_violations(a + p),
{
    assert forall|i: int| 0 <= i < (a + p).len() implies well_formed_violation(#[trigger] (a + p)[i]) by {
        if i < a.len() {
            assert((a + p)[i] == a[i]);
        } else {
            assert((a + p)[i] == p[i - a.len()]);
        }
    }
}

proof fn lemma_alter_well_formed(t: Seq<char>, cmds: Seq<AlterTableCmd>, config: Config)
    ensures
        forall|rule: CmdRule| all_well_formed_violations(#[trigger] gather(cmds, cmd_rule_fn(rule, t, config))),
        all_well_formed_violations(gather(cmds, pk_cmd_fn(t, cmds))),
{
    assert forall|rule: CmdRule, x: AlterTableCmd| all_well_formed_violations(#[trigger] cmd_rule_fn(rule, t, config)(x)) by {
        lemma_cmd_rule_well_formed(rule, t, x, config);
    }
    assert forall|rule: CmdRule| all_well_formed_violations(#[trigger] gather(cmds, cmd_rule_fn(rule, t, config))) by {
        lemma_gather_well_formed(cmds, cmd_rule_fn(rule, t, config));
    }
    assert forall|k: String| all_well_formed_violations(#[trigger] key_fn_cmds(t, cmds)(k)) by {
        match find_cmd_col(cmds, k@, 0) {
            Some(col) => lemma_short_int_col_well_formed(t, col),
            None => {},
        }
    }
    assert forall|c: AlterTableCmd| all_well_formed_violations(#[trigger] pk_cmd_fn(t, cmds)(c)) by {
        match cmd_constraint(c) {
            Some(k) => lemma_gather_well_formed(k.keys@, key_fn_cmds(t, cmds)),
            None => {},
        }
    }
    lemma_gather_well_formed(cmds, pk_cmd_fn(t, cmds));
}

proof fn lemma_create_well_formed(t: Seq<char>, elements: Seq<TableElement>)
    ensures
        forall|rule: ElemRule| all_well_formed_violations(#[trigger] gather(elements, elem_rule_fn(rule, t))),
        all_well_formed_violations(gather(elements, pk_elem_fn(t, elements))),
{
    assert forall|rule: ElemRule, x: TableElement| all_well_formed_violations(#[trigger] elem_rule_fn(rule, t)(x)) by {
        lemma_elem_rule_well_formed(rule, t, x);
    }
    assert forall|rule: ElemRule| all_well_formed_violations(#[trigger] gather(elements, elem_rule_fn(rule, t))) by {
        lemma_gather_well_formed(elements, elem_rule_fn(rule, t));
    }
    assert forall|k: String| all_well_formed_violations(#[trigger] key_fn_elems(t, elements)(k)) by {
        match find_elem_col(elements, k@, 0) {
            Some(col) => lemma_short_int_col_well_formed(t, col),
            None => {},
        }
    }
    assert forall|e: TableElement| all_well_formed_violations(#[trigger] pk_elem_fn(t, elements)(e)) by {
        match e {
            TableElement::Constraint(k) => lemma_gather_well_formed(k.keys@, key_fn_elems(t, elements)),
            _ => {},
        }
    }
    lemma_gather_well_formed(elements, pk_elem_fn(t, elements));
}

proof fn lemma_drop_well_formed(d: DropStmt)
    ensures
        forall|rule: DropRule| all_well_formed_violations(#[trigger] gather(d.objects@, drop_rule_fn(rule, d))),
{
    assert forall|rule: DropRule, o: Vec<String>| all_well_formed_violations(#[trigger] drop_rule_fn(rule, d)(o)) by {
        lemma_drop_rule_well_formed(rule, d, o);
    }
    assert forall|rule: DropRule| all_well_formed_violations(#[trigger] gather(d.objects@, drop_rule_fn(rule, d))) by {
        lemma_gather_well_formed(d.objects@, drop_rule_fn(rule, d));
    }
}

/// Every violation that a built-in check yields has three non-empty texts:
/// an operation, a problem and a safe alternative.
#[verifier::rlimit(50)]
pub proof fn lemma_builtin_violations_well_formed(b: BuiltinCheck, node: Statement, config: Config)
    ensures
        all_well_formed_violations(b.spec_check(node, config)),
{
    match node {
        Statement::AlterTable { relation, cmds } => {
            let t = opt_rv_name(relation);
            lemma_alter_well_formed(t, cmds@, config);
            lemma_concat_well_formed(
                gather(cmds@, cmd_rule_fn(CmdRule::ShortIntInline, t, config)),
                gather(cmds@, pk_cmd_fn(t, cmds@)),
            );
        },
        Statement::CreateTable { relation, elements } => {
            let t = opt_rv_name(relation);
            lemma_create_well_formed(t, elements@);
            lemma_concat_well_formed(
                gather(elements@, elem_rule_fn(ElemRule::ShortIntInline, t)),
                gather(elements@, pk_elem_fn(t, elements@)),
            );
        },
        Statement::Drop(d) => {
            lemma_drop_well_formed(d);
        },
        Statement::Truncate { relations, .. } => {
            broadcast use group_messages_nonempty;
            lemma_operations_nonempty();
            lemma_gather_well_formed(relations@, truncate_fn());
        },
        _ => {
            broadcast use group_messages_nonempty;
            lemma_operations_nonempty();
        },
    }
}

} // verus!
