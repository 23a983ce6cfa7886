//! The registry: the ordered list of active checks, and the single entry
//! point that runs them over the statements of a file.
use vstd::prelude::*;
use crate::checks::{Check, AddPrimaryKeyCheck, TruncateTableCheck, AddColumnCheck, AddIndexCheck, AddSerialColumnCheck, AddUniqueConstraintCheck, AlterColumnTypeCheck, CharTypeCheck, DropColumnCheck, DropDatabaseCheck, DropIndexCheck, DropTableCheck, GeneratedColumnCheck, ReindexCheck, ShortIntegerPrimaryKeyCheck, TimestampTypeCheck, UnnamedConstraintCheck, WideIndexCheck};
use crate::config::Config;
use crate::helpers::{extend, no_violations};
use crate::ignore::{
    IgnoreRange, is_line_ignored, line_ignored, non_comment_positions, resolve_statement_line,
    statement_line,
};
use crate::scripting::{ScriptOutcome, outcome_violations, script_outcome_spec};
use crate::text::{owned, strs};
use crate::tree::{RawStatement, Statement};
use crate::violation::{Violation, ViolationView, views};
use vstd::string::StringSliceAdditionalSpecFns;

verus! {

/// The built-in checks, in their canonical order.
#[derive(PartialEq, Eq, Structural, Clone, Copy, Debug)]
pub enum BuiltinCheck {
    AddColumn,
    AddIndex,
    AddPrimaryKey,
    AddSerialColumn,
    AddUniqueConstraint,
    AlterColumnType,
    CharType,
    DropColumn,
    DropDatabase,
    DropIndex,
    DropTable,
    GeneratedColumn,
    Reindex,
    ShortIntegerPrimaryKey,
    TimestampType,
    TruncateTable,
    UnnamedConstraint,
    WideIndex,
}

/// The built-in checks in their canonical order.
pub open spec fn all_builtins() -> Seq<BuiltinCheck> {
    seq![BuiltinCheck::AddColumn, BuiltinCheck::AddIndex, BuiltinCheck::AddPrimaryKey, BuiltinCheck::AddSerialColumn, BuiltinCheck::AddUniqueConstraint, BuiltinCheck::AlterColumnType, BuiltinCheck::CharType, BuiltinCheck::DropColumn, BuiltinCheck::DropDatabase, BuiltinCheck::DropIndex, BuiltinCheck::DropTable, BuiltinCheck::GeneratedColumn, BuiltinCheck::Reindex, BuiltinCheck::ShortIntegerPrimaryKey, BuiltinCheck::TimestampType, BuiltinCheck::TruncateTable, BuiltinCheck::UnnamedConstraint, BuiltinCheck::WideIndex]
}

impl Check for BuiltinCheck {
    open spec fn spec_name(&self) -> Seq<char> {
        match *self {
            BuiltinCheck::AddColumn => "AddColumnCheck"@,
            BuiltinCheck::AddIndex => "AddIndexCheck"@,
            BuiltinCheck::AddPrimaryKey => "AddPrimaryKeyCheck"@,
            BuiltinCheck::AddSerialColumn => "AddSerialColumnCheck"@,
            BuiltinCheck::AddUniqueConstraint => "AddUniqueConstraintCheck"@,
            BuiltinCheck::AlterColumnType => "AlterColumnTypeCheck"@,
            BuiltinCheck::CharType => "CharTypeCheck"@,
            BuiltinCheck::DropColumn => "DropColumnCheck"@,
            BuiltinCheck::DropDatabase => "DropDatabaseCheck"@,
            BuiltinCheck::DropIndex => "DropIndexCheck"@,
            BuiltinCheck::DropTable => "DropTableCheck"@,
            BuiltinCheck::GeneratedColumn => "GeneratedColumnCheck"@,
            BuiltinCheck::Reindex => "ReindexCheck"@,
            BuiltinCheck::ShortIntegerPrimaryKey => "ShortIntegerPrimaryKeyCheck"@,
            BuiltinCheck::TimestampType => "TimestampTypeCheck"@,
            BuiltinCheck::TruncateTable => "TruncateTableCheck"@,
            BuiltinCheck::UnnamedConstraint => "UnnamedConstraintCheck"@,
            BuiltinCheck::WideIndex => "WideIndexCheck"@,
        }
    }

    open spec fn spec_check(&self, node: Statement, config: Config) -> Seq<ViolationView> {
        match *self {
            BuiltinCheck::AddColumn => AddColumnCheck.spec_check(node, config),
            BuiltinCheck::AddIndex => AddIndexCheck.spec_check(node, config),
            BuiltinCheck::AddPrimaryKey => AddPrimaryKeyCheck.spec_check(node, config),
            BuiltinCheck::AddSerialColumn => AddSerialColumnCheck.spec_check(node, config),
            BuiltinCheck::AddUniqueConstraint => AddUniqueConstraintCheck.spec_check(node, config),
            BuiltinCheck::AlterColumnType => AlterColumnTypeCheck.spec_check(node, config),
            BuiltinCheck::CharType => CharTypeCheck.spec_check(node, config),
            BuiltinCheck::DropColumn => DropColumnCheck.spec_check(node, config),
            BuiltinCheck::DropDatabase => DropDatabaseCheck.spec_check(node, config),
            BuiltinCheck::DropIndex => DropIndexCheck.spec_check(node, config),
            BuiltinCheck::DropTable => DropTableCheck.spec_check(node, config),
            BuiltinCheck::GeneratedColumn => GeneratedColumnCheck.spec_check(node, config),
            BuiltinCheck::Reindex => ReindexCheck.spec_check(node, config),
            BuiltinCheck::ShortIntegerPrimaryKey => ShortIntegerPrimaryKeyCheck.spec_check(node, config),
            BuiltinCheck::TimestampType => TimestampTypeCheck.spec_check(node, config),
            BuiltinCheck::TruncateTable => TruncateTableCheck.spec_check(node, config),
            BuiltinCheck::UnnamedConstraint => UnnamedConstraintCheck.spec_check(node, config),
            BuiltinCheck::WideIndex => WideIndexCheck.spec_check(node, config),
        }
    }

    fn name(&self) -> (r: &'static str) {
        match *self {
            BuiltinCheck::AddColumn => "AddColumnCheck",
            BuiltinCheck::AddIndex => "AddIndexCheck",
            BuiltinCheck::AddPrimaryKey => "AddPrimaryKeyCheck",
            BuiltinCheck::AddSerialColumn => "AddSerialColumnCheck",
            BuiltinCheck::AddUniqueConstraint => "AddUniqueConstraintCheck",
            BuiltinCheck::AlterColumnType => "AlterColumnTypeCheck",
            BuiltinCheck::CharType => "CharTypeCheck",
            BuiltinCheck::DropColumn => "DropColumnCheck",
            BuiltinCheck::DropDatabase => "DropDatabaseCheck",
            BuiltinCheck::DropIndex => "DropIndexCheck",
            BuiltinCheck::DropTable => "DropTableCheck",
            BuiltinCheck::GeneratedColumn => "GeneratedColumnCheck",
            BuiltinCheck::Reindex => "ReindexCheck",
            BuiltinCheck::ShortIntegerPrimaryKey => "ShortIntegerPrimaryKeyCheck",
            BuiltinCheck::TimestampType => "TimestampTypeCheck",
            BuiltinCheck::TruncateTable => "TruncateTableCheck",
            BuiltinCheck::UnnamedConstraint => "UnnamedConstraintCheck",
            BuiltinCheck::WideIndex => "WideIndexCheck",
        }
    }

    fn check(&self, node: &Statement, config: &Config) -> (r: Vec<Violation>) {
        match *self {
            BuiltinCheck::AddColumn => AddColumnCheck.check(node, config),
            BuiltinCheck::AddIndex => AddIndexCheck.check(node, config),
            BuiltinCheck::AddPrimaryKey => AddPrimaryKeyCheck.check(node, config),
            BuiltinCheck::AddSerialColumn => AddSerialColumnCheck.check(node, config),
            BuiltinCheck::AddUniqueConstraint => AddUniqueConstraintCheck.check(node, config),
            BuiltinCheck::AlterColumnType => AlterColumnTypeCheck.check(node, config),
            BuiltinCheck::CharType => CharTypeCheck.check(node, config),
            BuiltinCheck::DropColumn => DropColumnCheck.check(node, config),
            BuiltinCheck::DropDatabase => DropDatabaseCheck.check(node, config),
            BuiltinCheck::DropIndex => DropIndexCheck.check(node, config),
            BuiltinCheck::DropTable => DropTableCheck.check(node, config),
            BuiltinCheck::GeneratedColumn => GeneratedColumnCheck.check(node, config),
            BuiltinCheck::Reindex => ReindexCheck.check(node, config),
            BuiltinCheck::ShortIntegerPrimaryKey => ShortIntegerPrimaryKeyCheck.check(node, config),
            BuiltinCheck::TimestampType => TimestampTypeCheck.check(node, config),
            BuiltinCheck::TruncateTable => TruncateTableCheck.check(node, config),
            BuiltinCheck::UnnamedConstraint => UnnamedConstraintCheck.check(node, config),
            BuiltinCheck::WideIndex => WideIndexCheck.check(node, config),
        }
    }
}

/// The built-in checks in their canonical order.
pub fn builtin_list() -> (r: Vec<BuiltinCheck>)
    ensures
        r@ == all_builtins(),
{
    let mut v: Vec<BuiltinCheck> = Vec::new();
    v.push(BuiltinCheck::AddColumn);
    v.push(BuiltinCheck::AddIndex);
    v.push(BuiltinCheck::AddPrimaryKey);
    v.push(BuiltinCheck::AddSerialColumn);
    v.push(BuiltinCheck::AddUniqueConstraint);
    v.push(BuiltinCheck::AlterColumnType);
    v.push(BuiltinCheck::CharType);
    v.push(BuiltinCheck::DropColumn);
    v.push(BuiltinCheck::DropDatabase);
    v.push(BuiltinCheck::DropIndex);
    v.push(BuiltinCheck::DropTable);
    v.push(BuiltinCheck::GeneratedColumn);
    v.push(BuiltinCheck::Reindex);
    v.push(BuiltinCheck::ShortIntegerPrimaryKey);
    v.push(BuiltinCheck::TimestampType);
    v.push(BuiltinCheck::TruncateTable);
    v.push(BuiltinCheck::UnnamedConstraint);
    v.push(BuiltinCheck::WideIndex);
    assert(v@ =~= all_builtins());
    v
}

/// An active check: a built-in one, or a custom script named after its file.
#[derive(Debug, Clone)]
pub enum CheckEntry {
    Builtin(BuiltinCheck),
    Script(String),
}

/// The name of an active check.
pub open spec fn entry_name(e: CheckEntry) -> Seq<char> {
    match e {
        CheckEntry::Builtin(b) => b.spec_name(),
        CheckEntry::Script(n) => n@,
    }
}

/// What an active check finds in a statement. A script check finds what the
/// outcome of its evaluation on that statement stands for; nothing when no
/// outcome is given.
pub open spec fn entry_spec(
    e: CheckEntry,
    node: Statement,
    config: Config,
    outcome: Option<ScriptOutcome>,
) -> Seq<ViolationView> {
    match e {
        CheckEntry::Builtin(b) => b.spec_check(node, config),
        CheckEntry::Script(n) => match outcome {
            Some(o) => script_outcome_spec(n@, o),
            None => Seq::empty(),
        },
    }
}

/// The `k`-th of the outcomes, if there is one.
pub open spec fn outcome_at(outcomes: Seq<ScriptOutcome>, k: int) -> Option<ScriptOutcome> {
    if 0 <= k < outcomes.len() {
        Some(outcomes[k])
    } else {
        None
    }
}

/// What the first `n` checks find in a statement, in registry order; the
/// `k`-th outcome belongs to the `k`-th check.
pub open spec fn run_checks(
    entries: Seq<CheckEntry>,
    node: Statement,
    config: Config,
    outcomes: Seq<ScriptOutcome>,
    n: int,
) -> Seq<ViolationView>
    decreases n,
{
    if n <= 0 || n > entries.len() {
        Seq::empty()
    } else {
        run_checks(entries, node, config, outcomes, n - 1) + entry_spec(
            entries[n - 1],
            node,
            config,
            outcome_at(outcomes, n - 1),
        )
    }
}

/// What all the checks find in a statement, in registry order.
pub open spec fn run_all(
    entries: Seq<CheckEntry>,
    node: Statement,
    config: Config,
    outcomes: Seq<ScriptOutcome>,
) -> Seq<ViolationView> {
    run_checks(entries, node, config, outcomes, entries.len() as int)
}

/// The built-in checks among the first `n` of the canonical order whose
/// names the configuration leaves enabled.
pub open spec fn builtin_entries_upto(config: Config, n: int) -> Seq<CheckEntry>
    decreases n,
{
    if n <= 0 || n > all_builtins().len() {
        Seq::empty()
    } else {
        builtin_entries_upto(config, n - 1) + (if config.check_enabled(
            all_builtins()[n - 1].spec_name(),
        ) {
            seq![CheckEntry::Builtin(all_builtins()[n - 1])]
        } else {
            Seq::empty()
        })
    }
}

/// The built-in checks that the configuration leaves enabled, in canonical
/// order.
pub open spec fn builtin_entries(config: Config) -> Seq<CheckEntry> {
    builtin_entries_upto(config, all_builtins().len() as int)
}

/// The script checks among the first `n` stems whose names the configuration
/// leaves enabled.
pub open spec fn script_entries_upto(config: Config, stems: Seq<String>, n: int) -> Seq<CheckEntry>
    decreases n,
{
    if n <= 0 || n > stems.len() {
        Seq::empty()
    } else {
        script_entries_upto(config, stems, n - 1) + (if config.check_enabled(stems[n - 1]@) {
            seq![CheckEntry::Script(stems[n - 1])]
        } else {
            Seq::empty()
        })
    }
}

/// The outcomes given for the `k`-th statement.
pub open spec fn outcomes_for(per_statement: Seq<Vec<ScriptOutcome>>, k: int) -> Seq<ScriptOutcome> {
    if 0 <= k < per_statement.len() {
        per_statement[k]@
    } else {
        Seq::empty()
    }
}

/// What the checks find in one statement of a file: nothing when the parser
/// gave no tree or when the statement starts on a line inside a
/// `safety-assured` block; otherwise what every check finds, in order.
pub open spec fn statement_spec(
    entries: Seq<CheckEntry>,
    st: RawStatement,
    sql: Seq<u8>,
    ranges: Seq<IgnoreRange>,
    config: Config,
    outcomes: Seq<ScriptOutcome>,
) -> Seq<ViolationView> {
    match st.stmt {
        None => Seq::empty(),
        Some(node) => if line_ignored(statement_line(sql, st.location), ranges) {
            Seq::empty()
        } else {
            run_all(entries, node, config, outcomes)
        },
    }
}

/// What the checks find in the first `n` statements of a file, statement by
/// statement in source order.
pub open spec fn statements_upto(
    entries: Seq<CheckEntry>,
    stmts: Seq<RawStatement>,
    sql: Seq<u8>,
    ranges: Seq<IgnoreRange>,
    config: Config,
    per_statement: Seq<Vec<ScriptOutcome>>,
    n: int,
) -> Seq<ViolationView>
    decreases n,
{
    if n <= 0 || n > stmts.len() {
        Seq::empty()
    } else {
        statements_upto(entries, stmts, sql, ranges, config, per_statement, n - 1) + statement_spec(
            entries,
            stmts[n - 1],
            sql,
            ranges,
            config,
            outcomes_for(per_statement, n - 1),
        )
    }
}

/// With nothing disabled, every built-in check is active.
pub proof fn lemma_nothing_disabled(config: Config, n: int)
    requires
        config.disable_checks@.len() == 0,
        0 <= n <= all_builtins().len(),
    ensures
        builtin_entries_upto(config, n) == all_builtins().subrange(0, n).map_values(
            |b: BuiltinCheck| CheckEntry::Builtin(b),
        ),
    decreases n,
{
    if n > 0 {
        lemma_nothing_disabled(config, n - 1);
        assert(!crate::text::strs(config.disable_checks@).contains(all_builtins()[n - 1].spec_name()));
        assert(builtin_entries_upto(config, n) =~= all_builtins().subrange(0, n).map_values(
            |b: BuiltinCheck| CheckEntry::Builtin(b),
        ));
    } else {
        assert(builtin_entries_upto(config, n) =~= all_builtins().subrange(0, n).map_values(
            |b: BuiltinCheck| CheckEntry::Builtin(b),
        ));
    }
    if n == all_builtins().len() {
        assert(all_builtins().subrange(0, n) =~= all_builtins());
    }
}

/// The ordered collection of active checks.
pub struct Registry {
    pub checks: Vec<CheckEntry>,
}

impl View for Registry {
    type V = Seq<CheckEntry>;

    open spec fn view(&self) -> Seq<CheckEntry> {
        self.checks@
    }
}

impl Registry {
    /// A registry with every built-in check, in canonical order.
    pub fn new() -> (r: Registry)
        ensures
            r@ == all_builtins().map_values(|b: BuiltinCheck| CheckEntry::Builtin(b)),
    {
        let config = Config::default();
        proof {
            lemma_nothing_disabled(config, all_builtins().len() as int);
        }
        Self::with_config(&config)
    }

    /// A registry with the built-in checks that the configuration leaves
    /// enabled, in canonical order.
    pub fn with_config(config: &Config) -> (r: Registry)
        ensures
            r@ == builtin_entries(*config),
    {
        let mut registry = Registry { checks: Vec::new() };
        registry.register_enabled_checks(config);
        registry
    }

    /// A registry with the enabled built-in checks, then a script check for
    /// each enabled stem, in the order given.
    pub fn with_scripts(config: &Config, stems: &Vec<String>) -> (r: Registry)
        ensures
            r@ == builtin_entries(*config) + script_entries_upto(*config, stems@, stems@.len() as int),
    {
        let mut registry = Self::with_config(config);
        let ghost base = registry@;
        let mut i: usize = 0;
        while i < stems.len()
            invariant
                i <= stems.len(),
                base == builtin_entries(*config),
                registry@ == base + script_entries_upto(*config, stems@, i as int),
            decreases stems.len() - i,
        {
            if config.is_check_enabled(stems[i].as_str()) {
                registry.add_check(CheckEntry::Script(stems[i].clone()));
                proof {
                    assert(registry@ =~= base + script_entries_upto(*config, stems@, i + 1));
                }
            } else {
                proof {
                    assert(registry@ =~= base + script_entries_upto(*config, stems@, i + 1));
                }
            }
            i = i + 1;
        }
        registry
    }

    fn register_enabled_checks(&mut self, config: &Config)
        requires
            old(self)@.len() == 0,
        ensures
            final(self)@ == builtin_entries(*config),
    {
        let list = builtin_list();
        let mut i: usize = 0;
        assert(self@ =~= builtin_entries_upto(*config, 0));
        while i < list.len()
            invariant
                i <= list.len(),
                list@ == all_builtins(),
                self@ == builtin_entries_upto(*config, i as int),
            decreases list.len() - i,
        {
            self.register_check(config, list[i]);
            proof {
                assert(self@ =~= builtin_entries_upto(*config, i + 1));
            }
            i = i + 1;
        }
    }

    fn register_check(&mut self, config: &Config, check: BuiltinCheck)
        ensures
            final(self)@ == old(self)@ + (if config.check_enabled(check.spec_name()) {
                seq![CheckEntry::Builtin(check)]
            } else {
                Seq::empty()
            }),
    {
        if !config.is_check_enabled(check.name()) {
            assert(self@ =~= self@ + Seq::<CheckEntry>::empty());
            return;
        }
        self.checks.push(CheckEntry::Builtin(check));
        assert(self@ =~= old(self)@ + seq![CheckEntry::Builtin(check)]);
    }

    /// Appends a check.
    pub fn add_check(&mut self, check: CheckEntry)
        ensures
            final(self)@ == old(self)@.push(check),
    {
        self.checks.push(check);
    }

    /// The names of the active checks, in order.
    pub fn active_check_names(&self) -> (r: Vec<String>)
        ensures
            strs(r@) == self@.map_values(|e: CheckEntry| entry_name(e)),
    {
        let mut out: Vec<String> = Vec::new();
        let mut i: usize = 0;
        while i < self.checks.len()
            invariant
                i <= self.checks.len(),
                out@.len() == i,
                forall|j: int| 0 <= j < i ==> #[trigger] out@[j]@ == entry_name(self.checks@[j]),
            decreases self.checks.len() - i,
        {
            let name = match &self.checks[i] {
                CheckEntry::Builtin(b) => owned(b.name()),
                CheckEntry::Script(n) => n.clone(),
            };
            out.push(name);
            i = i + 1;
        }
        assert(strs(out@) =~= self@.map_values(|e: CheckEntry| entry_name(e)));
        out
    }

    /// The names of all built-in checks, in canonical order, whatever is
    /// enabled.
    pub fn builtin_check_names() -> (r: Vec<&'static str>)
        ensures
            r@.len() == all_builtins().len(),
            forall|j: int| 0 <= j < r@.len() ==> #[trigger] r@[j]@ == all_builtins()[j].spec_name(),
    {
        let list = builtin_list();
        let mut out: Vec<&'static str> = Vec::new();
        let mut i: usize = 0;
        while i < list.len()
            invariant
                i <= list.len(),
                list@ == all_builtins(),
                out@.len() == i,
                forall|j: int| 0 <= j < i ==> #[trigger] out@[j]@ == all_builtins()[j].spec_name(),
            decreases list.len() - i,
        {
            out.push(list[i].name());
            i = i + 1;
        }
        out
    }

    /// What every active check finds in a statement, in registry order. The
    /// `k`-th outcome is that of the `k`-th check when it is a script; a
    /// script check without an outcome finds nothing.
    pub fn check_node_with(&self, node: &Statement, config: &Config, outcomes: &Vec<ScriptOutcome>) -> (r: Vec<Violation>)
        ensures
            views(r@) == run_all(self@, *node, *config, outcomes@),
    {
        let mut out: Vec<Violation> = Vec::new();
        let mut i: usize = 0;
        assert(views(out@) =~= run_checks(self@, *node, *config, outcomes@, 0));
        while i < self.checks.len()
            invariant
                i <= self.checks.len(),
                views(out@) == run_checks(self@, *node, *config, outcomes@, i as int),
            decreases self.checks.len() - i,
        {
            let more = match &self.checks[i] {
                CheckEntry::Builtin(b) => b.check(node, config),
                CheckEntry::Script(n) => if i < outcomes.len() {
                    outcome_violations(n.as_str(), &outcomes[i])
                } else {
                    no_violations()
                },
            };
            extend(&mut out, more);
            i = i + 1;
        }
        out
    }

    /// What the built-in checks find in a statement, in registry order;
    /// script checks find nothing here.
    pub fn check_node(&self, node: &Statement, config: &Config) -> (r: Vec<Violation>)
        ensures
            views(r@) == run_all(self@, *node, *config, Seq::empty()),
    {
        let none: Vec<ScriptOutcome> = Vec::new();
        assert(none@ =~= Seq::<ScriptOutcome>::empty());
        self.check_node_with(node, config, &none)
    }

    /// What the active checks find in the statements of a file, in source
    /// order. Statements that start inside a `safety-assured` block are
    /// skipped; `outcomes[k]` holds the outcomes of the script checks on the
    /// `k`-th statement.
    pub fn check_statements(
        &self,
        stmts: &Vec<RawStatement>,
        sql: &str,
        ignore_ranges: &Vec<IgnoreRange>,
        config: &Config,
        outcomes: &Vec<Vec<ScriptOutcome>>,
    ) -> (r: Vec<Violation>)
        requires
            sql.spec_bytes().len() < usize::MAX,
        ensures
            views(r@) == statements_upto(
                self@,
                stmts@,
                sql.spec_bytes(),
                ignore_ranges@,
                *config,
                outcomes@,
                stmts@.len() as int,
            ),
    {
        let token_starts = non_comment_positions(sql);
        let empty: Vec<ScriptOutcome> = Vec::new();
        let mut out: Vec<Violation> = Vec::new();
        let mut k: usize = 0;
        assert(views(out@) =~= statements_upto(self@, stmts@, sql.spec_bytes(), ignore_ranges@, *config, outcomes@, 0));
        while k < stmts.len()
            invariant
                k <= stmts.len(),
                sql.spec_bytes().len() < usize::MAX,
                token_starts@ == crate::ignore::token_positions(sql.spec_bytes()),
                empty@ == Seq::<ScriptOutcome>::empty(),
                views(out@) == statements_upto(
                    self@,
                    stmts@,
                    sql.spec_bytes(),
                    ignore_ranges@,
                    *config,
                    outcomes@,
                    k as int,
                ),
            decreases stmts.len() - k,
        {
            let st = &stmts[k];
            let mine = if k < outcomes.len() { &outcomes[k] } else { &empty };
            let more = match &st.stmt {
                None => no_violations(),
                Some(node) => {
                    let line = resolve_statement_line(sql, &token_starts, st.location);
                    if is_line_ignored(line, ignore_ranges) {
                        no_violations()
                    } else {
                        self.check_node_with(node, config, mine)
                    }
                },
            };
            extend(&mut out, more);
            k = k + 1;
        }
        out
    }

    /// What the built-in checks find in the statements of a file, in source
    /// order, skipping statements that start inside a `safety-assured` block.
    pub fn check_stmts_with_context(
        &self,
        stmts: &Vec<RawStatement>,
        sql: &str,
        ignore_ranges: &Vec<IgnoreRange>,
        config: &Config,
    ) -> (r: Vec<Violation>)
        requires
            sql.spec_bytes().len() < usize::MAX,
        ensures
            views(r@) == statements_upto(
                self@,
                stmts@,
                sql.spec_bytes(),
                ignore_ranges@,
                *config,
                Seq::empty(),
                stmts@.len() as int,
            ),
    {
        let none: Vec<Vec<ScriptOutcome>> = Vec::new();
        assert(none@ =~= Seq::<Vec<ScriptOutcome>>::empty());
        self.check_statements(stmts, sql, ignore_ranges, config, &none)
    }
}

} // verus!
