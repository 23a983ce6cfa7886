//! The statement tree that every check reads: one parsed SQL statement, as a
//! closed sum type with one variant per statement kind that the checks know.
use vstd::prelude::*;

verus! {

/// The kind of a table or column constraint.
#[derive(PartialEq, Eq, Structural, Clone, Copy, Debug)]
pub enum ConstraintKind {
    NotNull,
    Default,
    Identity,
    Generated,
    Check,
    Primary,
    Unique,
    Exclusion,
    Foreign,
    Other,
}

/// The shape of an expression, as far as the checks need it: a literal
/// constant, or something that is evaluated (a call, an operator, a cast).
#[derive(PartialEq, Eq, Structural, Clone, Copy, Debug)]
pub enum ExprKind {
    Constant,
    FunctionCall,
    TypeCast,
    Operator,
    Other,
}

/// A possibly schema-qualified relation name.
#[derive(Clone, Debug)]
pub struct RangeVar {
    /// Empty when the name is not qualified.
    pub schemaname: String,
    pub relname: String,
}

/// A constraint, inline on a column or as a table element.
#[derive(Clone, Debug)]
pub struct Constraint {
    pub kind: ConstraintKind,
    /// Empty when the constraint has no name.
    pub name: String,
    /// Key columns of a UNIQUE or PRIMARY KEY constraint.
    pub keys: Vec<String>,
    /// The index of `USING INDEX`; empty when there is none.
    pub index_name: String,
    /// The expression of a DEFAULT, GENERATED or CHECK constraint.
    pub expr: Option<ExprKind>,
    /// A GENERATED column whose value is stored.
    pub stored: bool,
    /// Referencing columns of a FOREIGN KEY.
    pub fk_columns: Vec<String>,
    /// Referenced table of a FOREIGN KEY.
    pub ref_table: Option<RangeVar>,
    /// Referenced columns of a FOREIGN KEY.
    pub ref_columns: Vec<String>,
}

/// A column definition.
#[derive(Clone, Debug)]
pub struct ColumnDef {
    pub name: String,
    /// The segments of the type name, e.g. `pg_catalog`, `int4`.
    pub type_names: Vec<String>,
    /// Type modifiers, e.g. the length of `CHAR(10)`.
    pub type_mods: Vec<u64>,
    pub constraints: Vec<Constraint>,
}

/// The sub-command kind of an ALTER TABLE command.
#[derive(PartialEq, Eq, Structural, Clone, Copy, Debug)]
pub enum AlterKind {
    AddColumn,
    ColumnDefault,
    DropNotNull,
    SetNotNull,
    DropColumn,
    AlterColumnType,
    AddConstraint,
    DropConstraint,
    ValidateConstraint,
    Other,
}

/// What an ALTER TABLE command carries as its definition.
#[derive(Clone, Debug)]
pub enum CmdDef {
    Nothing,
    Column(ColumnDef),
    Constraint(Constraint),
}

/// One sub-command of ALTER TABLE.
#[derive(Clone, Debug)]
pub struct AlterTableCmd {
    pub kind: AlterKind,
    /// The column or constraint that the command names, if any.
    pub name: String,
    pub def: CmdDef,
    pub if_exists: bool,
}

/// An element of CREATE TABLE.
#[derive(Clone, Debug)]
pub enum TableElement {
    Column(ColumnDef),
    Constraint(Constraint),
    Other,
}

/// One indexed column of CREATE INDEX.
#[derive(Clone, Debug)]
pub struct IndexElem {
    /// Empty when the element is an expression.
    pub name: String,
}

/// CREATE INDEX.
#[derive(Clone, Debug)]
pub struct IndexStmt {
    /// Empty when the index has no name.
    pub idxname: String,
    pub relation: Option<RangeVar>,
    pub params: Vec<IndexElem>,
    pub unique: bool,
    pub concurrent: bool,
    pub if_not_exists: bool,
}

/// The kind of object that DROP removes.
#[derive(PartialEq, Eq, Structural, Clone, Copy, Debug)]
pub enum ObjectKind {
    Index,
    Table,
    Column,
    Database,
    Schema,
    Sequence,
    View,
    Function,
    Extension,
    Trigger,
    Type,
    Other,
}

/// DROP.
#[derive(Clone, Debug)]
pub struct DropStmt {
    pub kind: ObjectKind,
    /// One entry per dropped object; each entry lists the segments of its
    /// possibly qualified name.
    pub objects: Vec<Vec<String>>,
    pub if_exists: bool,
    pub cascade: bool,
    pub restrict: bool,
    pub concurrent: bool,
}

/// The kind of object that REINDEX rebuilds.
#[derive(PartialEq, Eq, Structural, Clone, Copy, Debug)]
pub enum ReindexKind {
    Index,
    Table,
    Schema,
    System,
    Database,
}

/// REINDEX.
#[derive(Clone, Debug)]
pub struct ReindexStmt {
    pub kind: ReindexKind,
    /// The target of REINDEX INDEX / TABLE.
    pub relation: Option<RangeVar>,
    /// The target of REINDEX SCHEMA / DATABASE.
    pub name: String,
    /// The names of the options in parentheses, e.g. `concurrently`.
    pub params: Vec<String>,
}

/// One parsed SQL statement.
#[derive(Clone, Debug)]
pub enum Statement {
    AlterTable { relation: Option<RangeVar>, cmds: Vec<AlterTableCmd> },
    CreateTable { relation: Option<RangeVar>, elements: Vec<TableElement> },
    CreateIndex(IndexStmt),
    Drop(DropStmt),
    Reindex(ReindexStmt),
    Truncate { relations: Vec<RangeVar>, cascade: bool },
    Other,
}

/// A statement with the byte offset at which the parser says it starts.
#[derive(Clone, Debug)]
pub struct RawStatement {
    /// `None` when the parser produced no tree for the statement.
    pub stmt: Option<Statement>,
    pub location: usize,
}

} // verus!
