//! The texts of the violations: each as a specification over the names it
//! mentions, and the function that builds it.
use vstd::prelude::*;
use vstd::string::StringExecFns;
use crate::text::owned;

verus! {

/// Why adding a SERIAL column is unsafe.
pub open spec fn add_serial_problem(table: Seq<char>, column: Seq<char>) -> Seq<char> {
    "Adding column '"@
        + column
        + "' with SERIAL type on table '"@
        + table
        + "' requires a full table rewrite to populate sequence values for existing rows, which acquires an ACCESS EXCLUSIVE lock and blocks all operations. Duration depends on table size and number of indexes."@
}

/// [`add_serial_problem`] is never empty.
pub broadcast proof fn lemma_add_serial_problem_nonempty(table: Seq<char>, column: Seq<char>)
    ensures
        #[trigger] add_serial_problem(table, column).len() > 0,
{
    reveal_strlit("Adding column '");
}

/// Builds [`add_serial_problem`].
pub fn make_add_serial_problem(table: &str, column: &str) -> (r: String)
    ensures
        r@ == add_serial_problem(table@, column@),
{
    let mut s = owned("Adding column '");
    s.append(column);
    s.append("' with SERIAL type on table '");
    s.append(table);
    s.append("' requires a full table rewrite to populate sequence values for existing rows, which acquires an ACCESS EXCLUSIVE lock and blocks all operations. Duration depends on table size and number of indexes.");
    s
}

/// How to add a SERIAL column safely.
pub open spec fn add_serial_alternative(table: Seq<char>, column: Seq<char>, data_type: Seq<char>) -> Seq<char> {
    "1. Create a sequence:\n   CREATE SEQUENCE "@
        + table
        + "_"@
        + column
        + "_seq;\n\n2. Add the column WITHOUT default (fast, no rewrite):\n   ALTER TABLE "@
        + table
        + " ADD COLUMN "@
        + column
        + " "@
        + data_type
        + ";\n\n3. Backfill existing rows in batches (outside migration):\n   UPDATE "@
        + table
        + " SET "@
        + column
        + " = nextval('"@
        + table
        + "_"@
        + column
        + "_seq') WHERE "@
        + column
        + " IS NULL;\n\n4. Set default for future inserts only:\n   ALTER TABLE "@
        + table
        + " ALTER COLUMN "@
        + column
        + " SET DEFAULT nextval('"@
        + table
        + "_"@
        + column
        + "_seq');\n\n5. Set sequence ownership:\n   ALTER SEQUENCE "@
        + table
        + "_"@
        + column
        + "_seq OWNED BY "@
        + table
        + "."@
        + column
        + ";"@
}

/// [`add_serial_alternative`] is never empty.
pub broadcast proof fn lemma_add_serial_alternative_nonempty(table: Seq<char>, column: Seq<char>, data_type: Seq<char>)
    ensures
        #[trigger] add_serial_alternative(table, column, data_type).len() > 0,
{
    reveal_strlit("1. Create a sequence:\n   CREATE SEQUENCE ");
}

/// Builds [`add_serial_alternative`].
pub fn make_add_serial_alternative(table: &str, column: &str, data_type: &str) -> (r: String)
    ensures
        r@ == add_serial_alternative(table@, column@, data_type@),
{
    let mut s = owned("1. Create a sequence:\n   CREATE SEQUENCE ");
    s.append(table);
    s.append("_");
    s.append(column);
    s.append("_seq;\n\n2. Add the column WITHOUT default (fast, no rewrite):\n   ALTER TABLE ");
    s.append(table);
    s.append(" ADD COLUMN ");
    s.append(column);
    s.append(" ");
    s.append(data_type);
    s.append(";\n\n3. Backfill existing rows in batches (outside migration):\n   UPDATE ");
    s.append(table);
    s.append(" SET ");
    s.append(column);
    s.append(" = nextval('");
    s.append(table);
    s.append("_");
    s.append(column);
    s.append("_seq') WHERE ");
    s.append(column);
    s.append(" IS NULL;\n\n4. Set default for future inserts only:\n   ALTER TABLE ");
    s.append(table);
    s.append(" ALTER COLUMN ");
    s.append(column);
    s.append(" SET DEFAULT nextval('");
    s.append(table);
    s.append("_");
    s.append(column);
    s.append("_seq');\n\n5. Set sequence ownership:\n   ALTER SEQUENCE ");
    s.append(table);
    s.append("_");
    s.append(column);
    s.append("_seq OWNED BY ");
    s.append(table);
    s.append(".");
    s.append(column);
    s.append(";");
    s
}

/// Why adding a UNIQUE constraint in place is unsafe.
pub open spec fn unique_problem(constraint: Seq<char>, table: Seq<char>, columns: Seq<char>) -> Seq<char> {
    "Adding UNIQUE constraint '"@
        + constraint
        + "' on table '"@
        + table
        + "' ("@
        + columns
        + ") via ALTER TABLE acquires an ACCESS EXCLUSIVE lock, blocking all reads and writes during index creation. Duration depends on table size."@
}

/// [`unique_problem`] is never empty.
pub broadcast proof fn lemma_unique_problem_nonempty(constraint: Seq<char>, table: Seq<char>, columns: Seq<char>)
    ensures
        #[trigger] unique_problem(constraint, table, columns).len() > 0,
{
    reveal_strlit("Adding UNIQUE constraint '");
}

/// Builds [`unique_problem`].
pub fn make_unique_problem(constraint: &str, table: &str, columns: &str) -> (r: String)
    ensures
        r@ == unique_problem(constraint@, table@, columns@),
{
    let mut s = owned("Adding UNIQUE constraint '");
    s.append(constraint);
    s.append("' on table '");
    s.append(table);
    s.append("' (");
    s.append(columns);
    s.append(") via ALTER TABLE acquires an ACCESS EXCLUSIVE lock, blocking all reads and writes during index creation. Duration depends on table size.");
    s
}

/// How to add a UNIQUE constraint safely.
pub open spec fn unique_alternative(index_name: Seq<char>, table: Seq<char>, columns: Seq<char>, constraint_name: Seq<char>) -> Seq<char> {
    "Use CREATE UNIQUE INDEX CONCURRENTLY instead:\n\n1. Create the unique index concurrently:\n   CREATE UNIQUE INDEX CONCURRENTLY "@
        + index_name
        + " ON "@
        + table
        + " ("@
        + columns
        + ");\n\n2. (Optional) Add constraint using the existing index:\n   ALTER TABLE "@
        + table
        + " ADD CONSTRAINT "@
        + constraint_name
        + " UNIQUE USING INDEX "@
        + index_name
        + ";\n\nNote: CONCURRENTLY cannot run inside a transaction block, takes longer, and may fail if duplicate values exist."@
}

/// [`unique_alternative`] is never empty.
pub broadcast proof fn lemma_unique_alternative_nonempty(index_name: Seq<char>, table: Seq<char>, columns: Seq<char>, constraint_name: Seq<char>)
    ensures
        #[trigger] unique_alternative(index_name, table, columns, constraint_name).len() > 0,
{
    reveal_strlit("Use CREATE UNIQUE INDEX CONCURRENTLY instead:\n\n1. Create the unique index concurrently:\n   CREATE UNIQUE INDEX CONCURRENTLY ");
}

/// Builds [`unique_alternative`].
pub fn make_unique_alternative(index_name: &str, table: &str, columns: &str, constraint_name: &str) -> (r: String)
    ensures
        r@ == unique_alternative(index_name@, table@, columns@, constraint_name@),
{
    let mut s = owned("Use CREATE UNIQUE INDEX CONCURRENTLY instead:\n\n1. Create the unique index concurrently:\n   CREATE UNIQUE INDEX CONCURRENTLY ");
    s.append(index_name);
    s.append(" ON ");
    s.append(table);
    s.append(" (");
    s.append(columns);
    s.append(");\n\n2. (Optional) Add constraint using the existing index:\n   ALTER TABLE ");
    s.append(table);
    s.append(" ADD CONSTRAINT ");
    s.append(constraint_name);
    s.append(" UNIQUE USING INDEX ");
    s.append(index_name);
    s.append(";\n\nNote: CONCURRENTLY cannot run inside a transaction block, takes longer, and may fail if duplicate values exist.");
    s
}

/// Why changing a column's type is unsafe.
pub open spec fn alter_type_problem(column: Seq<char>, new_type: Seq<char>, table: Seq<char>) -> Seq<char> {
    "Changing column '"@
        + column
        + "' type to '"@
        + new_type
        + "' on table '"@
        + table
        + "' typically requires an ACCESS EXCLUSIVE lock and may trigger a full table rewrite, blocking all operations. Duration depends on table size and the specific type change."@
}

/// [`alter_type_problem`] is never empty.
pub broadcast proof fn lemma_alter_type_problem_nonempty(column: Seq<char>, new_type: Seq<char>, table: Seq<char>)
    ensures
        #[trigger] alter_type_problem(column, new_type, table).len() > 0,
{
    reveal_strlit("Changing column '");
}

/// Builds [`alter_type_problem`].
pub fn make_alter_type_problem(column: &str, new_type: &str, table: &str) -> (r: String)
    ensures
        r@ == alter_type_problem(column@, new_type@, table@),
{
    let mut s = owned("Changing column '");
    s.append(column);
    s.append("' type to '");
    s.append(new_type);
    s.append("' on table '");
    s.append(table);
    s.append("' typically requires an ACCESS EXCLUSIVE lock and may trigger a full table rewrite, blocking all operations. Duration depends on table size and the specific type change.");
    s
}

/// How to change a column's type safely.
pub open spec fn alter_type_alternative(table: Seq<char>, column: Seq<char>, new_type: Seq<char>) -> Seq<char> {
    "For safer type changes, consider a multi-step approach:\n\n1. Add a new column with the desired type:\n   ALTER TABLE "@
        + table
        + " ADD COLUMN "@
        + column
        + "_new "@
        + new_type
        + ";\n\n2. Backfill data in batches (outside migration):\n   UPDATE "@
        + table
        + " SET "@
        + column
        + "_new = "@
        + column
        + "::"@
        + new_type
        + ";\n\n3. Deploy application code to use the new column.\n\n4. Drop the old column in a later migration:\n   ALTER TABLE "@
        + table
        + " DROP COLUMN "@
        + column
        + ";\n\n5. Rename the new column:\n   ALTER TABLE "@
        + table
        + " RENAME COLUMN "@
        + column
        + "_new TO "@
        + column
        + ";"@
}

/// [`alter_type_alternative`] is never empty.
pub broadcast proof fn lemma_alter_type_alternative_nonempty(table: Seq<char>, column: Seq<char>, new_type: Seq<char>)
    ensures
        #[trigger] alter_type_alternative(table, column, new_type).len() > 0,
{
    reveal_strlit("For safer type changes, consider a multi-step approach:\n\n1. Add a new column with the desired type:\n   ALTER TABLE ");
}

/// Builds [`alter_type_alternative`].
pub fn make_alter_type_alternative(table: &str, column: &str, new_type: &str) -> (r: String)
    ensures
        r@ == alter_type_alternative(table@, column@, new_type@),
{
    let mut s = owned("For safer type changes, consider a multi-step approach:\n\n1. Add a new column with the desired type:\n   ALTER TABLE ");
    s.append(table);
    s.append(" ADD COLUMN ");
    s.append(column);
    s.append("_new ");
    s.append(new_type);
    s.append(";\n\n2. Backfill data in batches (outside migration):\n   UPDATE ");
    s.append(table);
    s.append(" SET ");
    s.append(column);
    s.append("_new = ");
    s.append(column);
    s.append("::");
    s.append(new_type);
    s.append(";\n\n3. Deploy application code to use the new column.\n\n4. Drop the old column in a later migration:\n   ALTER TABLE ");
    s.append(table);
    s.append(" DROP COLUMN ");
    s.append(column);
    s.append(";\n\n5. Rename the new column:\n   ALTER TABLE ");
    s.append(table);
    s.append(" RENAME COLUMN ");
    s.append(column);
    s.append("_new TO ");
    s.append(column);
    s.append(";");
    s
}

/// Why a CHAR column is discouraged.
pub open spec fn char_problem(column: Seq<char>, length: Seq<char>) -> Seq<char> {
    "Column '"@
        + column
        + "' uses CHAR("@
        + length
        + ") which is fixed-length and padded with spaces. This wastes storage and can cause subtle bugs with string comparisons. This is a best practice warning (no locking impact)."@
}

/// [`char_problem`] is never empty.
pub broadcast proof fn lemma_char_problem_nonempty(column: Seq<char>, length: Seq<char>)
    ensures
        #[trigger] char_problem(column, length).len() > 0,
{
    reveal_strlit("Column '");
}

/// Builds [`char_problem`].
pub fn make_char_problem(column: &str, length: &str) -> (r: String)
    ensures
        r@ == char_problem(column@, length@),
{
    let mut s = owned("Column '");
    s.append(column);
    s.append("' uses CHAR(");
    s.append(length);
    s.append(") which is fixed-length and padded with spaces. This wastes storage and can cause subtle bugs with string comparisons. This is a best practice warning (no locking impact).");
    s
}

/// What to add instead of a CHAR column.
pub open spec fn char_alter_alternative(table: Seq<char>, column: Seq<char>, length: Seq<char>) -> Seq<char> {
    "Use TEXT or VARCHAR instead of CHAR:\n\n1. For variable-length strings (most cases):\n   ALTER TABLE "@
        + table
        + " ADD COLUMN "@
        + column
        + " TEXT;\n\n2. If you need a length constraint:\n   ALTER TABLE "@
        + table
        + " ADD COLUMN "@
        + column
        + " VARCHAR("@
        + length
        + ");"@
}

/// [`char_alter_alternative`] is never empty.
pub broadcast proof fn lemma_char_alter_alternative_nonempty(table: Seq<char>, column: Seq<char>, length: Seq<char>)
    ensures
        #[trigger] char_alter_alternative(table, column, length).len() > 0,
{
    reveal_strlit("Use TEXT or VARCHAR instead of CHAR:\n\n1. For variable-length strings (most cases):\n   ALTER TABLE ");
}

/// Builds [`char_alter_alternative`].
pub fn make_char_alter_alternative(table: &str, column: &str, length: &str) -> (r: String)
    ensures
        r@ == char_alter_alternative(table@, column@, length@),
{
    let mut s = owned("Use TEXT or VARCHAR instead of CHAR:\n\n1. For variable-length strings (most cases):\n   ALTER TABLE ");
    s.append(table);
    s.append(" ADD COLUMN ");
    s.append(column);
    s.append(" TEXT;\n\n2. If you need a length constraint:\n   ALTER TABLE ");
    s.append(table);
    s.append(" ADD COLUMN ");
    s.append(column);
    s.append(" VARCHAR(");
    s.append(length);
    s.append(");");
    s
}

/// What to declare instead of a CHAR column.
pub open spec fn char_create_alternative(table: Seq<char>, column: Seq<char>, length: Seq<char>) -> Seq<char> {
    "Use TEXT or VARCHAR instead of CHAR:\n\n1. For variable-length strings (most cases):\n   CREATE TABLE "@
        + table
        + " (\n       "@
        + column
        + " TEXT\n   );\n\n2. If you need a length constraint:\n   CREATE TABLE "@
        + table
        + " (\n       "@
        + column
        + " VARCHAR("@
        + length
        + ")\n   );"@
}

/// [`char_create_alternative`] is never empty.
pub broadcast proof fn lemma_char_create_alternative_nonempty(table: Seq<char>, column: Seq<char>, length: Seq<char>)
    ensures
        #[trigger] char_create_alternative(table, column, length).len() > 0,
{
    reveal_strlit("Use TEXT or VARCHAR instead of CHAR:\n\n1. For variable-length strings (most cases):\n   CREATE TABLE ");
}

/// Builds [`char_create_alternative`].
pub fn make_char_create_alternative(table: &str, column: &str, length: &str) -> (r: String)
    ensures
        r@ == char_create_alternative(table@, column@, length@),
{
    let mut s = owned("Use TEXT or VARCHAR instead of CHAR:\n\n1. For variable-length strings (most cases):\n   CREATE TABLE ");
    s.append(table);
    s.append(" (\n       ");
    s.append(column);
    s.append(" TEXT\n   );\n\n2. If you need a length constraint:\n   CREATE TABLE ");
    s.append(table);
    s.append(" (\n       ");
    s.append(column);
    s.append(" VARCHAR(");
    s.append(length);
    s.append(")\n   );");
    s
}

/// Why dropping a column is risky.
pub open spec fn drop_column_problem(column: Seq<char>, table: Seq<char>) -> Seq<char> {
    "Dropping column '"@
        + column
        + "' from table '"@
        + table
        + "' requires an exclusive lock and rewrites the table. This can take hours on large tables and blocks all reads/writes during the operation."@
}

/// [`drop_column_problem`] is never empty.
pub broadcast proof fn lemma_drop_column_problem_nonempty(column: Seq<char>, table: Seq<char>)
    ensures
        #[trigger] drop_column_problem(column, table).len() > 0,
{
    reveal_strlit("Dropping column '");
}

/// Builds [`drop_column_problem`].
pub fn make_drop_column_problem(column: &str, table: &str) -> (r: String)
    ensures
        r@ == drop_column_problem(column@, table@),
{
    let mut s = owned("Dropping column '");
    s.append(column);
    s.append("' from table '");
    s.append(table);
    s.append("' requires an exclusive lock and rewrites the table. This can take hours on large tables and blocks all reads/writes during the operation.");
    s
}

/// How to drop a column safely.
pub open spec fn drop_column_alternative(table: Seq<char>, column: Seq<char>, if_exists: Seq<char>) -> Seq<char> {
    "1. Mark the column as unused in your application code first.\n\n2. Deploy the application without the column references.\n\n3. (Optional) Set column to NULL to reclaim space:\n   ALTER TABLE "@
        + table
        + " ALTER COLUMN "@
        + column
        + " DROP NOT NULL;\n   UPDATE "@
        + table
        + " SET "@
        + column
        + " = NULL;\n\n4. Drop the column in a later migration:\n   ALTER TABLE "@
        + table
        + " DROP COLUMN"@
        + if_exists
        + " "@
        + column
        + ";\n\nNote: PostgreSQL doesn't support DROP COLUMN CONCURRENTLY. Staging the removal reduces risk."@
}

/// [`drop_column_alternative`] is never empty.
pub broadcast proof fn lemma_drop_column_alternative_nonempty(table: Seq<char>, column: Seq<char>, if_exists: Seq<char>)
    ensures
        #[trigger] drop_column_alternative(table, column, if_exists).len() > 0,
{
    reveal_strlit("1. Mark the column as unused in your application code first.\n\n2. Deploy the application without the column references.\n\n3. (Optional) Set column to NULL to reclaim space:\n   ALTER TABLE ");
}

/// Builds [`drop_column_alternative`].
pub fn make_drop_column_alternative(table: &str, column: &str, if_exists: &str) -> (r: String)
    ensures
        r@ == drop_column_alternative(table@, column@, if_exists@),
{
    let mut s = owned("1. Mark the column as unused in your application code first.\n\n2. Deploy the application without the column references.\n\n3. (Optional) Set column to NULL to reclaim space:\n   ALTER TABLE ");
    s.append(table);
    s.append(" ALTER COLUMN ");
    s.append(column);
    s.append(" DROP NOT NULL;\n   UPDATE ");
    s.append(table);
    s.append(" SET ");
    s.append(column);
    s.append(" = NULL;\n\n4. Drop the column in a later migration:\n   ALTER TABLE ");
    s.append(table);
    s.append(" DROP COLUMN");
    s.append(if_exists);
    s.append(" ");
    s.append(column);
    s.append(";\n\nNote: PostgreSQL doesn't support DROP COLUMN CONCURRENTLY. Staging the removal reduces risk.");
    s
}

/// Why dropping a database is dangerous.
pub open spec fn drop_database_problem(db: Seq<char>) -> Seq<char> {
    "Dropping database '"@
        + db
        + "' permanently deletes the entire database including all tables, data, and objects. This operation requires exclusive access (all connections must be terminated) and cannot run inside a transaction block."@
}

/// [`drop_database_problem`] is never empty.
pub broadcast proof fn lemma_drop_database_problem_nonempty(db: Seq<char>)
    ensures
        #[trigger] drop_database_problem(db).len() > 0,
{
    reveal_strlit("Dropping database '");
}

/// Builds [`drop_database_problem`].
pub fn make_drop_database_problem(db: &str) -> (r: String)
    ensures
        r@ == drop_database_problem(db@),
{
    let mut s = owned("Dropping database '");
    s.append(db);
    s.append("' permanently deletes the entire database including all tables, data, and objects. This operation requires exclusive access (all connections must be terminated) and cannot run inside a transaction block.");
    s
}

/// What to do instead of dropping a database in a migration.
pub open spec fn drop_database_alternative(if_exists: Seq<char>, db: Seq<char>) -> Seq<char> {
    "DROP DATABASE should almost never appear in application migrations.\n\nIf you need to drop a database:\n1. Take a backup first:\n   pg_dump -Fc "@
        + db
        + " > "@
        + db
        + "_backup.dump\n\n2. Run it manually, outside of migrations.\n\nIf this is intentional (e.g., test cleanup), use a safety-assured block:\n   -- safety-assured:start\n   DROP DATABASE"@
        + if_exists
        + " "@
        + db
        + ";\n   -- safety-assured:end"@
}

/// [`drop_database_alternative`] is never empty.
pub broadcast proof fn lemma_drop_database_alternative_nonempty(if_exists: Seq<char>, db: Seq<char>)
    ensures
        #[trigger] drop_database_alternative(if_exists, db).len() > 0,
{
    reveal_strlit("DROP DATABASE should almost never appear in application migrations.\n\nIf you need to drop a database:\n1. Take a backup first:\n   pg_dump -Fc ");
}

/// Builds [`drop_database_alternative`].
pub fn make_drop_database_alternative(if_exists: &str, db: &str) -> (r: String)
    ensures
        r@ == drop_database_alternative(if_exists@, db@),
{
    let mut s = owned("DROP DATABASE should almost never appear in application migrations.\n\nIf you need to drop a database:\n1. Take a backup first:\n   pg_dump -Fc ");
    s.append(db);
    s.append(" > ");
    s.append(db);
    s.append("_backup.dump\n\n2. Run it manually, outside of migrations.\n\nIf this is intentional (e.g., test cleanup), use a safety-assured block:\n   -- safety-assured:start\n   DROP DATABASE");
    s.append(if_exists);
    s.append(" ");
    s.append(db);
    s.append(";\n   -- safety-assured:end");
    s
}

/// Why dropping an index without CONCURRENTLY is unsafe.
pub open spec fn drop_index_problem(index: Seq<char>, if_exists: Seq<char>) -> Seq<char> {
    "Dropping index '"@
        + index
        + "'"@
        + if_exists
        + " without CONCURRENTLY acquires an ACCESS EXCLUSIVE lock, blocking all queries (SELECT, INSERT, UPDATE, DELETE) on the table until complete. Duration depends on system load and concurrent transactions."@
}

/// [`drop_index_problem`] is never empty.
pub broadcast proof fn lemma_drop_index_problem_nonempty(index: Seq<char>, if_exists: Seq<char>)
    ensures
        #[trigger] drop_index_problem(index, if_exists).len() > 0,
{
    reveal_strlit("Dropping index '");
}

/// Builds [`drop_index_problem`].
pub fn make_drop_index_problem(index: &str, if_exists: &str) -> (r: String)
    ensures
        r@ == drop_index_problem(index@, if_exists@),
{
    let mut s = owned("Dropping index '");
    s.append(index);
    s.append("'");
    s.append(if_exists);
    s.append(" without CONCURRENTLY acquires an ACCESS EXCLUSIVE lock, blocking all queries (SELECT, INSERT, UPDATE, DELETE) on the table until complete. Duration depends on system load and concurrent transactions.");
    s
}

/// How to drop an index safely.
pub open spec fn drop_index_alternative(if_exists: Seq<char>, index: Seq<char>) -> Seq<char> {
    "Use CONCURRENTLY to drop the index without blocking queries:\n   DROP INDEX CONCURRENTLY"@
        + if_exists
        + " "@
        + index
        + ";\n\nNote: CONCURRENTLY requires PostgreSQL 9.2+ and cannot be run inside a transaction block.\n\nFor Diesel migrations:\n   run_in_transaction = false (in metadata.toml)\n\nFor SQLx migrations:\n   -- no-transaction (at the top of the file)"@
}

/// [`drop_index_alternative`] is never empty.
pub broadcast proof fn lemma_drop_index_alternative_nonempty(if_exists: Seq<char>, index: Seq<char>)
    ensures
        #[trigger] drop_index_alternative(if_exists, index).len() > 0,
{
    reveal_strlit("Use CONCURRENTLY to drop the index without blocking queries:\n   DROP INDEX CONCURRENTLY");
}

/// Builds [`drop_index_alternative`].
pub fn make_drop_index_alternative(if_exists: &str, index: &str) -> (r: String)
    ensures
        r@ == drop_index_alternative(if_exists@, index@),
{
    let mut s = owned("Use CONCURRENTLY to drop the index without blocking queries:\n   DROP INDEX CONCURRENTLY");
    s.append(if_exists);
    s.append(" ");
    s.append(index);
    s.append(";\n\nNote: CONCURRENTLY requires PostgreSQL 9.2+ and cannot be run inside a transaction block.\n\nFor Diesel migrations:\n   run_in_transaction = false (in metadata.toml)\n\nFor SQLx migrations:\n   -- no-transaction (at the top of the file)");
    s
}

/// Why dropping a table is dangerous.
pub open spec fn drop_table_problem(table: Seq<char>) -> Seq<char> {
    "Dropping table '"@
        + table
        + "' permanently deletes all data and acquires an ACCESS EXCLUSIVE lock. This operation cannot be undone after the transaction commits."@
}

/// [`drop_table_problem`] is never empty.
pub broadcast proof fn lemma_drop_table_problem_nonempty(table: Seq<char>)
    ensures
        #[trigger] drop_table_problem(table).len() > 0,
{
    reveal_strlit("Dropping table '");
}

/// Builds [`drop_table_problem`].
pub fn make_drop_table_problem(table: &str) -> (r: String)
    ensures
        r@ == drop_table_problem(table@),
{
    let mut s = owned("Dropping table '");
    s.append(table);
    s.append("' permanently deletes all data and acquires an ACCESS EXCLUSIVE lock. This operation cannot be undone after the transaction commits.");
    s
}

/// What to verify before dropping a table.
pub open spec fn drop_table_alternative(if_exists: Seq<char>, table: Seq<char>, modifiers: Seq<char>) -> Seq<char> {
    "Before dropping a table in production:\n\n1. Verify this is intentional and the table is no longer in use\n2. Ensure a backup exists or data has been migrated\n3. Check for foreign key dependencies that may block the drop\n\nIf this drop is intentional, wrap it in a safety-assured block:\n   -- safety-assured:start\n   DROP TABLE"@
        + if_exists
        + " "@
        + table
        + modifiers
        + ";\n   -- safety-assured:end\n\nNote: DROP TABLE acquires ACCESS EXCLUSIVE lock, blocking all operations until complete."@
}

/// [`drop_table_alternative`] is never empty.
pub broadcast proof fn lemma_drop_table_alternative_nonempty(if_exists: Seq<char>, table: Seq<char>, modifiers: Seq<char>)
    ensures
        #[trigger] drop_table_alternative(if_exists, table, modifiers).len() > 0,
{
    reveal_strlit("Before dropping a table in production:\n\n1. Verify this is intentional and the table is no longer in use\n2. Ensure a backup exists or data has been migrated\n3. Check for foreign key dependencies that may block the drop\n\nIf this drop is intentional, wrap it in a safety-assured block:\n   -- safety-assured:start\n   DROP TABLE");
}

/// Builds [`drop_table_alternative`].
pub fn make_drop_table_alternative(if_exists: &str, table: &str, modifiers: &str) -> (r: String)
    ensures
        r@ == drop_table_alternative(if_exists@, table@, modifiers@),
{
    let mut s = owned("Before dropping a table in production:\n\n1. Verify this is intentional and the table is no longer in use\n2. Ensure a backup exists or data has been migrated\n3. Check for foreign key dependencies that may block the drop\n\nIf this drop is intentional, wrap it in a safety-assured block:\n   -- safety-assured:start\n   DROP TABLE");
    s.append(if_exists);
    s.append(" ");
    s.append(table);
    s.append(modifiers);
    s.append(";\n   -- safety-assured:end\n\nNote: DROP TABLE acquires ACCESS EXCLUSIVE lock, blocking all operations until complete.");
    s
}

/// Why adding a stored generated column is unsafe.
pub open spec fn generated_problem(column: Seq<char>, table: Seq<char>) -> Seq<char> {
    "Adding column '"@
        + column
        + "' with GENERATED ALWAYS AS ... STORED on table '"@
        + table
        + "' triggers a full table rewrite because PostgreSQL must compute and store the expression value for every existing row. This acquires an ACCESS EXCLUSIVE lock and blocks all operations. Duration depends on table size."@
}

/// [`generated_problem`] is never empty.
pub broadcast proof fn lemma_generated_problem_nonempty(column: Seq<char>, table: Seq<char>)
    ensures
        #[trigger] generated_problem(column, table).len() > 0,
{
    reveal_strlit("Adding column '");
}

/// Builds [`generated_problem`].
pub fn make_generated_problem(column: &str, table: &str) -> (r: String)
    ensures
        r@ == generated_problem(column@, table@),
{
    let mut s = owned("Adding column '");
    s.append(column);
    s.append("' with GENERATED ALWAYS AS ... STORED on table '");
    s.append(table);
    s.append("' triggers a full table rewrite because PostgreSQL must compute and store the expression value for every existing row. This acquires an ACCESS EXCLUSIVE lock and blocks all operations. Duration depends on table size.");
    s
}

/// How to add a computed column safely.
pub open spec fn generated_alternative(table: Seq<char>, column: Seq<char>, data_type: Seq<char>) -> Seq<char> {
    "1. Add a regular nullable column instead:\n   ALTER TABLE "@
        + table
        + " ADD COLUMN "@
        + column
        + " "@
        + data_type
        + ";\n\n2. Backfill values in batches (outside migration):\n   UPDATE "@
        + table
        + " SET "@
        + column
        + " = <expression> WHERE "@
        + column
        + " IS NULL;\n\n3. Keep it current with a trigger or in application code.\n\nNote: PostgreSQL does not support VIRTUAL generated columns (only STORED). For new empty tables, GENERATED STORED columns are acceptable."@
}

/// [`generated_alternative`] is never empty.
pub broadcast proof fn lemma_generated_alternative_nonempty(table: Seq<char>, column: Seq<char>, data_type: Seq<char>)
    ensures
        #[trigger] generated_alternative(table, column, data_type).len() > 0,
{
    reveal_strlit("1. Add a regular nullable column instead:\n   ALTER TABLE ");
}

/// Builds [`generated_alternative`].
pub fn make_generated_alternative(table: &str, column: &str, data_type: &str) -> (r: String)
    ensures
        r@ == generated_alternative(table@, column@, data_type@),
{
    let mut s = owned("1. Add a regular nullable column instead:\n   ALTER TABLE ");
    s.append(table);
    s.append(" ADD COLUMN ");
    s.append(column);
    s.append(" ");
    s.append(data_type);
    s.append(";\n\n2. Backfill values in batches (outside migration):\n   UPDATE ");
    s.append(table);
    s.append(" SET ");
    s.append(column);
    s.append(" = <expression> WHERE ");
    s.append(column);
    s.append(" IS NULL;\n\n3. Keep it current with a trigger or in application code.\n\nNote: PostgreSQL does not support VIRTUAL generated columns (only STORED). For new empty tables, GENERATED STORED columns are acceptable.");
    s
}

/// Why REINDEX without CONCURRENTLY is unsafe.
pub open spec fn reindex_problem(kind: Seq<char>, target: Seq<char>, kind_lower: Seq<char>) -> Seq<char> {
    "REINDEX "@
        + kind
        + " '"@
        + target
        + "' without CONCURRENTLY acquires an ACCESS EXCLUSIVE lock, blocking all operations on the "@
        + kind_lower
        + " '"@
        + target
        + "' until complete. Duration depends on index size."@
}

/// [`reindex_problem`] is never empty.
pub broadcast proof fn lemma_reindex_problem_nonempty(kind: Seq<char>, target: Seq<char>, kind_lower: Seq<char>)
    ensures
        #[trigger] reindex_problem(kind, target, kind_lower).len() > 0,
{
    reveal_strlit("REINDEX ");
}

/// Builds [`reindex_problem`].
pub fn make_reindex_problem(kind: &str, target: &str, kind_lower: &str) -> (r: String)
    ensures
        r@ == reindex_problem(kind@, target@, kind_lower@),
{
    let mut s = owned("REINDEX ");
    s.append(kind);
    s.append(" '");
    s.append(target);
    s.append("' without CONCURRENTLY acquires an ACCESS EXCLUSIVE lock, blocking all operations on the ");
    s.append(kind_lower);
    s.append(" '");
    s.append(target);
    s.append("' until complete. Duration depends on index size.");
    s
}

/// How to reindex safely.
pub open spec fn reindex_alternative(kind: Seq<char>, target: Seq<char>) -> Seq<char> {
    "Use REINDEX CONCURRENTLY for lock-free reindexing (PostgreSQL 12+):\n\n   REINDEX "@
        + kind
        + " CONCURRENTLY "@
        + target
        + ";\n\nNote: CONCURRENTLY requires PostgreSQL 12+ and cannot be run inside a transaction block.\n\nFor Diesel migrations: run_in_transaction = false (in metadata.toml)\nFor SQLx migrations: -- no-transaction (at the top of the file)"@
}

/// [`reindex_alternative`] is never empty.
pub broadcast proof fn lemma_reindex_alternative_nonempty(kind: Seq<char>, target: Seq<char>)
    ensures
        #[trigger] reindex_alternative(kind, target).len() > 0,
{
    reveal_strlit("Use REINDEX CONCURRENTLY for lock-free reindexing (PostgreSQL 12+):\n\n   REINDEX ");
}

/// Builds [`reindex_alternative`].
pub fn make_reindex_alternative(kind: &str, target: &str) -> (r: String)
    ensures
        r@ == reindex_alternative(kind@, target@),
{
    let mut s = owned("Use REINDEX CONCURRENTLY for lock-free reindexing (PostgreSQL 12+):\n\n   REINDEX ");
    s.append(kind);
    s.append(" CONCURRENTLY ");
    s.append(target);
    s.append(";\n\nNote: CONCURRENTLY requires PostgreSQL 12+ and cannot be run inside a transaction block.\n\nFor Diesel migrations: run_in_transaction = false (in metadata.toml)\nFor SQLx migrations: -- no-transaction (at the top of the file)");
    s
}

/// Why a short integer primary key is risky.
pub open spec fn short_int_problem(kind: Seq<char>, column: Seq<char>, table: Seq<char>, limit: Seq<char>) -> Seq<char> {
    "Using "@
        + kind
        + " for primary key column '"@
        + column
        + "' on table '"@
        + table
        + "' risks ID exhaustion at "@
        + limit
        + " records. "@
        + kind
        + " can be quickly exhausted in production applications. Changing the type later requires an ALTER COLUMN TYPE operation that triggers a full table rewrite with an ACCESS EXCLUSIVE lock, blocking all operations. Duration depends on table size."@
}

/// [`short_int_problem`] is never empty.
pub broadcast proof fn lemma_short_int_problem_nonempty(kind: Seq<char>, column: Seq<char>, table: Seq<char>, limit: Seq<char>)
    ensures
        #[trigger] short_int_problem(kind, column, table, limit).len() > 0,
{
    reveal_strlit("Using ");
}

/// Builds [`short_int_problem`].
pub fn make_short_int_problem(kind: &str, column: &str, table: &str, limit: &str) -> (r: String)
    ensures
        r@ == short_int_problem(kind@, column@, table@, limit@),
{
    let mut s = owned("Using ");
    s.append(kind);
    s.append(" for primary key column '");
    s.append(column);
    s.append("' on table '");
    s.append(table);
    s.append("' risks ID exhaustion at ");
    s.append(limit);
    s.append(" records. ");
    s.append(kind);
    s.append(" can be quickly exhausted in production applications. Changing the type later requires an ALTER COLUMN TYPE operation that triggers a full table rewrite with an ACCESS EXCLUSIVE lock, blocking all operations. Duration depends on table size.");
    s
}

/// Which type to use for a primary key.
pub open spec fn short_int_alternative(table: Seq<char>, column: Seq<char>, kind: Seq<char>) -> Seq<char> {
    "Use BIGINT for primary keys to avoid ID exhaustion:\n\nInstead of:\n   CREATE TABLE "@
        + table
        + " ("@
        + column
        + " "@
        + kind
        + " PRIMARY KEY);\n\nUse:\n   CREATE TABLE "@
        + table
        + " ("@
        + column
        + " BIGINT PRIMARY KEY);\n\nIf using SERIAL/SMALLSERIAL, use BIGSERIAL instead:\n   "@
        + column
        + " BIGSERIAL PRIMARY KEY\n\nNote: If this is an intentionally small table (e.g., lookup table with <100 entries), use 'safety-assured' to bypass this check."@
}

/// [`short_int_alternative`] is never empty.
pub broadcast proof fn lemma_short_int_alternative_nonempty(table: Seq<char>, column: Seq<char>, kind: Seq<char>)
    ensures
        #[trigger] short_int_alternative(table, column, kind).len() > 0,
{
    reveal_strlit("Use BIGINT for primary keys to avoid ID exhaustion:\n\nInstead of:\n   CREATE TABLE ");
}

/// Builds [`short_int_alternative`].
pub fn make_short_int_alternative(table: &str, column: &str, kind: &str) -> (r: String)
    ensures
        r@ == short_int_alternative(table@, column@, kind@),
{
    let mut s = owned("Use BIGINT for primary keys to avoid ID exhaustion:\n\nInstead of:\n   CREATE TABLE ");
    s.append(table);
    s.append(" (");
    s.append(column);
    s.append(" ");
    s.append(kind);
    s.append(" PRIMARY KEY);\n\nUse:\n   CREATE TABLE ");
    s.append(table);
    s.append(" (");
    s.append(column);
    s.append(" BIGINT PRIMARY KEY);\n\nIf using SERIAL/SMALLSERIAL, use BIGSERIAL instead:\n   ");
    s.append(column);
    s.append(" BIGSERIAL PRIMARY KEY\n\nNote: If this is an intentionally small table (e.g., lookup table with <100 entries), use 'safety-assured' to bypass this check.");
    s
}

/// Why a TIMESTAMP column is discouraged.
pub open spec fn timestamp_problem(column: Seq<char>) -> Seq<char> {
    "Column '"@
        + column
        + "' uses TIMESTAMP without time zone. This stores values without timezone context, which can cause issues in multi-timezone applications, during DST transitions, and makes it difficult to determine the actual point in time. This is a best practice warning (no locking impact)."@
}

/// [`timestamp_problem`] is never empty.
pub broadcast proof fn lemma_timestamp_problem_nonempty(column: Seq<char>)
    ensures
        #[trigger] timestamp_problem(column).len() > 0,
{
    reveal_strlit("Column '");
}

/// Builds [`timestamp_problem`].
pub fn make_timestamp_problem(column: &str) -> (r: String)
    ensures
        r@ == timestamp_problem(column@),
{
    let mut s = owned("Column '");
    s.append(column);
    s.append("' uses TIMESTAMP without time zone. This stores values without timezone context, which can cause issues in multi-timezone applications, during DST transitions, and makes it difficult to determine the actual point in time. This is a best practice warning (no locking impact).");
    s
}

/// What to add instead of a TIMESTAMP column.
pub open spec fn timestamp_alter_alternative(table: Seq<char>, column: Seq<char>) -> Seq<char> {
    "Use TIMESTAMPTZ instead of TIMESTAMP:\n\n1. Replace TIMESTAMP with TIMESTAMPTZ:\n   ALTER TABLE "@
        + table
        + " ADD COLUMN "@
        + column
        + " TIMESTAMPTZ;\n\n2. If you intentionally need timezone-naive timestamps, use a safety-assured block:\n   -- safety-assured:start\n   ALTER TABLE "@
        + table
        + " ADD COLUMN "@
        + column
        + " TIMESTAMP;\n   -- safety-assured:end"@
}

/// [`timestamp_alter_alternative`] is never empty.
pub broadcast proof fn lemma_timestamp_alter_alternative_nonempty(table: Seq<char>, column: Seq<char>)
    ensures
        #[trigger] timestamp_alter_alternative(table, column).len() > 0,
{
    reveal_strlit("Use TIMESTAMPTZ instead of TIMESTAMP:\n\n1. Replace TIMESTAMP with TIMESTAMPTZ:\n   ALTER TABLE ");
}

/// Builds [`timestamp_alter_alternative`].
pub fn make_timestamp_alter_alternative(table: &str, column: &str) -> (r: String)
    ensures
        r@ == timestamp_alter_alternative(table@, column@),
{
    let mut s = owned("Use TIMESTAMPTZ instead of TIMESTAMP:\n\n1. Replace TIMESTAMP with TIMESTAMPTZ:\n   ALTER TABLE ");
    s.append(table);
    s.append(" ADD COLUMN ");
    s.append(column);
    s.append(" TIMESTAMPTZ;\n\n2. If you intentionally need timezone-naive timestamps, use a safety-assured block:\n   -- safety-assured:start\n   ALTER TABLE ");
    s.append(table);
    s.append(" ADD COLUMN ");
    s.append(column);
    s.append(" TIMESTAMP;\n   -- safety-assured:end");
    s
}

/// What to declare instead of a TIMESTAMP column.
pub open spec fn timestamp_create_alternative(table: Seq<char>, column: Seq<char>) -> Seq<char> {
    "Use TIMESTAMPTZ instead of TIMESTAMP:\n\n1. Replace TIMESTAMP with TIMESTAMPTZ:\n   CREATE TABLE "@
        + table
        + " (\n       "@
        + column
        + " TIMESTAMPTZ\n   );\n\n2. If you intentionally need timezone-naive timestamps, use a safety-assured block:\n   -- safety-assured:start\n   CREATE TABLE "@
        + table
        + " (\n       "@
        + column
        + " TIMESTAMP\n   );\n   -- safety-assured:end"@
}

/// [`timestamp_create_alternative`] is never empty.
pub broadcast proof fn lemma_timestamp_create_alternative_nonempty(table: Seq<char>, column: Seq<char>)
    ensures
        #[trigger] timestamp_create_alternative(table, column).len() > 0,
{
    reveal_strlit("Use TIMESTAMPTZ instead of TIMESTAMP:\n\n1. Replace TIMESTAMP with TIMESTAMPTZ:\n   CREATE TABLE ");
}

/// Builds [`timestamp_create_alternative`].
pub fn make_timestamp_create_alternative(table: &str, column: &str) -> (r: String)
    ensures
        r@ == timestamp_create_alternative(table@, column@),
{
    let mut s = owned("Use TIMESTAMPTZ instead of TIMESTAMP:\n\n1. Replace TIMESTAMP with TIMESTAMPTZ:\n   CREATE TABLE ");
    s.append(table);
    s.append(" (\n       ");
    s.append(column);
    s.append(" TIMESTAMPTZ\n   );\n\n2. If you intentionally need timezone-naive timestamps, use a safety-assured block:\n   -- safety-assured:start\n   CREATE TABLE ");
    s.append(table);
    s.append(" (\n       ");
    s.append(column);
    s.append(" TIMESTAMP\n   );\n   -- safety-assured:end");
    s
}

/// Why an unnamed constraint is discouraged.
pub open spec fn unnamed_problem(kind: Seq<char>, table: Seq<char>) -> Seq<char> {
    "Adding unnamed "@
        + kind
        + " constraint on table '"@
        + table
        + "' will receive an auto-generated name from Postgres. This makes future migrations difficult, as the generated name varies between databases and requires querying the database to find the constraint name before modifying or dropping it."@
}

/// [`unnamed_problem`] is never empty.
pub broadcast proof fn lemma_unnamed_problem_nonempty(kind: Seq<char>, table: Seq<char>)
    ensures
        #[trigger] unnamed_problem(kind, table).len() > 0,
{
    reveal_strlit("Adding unnamed ");
}

/// Builds [`unnamed_problem`].
pub fn make_unnamed_problem(kind: &str, table: &str) -> (r: String)
    ensures
        r@ == unnamed_problem(kind@, table@),
{
    let mut s = owned("Adding unnamed ");
    s.append(kind);
    s.append(" constraint on table '");
    s.append(table);
    s.append("' will receive an auto-generated name from Postgres. This makes future migrations difficult, as the generated name varies between databases and requires querying the database to find the constraint name before modifying or dropping it.");
    s
}

/// How to name a constraint.
pub open spec fn unnamed_alternative(table: Seq<char>, kind: Seq<char>, columns: Seq<char>, suggested: Seq<char>) -> Seq<char> {
    "Always name constraints explicitly using the CONSTRAINT keyword:\n\nInstead of:\n   ALTER TABLE "@
        + table
        + " ADD "@
        + kind
        + " "@
        + columns
        + ";\n\nUse:\n   ALTER TABLE "@
        + table
        + " ADD CONSTRAINT "@
        + table
        + "_"@
        + suggested
        + " "@
        + kind
        + " "@
        + columns
        + ";\n\nNamed constraints make future migrations predictable and maintainable:\n   ALTER TABLE "@
        + table
        + " DROP CONSTRAINT "@
        + table
        + "_"@
        + suggested
        + ";"@
}

/// [`unnamed_alternative`] is never empty.
pub broadcast proof fn lemma_unnamed_alternative_nonempty(table: Seq<char>, kind: Seq<char>, columns: Seq<char>, suggested: Seq<char>)
    ensures
        #[trigger] unnamed_alternative(table, kind, columns, suggested).len() > 0,
{
    reveal_strlit("Always name constraints explicitly using the CONSTRAINT keyword:\n\nInstead of:\n   ALTER TABLE ");
}

/// Builds [`unnamed_alternative`].
pub fn make_unnamed_alternative(table: &str, kind: &str, columns: &str, suggested: &str) -> (r: String)
    ensures
        r@ == unnamed_alternative(table@, kind@, columns@, suggested@),
{
    let mut s = owned("Always name constraints explicitly using the CONSTRAINT keyword:\n\nInstead of:\n   ALTER TABLE ");
    s.append(table);
    s.append(" ADD ");
    s.append(kind);
    s.append(" ");
    s.append(columns);
    s.append(";\n\nUse:\n   ALTER TABLE ");
    s.append(table);
    s.append(" ADD CONSTRAINT ");
    s.append(table);
    s.append("_");
    s.append(suggested);
    s.append(" ");
    s.append(kind);
    s.append(" ");
    s.append(columns);
    s.append(";\n\nNamed constraints make future migrations predictable and maintainable:\n   ALTER TABLE ");
    s.append(table);
    s.append(" DROP CONSTRAINT ");
    s.append(table);
    s.append("_");
    s.append(suggested);
    s.append(";");
    s
}

/// How an unnamed FOREIGN KEY is shown.
pub open spec fn foreign_key_columns(fk_columns: Seq<char>, ref_table: Seq<char>, ref_columns: Seq<char>) -> Seq<char> {
    "("@
        + fk_columns
        + ") REFERENCES "@
        + ref_table
        + "("@
        + ref_columns
        + ")"@
}

/// [`foreign_key_columns`] is never empty.
pub broadcast proof fn lemma_foreign_key_columns_nonempty(fk_columns: Seq<char>, ref_table: Seq<char>, ref_columns: Seq<char>)
    ensures
        #[trigger] foreign_key_columns(fk_columns, ref_table, ref_columns).len() > 0,
{
    reveal_strlit("(");
}

/// Builds [`foreign_key_columns`].
pub fn make_foreign_key_columns(fk_columns: &str, ref_table: &str, ref_columns: &str) -> (r: String)
    ensures
        r@ == foreign_key_columns(fk_columns@, ref_table@, ref_columns@),
{
    let mut s = owned("(");
    s.append(fk_columns);
    s.append(") REFERENCES ");
    s.append(ref_table);
    s.append("(");
    s.append(ref_columns);
    s.append(")");
    s
}

/// Why a wide index is discouraged.
pub open spec fn wide_problem(index: Seq<char>, table: Seq<char>, count: Seq<char>, columns: Seq<char>) -> Seq<char> {
    "Index '"@
        + index
        + "' on table '"@
        + table
        + "' has "@
        + count
        + " columns ("@
        + columns
        + "). Wide indexes (4+ columns) are rarely effective because Postgres can only use them efficiently when filtering on leftmost columns in order. They also increase storage costs and slow down writes."@
}

/// [`wide_problem`] is never empty.
pub broadcast proof fn lemma_wide_problem_nonempty(index: Seq<char>, table: Seq<char>, count: Seq<char>, columns: Seq<char>)
    ensures
        #[trigger] wide_problem(index, table, count, columns).len() > 0,
{
    reveal_strlit("Index '");
}

/// Builds [`wide_problem`].
pub fn make_wide_problem(index: &str, table: &str, count: &str, columns: &str) -> (r: String)
    ensures
        r@ == wide_problem(index@, table@, count@, columns@),
{
    let mut s = owned("Index '");
    s.append(index);
    s.append("' on table '");
    s.append(table);
    s.append("' has ");
    s.append(count);
    s.append(" columns (");
    s.append(columns);
    s.append("). Wide indexes (4+ columns) are rarely effective because Postgres can only use them efficiently when filtering on leftmost columns in order. They also increase storage costs and slow down writes.");
    s
}

/// What to use instead of a wide index.
pub open spec fn wide_alternative(index: Seq<char>, table: Seq<char>, first: Seq<char>, second: Seq<char>, count: Seq<char>, others: Seq<char>) -> Seq<char> {
    "Consider these alternatives:\n\n1. Use a partial index for specific query patterns:\n   CREATE INDEX "@
        + index
        + " ON "@
        + table
        + "("@
        + first
        + ")\n   WHERE <condition>;\n\n2. Create separate narrower indexes for different queries:\n   CREATE INDEX idx_"@
        + table
        + "_"@
        + first
        + " ON "@
        + table
        + "("@
        + first
        + ");\n   CREATE INDEX idx_"@
        + table
        + "_"@
        + second
        + " ON "@
        + table
        + "("@
        + second
        + ");\n\n3. Rethink your query patterns - do you really need to filter on all "@
        + count
        + " columns?\n\n4. Use a covering index (INCLUDE clause) if you need extra columns for data:\n   CREATE INDEX "@
        + index
        + " ON "@
        + table
        + "("@
        + first
        + ")\n   INCLUDE ("@
        + others
        + ");"@
}

/// [`wide_alternative`] is never empty.
pub broadcast proof fn lemma_wide_alternative_nonempty(index: Seq<char>, table: Seq<char>, first: Seq<char>, second: Seq<char>, count: Seq<char>, others: Seq<char>)
    ensures
        #[trigger] wide_alternative(index, table, first, second, count, others).len() > 0,
{
    reveal_strlit("Consider these alternatives:\n\n1. Use a partial index for specific query patterns:\n   CREATE INDEX ");
}

/// Builds [`wide_alternative`].
pub fn make_wide_alternative(index: &str, table: &str, first: &str, second: &str, count: &str, others: &str) -> (r: String)
    ensures
        r@ == wide_alternative(index@, table@, first@, second@, count@, others@),
{
    let mut s = owned("Consider these alternatives:\n\n1. Use a partial index for specific query patterns:\n   CREATE INDEX ");
    s.append(index);
    s.append(" ON ");
    s.append(table);
    s.append("(");
    s.append(first);
    s.append(")\n   WHERE <condition>;\n\n2. Create separate narrower indexes for different queries:\n   CREATE INDEX idx_");
    s.append(table);
    s.append("_");
    s.append(first);
    s.append(" ON ");
    s.append(table);
    s.append("(");
    s.append(first);
    s.append(");\n   CREATE INDEX idx_");
    s.append(table);
    s.append("_");
    s.append(second);
    s.append(" ON ");
    s.append(table);
    s.append("(");
    s.append(second);
    s.append(");\n\n3. Rethink your query patterns - do you really need to filter on all ");
    s.append(count);
    s.append(" columns?\n\n4. Use a covering index (INCLUDE clause) if you need extra columns for data:\n   CREATE INDEX ");
    s.append(index);
    s.append(" ON ");
    s.append(table);
    s.append("(");
    s.append(first);
    s.append(")\n   INCLUDE (");
    s.append(others);
    s.append(");");
    s
}

/// Why creating an index without CONCURRENTLY is unsafe.
pub open spec fn add_index_problem(unique: Seq<char>, index: Seq<char>, table: Seq<char>) -> Seq<char> {
    "Creating "@
        + unique
        + "index '"@
        + index
        + "' on table '"@
        + table
        + "' without CONCURRENTLY acquires a SHARE lock, blocking writes (INSERT, UPDATE, DELETE) until complete. Duration depends on table size."@
}

/// [`add_index_problem`] is never empty.
pub broadcast proof fn lemma_add_index_problem_nonempty(unique: Seq<char>, index: Seq<char>, table: Seq<char>)
    ensures
        #[trigger] add_index_problem(unique, index, table).len() > 0,
{
    reveal_strlit("Creating ");
}

/// Builds [`add_index_problem`].
pub fn make_add_index_problem(unique: &str, index: &str, table: &str) -> (r: String)
    ensures
        r@ == add_index_problem(unique@, index@, table@),
{
    let mut s = owned("Creating ");
    s.append(unique);
    s.append("index '");
    s.append(index);
    s.append("' on table '");
    s.append(table);
    s.append("' without CONCURRENTLY acquires a SHARE lock, blocking writes (INSERT, UPDATE, DELETE) until complete. Duration depends on table size.");
    s
}

/// How to create an index safely.
pub open spec fn add_index_alternative(unique: Seq<char>, index: Seq<char>, table: Seq<char>, columns: Seq<char>) -> Seq<char> {
    "Use CONCURRENTLY to build the index without blocking writes:\n   CREATE "@
        + unique
        + "INDEX CONCURRENTLY "@
        + index
        + " ON "@
        + table
        + " ("@
        + columns
        + ");\n\nNote: CONCURRENTLY cannot run inside a transaction block.\n\nFor Diesel migrations:\n   run_in_transaction = false (in metadata.toml)\n\nFor SQLx migrations:\n   -- no-transaction (at the top of the file)"@
}

/// [`add_index_alternative`] is never empty.
pub broadcast proof fn lemma_add_index_alternative_nonempty(unique: Seq<char>, index: Seq<char>, table: Seq<char>, columns: Seq<char>)
    ensures
        #[trigger] add_index_alternative(unique, index, table, columns).len() > 0,
{
    reveal_strlit("Use CONCURRENTLY to build the index without blocking writes:\n   CREATE ");
}

/// Builds [`add_index_alternative`].
pub fn make_add_index_alternative(unique: &str, index: &str, table: &str, columns: &str) -> (r: String)
    ensures
        r@ == add_index_alternative(unique@, index@, table@, columns@),
{
    let mut s = owned("Use CONCURRENTLY to build the index without blocking writes:\n   CREATE ");
    s.append(unique);
    s.append("INDEX CONCURRENTLY ");
    s.append(index);
    s.append(" ON ");
    s.append(table);
    s.append(" (");
    s.append(columns);
    s.append(");\n\nNote: CONCURRENTLY cannot run inside a transaction block.\n\nFor Diesel migrations:\n   run_in_transaction = false (in metadata.toml)\n\nFor SQLx migrations:\n   -- no-transaction (at the top of the file)");
    s
}

/// Why adding a primary key in place is unsafe.
pub open spec fn add_pk_problem(table: Seq<char>, columns: Seq<char>) -> Seq<char> {
    "Adding PRIMARY KEY on table '"@
        + table
        + "' ("@
        + columns
        + ") via ALTER TABLE builds a unique index under an ACCESS EXCLUSIVE lock, blocking all reads and writes until complete. Duration depends on table size."@
}

/// [`add_pk_problem`] is never empty.
pub broadcast proof fn lemma_add_pk_problem_nonempty(table: Seq<char>, columns: Seq<char>)
    ensures
        #[trigger] add_pk_problem(table, columns).len() > 0,
{
    reveal_strlit("Adding PRIMARY KEY on table '");
}

/// Builds [`add_pk_problem`].
pub fn make_add_pk_problem(table: &str, columns: &str) -> (r: String)
    ensures
        r@ == add_pk_problem(table@, columns@),
{
    let mut s = owned("Adding PRIMARY KEY on table '");
    s.append(table);
    s.append("' (");
    s.append(columns);
    s.append(") via ALTER TABLE builds a unique index under an ACCESS EXCLUSIVE lock, blocking all reads and writes until complete. Duration depends on table size.");
    s
}

/// How to add a primary key safely.
pub open spec fn add_pk_alternative(table: Seq<char>, columns: Seq<char>, index: Seq<char>) -> Seq<char> {
    "Build the index first, then attach it:\n\n1. Create a unique index concurrently:\n   CREATE UNIQUE INDEX CONCURRENTLY "@
        + index
        + " ON "@
        + table
        + " ("@
        + columns
        + ");\n\n2. Add the primary key using the existing index:\n   ALTER TABLE "@
        + table
        + " ADD CONSTRAINT "@
        + index
        + " PRIMARY KEY USING INDEX "@
        + index
        + ";\n\nNote: CONCURRENTLY cannot run inside a transaction block."@
}

/// [`add_pk_alternative`] is never empty.
pub broadcast proof fn lemma_add_pk_alternative_nonempty(table: Seq<char>, columns: Seq<char>, index: Seq<char>)
    ensures
        #[trigger] add_pk_alternative(table, columns, index).len() > 0,
{
    reveal_strlit("Build the index first, then attach it:\n\n1. Create a unique index concurrently:\n   CREATE UNIQUE INDEX CONCURRENTLY ");
}

/// Builds [`add_pk_alternative`].
pub fn make_add_pk_alternative(table: &str, columns: &str, index: &str) -> (r: String)
    ensures
        r@ == add_pk_alternative(table@, columns@, index@),
{
    let mut s = owned("Build the index first, then attach it:\n\n1. Create a unique index concurrently:\n   CREATE UNIQUE INDEX CONCURRENTLY ");
    s.append(index);
    s.append(" ON ");
    s.append(table);
    s.append(" (");
    s.append(columns);
    s.append(");\n\n2. Add the primary key using the existing index:\n   ALTER TABLE ");
    s.append(table);
    s.append(" ADD CONSTRAINT ");
    s.append(index);
    s.append(" PRIMARY KEY USING INDEX ");
    s.append(index);
    s.append(";\n\nNote: CONCURRENTLY cannot run inside a transaction block.");
    s
}

/// Why truncating a table is dangerous.
pub open spec fn truncate_problem(table: Seq<char>) -> Seq<char> {
    "Truncating table '"@
        + table
        + "' permanently deletes all rows and acquires an ACCESS EXCLUSIVE lock, blocking all operations. This cannot be undone after the transaction commits."@
}

/// [`truncate_problem`] is never empty.
pub broadcast proof fn lemma_truncate_problem_nonempty(table: Seq<char>)
    ensures
        #[trigger] truncate_problem(table).len() > 0,
{
    reveal_strlit("Truncating table '");
}

/// Builds [`truncate_problem`].
pub fn make_truncate_problem(table: &str) -> (r: String)
    ensures
        r@ == truncate_problem(table@),
{
    let mut s = owned("Truncating table '");
    s.append(table);
    s.append("' permanently deletes all rows and acquires an ACCESS EXCLUSIVE lock, blocking all operations. This cannot be undone after the transaction commits.");
    s
}

/// What to do instead of truncating a table in a migration.
pub open spec fn truncate_alternative(table: Seq<char>) -> Seq<char> {
    "TRUNCATE should rarely appear in migrations.\n\nTo remove rows without blocking, delete them in batches outside the migration:\n   DELETE FROM "@
        + table
        + " WHERE id IN (SELECT id FROM "@
        + table
        + " LIMIT 1000);\n\nIf this is intentional, use a safety-assured block:\n   -- safety-assured:start\n   TRUNCATE "@
        + table
        + ";\n   -- safety-assured:end"@
}

/// [`truncate_alternative`] is never empty.
pub broadcast proof fn lemma_truncate_alternative_nonempty(table: Seq<char>)
    ensures
        #[trigger] truncate_alternative(table).len() > 0,
{
    reveal_strlit("TRUNCATE should rarely appear in migrations.\n\nTo remove rows without blocking, delete them in batches outside the migration:\n   DELETE FROM ");
}

/// Builds [`truncate_alternative`].
pub fn make_truncate_alternative(table: &str) -> (r: String)
    ensures
        r@ == truncate_alternative(table@),
{
    let mut s = owned("TRUNCATE should rarely appear in migrations.\n\nTo remove rows without blocking, delete them in batches outside the migration:\n   DELETE FROM ");
    s.append(table);
    s.append(" WHERE id IN (SELECT id FROM ");
    s.append(table);
    s.append(" LIMIT 1000);\n\nIf this is intentional, use a safety-assured block:\n   -- safety-assured:start\n   TRUNCATE ");
    s.append(table);
    s.append(";\n   -- safety-assured:end");
    s
}

/// A script result of an unexpected type.
pub open spec fn script_type_problem(type_desc: Seq<char>) -> Seq<char> {
    "Custom check returned "@
        + type_desc
        + ", expected (), map, or array"@
}

/// [`script_type_problem`] is never empty.
pub broadcast proof fn lemma_script_type_problem_nonempty(type_desc: Seq<char>)
    ensures
        #[trigger] script_type_problem(type_desc).len() > 0,
{
    reveal_strlit("Custom check returned ");
}

/// Builds [`script_type_problem`].
pub fn make_script_type_problem(type_desc: &str) -> (r: String)
    ensures
        r@ == script_type_problem(type_desc@),
{
    let mut s = owned("Custom check returned ");
    s.append(type_desc);
    s.append(", expected (), map, or array");
    s
}

/// A script record that lacks a required key.
pub open spec fn script_keys_problem(keys: Seq<char>) -> Seq<char> {
    "Custom check returned a map missing required keys (need 'operation', 'problem', 'safe_alternative' as non-empty strings), got keys: ["@
        + keys
        + "]"@
}

/// [`script_keys_problem`] is never empty.
pub broadcast proof fn lemma_script_keys_problem_nonempty(keys: Seq<char>)
    ensures
        #[trigger] script_keys_problem(keys).len() > 0,
{
    reveal_strlit("Custom check returned a map missing required keys (need 'operation', 'problem', 'safe_alternative' as non-empty strings), got keys: [");
}

/// Builds [`script_keys_problem`].
pub fn make_script_keys_problem(keys: &str) -> (r: String)
    ensures
        r@ == script_keys_problem(keys@),
{
    let mut s = owned("Custom check returned a map missing required keys (need 'operation', 'problem', 'safe_alternative' as non-empty strings), got keys: [");
    s.append(keys);
    s.append("]");
    s
}

/// A script array with a malformed element.
pub open spec fn script_array_problem(index: Seq<char>, shape: Seq<char>) -> Seq<char> {
    "Custom check returned an array whose element "@
        + index
        + " is "@
        + shape
        + ", expected maps with non-empty 'operation', 'problem' and 'safe_alternative'"@
}

/// [`script_array_problem`] is never empty.
pub broadcast proof fn lemma_script_array_problem_nonempty(index: Seq<char>, shape: Seq<char>)
    ensures
        #[trigger] script_array_problem(index, shape).len() > 0,
{
    reveal_strlit("Custom check returned an array whose element ");
}

/// Builds [`script_array_problem`].
pub fn make_script_array_problem(index: &str, shape: &str) -> (r: String)
    ensures
        r@ == script_array_problem(index@, shape@),
{
    let mut s = owned("Custom check returned an array whose element ");
    s.append(index);
    s.append(" is ");
    s.append(shape);
    s.append(", expected maps with non-empty 'operation', 'problem' and 'safe_alternative'");
    s
}

/// How a malformed record in an array is described.
pub open spec fn record_shape(keys: Seq<char>) -> Seq<char> {
    "a map with keys ["@
        + keys
        + "]"@
}

/// [`record_shape`] is never empty.
pub broadcast proof fn lemma_record_shape_nonempty(keys: Seq<char>)
    ensures
        #[trigger] record_shape(keys).len() > 0,
{
    reveal_strlit("a map with keys [");
}

/// Builds [`record_shape`].
pub fn make_record_shape(keys: &str) -> (r: String)
    ensures
        r@ == record_shape(keys@),
{
    let mut s = owned("a map with keys [");
    s.append(keys);
    s.append("]");
    s
}

/// The operation of a violation that reports a malformed script result.
pub open spec fn script_error_operation(check: Seq<char>) -> Seq<char> {
    "SCRIPT ERROR: "@
        + check
}

/// [`script_error_operation`] is never empty.
pub broadcast proof fn lemma_script_error_operation_nonempty(check: Seq<char>)
    ensures
        #[trigger] script_error_operation(check).len() > 0,
{
    reveal_strlit("SCRIPT ERROR: ");
}

/// Builds [`script_error_operation`].
pub fn make_script_error_operation(check: &str) -> (r: String)
    ensures
        r@ == script_error_operation(check@),
{
    let mut s = owned("SCRIPT ERROR: ");
    s.append(check);
    s
}

/// Every message text is non-empty.
pub broadcast group group_messages_nonempty {
    lemma_add_serial_problem_nonempty,
    lemma_add_serial_alternative_nonempty,
    lemma_unique_problem_nonempty,
    lemma_unique_alternative_nonempty,
    lemma_alter_type_problem_nonempty,
    lemma_alter_type_alternative_nonempty,
    lemma_char_problem_nonempty,
    lemma_char_alter_alternative_nonempty,
    lemma_char_create_alternative_nonempty,
    lemma_drop_column_problem_nonempty,
    lemma_drop_column_alternative_nonempty,
    lemma_drop_database_problem_nonempty,
    lemma_drop_database_alternative_nonempty,
    lemma_drop_index_problem_nonempty,
    lemma_drop_index_alternative_nonempty,
    lemma_drop_table_problem_nonempty,
    lemma_drop_table_alternative_nonempty,
    lemma_generated_problem_nonempty,
    lemma_generated_alternative_nonempty,
    lemma_reindex_problem_nonempty,
    lemma_reindex_alternative_nonempty,
    lemma_short_int_problem_nonempty,
    lemma_short_int_alternative_nonempty,
    lemma_timestamp_problem_nonempty,
    lemma_timestamp_alter_alternative_nonempty,
    lemma_timestamp_create_alternative_nonempty,
    lemma_unnamed_problem_nonempty,
    lemma_unnamed_alternative_nonempty,
    lemma_foreign_key_columns_nonempty,
    lemma_wide_problem_nonempty,
    lemma_wide_alternative_nonempty,
    lemma_add_index_problem_nonempty,
    lemma_add_index_alternative_nonempty,
    lemma_add_pk_problem_nonempty,
    lemma_add_pk_alternative_nonempty,
    lemma_truncate_problem_nonempty,
    lemma_truncate_alternative_nonempty,
    lemma_script_type_problem_nonempty,
    lemma_script_keys_problem_nonempty,
    lemma_script_array_problem_nonempty,
    lemma_record_shape_nonempty,
    lemma_script_error_operation_nonempty,
}

} // verus!
