//! Migration naming and marker conventions: timestamps in migration names,
//! the `start_after` filter, SQLx directives and up/down sections.
use vstd::prelude::*;
use vstd::string::StringExecFns;
use crate::config::Config;
use crate::patterns::{
    ascii_ieq, captures_all, captures_view, eq_ignore_ascii_case, group, group_at, groups_view,
    is_match, lower_of, regex_captures, regex_matches, to_lower, trim_of, trimmed,
};
use crate::text::owned;

verus! {

/// Diesel timestamps: `YYYY_MM_DD_HHMMSS`, `YYYY-MM-DD-HHMMSS` or
/// `YYYYMMDDHHMMSS`, at the start of a name.
pub const MIGRATION_TIMESTAMP_PATTERN: &'static str = r"^(\d{4}_\d{2}_\d{2}_\d{6}|\d{4}-\d{2}-\d{2}-\d{6}|\d{14})";

/// SQLx timestamps: fourteen digits at the start of a name.
pub const SQLX_TIMESTAMP_PATTERN: &'static str = r"^(\d{14})(_|\.)?";

/// CREATE, DROP or REINDEX INDEX CONCURRENTLY.
pub const CONCURRENTLY_PATTERN: &'static str = r"(?i)\b(CREATE|DROP|REINDEX)\s+INDEX\s+CONCURRENTLY\b";

/// `-- migrate:up` or `-- migrate:down`.
pub const MIGRATE_MARKER_PATTERN: &'static str = r"(?i)--\s*migrate:(up|down)";

/// The direction of a migration.
#[derive(PartialEq, Eq, Structural, Clone, Copy, Debug)]
pub enum MigrationDirection {
    Up,
    Down,
}

/// What the directives of a SQLx migration ask for.
#[derive(PartialEq, Eq, Structural, Clone, Copy, Debug, Default)]
pub struct MigrationMetadata {
    /// `-- migrate:no-transaction`.
    pub requires_no_transaction: bool,
}

/// One SQL file of a migration, to be checked in one direction.
#[derive(Debug, Clone)]
pub struct MigrationFile {
    /// Path of the SQL file.
    pub path: String,
    /// Timestamp taken from the migration's name.
    pub timestamp: String,
    pub direction: MigrationDirection,
    /// Whether the migration runs outside a transaction.
    pub requires_no_transaction: bool,
}

impl MigrationFile {
    /// An up migration that runs in a transaction.
    pub fn new(path: String, timestamp: String) -> (r: MigrationFile)
        ensures
            r.path@ == path@,
            r.timestamp@ == timestamp@,
            r.direction == MigrationDirection::Up,
            !r.requires_no_transaction,
    {
        MigrationFile { path, timestamp, direction: MigrationDirection::Up, requires_no_transaction: false }
    }

    /// The same file, in the given direction.
    pub fn with_direction(self, direction: MigrationDirection) -> (r: MigrationFile)
        ensures
            r == (MigrationFile { direction, ..self }),
    {
        MigrationFile { direction, ..self }
    }

    /// The same file, run outside a transaction or not.
    pub fn with_no_transaction(self, no_transaction: bool) -> (r: MigrationFile)
        ensures
            r == (MigrationFile { requires_no_transaction: no_transaction, ..self }),
    {
        MigrationFile { requires_no_transaction: no_transaction, ..self }
    }
}

/// Whether a character separates the parts of a timestamp.
pub open spec fn is_separator(c: char) -> bool {
    c == '_' || c == '-'
}

/// The text without its separators.
pub open spec fn strip_spec(s: Seq<char>) -> Seq<char>
    decreases s.len(),
{
    if s.len() == 0 {
        Seq::empty()
    } else {
        strip_spec(s.drop_last()) + (if is_separator(s.last()) { Seq::empty() } else { seq![s.last()] })
    }
}

/// A timestamp without its separators.
pub fn normalize_timestamp(s: &str) -> (r: String)
    ensures
        r@ == strip_spec(s@),
{
    let n = s.unicode_len();
    let mut out = String::new();
    let mut i: usize = 0;
    while i < n
        invariant
            n == s@.len(),
            i <= n,
            out@ == strip_spec(s@.subrange(0, i as int)),
        decreases n - i,
    {
        proof {
            assert(s@.subrange(0, i as int + 1).drop_last() =~= s@.subrange(0, i as int));
        }
        let c = s.get_char(i);
        if c != '_' && c != '-' {
            let piece = s.substring_char(i, i + 1);
            proof {
                assert(piece@ =~= seq![c]);
            }
            out.append(piece);
        } else {
            proof {
                assert(out@ + Seq::<char>::empty() =~= out@);
            }
        }
        i = i + 1;
    }
    proof {
        assert(s@.subrange(0, n as int) =~= s@);
    }
    out
}

/// How `a` compares with `b` from position `i` on, character by character:
/// -1, 0 or 1.
pub open spec fn lex_cmp(a: Seq<char>, b: Seq<char>, i: int) -> int
    decreases a.len() - i,
{
    if i < 0 || i >= a.len() {
        if i >= 0 && i < b.len() { -1 } else { 0 }
    } else if i >= b.len() {
        1
    } else if (a[i] as u32) < (b[i] as u32) {
        -1
    } else if (a[i] as u32) > (b[i] as u32) {
        1
    } else {
        lex_cmp(a, b, i + 1)
    }
}

/// Whether `a` comes after `b` in lexicographic order.
pub open spec fn lex_greater(a: Seq<char>, b: Seq<char>) -> bool {
    lex_cmp(a, b, 0) == 1
}

/// Whether `a` comes after `b` in lexicographic order.
pub fn greater(a: &str, b: &str) -> (r: bool)
    ensures
        r == lex_greater(a@, b@),
{
    let n = a.unicode_len();
    let m = b.unicode_len();
    let mut i: usize = 0;
    while i < n
        invariant
            n == a@.len(),
            m == b@.len(),
            i <= n,
            lex_cmp(a@, b@, 0) == lex_cmp(a@, b@, i as int),
        decreases n - i,
    {
        if i >= m {
            return true;
        }
        let x = a.get_char(i) as u32;
        let y = b.get_char(i) as u32;
        if x < y {
            return false;
        }
        if x > y {
            return true;
        }
        i = i + 1;
    }
    false
}

/// Whether a migration with this timestamp is checked: always without a
/// `start_after` filter, otherwise when it comes strictly after the filter,
/// separators ignored.
pub open spec fn after_filter(start_after: Option<Seq<char>>, timestamp: Seq<char>) -> bool {
    match start_after {
        None => true,
        Some(s) => lex_greater(strip_spec(timestamp), strip_spec(s)),
    }
}

/// Whether a migration with this timestamp is checked under `start_after`.
pub fn should_check_migration(start_after: Option<&str>, migration_timestamp: &str) -> (r: bool)
    ensures
        r == after_filter(
            match start_after {
                Some(s) => Some(s@),
                None => None,
            },
            migration_timestamp@,
        ),
{
    match start_after {
        None => true,
        Some(s) => {
            let start = normalize_timestamp(s);
            let mine = normalize_timestamp(migration_timestamp);
            greater(mine.as_str(), start.as_str())
        },
    }
}

/// The first capture group of the first match of a pattern, if any.
pub open spec fn first_group(pattern: Seq<char>, text: Seq<char>, i: int) -> Option<Seq<char>> {
    let all = regex_captures(pattern, text);
    if all.len() == 0 {
        None
    } else {
        group(all[0], i)
    }
}

fn first_group_of(pattern: &str, text: &str, i: usize) -> (r: Option<String>)
    ensures
        r matches Some(s) ==> first_group(pattern@, text@, i as int) == Some(s@),
        r is None ==> first_group(pattern@, text@, i as int) is None,
{
    let all = captures_all(pattern, text);
    if all.len() == 0 {
        None
    } else {
        proof {
            assert(captures_view(all@)[0] == groups_view(all@[0]@));
        }
        group_at(&all[0], i)
    }
}

impl Config {
    /// Whether the migration of the named directory is checked: always
    /// without a `start_after` filter or when no timestamp starts the name;
    /// otherwise when its timestamp comes strictly after the filter.
    pub open spec fn checks_migration(&self, name: Seq<char>) -> bool {
        match self.start_after {
            None => true,
            Some(s) => match first_group(MIGRATION_TIMESTAMP_PATTERN@, name, 1) {
                None => true,
                Some(t) => lex_greater(strip_spec(t), strip_spec(s@)),
            },
        }
    }

    /// Whether the migration of the named directory is checked.
    pub fn should_check_migration(&self, migration_dir_name: &str) -> (r: bool)
        ensures
            r == self.checks_migration(migration_dir_name@),
    {
        match &self.start_after {
            None => true,
            Some(s) => match first_group_of(MIGRATION_TIMESTAMP_PATTERN, migration_dir_name, 1) {
                None => true,
                Some(t) => {
                    let mine = normalize_timestamp(t.as_str());
                    let start = normalize_timestamp(s.as_str());
                    greater(mine.as_str(), start.as_str())
                },
            },
        }
    }
}

/// Diesel's conventions.
pub struct DieselAdapter;

/// SQLx's conventions.
pub struct SqlxAdapter;

impl DieselAdapter {
    /// The framework's name.
    pub fn name(&self) -> (r: &'static str)
        ensures
            r@ == "diesel"@,
    {
        "diesel"
    }

    /// The timestamp that starts a migration name, without separators.
    pub fn parse_timestamp(&self, name: &str) -> (r: Option<String>)
        ensures
            r matches Some(s) ==> first_group(MIGRATION_TIMESTAMP_PATTERN@, name@, 1) matches Some(
                t,
            ) && s@ == strip_spec(t),
            r is None ==> first_group(MIGRATION_TIMESTAMP_PATTERN@, name@, 1) is None,
    {
        match first_group_of(MIGRATION_TIMESTAMP_PATTERN, name, 1) {
            Some(t) => Some(normalize_timestamp(t.as_str())),
            None => None,
        }
    }

    /// Accepts a timestamp that is wholly in one of Diesel's formats.
    pub fn validate_timestamp(&self, timestamp: &str) -> (r: Result<(), String>)
        ensures
            r is Ok <==> first_group(MIGRATION_TIMESTAMP_PATTERN@, timestamp@, 0) == Some(
                timestamp@,
            ),
    {
        match first_group_of(MIGRATION_TIMESTAMP_PATTERN, timestamp, 0) {
            Some(whole) => {
                if whole == owned(timestamp) {
                    return Ok(());
                }
            },
            None => {},
        }
        let mut msg = owned("Invalid Diesel timestamp format: ");
        msg.append(timestamp);
        msg.append(". Expected: YYYYMMDDHHMMSS, YYYY_MM_DD_HHMMSS, or YYYY-MM-DD-HHMMSS");
        Err(msg)
    }
}

/// Whether every character is an ASCII digit.
pub open spec fn all_digits(s: Seq<char>) -> bool {
    forall|i: int| 0 <= i < s.len() ==> '0' <= #[trigger] s[i] && s[i] <= '9'
}

impl SqlxAdapter {
    /// The framework's name.
    pub fn name(&self) -> (r: &'static str)
        ensures
            r@ == "sqlx"@,
    {
        "sqlx"
    }

    /// The fourteen-digit timestamp that starts a migration name.
    pub fn parse_timestamp(&self, name: &str) -> (r: Option<String>)
        ensures
            r matches Some(s) ==> first_group(SQLX_TIMESTAMP_PATTERN@, name@, 1) == Some(s@),
            r is None ==> first_group(SQLX_TIMESTAMP_PATTERN@, name@, 1) is None,
    {
        first_group_of(SQLX_TIMESTAMP_PATTERN, name, 1)
    }

    /// Accepts exactly fourteen ASCII digits.
    pub fn validate_timestamp(&self, timestamp: &str) -> (r: Result<(), String>)
        ensures
            r is Ok <==> (timestamp@.len() == 14 && all_digits(timestamp@)),
    {
        let n = timestamp.unicode_len();
        let mut ok = n == 14;
        let mut i: usize = 0;
        while ok && i < n
            invariant
                n == timestamp@.len(),
                i <= n,
                ok ==> n == 14,
                ok ==> forall|j: int| 0 <= j < i ==> '0' <= #[trigger] timestamp@[j] && timestamp@[j] <= '9',
                !ok ==> !(timestamp@.len() == 14 && all_digits(timestamp@)),
            decreases n - i,
        {
            let c = timestamp.get_char(i);
            if !('0' <= c && c <= '9') {
                ok = false;
            }
            i = i + 1;
        }
        if ok {
            Ok(())
        } else {
            let mut msg = owned("Invalid SQLx timestamp format: ");
            msg.append(timestamp);
            msg.append(". Expected: YYYYMMDDHHMMSS (14 digits)");
            Err(msg)
        }
    }
}

/// Whether the text holds a CREATE, DROP or REINDEX INDEX CONCURRENTLY.
pub fn detect_concurrently_operations(sql: &str) -> (r: bool)
    ensures
        r == regex_matches(CONCURRENTLY_PATTERN@, sql@),
{
    is_match(CONCURRENTLY_PATTERN, sql)
}

/// Whether a migration uses CONCURRENTLY without asking to run outside a
/// transaction, which deserves a warning.
pub fn concurrently_without_directive(sql: &str, metadata: &MigrationMetadata) -> (r: bool)
    ensures
        r == (regex_matches(CONCURRENTLY_PATTERN@, sql@) && !metadata.requires_no_transaction),
{
    detect_concurrently_operations(sql) && !metadata.requires_no_transaction
}

/// Whether one of the matches names the given direction.
pub open spec fn names_direction(all: Seq<Seq<Option<Seq<char>>>>, dir: Seq<char>) -> bool {
    exists|i: int| 0 <= i < all.len() && (#[trigger] group(all[i], 1) matches Some(d) && ascii_ieq(d, dir))
}

fn any_direction(all: &Vec<Vec<Option<String>>>, dir: &str) -> (r: bool)
    ensures
        r == names_direction(captures_view(all@), dir@),
{
    let mut i: usize = 0;
    while i < all.len()
        invariant
            i <= all.len(),
            forall|j: int| 0 <= j < i ==> !(#[trigger] group(captures_view(all@)[j], 1) matches Some(d) && ascii_ieq(d, dir@)),
        decreases all.len() - i,
    {
        proof {
            assert(captures_view(all@)[i as int] == groups_view(all@[i as int]@));
        }
        match group_at(&all[i], 1) {
            Some(d) => {
                if eq_ignore_ascii_case(d.as_str(), dir) {
                    return true;
                }
            },
            None => {},
        }
        i = i + 1;
    }
    false
}

/// Whether the text holds both a `-- migrate:up` and a `-- migrate:down`
/// marker, in any case.
pub fn contains_migrate_markers(content: &str) -> (r: bool)
    ensures
        r == (names_direction(regex_captures(MIGRATE_MARKER_PATTERN@, content@), "up"@)
            && names_direction(regex_captures(MIGRATE_MARKER_PATTERN@, content@), "down"@)),
{
    let all = captures_all(MIGRATE_MARKER_PATTERN, content);
    let has_up = any_direction(&all, "up");
    let has_down = any_direction(&all, "down");
    has_up && has_down
}

/// The first position, from `i` on, at which `pat` occurs in `s`.
pub open spec fn find_from(s: Seq<char>, pat: Seq<char>, i: int) -> Option<int>
    decreases s.len() + 1 - i,
{
    if i < 0 || i + pat.len() > s.len() {
        None
    } else if s.subrange(i, i + pat.len() as int) == pat {
        Some(i)
    } else {
        find_from(s, pat, i + 1)
    }
}

fn occurs_at(s: &str, n: usize, pat: &str, m: usize, i: usize) -> (r: bool)
    requires
        n == s@.len(),
        m == pat@.len(),
        i + m <= n,
    ensures
        r == (s@.subrange(i as int, i + m) == pat@),
{
    let mut j: usize = 0;
    while j < m
        invariant
            n == s@.len(),
            m == pat@.len(),
            i + m <= n,
            j <= m,
            forall|t: int| 0 <= t < j ==> s@[i + t] == pat@[t],
        decreases m - j,
    {
        if s.get_char(i + j) != pat.get_char(j) {
            assert(s@.subrange(i as int, i + m)[j as int] != pat@[j as int]);
            return false;
        }
        j = j + 1;
    }
    assert(s@.subrange(i as int, i + m) =~= pat@);
    true
}

/// The first position, from `start` on, at which `pat` occurs in `s`.
pub fn find_text(s: &str, pat: &str, start: usize) -> (r: Option<usize>)
    ensures
        r matches Some(p) ==> find_from(s@, pat@, start as int) == Some(p as int),
        r is None ==> find_from(s@, pat@, start as int) is None,
{
    let n = s.unicode_len();
    let m = pat.unicode_len();
    if m == 0 {
        if start <= n {
            assert(s@.subrange(start as int, start as int) =~= pat@);
            return Some(start);
        }
        return None;
    }
    let mut i = start;
    while i <= n && n - i >= m
        invariant
            n == s@.len(),
            m == pat@.len(),
            m >= 1,
            start <= i,
            find_from(s@, pat@, start as int) == find_from(s@, pat@, i as int),
        decreases n + 1 - i,
    {
        if occurs_at(s, n, pat, m, i) {
            return Some(i);
        }
        i = i + 1;
    }
    None
}

/// `x` kept within `[lo, hi]`.
pub open spec fn clamp(x: int, lo: int, hi: int) -> int {
    if x < lo { lo } else if x > hi { hi } else { x }
}

/// The up section of a migration: what follows `-- migrate:up`, up to
/// `-- migrate:down` or the end; the whole text when there is no up marker.
/// Markers are found without regard to case; positions are those of the
/// lower-cased text, kept within the text.
pub open spec fn up_section(sql: Seq<char>) -> Seq<char> {
    let l = lower_of(sql);
    match find_from(l, "-- migrate:up"@, 0) {
        None => sql,
        Some(p) => {
            let start = clamp(p + 13, 0, sql.len() as int);
            match find_from(l, "-- migrate:down"@, p + 13) {
                Some(q) => sql.subrange(start, clamp(q, start, sql.len() as int)),
                None => sql.subrange(start, sql.len() as int),
            }
        },
    }
}

/// The down section of a migration: what follows `-- migrate:down`; empty
/// when there is no down marker.
pub open spec fn down_section(sql: Seq<char>) -> Seq<char> {
    match find_from(lower_of(sql), "-- migrate:down"@, 0) {
        None => Seq::empty(),
        Some(p) => sql.subrange(clamp(p + 15, 0, sql.len() as int), sql.len() as int),
    }
}

proof fn lemma_find_bounds(s: Seq<char>, pat: Seq<char>, i: int)
    ensures
        find_from(s, pat, i) matches Some(p) ==> i <= p && p + pat.len() <= s.len(),
    decreases s.len() + 1 - i,
{
    if !(i < 0 || i + pat.len() > s.len()) && s.subrange(i, i + pat.len() as int) != pat {
        lemma_find_bounds(s, pat, i + 1);
    }
}

fn clamp_usize(x: usize, lo: usize, hi: usize) -> (r: usize)
    requires
        lo <= hi,
    ensures
        r as int == clamp(x as int, lo as int, hi as int),
{
    if x < lo { lo } else if x > hi { hi } else { x }
}

/// The up section of a migration.
pub fn extract_up_section(sql: &str) -> (r: String)
    ensures
        r@ == up_section(sql@),
{
    let lower = to_lower(sql);
    let ln = lower.as_str().unicode_len();
    let n = sql.unicode_len();
    match find_text(lower.as_str(), "-- migrate:up", 0) {
        None => owned(sql),
        Some(p) => {
            proof {
                reveal_strlit("-- migrate:up");
                lemma_find_bounds(lower@, "-- migrate:up"@, 0);
            }
            let after = p + 13;
            let start = clamp_usize(after, 0, n);
            match find_text(lower.as_str(), "-- migrate:down", after) {
                Some(q) => {
                    let end = clamp_usize(q, start, n);
                    owned(sql.substring_char(start, end))
                },
                None => owned(sql.substring_char(start, n)),
            }
        },
    }
}

/// The down section of a migration.
pub fn extract_down_section(sql: &str) -> (r: String)
    ensures
        r@ == down_section(sql@),
{
    let lower = to_lower(sql);
    let ln = lower.as_str().unicode_len();
    let n = sql.unicode_len();
    match find_text(lower.as_str(), "-- migrate:down", 0) {
        None => String::new(),
        Some(p) => {
            proof {
                reveal_strlit("-- migrate:down");
                lemma_find_bounds(lower@, "-- migrate:down"@, 0);
            }
            let start = clamp_usize(p + 15, 0, n);
            owned(sql.substring_char(start, n))
        },
    }
}

/// The section of a migration that runs in the given direction.
pub fn section_for(sql: &str, direction: MigrationDirection) -> (r: String)
    ensures
        r@ == match direction {
            MigrationDirection::Up => up_section(sql@),
            MigrationDirection::Down => down_section(sql@),
        },
{
    match direction {
        MigrationDirection::Down => extract_down_section(sql),
        MigrationDirection::Up => extract_up_section(sql),
    }
}


/// The end of the line of `s` that starts at character `i`.
pub open spec fn char_line_end(s: Seq<char>, i: int) -> int
    decreases s.len() - i,
{
    if i < 0 || i >= s.len() {
        s.len() as int
    } else if s[i] == '\n' {
        i
    } else {
        char_line_end(s, i + 1)
    }
}

/// Whether a line is the directive `-- migrate:no-transaction`, blanks around
/// the line and after the dashes allowed.
pub open spec fn directive_line(line: Seq<char>) -> bool {
    let t = trim_of(line);
    t.len() >= 2 && t[0] == '-' && t[1] == '-' && trim_of(t.subrange(2, t.len() as int))
        == "migrate:no-transaction"@
}

/// Whether a line from the one starting at character `i` on is the directive.
pub open spec fn directive_from(s: Seq<char>, i: int) -> bool
    decreases s.len() - i,
{
    if i < 0 || i >= s.len() {
        false
    } else {
        let e = char_line_end(s, i);
        directive_line(s.subrange(i, e)) || (i <= e && e < s.len() && directive_from(s, e + 1))
    }
}

proof fn lemma_char_line_end(s: Seq<char>, i: int)
    requires
        0 <= i <= s.len(),
    ensures
        i <= char_line_end(s, i) <= s.len(),
    decreases s.len() - i,
{
    if i < s.len() && s[i] != '\n' {
        lemma_char_line_end(s, i + 1);
    }
}

fn is_directive(line: &str) -> (r: bool)
    ensures
        r == directive_line(line@),
{
    let t = trimmed(line);
    let tn = t.as_str().unicode_len();
    if tn < 2 {
        return false;
    }
    if t.as_str().get_char(0) != '-' || t.as_str().get_char(1) != '-' {
        return false;
    }
    let rest = trimmed(t.as_str().substring_char(2, tn));
    rest == owned("migrate:no-transaction")
}

/// The directives of a SQLx migration: `-- migrate:no-transaction` on a line
/// of its own asks to run outside a transaction.
pub fn parse_sqlx_directives(sql: &str) -> (r: MigrationMetadata)
    ensures
        r.requires_no_transaction == directive_from(sql@, 0),
{
    let n = sql.unicode_len();
    let mut i: usize = 0;
    while i < n
        invariant
            n == sql@.len(),
            i <= n,
            directive_from(sql@, 0) == directive_from(sql@, i as int),
        decreases n - i,
    {
        let mut e = i;
        while e < n && sql.get_char(e) != '\n'
            invariant
                n == sql@.len(),
                i <= e <= n,
                char_line_end(sql@, i as int) == char_line_end(sql@, e as int),
            decreases n - e,
        {
            e = e + 1;
        }
        proof {
            lemma_char_line_end(sql@, i as int);
        }
        if is_directive(sql.substring_char(i, e)) {
            return MigrationMetadata { requires_no_transaction: true };
        }
        if e >= n {
            return MigrationMetadata { requires_no_transaction: false };
        }
        i = e + 1;
    }
    MigrationMetadata { requires_no_transaction: false }
}


/// How the stem of a SQLx file name marks its direction: `<timestamp>.up` or
/// `<timestamp>.down`, with what precedes the suffix.
pub open spec fn suffix_spec(stem: Seq<char>) -> Option<(MigrationDirection, Seq<char>)> {
    if stem.len() >= 3 && stem.subrange(stem.len() - 3, stem.len() as int) == ".up"@ {
        Some((MigrationDirection::Up, stem.subrange(0, stem.len() - 3)))
    } else if stem.len() >= 5 && stem.subrange(stem.len() - 5, stem.len() as int) == ".down"@ {
        Some((MigrationDirection::Down, stem.subrange(0, stem.len() - 5)))
    } else {
        None
    }
}

/// The direction that the stem of a SQLx file name marks, and the rest.
pub fn suffix_parts(stem: &str) -> (r: Option<(MigrationDirection, String)>)
    ensures
        r matches Some((d, rest)) ==> suffix_spec(stem@) == Some((d, rest@)),
        r is None ==> suffix_spec(stem@) is None,
{
    proof {
        reveal_strlit(".up");
        reveal_strlit(".down");
    }
    let n = stem.unicode_len();
    if n >= 3 && owned(stem.substring_char(n - 3, n)) == owned(".up") {
        return Some((MigrationDirection::Up, owned(stem.substring_char(0, n - 3))));
    }
    if n >= 5 && owned(stem.substring_char(n - 5, n)) == owned(".down") {
        return Some((MigrationDirection::Down, owned(stem.substring_char(0, n - 5))));
    }
    None
}

/// The files of a single-file SQLx migration, once its text is read: its up
/// direction, and its down direction too when the text holds both markers
/// and down migrations are checked; both run outside a transaction when the
/// text asks so.
pub fn single_file_migrations(path: &str, timestamp: &str, content: &str, check_down: bool) -> (r: Vec<MigrationFile>)
    ensures
        r@.len() == (if check_down && names_direction(regex_captures(MIGRATE_MARKER_PATTERN@, content@), "up"@)
            && names_direction(regex_captures(MIGRATE_MARKER_PATTERN@, content@), "down"@) { 2int } else { 1int }),
        forall|i: int| 0 <= i < r@.len() ==> (#[trigger] r@[i]).path@ == path@ && r@[i].timestamp@ == timestamp@
            && r@[i].requires_no_transaction == directive_from(content@, 0),
        r@[0].direction == MigrationDirection::Up,
        r@.len() == 2 ==> r@[1].direction == MigrationDirection::Down,
{
    let metadata = parse_sqlx_directives(content);
    let mut files: Vec<MigrationFile> = Vec::new();
    files.push(MigrationFile::new(owned(path), owned(timestamp)).with_no_transaction(metadata.requires_no_transaction));
    if check_down && contains_migrate_markers(content) {
        files.push(
            MigrationFile::new(owned(path), owned(timestamp))
                .with_direction(MigrationDirection::Down)
                .with_no_transaction(metadata.requires_no_transaction),
        );
    }
    files
}

} // verus!
