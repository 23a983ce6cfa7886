//! The scripting bridge, on the library's side: the values that a custom
//! check script can return, and how they become violations.
use vstd::prelude::*;
use vstd::string::StringExecFns;
use crate::config::Config;
use crate::migrations::{greater, lex_cmp};
use crate::helpers::{extend, gather, lemma_gather_all, lemma_gather_step, no_violations, one_violation};
use crate::messages::{
    make_record_shape, make_script_array_problem, make_script_error_operation,
    make_script_keys_problem, make_script_type_problem, record_shape, script_array_problem,
    script_error_operation, script_keys_problem, script_type_problem,
};
use crate::text::{decimal, decimal_spec, join, join_spec, owned, str_eq, strs};
use crate::violation::{Violation, ViolationView, views, violation_of};

verus! {

/// An error met while loading or running a custom check script.
#[derive(Debug, Clone)]
pub struct ScriptError {
    pub file: String,
    pub message: String,
}

impl ScriptError {
    /// `file: message`.
    pub fn to_text(&self) -> (r: String)
        ensures
            r@ == self.file@ + ": "@ + self.message@,
    {
        let mut s = self.file.clone();
        s.append(": ");
        s.append(self.message.as_str());
        s
    }
}

/// The value of a field of a record returned by a script.
#[derive(Debug, Clone)]
pub enum ScriptField {
    Str(String),
    /// Any value that is not a string.
    Other,
}

/// A record returned by a script: its keys, in the order the engine lists
/// them, with their values.
pub type ScriptRecord = Vec<(String, ScriptField)>;

/// An element of an array returned by a script.
#[derive(Debug, Clone)]
pub enum ScriptItem {
    Record(ScriptRecord),
    /// Any value that is not a record.
    Other,
}

/// The value that a script evaluated to.
#[derive(Debug, Clone)]
pub enum ScriptValue {
    /// No value.
    Unit,
    Record(ScriptRecord),
    Array(Vec<ScriptItem>),
    /// A value of another type, with the engine's name for that type.
    Other(String),
}

/// How one evaluation of a script ended.
#[derive(Debug, Clone)]
pub enum ScriptOutcome {
    Returned(ScriptValue),
    /// A runtime error, with its message.
    Failed(String),
    /// The script used up its operation budget.
    OutOfBudget,
}

/// The string value of the first field named `key`, from entry `i` on;
/// `None` when that field is absent or not a string.
pub open spec fn lookup_str(rec: Seq<(String, ScriptField)>, key: Seq<char>, i: int) -> Option<Seq<char>>
    decreases rec.len() - i,
{
    if 0 <= i < rec.len() {
        if rec[i].0@ == key {
            match rec[i].1 {
                ScriptField::Str(s) => Some(s@),
                ScriptField::Other => None,
            }
        } else {
            lookup_str(rec, key, i + 1)
        }
    } else {
        None
    }
}

/// The keys of a record, in order.
pub open spec fn record_keys(rec: Seq<(String, ScriptField)>) -> Seq<Seq<char>> {
    rec.map_values(|e: (String, ScriptField)| e.0@)
}

/// Whether the field named `key` is a non-empty string.
pub open spec fn has_text(rec: Seq<(String, ScriptField)>, key: Seq<char>) -> bool {
    lookup_str(rec, key, 0) matches Some(s) && s.len() > 0
}

/// Whether a record has the three non-empty string fields of a violation.
pub open spec fn well_formed_record(rec: Seq<(String, ScriptField)>) -> bool {
    has_text(rec, "operation"@) && has_text(rec, "problem"@) && has_text(rec, "safe_alternative"@)
}

/// The violation that a record stands for: its three fields, or, when one is
/// missing, not a string or empty, a violation that reports the malformed
/// record.
pub open spec fn record_violation(check: Seq<char>, rec: Seq<(String, ScriptField)>) -> ViolationView {
    if well_formed_record(rec) {
        violation_of(
            lookup_str(rec, "operation"@, 0)->Some_0,
            lookup_str(rec, "problem"@, 0)->Some_0,
            lookup_str(rec, "safe_alternative"@, 0)->Some_0,
        )
    } else {
        violation_of(
            script_error_operation(check),
            script_keys_problem(join_spec(record_keys(rec), ", "@)),
            "Fix the custom check script to return all three required keys."@,
        )
    }
}

/// What an element of a well-formed array yields: its record's violation.
pub open spec fn item_spec(check: Seq<char>, item: ScriptItem) -> Seq<ViolationView> {
    match item {
        ScriptItem::Record(rec) => seq![record_violation(check, rec@)],
        ScriptItem::Other => Seq::empty(),
    }
}

/// Whether an array element is a well-formed record.
pub open spec fn well_formed_item(item: ScriptItem) -> bool {
    item matches ScriptItem::Record(rec) && well_formed_record(rec@)
}

/// The first element, from `i` on, that is not a well-formed record.
pub open spec fn first_malformed(items: Seq<ScriptItem>, i: int) -> Option<int>
    decreases items.len() - i,
{
    if 0 <= i < items.len() {
        if well_formed_item(items[i]) {
            first_malformed(items, i + 1)
        } else {
            Some(i)
        }
    } else {
        None
    }
}

/// How a malformed array element is described.
pub open spec fn item_shape(item: ScriptItem) -> Seq<char> {
    match item {
        ScriptItem::Record(rec) => record_shape(join_spec(record_keys(rec@), ", "@)),
        ScriptItem::Other => "not a map"@,
    }
}

/// [`item_spec`] as a function of one element.
pub open spec fn item_fn(check: Seq<char>) -> spec_fn(ScriptItem) -> Seq<ViolationView> {
    |item: ScriptItem| item_spec(check, item)
}

/// The violations that a script's value stands for: none for no value, one
/// for a record, one per record of an array whose elements are all
/// well-formed records, and otherwise exactly one that reports the mistake:
/// for a value of another type, or for the first malformed element of an
/// array.
pub open spec fn script_result_spec(check: Seq<char>, v: ScriptValue) -> Seq<ViolationView> {
    match v {
        ScriptValue::Unit => Seq::empty(),
        ScriptValue::Record(rec) => seq![record_violation(check, rec@)],
        ScriptValue::Array(items) => match first_malformed(items@, 0) {
            None => gather(items@, item_fn(check)),
            Some(k) => seq![
                violation_of(
                    script_error_operation(check),
                    script_array_problem(decimal_spec(k as nat), item_shape(items@[k])),
                    "Fix the custom check script to return an array of maps with all three required keys."@,
                ),
            ],
        },
        ScriptValue::Other(t) => seq![
            violation_of(
                script_error_operation(check),
                script_type_problem(t@),
                "Fix the custom check script to return a valid type."@,
            ),
        ],
    }
}

/// The violations of one evaluation: those of the value returned; none when
/// the script failed or ran out of budget.
pub open spec fn script_outcome_spec(check: Seq<char>, o: ScriptOutcome) -> Seq<ViolationView> {
    match o {
        ScriptOutcome::Returned(v) => script_result_spec(check, v),
        _ => Seq::empty(),
    }
}

fn lookup_field(rec: &ScriptRecord, key: &str) -> (r: Option<String>)
    ensures
        r matches Some(s) ==> lookup_str(rec@, key@, 0) == Some(s@),
        r is None ==> lookup_str(rec@, key@, 0) is None,
{
    let mut i: usize = 0;
    while i < rec.len()
        invariant
            i <= rec.len(),
            lookup_str(rec@, key@, 0) == lookup_str(rec@, key@, i as int),
        decreases rec.len() - i,
    {
        if str_eq(rec[i].0.as_str(), key) {
            return match &rec[i].1 {
                ScriptField::Str(s) => Some(s.clone()),
                ScriptField::Other => None,
            };
        }
        i = i + 1;
    }
    None
}

fn record_key_list(rec: &ScriptRecord) -> (r: Vec<String>)
    ensures
        strs(r@) == record_keys(rec@),
{
    let mut out: Vec<String> = Vec::new();
    let mut i: usize = 0;
    while i < rec.len()
        invariant
            i <= rec.len(),
            out@.len() == i,
            strs(out@) == record_keys(rec@.subrange(0, i as int)),
        decreases rec.len() - i,
    {
        let ghost prev = out@;
        out.push(rec[i].0.clone());
        proof {
            let a = rec@.subrange(0, i as int);
            let b = rec@.subrange(0, i as int + 1);
            assert forall|j: int| 0 <= j < i + 1 implies strs(out@)[j] == record_keys(b)[j] by {
                if j < i {
                    assert(strs(prev)[j] == record_keys(a)[j]);
                    assert(b[j] == a[j]);
                }
            }
            assert(strs(out@) =~= record_keys(b));
        }
        i = i + 1;
    }
    proof {
        assert(rec@.subrange(0, i as int) =~= rec@);
    }
    out
}

fn has_text_exec(rec: &ScriptRecord, key: &str) -> (r: bool)
    ensures
        r == has_text(rec@, key@),
{
    match lookup_field(rec, key) {
        Some(s) => s.as_str().unicode_len() > 0,
        None => false,
    }
}

/// Whether an array element is a well-formed record.
pub fn is_well_formed_item(item: &ScriptItem) -> (r: bool)
    ensures
        r == well_formed_item(*item),
{
    match item {
        ScriptItem::Record(rec) => has_text_exec(rec, "operation") && has_text_exec(rec, "problem")
            && has_text_exec(rec, "safe_alternative"),
        ScriptItem::Other => false,
    }
}

fn find_malformed(items: &Vec<ScriptItem>) -> (r: Option<usize>)
    ensures
        r matches Some(k) ==> first_malformed(items@, 0) == Some(k as int) && k < items@.len(),
        r is None ==> first_malformed(items@, 0) is None,
{
    let mut i: usize = 0;
    while i < items.len()
        invariant
            i <= items.len(),
            first_malformed(items@, 0) == first_malformed(items@, i as int),
        decreases items.len() - i,
    {
        if !is_well_formed_item(&items[i]) {
            return Some(i);
        }
        i = i + 1;
    }
    None
}

fn describe_item(item: &ScriptItem) -> (r: String)
    ensures
        r@ == item_shape(*item),
{
    match item {
        ScriptItem::Record(rec) => {
            let keys = record_key_list(rec);
            let listed = join(&keys, ", ");
            make_record_shape(listed.as_str())
        },
        ScriptItem::Other => owned("not a map"),
    }
}

/// The violation that a record returned by the script named `check_name`
/// stands for.
pub fn map_to_violation(check_name: &str, rec: &ScriptRecord) -> (r: Violation)
    ensures
        r@ == record_violation(check_name@, rec@),
{
    let operation = lookup_field(rec, "operation");
    let problem = lookup_field(rec, "problem");
    let safe_alternative = lookup_field(rec, "safe_alternative");
    match (operation, problem, safe_alternative) {
        (Some(op), Some(prob), Some(alt)) if op.as_str().unicode_len() > 0 && prob.as_str().unicode_len()
            > 0 && alt.as_str().unicode_len() > 0 => Violation::new(op, prob, alt),
        _ => {
            let keys = record_key_list(rec);
            let listed = join(&keys, ", ");
            Violation::new(
                make_script_error_operation(check_name),
                make_script_keys_problem(listed.as_str()),
                owned("Fix the custom check script to return all three required keys."),
            )
        },
    }
}

/// The violations that the value returned by the script named `check_name`
/// stands for.
pub fn parse_script_result(check_name: &str, result: &ScriptValue) -> (r: Vec<Violation>)
    ensures
        views(r@) == script_result_spec(check_name@, *result),
{
    match result {
        ScriptValue::Unit => no_violations(),
        ScriptValue::Record(rec) => one_violation(map_to_violation(check_name, rec)),
        ScriptValue::Array(items) => {
            if let Some(k) = find_malformed(items) {
                let index = decimal(k as u64);
                let shape = describe_item(&items[k]);
                return one_violation(
                    Violation::new(
                        make_script_error_operation(check_name),
                        make_script_array_problem(index.as_str(), shape.as_str()),
                        owned("Fix the custom check script to return an array of maps with all three required keys."),
                    ),
                );
            }
            let ghost f = item_fn(check_name@);
            let mut out: Vec<Violation> = Vec::new();
            let mut i: usize = 0;
            assert(views(out@) =~= gather(items@.subrange(0, 0), f));
            while i < items.len()
                invariant
                    i <= items.len(),
                    views(out@) == gather(items@.subrange(0, i as int), f),
                    f == item_fn(check_name@),
                decreases items.len() - i,
            {
                proof {
                    lemma_gather_step(items@, i as int, f);
                }
                let more = match &items[i] {
                    ScriptItem::Record(rec) => one_violation(map_to_violation(check_name, rec)),
                    ScriptItem::Other => no_violations(),
                };
                extend(&mut out, more);
                i = i + 1;
            }
            proof {
                lemma_gather_all(items@, f);
            }
            out
        },
        ScriptValue::Other(t) => one_violation(
            Violation::new(
                make_script_error_operation(check_name),
                make_script_type_problem(t.as_str()),
                owned("Fix the custom check script to return a valid type."),
            ),
        ),
    }
}

/// The violations of one evaluation of the script named `check_name`.
pub fn outcome_violations(check_name: &str, outcome: &ScriptOutcome) -> (r: Vec<Violation>)
    ensures
        views(r@) == script_outcome_spec(check_name@, *outcome),
{
    match outcome {
        ScriptOutcome::Returned(v) => parse_script_result(check_name, v),
        _ => no_violations(),
    }
}


/// Whether `a` comes no later than `b` in lexicographic order.
pub open spec fn lex_le(a: Seq<char>, b: Seq<char>) -> bool {
    lex_cmp(a, b, 0) <= 0
}

proof fn lemma_lex_flip(a: Seq<char>, b: Seq<char>, i: int)
    requires
        0 <= i,
    ensures
        lex_cmp(a, b, i) == -lex_cmp(b, a, i),
    decreases a.len() - i,
{
    if i < a.len() && i < b.len() && (a[i] as u32) == (b[i] as u32) {
        lemma_lex_flip(a, b, i + 1);
    }
}

proof fn lemma_lex_refl(a: Seq<char>, i: int)
    requires
        0 <= i,
    ensures
        lex_cmp(a, a, i) == 0,
    decreases a.len() - i,
{
    if i < a.len() {
        lemma_lex_refl(a, i + 1);
    }
}

proof fn lemma_lex_range(a: Seq<char>, b: Seq<char>, i: int)
    ensures
        -1 <= lex_cmp(a, b, i) <= 1,
    decreases a.len() - i,
{
    if 0 <= i < a.len() && i < b.len() && (a[i] as u32) == (b[i] as u32) {
        lemma_lex_range(a, b, i + 1);
    }
}

proof fn lemma_lex_trans(a: Seq<char>, b: Seq<char>, c: Seq<char>, i: int)
    requires
        0 <= i,
        lex_cmp(a, b, i) <= 0,
        lex_cmp(b, c, i) <= 0,
    ensures
        lex_cmp(a, c, i) <= 0,
    decreases a.len() - i,
{
    if i < a.len() && i < b.len() && i < c.len() && (a[i] as u32) == (b[i] as u32) && (b[i] as u32)
        == (c[i] as u32) {
        lemma_lex_trans(a, b, c, i + 1);
    }
}

/// Whether a file name is that of a script: a non-empty stem and `.rhai`.
pub open spec fn is_script_name(n: Seq<char>) -> bool {
    n.len() > 5 && n.subrange(n.len() - 5, n.len() as int) == ".rhai"@
}

/// The stem of a script's file name.
pub open spec fn stem_of(n: Seq<char>) -> Seq<char> {
    n.subrange(0, n.len() - 5)
}

/// Whether a file is loaded as a script check: a script whose stem names no
/// disabled check.
pub open spec fn loads_script(config: Config, n: Seq<char>) -> bool {
    is_script_name(n) && config.check_enabled(stem_of(n))
}

/// Whether names are in lexicographic order.
pub open spec fn sorted_names(s: Seq<Seq<char>>) -> bool {
    forall|i: int, j: int| 0 <= i < j < s.len() ==> lex_le(#[trigger] s[i], #[trigger] s[j])
}

fn script_name_stem(n: &str) -> (r: Option<String>)
    ensures
        r matches Some(s) ==> is_script_name(n@) && s@ == stem_of(n@),
        r is None ==> !is_script_name(n@),
{
    proof {
        reveal_strlit(".rhai");
    }
    let len = n.unicode_len();
    if len > 5 && owned(n.substring_char(len - 5, len)) == owned(".rhai") {
        Some(owned(n.substring_char(0, len - 5)))
    } else {
        None
    }
}

/// The file names of a directory that are loaded as script checks, in file
/// name order: those of scripts (`<stem>.rhai`) whose stem names no disabled
/// check, each kept as often as it is given.
pub fn script_file_names(file_names: &Vec<String>, config: &Config) -> (r: Vec<String>)
    ensures
        sorted_names(strs(r@)),
        strs(r@).to_multiset() == strs(file_names@).filter(|n: Seq<char>| loads_script(*config, n)).to_multiset(),
{
    broadcast use vstd::seq_lib::group_to_multiset_ensures;
    let ghost keep = |n: Seq<char>| loads_script(*config, n);
    let mut out: Vec<String> = Vec::new();
    let mut i: usize = 0;
    assert(strs(file_names@).subrange(0, 0).filter(keep) =~= Seq::<Seq<char>>::empty());
    while i < file_names.len()
        invariant
            i <= file_names.len(),
            keep == (|n: Seq<char>| loads_script(*config, n)),
            sorted_names(strs(out@)),
            strs(out@).to_multiset() == strs(file_names@).subrange(0, i as int).filter(keep).to_multiset(),
        decreases file_names.len() - i,
    {
        let ghost sub = strs(file_names@).subrange(0, i as int);
        let ghost nm = file_names@[i as int]@;
        proof {
            assert(strs(file_names@).subrange(0, i + 1) =~= sub.push(nm));
            sub.lemma_filter_push(nm, keep);
            sub.filter(keep).to_multiset_ensures();
            assert(keep(nm) == loads_script(*config, nm));
        }
        let name = &file_names[i];
        let kept = match script_name_stem(name.as_str()) {
            Some(stem) => config.is_check_enabled(stem.as_str()),
            None => false,
        };
        if kept {
            let mut p: usize = 0;
            while p < out.len() && !greater(out[p].as_str(), name.as_str())
                invariant
                    p <= out.len(),
                    forall|j: int| 0 <= j < p ==> lex_le(#[trigger] strs(out@)[j], name@),
                decreases out.len() - p,
            {
                proof {
                    lemma_lex_range(out@[p as int]@, name@, 0);
                    assert(strs(out@)[p as int] == out@[p as int]@);
                }
                p = p + 1;
            }
            proof {
                if p < out@.len() {
                    assert(strs(out@)[p as int] == out@[p as int]@);
                    assert(lex_cmp(strs(out@)[p as int], name@, 0) == 1);
                }
            }
            let ghost before = strs(out@);
            out.insert(p, name.clone());
            proof {
                assert(strs(out@) =~= before.insert(p as int, name@));
                let after = before.insert(p as int, name@);
                assert(after.remove(p as int) =~= before);
                assert(after[p as int] == name@);
                after.to_multiset_ensures();
                before.to_multiset_ensures();
                assert(after.contains(name@));
                assert(after.to_multiset().count(name@) > 0);
                assert(after.remove(p as int).to_multiset() == after.to_multiset().remove(name@));
                assert(after.to_multiset() =~= before.to_multiset().insert(name@));
                if p < before.len() {
                    lemma_lex_flip(before[p as int], name@, 0);
                }
                assert forall|a: int, b: int| 0 <= a < b < strs(out@).len() implies lex_le(
                    #[trigger] strs(out@)[a],
                    #[trigger] strs(out@)[b],
                ) by {
                    let s = strs(out@);
                    if b < p {
                        assert(s[a] == before[a] && s[b] == before[b]);
                    } else if b == p {
                        assert(s[a] == before[a]);
                    } else if a == p {
                        assert(s[b] == before[b - 1]);
                        if b - 1 > p {
                            assert(lex_le(before[p as int], before[b - 1]));
                        } else {
                            lemma_lex_refl(before[p as int], 0);
                        }
                        lemma_lex_trans(name@, before[p as int], before[b - 1], 0);
                    } else if a < p {
                        assert(s[a] == before[a] && s[b] == before[b - 1]);
                    } else {
                        assert(s[a] == before[a - 1] && s[b] == before[b - 1]);
                    }
                }
            }
        } else {
            proof {
                assert(!keep(file_names@[i as int]@));
            }
        }
        i = i + 1;
    }
    proof {
        assert(strs(file_names@).subrange(0, i as int) =~= strs(file_names@));
    }
    out
}

/// The stems of the given script file names, in the same order.
pub fn script_stems(names: &Vec<String>) -> (r: Vec<String>)
    ensures
        r@.len() == names@.len(),
        forall|i: int| 0 <= i < names@.len() && is_script_name(names@[i]@) ==> #[trigger] r@[i]@ == stem_of(names@[i]@),
{
    let mut out: Vec<String> = Vec::new();
    let mut i: usize = 0;
    while i < names.len()
        invariant
            i <= names.len(),
            out@.len() == i,
            forall|j: int| 0 <= j < i && is_script_name(names@[j]@) ==> #[trigger] out@[j]@ == stem_of(names@[j]@),
        decreases names.len() - i,
    {
        let stem = match script_name_stem(names[i].as_str()) {
            Some(s) => s,
            None => names[i].clone(),
        };
        out.push(stem);
        i = i + 1;
    }
    out
}

} // verus!
