//! The ignore-range resolver: finds `safety-assured` blocks in the source
//! text, and maps a statement's byte offset to the line of its first real
//! token, skipping whitespace and comments.
use vstd::prelude::*;
use vstd::string::StringSliceAdditionalSpecFns;

verus! {

/// One `safety-assured` block: the lines strictly between its two marker
/// lines are exempt from every check.
#[derive(PartialEq, Eq, Structural, Clone, Copy, Debug)]
pub struct IgnoreRange {
    /// Line of the start marker, 1-indexed.
    pub start_line: usize,
    /// Line of the end marker, 1-indexed.
    pub end_line: usize,
}

/// Whether the line lies strictly inside one of the ranges.
pub open spec fn line_ignored(line: int, ranges: Seq<IgnoreRange>) -> bool {
    exists|k: int| 0 <= k < ranges.len() && #[trigger] ranges[k].start_line < line < ranges[k].end_line
}

/// Whether the line lies strictly inside one of the ranges.
pub fn is_line_ignored(line: usize, ranges: &Vec<IgnoreRange>) -> (r: bool)
    ensures
        r == line_ignored(line as int, ranges@),
{
    let mut k: usize = 0;
    while k < ranges.len()
        invariant
            k <= ranges.len(),
            forall|j: int| 0 <= j < k ==> !(#[trigger] ranges@[j].start_line < line < ranges@[j].end_line),
        decreases ranges.len() - k,
    {
        if ranges[k].start_line < line && line < ranges[k].end_line {
            return true;
        }
        k = k + 1;
    }
    false
}

/// The number of newline bytes among the first `n` bytes of `s`.
pub open spec fn newlines(s: Seq<u8>, n: int) -> nat
    decreases n,
{
    if n <= 0 || s.len() == 0 {
        0
    } else if n > s.len() {
        newlines(s, s.len() as int)
    } else {
        newlines(s, n - 1) + (if s[n - 1] == 10 { 1nat } else { 0nat })
    }
}

/// The 1-indexed line on which the byte at `offset` lies; offsets past the
/// end count as the end.
pub open spec fn line_of(s: Seq<u8>, offset: int) -> int {
    newlines(s, if offset < s.len() { offset } else { s.len() as int }) as int + 1
}

proof fn lemma_newlines_bound(s: Seq<u8>, n: int)
    requires
        0 <= n <= s.len(),
    ensures
        newlines(s, n) <= n,
    decreases n,
{
    if n > 0 {
        lemma_newlines_bound(s, n - 1);
    }
}

/// The 1-indexed line on which the byte at `byte_offset` lies.
pub fn byte_offset_to_line(sql: &str, byte_offset: usize) -> (r: usize)
    requires
        sql.spec_bytes().len() < usize::MAX,
    ensures
        r as int == line_of(sql.spec_bytes(), byte_offset as int),
{
    let b = sql.as_bytes();
    let end = if byte_offset < b.len() { byte_offset } else { b.len() };
    let mut count: usize = 0;
    let mut i: usize = 0;
    while i < end
        invariant
            i <= end <= b@.len(),
            b@ == sql.spec_bytes(),
            b@.len() < usize::MAX,
            count as int == newlines(b@, i as int),
            count <= i,
        decreases end - i,
    {
        if b[i] == 10u8 {
            count = count + 1;
        }
        i = i + 1;
    }
    count + 1
}

/// Where the scanner stands: in code, in a `--` comment, in a block comment
/// of the given nesting depth, or in a quoted literal or identifier.
#[derive(PartialEq, Eq, Structural, Clone, Copy, Debug)]
pub enum ScanState {
    Code,
    LineComment,
    Block(usize),
    Quote(u8),
}

/// ASCII whitespace.
pub open spec fn is_space(b: u8) -> bool {
    b == 32 || b == 9 || b == 10 || b == 11 || b == 12 || b == 13
}

/// Whether the bytes at `i` and `i + 1` are `a` and `b`.
pub open spec fn pair_at(s: Seq<u8>, i: int, a: u8, b: u8) -> bool {
    0 <= i && i + 1 < s.len() && s[i] == a && s[i + 1] == b
}

/// One step of the scanner at byte `i`: the next state, how many bytes it
/// consumes, and whether the byte at `i` belongs to a real token.
pub open spec fn scan_step(s: Seq<u8>, i: int, st: ScanState) -> (ScanState, int, bool) {
    match st {
        ScanState::Code => if pair_at(s, i, 45, 45) {
            (ScanState::LineComment, 2, false)
        } else if pair_at(s, i, 47, 42) {
            (ScanState::Block(1), 2, false)
        } else if s[i] == 39 || s[i] == 34 {
            (ScanState::Quote(s[i]), 1, true)
        } else if is_space(s[i]) {
            (ScanState::Code, 1, false)
        } else {
            (ScanState::Code, 1, true)
        },
        ScanState::LineComment => if s[i] == 10 {
            (ScanState::Code, 1, false)
        } else {
            (ScanState::LineComment, 1, false)
        },
        ScanState::Block(d) => if pair_at(s, i, 42, 47) {
            (if d <= 1 { ScanState::Code } else { ScanState::Block((d - 1) as usize) }, 2, false)
        } else if pair_at(s, i, 47, 42) {
            (ScanState::Block((d + 1) as usize), 2, false)
        } else {
            (ScanState::Block(d), 1, false)
        },
        ScanState::Quote(q) => if s[i] == q {
            (ScanState::Code, 1, true)
        } else {
            (ScanState::Quote(q), 1, true)
        },
    }
}

/// The positions of the bytes from `i` on that belong to real tokens: not
/// whitespace, not inside a `--` comment or a (nested) block comment.
pub open spec fn scan_from(s: Seq<u8>, i: int, st: ScanState) -> Seq<usize>
    decreases s.len() - i,
{
    if i < 0 || i >= s.len() {
        Seq::empty()
    } else {
        let (next, k, tok) = scan_step(s, i, st);
        let rest = if k >= 1 { scan_from(s, i + k, next) } else { Seq::empty() };
        if tok {
            seq![i as usize] + rest
        } else {
            rest
        }
    }
}

/// The positions of the bytes of `s` that belong to real tokens. Every such
/// byte is listed, not only the first byte of each token: an offset that
/// falls inside a token stands for itself, which lies on the token's own line
/// unless the token is a quoted literal that spans lines.
pub open spec fn token_positions(s: Seq<u8>) -> Seq<usize> {
    scan_from(s, 0, ScanState::Code)
}

fn step_exec(b: &[u8], i: usize, st: ScanState) -> (r: (ScanState, usize, bool))
    requires
        i < b@.len(),
        st matches ScanState::Block(d) ==> d < usize::MAX,
    ensures
        r.0 == scan_step(b@, i as int, st).0,
        r.1 as int == scan_step(b@, i as int, st).1,
        r.2 == scan_step(b@, i as int, st).2,
{
    let c = b[i];
    let two = i + 1 < b.len();
    match st {
        ScanState::Code => {
            if two && c == 45u8 && b[i + 1] == 45u8 {
                (ScanState::LineComment, 2, false)
            } else if two && c == 47u8 && b[i + 1] == 42u8 {
                (ScanState::Block(1), 2, false)
            } else if c == 39u8 || c == 34u8 {
                (ScanState::Quote(c), 1, true)
            } else if c == 32u8 || c == 9u8 || c == 10u8 || c == 11u8 || c == 12u8 || c == 13u8 {
                (ScanState::Code, 1, false)
            } else {
                (ScanState::Code, 1, true)
            }
        },
        ScanState::LineComment => {
            if c == 10u8 {
                (ScanState::Code, 1, false)
            } else {
                (ScanState::LineComment, 1, false)
            }
        },
        ScanState::Block(d) => {
            if two && c == 42u8 && b[i + 1] == 47u8 {
                if d <= 1 {
                    (ScanState::Code, 2, false)
                } else {
                    (ScanState::Block(d - 1), 2, false)
                }
            } else if two && c == 47u8 && b[i + 1] == 42u8 {
                (ScanState::Block(d + 1), 2, false)
            } else {
                (ScanState::Block(d), 1, false)
            }
        },
        ScanState::Quote(q) => {
            if c == q {
                (ScanState::Code, 1, true)
            } else {
                (ScanState::Quote(q), 1, true)
            }
        },
    }
}

/// The sorted byte positions of the real tokens of `sql`: every byte that is
/// neither whitespace nor part of a comment (each byte of a token, not just
/// its first).
pub fn non_comment_positions(sql: &str) -> (r: Vec<usize>)
    ensures
        r@ == token_positions(sql.spec_bytes()),
{
    let b = sql.as_bytes();
    let mut out: Vec<usize> = Vec::new();
    let mut st = ScanState::Code;
    let mut i: usize = 0;
    while i < b.len()
        invariant
            b@ == sql.spec_bytes(),
            i <= b@.len(),
            st matches ScanState::Block(d) ==> d as int <= i,
            out@ + scan_from(b@, i as int, st) == token_positions(b@),
        decreases b@.len() - i,
    {
        let (next, k, tok) = step_exec(b, i, st);
        proof {
            assert(scan_from(b@, i as int, st) == (if tok { seq![i as usize] } else { Seq::empty() })
                + scan_from(b@, i + k, next)) by {
                if !tok {
                    assert(Seq::<usize>::empty() + scan_from(b@, i + k, next) =~= scan_from(b@, i + k, next));
                }
            }
        }
        if tok {
            proof {
                assert(out@.push(i) + scan_from(b@, i + k, next) =~= out@ + (seq![i as usize] + scan_from(b@, i + k, next)));
            }
            out.push(i);
        } else {
            proof {
                assert(out@ + scan_from(b@, i + k, next) =~= out@ + (Seq::<usize>::empty() + scan_from(b@, i + k, next)));
            }
        }
        st = next;
        i = i + k;
    }
    proof {
        assert(out@ + scan_from(b@, i as int, st) =~= out@);
    }
    out
}

/// The first of `tokens`, from index `j` on, that is at or after `offset`;
/// `offset` itself when there is none.
pub open spec fn first_at_or_after(tokens: Seq<usize>, offset: usize, j: int) -> usize
    decreases tokens.len() - j,
{
    if 0 <= j < tokens.len() {
        if tokens[j] >= offset {
            tokens[j]
        } else {
            first_at_or_after(tokens, offset, j + 1)
        }
    } else {
        offset
    }
}

/// The first token position at or after `offset`; `offset` when there is none.
pub fn first_token_at_or_after(token_starts: &Vec<usize>, offset: usize) -> (r: usize)
    ensures
        r == first_at_or_after(token_starts@, offset, 0),
{
    let mut j: usize = 0;
    while j < token_starts.len()
        invariant
            j <= token_starts.len(),
            first_at_or_after(token_starts@, offset, 0) == first_at_or_after(
                token_starts@,
                offset,
                j as int,
            ),
        decreases token_starts.len() - j,
    {
        if token_starts[j] >= offset {
            return token_starts[j];
        }
        j = j + 1;
    }
    offset
}

/// The line on which a statement recorded at `location` really starts: the
/// line of the first byte of a real token at or after it (the recorded
/// offset itself when it already lies inside a token).
pub open spec fn statement_line(s: Seq<u8>, location: usize) -> int {
    line_of(s, first_at_or_after(token_positions(s), location, 0) as int)
}

/// The line on which a statement recorded at `location` really starts.
pub fn resolve_statement_line(sql: &str, token_starts: &Vec<usize>, location: usize) -> (r: usize)
    requires
        sql.spec_bytes().len() < usize::MAX,
        token_starts@ == token_positions(sql.spec_bytes()),
    ensures
        r as int == statement_line(sql.spec_bytes(), location),
{
    let offset = first_token_at_or_after(token_starts, location);
    byte_offset_to_line(sql, offset)
}


/// The end of the line that starts at byte `i`: the index of the next
/// newline, or the length of `s`.
pub open spec fn line_end(s: Seq<u8>, i: int) -> int
    decreases s.len() - i,
{
    if i < 0 || i >= s.len() {
        s.len() as int
    } else if s[i] == 10 {
        i
    } else {
        line_end(s, i + 1)
    }
}

pub proof fn lemma_line_end_bounds(s: Seq<u8>, i: int)
    requires
        0 <= i <= s.len(),
    ensures
        i <= line_end(s, i) <= s.len(),
    decreases s.len() - i,
{
    if i < s.len() && s[i] != 10 {
        lemma_line_end_bounds(s, i + 1);
    }
}

/// The first byte in `[a, b)` that is not whitespace; `b` when there is none.
pub open spec fn first_non_space(s: Seq<u8>, a: int, b: int) -> int
    decreases b - a,
{
    if a >= b || a < 0 || a >= s.len() {
        b
    } else if is_space(s[a]) {
        first_non_space(s, a + 1, b)
    } else {
        a
    }
}

/// Whether the line `[a, b)` is a `--` comment.
pub open spec fn comment_line(s: Seq<u8>, a: int, b: int) -> bool {
    let p = first_non_space(s, a, b);
    p + 1 < b && pair_at(s, p, 45, 45)
}

/// Whether `pat` occurs in `s` at `k`.
pub open spec fn occurs_at(s: Seq<u8>, k: int, pat: Seq<u8>) -> bool {
    0 <= k && k + pat.len() <= s.len() && s.subrange(k, k + pat.len() as int) == pat
}

/// Whether `pat` occurs in `s` within `[k, b)`.
pub open spec fn occurs_from(s: Seq<u8>, k: int, b: int, pat: Seq<u8>) -> bool
    decreases b + 1 - k,
{
    if k < 0 || k + pat.len() > b {
        false
    } else {
        occurs_at(s, k, pat) || occurs_from(s, k + 1, b, pat)
    }
}

/// The sentinel that opens a block.
pub open spec fn start_marker() -> Seq<u8> {
    "safety-assured:start".spec_bytes()
}

/// The sentinel that closes a block.
pub open spec fn end_marker() -> Seq<u8> {
    "safety-assured:end".spec_bytes()
}

/// What the line `[a, b)` marks: `Some(true)` opens a block, `Some(false)`
/// closes one, `None` is any other line.
pub open spec fn marker(s: Seq<u8>, a: int, b: int) -> Option<bool> {
    if !comment_line(s, a, b) {
        None
    } else if occurs_from(s, a, b, start_marker()) {
        Some(true)
    } else if occurs_from(s, a, b, end_marker()) {
        Some(false)
    } else {
        None
    }
}

/// The state after a line that marks `m`, with `open` the line of the start
/// marker of the block that is open, if any: a start marker opens a block
/// unless one is open; an end marker closes the open block, and is ignored
/// when none is open.
pub open spec fn after_marker(m: Option<bool>, open: Option<usize>, line: int) -> (Seq<IgnoreRange>, Option<usize>) {
    match m {
        Some(true) => if open is None {
            (Seq::empty(), Some(line as usize))
        } else {
            (Seq::empty(), open)
        },
        Some(false) => match open {
            Some(st) => (seq![IgnoreRange { start_line: st, end_line: line as usize }], None),
            None => (Seq::empty(), None),
        },
        None => (Seq::empty(), open),
    }
}

/// The blocks of the lines from the one that starts at byte `i`, which is
/// line number `line`.
pub open spec fn ranges_from(s: Seq<u8>, i: int, line: int, open: Option<usize>) -> Seq<IgnoreRange>
    decreases s.len() + 1 - i,
{
    if i < 0 || i > s.len() {
        Seq::empty()
    } else {
        let e = line_end(s, i);
        let (emit, next) = after_marker(marker(s, i, e), open, line);
        if i <= e <= s.len() {
            emit + ranges_from(s, e + 1, line + 1, next)
        } else {
            emit
        }
    }
}

/// The `safety-assured` blocks of a text.
pub open spec fn ignore_ranges_spec(s: Seq<u8>) -> Seq<IgnoreRange> {
    ranges_from(s, 0, 1, None)
}

fn find_line_end(b: &[u8], i: usize) -> (r: usize)
    requires
        i <= b@.len(),
    ensures
        r as int == line_end(b@, i as int),
        i <= r <= b@.len(),
{
    let mut j = i;
    while j < b.len()
        invariant
            i <= j <= b@.len(),
            line_end(b@, i as int) == line_end(b@, j as int),
        decreases b@.len() - j,
    {
        if b[j] == 10u8 {
            return j;
        }
        j = j + 1;
    }
    j
}

fn is_comment_line(b: &[u8], a: usize, e: usize) -> (r: bool)
    requires
        a <= e <= b@.len(),
    ensures
        r == comment_line(b@, a as int, e as int),
{
    let n = b.len();
    let mut p = a;
    while p < e && (b[p] == 32u8 || b[p] == 9u8 || b[p] == 10u8 || b[p] == 11u8 || b[p] == 12u8
        || b[p] == 13u8)
        invariant
            a <= p <= e,
            e <= b@.len(),
            n == b@.len(),
            first_non_space(b@, a as int, e as int) == first_non_space(b@, p as int, e as int),
        decreases e - p,
    {
        p = p + 1;
    }
    e - p >= 2 && b[p] == 45u8 && b[p + 1] == 45u8
}

fn bytes_at(b: &[u8], k: usize, pat: &[u8]) -> (r: bool)
    requires
        k + pat@.len() <= b@.len(),
    ensures
        r == occurs_at(b@, k as int, pat@),
{
    let n = b.len();
    let mut j: usize = 0;
    while j < pat.len()
        invariant
            n == b@.len(),
            j <= pat@.len(),
            k + pat@.len() <= b@.len(),
            forall|t: int| 0 <= t < j ==> b@[k + t] == pat@[t],
        decreases pat@.len() - j,
    {
        if b[k + j] != pat[j] {
            assert(b@.subrange(k as int, k + pat@.len())[j as int] != pat@[j as int]);
            return false;
        }
        j = j + 1;
    }
    assert(b@.subrange(k as int, k + pat@.len()) =~= pat@);
    true
}

fn occurs_within(b: &[u8], a: usize, e: usize, pat: &[u8]) -> (r: bool)
    requires
        a <= e <= b@.len(),
    ensures
        r == occurs_from(b@, a as int, e as int, pat@),
{
    if pat.len() == 0 {
        assert(b@.subrange(a as int, a as int) =~= pat@);
        return true;
    }
    let mut k = a;
    while k <= e && e - k >= pat.len()
        invariant
            a <= k <= e + 1,
            pat@.len() >= 1,
            e <= b@.len(),
            occurs_from(b@, a as int, e as int, pat@) == occurs_from(b@, k as int, e as int, pat@),
        decreases e + 1 - k,
    {
        if bytes_at(b, k, pat) {
            return true;
        }
        k = k + 1;
    }
    false
}

fn line_marker(b: &[u8], a: usize, e: usize) -> (r: Option<bool>)
    requires
        a <= e <= b@.len(),
    ensures
        r == marker(b@, a as int, e as int),
{
    if !is_comment_line(b, a, e) {
        None
    } else if occurs_within(b, a, e, "safety-assured:start".as_bytes()) {
        Some(true)
    } else if occurs_within(b, a, e, "safety-assured:end".as_bytes()) {
        Some(false)
    } else {
        None
    }
}

/// The `safety-assured` blocks of a text: each `--` comment line holding
/// `safety-assured:start` opens a block, and the next one holding
/// `safety-assured:end` closes it. A start marker inside an open block, an
/// end marker outside one, and a block that is never closed are ignored.
pub fn parse_ignore_ranges(sql: &str) -> (r: Vec<IgnoreRange>)
    requires
        sql.spec_bytes().len() < usize::MAX,
    ensures
        r@ == ignore_ranges_spec(sql.spec_bytes()),
{
    let b = sql.as_bytes();
    let mut out: Vec<IgnoreRange> = Vec::new();
    let mut open: Option<usize> = None;
    let mut i: usize = 0;
    let mut line: usize = 1;
    while i <= b.len()
        invariant
            b@ == sql.spec_bytes(),
            b@.len() < usize::MAX,
            i <= b@.len() + 1,
            1 <= line <= i + 1,
            out@ + ranges_from(b@, i as int, line as int, open) == ignore_ranges_spec(b@),
        decreases b@.len() + 1 - i,
    {
        let e = find_line_end(b, i);
        let m = line_marker(b, i, e);
        let ghost old_open = open;
        let ghost old_out = out@;
        match m {
            Some(true) => {
                if open.is_none() {
                    open = Some(line);
                }
            },
            Some(false) => {
                match open {
                    Some(st) => {
                        out.push(IgnoreRange { start_line: st, end_line: line });
                        open = None;
                    },
                    None => {},
                }
            },
            None => {},
        }
        proof {
            let (emit, next) = after_marker(m, old_open, line as int);
            assert(next == open);
            assert(out@ =~= old_out + emit);
            assert(old_out + ranges_from(b@, i as int, line as int, old_open) =~= out@ + ranges_from(
                b@,
                e + 1,
                line + 1,
                open,
            ));
            if e == b@.len() {
                assert(ranges_from(b@, e + 1, line + 1, open) == ranges_from(b@, e + 1, line as int, open));
            }
        }
        if e < b.len() {
            line = line + 1;
        }
        i = e + 1;
    }
    proof {
        assert(out@ + ranges_from(b@, i as int, line as int, open) =~= out@);
    }
    out
}

} // verus!
