//! Reading the position out of a SQL parser's error message.
use vstd::prelude::*;

verus! {

/// Whether `pat` occurs in `s` at `i`.
pub open spec fn occurs(s: Seq<char>, pat: Seq<char>, i: int) -> bool {
    0 <= i && i + pat.len() <= s.len() && s.subrange(i, i + pat.len() as int) == pat
}

/// The last position, at or before `i`, at which `pat` occurs in `s`.
pub open spec fn find_last(s: Seq<char>, pat: Seq<char>, i: int) -> Option<int>
    decreases i + 1,
{
    if i < 0 {
        None
    } else if occurs(s, pat, i) {
        Some(i)
    } else {
        find_last(s, pat, i - 1)
    }
}

/// The number of ASCII digits that `s` holds from `i` on, before any other
/// character.
pub open spec fn digit_run(s: Seq<char>, i: int) -> nat
    decreases s.len() - i,
{
    if 0 <= i < s.len() && '0' <= s[i] && s[i] <= '9' {
        1 + digit_run(s, i + 1)
    } else {
        0
    }
}

/// The value of a sequence of decimal digits.
pub open spec fn digits_value(d: Seq<char>) -> nat
    decreases d.len(),
{
    if d.len() == 0 {
        0
    } else {
        digits_value(d.drop_last()) * 10 + ((d.last() as u32 - '0' as u32) as nat)
    }
}

/// The 0-based position that a message names as `at position N` (1-based),
/// from its last such phrase: `None` without the phrase, without digits after
/// it, or when the number does not fit.
pub open spec fn byte_position_spec(msg: Seq<char>) -> Option<usize> {
    let pat = "at position "@;
    match find_last(msg, pat, msg.len() - pat.len()) {
        None => None,
        Some(p) => {
            let start = p + pat.len();
            let d = msg.subrange(start, start + digit_run(msg, start));
            if d.len() == 0 || digits_value(d) > usize::MAX {
                None
            } else if digits_value(d) == 0 {
                Some(0)
            } else {
                Some((digits_value(d) - 1) as usize)
            }
        },
    }
}

proof fn lemma_value_grows(d: Seq<char>, k: int)
    requires
        0 <= k <= d.len(),
        forall|j: int| 0 <= j < d.len() ==> '0' <= #[trigger] d[j] && d[j] <= '9',
    ensures
        digits_value(d.subrange(0, k)) <= digits_value(d),
    decreases d.len() - k,
{
    if k < d.len() {
        lemma_value_grows(d, k + 1);
        assert(d.subrange(0, k + 1).drop_last() =~= d.subrange(0, k));
    } else {
        assert(d.subrange(0, k) =~= d);
    }
}

proof fn lemma_digit_run(s: Seq<char>, i: int)
    requires
        0 <= i <= s.len(),
    ensures
        i + digit_run(s, i) <= s.len(),
        forall|j: int| i <= j < i + digit_run(s, i) ==> '0' <= #[trigger] s[j] && s[j] <= '9',
        i + digit_run(s, i) < s.len() ==> !('0' <= s[i + digit_run(s, i)] && s[i + digit_run(s, i)] <= '9'),
    decreases s.len() - i,
{
    if i < s.len() && '0' <= s[i] && s[i] <= '9' {
        lemma_digit_run(s, i + 1);
    }
}

/// The 0-based position named by a parser error message, if any.
pub fn parse_byte_position(msg: &str) -> (r: Option<usize>)
    ensures
        r == byte_position_spec(msg@),
{
    let n = msg.unicode_len();
    let pat = "at position ";
    let m = pat.unicode_len();
    proof {
        reveal_strlit("at position ");
    }
    if n < m {
        return None;
    }
    let mut i: usize = n - m;
    let mut found: Option<usize> = None;
    loop
        invariant_except_break
            found is None,
        invariant
            n == msg@.len(),
            m == pat@.len(),
            m == 12,
            i + m <= n,
            find_last(msg@, pat@, n - m) == find_last(msg@, pat@, i as int),
        ensures
            found matches Some(p) ==> find_last(msg@, pat@, n - m) == Some(p as int) && p + m <= n,
            found is None ==> find_last(msg@, pat@, n - m) is None,
        decreases i,
    {
        let mut j: usize = 0;
        let mut same = true;
        while same && j < m
            invariant
                n == msg@.len(),
                m == pat@.len(),
                i + m <= n,
                j <= m,
                same ==> forall|t: int| 0 <= t < j ==> msg@[i + t] == pat@[t],
                !same ==> !occurs(msg@, pat@, i as int),
            decreases m - j,
        {
            if msg.get_char(i + j) != pat.get_char(j) {
                assert(msg@.subrange(i as int, i + m)[j as int] != pat@[j as int]);
                same = false;
            }
            j = j + 1;
        }
        if same {
            assert(msg@.subrange(i as int, i + m) =~= pat@);
            found = Some(i);
            break;
        }
        if i == 0 {
            assert(!occurs(msg@, pat@, 0));
            assert(find_last(msg@, pat@, 0) == find_last(msg@, pat@, -1));
            break;
        }
        i = i - 1;
    }
    let p = match found {
        Some(p) => p,
        None => {
            return None;
        },
    };
    let start = p + m;
    proof {
        lemma_digit_run(msg@, start as int);
    }
    let mut k = start;
    let mut value: usize = 0;
    let mut fits = true;
    while k < n && '0' <= msg.get_char(k) && msg.get_char(k) <= '9'
        invariant
            n == msg@.len(),
            start <= k <= start + digit_run(msg@, start as int),
            start + digit_run(msg@, start as int) <= n,
            forall|j: int| start <= j < start + digit_run(msg@, start as int) ==> '0' <= #[trigger] msg@[j] && msg@[j] <= '9',
            start + digit_run(msg@, start as int) < n ==> !('0' <= msg@[start + digit_run(msg@, start as int)] && msg@[start + digit_run(msg@, start as int)] <= '9'),
            fits ==> value as nat == digits_value(msg@.subrange(start as int, k as int)),
            !fits ==> digits_value(msg@.subrange(start as int, k as int)) > usize::MAX,
        decreases n - k,
    {
        let c = msg.get_char(k);
        let d = (c as u32 - '0' as u32) as usize;
        proof {
            assert(msg@.subrange(start as int, k + 1).drop_last() =~= msg@.subrange(start as int, k as int));
        }
        if fits {
            if value > (usize::MAX - d) / 10 {
                fits = false;
                assert(digits_value(msg@.subrange(start as int, k + 1)) > usize::MAX) by (nonlinear_arith)
                    requires
                        value > (usize::MAX - d) / 10,
                        digits_value(msg@.subrange(start as int, k + 1)) == value * 10 + d,
                        d <= 9;
            } else {
                assert(value * 10 + d <= usize::MAX) by (nonlinear_arith)
                    requires
                        value <= (usize::MAX - d) / 10,
                        d <= 9;
                value = value * 10 + d;
            }
        } else {
            assert(digits_value(msg@.subrange(start as int, k + 1)) >= digits_value(msg@.subrange(start as int, k as int))) by (nonlinear_arith)
                requires
                    digits_value(msg@.subrange(start as int, k + 1)) == digits_value(msg@.subrange(start as int, k as int)) * 10 + d;
        }
        k = k + 1;
    }
    proof {
        if k < start + digit_run(msg@, start as int) {
            assert('0' <= msg@[k as int] && msg@[k as int] <= '9');
        }
    }
    if k == start || !fits {
        return None;
    }
    if value == 0 {
        Some(0)
    } else {
        Some(value - 1)
    }
}

} // verus!
