use vstd::prelude::*;
use vstd::string::StrSliceExecFns;

verus! {

/// What `char::is_whitespace` returns: the Unicode `White_Space` classification,
/// a function of the character alone.
pub uninterp spec fn is_space(c: char) -> bool;

/// What `char::is_alphanumeric` returns: the Unicode alphanumeric classification,
/// a function of the character alone.
pub uninterp spec fn is_alnum(c: char) -> bool;

/// Relies on char::is_whitespace: tests the Unicode `White_Space` property.
pub assume_specification[ char::is_whitespace ](c: char) -> (r: bool)
    ensures
        r == is_space(c),
;

/// Relies on char::is_alphanumeric: tests the Unicode alphanumeric classification.
pub assume_specification[ char::is_alphanumeric ](c: char) -> (r: bool)
    ensures
        r == is_alnum(c),
;

/// What `str::to_lowercase` returns: Unicode lowercasing, a function of the
/// characters alone.
pub uninterp spec fn lower_of(s: Seq<char>) -> Seq<char>;

/// Relies on str::to_lowercase: the result depends on the characters alone.
#[verifier::external_body]
pub(crate) fn lowercase(s: &str) -> (r: String)
    ensures
        r@ == lower_of(s@),
{
    s.to_lowercase()
}

/// Relies on String's FromIterator over characters: the collected string holds
/// exactly the given characters, in order.
#[verifier::external_body]
pub(crate) fn string_from_chars(v: &Vec<char>) -> (r: String)
    ensures
        r@ == v@,
{
    v.iter().collect()
}

/// The characters of a string slice, as a vector.
pub(crate) fn chars_of(s: &str) -> (v: Vec<char>)
    ensures
        v@ == s@,
{
    let n = s.unicode_len();
    let mut v: Vec<char> = Vec::new();
    let mut i: usize = 0;
    while i < n
        invariant
            i <= n,
            n == s@.len(),
            v@ == s@.subrange(0, i as int),
        decreases n - i,
    {
        let c = s.get_char(i);
        v.push(c);
        proof {
            assert(v@ =~= s@.subrange(0, i + 1));
        }
        i += 1;
    }
    proof {
        assert(v@ =~= s@);
    }
    v
}

/// True iff `needle` occurs as a contiguous subsequence of `haystack`.
pub open spec fn contains_seq(haystack: Seq<char>, needle: Seq<char>) -> bool {
    exists|i: int|
        0 <= i && i + needle.len() <= haystack.len() && #[trigger] haystack.subrange(
            i,
            i + needle.len(),
        ) == needle
}

/// Substring search over character vectors.
pub(crate) fn contains_chars(haystack: &Vec<char>, needle: &Vec<char>) -> (r: bool)
    ensures
        r == contains_seq(haystack@, needle@),
{
    let n = needle.len();
    let h = haystack.len();
    if n > h {
        return false;
    }
    if n == 0 {
        proof {
            assert(haystack@.subrange(0, 0 + needle@.len() as int) =~= needle@);
        }
        return true;
    }
    let mut start: usize = 0;
    while start <= h - n
        invariant
            1 <= n <= h,
            h == haystack@.len(),
            n == needle@.len(),
            start <= h - n + 1,
            forall|i: int|
                0 <= i < start ==> #[trigger] haystack@.subrange(i, i + needle@.len())
                    != needle@,
        decreases h - n - start + 1,
    {
        let mut j: usize = 0;
        let mut all_eq = true;
        while j < n
            invariant_except_break
                all_eq,
            invariant
                start + n <= h,
                h == haystack@.len(),
                n == needle@.len(),
                j <= n,
                all_eq ==> forall|k: int| 0 <= k < j ==> haystack@[start + k] == needle@[k],
            ensures
                all_eq ==> j == n && forall|k: int|
                    0 <= k < n ==> haystack@[start + k] == needle@[k],
                !all_eq ==> exists|k: int|
                    0 <= k < n && haystack@[start + k] != needle@[k],
            decreases n - j,
        {
            if haystack[start + j] != needle[j] {
                all_eq = false;
                break;
            }
            j += 1;
        }
        if all_eq {
            proof {
                assert(haystack@.subrange(start as int, start + needle@.len()) =~= needle@);
            }
            return true;
        }
        proof {
            let k = choose|k: int| 0 <= k < n && haystack@[start + k] != needle@[k];
            assert(haystack@.subrange(start as int, start + needle@.len())[k]
                == haystack@[start + k]);
        }
        start += 1;
    }
    proof {
        assert(forall|i: int|
            0 <= i && i + needle@.len() <= haystack@.len() ==> #[trigger] haystack@.subrange(
                i,
                i + needle@.len(),
            ) != needle@);
    }
    false
}

/// First index at or after `i` holding a non-whitespace character.
pub open spec fn skip_ws(s: Seq<char>, i: int) -> int
    decreases s.len() - i,
{
    if i < s.len() && is_space(s[i]) {
        skip_ws(s, i + 1)
    } else {
        i
    }
}

pub proof fn lemma_skip_ws_bounds(s: Seq<char>, i: int)
    requires
        0 <= i <= s.len(),
    ensures
        i <= skip_ws(s, i) <= s.len(),
        forall|k: int| i <= k < skip_ws(s, i) ==> is_space(s[k]),
        skip_ws(s, i) < s.len() ==> !is_space(s[skip_ws(s, i)]),
    decreases s.len() - i,
{
    if i < s.len() && is_space(s[i]) {
        lemma_skip_ws_bounds(s, i + 1);
    }
}

/// Index of the end of the run of leading whitespace when walking from `i` forward,
/// stated over a subrange; mirrors `skip_ws` for trimming from the right.
pub open spec fn rtrim_idx(s: Seq<char>, j: int) -> int
    decreases j,
{
    if j > 0 && j <= s.len() && is_space(s[j - 1]) {
        rtrim_idx(s, j - 1)
    } else {
        j
    }
}

pub proof fn lemma_rtrim_bounds(s: Seq<char>, j: int)
    requires
        0 <= j <= s.len(),
    ensures
        0 <= rtrim_idx(s, j) <= j,
        forall|k: int| rtrim_idx(s, j) <= k < j ==> is_space(s[k]),
        rtrim_idx(s, j) > 0 ==> !is_space(s[rtrim_idx(s, j) - 1]),
    decreases j,
{
    if j > 0 && is_space(s[j - 1]) {
        lemma_rtrim_bounds(s, j - 1);
    }
}

/// What trimming Unicode whitespace from both ends of `s` leaves.
pub open spec fn trim_seq(s: Seq<char>) -> Seq<char> {
    let a = skip_ws(s, 0);
    let b = rtrim_idx(s, s.len() as int);
    if a <= b {
        s.subrange(a, b)
    } else {
        Seq::empty()
    }
}

/// Copies `v[from..to]` with leading and trailing whitespace removed.
pub(crate) fn trim_chars(v: &Vec<char>, from: usize, to: usize) -> (r: Vec<char>)
    requires
        from <= to <= v@.len(),
    ensures
        r@ == trim_seq(v@.subrange(from as int, to as int)),
{
    let ghost s = v@.subrange(from as int, to as int);
    let mut a = from;
    while a < to && v[a].is_whitespace()
        invariant
            from <= a <= to <= v@.len(),
            skip_ws(s, 0) == skip_ws(s, a - from),
            s == v@.subrange(from as int, to as int),
        decreases to - a,
    {
        a += 1;
    }
    proof {
        assert(skip_ws(s, a - from) == a - from);
    }
    let mut b = to;
    while b > a && v[b - 1].is_whitespace()
        invariant
            from <= a <= b <= to <= v@.len(),
            skip_ws(s, 0) == a - from,
            rtrim_idx(s, s.len() as int) == rtrim_idx(s, b - from),
            s == v@.subrange(from as int, to as int),
        decreases b,
    {
        b -= 1;
    }
    proof {
        lemma_rtrim_bounds(s, b - from);
        if b > a {
            assert(rtrim_idx(s, b - from) == b - from);
        }
    }
    let mut r: Vec<char> = Vec::new();
    let mut i = a;
    while i < b
        invariant
            from <= a <= i <= b <= to <= v@.len(),
            r@ == v@.subrange(a as int, i as int),
        decreases b - i,
    {
        r.push(v[i]);
        proof {
            assert(r@ =~= v@.subrange(a as int, i + 1));
        }
        i += 1;
    }
    proof {
        assert(r@ =~= trim_seq(s));
    }
    r
}

/// An ASCII decimal digit.
pub open spec fn is_digit(c: char) -> bool {
    48 <= c as u32 <= 57
}

pub open spec fn all_digits(s: Seq<char>) -> bool {
    forall|k: int| 0 <= k < s.len() ==> is_digit(#[trigger] s[k])
}

pub open spec fn digit_val(c: char) -> int {
    c as u32 - 48
}

/// The value of a run of decimal digits, most significant first.
pub open spec fn digits_val(s: Seq<char>) -> int
    decreases s.len(),
{
    if s.len() == 0 {
        0
    } else {
        digits_val(s.drop_last()) * 10 + digit_val(s.last())
    }
}

pub proof fn lemma_digits_val_nonneg(s: Seq<char>)
    requires
        all_digits(s),
    ensures
        digits_val(s) >= 0,
    decreases s.len(),
{
    if s.len() > 0 {
        assert(all_digits(s.drop_last()));
        lemma_digits_val_nonneg(s.drop_last());
    }
}

/// Extending a digit run to the right can only grow its value.
pub proof fn lemma_digits_val_prefix(s: Seq<char>, i: int)
    requires
        all_digits(s),
        0 <= i <= s.len(),
    ensures
        digits_val(s) >= digits_val(s.subrange(0, i)),
    decreases s.len() - i,
{
    if i < s.len() {
        lemma_digits_val_prefix(s, i + 1);
        let p = s.subrange(0, i + 1);
        assert(p.drop_last() =~= s.subrange(0, i));
        assert(all_digits(s.subrange(0, i)));
        lemma_digits_val_nonneg(s.subrange(0, i));
    } else {
        assert(s.subrange(0, i) =~= s);
    }
}

/// Parses `v[from..to]` as a decimal number; `None` when the value exceeds `u64::MAX`.
pub(crate) fn parse_digits_u64(v: &Vec<char>, from: usize, to: usize) -> (r: Option<u64>)
    requires
        from <= to <= v@.len(),
        all_digits(v@.subrange(from as int, to as int)),
    ensures
        match r {
            Some(x) => x == digits_val(v@.subrange(from as int, to as int)),
            None => digits_val(v@.subrange(from as int, to as int)) > u64::MAX,
        },
{
    let ghost s = v@.subrange(from as int, to as int);
    let mut acc: u64 = 0;
    let mut i = from;
    while i < to
        invariant
            from <= i <= to <= v@.len(),
            s == v@.subrange(from as int, to as int),
            all_digits(s),
            acc == digits_val(s.subrange(0, i - from)),
        decreases to - i,
    {
        let c = v[i];
        proof {
            assert(s[i - from] == v@[i as int]);
            assert(is_digit(s[i - from]));
            assert(s.subrange(0, i - from + 1).drop_last() =~= s.subrange(0, i - from));
            assert(s.subrange(0, i - from + 1).last() == s[i - from]);
        }
        let d = (c as u32) - 48;
        let overflowed: bool;
        match acc.checked_mul(10) {
            Some(x) => {
                match x.checked_add(d as u64) {
                    Some(y) => {
                        acc = y;
                        overflowed = false;
                    },
                    None => {
                        overflowed = true;
                    },
                }
            },
            None => {
                overflowed = true;
            },
        }
        if overflowed {
            proof {
                assert(digits_val(s.subrange(0, i - from + 1)) > u64::MAX);
                lemma_digits_val_prefix(s, i - from + 1);
            }
            return None;
        }
        i += 1;
    }
    proof {
        assert(s.subrange(0, to - from) =~= s);
    }
    Some(acc)
}

/// First index at or after `i` holding a non-digit.
pub open spec fn digit_run_end(s: Seq<char>, i: int) -> int
    decreases s.len() - i,
{
    if i < s.len() && is_digit(s[i]) {
        digit_run_end(s, i + 1)
    } else {
        i
    }
}

pub(crate) fn is_digit_exec(c: char) -> (r: bool)
    ensures
        r == is_digit(c),
{
    let u = c as u32;
    48 <= u && u <= 57
}

#[verifier::loop_isolation(false)]
pub(crate) fn digit_run_end_exec(v: &Vec<char>, i: usize) -> (r: usize)
    requires
        i <= v@.len(),
    ensures
        r as int == digit_run_end(v@, i as int),
        i <= r <= v@.len(),
        all_digits(v@.subrange(i as int, r as int)),
{
    let mut j = i;
    while j < v.len() && is_digit_exec(v[j])
        invariant
            i <= j <= v@.len(),
            digit_run_end(v@, i as int) == digit_run_end(v@, j as int),
            forall|k: int| i <= k < j ==> is_digit(v@[k]),
        decreases v@.len() - j,
    {
        j += 1;
    }
    proof {
        assert(forall|k: int|
            0 <= k < j - i ==> is_digit(#[trigger] v@.subrange(i as int, j as int)[k]));
    }
    j
}

/// A decimal digit as its character.
pub open spec fn digit_char(d: int) -> char {
    if d == 0 {
        '0'
    } else if d == 1 {
        '1'
    } else if d == 2 {
        '2'
    } else if d == 3 {
        '3'
    } else if d == 4 {
        '4'
    } else if d == 5 {
        '5'
    } else if d == 6 {
        '6'
    } else if d == 7 {
        '7'
    } else if d == 8 {
        '8'
    } else {
        '9'
    }
}

/// The decimal rendering of a natural number, no sign and no leading zeros.
pub open spec fn dec_str(n: nat) -> Seq<char>
    decreases n,
{
    if n < 10 {
        seq![digit_char(n as int)]
    } else {
        dec_str(n / 10).push(digit_char((n % 10) as int))
    }
}

fn digit_char_exec(d: u64) -> (r: char)
    requires
        d < 10,
    ensures
        r == digit_char(d as int),
{
    if d == 0 {
        '0'
    } else if d == 1 {
        '1'
    } else if d == 2 {
        '2'
    } else if d == 3 {
        '3'
    } else if d == 4 {
        '4'
    } else if d == 5 {
        '5'
    } else if d == 6 {
        '6'
    } else if d == 7 {
        '7'
    } else if d == 8 {
        '8'
    } else {
        '9'
    }
}

/// Renders an unsigned integer in decimal: digits collected lowest first, then
/// reversed.
#[verifier::loop_isolation(false)]
pub(crate) fn u64_to_dec(n: u64) -> (r: String)
    ensures
        r@ == dec_str(n as nat),
{
    let mut rev: Vec<char> = Vec::new();
    if n == 0 {
        rev.push('0');
        proof {
            assert(rev@ =~= dec_str(0));
        }
        return string_from_chars(&rev);
    }
    let mut m = n;
    while m > 0
        invariant
            m > 0 ==> dec_str(n as nat) == dec_str(m as nat) + rev@.reverse(),
            m == 0 ==> dec_str(n as nat) == rev@.reverse(),
        decreases m,
    {
        let d = m % 10;
        let c = digit_char_exec(d);
        let ghost old_rev = rev@;
        rev.push(c);
        proof {
            assert(rev@.reverse() =~= seq![c] + old_rev.reverse());
            if m >= 10 {
                assert(dec_str(m as nat) == dec_str((m / 10) as nat).push(
                    digit_char((m % 10) as int),
                ));
                assert(dec_str((m / 10) as nat).push(c) + old_rev.reverse() =~= dec_str(
                    (m / 10) as nat,
                ) + (seq![c] + old_rev.reverse()));
            } else {
                assert(dec_str(m as nat) == seq![digit_char(m as int)]);
                assert(seq![c] + old_rev.reverse() =~= dec_str(m as nat) + old_rev.reverse());
            }
        }
        m = m / 10;
    }
    let mut out: Vec<char> = Vec::new();
    let mut i = rev.len();
    while i > 0
        invariant
            i <= rev@.len(),
            out@.len() == rev@.len() - i,
            forall|k: int| 0 <= k < out@.len() ==> out@[k] == rev@[rev@.len() - 1 - k],
        decreases i,
    {
        i -= 1;
        out.push(rev[i]);
    }
    proof {
        assert(out@ =~= rev@.reverse());
    }
    string_from_chars(&out)
}

} // verus!

