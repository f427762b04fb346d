use vstd::prelude::*;

use crate::text::{
    chars_of, digit_run_end, digit_run_end_exec, digits_val, is_alnum, is_digit, parse_digits_u64,
    string_from_chars, trim_chars, trim_seq,
};

verus! {

// A raw listing title is decomposed by one fixed shape: a bracketed leading
// token (the category), free text up to a dollar sign (the description), a
// dollar amount (integer dollars with an optional cents group), and any
// trailing text that starts with a non-digit (extra notes). The earliest
// bracket from which the whole shape can be read wins; a title without the
// shape is non-actionable and yields nothing.

/// A character the category class accepts: alphanumeric, underscore or space.
/// A deliberately plain class: combining marks and connector punctuation other
/// than the underscore, which a broader word-character class would also take,
/// do not occur in the category names this watches.
pub open spec fn is_word(c: char) -> bool {
    is_alnum(c) || c == '_' || c == ' '
}

/// First index at or after `i` holding a non-category character.
pub open spec fn word_run_end(s: Seq<char>, i: int) -> int
    decreases s.len() - i,
{
    if i < s.len() && is_word(s[i]) {
        word_run_end(s, i + 1)
    } else {
        i
    }
}

/// First index at or after `i` holding exactly `c`.
pub open spec fn find_char(s: Seq<char>, i: int, c: char) -> Option<int>
    decreases s.len() - i,
{
    if i >= s.len() {
        None
    } else if s[i] == c {
        Some(i)
    } else {
        find_char(s, i + 1, c)
    }
}

/// Where the dollar sign after the category bracket ends, or -1 when there is
/// none.
pub open spec fn title_dollar_pos(s: Seq<char>, te: int) -> int {
    match find_char(s, te + 1, '$') {
        Some(d) => d,
        None => -1,
    }
}

/// Whether the whole title shape can be read from the bracket at `b`.
pub open spec fn title_match_at(s: Seq<char>, b: int) -> bool {
    let te = word_run_end(s, b + 1);
    let d = title_dollar_pos(s, te);
    &&& 0 <= b < s.len()
    &&& s[b] == '['
    &&& te > b + 1
    &&& te < s.len() && s[te] == ']'
    &&& find_char(s, te + 1, '$') is Some
    &&& digit_run_end(s, d + 1) > d + 1
}

/// The earliest bracket at or after `i` from which the title shape can be read.
pub open spec fn find_match(s: Seq<char>, i: int) -> Option<int>
    decreases s.len() - i,
{
    if i >= s.len() {
        None
    } else if s[i] == '[' && title_match_at(s, i) {
        Some(i)
    } else {
        find_match(s, i + 1)
    }
}

pub proof fn lemma_find_match(s: Seq<char>, i: int)
    requires
        0 <= i <= s.len(),
    ensures
        find_match(s, i) matches Some(b) ==> i <= b < s.len() && title_match_at(s, b),
    decreases s.len() - i,
{
    if i < s.len() && !(s[i] == '[' && title_match_at(s, i)) {
        lemma_find_match(s, i + 1);
    }
}

/// The shape of a parsed title.
pub struct TitleV {
    pub post_id: Seq<char>,
    pub product_type: Seq<char>,
    pub description: Seq<char>,
    pub price_dollars: int,
    pub price_cents: int,
    pub extra_details: Option<Seq<char>>,
}

/// What parsing a title yields: the decomposition at the earliest matching
/// bracket, or nothing when no bracket matches or a price component does not
/// fit its integer type.
pub open spec fn spec_parse_title(s: Seq<char>, pid: Seq<char>) -> Option<TitleV> {
    match find_match(s, 0) {
        None => None,
        Some(b) => {
            let te = word_run_end(s, b + 1);
            let d = title_dollar_pos(s, te);
            let e = digit_run_end(s, d + 1);
            let dv = digits_val(s.subrange(d + 1, e));
            let has_cents = e < s.len() && s[e] == '.' && digit_run_end(s, e + 1) > e + 1;
            let f = digit_run_end(s, e + 1);
            let cv = if has_cents {
                digits_val(s.subrange(e + 1, f))
            } else {
                0
            };
            let pos = if has_cents {
                f
            } else {
                e
            };
            if dv > i32::MAX || cv > i8::MAX {
                None
            } else {
                let extra = if pos < s.len() {
                    let m = match find_char(s, pos + 1, '\n') {
                        Some(nl) => nl,
                        None => s.len() as int,
                    };
                    Some(trim_seq(s.subrange(pos, m)))
                } else {
                    None::<Seq<char>>
                };
                Some(
                    TitleV {
                        post_id: pid,
                        product_type: trim_seq(s.subrange(b + 1, te)),
                        description: trim_seq(s.subrange(te + 1, d)),
                        price_dollars: dv,
                        price_cents: cv,
                        extra_details: extra,
                    },
                )
            }
        },
    }
}

/// The structured decomposition of a listing title.
#[derive(Debug, PartialEq, Eq)]
pub struct Title {
    pub post_id: String,
    pub product_type: String,
    pub description: String,
    pub price_dollars: i32,
    pub price_cents: i8,
    pub extra_details: Option<String>,
}

impl View for Title {
    type V = TitleV;

    open spec fn view(&self) -> TitleV {
        TitleV {
            post_id: self.post_id@,
            product_type: self.product_type@,
            description: self.description@,
            price_dollars: self.price_dollars as int,
            price_cents: self.price_cents as int,
            extra_details: match &self.extra_details {
                Some(x) => Some(x@),
                None => None,
            },
        }
    }
}

pub open spec fn view_opt_title(t: &Option<Title>) -> Option<TitleV> {
    match t {
        Some(x) => Some(x@),
        None => None,
    }
}

#[verifier::loop_isolation(false)]
fn word_run_end_exec(v: &Vec<char>, i: usize) -> (r: usize)
    requires
        i <= v@.len(),
    ensures
        r as int == word_run_end(v@, i as int),
        i <= r <= v@.len(),
    decreases v@.len() - i,
{
    let mut j = i;
    while j < v.len() && (v[j].is_alphanumeric() || v[j] == '_' || v[j] == ' ')
        invariant
            i <= j <= v@.len(),
            word_run_end(v@, i as int) == word_run_end(v@, j as int),
        decreases v@.len() - j,
    {
        j += 1;
    }
    j
}

#[verifier::loop_isolation(false)]
fn find_char_exec(v: &Vec<char>, i: usize, c: char) -> (r: Option<usize>)
    requires
        i <= v@.len(),
    ensures
        match r {
            Some(j) => find_char(v@, i as int, c) == Some(j as int) && i <= j < v@.len(),
            None => find_char(v@, i as int, c) is None,
        },
{
    let mut j = i;
    while j < v.len() && v[j] != c
        invariant
            i <= j <= v@.len(),
            find_char(v@, i as int, c) == find_char(v@, j as int, c),
        decreases v@.len() - j,
    {
        j += 1;
    }
    if j < v.len() {
        Some(j)
    } else {
        None
    }
}

impl Title {
    /// Decomposes a raw listing title; `None` when the title shape cannot be
    /// found or a price component does not fit.
    #[verifier::loop_isolation(false)]
    pub fn parse(title: &str, post_id: &str) -> (r: Option<Title>)
        ensures
            view_opt_title(&r) == spec_parse_title(title@, post_id@),
    {
        let v = chars_of(title);
        let ghost s = v@;
        let n = v.len();
        let mut b: usize = 0;
        let mut found: Option<usize> = None;
        while b < n && found.is_none()
            invariant
                b <= n,
                found is None ==> find_match(s, 0) == find_match(s, b as int),
                match found {
                    Some(bb) => find_match(s, 0) == Some(bb as int) && bb < n,
                    None => true,
                },
            decreases n - b, (if found is None { 1int } else { 0int }),
        {
            if v[b] == '[' {
                let te = word_run_end_exec(&v, b + 1);
                let mut ok = te > b + 1 && te < n;
                if ok {
                    ok = v[te] == ']';
                }
                if ok {
                    match find_char_exec(&v, te + 1, '$') {
                        Some(d) => {
                            let e = digit_run_end_exec(&v, d + 1);
                            if e > d + 1 {
                                found = Some(b);
                                proof {
                                    assert(title_match_at(s, b as int));
                                }
                            } else {
                                b += 1;
                            }
                        },
                        None => {
                            b += 1;
                        },
                    }
                } else {
                    b += 1;
                }
            } else {
                b += 1;
            }
        }
        let b = match found {
            Some(bb) => bb,
            None => {
                proof {
                    assert(find_match(s, 0) is None);
                }
                return None;
            },
        };
        proof {
            lemma_find_match(s, 0);
            assert(title_match_at(s, b as int));
        }
        let te = word_run_end_exec(&v, b + 1);
        let d = match find_char_exec(&v, te + 1, '$') {
            Some(d) => d,
            None => {
                return None;
            },
        };
        let e = digit_run_end_exec(&v, d + 1);
        let dollars = match parse_digits_u64(&v, d + 1, e) {
            Some(x) => {
                if x > i32::MAX as u64 {
                    return None;
                }
                x as i32
            },
            None => {
                return None;
            },
        };
        let mut has_cents = e < n;
        if has_cents {
            has_cents = v[e] == '.';
        }
        let f = if has_cents {
            digit_run_end_exec(&v, e + 1)
        } else {
            e
        };
        if has_cents {
            has_cents = f > e + 1;
        }
        let cents: i8 = if has_cents {
            match parse_digits_u64(&v, e + 1, f) {
                Some(x) => {
                    if x > i8::MAX as u64 {
                        return None;
                    }
                    x as i8
                },
                None => {
                    return None;
                },
            }
        } else {
            0
        };
        let pos = if has_cents {
            f
        } else {
            e
        };
        let extra_details: Option<String> = if pos < n {
            let m = match find_char_exec(&v, pos + 1, '\n') {
                Some(nl) => nl,
                None => n,
            };
            let t = trim_chars(&v, pos, m);
            Some(string_from_chars(&t))
        } else {
            None
        };
        let tt = trim_chars(&v, b + 1, te);
        let product_type = string_from_chars(&tt);
        let dd = trim_chars(&v, te + 1, d);
        let description = string_from_chars(&dd);
        Some(
            Title {
                post_id: post_id.to_owned(),
                product_type,
                description,
                price_dollars: dollars,
                price_cents: cents,
                extra_details,
            },
        )
    }

    /// The price in tenths of a dollar: the rules compare a listing's price as
    /// dollars plus one tenth per cents unit against whole-dollar bounds.
    pub fn price_tenths(&self) -> (r: i64)
        ensures
            r == self@.price_dollars * 10 + self@.price_cents,
    {
        (self.price_dollars as i64) * 10 + (self.price_cents as i64)
    }
}

} // verus!
