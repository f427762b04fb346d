use vstd::prelude::*;

use crate::pattern::{Pattern, SpecPat};
use crate::text::{chars_of, is_alnum, is_space, skip_ws, lemma_skip_ws_bounds, string_from_chars};

verus! {

// The pattern grammar, parsed by `Scanner`:
//   Pattern  := Factor PatternTail
//   PatternTail := ('&&' | '||') Factor PatternTail | epsilon
//   Factor   := '(' Pattern ')' | '!' Pattern | Keyword
//   Keyword  := quoted string | run of alphanumeric characters
// `&&` and `||` have equal precedence and associate strictly left to right.

/// One token of the pattern language.
#[derive(Debug, PartialEq, Eq)]
pub enum Token {
    ParenOpen,
    ParenClose,
    OpAnd,
    OpOr,
    OpNegate,
    Keyword(String),
}

/// The shape of a token.
pub enum TokV {
    LP,
    RP,
    AndOp,
    OrOp,
    NotOp,
    Kw(Seq<char>),
}

impl View for Token {
    type V = TokV;

    open spec fn view(&self) -> TokV {
        match self {
            Token::ParenOpen => TokV::LP,
            Token::ParenClose => TokV::RP,
            Token::OpAnd => TokV::AndOp,
            Token::OpOr => TokV::OrOp,
            Token::OpNegate => TokV::NotOp,
            Token::Keyword(k) => TokV::Kw(k@),
        }
    }
}

pub open spec fn view_opt_token(t: &Option<Token>) -> Option<TokV> {
    match t {
        Some(tok) => Some(tok@),
        None => None,
    }
}

/// A list of expected tokens, reported in a parse error.
#[derive(Debug, PartialEq, Eq)]
pub struct Tokens(pub Vec<Token>);

/// A token or the end of the input, reported in a parse error.
#[derive(Debug, PartialEq, Eq)]
pub struct MaybeToken(pub Option<Token>);

/// A character or the end of the input, reported in a parse error.
#[derive(Debug, PartialEq, Eq)]
pub struct MaybeChar(pub Option<char>);

/// A positional parse error, or a shape error in a rule definition.
#[derive(Debug, PartialEq, Eq)]
pub enum Error {
    ExpectedButGotToken(usize, Tokens, MaybeToken),
    ExpectedButGotChar(usize, String, MaybeChar),
    ExpectedNonWhitespace(usize, MaybeChar),
    InvalidKeywordChar(usize, char),
    EmptyKeyword(usize),
    CantRewindToken(usize),
    NotAnObject,
    BadValue(String),
}

/// The shape of a parse error.
pub enum ErrV {
    ExpectedButGotToken(int, Seq<TokV>, Option<TokV>),
    ExpectedButGotChar(int, Seq<char>, Option<char>),
    ExpectedNonWhitespace(int, Option<char>),
    InvalidKeywordChar(int, char),
    EmptyKeyword(int),
    CantRewindToken(int),
    NotAnObject,
    BadValue(Seq<char>),
}

pub open spec fn view_tokens(ts: &Tokens) -> Seq<TokV> {
    ts.0@.map_values(|t: Token| t@)
}

impl View for Error {
    type V = ErrV;

    open spec fn view(&self) -> ErrV {
        match self {
            Error::ExpectedButGotToken(col, ts, t) => ErrV::ExpectedButGotToken(
                *col as int,
                view_tokens(ts),
                view_opt_token(&t.0),
            ),
            Error::ExpectedButGotChar(col, cs, c) => ErrV::ExpectedButGotChar(
                *col as int,
                cs@,
                c.0,
            ),
            Error::ExpectedNonWhitespace(col, c) => ErrV::ExpectedNonWhitespace(*col as int, c.0),
            Error::InvalidKeywordChar(col, c) => ErrV::InvalidKeywordChar(*col as int, *c),
            Error::EmptyKeyword(col) => ErrV::EmptyKeyword(*col as int),
            Error::CantRewindToken(col) => ErrV::CantRewindToken(*col as int),
            Error::NotAnObject => ErrV::NotAnObject,
            Error::BadValue(k) => ErrV::BadValue(k@),
        }
    }
}

// ---------------------------------------------------------------------------
// The tokenizer, as spec functions over the character sequence. These are the
// ground truth the executable scanner is proved against.
// ---------------------------------------------------------------------------

/// Scans the rest of an unquoted keyword from `i`: stops before whitespace, an
/// operator character or a parenthesis; any other non-alphanumeric character is
/// an error.
pub open spec fn scan_kw_rest(s: Seq<char>, i: int, acc: Seq<char>) -> Result<
    (Seq<char>, int),
    ErrV,
>
    decreases s.len() - i,
{
    if i >= s.len() {
        Ok((acc, i))
    } else {
        let ch = s[i];
        if is_space(ch) || ch == '!' || ch == '|' || ch == '&' || ch == '(' || ch == ')' {
            Ok((acc, i))
        } else if !is_alnum(ch) {
            Err(ErrV::InvalidKeywordChar(i, ch))
        } else {
            scan_kw_rest(s, i + 1, acc.push(ch))
        }
    }
}

/// Scans a quoted keyword: everything up to the closing quote (or the end of
/// the input), starting just after the opening quote at `i - 1`.
pub open spec fn scan_quoted_rest(s: Seq<char>, i: int, acc: Seq<char>) -> (Seq<char>, int)
    decreases s.len() - i,
{
    if i >= s.len() {
        (acc, i)
    } else if s[i] == '"' {
        (acc, i + 1)
    } else {
        scan_quoted_rest(s, i + 1, acc.push(s[i]))
    }
}

/// Scans a quoted keyword body beginning at `i` (the opening quote already
/// consumed); an immediately closing quote is an empty keyword, an error.
pub open spec fn scan_quoted(s: Seq<char>, i: int) -> Result<(Seq<char>, int), ErrV> {
    if i < s.len() && s[i] == '"' {
        Err(ErrV::EmptyKeyword(i + 1))
    } else {
        Ok(scan_quoted_rest(s, i, Seq::empty()))
    }
}

/// Scans a keyword at `i`: a quoted literal, or an unquoted run of
/// alphanumeric characters; any other character in an unquoted keyword, its
/// first included, is a syntax error.
pub open spec fn scan_keyword(s: Seq<char>, i: int) -> Result<(Seq<char>, int), ErrV> {
    if i < s.len() && s[i] == '"' {
        scan_quoted(s, i + 1)
    } else if i >= s.len() {
        Err(ErrV::ExpectedNonWhitespace(i, None))
    } else if is_space(s[i]) {
        Err(ErrV::ExpectedNonWhitespace(i + 1, Some(s[i])))
    } else if !is_alnum(s[i]) {
        Err(ErrV::InvalidKeywordChar(i, s[i]))
    } else {
        scan_kw_rest(s, i + 1, seq![s[i]])
    }
}

/// Scans one token starting at `i`, skipping leading whitespace. `Ok((None, j))`
/// is the end of the input.
pub open spec fn scan_token(s: Seq<char>, i: int) -> Result<(Option<TokV>, int), ErrV> {
    let j = skip_ws(s, i);
    if j >= s.len() {
        Ok((None, j))
    } else if s[j] == '(' {
        Ok((Some(TokV::LP), j + 1))
    } else if s[j] == ')' {
        Ok((Some(TokV::RP), j + 1))
    } else if s[j] == '!' {
        Ok((Some(TokV::NotOp), j + 1))
    } else if s[j] == '|' {
        if j + 1 < s.len() {
            if s[j + 1] == '|' {
                Ok((Some(TokV::OrOp), j + 2))
            } else {
                Err(ErrV::ExpectedButGotChar(j + 2, seq!['|'], Some(s[j + 1])))
            }
        } else {
            Err(ErrV::ExpectedButGotChar(j + 1, seq!['|'], None))
        }
    } else if s[j] == '&' {
        if j + 1 < s.len() {
            if s[j + 1] == '&' {
                Ok((Some(TokV::AndOp), j + 2))
            } else {
                Err(ErrV::ExpectedButGotChar(j + 2, seq!['&'], Some(s[j + 1])))
            }
        } else {
            Err(ErrV::ExpectedButGotChar(j + 1, seq!['&'], None))
        }
    } else {
        match scan_keyword(s, j) {
            Ok((kw, end)) => Ok((Some(TokV::Kw(kw)), end)),
            Err(e) => Err(e),
        }
    }
}

// ---------------------------------------------------------------------------
// The parser, as spec functions. Positions handed to recursive calls are
// clamped forward purely so that termination is definitional; the bounds
// lemmas below show every clamp is the identity on the positions that occur.
// ---------------------------------------------------------------------------

/// What remains of the input from position `i` on; never negative, so that it
/// can serve as a termination measure.
pub open spec fn rem(s: Seq<char>, i: int) -> int {
    if s.len() - i >= 0 {
        s.len() - i
    } else {
        0
    }
}

/// The pending right-hand parts of a pattern being parsed left to right.
pub enum PartV {
    AndP(SpecPat, Option<Box<PartV>>),
    OrP(SpecPat, Option<Box<PartV>>),
}

/// Folds pending parts onto `lhs`, left-associatively.
pub open spec fn spec_apply(pp: PartV, lhs: SpecPat) -> SpecPat
    decreases pp,
{
    match pp {
        PartV::AndP(rhs, rest) => {
            let l2 = SpecPat::And(Box::new(lhs), Box::new(rhs));
            match rest {
                Some(p) => spec_apply(*p, l2),
                None => l2,
            }
        },
        PartV::OrP(rhs, rest) => {
            let l2 = SpecPat::Or(Box::new(lhs), Box::new(rhs));
            match rest {
                Some(p) => spec_apply(*p, l2),
                None => l2,
            }
        },
    }
}

/// Parses a factor at `i`: a parenthesised pattern, a negated pattern, or a
/// keyword.
pub open spec fn spec_factor(s: Seq<char>, i: int) -> Result<(SpecPat, int), ErrV>
    decreases rem(s, i), 0int,
{
    match scan_token(s, i) {
        Err(e) => Err(e),
        Ok((t, j)) => {
            let j1 = if j <= i {
                i + 1
            } else {
                j
            };
            match t {
                Some(TokV::LP) => match spec_pattern(s, j1) {
                    Err(e) => Err(e),
                    Ok((p, k)) => {
                        match scan_token(s, k) {
                            Err(e) => Err(e),
                            Ok((t2, m)) => if t2 == Some(TokV::RP) {
                                Ok((p, m))
                            } else {
                                Err(ErrV::ExpectedButGotToken(m, seq![TokV::RP], None))
                            },
                        }
                    },
                },
                Some(TokV::NotOp) => match spec_pattern(s, j1) {
                    Err(e) => Err(e),
                    Ok((p, k)) => Ok((SpecPat::Not(Box::new(p)), k)),
                },
                Some(TokV::Kw(kw)) => Ok((SpecPat::Exact(kw), j)),
                _ => Err(
                    ErrV::ExpectedButGotToken(j, seq![TokV::LP, TokV::Kw(Seq::empty())], t),
                ),
            }
        },
    }
}

/// Parses a pattern at `i`: a factor followed by its tail of operator-factor
/// pairs, folded strictly left to right with equal operator precedence.
pub open spec fn spec_pattern(s: Seq<char>, i: int) -> Result<(SpecPat, int), ErrV>
    decreases rem(s, i), 1int,
{
    match spec_factor(s, i) {
        Err(e) => Err(e),
        Ok((f, j)) => {
            let j1 = if j <= i {
                i + 1
            } else {
                j
            };
            match spec_tail(s, j1) {
                Err(e) => Err(e),
                Ok((None, k)) => Ok((f, k)),
                Ok((Some(pp), k)) => Ok((spec_apply(pp, f), k)),
            }
        },
    }
}

/// Parses a pattern tail at `i`: an operator and a factor followed by the rest
/// of the tail, or nothing, in which case the scanned token is put back.
pub open spec fn spec_tail(s: Seq<char>, i: int) -> Result<(Option<PartV>, int), ErrV>
    decreases rem(s, i), 0int,
{
    match scan_token(s, i) {
        Err(e) => Err(e),
        Ok((t, j)) => {
            if t == Some(TokV::AndOp) || t == Some(TokV::OrOp) {
                let j1 = if j <= i {
                    i + 1
                } else {
                    j
                };
                match spec_factor(s, j1) {
                    Err(e) => Err(e),
                    Ok((f, k)) => {
                        let k1 = if k <= j1 {
                            j1 + 1
                        } else {
                            k
                        };
                        match spec_tail(s, k1) {
                            Err(e) => Err(e),
                            Ok((rest, m)) => {
                                let rb = match rest {
                                    Some(p) => Some(Box::new(p)),
                                    None => None,
                                };
                                if t == Some(TokV::AndOp) {
                                    Ok((Some(PartV::AndP(f, rb)), m))
                                } else {
                                    Ok((Some(PartV::OrP(f, rb)), m))
                                }
                            },
                        }
                    },
                }
            } else {
                Ok((None, skip_ws(s, i)))
            }
        },
    }
}

// ---------------------------------------------------------------------------
// Bounds: every scan and parse step stays inside the input and every
// successful step that consumed a token moved forward.
// ---------------------------------------------------------------------------

pub proof fn lemma_scan_kw_rest_bounds(s: Seq<char>, i: int, acc: Seq<char>)
    requires
        0 <= i <= s.len(),
    ensures
        scan_kw_rest(s, i, acc) matches Ok((kw, e)) ==> i <= e <= s.len(),
    decreases s.len() - i,
{
    if i < s.len() {
        let ch = s[i];
        if !(is_space(ch) || ch == '!' || ch == '|' || ch == '&' || ch == '(' || ch == ')')
            && is_alnum(ch) {
            lemma_scan_kw_rest_bounds(s, i + 1, acc.push(ch));
        }
    }
}

pub proof fn lemma_scan_quoted_rest_bounds(s: Seq<char>, i: int, acc: Seq<char>)
    requires
        0 <= i <= s.len(),
    ensures
        i <= scan_quoted_rest(s, i, acc).1 <= s.len(),
    decreases s.len() - i,
{
    if i < s.len() && s[i] != '"' {
        lemma_scan_quoted_rest_bounds(s, i + 1, acc.push(s[i]));
    }
}

pub proof fn lemma_scan_keyword_bounds(s: Seq<char>, i: int)
    requires
        0 <= i <= s.len(),
    ensures
        scan_keyword(s, i) matches Ok((kw, e)) ==> i + 1 <= e <= s.len(),
{
    if i < s.len() && s[i] == '"' {
        if !(i + 1 < s.len() && s[i + 1] == '"') {
            lemma_scan_quoted_rest_bounds(s, i + 1, Seq::empty());
        }
    } else if i < s.len() && !is_space(s[i]) && is_alnum(s[i]) {
        lemma_scan_kw_rest_bounds(s, i + 1, seq![s[i]]);
    }
}

pub proof fn lemma_scan_token_bounds(s: Seq<char>, i: int)
    requires
        0 <= i <= s.len(),
    ensures
        scan_token(s, i) matches Ok((t, j)) ==> {
            &&& skip_ws(s, i) <= j <= s.len()
            &&& i <= j
            &&& (t is Some ==> skip_ws(s, i) + 1 <= j && i + 1 <= j)
        },
{
    lemma_skip_ws_bounds(s, i);
    let j = skip_ws(s, i);
    if j < s.len() {
        if !(s[j] == '(' || s[j] == ')' || s[j] == '!' || s[j] == '|' || s[j] == '&') {
            lemma_scan_keyword_bounds(s, j);
        }
    }
}

pub proof fn lemma_spec_factor_bounds(s: Seq<char>, i: int)
    requires
        0 <= i <= s.len(),
    ensures
        spec_factor(s, i) matches Ok((p, j)) ==> i + 1 <= j <= s.len(),
    decreases s.len() - i, 0int,
{
    lemma_scan_token_bounds(s, i);
    if let Ok((t, j)) = scan_token(s, i) {
        let j1 = if j <= i {
            i + 1
        } else {
            j
        };
        match t {
            Some(TokV::LP) => {
                lemma_spec_pattern_bounds(s, j1);
                if let Ok((p, k)) = spec_pattern(s, j1) {
                    lemma_scan_token_bounds(s, k);
                }
            },
            Some(TokV::NotOp) => {
                lemma_spec_pattern_bounds(s, j1);
            },
            _ => {},
        }
    }
}

pub proof fn lemma_spec_pattern_bounds(s: Seq<char>, i: int)
    requires
        0 <= i <= s.len(),
    ensures
        spec_pattern(s, i) matches Ok((p, j)) ==> i + 1 <= j <= s.len(),
    decreases s.len() - i, 1int,
{
    lemma_spec_factor_bounds(s, i);
    if let Ok((f, j)) = spec_factor(s, i) {
        let j1 = if j <= i {
            i + 1
        } else {
            j
        };
        lemma_spec_tail_bounds(s, j1);
    }
}

// ---------------------------------------------------------------------------
// The executable scanner, proved equal to the spec functions above.
// ---------------------------------------------------------------------------

/// A cursor over the characters of a pattern source string. `last_token`
/// remembers where the most recently scanned token began, so that one token of
/// lookahead can be put back.
#[derive(Debug)]
pub struct Scanner {
    pub chars: Vec<char>,
    pub cursor: usize,
    pub last_token: Option<usize>,
}

pub open spec fn view_opt_partial(o: &Option<PartialPattern>) -> Option<PartV> {
    match o {
        Some(p) => Some(p@),
        None => None,
    }
}

impl Scanner {
    pub open spec fn wf(&self) -> bool {
        &&& self.cursor <= self.chars@.len()
        &&& match self.last_token {
            Some(p) => p <= self.chars@.len(),
            None => true,
        }
    }

    pub fn new(source: &str) -> (r: Scanner)
        ensures
            r.chars@ == source@,
            r.cursor == 0,
            r.last_token is None,
            r.wf(),
    {
        Scanner { chars: chars_of(source), cursor: 0, last_token: None }
    }

    /// The character at the cursor; the cursor does not move.
    pub fn peek(&self) -> (r: Option<char>)
        ensures
            r == (if self.cursor < self.chars@.len() {
                Some(self.chars@[self.cursor as int])
            } else {
                None::<char>
            }),
    {
        if self.cursor < self.chars.len() {
            Some(self.chars[self.cursor])
        } else {
            None
        }
    }

    /// The character at the cursor; moves the cursor past it when there is one.
    pub fn pop(&mut self) -> (r: Option<char>)
        requires
            old(self).wf(),
        ensures
            final(self).wf(),
            final(self).chars@ == old(self).chars@,
            final(self).last_token == old(self).last_token,
            old(self).cursor < old(self).chars@.len() ==> r == Some(
                old(self).chars@[old(self).cursor as int],
            ) && final(self).cursor == old(self).cursor + 1,
            old(self).cursor >= old(self).chars@.len() ==> r is None && final(self).cursor == old(
                self,
            ).cursor,
    {
        if self.cursor < self.chars.len() {
            let c = self.chars[self.cursor];
            self.cursor = self.cursor + 1;
            Some(c)
        } else {
            None
        }
    }

    /// Consumes the character at the cursor when it is exactly `ch`.
    pub fn take(&mut self, ch: char) -> (r: bool)
        requires
            old(self).wf(),
        ensures
            final(self).wf(),
            final(self).chars@ == old(self).chars@,
            final(self).last_token == old(self).last_token,
            r == (old(self).cursor < old(self).chars@.len() && old(self).chars@[old(
                self,
            ).cursor as int] == ch),
            final(self).cursor == old(self).cursor + (if r {
                1int
            } else {
                0int
            }),
    {
        let is_match = match self.peek() {
            Some(ch_actual) => ch_actual == ch,
            None => false,
        };
        if is_match {
            self.pop();
        }
        is_match
    }

    pub fn is_done(&self) -> (r: bool)
        ensures
            r == (self.cursor == self.chars@.len()),
    {
        self.cursor == self.chars.len()
    }

    /// Scans a quoted keyword body, the opening quote already consumed.
    #[verifier::loop_isolation(false)]
    pub fn until_next_quote(&mut self) -> (r: Result<String, Error>)
        requires
            old(self).wf(),
        ensures
            final(self).wf(),
            final(self).chars@ == old(self).chars@,
            final(self).last_token == old(self).last_token,
            match r {
                Ok(kw) => scan_quoted(old(self).chars@, old(self).cursor as int) matches Ok(pr)
                    && pr.0 == kw@ && pr.1 == final(self).cursor as int,
                Err(e) => scan_quoted(old(self).chars@, old(self).cursor as int) == Err::<
                    (Seq<char>, int),
                    ErrV,
                >(e@),
            },
    {
        let ghost s = self.chars@;
        let ghost c0 = self.cursor;
        if self.take('"') {
            return Err(Error::EmptyKeyword(self.cursor));
        }
        let mut kwd: Vec<char> = Vec::new();
        while self.cursor < self.chars.len() && self.chars[self.cursor] != '"'
            invariant
                self.wf(),
                self.chars@ == s,
                self.last_token == old(self).last_token,
                scan_quoted_rest(s, c0 as int, Seq::empty()) == scan_quoted_rest(
                    s,
                    self.cursor as int,
                    kwd@,
                ),
            decreases s.len() - self.cursor,
        {
            let ch = self.chars[self.cursor];
            kwd.push(ch);
            self.pop();
        }
        if self.cursor < self.chars.len() {
            self.pop();
        }
        Ok(string_from_chars(&kwd))
    }

    /// Scans a keyword: a quoted literal, or an unquoted alphanumeric run whose
    /// first character may be anything but whitespace.
    #[verifier::loop_isolation(false)]
    pub fn keyword(&mut self) -> (r: Result<String, Error>)
        requires
            old(self).wf(),
        ensures
            final(self).wf(),
            final(self).chars@ == old(self).chars@,
            final(self).last_token == old(self).last_token,
            match r {
                Ok(kw) => scan_keyword(old(self).chars@, old(self).cursor as int) matches Ok(pr)
                    && pr.0 == kw@ && pr.1 == final(self).cursor as int,
                Err(e) => scan_keyword(old(self).chars@, old(self).cursor as int) == Err::<
                    (Seq<char>, int),
                    ErrV,
                >(e@),
            },
    {
        let ghost s = self.chars@;
        let ghost c0 = self.cursor;
        if self.take('"') {
            self.until_next_quote()
        } else if self.is_done() {
            Err(Error::ExpectedNonWhitespace(self.cursor, MaybeChar(None)))
        } else {
            let mut kwd: Vec<char> = Vec::new();
            let ch = match self.pop() {
                Some(ch) => {
                    if ch.is_whitespace() {
                        return Err(Error::ExpectedNonWhitespace(self.cursor, MaybeChar(Some(ch))));
                    }
                    if !ch.is_alphanumeric() {
                        return Err(Error::InvalidKeywordChar(self.cursor - 1, ch));
                    }
                    ch
                },
                None => {
                    return Err(Error::ExpectedNonWhitespace(self.cursor, MaybeChar(None)));
                },
            };
            kwd.push(ch);
            proof {
                assert(kwd@ =~= seq![s[c0 as int]]);
            }
            while self.cursor < self.chars.len() && !(self.chars[self.cursor].is_whitespace()
                || self.chars[self.cursor] == '!' || self.chars[self.cursor] == '|'
                || self.chars[self.cursor] == '&' || self.chars[self.cursor] == '('
                || self.chars[self.cursor] == ')')
                invariant
                    self.wf(),
                    self.chars@ == s,
                    self.last_token == old(self).last_token,
                    scan_kw_rest(s, c0 + 1, seq![s[c0 as int]]) == scan_kw_rest(
                        s,
                        self.cursor as int,
                        kwd@,
                    ),
                decreases s.len() - self.cursor,
            {
                let ch = self.chars[self.cursor];
                if !ch.is_alphanumeric() {
                    return Err(Error::InvalidKeywordChar(self.cursor, ch));
                }
                kwd.push(ch);
                self.pop();
            }
            Ok(string_from_chars(&kwd))
        }
    }

    /// Scans one token, skipping leading whitespace; `Ok(None)` is the end of
    /// the input. Records where the token began, for `rewind_cursor`.
    #[verifier::loop_isolation(false)]
    pub fn next_token(&mut self) -> (r: Result<Option<Token>, Error>)
        requires
            old(self).wf(),
        ensures
            final(self).wf(),
            final(self).chars@ == old(self).chars@,
            match r {
                Ok(t) => {
                    &&& scan_token(old(self).chars@, old(self).cursor as int) matches Ok(pr)
                        && pr.0 == view_opt_token(&t) && pr.1 == final(self).cursor as int
                    &&& final(self).last_token == Some(
                        skip_ws(old(self).chars@, old(self).cursor as int) as usize,
                    )
                },
                Err(e) => scan_token(old(self).chars@, old(self).cursor as int) == Err::<
                    (Option<TokV>, int),
                    ErrV,
                >(e@),
            },
    {
        let ghost s = self.chars@;
        let ghost c0 = self.cursor;
        while self.cursor < self.chars.len() && self.chars[self.cursor].is_whitespace()
            invariant
                self.wf(),
                self.chars@ == s,
                skip_ws(s, c0 as int) == skip_ws(s, self.cursor as int),
            decreases s.len() - self.cursor,
        {
            self.pop();
        }
        proof {
            assert(self.cursor as int == skip_ws(s, c0 as int));
        }
        self.last_token = Some(self.cursor);
        proof {
            lemma_skip_ws_bounds(s, c0 as int);
        }
        match self.peek() {
            Some(ch) => {
                if ch == '(' {
                    self.pop();
                    Ok(Some(Token::ParenOpen))
                } else if ch == ')' {
                    self.pop();
                    Ok(Some(Token::ParenClose))
                } else if ch == '!' {
                    self.pop();
                    Ok(Some(Token::OpNegate))
                } else if ch == '|' {
                    self.pop();
                    let second = self.pop();
                    proof {
                        reveal_strlit("|");
                        assert("|"@ =~= seq!['|']);
                    }
                    match second {
                        Some(c2) => {
                            if c2 == '|' {
                                Ok(Some(Token::OpOr))
                            } else {
                                Err(Error::ExpectedButGotChar(
                                    self.cursor,
                                    "|".to_owned(),
                                    MaybeChar(Some(c2)),
                                ))
                            }
                        },
                        None => Err(Error::ExpectedButGotChar(
                            self.cursor,
                            "|".to_owned(),
                            MaybeChar(None),
                        )),
                    }
                } else if ch == '&' {
                    self.pop();
                    let second = self.pop();
                    proof {
                        reveal_strlit("&");
                        assert("&"@ =~= seq!['&']);
                    }
                    match second {
                        Some(c2) => {
                            if c2 == '&' {
                                Ok(Some(Token::OpAnd))
                            } else {
                                Err(Error::ExpectedButGotChar(
                                    self.cursor,
                                    "&".to_owned(),
                                    MaybeChar(Some(c2)),
                                ))
                            }
                        },
                        None => Err(Error::ExpectedButGotChar(
                            self.cursor,
                            "&".to_owned(),
                            MaybeChar(None),
                        )),
                    }
                } else {
                    match self.keyword() {
                        Ok(kw) => Ok(Some(Token::Keyword(kw))),
                        Err(e) => Err(e),
                    }
                }
            },
            None => Ok(None),
        }
    }

    /// Puts the most recently scanned token back, moving the cursor to where
    /// that token began.
    pub fn rewind_cursor(&mut self) -> (r: Result<(), Error>)
        requires
            old(self).wf(),
        ensures
            final(self).wf(),
            final(self).chars@ == old(self).chars@,
            match old(self).last_token {
                Some(p) => r is Ok && final(self).cursor == p && final(self).last_token is None,
                None => r == Err::<(), Error>(Error::CantRewindToken(old(self).cursor))
                    && final(self).cursor == old(self).cursor && final(self).last_token is None,
            },
    {
        match self.last_token {
            Some(p) => {
                self.cursor = p;
                self.last_token = None;
                Ok(())
            },
            None => Err(Error::CantRewindToken(self.cursor)),
        }
    }
}

pub proof fn lemma_spec_tail_bounds(s: Seq<char>, i: int)
    requires
        0 <= i <= s.len(),
    ensures
        spec_tail(s, i) matches Ok((pp, j)) ==> i <= j <= s.len(),
    decreases s.len() - i, 0int,
{
    lemma_scan_token_bounds(s, i);
    lemma_skip_ws_bounds(s, i);
    if let Ok((t, j)) = scan_token(s, i) {
        if t == Some(TokV::AndOp) || t == Some(TokV::OrOp) {
            let j1 = if j <= i {
                i + 1
            } else {
                j
            };
            lemma_spec_factor_bounds(s, j1);
            if let Ok((f, k)) = spec_factor(s, j1) {
                let k1 = if k <= j1 {
                    j1 + 1
                } else {
                    k
                };
                lemma_spec_tail_bounds(s, k1);
            }
        }
    }
}


/// The pending right-hand parts of a pattern being parsed left to right.
pub enum PartialPattern {
    And(Pattern, Option<Box<PartialPattern>>),
    Or(Pattern, Option<Box<PartialPattern>>),
}

impl View for PartialPattern {
    type V = PartV;

    open spec fn view(&self) -> PartV
        decreases self,
    {
        match self {
            PartialPattern::And(p, rest) => PartV::AndP(
                p@,
                match rest {
                    Some(b) => Some(Box::new((**b)@)),
                    None => None,
                },
            ),
            PartialPattern::Or(p, rest) => PartV::OrP(
                p@,
                match rest {
                    Some(b) => Some(Box::new((**b)@)),
                    None => None,
                },
            ),
        }
    }
}

impl PartialPattern {
    /// Folds these pending parts onto `lhs`, left-associatively.
    pub fn apply(self, lhs: Pattern) -> (r: Pattern)
        ensures
            r@ == spec_apply(self@, lhs@),
        decreases self,
    {
        match self {
            PartialPattern::And(rhs, partial) => {
                let l2 = Pattern::And(Box::new(lhs), Box::new(rhs));
                match partial {
                    Some(p) => (*p).apply(l2),
                    None => l2,
                }
            },
            PartialPattern::Or(rhs, partial) => {
                let l2 = Pattern::Or(Box::new(lhs), Box::new(rhs));
                match partial {
                    Some(p) => (*p).apply(l2),
                    None => l2,
                }
            },
        }
    }
}

impl Scanner {
    /// Parses a whole pattern: a factor and its tail, folded left to right.
    pub fn pattern(&mut self) -> (r: Result<Pattern, Error>)
        requires
            old(self).wf(),
        ensures
            final(self).wf(),
            final(self).chars@ == old(self).chars@,
            match r {
                Ok(p) => spec_pattern(old(self).chars@, old(self).cursor as int) matches Ok(pr)
                    && pr.0 == p@ && pr.1 == final(self).cursor as int,
                Err(e) => spec_pattern(old(self).chars@, old(self).cursor as int) == Err::<
                    (SpecPat, int),
                    ErrV,
                >(e@),
            },
        decreases old(self).chars@.len() - old(self).cursor, 1int,
    {
        let ghost s = self.chars@;
        let ghost c0 = self.cursor;
        let f = match self.factor() {
            Ok(p) => p,
            Err(e) => {
                return Err(e);
            },
        };
        proof {
            lemma_spec_factor_bounds(s, c0 as int);
        }
        let partial_pattern = match self.pattern_tail() {
            Ok(p) => p,
            Err(e) => {
                return Err(e);
            },
        };
        match partial_pattern {
            Some(partial_pattern) => Ok(partial_pattern.apply(f)),
            None => Ok(f),
        }
    }

    /// Parses a pattern tail: an operator and a factor followed by the rest of
    /// the tail, or nothing, in which case the scanned token is put back.
    pub fn pattern_tail(&mut self) -> (r: Result<Option<PartialPattern>, Error>)
        requires
            old(self).wf(),
        ensures
            final(self).wf(),
            final(self).chars@ == old(self).chars@,
            match r {
                Ok(pp) => spec_tail(old(self).chars@, old(self).cursor as int) matches Ok(pr)
                    && pr.0 == view_opt_partial(&pp) && pr.1 == final(self).cursor as int,
                Err(e) => spec_tail(old(self).chars@, old(self).cursor as int) == Err::<
                    (Option<PartV>, int),
                    ErrV,
                >(e@),
            },
        decreases old(self).chars@.len() - old(self).cursor, 0int,
    {
        let ghost s = self.chars@;
        let ghost c0 = self.cursor;
        let tok = match self.next_token() {
            Ok(t) => t,
            Err(e) => {
                return Err(e);
            },
        };
        proof {
            lemma_scan_token_bounds(s, c0 as int);
            lemma_skip_ws_bounds(s, c0 as int);
        }
        let is_and = match tok {
            Some(Token::OpAnd) => true,
            Some(Token::OpOr) => false,
            _ => {
                match self.rewind_cursor() {
                    Ok(u) => u,
                    Err(e) => {
                        return Err(e);
                    },
                };
                return Ok(None);
            },
        };
        let ghost c1 = self.cursor;
        let f = match self.factor() {
            Ok(p) => p,
            Err(e) => {
                return Err(e);
            },
        };
        proof {
            lemma_spec_factor_bounds(s, c1 as int);
        }
        let rhs = match self.pattern_tail() {
            Ok(p) => p,
            Err(e) => {
                return Err(e);
            },
        };
        let rhs = match rhs {
            Some(p) => Some(Box::new(p)),
            None => None,
        };
        if is_and {
            Ok(Some(PartialPattern::And(f, rhs)))
        } else {
            Ok(Some(PartialPattern::Or(f, rhs)))
        }
    }

    /// Parses a factor: a parenthesised pattern, a negated pattern, or a
    /// keyword.
    pub fn factor(&mut self) -> (r: Result<Pattern, Error>)
        requires
            old(self).wf(),
        ensures
            final(self).wf(),
            final(self).chars@ == old(self).chars@,
            match r {
                Ok(p) => spec_factor(old(self).chars@, old(self).cursor as int) matches Ok(pr)
                    && pr.0 == p@ && pr.1 == final(self).cursor as int,
                Err(e) => spec_factor(old(self).chars@, old(self).cursor as int) == Err::<
                    (SpecPat, int),
                    ErrV,
                >(e@),
            },
        decreases old(self).chars@.len() - old(self).cursor, 0int,
    {
        let ghost s = self.chars@;
        let ghost c0 = self.cursor;
        let tok = match self.next_token() {
            Ok(t) => t,
            Err(e) => {
                return Err(e);
            },
        };
        proof {
            lemma_scan_token_bounds(s, c0 as int);
        }
        match tok {
            Some(Token::ParenOpen) => {
                let ghost c1 = self.cursor;
                let pat = match self.pattern() {
                    Ok(p) => p,
                    Err(e) => {
                        return Err(e);
                    },
                };
                proof {
                    lemma_spec_pattern_bounds(s, c1 as int);
                }
                let tok2 = match self.next_token() {
                    Ok(t) => t,
                    Err(e) => {
                        return Err(e);
                    },
                };
                match tok2 {
                    Some(Token::ParenClose) => Ok(pat),
                    _ => {
                        let expected = Tokens(vec![Token::ParenClose]);
                        proof {
                            assert(view_tokens(&expected) =~= seq![TokV::RP]);
                        }
                        Err(Error::ExpectedButGotToken(self.cursor, expected, MaybeToken(None)))
                    },
                }
            },
            Some(Token::OpNegate) => {
                let pat = match self.pattern() {
                    Ok(p) => p,
                    Err(e) => {
                        return Err(e);
                    },
                };
                Ok(Pattern::Not(Box::new(pat)))
            },
            Some(Token::Keyword(kwd)) => Ok(Pattern::Exact(kwd)),
            tok => {
                let expected = Tokens(vec![Token::ParenOpen, Token::Keyword(String::new())]);
                proof {
                    assert(view_tokens(&expected) =~= seq![TokV::LP, TokV::Kw(Seq::empty())]);
                }
                Err(Error::ExpectedButGotToken(self.cursor, expected, MaybeToken(tok)))
            },
        }
    }
}

/// What parsing a whole pattern string yields: the pattern, provided the
/// grammar consumes the entire input. A trailing token — an unbalanced closing
/// parenthesis among them — is malformed input and fails with a positional
/// error naming the first token left over and its column.
pub open spec fn spec_parse_pattern(s: Seq<char>) -> Result<SpecPat, ErrV> {
    match spec_pattern(s, 0) {
        Err(e) => Err(e),
        Ok((p, j)) => match scan_token(s, j) {
            Err(e) => Err(e),
            Ok((t, k)) => match t {
                None => Ok(p),
                Some(tok) => Err(
                    ErrV::ExpectedButGotToken(skip_ws(s, j), Seq::empty(), Some(tok)),
                ),
            },
        },
    }
}

/// Parses a whole pattern expression string; the grammar must consume the
/// entire input.
pub fn parse_pattern(input: &str) -> (r: Result<Pattern, Error>)
    ensures
        match r {
            Ok(p) => spec_parse_pattern(input@) == Ok::<SpecPat, ErrV>(p@),
            Err(e) => spec_parse_pattern(input@) == Err::<SpecPat, ErrV>(e@),
        },
{
    let mut scanner = Scanner::new(input);
    let pattern = match scanner.pattern() {
        Ok(p) => p,
        Err(e) => {
            return Err(e);
        },
    };
    let ghost j = scanner.cursor as int;
    proof {
        assert(spec_pattern(input@, 0) matches Ok(pr) && pr.0 == pattern@ && pr.1 == j);
        lemma_skip_ws_bounds(input@, j);
    }
    match scanner.next_token() {
        Err(e) => {
            proof {
                assert(scan_token(input@, j) == Err::<(Option<TokV>, int), ErrV>(e@));
            }
            Err(e)
        },
        Ok(None) => {
            proof {
                assert(scan_token(input@, j) matches Ok(pr) && pr.0 == None::<TokV>);
            }
            Ok(pattern)
        },
        Ok(Some(tok)) => {
            let col = match scanner.last_token {
                Some(p) => p,
                None => scanner.cursor,
            };
            proof {
                assert(col as int == skip_ws(input@, j));
                assert(scan_token(input@, j) matches Ok(pr) && pr.0 == Some(tok@));
            }
            let expected = Tokens(Vec::new());
            proof {
                assert(view_tokens(&expected) =~= Seq::<TokV>::empty());
            }
            Err(Error::ExpectedButGotToken(col, expected, MaybeToken(Some(tok))))
        },
    }
}

} // verus!
