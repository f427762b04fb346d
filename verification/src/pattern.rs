use vstd::prelude::*;
use vstd::string::StrSliceExecFns;
use vstd::utf8::encode_utf8;

use crate::digest::{b64_encode, base64_of, md5_digest, md5_of};
use crate::text::{chars_of, contains_chars, contains_seq, lower_of, lowercase};

verus! {

/// The shape of a pattern: a boolean expression over substring keywords.
pub enum SpecPat {
    Exact(Seq<char>),
    Or(Box<SpecPat>, Box<SpecPat>),
    And(Box<SpecPat>, Box<SpecPat>),
    Not(Box<SpecPat>),
}

/// A compiled pattern expression. Composite nodes own their operands; nesting
/// depth is unbounded.
#[derive(Debug, PartialEq)]
pub enum Pattern {
    Exact(String),
    Or(Box<Pattern>, Box<Pattern>),
    And(Box<Pattern>, Box<Pattern>),
    Not(Box<Pattern>),
}

impl View for Pattern {
    type V = SpecPat;

    open spec fn view(&self) -> SpecPat
        decreases self,
    {
        match self {
            Pattern::Exact(s) => SpecPat::Exact(s@),
            Pattern::Or(a, b) => SpecPat::Or(Box::new((**a)@), Box::new((**b)@)),
            Pattern::And(a, b) => SpecPat::And(Box::new((**a)@), Box::new((**b)@)),
            Pattern::Not(a) => SpecPat::Not(Box::new((**a)@)),
        }
    }
}

impl Clone for Pattern {
    fn clone(&self) -> (r: Self)
        ensures
            r@ == self@,
        decreases self,
    {
        match self {
            Pattern::Exact(s) => Pattern::Exact(s.clone()),
            Pattern::Or(a, b) => Pattern::Or(
                Box::new((&**a).clone()),
                Box::new((&**b).clone()),
            ),
            Pattern::And(a, b) => Pattern::And(
                Box::new((&**a).clone()),
                Box::new((&**b).clone()),
            ),
            Pattern::Not(a) => Pattern::Not(Box::new((&**a).clone())),
        }
    }
}

/// Whether a pattern accepts a text: a keyword succeeds iff it occurs in the
/// text as a case-insensitive substring; `And`, `Or` and `Not` combine results.
pub open spec fn pat_matches(p: SpecPat, s: Seq<char>) -> bool
    decreases p,
{
    match p {
        SpecPat::Exact(k) => contains_seq(lower_of(s), lower_of(k)),
        SpecPat::Or(a, b) => pat_matches(*a, s) || pat_matches(*b, s),
        SpecPat::And(a, b) => pat_matches(*a, s) && pat_matches(*b, s),
        SpecPat::Not(a) => !pat_matches(*a, s),
    }
}

/// Whether a pattern accepts an optional text: an absent field satisfies only
/// an outermost negation (a vacuous match), never any other pattern shape.
pub open spec fn pat_opt_matches(p: SpecPat, s: Option<Seq<char>>) -> bool {
    match s {
        Some(t) => pat_matches(p, t),
        None => p is Not,
    }
}

pub open spec fn view_opt_string(s: &Option<String>) -> Option<Seq<char>> {
    match s {
        Some(t) => Some(t@),
        None => None,
    }
}

/// Input the structural digest feeds to MD5: an operator tag for each composite
/// node followed by its operands' digests, and a keyword's raw bytes.
pub open spec fn pat_digest_input(p: SpecPat) -> Seq<u8>
    decreases p,
{
    match p {
        SpecPat::Exact(k) => encode_utf8(k),
        SpecPat::Or(a, b) => encode_utf8("||"@) + md5_of(pat_digest_input(*a)) + md5_of(
            pat_digest_input(*b),
        ),
        SpecPat::And(a, b) => encode_utf8("&&"@) + md5_of(pat_digest_input(*a)) + md5_of(
            pat_digest_input(*b),
        ),
        SpecPat::Not(a) => encode_utf8("!"@) + md5_of(pat_digest_input(*a)),
    }
}

/// The structural digest of a pattern: depends on its shape and keywords only,
/// never on the source text it was parsed from.
pub open spec fn pat_digest(p: SpecPat) -> Seq<u8> {
    md5_of(pat_digest_input(p))
}

/// Appends the bytes of `src` to `dst`.
pub(crate) fn push_str_bytes(dst: &mut Vec<u8>, src: &str)
    ensures
        final(dst)@ == old(dst)@ + encode_utf8(src@),
{
    let mut bytes = src.as_bytes_vec();
    dst.append(&mut bytes);
}

/// Appends a copy of `src` to `dst`.
pub(crate) fn push_bytes(dst: &mut Vec<u8>, src: &Vec<u8>)
    ensures
        final(dst)@ == old(dst)@ + src@,
{
    let mut i: usize = 0;
    while i < src.len()
        invariant
            i <= src@.len(),
            dst@ == old(dst)@ + src@.subrange(0, i as int),
        decreases src@.len() - i,
    {
        dst.push(src[i]);
        proof {
            assert(old(dst)@ + src@.subrange(0, i + 1) =~= (old(dst)@ + src@.subrange(
                0,
                i as int,
            )).push(src@[i as int]));
        }
        i += 1;
    }
    proof {
        assert(src@.subrange(0, src@.len() as int) =~= src@);
    }
}

impl Pattern {
    /// Whether this pattern accepts the text.
    pub fn does_string_match(&self, s: &str) -> (r: bool)
        ensures
            r == pat_matches(self@, s@),
        decreases self,
    {
        match self {
            Pattern::Exact(kwd) => {
                let hl = lowercase(s);
                let kl = lowercase(kwd.as_str());
                let hv = chars_of(hl.as_str());
                let kv = chars_of(kl.as_str());
                contains_chars(&hv, &kv)
            },
            Pattern::Or(a, b) => {
                let r1 = a.does_string_match(s);
                let r2 = b.does_string_match(s);
                r1 || r2
            },
            Pattern::And(a, b) => {
                let r1 = a.does_string_match(s);
                let r2 = b.does_string_match(s);
                r1 && r2
            },
            Pattern::Not(a) => !a.does_string_match(s),
        }
    }

    /// Whether this pattern accepts the optional text; an absent text satisfies
    /// only an outermost `Not`.
    pub fn does_string_option_match(&self, s: &Option<String>) -> (r: bool)
        ensures
            r == pat_opt_matches(self@, view_opt_string(s)),
    {
        match s {
            Some(t) => self.does_string_match(t.as_str()),
            None => matches!(self, Pattern::Not(_)),
        }
    }

    /// The structural digest of this pattern: sixteen bytes.
    pub fn hash(&self) -> (r: Vec<u8>)
        ensures
            r@ == pat_digest(self@),
            r@.len() == 16,
        decreases self,
    {
        let mut input: Vec<u8> = Vec::new();
        match self {
            Pattern::Exact(s) => {
                push_str_bytes(&mut input, s.as_str());
                proof {
                    assert(input@ =~= pat_digest_input(self@));
                }
            },
            Pattern::Or(a, b) => {
                push_str_bytes(&mut input, "||");
                let d1 = a.hash();
                push_bytes(&mut input, &d1);
                let d2 = b.hash();
                push_bytes(&mut input, &d2);
                proof {
                    assert(input@ =~= pat_digest_input(self@));
                }
            },
            Pattern::And(a, b) => {
                push_str_bytes(&mut input, "&&");
                let d1 = a.hash();
                push_bytes(&mut input, &d1);
                let d2 = b.hash();
                push_bytes(&mut input, &d2);
                proof {
                    assert(input@ =~= pat_digest_input(self@));
                }
            },
            Pattern::Not(a) => {
                push_str_bytes(&mut input, "!");
                let d = a.hash();
                push_bytes(&mut input, &d);
                proof {
                    assert(input@ =~= pat_digest_input(self@));
                }
            },
        }
        md5_digest(&input)
    }
}

} // verus!
