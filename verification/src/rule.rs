use vstd::prelude::*;
use vstd::string::StringExecFns;
use vstd::utf8::encode_utf8;

use crate::digest::{b64_encode, base64_of, le_bytes_i64, md5_digest, md5_of, push_le_i64};
use crate::json::{json_is_object, read_rule_objects, rule_fields_of, rule_file_fields, JFieldV,
    JsonField, RuleFields, RuleFieldsV, RuleFileErr, RuleFileErrV};
use crate::models::{Post, PostV};
use crate::pattern::{pat_digest, pat_matches, pat_opt_matches, Pattern, SpecPat, push_bytes,
    push_str_bytes};
use crate::scan::{parse_pattern, spec_parse_pattern, ErrV, Error};
use crate::title::{Title, TitleV};

verus! {

/// A compiled pattern together with the source text it was parsed from; the
/// source is kept for audit, the compiled pattern carries the meaning.
#[derive(Debug, PartialEq)]
pub struct PatternAndSource {
    pub source: String,
    pub pattern: Pattern,
}

/// The shape of a compiled pattern and its source.
pub struct PatSrcV {
    pub source: Seq<char>,
    pub pattern: SpecPat,
}

impl View for PatternAndSource {
    type V = PatSrcV;

    open spec fn view(&self) -> PatSrcV {
        PatSrcV { source: self.source@, pattern: self.pattern@ }
    }
}

impl Clone for PatternAndSource {
    fn clone(&self) -> (r: Self)
        ensures
            r@ == self@,
    {
        PatternAndSource { source: self.source.clone(), pattern: self.pattern.clone() }
    }
}

/// A compiled pattern corresponds to its stored source text: parsing the
/// source consumes it whole and yields exactly this pattern.
pub open spec fn pat_src_wf(ps: PatSrcV) -> bool {
    spec_parse_pattern(ps.source) == Ok::<SpecPat, ErrV>(ps.pattern)
}

/// One match rule: an optional name, up to three optional compiled patterns
/// keyed to distinct listing attributes, and optional whole-dollar price
/// bounds. Immutable after construction; its identity is its fingerprint.
#[derive(Debug, PartialEq)]
pub struct Rule {
    pub name: Option<String>,
    pub link_flair_pattern: Option<PatternAndSource>,
    pub product_type_pattern: Option<PatternAndSource>,
    pub description_pattern: Option<PatternAndSource>,
    pub price_min_dollars: Option<i64>,
    pub price_max_dollars: Option<i64>,
}

/// The shape of a rule.
pub struct RuleV {
    pub name: Option<Seq<char>>,
    pub link_flair_pattern: Option<PatSrcV>,
    pub product_type_pattern: Option<PatSrcV>,
    pub description_pattern: Option<PatSrcV>,
    pub price_min_dollars: Option<i64>,
    pub price_max_dollars: Option<i64>,
}

pub open spec fn view_opt_ps(p: &Option<PatternAndSource>) -> Option<PatSrcV> {
    match p {
        Some(x) => Some(x@),
        None => None,
    }
}

impl View for Rule {
    type V = RuleV;

    open spec fn view(&self) -> RuleV {
        RuleV {
            name: match &self.name {
                Some(n) => Some(n@),
                None => None,
            },
            link_flair_pattern: view_opt_ps(&self.link_flair_pattern),
            product_type_pattern: view_opt_ps(&self.product_type_pattern),
            description_pattern: view_opt_ps(&self.description_pattern),
            price_min_dollars: self.price_min_dollars,
            price_max_dollars: self.price_max_dollars,
        }
    }
}

fn clone_opt_ps(p: &Option<PatternAndSource>) -> (r: Option<PatternAndSource>)
    ensures
        view_opt_ps(&r) == view_opt_ps(p),
{
    match p {
        Some(x) => Some(x.clone()),
        None => None,
    }
}

impl Clone for Rule {
    fn clone(&self) -> (r: Self)
        ensures
            r@ == self@,
    {
        Rule {
            name: match &self.name {
                Some(n) => Some(n.clone()),
                None => None,
            },
            link_flair_pattern: clone_opt_ps(&self.link_flair_pattern),
            product_type_pattern: clone_opt_ps(&self.product_type_pattern),
            description_pattern: clone_opt_ps(&self.description_pattern),
            price_min_dollars: self.price_min_dollars,
            price_max_dollars: self.price_max_dollars,
        }
    }
}

/// Every compiled pattern of the rule corresponds to its stored source.
pub open spec fn rule_wf(r: RuleV) -> bool {
    &&& match r.link_flair_pattern {
        Some(ps) => pat_src_wf(ps),
        None => true,
    }
    &&& match r.product_type_pattern {
        Some(ps) => pat_src_wf(ps),
        None => true,
    }
    &&& match r.description_pattern {
        Some(ps) => pat_src_wf(ps),
        None => true,
    }
}

// ---------------------------------------------------------------------------
// Matching
// ---------------------------------------------------------------------------

/// The listing-level predicate: the category-flair pattern against the
/// listing's optional flair, with the vacuous-match policy for absent flair.
pub open spec fn post_matches_rule(p: PostV, r: RuleV) -> bool {
    match r.link_flair_pattern {
        Some(ps) => pat_opt_matches(ps.pattern, p.link_flair_text),
        None => true,
    }
}

/// The title-level predicate: product-type and description patterns, and the
/// price (as dollars plus one tenth per cents unit) against the inclusive
/// whole-dollar bounds, each independently optional.
pub open spec fn title_matches_rule(t: TitleV, r: RuleV) -> bool {
    &&& match r.product_type_pattern {
        Some(ps) => pat_matches(ps.pattern, t.product_type),
        None => true,
    }
    &&& match r.description_pattern {
        Some(ps) => pat_matches(ps.pattern, t.description),
        None => true,
    }
    &&& match r.price_min_dollars {
        Some(m) => m * 10 <= t.price_dollars * 10 + t.price_cents,
        None => true,
    }
    &&& match r.price_max_dollars {
        Some(m) => t.price_dollars * 10 + t.price_cents <= m * 10,
        None => true,
    }
}

/// Whether the rule accepts the listing together with its parsed title.
pub open spec fn rule_selects(r: RuleV, p: PostV, t: TitleV) -> bool {
    post_matches_rule(p, r) && title_matches_rule(t, r)
}

/// Something a rule can be evaluated against.
pub trait Subject {
    spec fn matches_rule(&self, rule: &Rule) -> bool;

    /// Whether the rule accepts this subject.
    fn is_match(&self, rule: &Rule) -> (r: bool)
        ensures
            r == self.matches_rule(rule),
    ;
}

impl Subject for Title {
    open spec fn matches_rule(&self, rule: &Rule) -> bool {
        title_matches_rule(self@, rule@)
    }

    /// The title-level predicate: product-type pattern, description pattern,
    /// and the inclusive price bounds.
    fn is_match(&self, rule: &Rule) -> (r: bool) {
        if let Some(product_type_pattern) = &rule.product_type_pattern {
            if !product_type_pattern.pattern.does_string_match(self.product_type.as_str()) {
                return false;
            }
        }
        if let Some(description_pattern) = &rule.description_pattern {
            if !description_pattern.pattern.does_string_match(self.description.as_str()) {
                return false;
            }
        }
        let tenths = self.price_tenths();
        if let Some(price_min) = &rule.price_min_dollars {
            if (*price_min as i128) * 10 > tenths as i128 {
                return false;
            }
        }
        if let Some(price_max) = &rule.price_max_dollars {
            if tenths as i128 > (*price_max as i128) * 10 {
                return false;
            }
        }
        true
    }
}

/// The first rule, in declaration order from index `i`, that accepts the
/// listing and title; order is a user-controlled priority list.
pub open spec fn first_sel(rules: Seq<Rule>, p: PostV, t: TitleV, i: int) -> Option<int>
    decreases rules.len() - i,
{
    if i < 0 || i >= rules.len() {
        None
    } else if rule_selects(rules[i]@, p, t) {
        Some(i)
    } else {
        first_sel(rules, p, t, i + 1)
    }
}

/// Law: rule order is priority order. Whenever the first rule of the set
/// accepts a listing and its title, that rule is the one selected, whatever
/// any later rule would say.
pub proof fn lemma_first_match_wins(rules: Seq<Rule>, p: PostV, t: TitleV)
    requires
        rules.len() >= 1,
        rule_selects(rules[0]@, p, t),
    ensures
        first_sel(rules, p, t, 0) == Some(0int),
{
}

/// The ordered rule set; first match wins.
#[derive(Debug, PartialEq, Default)]
pub struct Rules {
    pub rules: Vec<Rule>,
}

impl Rules {
    /// The first rule in declaration order that accepts the listing and its
    /// parsed title, or nothing.
    #[verifier::loop_isolation(false)]
    pub fn get_matching_rule(&self, post: &Post, title: &Title) -> (r: Option<Rule>)
        ensures
            match r {
                Some(rule) => first_sel(self.rules@, post@, title@, 0) matches Some(i) && rule@
                    == self.rules@[i]@,
                None => first_sel(self.rules@, post@, title@, 0) is None,
            },
    {
        let mut i: usize = 0;
        while i < self.rules.len()
            invariant
                i <= self.rules@.len(),
                first_sel(self.rules@, post@, title@, 0) == first_sel(
                    self.rules@,
                    post@,
                    title@,
                    i as int,
                ),
            decreases self.rules@.len() - i,
        {
            let rule = &self.rules[i];
            let post_ok = post.is_match(rule);
            let title_ok = title.is_match(rule);
            if post_ok && title_ok {
                return Some(rule.clone());
            }
            i += 1;
        }
        None
    }
}

// ---------------------------------------------------------------------------
// Compilation from plain values
// ---------------------------------------------------------------------------

/// What compiling one optional pattern source yields: the parsed pattern with
/// its source, or the positional parse error.
pub open spec fn spec_compile_pat(src: Option<Seq<char>>) -> Result<Option<PatSrcV>, ErrV> {
    match src {
        None => Ok(None),
        Some(t) => match spec_parse_pattern(t) {
            Ok(p) => Ok(Some(PatSrcV { source: t, pattern: p })),
            Err(e) => Err(e),
        },
    }
}

/// Parses one optional pattern source.
pub fn compile_opt_pattern(src: Option<String>) -> (r: Result<Option<PatternAndSource>, Error>)
    ensures
        match r {
            Ok(ps) => spec_compile_pat(view_opt_str(&src)) == Ok::<Option<PatSrcV>, ErrV>(
                view_opt_ps(&ps),
            ),
            Err(e) => spec_compile_pat(view_opt_str(&src)) == Err::<Option<PatSrcV>, ErrV>(e@),
        },
{
    match src {
        None => Ok(None),
        Some(text) => match parse_pattern(text.as_str()) {
            Ok(pattern) => Ok(Some(PatternAndSource { source: text, pattern })),
            Err(e) => Err(e),
        },
    }
}

pub open spec fn view_opt_str(s: &Option<String>) -> Option<Seq<char>> {
    match s {
        Some(x) => Some(x@),
        None => None,
    }
}

/// What compiling a whole rule from its plain parts yields; pattern sources are
/// parsed in field order and the first parse error wins.
pub open spec fn spec_compile(
    name: Option<Seq<char>>,
    flair: Option<Seq<char>>,
    ptype: Option<Seq<char>>,
    desc: Option<Seq<char>>,
    min: Option<i64>,
    max: Option<i64>,
) -> Result<RuleV, ErrV> {
    match spec_compile_pat(flair) {
        Err(e) => Err(e),
        Ok(f) => match spec_compile_pat(ptype) {
            Err(e) => Err(e),
            Ok(p) => match spec_compile_pat(desc) {
                Err(e) => Err(e),
                Ok(d) => Ok(
                    RuleV {
                        name,
                        link_flair_pattern: f,
                        product_type_pattern: p,
                        description_pattern: d,
                        price_min_dollars: min,
                        price_max_dollars: max,
                    },
                ),
            },
        },
    }
}

impl Rule {
    /// Compiles a rule from its plain parts: each present pattern source is
    /// parsed, in field order, and the first parse error is returned.
    pub fn compile(
        name: Option<String>,
        link_flair_pattern: Option<String>,
        product_type_pattern: Option<String>,
        description_pattern: Option<String>,
        price_min_dollars: Option<i64>,
        price_max_dollars: Option<i64>,
    ) -> (r: Result<Rule, Error>)
        ensures
            match r {
                Ok(rule) => spec_compile(
                    view_opt_str(&name),
                    view_opt_str(&link_flair_pattern),
                    view_opt_str(&product_type_pattern),
                    view_opt_str(&description_pattern),
                    price_min_dollars,
                    price_max_dollars,
                ) == Ok::<RuleV, ErrV>(rule@) && rule_wf(rule@),
                Err(e) => spec_compile(
                    view_opt_str(&name),
                    view_opt_str(&link_flair_pattern),
                    view_opt_str(&product_type_pattern),
                    view_opt_str(&description_pattern),
                    price_min_dollars,
                    price_max_dollars,
                ) == Err::<RuleV, ErrV>(e@),
            },
    {
        let flair = match compile_opt_pattern(link_flair_pattern) {
            Ok(x) => x,
            Err(e) => {
                return Err(e);
            },
        };
        let ptype = match compile_opt_pattern(product_type_pattern) {
            Ok(x) => x,
            Err(e) => {
                return Err(e);
            },
        };
        let desc = match compile_opt_pattern(description_pattern) {
            Ok(x) => x,
            Err(e) => {
                return Err(e);
            },
        };
        Ok(
            Rule {
                name,
                link_flair_pattern: flair,
                product_type_pattern: ptype,
                description_pattern: desc,
                price_min_dollars,
                price_max_dollars,
            },
        )
    }

    /// The rule's display name.
    pub fn name(&self) -> (r: String)
        ensures
            r@ == match self@.name {
                Some(n) => n,
                None => "(unnamed rule)"@,
            },
    {
        match &self.name {
            Some(name) => name.clone(),
            None => "(unnamed rule)".to_owned(),
        }
    }
}

// ---------------------------------------------------------------------------
// Fingerprinting
// ---------------------------------------------------------------------------

pub open spec fn opt_name_bytes(n: Option<Seq<char>>) -> Seq<u8> {
    match n {
        Some(x) => encode_utf8(x),
        None => Seq::empty(),
    }
}

pub open spec fn opt_pat_digest(p: Option<PatSrcV>) -> Seq<u8> {
    match p {
        Some(ps) => pat_digest(ps.pattern),
        None => Seq::empty(),
    }
}

pub open spec fn opt_price_bytes(x: Option<i64>) -> Seq<u8> {
    match x {
        Some(v) => le_bytes_i64(v),
        None => Seq::empty(),
    }
}

/// What the fingerprint digests: the name bytes, each present pattern's
/// structural digest, and the little-endian bytes of each present bound, in
/// fixed field order. Pattern source text never enters.
pub open spec fn rule_digest_input(r: RuleV) -> Seq<u8> {
    opt_name_bytes(r.name) + opt_pat_digest(r.link_flair_pattern) + opt_pat_digest(
        r.product_type_pattern,
    ) + opt_pat_digest(r.description_pattern) + opt_price_bytes(r.price_min_dollars)
        + opt_price_bytes(r.price_max_dollars)
}

/// A rule's fingerprint: its content-derived durable identity.
pub open spec fn fingerprint_of(r: RuleV) -> Seq<char> {
    base64_of(md5_of(rule_digest_input(r)))
}

pub open spec fn opt_pattern_of(p: Option<PatSrcV>) -> Option<SpecPat> {
    match p {
        Some(ps) => Some(ps.pattern),
        None => None,
    }
}

/// Two rules agree semantically: same name, same pattern structures (their
/// source texts may differ), same price bounds.
pub open spec fn rule_sem_eq(a: RuleV, b: RuleV) -> bool {
    &&& a.name == b.name
    &&& opt_pattern_of(a.link_flair_pattern) == opt_pattern_of(b.link_flair_pattern)
    &&& opt_pattern_of(a.product_type_pattern) == opt_pattern_of(b.product_type_pattern)
    &&& opt_pattern_of(a.description_pattern) == opt_pattern_of(b.description_pattern)
    &&& a.price_min_dollars == b.price_min_dollars
    &&& a.price_max_dollars == b.price_max_dollars
}

proof fn lemma_opt_pat_digest_sem(a: Option<PatSrcV>, b: Option<PatSrcV>)
    requires
        opt_pattern_of(a) == opt_pattern_of(b),
    ensures
        opt_pat_digest(a) == opt_pat_digest(b),
{
    match (a, b) {
        (Some(x), Some(y)) => {
            assert(x.pattern == y.pattern);
        },
        (None, None) => {},
        (Some(x), None) => {
            assert(opt_pattern_of(a) is Some);
        },
        (None, Some(y)) => {
            assert(opt_pattern_of(b) is Some);
        },
    }
}

/// Law: the fingerprint is semantic, not textual. Two rules whose names,
/// pattern structures and price bounds agree have the same fingerprint, however
/// differently their pattern strings are written (whitespace, quoting,
/// parentheses).
pub proof fn lemma_fingerprint_semantic(a: RuleV, b: RuleV)
    requires
        rule_sem_eq(a, b),
    ensures
        fingerprint_of(a) == fingerprint_of(b),
{
    lemma_opt_pat_digest_sem(a.link_flair_pattern, b.link_flair_pattern);
    lemma_opt_pat_digest_sem(a.product_type_pattern, b.product_type_pattern);
    lemma_opt_pat_digest_sem(a.description_pattern, b.description_pattern);
}

impl Rule {
    /// The fingerprint of this rule, a displayable fixed-length token: the
    /// base64 rendering of the digest of the rule's semantic content.
    pub fn hash(&self) -> (r: String)
        ensures
            r@ == fingerprint_of(self@),
            r@.len() == 24,
    {
        let mut input: Vec<u8> = Vec::new();
        if let Some(name) = &self.name {
            push_str_bytes(&mut input, name.as_str());
        }
        if let Some(link_flair_pattern) = &self.link_flair_pattern {
            let d = link_flair_pattern.pattern.hash();
            push_bytes(&mut input, &d);
        }
        if let Some(product_type_pattern) = &self.product_type_pattern {
            let d = product_type_pattern.pattern.hash();
            push_bytes(&mut input, &d);
        }
        if let Some(description_pattern) = &self.description_pattern {
            let d = description_pattern.pattern.hash();
            push_bytes(&mut input, &d);
        }
        if let Some(price_min_dollars) = self.price_min_dollars {
            push_le_i64(&mut input, price_min_dollars);
        }
        if let Some(price_max_dollars) = self.price_max_dollars {
            push_le_i64(&mut input, price_max_dollars);
        }
        proof {
            assert(input@ =~= rule_digest_input(self@));
        }
        let digest = md5_digest(&input);
        b64_encode(&digest)
    }
}

// ---------------------------------------------------------------------------
// Rule definitions from JSON
// ---------------------------------------------------------------------------

/// What reading a rule-object field as an optional string yields: a present
/// key of any other type is a mistyped value.
pub open spec fn spec_field_str(f: JFieldV, key: Seq<char>) -> Result<Option<Seq<char>>, ErrV> {
    match f {
        JFieldV::Absent => Ok(None),
        JFieldV::Str(s) => Ok(Some(s)),
        _ => Err(ErrV::BadValue(key)),
    }
}

/// What reading a rule-object field as an optional integer yields.
pub open spec fn spec_field_int(f: JFieldV, key: Seq<char>) -> Result<Option<i64>, ErrV> {
    match f {
        JFieldV::Absent => Ok(None),
        JFieldV::Int(i) => Ok(Some(i)),
        _ => Err(ErrV::BadValue(key)),
    }
}

fn field_as_opt_string(f: &JsonField, key: &str) -> (r: Result<Option<String>, Error>)
    ensures
        match r {
            Ok(x) => spec_field_str(f@, key@) == Ok::<Option<Seq<char>>, ErrV>(view_opt_str(&x)),
            Err(e) => spec_field_str(f@, key@) == Err::<Option<Seq<char>>, ErrV>(e@),
        },
{
    match f {
        JsonField::Absent => Ok(None),
        JsonField::Str(s) => Ok(Some(s.clone())),
        _ => Err(Error::BadValue(key.to_owned())),
    }
}

fn field_as_opt_i64(f: &JsonField, key: &str) -> (r: Result<Option<i64>, Error>)
    ensures
        match r {
            Ok(x) => spec_field_int(f@, key@) == Ok::<Option<i64>, ErrV>(x),
            Err(e) => spec_field_int(f@, key@) == Err::<Option<i64>, ErrV>(e@),
        },
{
    match f {
        JsonField::Absent => Ok(None),
        JsonField::Int(i) => Ok(Some(*i)),
        _ => Err(Error::BadValue(key.to_owned())),
    }
}

/// What assembling a rule from the six raw key values yields: which key feeds
/// which field, and in what order errors win — a mistyped key before its
/// pattern's parse error, field by field in declaration order.
pub open spec fn spec_rule_from_fields(f: RuleFieldsV) -> Result<RuleV, ErrV> {
    match spec_field_str(f.name, "name"@) {
        Err(e) => Err(e),
        Ok(name) => match spec_field_str(f.link_flair_pattern, "link_flair_pattern"@) {
            Err(e) => Err(e),
            Ok(flair_src) => match spec_compile_pat(flair_src) {
                Err(e) => Err(e),
                Ok(flair) => match spec_field_str(
                    f.product_type_pattern,
                    "product_type_pattern"@,
                ) {
                    Err(e) => Err(e),
                    Ok(ptype_src) => match spec_compile_pat(ptype_src) {
                        Err(e) => Err(e),
                        Ok(ptype) => match spec_field_str(
                            f.description_pattern,
                            "description_pattern"@,
                        ) {
                            Err(e) => Err(e),
                            Ok(desc_src) => match spec_compile_pat(desc_src) {
                                Err(e) => Err(e),
                                Ok(desc) => match spec_field_int(f.price_min, "price_min"@) {
                                    Err(e) => Err(e),
                                    Ok(min) => match spec_field_int(f.price_max, "price_max"@) {
                                        Err(e) => Err(e),
                                        Ok(max) => Ok(
                                            RuleV {
                                                name,
                                                link_flair_pattern: flair,
                                                product_type_pattern: ptype,
                                                description_pattern: desc,
                                                price_min_dollars: min,
                                                price_max_dollars: max,
                                            },
                                        ),
                                    },
                                },
                            },
                        },
                    },
                },
            },
        },
    }
}

/// Assembles a rule from the six raw key values of one rule object: a present
/// key of the wrong type is a mistyped value, each present pattern source is
/// parsed whole, and the first failure — in field order — wins.
pub fn rule_from_fields(fields: &RuleFields) -> (r: Result<Rule, Error>)
    ensures
        match r {
            Ok(rule) => spec_rule_from_fields(fields@) == Ok::<RuleV, ErrV>(rule@) && rule_wf(
                rule@,
            ),
            Err(e) => spec_rule_from_fields(fields@) == Err::<RuleV, ErrV>(e@),
        },
{
    let name = match field_as_opt_string(&fields.name, "name") {
        Ok(x) => x,
        Err(e) => {
            return Err(e);
        },
    };
    let flair_src = match field_as_opt_string(&fields.link_flair_pattern, "link_flair_pattern") {
        Ok(x) => x,
        Err(e) => {
            return Err(e);
        },
    };
    let flair = match compile_opt_pattern(flair_src) {
        Ok(x) => x,
        Err(e) => {
            return Err(e);
        },
    };
    let ptype_src = match field_as_opt_string(
        &fields.product_type_pattern,
        "product_type_pattern",
    ) {
        Ok(x) => x,
        Err(e) => {
            return Err(e);
        },
    };
    let ptype = match compile_opt_pattern(ptype_src) {
        Ok(x) => x,
        Err(e) => {
            return Err(e);
        },
    };
    let desc_src = match field_as_opt_string(
        &fields.description_pattern,
        "description_pattern",
    ) {
        Ok(x) => x,
        Err(e) => {
            return Err(e);
        },
    };
    let desc = match compile_opt_pattern(desc_src) {
        Ok(x) => x,
        Err(e) => {
            return Err(e);
        },
    };
    let price_min = match field_as_opt_i64(&fields.price_min, "price_min") {
        Ok(x) => x,
        Err(e) => {
            return Err(e);
        },
    };
    let price_max = match field_as_opt_i64(&fields.price_max, "price_max") {
        Ok(x) => x,
        Err(e) => {
            return Err(e);
        },
    };
    Ok(
        Rule {
            name,
            link_flair_pattern: flair,
            product_type_pattern: ptype,
            description_pattern: desc,
            price_min_dollars: price_min,
            price_max_dollars: price_max,
        },
    )
}

/// What one element of the rule-file array yields: an element that is not an
/// object is itself the shape error, and an object is assembled field by
/// field.
pub open spec fn spec_obj_rule(o: Option<RuleFieldsV>) -> Result<RuleV, ErrV> {
    match o {
        Some(f) => spec_rule_from_fields(f),
        None => Err(ErrV::NotAnObject),
    }
}

impl Rule {
    /// Reads one rule from a JSON value: a value that is not an object is a
    /// shape error; an object's six keys are read by the JSON wrappers and the
    /// rule is assembled by `rule_from_fields`, whose contract fixes which key
    /// feeds which field and which error wins. What this value holds is known
    /// only to the wrappers; whatever they hand back, every returned rule's
    /// compiled patterns correspond to their stored sources.
    pub fn parse_json(val: &serde_json::Value) -> (r: Result<Rule, Error>)
        ensures
            r matches Ok(rule) ==> rule_wf(rule@),
    {
        if !json_is_object(val) {
            return Err(Error::NotAnObject);
        }
        let fields = rule_fields_of(val);
        rule_from_fields(&fields)
    }
}

impl Rules {
    /// Reads an ordered rule set from rule-file text: a JSON array of rule
    /// objects, in declaration order. The result is fixed by what the trusted
    /// file reader hands back: on success, one rule per array element, in
    /// order; otherwise the file's own error, the not-an-array error, or the
    /// first element's failure, each if and only if the read file has that
    /// defect.
    #[verifier::loop_isolation(false)]
    pub fn from_json(text: &str) -> (r: Result<Rules, crate::error::Error>)
        ensures
            match r {
                Ok(rs) => rule_file_fields(text@) matches Ok(objs) && objs.len()
                    == rs.rules@.len() && (forall|i: int|
                    0 <= i < objs.len() ==> spec_obj_rule(objs[i]) == Ok::<RuleV, ErrV>(
                        #[trigger] rs.rules@[i]@,
                    )) && (forall|i: int|
                    0 <= i < rs.rules@.len() ==> rule_wf(#[trigger] rs.rules@[i]@)),
                Err(e) => match e {
                    crate::error::Error::Json(msg) => rule_file_fields(text@) == Err::<
                        Seq<Option<RuleFieldsV>>,
                        RuleFileErrV,
                    >(RuleFileErrV::Syntax(msg@)),
                    crate::error::Error::Other(msg) => rule_file_fields(text@) == Err::<
                        Seq<Option<RuleFieldsV>>,
                        RuleFileErrV,
                    >(RuleFileErrV::NotArray) && msg@ == "JSON should be an array"@,
                    crate::error::Error::Rule(pe) => rule_file_fields(text@) matches Ok(objs)
                        && exists|i: int|
                        0 <= i < objs.len() && #[trigger] spec_obj_rule(objs[i]) == Err::<
                            RuleV,
                            ErrV,
                        >(pe@) && (forall|j: int|
                            0 <= j < i ==> spec_obj_rule(#[trigger] objs[j]) is Ok),
                    _ => false,
                },
            },
    {
        let objs = match read_rule_objects(text) {
            Ok(v) => v,
            Err(RuleFileErr::Syntax(msg)) => {
                return Err(crate::error::Error::Json(msg));
            },
            Err(RuleFileErr::NotArray) => {
                return Err(crate::error::Error::Other("JSON should be an array".to_owned()));
            },
        };
        let ghost all = crate::json::view_rule_objects(&objs);
        let mut rules: Vec<Rule> = Vec::new();
        let mut i: usize = 0;
        while i < objs.len()
            invariant
                i <= objs@.len(),
                rules@.len() == i,
                forall|k: int|
                    0 <= k < i ==> spec_obj_rule(all[k]) == Ok::<RuleV, ErrV>(
                        #[trigger] rules@[k]@,
                    ),
                forall|k: int| 0 <= k < i ==> rule_wf(#[trigger] rules@[k]@),
            decreases objs@.len() - i,
        {
            let rule = match &objs[i] {
                Some(fields) => {
                    match rule_from_fields(fields) {
                        Ok(rule) => rule,
                        Err(e) => {
                            proof {
                                assert(spec_obj_rule(all[i as int]) == Err::<RuleV, ErrV>(e@));
                                assert forall|j: int| 0 <= j < i implies spec_obj_rule(
                                    all[j],
                                ) is Ok by {
                                    assert(spec_obj_rule(all[j]) == Ok::<RuleV, ErrV>(
                                        rules@[j]@,
                                    ));
                                }
                            }
                            return Err(crate::error::Error::Rule(e));
                        },
                    }
                },
                None => {
                    proof {
                        assert(spec_obj_rule(all[i as int]) == Err::<RuleV, ErrV>(
                            ErrV::NotAnObject,
                        ));
                        assert forall|j: int| 0 <= j < i implies spec_obj_rule(all[j]) is Ok by {
                            assert(spec_obj_rule(all[j]) == Ok::<RuleV, ErrV>(rules@[j]@));
                        }
                    }
                    return Err(crate::error::Error::Rule(Error::NotAnObject));
                },
            };
            rules.push(rule);
            i += 1;
        }
        Ok(Rules { rules })
    }
}

} // verus!
