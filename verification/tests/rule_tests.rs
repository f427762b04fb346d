use salewatch::models::Post;
use salewatch::pattern::Pattern;
use salewatch::rule::{PatternAndSource, Rule, Rules};
use salewatch::title::Title;

fn plain_post(flair: Option<&str>) -> Post {
    Post {
        id: "abc123".to_owned(),
        title: "[GPU] some card $500".to_owned(),
        link_flair_text: flair.map(|s| s.to_owned()),
        url: "https://example.invalid/x".to_owned(),
    }
}

fn plain_title() -> Title {
    Title::parse("[GPU] some card $500", "abc123").unwrap()
}

#[test]
fn test_from_json() {
    let json = r#"{
        "name": "test",
        "product_type_pattern": "GPU",
        "description_pattern": "nvidia",
        "price_max": 1500
    }"#;

    let val: serde_json::Value = serde_json::from_str(json).unwrap();
    let parsed = Rule::parse_json(&val);
    assert!(parsed.is_ok());
    let parsed = parsed.unwrap();

    assert_eq!(
        parsed,
        Rule {
            name: Some("test".to_owned()),
            link_flair_pattern: None,
            product_type_pattern: Some(PatternAndSource {
                source: "GPU".to_owned(),
                pattern: Pattern::Exact("GPU".to_owned())
            }),
            description_pattern: Some(PatternAndSource {
                source: "nvidia".to_owned(),
                pattern: Pattern::Exact("nvidia".to_owned())
            }),
            price_min_dollars: None,
            price_max_dollars: Some(1500)
        }
    )
}

#[test]
fn test_from_json_rejects_non_object() {
    let val: serde_json::Value = serde_json::from_str("[1, 2]").unwrap();
    assert!(matches!(
        Rule::parse_json(&val),
        Err(salewatch::scan::Error::NotAnObject)
    ));
}

#[test]
fn test_from_json_rejects_mistyped_key() {
    let val: serde_json::Value = serde_json::from_str(r#"{"price_min": "low"}"#).unwrap();
    assert_eq!(
        Rule::parse_json(&val),
        Err(salewatch::scan::Error::BadValue("price_min".to_owned()))
    );
}

#[test]
fn test_rule_error_precedence_follows_field_order() {
    // The flair pattern's parse error comes before the mistyped product key:
    // fields are checked in declaration order.
    let val: serde_json::Value =
        serde_json::from_str(r#"{"link_flair_pattern": "(a", "product_type_pattern": 5}"#)
            .unwrap();
    assert!(matches!(
        Rule::parse_json(&val),
        Err(salewatch::scan::Error::ExpectedButGotToken(_, _, _))
    ));
    // ...and a mistyped name beats a later pattern's parse error.
    let val: serde_json::Value =
        serde_json::from_str(r#"{"name": 5, "link_flair_pattern": "(a"}"#).unwrap();
    assert_eq!(
        Rule::parse_json(&val),
        Err(salewatch::scan::Error::BadValue("name".to_owned()))
    );
}

#[test]
fn test_rules_from_json_text() {
    let text = r#"[{"name": "a", "description_pattern": "term1 || term2"}]"#;
    let rules = Rules::from_json(text).unwrap();
    assert_eq!(rules.rules.len(), 1);
    assert_eq!(rules.rules[0].name(), "a");
    assert!(matches!(
        Rules::from_json("{}"),
        Err(salewatch::error::Error::Other(_))
    ));
    assert!(matches!(
        Rules::from_json("not json"),
        Err(salewatch::error::Error::Json(_))
    ));
    assert!(matches!(
        Rules::from_json(r#"[{"description_pattern": "(a"}]"#),
        Err(salewatch::error::Error::Rule(_))
    ));
    // A pattern with trailing tokens is malformed and startup-fatal too.
    assert!(matches!(
        Rules::from_json(r#"[{"description_pattern": "gpu) || cheap"}]"#),
        Err(salewatch::error::Error::Rule(_))
    ));
}

#[test]
fn test_fingerprint_of_empty_rule_is_digest_of_nothing() {
    let rule = Rule::compile(None, None, None, None, None, None).unwrap();
    // MD5 of the empty input, rendered in base64: a fixed-length token.
    let token = rule.hash();
    assert_eq!(token, "1B2M2Y8AsgTpgAmY7PhCfg==");
    assert_eq!(token.chars().count(), 24);
}

#[test]
fn test_fingerprint_ignores_pattern_surface_syntax() {
    // The same expression written with different whitespace and quoting.
    let a = Rule::compile(
        Some("r".to_owned()),
        None,
        Some("GPU".to_owned()),
        Some("a&&b||c".to_owned()),
        Some(10),
        Some(1500),
    )
    .unwrap();
    let b = Rule::compile(
        Some("r".to_owned()),
        None,
        Some("\"GPU\"".to_owned()),
        Some("(  a   && \"b\" ) || c".to_owned()),
        Some(10),
        Some(1500),
    )
    .unwrap();
    assert_ne!(a.product_type_pattern, b.product_type_pattern);
    assert_eq!(a.hash(), b.hash());
}

#[test]
fn test_fingerprint_differs_for_different_bounds() {
    let a = Rule::compile(Some("r".to_owned()), None, None, None, Some(10), None).unwrap();
    let b = Rule::compile(Some("r".to_owned()), None, None, None, Some(11), None).unwrap();
    assert_ne!(a.hash(), b.hash());
}

#[test]
fn test_match_case_insensitive_substring() {
    let p = Pattern::Exact("nvidia".to_owned());
    assert!(p.does_string_match("NVIDIA GeForce"));
    assert!(!p.does_string_match("AMD Radeon"));
}

#[test]
fn test_match_optional_vacuous_only_for_not() {
    let negated = Pattern::Not(Box::new(Pattern::Exact("x".to_owned())));
    let plain = Pattern::Exact("x".to_owned());
    assert!(negated.does_string_option_match(&None));
    assert!(!plain.does_string_option_match(&None));
    assert!(plain.does_string_option_match(&Some("an X here".to_owned())));
}

#[test]
fn test_first_matching_rule_wins() {
    let r1 = Rule::compile(Some("first".to_owned()), None, Some("GPU".to_owned()), None, None, None)
        .unwrap();
    let r2 = Rule::compile(Some("second".to_owned()), None, Some("GPU".to_owned()), None, None, None)
        .unwrap();
    let rules = Rules { rules: vec![r1, r2] };
    let post = plain_post(None);
    let title = plain_title();
    let selected = rules.get_matching_rule(&post, &title).unwrap();
    assert_eq!(selected.name(), "first");
}

#[test]
fn test_price_bounds_are_inclusive_in_tenths() {
    // The price compares as dollars plus one tenth per cents unit.
    let title = Title::parse("[GPU] card $163.19", "1").unwrap();
    // 163 + 0.1 * 19 = 164.9, so a 165-dollar minimum excludes it...
    let min165 =
        Rule::compile(None, None, None, None, Some(165), None).unwrap();
    let post = plain_post(None);
    assert!(rules_of(min165).get_matching_rule(&post, &title).is_none());
    // ...while a 164-dollar minimum does not.
    let min164 = Rule::compile(None, None, None, None, Some(164), None).unwrap();
    assert!(rules_of(min164).get_matching_rule(&post, &title).is_some());
}

fn rules_of(r: Rule) -> Rules {
    Rules { rules: vec![r] }
}

#[test]
fn test_flair_rule_on_missing_flair() {
    // "must not have flair X" passes with no flair at all; "must have" does not.
    let must_not = Rule::compile(None, Some("!refurb".to_owned()), None, None, None, None).unwrap();
    let must = Rule::compile(None, Some("refurb".to_owned()), None, None, None, None).unwrap();
    let post = plain_post(None);
    let title = plain_title();
    assert!(rules_of(must_not).get_matching_rule(&post, &title).is_some());
    assert!(rules_of(must).get_matching_rule(&post, &title).is_none());
}
