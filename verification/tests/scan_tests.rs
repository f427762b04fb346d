use salewatch::pattern::Pattern;
use salewatch::scan::{parse_pattern, Error, MaybeToken, Scanner, Token, Tokens};

#[test]
fn test_keyword_unquoted() {
    let mut scanner = Scanner::new("nvidia ");
    let res = scanner.keyword();

    assert!(!res.is_err());
    let kwd = res.unwrap();

    assert_eq!(kwd, "nvidia".to_owned());
    assert_eq!(scanner.cursor, 6)
}

#[test]
fn test_keyword_unquoted_end_paren() {
    let mut scanner = Scanner::new("nvidia)");
    let res = scanner.keyword();

    assert!(!res.is_err());
    let kwd = res.unwrap();

    assert_eq!(kwd, "nvidia".to_owned());
    assert_eq!(scanner.cursor, 6);
}

#[test]
fn test_keyword_quoted() {
    let mut scanner = Scanner::new("\"RTX 3080\"");
    let res = scanner.keyword();

    assert!(!res.is_err());
    let kwd = res.unwrap();

    assert_eq!(kwd, "RTX 3080".to_owned());
    assert_eq!(scanner.cursor, 10);
}

#[test]
fn test_until_next_quote() {
    let mut scanner = Scanner::new("abcd\"");
    let res = scanner.until_next_quote();

    assert!(!res.is_err());
    let kwd = res.unwrap();

    assert_eq!(kwd, "abcd".to_owned());
}

#[test]
fn test_pattern_single_keyword() {
    let mut scanner = Scanner::new("abcd");
    let pattern = scanner.pattern();

    assert_eq!(pattern, Ok(Pattern::Exact("abcd".to_owned())));
}

#[test]
fn test_pattern_and() {
    let mut scanner = Scanner::new("nvidia && rtx");
    let pattern = scanner.pattern();

    assert_eq!(
        pattern,
        Ok(Pattern::And(
            Box::new(Pattern::Exact("nvidia".to_owned())),
            Box::new(Pattern::Exact("rtx".to_owned()))
        ))
    );
}

#[test]
fn test_pattern_or() {
    let mut scanner = Scanner::new("nvidia||rtx");
    let pattern = scanner.pattern();

    assert_eq!(
        pattern,
        Ok(Pattern::Or(
            Box::new(Pattern::Exact("nvidia".to_owned())),
            Box::new(Pattern::Exact("rtx".to_owned()))
        ))
    );
}

#[test]
fn test_pattern_not_or() {
    let mut scanner = Scanner::new("!(bad || expensive)");
    let pattern = scanner.pattern();
    assert_eq!(
        pattern,
        Ok(Pattern::Not(Box::new(Pattern::Or(
            Box::new(Pattern::Exact("bad".to_owned())),
            Box::new(Pattern::Exact("expensive".to_owned()))
        ))))
    );
}

#[test]
fn test_pattern_and_or() {
    let mut scanner = Scanner::new("(nvidia && rtx) || (nvidia && \"gtx 3060 ti\")");
    let pattern = scanner.pattern();

    assert_eq!(
        pattern,
        Ok(Pattern::Or(
            Box::new(Pattern::And(
                Box::new(Pattern::Exact("nvidia".to_owned())),
                Box::new(Pattern::Exact("rtx".to_owned()))
            )),
            Box::new(Pattern::And(
                Box::new(Pattern::Exact("nvidia".to_owned())),
                Box::new(Pattern::Exact("gtx 3060 ti".to_owned()))
            ))
        ))
    );
}

#[test]
fn test_equal_precedence_and_then_or() {
    // a && b || c groups as (a && b) || c: strictly left to right.
    let parsed = parse_pattern("a && b || c");
    assert_eq!(
        parsed,
        Ok(Pattern::Or(
            Box::new(Pattern::And(
                Box::new(Pattern::Exact("a".to_owned())),
                Box::new(Pattern::Exact("b".to_owned()))
            )),
            Box::new(Pattern::Exact("c".to_owned()))
        ))
    );
}

#[test]
fn test_equal_precedence_or_then_and() {
    // a || b && c groups as (a || b) && c, not with && binding tighter.
    let parsed = parse_pattern("a || b && c");
    assert_eq!(
        parsed,
        Ok(Pattern::And(
            Box::new(Pattern::Or(
                Box::new(Pattern::Exact("a".to_owned())),
                Box::new(Pattern::Exact("b".to_owned()))
            )),
            Box::new(Pattern::Exact("c".to_owned()))
        ))
    );
}

#[test]
fn test_empty_quoted_keyword_is_error() {
    let parsed = parse_pattern("\"\"");
    assert_eq!(parsed, Err(Error::EmptyKeyword(2)));
}

#[test]
fn test_invalid_keyword_char_is_error() {
    let parsed = parse_pattern("a#b");
    assert_eq!(parsed, Err(Error::InvalidKeywordChar(1, '#')));
}

#[test]
fn test_invalid_first_keyword_char_is_error() {
    // The first character of an unquoted keyword must be alphanumeric too.
    let parsed = parse_pattern("%foo");
    assert_eq!(parsed, Err(Error::InvalidKeywordChar(0, '%')));
}

#[test]
fn test_lone_pipe_is_error() {
    let parsed = parse_pattern("a | b");
    assert_eq!(
        parsed,
        Err(Error::ExpectedButGotChar(
            4,
            "|".to_owned(),
            salewatch::scan::MaybeChar(Some(' '))
        ))
    );
}

#[test]
fn test_unbalanced_paren_is_error() {
    let parsed = parse_pattern("(a");
    assert!(matches!(parsed, Err(Error::ExpectedButGotToken(_, _, _))));
}

#[test]
fn test_trailing_token_is_error() {
    // The grammar must consume the whole input: an unbalanced closing
    // parenthesis after a complete pattern is malformed, not ignored.
    let parsed = parse_pattern("a)");
    assert_eq!(
        parsed,
        Err(Error::ExpectedButGotToken(
            1,
            Tokens(vec![]),
            MaybeToken(Some(Token::ParenClose))
        ))
    );
}

#[test]
fn test_trailing_input_after_close_paren_is_error() {
    let parsed = parse_pattern("gpu) || cheap");
    assert_eq!(
        parsed,
        Err(Error::ExpectedButGotToken(
            3,
            Tokens(vec![]),
            MaybeToken(Some(Token::ParenClose))
        ))
    );
}

#[test]
fn test_keyword_on_empty_input_is_error() {
    let mut scanner = Scanner::new("");
    assert_eq!(
        scanner.keyword(),
        Err(Error::ExpectedNonWhitespace(0, salewatch::scan::MaybeChar(None)))
    );
}

#[test]
fn test_rewind_without_scanned_token_is_error() {
    let mut scanner = Scanner::new("abc");
    assert_eq!(scanner.rewind_cursor(), Err(Error::CantRewindToken(0)));
}

#[test]
fn test_structural_hash_distinguishes_operators() {
    let and = parse_pattern("a && b").unwrap();
    let or = parse_pattern("a || b").unwrap();
    let and_again = parse_pattern("\"a\"&&\"b\"").unwrap();
    assert_ne!(and.hash(), or.hash());
    assert_eq!(and.hash(), and_again.hash());
}
