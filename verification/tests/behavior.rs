use brace_parser::character::Character;
use brace_parser::character::is_alphabetic;
use brace_parser::character::is_decimal;
use brace_parser::character::is_indent;
use brace_parser::character::is_linebreak;
use brace_parser::character::is_whitespace;
use brace_parser::combinator::branch::either;
use brace_parser::combinator::branch::optional;
use brace_parser::combinator::consume;
use brace_parser::combinator::escaped;
use brace_parser::combinator::fail;
use brace_parser::combinator::not;
use brace_parser::combinator::series::list;
use brace_parser::combinator::series::pair;
use brace_parser::sequence::Sequence;
use brace_parser::combinator::unescape;
use brace_parser::error::Error;
use brace_parser::parser::parse;
use brace_parser::parser::take;
use brace_parser::parser::take_while;
use brace_parser::util::is_ascii_indent;
use brace_parser::util::is_ascii_linebreak;

#[test]
fn consumed_plus_remainder_rebuilds_input() {
    let input = "hello world";
    let (_, rem) = parse(input, pair("hello", " wor")).unwrap();
    assert!(rem.len() <= input.len());
    let consumed = &input[..input.len() - rem.len()];
    assert_eq!(format!("{}{}", consumed, rem), input);
    assert_eq!(consumed, "hello wor");
    assert_eq!(rem, "ld");

    let (span, rem) = parse(input, take_while(is_alphabetic)).unwrap();
    assert_eq!(format!("{}{}", span, rem), input);
}

#[test]
fn take_and_take_while_fail_alike() {
    assert_eq!(
        parse("1abc", take(is_alphabetic)),
        parse("1abc", take_while(is_alphabetic))
    );
    assert_eq!(
        parse("", take(is_alphabetic)),
        parse("", take_while(is_alphabetic))
    );
    assert_eq!(parse("ab1", take(is_alphabetic)), Ok(("a", "b1")));
    assert_eq!(parse("ab1", take_while(is_alphabetic)), Ok(("ab", "1")));
}

#[test]
fn committed_error_bypasses_second_branch() {
    // The second branch would succeed on this input; the committed failure
    // of the first must be returned instead.
    assert_eq!(
        parse("a", either(fail('x'), 'a')),
        Err(Error::expect('x').but_found('a').into_fail())
    );
}

#[test]
fn optional_swallows_only_recoverable_failures() {
    assert_eq!(parse("x", optional('h')), Ok((None, "x")));
    assert_eq!(
        parse("x", optional(fail('h'))),
        Err(Error::expect('h').but_found('x').into_fail())
    );
}

#[test]
fn list_leaves_trailing_separator() {
    assert_eq!(parse("a,a,a,", list('a', ',')), Ok((vec!['a', 'a', 'a'], ",")));
}

#[test]
fn unescape_decodes_markers_and_stops_at_quote() {
    assert_eq!(
        parse(
            "a\\nb\"",
            unescape(escaped(not('"'), 'n'), brace_parser::combinator::map('n', |_| '\n'))
        ),
        Ok(("a\nb".to_owned(), "\""))
    );
}

#[test]
fn hello_world_end_to_end() {
    assert_eq!(
        parse("hello world", pair("hello", " world")),
        Ok((("hello", " world"), ""))
    );
    assert_eq!(
        parse("hello world", pair("hello", "!")),
        Err(Error::expect('!').but_found(' '))
    );
}

#[test]
fn ascii_classes_partition() {
    for u in 0u32..128 {
        let c = char::from_u32(u).unwrap();
        let decimal = is_decimal(c);
        let alphabetic = is_alphabetic(c);
        let indent = is_indent(c);
        let linebreak = is_linebreak(c);
        let other_whitespace = is_whitespace(c) && !indent && !linebreak;
        let none = !decimal && !alphabetic && !indent && !linebreak && !other_whitespace;
        let count = [decimal, alphabetic, indent, linebreak, other_whitespace, none]
            .iter()
            .filter(|b| **b)
            .count();
        assert_eq!(count, 1);
        assert_eq!(is_whitespace(c), indent || linebreak);
    }
}

#[test]
fn error_severity_accessors() {
    let e = Error::expect('h');
    assert!(e.is_pass());
    assert!(!e.is_fail());
    assert!(e.as_pass().is_some());
    assert!(e.as_fail().is_none());
    let f = e.clone().into_fail();
    assert!(f.is_fail());
    assert!(f.as_fail().is_some());
    assert!(f.as_pass().is_none());
    assert_eq!(f.clone().into_pass(), e);
    assert_eq!(Error::invalid().is_fail(), true);
}

#[test]
fn error_context_accessors() {
    let e = Error::expect('h');
    assert_eq!(e.get_context(), None);
    let labelled = e.with_context("greeting");
    assert_eq!(labelled.get_context(), Some("greeting"));
    let mut again = labelled.clone();
    again.set_context("salutation");
    assert_eq!(again.get_context(), Some("salutation"));
    assert_eq!(
        Error::context("greeting", Error::expect('h')),
        Error::expect('h').with_context("greeting")
    );
}

#[test]
fn escaped_rejects_trailing_backslash() {
    assert_eq!(
        parse("ab\\", escaped(not('"'), 'n')),
        Err(Error::found('\\'))
    );
}

#[test]
fn consume_returns_raw_span() {
    assert_eq!(
        parse("hello world", consume(pair("hello", " "))),
        Ok(("hello ", "world"))
    );
}

#[test]
fn reference_predicates_match_their_classes() {
    assert!(is_ascii_indent(&' '));
    assert!(is_ascii_indent(&'\t'));
    assert!(!is_ascii_indent(&'\n'));
    assert!(is_ascii_linebreak(&'\n'));
    assert!(is_ascii_linebreak(&'\r'));
    assert!(is_ascii_linebreak(&'\u{000C}'));
    assert!(!is_ascii_linebreak(&' '));
}

#[test]
fn errors_render_canonically() {
    assert_eq!(
        Error::expect('h').but_found_end().render(),
        "Error:\nExpected character: 'h'\nFound end of input"
    );
    assert_eq!(
        Error::context("greeting", Error::expect('h')).render(),
        "Error: in greeting\nExpected character: 'h'"
    );
    assert_eq!(Error::invalid().render(), "Error:\nExpected valid parser");
    assert_eq!(Error::found('x').render(), "Error:\nFound character: 'x'");
}

#[test]
fn classifiers_render_their_names() {
    assert_eq!(Character::Decimal.render(), "decimal");
    assert_eq!(Character::Custom('x').render(), "'x'");
    assert_eq!(Sequence::Whitespace.render(), "whitespace");
    assert_eq!(Sequence::custom("ab").render(), "\"ab\"");
}
