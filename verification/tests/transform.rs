use brace_parser::combinator::branch::either;
use brace_parser::combinator::branch::optional;
use brace_parser::combinator::consume;
use brace_parser::combinator::context;
use brace_parser::combinator::escaped;
use brace_parser::combinator::fail;
use brace_parser::combinator::map_err;
use brace_parser::combinator::not;
use brace_parser::combinator::pass;
use brace_parser::combinator::peek;
use brace_parser::combinator::series::leading;
use brace_parser::combinator::unescape;
use brace_parser::error::Error;
use brace_parser::parser::parse;
use brace_parser::sequence::Sequence;
use brace_parser::sequence::alphabetic;

#[test]
fn mod_test_map() {
    assert_eq!(
        parse("hello", brace_parser::combinator::map("hello", |seq| seq.to_owned() + "!")),
        Ok(("hello!".to_owned(), ""))
    );
    assert_eq!(
        parse("hello", brace_parser::combinator::map('h', Option::Some)),
        Ok((Some('h'), "ello"))
    );
}

#[test]
fn test_map_err() {
    assert_eq!(
        parse("", map_err("hello", |_| Error::expect('!'))),
        Err(Error::expect('!'))
    );
    assert_eq!(
        parse("h", map_err("hello", |err| err.but_found('!'))),
        Err(Error::expect('e').but_found('!'))
    );
}

#[test]
fn test_context() {
    assert_eq!(
        parse("", context("greeting", "hello")),
        Err(Error::context(
            "greeting",
            Error::expect('h').but_found_end()
        ))
    );
    assert_eq!(
        parse("h", context("greeting", "hello")),
        Err(Error::context(
            "greeting",
            Error::expect('e').but_found_end()
        ))
    );
}

#[test]
fn test_consume() {
    assert_eq!(
        parse("", consume(('h', 'e', 'l', 'l', 'o'))),
        Err(Error::expect('h').but_found_end())
    );
    assert_eq!(
        parse("help", consume(('h', 'e', 'l', 'l', 'o'))),
        Err(Error::expect('l').but_found('p'))
    );
    assert_eq!(
        parse("hello", consume(('h', 'e', 'l', 'l', 'o'))),
        Ok(("hello", ""))
    );
    assert_eq!(
        parse("hello world", consume(('h', 'e', 'l', 'l', 'o'))),
        Ok(("hello", " world"))
    );
    assert_eq!(parse("", consume("")), Ok(("", "")));
    assert_eq!(parse("hello", consume("")), Ok(("", "hello")));
}

#[test]
fn test_not() {
    assert_eq!(parse("", not('h')), Err(Error::found_end()));
    assert_eq!(parse("h", not('h')), Err(Error::found('h')));
    assert_eq!(parse("hello", not('h')), Err(Error::found('h')));
    assert_eq!(parse("g", not('h')), Ok(('g', "")));
    assert_eq!(parse("goodbye", not('h')), Ok(('g', "oodbye")));
}

#[test]
fn test_escaped() {
    assert_eq!(
        parse("", escaped(not('"'), either('"', '\\'))),
        Err(Error::found_end())
    );
    assert_eq!(
        parse("\"", escaped(not('"'), either('"', '\\'))),
        Err(Error::found('"'))
    );
    assert_eq!(
        parse("\\", escaped(not('"'), either('"', '\\'))),
        Err(Error::found('\\'))
    );
    assert_eq!(
        parse("hello world", escaped(not('"'), either('"', '\\'))),
        Ok(("hello world", ""))
    );
    assert_eq!(
        parse(r#""hello world""#, escaped(not('"'), either('"', '\\'))),
        Err(Error::found('"'))
    );
    assert_eq!(
        parse(r#"\"hello world\""#, escaped(not('"'), either('"', '\\'))),
        Ok(("\\\"hello world\\\"", ""))
    );
    assert_eq!(
        parse(r#"\\"hello world\\""#, escaped(not('"'), either('"', '\\'))),
        Ok(("\\\\", "\"hello world\\\\\""))
    );
    assert_eq!(
        parse(
            r#"\\\"hello world\\\""#,
            escaped(not('"'), either('"', '\\'))
        ),
        Ok(("\\\\\\\"hello world\\\\\\\"", ""))
    );
    assert_eq!(
        parse(
            r#"\\\\"hello world\\\\""#,
            escaped(not('"'), either('"', '\\'))
        ),
        Ok(("\\\\\\\\", "\"hello world\\\\\\\\\""))
    );
    assert_eq!(
        parse(
            r#"\\\\\"hello world\\\\\""#,
            escaped(not('"'), either('"', '\\'))
        ),
        Ok(("\\\\\\\\\\\"hello world\\\\\\\\\\\"", ""))
    );
    assert_eq!(
        parse(
            r#"\\\\\\"hello world\\\\\\""#,
            escaped(not('"'), either('"', '\\'))
        ),
        Ok(("\\\\\\\\\\\\", "\"hello world\\\\\\\\\\\\\""))
    );
    assert_eq!(
        parse(
            r#"\\\\\\\"hello world\\\\\\\""#,
            escaped(not('"'), either('"', '\\'))
        ),
        Ok(("\\\\\\\\\\\\\\\"hello world\\\\\\\\\\\\\\\"", ""))
    );
    assert_eq!(
        parse(
            r#"\"\\\"hello world\\\"\""#,
            escaped(not('"'), either('"', '\\'))
        ),
        Ok(("\\\"\\\\\\\"hello world\\\\\\\"\\\"", ""))
    );
    assert_eq!(
        parse(
            r#"\"\\\"\\\\\\\"hello world\\\\\\\"\\\"\""#,
            escaped(not('"'), either('"', '\\'))
        ),
        Ok((
            "\\\"\\\\\\\"\\\\\\\\\\\\\\\"hello world\\\\\\\\\\\\\\\"\\\\\\\"\\\"",
            ""
        ))
    );
}

#[test]
fn test_unescape() {
    assert_eq!(
        parse("", unescape(escaped(not('\n'), 'n'), brace_parser::combinator::map('n', |_| '\n'))),
        Err(Error::found_end())
    );
    assert_eq!(
        parse("\n", unescape(escaped(not('\n'), 'n'), brace_parser::combinator::map('n', |_| '\n'))),
        Err(Error::found('\n'))
    );
    assert_eq!(
        parse(
            "hello",
            unescape(escaped(not('\n'), 'n'), brace_parser::combinator::map('n', |_| '\n'))
        ),
        Ok(("hello".to_owned(), ""))
    );
    assert_eq!(
        parse(
            "hello world",
            unescape(escaped(not('\n'), 'n'), brace_parser::combinator::map('n', |_| '\n'))
        ),
        Ok(("hello world".to_owned(), ""))
    );
    assert_eq!(
        parse(
            "hello\nworld",
            unescape(escaped(not('\n'), 'n'), brace_parser::combinator::map('n', |_| '\n'))
        ),
        Ok(("hello".to_owned(), "\nworld"))
    );
    assert_eq!(
        parse(
            "hello\\nworld",
            unescape(escaped(not('\n'), 'n'), brace_parser::combinator::map('n', |_| '\n'))
        ),
        Ok(("hello\nworld".to_owned(), ""))
    );
    assert_eq!(
        parse(
            "\\nhello\\nworld\\n",
            unescape(escaped(not('\n'), 'n'), brace_parser::combinator::map('n', |_| '\n'))
        ),
        Ok(("\nhello\nworld\n".to_owned(), ""))
    );
}

#[test]
fn test_pass() {
    assert_eq!(
        parse(
            "",
            (alphabetic, optional(leading(':', pass(fail(alphabetic)))))
        ),
        Err(Error::expect(Sequence::Alphabetic).but_found_end())
    );
    assert_eq!(
        parse(
            "hello",
            (alphabetic, optional(leading(':', pass(fail(alphabetic)))))
        ),
        Ok((("hello", None), ""))
    );
    assert_eq!(
        parse(
            "hello:",
            (alphabetic, optional(leading(':', pass(fail(alphabetic)))))
        ),
        Ok((("hello", None), ":"))
    );
    assert_eq!(
        parse(
            "hello:world",
            (alphabetic, optional(leading(':', pass(fail(alphabetic)))))
        ),
        Ok((("hello", Some("world")), ""))
    );
    assert_eq!(
        parse(
            "hello:123",
            (alphabetic, optional(leading(':', pass(fail(alphabetic)))))
        ),
        Ok((("hello", None), ":123"))
    );
}

#[test]
fn test_fail() {
    assert_eq!(
        parse("", (alphabetic, optional(leading(':', fail(alphabetic))))),
        Err(Error::expect(Sequence::Alphabetic).but_found_end())
    );
    assert_eq!(
        parse(
            "hello",
            (alphabetic, optional(leading(':', fail(alphabetic))))
        ),
        Ok((("hello", None), ""))
    );
    assert_eq!(
        parse(
            "hello:",
            (alphabetic, optional(leading(':', fail(alphabetic))))
        ),
        Err(Error::expect(Sequence::Alphabetic)
            .but_found_end()
            .into_fail())
    );
    assert_eq!(
        parse(
            "hello:world",
            (alphabetic, optional(leading(':', fail(alphabetic))))
        ),
        Ok((("hello", Some("world")), ""))
    );
    assert_eq!(
        parse(
            "hello:123",
            (alphabetic, optional(leading(':', fail(alphabetic))))
        ),
        Err(Error::expect(Sequence::Alphabetic)
            .but_found('1')
            .into_fail())
    );
}

#[test]
fn test_peek() {
    assert_eq!(
        parse("", ("hello", peek(" world"))),
        Err(Error::expect('h').but_found_end())
    );
    assert_eq!(
        parse("hello", ("hello", peek(" world"))),
        Err(Error::expect(' ').but_found_end())
    );
    assert_eq!(
        parse("hello universe", ("hello", peek(" world"))),
        Err(Error::expect('w').but_found('u'))
    );
    assert_eq!(
        parse("hello world", ("hello", peek(" world"))),
        Ok((("hello", " world"), " world"))
    );
}
