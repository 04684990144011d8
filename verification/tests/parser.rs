use brace_parser::character::is_alphabetic;
use brace_parser::error::Error;
use brace_parser::error::SpecError;
use brace_parser::parser::Output;
use brace_parser::parser::Parser;
use brace_parser::parser::parse;
use brace_parser::parser::take;
use brace_parser::parser::take_while;

struct Custom;

impl<'a> Parser<'a, &'a str> for Custom {
    fn wf(&self) -> bool {
        unreachable!()
    }

    fn ok(&self, _input: vstd::seq::Seq<char>, _out: &'a str, _rem: vstd::seq::Seq<char>) -> bool {
        unreachable!()
    }

    fn err(&self, _input: vstd::seq::Seq<char>, _e: SpecError) -> bool {
        unreachable!()
    }

    fn parse(&self, input: &'a str) -> Output<'a, &'a str> {
        take(|ch| ch == '$').parse(input)
    }
}

#[test]
fn test_parser_struct() {
    assert_eq!(parse("", Custom), Err(Error::found_end()));
    assert_eq!(parse("a", Custom), Err(Error::found('a')));
    assert_eq!(parse("$", Custom), Ok(("$", "")));
    assert_eq!(parse("$$", Custom), Ok(("$", "$")));
}

#[test]
fn test_parser_unit() {
    assert_eq!(parse("", ()), Ok(((), "")));
    assert_eq!(parse("hello", ()), Ok(((), "hello")));
}

#[test]
fn test_parser_char() {
    assert_eq!(parse("", 'h'), Err(Error::expect('h').but_found_end()));
    assert_eq!(parse("$", 'h'), Err(Error::expect('h').but_found('$')));
    assert_eq!(parse("h", 'h'), Ok(('h', "")));
    assert_eq!(parse("hello", 'h'), Ok(('h', "ello")));
}

#[test]
fn test_parser_str() {
    assert_eq!(parse("", "h"), Err(Error::expect('h').but_found_end()));
    assert_eq!(parse("$", "h"), Err(Error::expect('h').but_found('$')));
    assert_eq!(parse("h", "h"), Ok(("h", "")));
    assert_eq!(parse("hello", "h"), Ok(("h", "ello")));
    assert_eq!(parse("", "hello"), Err(Error::expect('h').but_found_end()));
    assert_eq!(parse("h", "hello"), Err(Error::expect('e').but_found_end()));
    assert_eq!(
        parse("help", "hello"),
        Err(Error::expect('l').but_found('p'))
    );
    assert_eq!(parse("hello", "hello"), Ok(("hello", "")));
    assert_eq!(parse("hello world", "hello"), Ok(("hello", " world")));
}

#[test]
fn test_parser_string() {
    assert_eq!(
        parse("", "h".to_owned()),
        Err(Error::expect('h').but_found_end())
    );
    assert_eq!(
        parse("$", "h".to_owned()),
        Err(Error::expect('h').but_found('$'))
    );
    assert_eq!(parse("h", "h".to_owned()), Ok(("h", "")));
    assert_eq!(parse("hello", "h".to_owned()), Ok(("h", "ello")));
    assert_eq!(
        parse("", "hello".to_owned()),
        Err(Error::expect('h').but_found_end())
    );
    assert_eq!(
        parse("h", "hello".to_owned()),
        Err(Error::expect('e').but_found_end())
    );
    assert_eq!(
        parse("help", "hello".to_owned()),
        Err(Error::expect('l').but_found('p'))
    );
    assert_eq!(parse("hello", "hello".to_owned()), Ok(("hello", "")));
    assert_eq!(
        parse("hello world", "hello".to_owned()),
        Ok(("hello", " world"))
    );
}

#[test]
fn test_parser_tuple() {
    assert_eq!(
        parse("", ("hello", ' ', "world")),
        Err(Error::expect('h').but_found_end())
    );
    assert_eq!(
        parse("hello", ("hello", ' ', "world")),
        Err(Error::expect(' ').but_found_end())
    );
    assert_eq!(
        parse("hello ", ("hello", ' ', "world")),
        Err(Error::expect('w').but_found_end())
    );
    assert_eq!(
        parse("hello world", ("hello", ' ', "world")),
        Ok((("hello", ' ', "world"), ""))
    );
    assert_eq!(
        parse("hello world!", ("hello", ' ', "world")),
        Ok((("hello", ' ', "world"), "!"))
    );
    assert_eq!(
        parse("hello universe!", ("hello", ' ', "world")),
        Err(Error::expect('w').but_found('u'))
    );
    assert_eq!(parse("hello world!", ('h',)), Ok((('h',), "ello world!")));
    assert_eq!(
        parse("hello world!", ('h', 'e')),
        Ok((('h', 'e'), "llo world!"))
    );
    assert_eq!(
        parse("hello world!", ('h', 'e', 'l')),
        Ok((('h', 'e', 'l'), "lo world!"))
    );
    assert_eq!(
        parse("hello world!", ('h', 'e', 'l', 'l')),
        Ok((('h', 'e', 'l', 'l'), "o world!"))
    );
    assert_eq!(
        parse("hello world!", ('h', 'e', 'l', 'l', 'o')),
        Ok((('h', 'e', 'l', 'l', 'o'), " world!"))
    );
    assert_eq!(
        parse("hello world!", ('h', 'e', 'l', 'l', 'o', ' ')),
        Ok((('h', 'e', 'l', 'l', 'o', ' '), "world!"))
    );
    assert_eq!(
        parse("hello world!", ('h', 'e', 'l', 'l', 'o', ' ', 'w')),
        Ok((('h', 'e', 'l', 'l', 'o', ' ', 'w'), "orld!"))
    );
    assert_eq!(
        parse("hello world!", ('h', 'e', 'l', 'l', 'o', ' ', 'w', 'o')),
        Ok((('h', 'e', 'l', 'l', 'o', ' ', 'w', 'o'), "rld!"))
    );
    assert_eq!(
        parse(
            "hello world!",
            ('h', 'e', 'l', 'l', 'o', ' ', 'w', 'o', 'r')
        ),
        Ok((('h', 'e', 'l', 'l', 'o', ' ', 'w', 'o', 'r'), "ld!"))
    );
    assert_eq!(
        parse(
            "hello world!",
            ('h', 'e', 'l', 'l', 'o', ' ', 'w', 'o', 'r', 'l')
        ),
        Ok((('h', 'e', 'l', 'l', 'o', ' ', 'w', 'o', 'r', 'l'), "d!"))
    );
    assert_eq!(
        parse(
            "hello world!",
            ('h', 'e', 'l', 'l', 'o', ' ', 'w', 'o', 'r', 'l', 'd')
        ),
        Ok((('h', 'e', 'l', 'l', 'o', ' ', 'w', 'o', 'r', 'l', 'd'), "!"))
    );
    assert_eq!(
        parse(
            "hello world!",
            ('h', 'e', 'l', 'l', 'o', ' ', 'w', 'o', 'r', 'l', 'd', '!')
        ),
        Ok((
            ('h', 'e', 'l', 'l', 'o', ' ', 'w', 'o', 'r', 'l', 'd', '!'),
            ""
        ))
    );
}

#[test]
fn test_take() {
    assert_eq!(parse("", take(is_alphabetic)), Err(Error::found_end()));
    assert_eq!(parse("h", take(is_alphabetic)), Ok(("h", "")));
    assert_eq!(parse("hello", take(is_alphabetic)), Ok(("h", "ello")));
    assert_eq!(
        parse("hello world", take(is_alphabetic)),
        Ok(("h", "ello world"))
    );
    assert_eq!(
        parse("hello world", take(|_| true)),
        Ok(("h", "ello world"))
    );
    assert_eq!(
        parse("hello world", take(|_| false)),
        Err(Error::found('h'))
    );
    assert_eq!(parse("ß", take(|_| true)), Ok(("ß", "")));
    assert_eq!(parse("ℝ", take(|_| true)), Ok(("ℝ", "")));
    assert_eq!(parse("💣", take(|_| true)), Ok(("💣", "")));
    assert_eq!(parse("ßℝ💣", take(|_| true)), Ok(("ß", "ℝ💣")));
}

#[test]
fn test_take_while() {
    assert_eq!(
        parse("", take_while(is_alphabetic)),
        Err(Error::found_end())
    );
    assert_eq!(parse("h", take_while(is_alphabetic)), Ok(("h", "")));
    assert_eq!(parse("hello", take_while(is_alphabetic)), Ok(("hello", "")));
    assert_eq!(
        parse("hello world", take_while(is_alphabetic)),
        Ok(("hello", " world"))
    );
    assert_eq!(
        parse("hello world", take_while(|_| true)),
        Ok(("hello world", ""))
    );
    assert_eq!(
        parse("hello world", take_while(|_| false)),
        Err(Error::found('h'))
    );
    assert_eq!(parse("ß", take_while(|_| true)), Ok(("ß", "")));
    assert_eq!(parse("ℝ", take_while(|_| true)), Ok(("ℝ", "")));
    assert_eq!(parse("💣", take_while(|_| true)), Ok(("💣", "")));
    assert_eq!(parse("ßℝ💣", take_while(|_| true)), Ok(("ßℝ💣", "")));
}
