use brace_parser::combinator::branch::either;
use brace_parser::combinator::branch::optional;
use brace_parser::combinator::series::delimited;
use brace_parser::combinator::series::leading;
use brace_parser::combinator::series::list;
use brace_parser::combinator::series::pair;
use brace_parser::combinator::series::series;
use brace_parser::combinator::series::trailing;
use brace_parser::combinator::series::trio;
use brace_parser::error::Error;
use brace_parser::parser::parse;
use brace_parser::sequence::alphabetic;
use brace_parser::sequence::whitespace;

#[test]
fn combinator_test_optional() {
    assert_eq!(parse("", optional("hello")), Ok((None, "")));
    assert_eq!(parse("$", optional("hello")), Ok((None, "$")));
    assert_eq!(parse("hello", optional("hello")), Ok((Some("hello"), "")));
    assert_eq!(
        parse("hello world", optional("hello")),
        Ok((Some("hello"), " world"))
    );
}

#[test]
fn combinator_test_either() {
    assert_eq!(
        parse("", either("one", "two")),
        Err(Error::expect('t').but_found_end())
    );
    assert_eq!(
        parse("$", either("one", "two")),
        Err(Error::expect('t').but_found('$'))
    );
    assert_eq!(parse("one", either("one", "two")), Ok(("one", "")));
    assert_eq!(parse("two", either("one", "two")), Ok(("two", "")));
    assert_eq!(
        parse("three", either("one", "two")),
        Err(Error::expect('w').but_found('h'))
    );
    assert_eq!(
        parse("three", either("two", "one")),
        Err(Error::expect('o').but_found('t'))
    );
    assert_eq!(parse("onetwo", either("one", "two")), Ok(("one", "two")));
}

#[test]
fn combinator_test_pair() {
    assert_eq!(
        parse("", pair("hello", " world")),
        Err(Error::expect('h').but_found_end())
    );
    assert_eq!(
        parse("hello", pair("hello", " world")),
        Err(Error::expect(' ').but_found_end())
    );
    assert_eq!(
        parse("hello world", pair("hello", " world")),
        Ok((("hello", " world"), ""))
    );
    assert_eq!(
        parse("hello universe", pair("hello", " world")),
        Err(Error::expect('w').but_found('u'))
    );
    assert_eq!(
        parse("goodbye world", pair("hello", " world")),
        Err(Error::expect('h').but_found('g'))
    );
    assert_eq!(
        parse(
            "hello \n world",
            pair("hello", pair(whitespace, alphabetic))
        ),
        Ok((("hello", (" \n ", "world")), ""))
    );
    assert_eq!(
        parse(
            "hello \n universe",
            pair("hello", pair(whitespace, alphabetic))
        ),
        Ok((("hello", (" \n ", "universe")), ""))
    );
}

#[test]
fn combinator_test_trio() {
    assert_eq!(
        parse("", trio("hello", ' ', "world")),
        Err(Error::expect('h').but_found_end())
    );
    assert_eq!(
        parse("hello", trio("hello", ' ', "world")),
        Err(Error::expect(' ').but_found_end())
    );
    assert_eq!(
        parse("hello world", trio("hello", ' ', "world")),
        Ok((("hello", ' ', "world"), ""))
    );
    assert_eq!(
        parse("hello universe", trio("hello", ' ', "world")),
        Err(Error::expect('w').but_found('u'))
    );
    assert_eq!(
        parse("goodbye world", trio("hello", ' ', "world")),
        Err(Error::expect('h').but_found('g'))
    );
    assert_eq!(
        parse("hello \n world", trio("hello", whitespace, alphabetic)),
        Ok((("hello", " \n ", "world"), ""))
    );
    assert_eq!(
        parse("hello \n universe", trio("hello", whitespace, alphabetic)),
        Ok((("hello", " \n ", "universe"), ""))
    );
}

#[test]
fn combinator_test_leading() {
    assert_eq!(
        parse("", leading("hello world", "!")),
        Err(Error::expect('h').but_found_end())
    );
    assert_eq!(
        parse("hello", leading("hello world", "!")),
        Err(Error::expect(' ').but_found_end())
    );
    assert_eq!(
        parse("hello world", leading("hello world", "!")),
        Err(Error::expect('!').but_found_end())
    );
    assert_eq!(
        parse("hello world!", leading("hello world", "!")),
        Ok(("!", ""))
    );
    assert_eq!(
        parse("hello world!!", leading("hello world", "!")),
        Ok(("!", "!"))
    );
    assert_eq!(
        parse("hello world?", leading("hello world", "!")),
        Err(Error::expect('!').but_found('?'))
    );
    assert_eq!(
        parse("hello universe!", leading("hello world", "!")),
        Err(Error::expect('w').but_found('u'))
    );
}

#[test]
fn combinator_test_trailing() {
    assert_eq!(
        parse("", trailing("hello world", "!")),
        Err(Error::expect('h').but_found_end())
    );
    assert_eq!(
        parse("hello", trailing("hello world", "!")),
        Err(Error::expect(' ').but_found_end())
    );
    assert_eq!(
        parse("hello world", trailing("hello world", "!")),
        Err(Error::expect('!').but_found_end())
    );
    assert_eq!(
        parse("hello world!", trailing("hello world", "!")),
        Ok(("hello world", ""))
    );
    assert_eq!(
        parse("hello world!!", trailing("hello world", "!")),
        Ok(("hello world", "!"))
    );
    assert_eq!(
        parse("hello world?", trailing("hello world", "!")),
        Err(Error::expect('!').but_found('?'))
    );
    assert_eq!(
        parse("hello universe!", trailing("hello world", "!")),
        Err(Error::expect('w').but_found('u'))
    );
}

#[test]
fn combinator_test_delimited() {
    assert_eq!(
        parse("(hello)", delimited('(', "hello", ')')),
        Ok(("hello", ""))
    );
    assert_eq!(
        parse("\"hello\"", delimited('"', "hello", '"')),
        Ok(("hello", ""))
    );
    assert_eq!(
        parse("\"hello\" world", delimited('"', "hello", '"')),
        Ok(("hello", " world"))
    );
    assert_eq!(
        parse("\"hello", delimited('"', "hello", '"')),
        Err(Error::expect('"').but_found_end())
    );
    assert_eq!(
        parse("hello", delimited('"', "hello", '"')),
        Err(Error::expect('"').but_found('h'))
    );
}

#[test]
fn combinator_test_map() {
    assert_eq!(
        parse("hello", brace_parser::combinator::map("hello", |seq| seq.to_owned() + "!")),
        Ok(("hello!".to_owned(), ""))
    );
    assert_eq!(
        parse("hello", brace_parser::combinator::map('h', Option::Some)),
        Ok((Some('h'), "ello"))
    );
}

#[test]
fn combinator_test_list() {
    assert_eq!(
        parse("", list('a', ',')),
        Err(Error::expect('a').but_found_end())
    );
    assert_eq!(parse("a", list('a', ',')), Ok((vec!['a'], "")));
    assert_eq!(parse("a,a", list('a', ',')), Ok((vec!['a', 'a'], "")));
    assert_eq!(
        parse("a,a,a", list('a', ',')),
        Ok((vec!['a', 'a', 'a'], ""))
    );
    assert_eq!(
        parse("a,a,a b", list('a', ',')),
        Ok((vec!['a', 'a', 'a'], " b"))
    );
    assert_eq!(
        parse("a,a,a,b", list('a', ',')),
        Ok((vec!['a', 'a', 'a'], ",b"))
    );
}

#[test]
fn combinator_test_series() {
    assert_eq!(
        parse("", series(vec!["hello", " ", "world"])),
        Err(Error::expect('h').but_found_end())
    );
    assert_eq!(
        parse("hello", series(vec!["hello", " ", "world"])),
        Err(Error::expect(' ').but_found_end())
    );
    assert_eq!(
        parse("hello ", series(vec!["hello", " ", "world"])),
        Err(Error::expect('w').but_found_end())
    );
    assert_eq!(
        parse("hello world", series(vec!["hello", " ", "world"])),
        Ok((vec!["hello", " ", "world"], ""))
    );
    assert_eq!(
        parse("hello world!", series(vec!["hello", " ", "world"])),
        Ok((vec!["hello", " ", "world"], "!"))
    );
    assert_eq!(
        parse("hello universe!", series(vec!["hello", " ", "world"])),
        Err(Error::expect('w').but_found('u'))
    );
}
