use brace_parser::combinator::series::delimited;
use brace_parser::combinator::series::leading;
use brace_parser::combinator::series::list;
use brace_parser::combinator::series::pair;
use brace_parser::combinator::series::series;
use brace_parser::combinator::series::trailing;
use brace_parser::combinator::series::trio;
use brace_parser::error::Error;
use brace_parser::parser::parse;
use brace_parser::sequence::alphabetic;
use brace_parser::sequence::whitespace;

#[test]
fn series_test_series() {
    assert_eq!(
        parse("", series(vec!["hello", " ", "world"])),
        Err(Error::expect('h').but_found_end())
    );
    assert_eq!(
        parse("hello", series(vec!["hello", " ", "world"])),
        Err(Error::expect(' ').but_found_end())
    );
    assert_eq!(
        parse("hello ", series(vec!["hello", " ", "world"])),
        Err(Error::expect('w').but_found_end())
    );
    assert_eq!(
        parse("hello world", series(vec!["hello", " ", "world"])),
        Ok((vec!["hello", " ", "world"], ""))
    );
    assert_eq!(
        parse("hello world!", series(vec!["hello", " ", "world"])),
        Ok((vec!["hello", " ", "world"], "!"))
    );
    assert_eq!(
        parse("hello universe!", series(vec!["hello", " ", "world"])),
        Err(Error::expect('w').but_found('u'))
    );
    assert_eq!(parse("", series(())), Ok(((), "")));
    assert_eq!(parse("hello", series(())), Ok(((), "hello")));
    assert_eq!(
        parse("", series(("hello", ' ', "world"))),
        Err(Error::expect('h').but_found_end())
    );
    assert_eq!(
        parse("hello", series(("hello", ' ', "world"))),
        Err(Error::expect(' ').but_found_end())
    );
    assert_eq!(
        parse("hello ", series(("hello", ' ', "world"))),
        Err(Error::expect('w').but_found_end())
    );
    assert_eq!(
        parse("hello world", series(("hello", ' ', "world"))),
        Ok((("hello", ' ', "world"), ""))
    );
    assert_eq!(
        parse("hello world!", series(("hello", ' ', "world"))),
        Ok((("hello", ' ', "world"), "!"))
    );
    assert_eq!(
        parse("hello universe!", series(("hello", ' ', "world"))),
        Err(Error::expect('w').but_found('u'))
    );
    assert_eq!(
        parse("hello world!", series(('h',))),
        Ok((('h',), "ello world!"))
    );
    assert_eq!(
        parse("hello world!", series(('h', 'e'))),
        Ok((('h', 'e'), "llo world!"))
    );
    assert_eq!(
        parse("hello world!", series(('h', 'e', 'l'))),
        Ok((('h', 'e', 'l'), "lo world!"))
    );
    assert_eq!(
        parse("hello world!", series(('h', 'e', 'l', 'l'))),
        Ok((('h', 'e', 'l', 'l'), "o world!"))
    );
    assert_eq!(
        parse("hello world!", series(('h', 'e', 'l', 'l', 'o'))),
        Ok((('h', 'e', 'l', 'l', 'o'), " world!"))
    );
    assert_eq!(
        parse("hello world!", series(('h', 'e', 'l', 'l', 'o', ' '))),
        Ok((('h', 'e', 'l', 'l', 'o', ' '), "world!"))
    );
    assert_eq!(
        parse("hello world!", series(('h', 'e', 'l', 'l', 'o', ' ', 'w'))),
        Ok((('h', 'e', 'l', 'l', 'o', ' ', 'w'), "orld!"))
    );
    assert_eq!(
        parse(
            "hello world!",
            series(('h', 'e', 'l', 'l', 'o', ' ', 'w', 'o'))
        ),
        Ok((('h', 'e', 'l', 'l', 'o', ' ', 'w', 'o'), "rld!"))
    );
    assert_eq!(
        parse(
            "hello world!",
            series(('h', 'e', 'l', 'l', 'o', ' ', 'w', 'o', 'r'))
        ),
        Ok((('h', 'e', 'l', 'l', 'o', ' ', 'w', 'o', 'r'), "ld!"))
    );
    assert_eq!(
        parse(
            "hello world!",
            series(('h', 'e', 'l', 'l', 'o', ' ', 'w', 'o', 'r', 'l'))
        ),
        Ok((('h', 'e', 'l', 'l', 'o', ' ', 'w', 'o', 'r', 'l'), "d!"))
    );
    assert_eq!(
        parse(
            "hello world!",
            series(('h', 'e', 'l', 'l', 'o', ' ', 'w', 'o', 'r', 'l', 'd'))
        ),
        Ok((('h', 'e', 'l', 'l', 'o', ' ', 'w', 'o', 'r', 'l', 'd'), "!"))
    );
    assert_eq!(
        parse(
            "hello world!",
            series(('h', 'e', 'l', 'l', 'o', ' ', 'w', 'o', 'r', 'l', 'd', '!'))
        ),
        Ok((
            ('h', 'e', 'l', 'l', 'o', ' ', 'w', 'o', 'r', 'l', 'd', '!'),
            ""
        ))
    );
}

#[test]
fn series_test_pair() {
    assert_eq!(
        parse("", pair("hello", " world")),
        Err(Error::expect('h').but_found_end())
    );
    assert_eq!(
        parse("hello", pair("hello", " world")),
        Err(Error::expect(' ').but_found_end())
    );
    assert_eq!(
        parse("hello world", pair("hello", " world")),
        Ok((("hello", " world"), ""))
    );
    assert_eq!(
        parse("hello universe", pair("hello", " world")),
        Err(Error::expect('w').but_found('u'))
    );
    assert_eq!(
        parse("goodbye world", pair("hello", " world")),
        Err(Error::expect('h').but_found('g'))
    );
    assert_eq!(
        parse(
            "hello \n world",
            pair("hello", pair(whitespace, alphabetic))
        ),
        Ok((("hello", (" \n ", "world")), ""))
    );
    assert_eq!(
        parse(
            "hello \n universe",
            pair("hello", pair(whitespace, alphabetic))
        ),
        Ok((("hello", (" \n ", "universe")), ""))
    );
}

#[test]
fn series_test_trio() {
    assert_eq!(
        parse("", trio("hello", ' ', "world")),
        Err(Error::expect('h').but_found_end())
    );
    assert_eq!(
        parse("hello", trio("hello", ' ', "world")),
        Err(Error::expect(' ').but_found_end())
    );
    assert_eq!(
        parse("hello world", trio("hello", ' ', "world")),
        Ok((("hello", ' ', "world"), ""))
    );
    assert_eq!(
        parse("hello universe", trio("hello", ' ', "world")),
        Err(Error::expect('w').but_found('u'))
    );
    assert_eq!(
        parse("goodbye world", trio("hello", ' ', "world")),
        Err(Error::expect('h').but_found('g'))
    );
    assert_eq!(
        parse("hello \n world", trio("hello", whitespace, alphabetic)),
        Ok((("hello", " \n ", "world"), ""))
    );
    assert_eq!(
        parse("hello \n universe", trio("hello", whitespace, alphabetic)),
        Ok((("hello", " \n ", "universe"), ""))
    );
}

#[test]
fn series_test_leading() {
    assert_eq!(
        parse("", leading("hello world", "!")),
        Err(Error::expect('h').but_found_end())
    );
    assert_eq!(
        parse("hello", leading("hello world", "!")),
        Err(Error::expect(' ').but_found_end())
    );
    assert_eq!(
        parse("hello world", leading("hello world", "!")),
        Err(Error::expect('!').but_found_end())
    );
    assert_eq!(
        parse("hello world!", leading("hello world", "!")),
        Ok(("!", ""))
    );
    assert_eq!(
        parse("hello world!!", leading("hello world", "!")),
        Ok(("!", "!"))
    );
    assert_eq!(
        parse("hello world?", leading("hello world", "!")),
        Err(Error::expect('!').but_found('?'))
    );
    assert_eq!(
        parse("hello universe!", leading("hello world", "!")),
        Err(Error::expect('w').but_found('u'))
    );
}

#[test]
fn series_test_trailing() {
    assert_eq!(
        parse("", trailing("hello world", "!")),
        Err(Error::expect('h').but_found_end())
    );
    assert_eq!(
        parse("hello", trailing("hello world", "!")),
        Err(Error::expect(' ').but_found_end())
    );
    assert_eq!(
        parse("hello world", trailing("hello world", "!")),
        Err(Error::expect('!').but_found_end())
    );
    assert_eq!(
        parse("hello world!", trailing("hello world", "!")),
        Ok(("hello world", ""))
    );
    assert_eq!(
        parse("hello world!!", trailing("hello world", "!")),
        Ok(("hello world", "!"))
    );
    assert_eq!(
        parse("hello world?", trailing("hello world", "!")),
        Err(Error::expect('!').but_found('?'))
    );
    assert_eq!(
        parse("hello universe!", trailing("hello world", "!")),
        Err(Error::expect('w').but_found('u'))
    );
}

#[test]
fn series_test_delimited() {
    assert_eq!(
        parse("(hello)", delimited('(', "hello", ')')),
        Ok(("hello", ""))
    );
    assert_eq!(
        parse("\"hello\"", delimited('"', "hello", '"')),
        Ok(("hello", ""))
    );
    assert_eq!(
        parse("\"hello\" world", delimited('"', "hello", '"')),
        Ok(("hello", " world"))
    );
    assert_eq!(
        parse("\"hello", delimited('"', "hello", '"')),
        Err(Error::expect('"').but_found_end())
    );
    assert_eq!(
        parse("hello", delimited('"', "hello", '"')),
        Err(Error::expect('"').but_found('h'))
    );
}

#[test]
fn series_test_list() {
    assert_eq!(
        parse("", list('a', ',')),
        Err(Error::expect('a').but_found_end())
    );
    assert_eq!(parse("a", list('a', ',')), Ok((vec!['a'], "")));
    assert_eq!(parse("a,a", list('a', ',')), Ok((vec!['a', 'a'], "")));
    assert_eq!(
        parse("a,a,a", list('a', ',')),
        Ok((vec!['a', 'a', 'a'], ""))
    );
    assert_eq!(
        parse("a,a,a b", list('a', ',')),
        Ok((vec!['a', 'a', 'a'], " b"))
    );
    assert_eq!(
        parse("a,a,a,b", list('a', ',')),
        Ok((vec!['a', 'a', 'a'], ",b"))
    );
}
