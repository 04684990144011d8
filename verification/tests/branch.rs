use brace_parser::combinator::branch::branch;
use brace_parser::combinator::branch::either;
use brace_parser::combinator::branch::optional;
use brace_parser::error::Error;
use brace_parser::parser::Output;
use brace_parser::parser::parse;

fn pass(_: &str) -> Output<&str> {
    Err(Error::expect('!'))
}

fn fail(_: &str) -> Output<&str> {
    Err(Error::invalid())
}

#[test]
fn test_branch() {
    assert_eq!(parse("", branch(Vec::<&str>::new())), Err(Error::invalid()));
    assert_eq!(
        parse("a", branch(Vec::<&str>::new())),
        Err(Error::invalid())
    );
    assert_eq!(
        parse("", branch(vec!["a", "b", "c"])),
        Err(Error::expect('c').but_found_end())
    );
    assert_eq!(parse("a", branch(vec!["a", "b", "c"])), Ok(("a", "")));
    assert_eq!(parse("b", branch(vec!["a", "b", "c"])), Ok(("b", "")));
    assert_eq!(parse("c", branch(vec!["a", "b", "c"])), Ok(("c", "")));
    assert_eq!(parse("a!", branch(vec!["a", "b", "c"])), Ok(("a", "!")));
    assert_eq!(parse("b!", branch(vec!["a", "b", "c"])), Ok(("b", "!")));
    assert_eq!(parse("c!", branch(vec!["a", "b", "c"])), Ok(("c", "!")));
    assert_eq!(
        parse("d", branch(vec!["a", "b", "c"])),
        Err(Error::expect('c').but_found('d'))
    );
    assert_eq!(parse("a", branch(vec![pass])), Err(Error::expect('!')));
    assert_eq!(parse("a", branch(vec![fail])), Err(Error::invalid()));
    assert_eq!(parse("", branch(())), Ok(((), "")));
    assert_eq!(parse("hello", branch(())), Ok(((), "hello")));
    assert_eq!(
        parse("", branch(("a", "b", "c"))),
        Err(Error::expect('c').but_found_end())
    );
    assert_eq!(parse("a", branch(("a", "b", "c"))), Ok(("a", "")));
    assert_eq!(parse("b", branch(("a", "b", "c"))), Ok(("b", "")));
    assert_eq!(parse("c", branch(("a", "b", "c"))), Ok(("c", "")));
    assert_eq!(parse("a!", branch(("a", "b", "c"))), Ok(("a", "!")));
    assert_eq!(parse("b!", branch(("a", "b", "c"))), Ok(("b", "!")));
    assert_eq!(parse("c!", branch(("a", "b", "c"))), Ok(("c", "!")));
    assert_eq!(
        parse("d", branch(("a", "b", "c"))),
        Err(Error::expect('c').but_found('d'))
    );
    assert_eq!(parse("a", branch(("a", pass, "b"))), Ok(("a", "")));
    assert_eq!(parse("b", branch(("a", pass, "b"))), Ok(("b", "")));
    assert_eq!(parse("a", branch(("a", fail, "b"))), Ok(("a", "")));
    assert_eq!(parse("b", branch(("a", fail, "b"))), Err(Error::invalid()));
}

#[test]
fn branch_test_either() {
    assert_eq!(
        parse("", either("one", "two")),
        Err(Error::expect('t').but_found_end())
    );
    assert_eq!(
        parse("$", either("one", "two")),
        Err(Error::expect('t').but_found('$'))
    );
    assert_eq!(parse("one", either("one", "two")), Ok(("one", "")));
    assert_eq!(parse("two", either("one", "two")), Ok(("two", "")));
    assert_eq!(
        parse("three", either("one", "two")),
        Err(Error::expect('w').but_found('h'))
    );
    assert_eq!(
        parse("three", either("two", "one")),
        Err(Error::expect('o').but_found('t'))
    );
    assert_eq!(parse("onetwo", either("one", "two")), Ok(("one", "two")));
    assert_eq!(parse("one", either(pass, "one")), Ok(("one", "")));
    assert_eq!(parse("one", either(fail, "one")), Err(Error::invalid()));
}

#[test]
fn branch_test_optional() {
    assert_eq!(parse("", optional("hello")), Ok((None, "")));
    assert_eq!(parse("$", optional("hello")), Ok((None, "$")));
    assert_eq!(parse("hello", optional("hello")), Ok((Some("hello"), "")));
    assert_eq!(
        parse("hello world", optional("hello")),
        Ok((Some("hello"), " world"))
    );
    assert_eq!(parse("", optional(pass)), Ok((None, "")));
    assert_eq!(parse("", optional(fail)), Err(Error::invalid()));
}
