use brace_parser::error::Error;
use brace_parser::parser::parse;
use brace_parser::sequence::Sequence;
use brace_parser::sequence::alphabetic;
use brace_parser::sequence::alphanumeric;
use brace_parser::sequence::any;
use brace_parser::sequence::decimal;
use brace_parser::sequence::hexadecimal;
use brace_parser::sequence::indent;
use brace_parser::sequence::linebreak;
use brace_parser::sequence::lowercase;
use brace_parser::sequence::sequence;
use brace_parser::sequence::uppercase;
use brace_parser::sequence::whitespace;

#[test]
fn test_sequence() {
    assert_eq!(
        parse("", sequence("hello")),
        Err(Error::expect('h').but_found_end())
    );
    assert_eq!(
        parse("h", sequence("hello")),
        Err(Error::expect('e').but_found_end())
    );
    assert_eq!(
        parse("help", sequence("hello")),
        Err(Error::expect('l').but_found('p'))
    );
    assert_eq!(parse("hello", sequence("hello")), Ok(("hello", "")));
    assert_eq!(parse("hello$", sequence("hello")), Ok(("hello", "$")));
    assert_eq!(parse("hello", sequence("")), Ok(("", "hello")));
}

#[test]
fn sequence_test_any() {
    for ch in "$0123456789 \t\n\r\u{000C}".chars() {
        assert_eq!(parse(&ch.to_string(), any), Ok((&*ch.to_string(), "")));
        assert_eq!(
            parse(&(ch.to_string() + "$"), any),
            Ok((&*(ch.to_string() + "$"), ""))
        );
    }

    for ch in "abcdefghijklmnopqrstuvwxyzABCDEFGHIJKLMNOPQRSTUVWXYZ".chars() {
        assert_eq!(parse(&ch.to_string(), any), Ok((&*ch.to_string(), "")));
        assert_eq!(
            parse(&(ch.to_string() + "$"), any),
            Ok((&*(ch.to_string() + "$"), ""))
        );
    }

    assert_eq!(
        parse("", any),
        Err(Error::expect(Sequence::Any).but_found_end())
    );
}

#[test]
fn sequence_test_any_variant() {
    for ch in "$0123456789 \t\n\r\u{000C}".chars() {
        assert_eq!(
            parse(&ch.to_string(), Sequence::Any),
            Ok((&*ch.to_string(), ""))
        );
        assert_eq!(
            parse(&(ch.to_string() + "$"), Sequence::Any),
            Ok((&*(ch.to_string() + "$"), ""))
        );
    }

    for ch in "abcdefghijklmnopqrstuvwxyzABCDEFGHIJKLMNOPQRSTUVWXYZ".chars() {
        assert_eq!(
            parse(&ch.to_string(), Sequence::Any),
            Ok((&*ch.to_string(), ""))
        );
        assert_eq!(
            parse(&(ch.to_string() + "$"), Sequence::Any),
            Ok((&*(ch.to_string() + "$"), ""))
        );
    }

    assert_eq!(
        parse("", Sequence::Any),
        Err(Error::expect(Sequence::Any).but_found_end())
    );
}

#[test]
fn sequence_test_decimal() {
    for ch in "0123456789".chars() {
        assert_eq!(parse(&ch.to_string(), decimal), Ok((&*ch.to_string(), "")));
        assert_eq!(
            parse(&(ch.to_string() + "$"), decimal),
            Ok((&*ch.to_string(), "$"))
        );
    }

    for ch in "$aZ\n".chars() {
        assert_eq!(
            parse(&ch.to_string(), decimal),
            Err(Error::expect(Sequence::Decimal).but_found(ch))
        );
    }

    assert_eq!(
        parse("", decimal),
        Err(Error::expect(Sequence::Decimal).but_found_end())
    );
    assert_eq!(parse("0123456789", decimal), Ok(("0123456789", "")));
    assert_eq!(parse("0123456789$", decimal), Ok(("0123456789", "$")));
}

#[test]
fn sequence_test_decimal_variant() {
    for ch in "0123456789".chars() {
        assert_eq!(
            parse(&ch.to_string(), Sequence::Decimal),
            Ok((&*ch.to_string(), ""))
        );
        assert_eq!(
            parse(&(ch.to_string() + "$"), Sequence::Decimal),
            Ok((&*ch.to_string(), "$"))
        );
    }

    for ch in "$aZ\n".chars() {
        assert_eq!(
            parse(&ch.to_string(), Sequence::Decimal),
            Err(Error::expect(Sequence::Decimal).but_found(ch))
        );
    }

    assert_eq!(
        parse("", Sequence::Decimal),
        Err(Error::expect(Sequence::Decimal).but_found_end())
    );
    assert_eq!(
        parse("0123456789", Sequence::Decimal),
        Ok(("0123456789", ""))
    );
    assert_eq!(
        parse("0123456789$", Sequence::Decimal),
        Ok(("0123456789", "$"))
    );
}

#[test]
fn sequence_test_hexadecimal() {
    for ch in "0123456789abcdefABCDEF".chars() {
        assert_eq!(
            parse(&ch.to_string(), hexadecimal),
            Ok((&*ch.to_string(), ""))
        );
        assert_eq!(
            parse(&(ch.to_string() + "$"), hexadecimal),
            Ok((&*ch.to_string(), "$"))
        );
    }

    for ch in "$gZ\n".chars() {
        assert_eq!(
            parse(&ch.to_string(), hexadecimal),
            Err(Error::expect(Sequence::Hexadecimal).but_found(ch))
        );
    }

    assert_eq!(
        parse("", hexadecimal),
        Err(Error::expect(Sequence::Hexadecimal).but_found_end())
    );
    assert_eq!(
        parse("0123456789abcdefABCDEF", hexadecimal),
        Ok(("0123456789abcdefABCDEF", ""))
    );
    assert_eq!(
        parse("0123456789abcdefABCDEF$", hexadecimal),
        Ok(("0123456789abcdefABCDEF", "$"))
    );
}

#[test]
fn sequence_test_hexadecimal_variant() {
    for ch in "0123456789abcdefABCDEF".chars() {
        assert_eq!(
            parse(&ch.to_string(), Sequence::Hexadecimal),
            Ok((&*ch.to_string(), ""))
        );
        assert_eq!(
            parse(&(ch.to_string() + "$"), Sequence::Hexadecimal),
            Ok((&*ch.to_string(), "$"))
        );
    }

    for ch in "$gZ\n".chars() {
        assert_eq!(
            parse(&ch.to_string(), Sequence::Hexadecimal),
            Err(Error::expect(Sequence::Hexadecimal).but_found(ch))
        );
    }

    assert_eq!(
        parse("", Sequence::Hexadecimal),
        Err(Error::expect(Sequence::Hexadecimal).but_found_end())
    );
    assert_eq!(
        parse("0123456789abcdefABCDEF", Sequence::Hexadecimal),
        Ok(("0123456789abcdefABCDEF", ""))
    );
    assert_eq!(
        parse("0123456789abcdefABCDEF$", Sequence::Hexadecimal),
        Ok(("0123456789abcdefABCDEF", "$"))
    );
}

#[test]
fn sequence_test_alphabetic() {
    for ch in "abcdefghijklmnopqrstuvwxyzABCDEFGHIJKLMNOPQRSTUVWXYZ".chars() {
        assert_eq!(
            parse(&ch.to_string(), alphabetic),
            Ok((&*ch.to_string(), ""))
        );
        assert_eq!(
            parse(&(ch.to_string() + "$"), alphabetic),
            Ok((&*ch.to_string(), "$"))
        );
    }

    for ch in "$0 \n".chars() {
        assert_eq!(
            parse(&ch.to_string(), alphabetic),
            Err(Error::expect(Sequence::Alphabetic).but_found(ch))
        );
    }

    assert_eq!(
        parse("", alphabetic),
        Err(Error::expect(Sequence::Alphabetic).but_found_end())
    );
    assert_eq!(
        parse(
            "abcdefghijklmnopqrstuvwxyzABCDEFGHIJKLMNOPQRSTUVWXYZ",
            alphabetic
        ),
        Ok(("abcdefghijklmnopqrstuvwxyzABCDEFGHIJKLMNOPQRSTUVWXYZ", ""))
    );
    assert_eq!(
        parse(
            "abcdefghijklmnopqrstuvwxyzABCDEFGHIJKLMNOPQRSTUVWXYZ$",
            alphabetic
        ),
        Ok(("abcdefghijklmnopqrstuvwxyzABCDEFGHIJKLMNOPQRSTUVWXYZ", "$"))
    );
}

#[test]
fn sequence_test_alphabetic_variant() {
    for ch in "abcdefghijklmnopqrstuvwxyzABCDEFGHIJKLMNOPQRSTUVWXYZ".chars() {
        assert_eq!(
            parse(&ch.to_string(), Sequence::Alphabetic),
            Ok((&*ch.to_string(), ""))
        );
        assert_eq!(
            parse(&(ch.to_string() + "$"), Sequence::Alphabetic),
            Ok((&*ch.to_string(), "$"))
        );
    }

    for ch in "$0 \n".chars() {
        assert_eq!(
            parse(&ch.to_string(), Sequence::Alphabetic),
            Err(Error::expect(Sequence::Alphabetic).but_found(ch))
        );
    }

    assert_eq!(
        parse("", Sequence::Alphabetic),
        Err(Error::expect(Sequence::Alphabetic).but_found_end())
    );
    assert_eq!(
        parse(
            "abcdefghijklmnopqrstuvwxyzABCDEFGHIJKLMNOPQRSTUVWXYZ",
            Sequence::Alphabetic
        ),
        Ok(("abcdefghijklmnopqrstuvwxyzABCDEFGHIJKLMNOPQRSTUVWXYZ", ""))
    );
    assert_eq!(
        parse(
            "abcdefghijklmnopqrstuvwxyzABCDEFGHIJKLMNOPQRSTUVWXYZ$",
            Sequence::Alphabetic
        ),
        Ok(("abcdefghijklmnopqrstuvwxyzABCDEFGHIJKLMNOPQRSTUVWXYZ", "$"))
    );
}

#[test]
fn sequence_test_alphanumeric() {
    for ch in "0123456789abcdefghijklmnopqrstuvwxyzABCDEFGHIJKLMNOPQRSTUVWXYZ".chars() {
        assert_eq!(
            parse(&ch.to_string(), alphanumeric),
            Ok((&*ch.to_string(), ""))
        );
        assert_eq!(
            parse(&(ch.to_string() + "$"), alphanumeric),
            Ok((&*ch.to_string(), "$"))
        );
    }

    for ch in "$ \n".chars() {
        assert_eq!(
            parse(&ch.to_string(), alphanumeric),
            Err(Error::expect(Sequence::Alphanumeric).but_found(ch))
        );
    }

    assert_eq!(
        parse("", alphanumeric),
        Err(Error::expect(Sequence::Alphanumeric).but_found_end())
    );
    assert_eq!(
        parse(
            "0123456789abcdefghijklmnopqrstuvwxyzABCDEFGHIJKLMNOPQRSTUVWXYZ",
            alphanumeric
        ),
        Ok((
            "0123456789abcdefghijklmnopqrstuvwxyzABCDEFGHIJKLMNOPQRSTUVWXYZ",
            ""
        ))
    );
    assert_eq!(
        parse(
            "0123456789abcdefghijklmnopqrstuvwxyzABCDEFGHIJKLMNOPQRSTUVWXYZ$",
            alphanumeric
        ),
        Ok((
            "0123456789abcdefghijklmnopqrstuvwxyzABCDEFGHIJKLMNOPQRSTUVWXYZ",
            "$"
        ))
    );
}

#[test]
fn sequence_test_alphanumeric_variant() {
    for ch in "0123456789abcdefghijklmnopqrstuvwxyzABCDEFGHIJKLMNOPQRSTUVWXYZ".chars() {
        assert_eq!(
            parse(&ch.to_string(), Sequence::Alphanumeric),
            Ok((&*ch.to_string(), ""))
        );
        assert_eq!(
            parse(&(ch.to_string() + "$"), Sequence::Alphanumeric),
            Ok((&*ch.to_string(), "$"))
        );
    }

    for ch in "$ \n".chars() {
        assert_eq!(
            parse(&ch.to_string(), Sequence::Alphanumeric),
            Err(Error::expect(Sequence::Alphanumeric).but_found(ch))
        );
    }

    assert_eq!(
        parse("", Sequence::Alphanumeric),
        Err(Error::expect(Sequence::Alphanumeric).but_found_end())
    );
    assert_eq!(
        parse(
            "0123456789abcdefghijklmnopqrstuvwxyzABCDEFGHIJKLMNOPQRSTUVWXYZ",
            Sequence::Alphanumeric
        ),
        Ok((
            "0123456789abcdefghijklmnopqrstuvwxyzABCDEFGHIJKLMNOPQRSTUVWXYZ",
            ""
        ))
    );
    assert_eq!(
        parse(
            "0123456789abcdefghijklmnopqrstuvwxyzABCDEFGHIJKLMNOPQRSTUVWXYZ$",
            Sequence::Alphanumeric
        ),
        Ok((
            "0123456789abcdefghijklmnopqrstuvwxyzABCDEFGHIJKLMNOPQRSTUVWXYZ",
            "$"
        ))
    );
}

#[test]
fn sequence_test_lowercase() {
    for ch in "abcdefghijklmnopqrstuvwxyz".chars() {
        assert_eq!(
            parse(&ch.to_string(), lowercase),
            Ok((&*ch.to_string(), ""))
        );
        assert_eq!(
            parse(&(ch.to_string() + "$"), lowercase),
            Ok((&*ch.to_string(), "$"))
        );
    }

    for ch in "$ABCDEFGHIJKLMNOPQRSTUVWXYZ".chars() {
        assert_eq!(
            parse(&ch.to_string(), lowercase),
            Err(Error::expect(Sequence::Lowercase).but_found(ch))
        );
    }

    assert_eq!(
        parse("", lowercase),
        Err(Error::expect(Sequence::Lowercase).but_found_end())
    );
    assert_eq!(
        parse("abcdefghijklmnopqrstuvwxyz", lowercase),
        Ok(("abcdefghijklmnopqrstuvwxyz", ""))
    );
    assert_eq!(
        parse("abcdefghijklmnopqrstuvwxyz$", lowercase),
        Ok(("abcdefghijklmnopqrstuvwxyz", "$"))
    );
}

#[test]
fn sequence_test_lowercase_variant() {
    for ch in "abcdefghijklmnopqrstuvwxyz".chars() {
        assert_eq!(
            parse(&ch.to_string(), Sequence::Lowercase),
            Ok((&*ch.to_string(), ""))
        );
        assert_eq!(
            parse(&(ch.to_string() + "$"), Sequence::Lowercase),
            Ok((&*ch.to_string(), "$"))
        );
    }

    for ch in "$ABCDEFGHIJKLMNOPQRSTUVWXYZ".chars() {
        assert_eq!(
            parse(&ch.to_string(), Sequence::Lowercase),
            Err(Error::expect(Sequence::Lowercase).but_found(ch))
        );
    }

    assert_eq!(
        parse("", Sequence::Lowercase),
        Err(Error::expect(Sequence::Lowercase).but_found_end())
    );
    assert_eq!(
        parse("abcdefghijklmnopqrstuvwxyz", Sequence::Lowercase),
        Ok(("abcdefghijklmnopqrstuvwxyz", ""))
    );
    assert_eq!(
        parse("abcdefghijklmnopqrstuvwxyz$", Sequence::Lowercase),
        Ok(("abcdefghijklmnopqrstuvwxyz", "$"))
    );
}

#[test]
fn sequence_test_uppercase() {
    for ch in "ABCDEFGHIJKLMNOPQRSTUVWXYZ".chars() {
        assert_eq!(
            parse(&ch.to_string(), uppercase),
            Ok((&*ch.to_string(), ""))
        );
        assert_eq!(
            parse(&(ch.to_string() + "$"), uppercase),
            Ok((&*ch.to_string(), "$"))
        );
    }

    for ch in "$abcdefghijklmnopqrstuvwxyz".chars() {
        assert_eq!(
            parse(&ch.to_string(), uppercase),
            Err(Error::expect(Sequence::Uppercase).but_found(ch))
        );
    }

    assert_eq!(
        parse("", uppercase),
        Err(Error::expect(Sequence::Uppercase).but_found_end())
    );
    assert_eq!(
        parse("ABCDEFGHIJKLMNOPQRSTUVWXYZ", uppercase),
        Ok(("ABCDEFGHIJKLMNOPQRSTUVWXYZ", ""))
    );
    assert_eq!(
        parse("ABCDEFGHIJKLMNOPQRSTUVWXYZ$", uppercase),
        Ok(("ABCDEFGHIJKLMNOPQRSTUVWXYZ", "$"))
    );
}

#[test]
fn sequence_test_uppercase_variant() {
    for ch in "ABCDEFGHIJKLMNOPQRSTUVWXYZ".chars() {
        assert_eq!(
            parse(&ch.to_string(), Sequence::Uppercase),
            Ok((&*ch.to_string(), ""))
        );
        assert_eq!(
            parse(&(ch.to_string() + "$"), Sequence::Uppercase),
            Ok((&*ch.to_string(), "$"))
        );
    }

    for ch in "$abcdefghijklmnopqrstuvwxyz".chars() {
        assert_eq!(
            parse(&ch.to_string(), Sequence::Uppercase),
            Err(Error::expect(Sequence::Uppercase).but_found(ch))
        );
    }

    assert_eq!(
        parse("", Sequence::Uppercase),
        Err(Error::expect(Sequence::Uppercase).but_found_end())
    );
    assert_eq!(
        parse("ABCDEFGHIJKLMNOPQRSTUVWXYZ", Sequence::Uppercase),
        Ok(("ABCDEFGHIJKLMNOPQRSTUVWXYZ", ""))
    );
    assert_eq!(
        parse("ABCDEFGHIJKLMNOPQRSTUVWXYZ$", Sequence::Uppercase),
        Ok(("ABCDEFGHIJKLMNOPQRSTUVWXYZ", "$"))
    );
}

#[test]
fn sequence_test_indent() {
    for ch in " \t".chars() {
        assert_eq!(parse(&ch.to_string(), indent), Ok((&*ch.to_string(), "")));
        assert_eq!(
            parse(&(ch.to_string() + "$"), indent),
            Ok((&*ch.to_string(), "$"))
        );
    }

    for ch in "$\n".chars() {
        assert_eq!(
            parse(&ch.to_string(), indent),
            Err(Error::expect(Sequence::Indent).but_found(ch))
        );
    }

    assert_eq!(
        parse("", indent),
        Err(Error::expect(Sequence::Indent).but_found_end())
    );
    assert_eq!(parse(" \t \t ", indent), Ok((" \t \t ", "")));
}

#[test]
fn sequence_test_indent_variant() {
    for ch in " \t".chars() {
        assert_eq!(
            parse(&ch.to_string(), Sequence::Indent),
            Ok((&*ch.to_string(), ""))
        );
        assert_eq!(
            parse(&(ch.to_string() + "$"), Sequence::Indent),
            Ok((&*ch.to_string(), "$"))
        );
    }

    for ch in "$\n".chars() {
        assert_eq!(
            parse(&ch.to_string(), Sequence::Indent),
            Err(Error::expect(Sequence::Indent).but_found(ch))
        );
    }

    assert_eq!(
        parse("", Sequence::Indent),
        Err(Error::expect(Sequence::Indent).but_found_end())
    );
    assert_eq!(parse(" \t \t ", Sequence::Indent), Ok((" \t \t ", "")));
}

#[test]
fn sequence_test_linebreak() {
    for ch in "\n\r\u{000C}".chars() {
        assert_eq!(
            parse(&ch.to_string(), linebreak),
            Ok((&*ch.to_string(), ""))
        );
        assert_eq!(
            parse(&(ch.to_string() + "$"), linebreak),
            Ok((&*ch.to_string(), "$"))
        );
    }

    for ch in "$ \t".chars() {
        assert_eq!(
            parse(&ch.to_string(), linebreak),
            Err(Error::expect(Sequence::Linebreak).but_found(ch))
        );
    }

    assert_eq!(
        parse("", linebreak),
        Err(Error::expect(Sequence::Linebreak).but_found_end())
    );
    assert_eq!(parse("\n\r\u{000C}", linebreak), Ok(("\n\r\u{000C}", "")));
    assert_eq!(parse("\n\r\u{000C}$", linebreak), Ok(("\n\r\u{000C}", "$")));
}

#[test]
fn sequence_test_linebreak_variant() {
    for ch in "\n\r\u{000C}".chars() {
        assert_eq!(
            parse(&ch.to_string(), Sequence::Linebreak),
            Ok((&*ch.to_string(), ""))
        );
        assert_eq!(
            parse(&(ch.to_string() + "$"), Sequence::Linebreak),
            Ok((&*ch.to_string(), "$"))
        );
    }

    for ch in "$ \t".chars() {
        assert_eq!(
            parse(&ch.to_string(), Sequence::Linebreak),
            Err(Error::expect(Sequence::Linebreak).but_found(ch))
        );
    }

    assert_eq!(
        parse("", Sequence::Linebreak),
        Err(Error::expect(Sequence::Linebreak).but_found_end())
    );
    assert_eq!(
        parse("\n\r\u{000C}", Sequence::Linebreak),
        Ok(("\n\r\u{000C}", ""))
    );
    assert_eq!(
        parse("\n\r\u{000C}$", Sequence::Linebreak),
        Ok(("\n\r\u{000C}", "$"))
    );
}

#[test]
fn sequence_test_whitespace() {
    for ch in " \t\n\r\u{000C}".chars() {
        assert_eq!(
            parse(&ch.to_string(), whitespace),
            Ok((&*ch.to_string(), ""))
        );
        assert_eq!(
            parse(&(ch.to_string() + "$"), whitespace),
            Ok((&*ch.to_string(), "$"))
        );
    }

    for ch in "$a".chars() {
        assert_eq!(
            parse(&ch.to_string(), whitespace),
            Err(Error::expect(Sequence::Whitespace).but_found(ch))
        );
    }

    assert_eq!(
        parse("", whitespace),
        Err(Error::expect(Sequence::Whitespace).but_found_end())
    );
    assert_eq!(
        parse(" \t\n\r\u{000C}", whitespace),
        Ok((" \t\n\r\u{000C}", ""))
    );
    assert_eq!(
        parse(" \t\n\r\u{000C}$", whitespace),
        Ok((" \t\n\r\u{000C}", "$"))
    );
}

#[test]
fn sequence_test_whitespace_variant() {
    for ch in " \t\n\r\u{000C}".chars() {
        assert_eq!(
            parse(&ch.to_string(), Sequence::Whitespace),
            Ok((&*ch.to_string(), ""))
        );
        assert_eq!(
            parse(&(ch.to_string() + "$"), Sequence::Whitespace),
            Ok((&*ch.to_string(), "$"))
        );
    }

    for ch in "$a".chars() {
        assert_eq!(
            parse(&ch.to_string(), Sequence::Whitespace),
            Err(Error::expect(Sequence::Whitespace).but_found(ch))
        );
    }

    assert_eq!(
        parse("", Sequence::Whitespace),
        Err(Error::expect(Sequence::Whitespace).but_found_end())
    );
    assert_eq!(
        parse(" \t\n\r\u{000C}", Sequence::Whitespace),
        Ok((" \t\n\r\u{000C}", ""))
    );
    assert_eq!(
        parse(" \t\n\r\u{000C}$", Sequence::Whitespace),
        Ok((" \t\n\r\u{000C}", "$"))
    );
}

#[test]
fn sequence_test_custom_variant() {
    assert_eq!(
        parse("", Sequence::custom("hello")),
        Err(Error::expect('h').but_found_end())
    );
    assert_eq!(
        parse("h", Sequence::custom("hello")),
        Err(Error::expect('e').but_found_end())
    );
    assert_eq!(
        parse("help", Sequence::custom("hello")),
        Err(Error::expect('l').but_found('p'))
    );
    assert_eq!(parse("hello", Sequence::custom("hello")), Ok(("hello", "")));
    assert_eq!(
        parse("hello$", Sequence::custom("hello")),
        Ok(("hello", "$"))
    );
    assert_eq!(parse("hello", Sequence::custom("")), Ok(("", "hello")));
}
