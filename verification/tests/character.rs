use brace_parser::character::Character;
use brace_parser::character::alphabetic;
use brace_parser::character::alphanumeric;
use brace_parser::character::any;
use brace_parser::character::decimal;
use brace_parser::character::hexadecimal;
use brace_parser::character::indent;
use brace_parser::character::linebreak;
use brace_parser::character::lowercase;
use brace_parser::character::uppercase;
use brace_parser::character::whitespace;
use brace_parser::error::Error;
use brace_parser::parser::parse;

#[test]
fn character_test_any() {
    for ch in "$0123456789 \t\n\r\u{000C}".chars() {
        assert_eq!(parse(&ch.to_string(), any), Ok((ch, "")));
        assert_eq!(parse(&(ch.to_string() + "$"), any), Ok((ch, "$")));
    }

    for ch in "abcdefghijklmnopqrstuvwxyzABCDEFGHIJKLMNOPQRSTUVWXYZ".chars() {
        assert_eq!(parse(&ch.to_string(), any), Ok((ch, "")));
        assert_eq!(parse(&(ch.to_string() + "$"), any), Ok((ch, "$")));
    }

    assert_eq!(
        parse("", any),
        Err(Error::expect(Character::Any).but_found_end())
    );
}

#[test]
fn character_test_any_variant() {
    for ch in "$0123456789 \t\n\r\u{000C}".chars() {
        assert_eq!(parse(&ch.to_string(), Character::Any), Ok((ch, "")));
        assert_eq!(
            parse(&(ch.to_string() + "$"), Character::Any),
            Ok((ch, "$"))
        );
    }

    for ch in "abcdefghijklmnopqrstuvwxyzABCDEFGHIJKLMNOPQRSTUVWXYZ".chars() {
        assert_eq!(parse(&ch.to_string(), Character::Any), Ok((ch, "")));
        assert_eq!(
            parse(&(ch.to_string() + "$"), Character::Any),
            Ok((ch, "$"))
        );
    }

    assert_eq!(
        parse("", Character::Any),
        Err(Error::expect(Character::Any).but_found_end())
    );
}

#[test]
fn character_test_decimal() {
    for ch in "0123456789".chars() {
        assert_eq!(parse(&ch.to_string(), decimal), Ok((ch, "")));
        assert_eq!(parse(&(ch.to_string() + "$"), decimal), Ok((ch, "$")));
    }

    for ch in "$aZ\n".chars() {
        assert_eq!(
            parse(&ch.to_string(), decimal),
            Err(Error::expect(Character::Decimal).but_found(ch))
        );
    }

    assert_eq!(
        parse("", decimal),
        Err(Error::expect(Character::Decimal).but_found_end())
    );
}

#[test]
fn character_test_decimal_variant() {
    for ch in "0123456789".chars() {
        assert_eq!(parse(&ch.to_string(), Character::Decimal), Ok((ch, "")));
        assert_eq!(
            parse(&(ch.to_string() + "$"), Character::Decimal),
            Ok((ch, "$"))
        );
    }

    for ch in "$aZ\n".chars() {
        assert_eq!(
            parse(&ch.to_string(), Character::Decimal),
            Err(Error::expect(Character::Decimal).but_found(ch))
        );
    }

    assert_eq!(
        parse("", Character::Decimal),
        Err(Error::expect(Character::Decimal).but_found_end())
    );
}

#[test]
fn character_test_hexadecimal() {
    for ch in "0123456789abcdefABCDEF".chars() {
        assert_eq!(parse(&ch.to_string(), hexadecimal), Ok((ch, "")));
        assert_eq!(parse(&(ch.to_string() + "$"), hexadecimal), Ok((ch, "$")));
    }

    for ch in "$gZ\n".chars() {
        assert_eq!(
            parse(&ch.to_string(), hexadecimal),
            Err(Error::expect(Character::Hexadecimal).but_found(ch))
        );
    }

    assert_eq!(
        parse("", hexadecimal),
        Err(Error::expect(Character::Hexadecimal).but_found_end())
    );
}

#[test]
fn character_test_hexadecimal_variant() {
    for ch in "0123456789abcdefABCDEF".chars() {
        assert_eq!(parse(&ch.to_string(), Character::Hexadecimal), Ok((ch, "")));
        assert_eq!(
            parse(&(ch.to_string() + "$"), Character::Hexadecimal),
            Ok((ch, "$"))
        );
    }

    for ch in "$gZ\n".chars() {
        assert_eq!(
            parse(&ch.to_string(), Character::Hexadecimal),
            Err(Error::expect(Character::Hexadecimal).but_found(ch))
        );
    }

    assert_eq!(
        parse("", Character::Hexadecimal),
        Err(Error::expect(Character::Hexadecimal).but_found_end())
    );
}

#[test]
fn character_test_alphabetic() {
    for ch in "abcdefghijklmnopqrstuvwxyzABCDEFGHIJKLMNOPQRSTUVWXYZ".chars() {
        assert_eq!(parse(&ch.to_string(), alphabetic), Ok((ch, "")));
        assert_eq!(parse(&(ch.to_string() + "$"), alphabetic), Ok((ch, "$")));
    }

    for ch in "$0 \n".chars() {
        assert_eq!(
            parse(&ch.to_string(), alphabetic),
            Err(Error::expect(Character::Alphabetic).but_found(ch))
        );
    }

    assert_eq!(
        parse("", alphabetic),
        Err(Error::expect(Character::Alphabetic).but_found_end())
    );
}

#[test]
fn character_test_alphabetic_variant() {
    for ch in "abcdefghijklmnopqrstuvwxyzABCDEFGHIJKLMNOPQRSTUVWXYZ".chars() {
        assert_eq!(parse(&ch.to_string(), Character::Alphabetic), Ok((ch, "")));
        assert_eq!(
            parse(&(ch.to_string() + "$"), Character::Alphabetic),
            Ok((ch, "$"))
        );
    }

    for ch in "$0 \n".chars() {
        assert_eq!(
            parse(&ch.to_string(), Character::Alphabetic),
            Err(Error::expect(Character::Alphabetic).but_found(ch))
        );
    }

    assert_eq!(
        parse("", Character::Alphabetic),
        Err(Error::expect(Character::Alphabetic).but_found_end())
    );
}

#[test]
fn character_test_alphanumeric() {
    for ch in "0123456789abcdefghijklmnopqrstuvwxyzABCDEFGHIJKLMNOPQRSTUVWXYZ".chars() {
        assert_eq!(parse(&ch.to_string(), alphanumeric), Ok((ch, "")));
        assert_eq!(parse(&(ch.to_string() + "$"), alphanumeric), Ok((ch, "$")));
    }

    for ch in "$ \n".chars() {
        assert_eq!(
            parse(&ch.to_string(), alphanumeric),
            Err(Error::expect(Character::Alphanumeric).but_found(ch))
        );
    }

    assert_eq!(
        parse("", alphanumeric),
        Err(Error::expect(Character::Alphanumeric).but_found_end())
    );
}

#[test]
fn character_test_alphanumeric_variant() {
    for ch in "0123456789abcdefghijklmnopqrstuvwxyzABCDEFGHIJKLMNOPQRSTUVWXYZ".chars() {
        assert_eq!(
            parse(&ch.to_string(), Character::Alphanumeric),
            Ok((ch, ""))
        );
        assert_eq!(
            parse(&(ch.to_string() + "$"), Character::Alphanumeric),
            Ok((ch, "$"))
        );
    }

    for ch in "$ \n".chars() {
        assert_eq!(
            parse(&ch.to_string(), Character::Alphanumeric),
            Err(Error::expect(Character::Alphanumeric).but_found(ch))
        );
    }

    assert_eq!(
        parse("", Character::Alphanumeric),
        Err(Error::expect(Character::Alphanumeric).but_found_end())
    );
}

#[test]
fn character_test_lowercase() {
    for ch in "abcdefghijklmnopqrstuvwxyz".chars() {
        assert_eq!(parse(&ch.to_string(), lowercase), Ok((ch, "")));
        assert_eq!(parse(&(ch.to_string() + "$"), lowercase), Ok((ch, "$")));
    }

    for ch in "$ABCDEFGHIJKLMNOPQRSTUVWXYZ".chars() {
        assert_eq!(
            parse(&ch.to_string(), lowercase),
            Err(Error::expect(Character::Lowercase).but_found(ch))
        );
    }

    assert_eq!(
        parse("", lowercase),
        Err(Error::expect(Character::Lowercase).but_found_end())
    );
}

#[test]
fn character_test_lowercase_variant() {
    for ch in "abcdefghijklmnopqrstuvwxyz".chars() {
        assert_eq!(parse(&ch.to_string(), Character::Lowercase), Ok((ch, "")));
        assert_eq!(
            parse(&(ch.to_string() + "$"), Character::Lowercase),
            Ok((ch, "$"))
        );
    }

    for ch in "$ABCDEFGHIJKLMNOPQRSTUVWXYZ".chars() {
        assert_eq!(
            parse(&ch.to_string(), Character::Lowercase),
            Err(Error::expect(Character::Lowercase).but_found(ch))
        );
    }

    assert_eq!(
        parse("", Character::Lowercase),
        Err(Error::expect(Character::Lowercase).but_found_end())
    );
}

#[test]
fn character_test_uppercase() {
    for ch in "ABCDEFGHIJKLMNOPQRSTUVWXYZ".chars() {
        assert_eq!(parse(&ch.to_string(), uppercase), Ok((ch, "")));
        assert_eq!(parse(&(ch.to_string() + "$"), uppercase), Ok((ch, "$")));
    }

    for ch in "$abcdefghijklmnopqrstuvwxyz".chars() {
        assert_eq!(
            parse(&ch.to_string(), uppercase),
            Err(Error::expect(Character::Uppercase).but_found(ch))
        );
    }

    assert_eq!(
        parse("", uppercase),
        Err(Error::expect(Character::Uppercase).but_found_end())
    );
}

#[test]
fn character_test_uppercase_variant() {
    for ch in "ABCDEFGHIJKLMNOPQRSTUVWXYZ".chars() {
        assert_eq!(parse(&ch.to_string(), Character::Uppercase), Ok((ch, "")));
        assert_eq!(
            parse(&(ch.to_string() + "$"), Character::Uppercase),
            Ok((ch, "$"))
        );
    }

    for ch in "$abcdefghijklmnopqrstuvwxyz".chars() {
        assert_eq!(
            parse(&ch.to_string(), Character::Uppercase),
            Err(Error::expect(Character::Uppercase).but_found(ch))
        );
    }

    assert_eq!(
        parse("", Character::Uppercase),
        Err(Error::expect(Character::Uppercase).but_found_end())
    );
}

#[test]
fn character_test_indent() {
    for ch in " \t".chars() {
        assert_eq!(parse(&ch.to_string(), indent), Ok((ch, "")));
        assert_eq!(parse(&(ch.to_string() + "$"), indent), Ok((ch, "$")));
    }

    for ch in "$\n".chars() {
        assert_eq!(
            parse(&ch.to_string(), indent),
            Err(Error::expect(Character::Indent).but_found(ch))
        );
    }

    assert_eq!(
        parse("", indent),
        Err(Error::expect(Character::Indent).but_found_end())
    );
}

#[test]
fn character_test_indent_variant() {
    for ch in " \t".chars() {
        assert_eq!(parse(&ch.to_string(), Character::Indent), Ok((ch, "")));
        assert_eq!(
            parse(&(ch.to_string() + "$"), Character::Indent),
            Ok((ch, "$"))
        );
    }

    for ch in "$\n".chars() {
        assert_eq!(
            parse(&ch.to_string(), Character::Indent),
            Err(Error::expect(Character::Indent).but_found(ch))
        );
    }

    assert_eq!(
        parse("", Character::Indent),
        Err(Error::expect(Character::Indent).but_found_end())
    );
}

#[test]
fn character_test_linebreak() {
    for ch in "\n\r\u{000C}".chars() {
        assert_eq!(parse(&ch.to_string(), linebreak), Ok((ch, "")));
        assert_eq!(parse(&(ch.to_string() + "$"), linebreak), Ok((ch, "$")));
    }

    for ch in "$ \t".chars() {
        assert_eq!(
            parse(&ch.to_string(), linebreak),
            Err(Error::expect(Character::Linebreak).but_found(ch))
        );
    }

    assert_eq!(
        parse("", linebreak),
        Err(Error::expect(Character::Linebreak).but_found_end())
    );
}

#[test]
fn character_test_linebreak_variant() {
    for ch in "\n\r\u{000C}".chars() {
        assert_eq!(parse(&ch.to_string(), Character::Linebreak), Ok((ch, "")));
        assert_eq!(
            parse(&(ch.to_string() + "$"), Character::Linebreak),
            Ok((ch, "$"))
        );
    }

    for ch in "$ \t".chars() {
        assert_eq!(
            parse(&ch.to_string(), Character::Linebreak),
            Err(Error::expect(Character::Linebreak).but_found(ch))
        );
    }

    assert_eq!(
        parse("", Character::Linebreak),
        Err(Error::expect(Character::Linebreak).but_found_end())
    );
}

#[test]
fn character_test_whitespace() {
    for ch in " \t\n\r\u{000C}".chars() {
        assert_eq!(parse(&ch.to_string(), whitespace), Ok((ch, "")));
        assert_eq!(parse(&(ch.to_string() + "$"), whitespace), Ok((ch, "$")));
    }

    for ch in "$a".chars() {
        assert_eq!(
            parse(&ch.to_string(), whitespace),
            Err(Error::expect(Character::Whitespace).but_found(ch))
        );
    }

    assert_eq!(
        parse("", whitespace),
        Err(Error::expect(Character::Whitespace).but_found_end())
    );
}

#[test]
fn character_test_whitespace_variant() {
    for ch in " \t\n\r\u{000C}".chars() {
        assert_eq!(parse(&ch.to_string(), Character::Whitespace), Ok((ch, "")));
        assert_eq!(
            parse(&(ch.to_string() + "$"), Character::Whitespace),
            Ok((ch, "$"))
        );
    }

    for ch in "$a".chars() {
        assert_eq!(
            parse(&ch.to_string(), Character::Whitespace),
            Err(Error::expect(Character::Whitespace).but_found(ch))
        );
    }

    assert_eq!(
        parse("", Character::Whitespace),
        Err(Error::expect(Character::Whitespace).but_found_end())
    );
}

#[test]
fn character_test_custom_variant() {
    assert_eq!(
        parse("", Character::custom('h')),
        Err(Error::expect('h').but_found_end())
    );
    assert_eq!(
        parse("$", Character::custom('h')),
        Err(Error::expect('h').but_found('$'))
    );
    assert_eq!(parse("h", Character::custom('h')), Ok(('h', "")));
    assert_eq!(parse("hello", Character::custom('h')), Ok(('h', "ello")));
    assert_eq!(parse("hello", Character::custom('h')), Ok(('h', "ello")));
}
