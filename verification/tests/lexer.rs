use juvinil::error::JuvinilError;
use juvinil::lexical_analysis::lex::{
    pre_process_line, process_token, split_whitespace, token_from_matches, tokenize,
};
use juvinil::lexical_analysis::token::{Token, TokenType};

fn kinds_and_texts(tokens: &[Token]) -> Vec<(TokenType, String, usize)> {
    tokens.iter().map(|t| (t.token_type, t.value.clone(), t.file_line)).collect()
}

fn tok(kind: TokenType, text: &str, line: usize) -> (TokenType, String, usize) {
    (kind, text.to_string(), line)
}

#[test]
fn tokenize_declarations_and_assignments() {
    let tokens = tokenize("int a;\na = 4;\nint b;\nb = a;\n".to_string()).unwrap();
    assert_eq!(
        kinds_and_texts(&tokens),
        vec![
            tok(TokenType::TYPE, "int", 1),
            tok(TokenType::ID, "a", 1),
            tok(TokenType::SYMBOL, ";", 1),
            tok(TokenType::ID, "a", 2),
            tok(TokenType::OPERATOR, "=", 2),
            tok(TokenType::NUMBER, "4", 2),
            tok(TokenType::SYMBOL, ";", 2),
            tok(TokenType::TYPE, "int", 3),
            tok(TokenType::ID, "b", 3),
            tok(TokenType::SYMBOL, ";", 3),
            tok(TokenType::ID, "b", 4),
            tok(TokenType::OPERATOR, "=", 4),
            tok(TokenType::ID, "a", 4),
            tok(TokenType::SYMBOL, ";", 4),
            tok(TokenType::EOF, "", 4),
        ]
    );
}

#[test]
fn tokenize_twice_gives_the_same_tokens() {
    let source = "func int twice(int n) {\nreturn n * 2;\n}\nint a;\na = twice(4);\n";
    let first = tokenize(source.to_string()).unwrap();
    let second = tokenize(source.to_string()).unwrap();
    assert_eq!(kinds_and_texts(&first), kinds_and_texts(&second));
    assert_eq!(first.len(), 25);
}

#[test]
fn tokenize_twice_gives_the_same_error() {
    let first = tokenize("int a;\na = 4 $ 5;\n".to_string());
    let second = tokenize("int a;\na = 4 $ 5;\n".to_string());
    match (first, second) {
        (Err(JuvinilError::LexicalError(a, la)), Err(JuvinilError::LexicalError(b, lb))) => {
            assert_eq!(a, "$");
            assert_eq!(b, "$");
            assert_eq!((la, lb), (2, 2));
        }
        other => panic!("unexpected outcome: {:?}", other),
    }
}

#[test]
fn unclosed_string_is_reported_with_its_line() {
    let r = tokenize("string s = \"hello;".to_string());
    assert!(matches!(r, Err(JuvinilError::UnclosedString(1))));
    let r = tokenize("int a;\n\nstring s = \"hello;\nint b;".to_string());
    assert!(matches!(r, Err(JuvinilError::UnclosedString(3))));
}

#[test]
fn string_left_open_at_the_end_of_the_line() {
    // Two quotes, but the word that opens the literal never ends with one.
    let r = pre_process_line("s = \"a b\"c", 6);
    assert!(matches!(r, Err(JuvinilError::UnclosedString(7))));
    let r = pre_process_line("s = \"hi\";", 0);
    assert!(matches!(r, Err(JuvinilError::UnclosedString(1))));
    // An odd number of quotes, whatever else the line holds.
    let r = pre_process_line("a \" b \" $ \"", 4);
    assert!(matches!(r, Err(JuvinilError::UnclosedString(5))));
    let r = pre_process_line("\"", 0);
    assert!(matches!(r, Err(JuvinilError::UnclosedString(1))));
    // The semicolon hides the closing quote of the last word.
    let r = tokenize("s = \"hello\";".to_string());
    assert!(matches!(r, Err(JuvinilError::UnclosedString(1))));
}

#[test]
fn string_literal_is_joined_by_single_spaces() {
    let candidates = pre_process_line("s = \"hello   big\tworld\" ;", 0).unwrap();
    assert_eq!(candidates, vec!["s", "=", "\"hello big world\"", ";"]);
    let tokens = tokenize("s = \"hello   big\tworld\" ;".to_string()).unwrap();
    assert_eq!(
        kinds_and_texts(&tokens),
        vec![
            tok(TokenType::ID, "s", 1),
            tok(TokenType::OPERATOR, "=", 1),
            tok(TokenType::STRING, "hello big world", 1),
            tok(TokenType::SYMBOL, ";", 1),
            tok(TokenType::EOF, "", 1),
        ]
    );
}

#[test]
fn words_are_cut_at_special_symbols() {
    assert_eq!(
        pre_process_line("foo(a,b);", 1).unwrap(),
        vec!["foo", "(", "a", ",", "b", ")", ";"]
    );
    assert_eq!(pre_process_line("i++;", 1).unwrap(), vec!["i", "++", ";"]);
    assert_eq!(pre_process_line("a+=1; b-=2;", 1).unwrap(), vec!["a", "+=", "1", ";", "b", "-=", "2", ";"]);
    assert_eq!(pre_process_line("--x", 1).unwrap(), vec!["--", "x"]);
    assert_eq!(pre_process_line("v[3]", 1).unwrap(), vec!["v", "[", "3", "]"]);
    assert_eq!(pre_process_line("{}", 1).unwrap(), vec!["{", "}"]);
    assert_eq!(pre_process_line("+++", 1).unwrap(), vec!["++", "+"]);
    assert_eq!(pre_process_line("a+b", 1).unwrap(), vec!["a+b"]);
    assert_eq!(pre_process_line("   \t ", 1).unwrap(), Vec::<String>::new());
    assert_eq!(pre_process_line("", 1).unwrap(), Vec::<String>::new());
}

#[test]
fn call_with_string_argument() {
    let tokens = tokenize("printf(\"hi\");".to_string()).unwrap();
    assert_eq!(
        kinds_and_texts(&tokens),
        vec![
            tok(TokenType::ID, "printf", 1),
            tok(TokenType::SYMBOL, "(", 1),
            tok(TokenType::STRING, "hi", 1),
            tok(TokenType::SYMBOL, ")", 1),
            tok(TokenType::SYMBOL, ";", 1),
            tok(TokenType::EOF, "", 1),
        ]
    );
}

#[test]
fn classification_follows_the_tables_first() {
    let cases = [
        ("while", TokenType::KEYWORD),
        ("do", TokenType::KEYWORD),
        ("true", TokenType::KEYWORD),
        ("%", TokenType::OPERATOR),
        ("!", TokenType::OPERATOR),
        ("-=", TokenType::OPERATOR),
        ("float", TokenType::TYPE),
        ("char", TokenType::TYPE),
        ("boolean", TokenType::TYPE),
        (",", TokenType::SYMBOL),
        ("]", TokenType::SYMBOL),
        ("<=", TokenType::COMPARATOR),
        ("&&", TokenType::COMPARATOR),
        ("!=", TokenType::COMPARATOR),
        ("While", TokenType::ID),
        ("switch", TokenType::ID),
        ("my_var", TokenType::ID),
        ("_", TokenType::ID),
        ("42", TokenType::NUMBER),
        ("-5", TokenType::NUMBER),
        ("+12", TokenType::NUMBER),
    ];
    for (text, kind) in cases {
        let token = process_token(text, 9).unwrap();
        assert_eq!(token.token_type, kind, "{}", text);
        assert_eq!(token.value, text);
        assert_eq!(token.file_line, 9);
    }
    let token = process_token("\"quoted text\"", 3).unwrap();
    assert_eq!(token.token_type, TokenType::STRING);
    assert_eq!(token.value, "quoted text");
    let token = process_token("\"\"", 3).unwrap();
    assert_eq!(token.token_type, TokenType::STRING);
    assert_eq!(token.value, "");
}

#[test]
fn what_fits_no_rule_is_a_lexical_error() {
    for text in ["4.5", "x1", "$", "a+b", "\"", "\"a\"b\"", "12a", "", "é", "a b"] {
        match process_token(text, 5) {
            Err(JuvinilError::LexicalError(found, line)) => {
                assert_eq!(found, text);
                assert_eq!(line, 5);
            }
            other => panic!("{:?} gave {:?}", text, other),
        }
    }
    match tokenize("int a;\nint b;\na = 4.5;\n".to_string()) {
        Err(JuvinilError::LexicalError(found, line)) => {
            assert_eq!(found, "4.5");
            assert_eq!(line, 3);
        }
        other => panic!("unexpected outcome: {:?}", other),
    }
}

#[test]
fn unclosed_string_goes_before_a_lexical_error_on_the_same_line() {
    let r = tokenize("$ \"open".to_string());
    assert!(matches!(r, Err(JuvinilError::UnclosedString(1))));
    let r = tokenize("$ \"a b\"c".to_string());
    assert!(matches!(r, Err(JuvinilError::UnclosedString(1))));
}

#[test]
fn first_pattern_that_matched_decides() {
    let t = token_from_matches("12", 1, Some(true), Some(true), Some(true)).unwrap();
    assert_eq!((t.token_type, t.value.as_str()), (TokenType::NUMBER, "12"));
    let t = token_from_matches("\"a\"", 1, Some(false), Some(true), Some(true)).unwrap();
    assert_eq!((t.token_type, t.value.as_str()), (TokenType::STRING, "a"));
    let t = token_from_matches("ab", 2, None, Some(false), Some(true)).unwrap();
    assert_eq!((t.token_type, t.value.as_str(), t.file_line), (TokenType::ID, "ab", 2));
    match token_from_matches("ab", 4, Some(false), None, Some(false)) {
        Err(JuvinilError::LexicalError(text, line)) => {
            assert_eq!(text, "ab");
            assert_eq!(line, 4);
        }
        other => panic!("unexpected outcome: {:?}", other),
    }
    assert!(token_from_matches("ab", 4, None, None, None).is_err());
}

#[test]
fn end_marker_carries_the_number_of_lines() {
    let eof_line = |source: &str| {
        let tokens = tokenize(source.to_string()).unwrap();
        let last = tokens.last().unwrap();
        assert_eq!(last.token_type, TokenType::EOF);
        assert_eq!(last.value, "");
        (tokens.len(), last.file_line)
    };
    assert_eq!(eof_line(""), (1, 0));
    assert_eq!(eof_line("\n"), (1, 1));
    assert_eq!(eof_line("int a;"), (4, 1));
    assert_eq!(eof_line("int a;\n"), (4, 1));
    assert_eq!(eof_line("int a;\n\n"), (4, 2));
    assert_eq!(eof_line("int a;\n\nint b;"), (7, 3));
    assert_eq!(eof_line("int a;\r\nint b;\r\n"), (7, 2));
}

#[test]
fn white_space_is_the_unicode_property() {
    let listed = |c: char| {
        let code = c as u32;
        (0x09..=0x0D).contains(&code)
            || code == 0x20
            || code == 0x85
            || code == 0xA0
            || code == 0x1680
            || (0x2000..=0x200A).contains(&code)
            || code == 0x2028
            || code == 0x2029
            || code == 0x202F
            || code == 0x205F
            || code == 0x3000
    };
    let mut line = String::new();
    let mut expected = 0;
    for code in 0..=0x10FFFFu32 {
        if let Some(c) = char::from_u32(code) {
            // Every character between two letters: a white space cuts there.
            line.push('a');
            line.push(c);
            if listed(c) {
                expected += 1;
            }
        }
    }
    line.push('a');
    let words = split_whitespace(line.as_str());
    assert_eq!(words.len(), expected + 1);
    assert_eq!(expected, 25);
    assert!(words.iter().all(|w| !w.is_empty() && !w.chars().any(listed)));
    assert_eq!(split_whitespace("a\u{200B}b\u{FEFF}c\u{180E}d").len(), 1);
    assert_eq!(
        split_whitespace("a\u{3000}b\u{85}c\u{A0}d\u{2028}e\u{205F}f"),
        vec!["a", "b", "c", "d", "e", "f"]
    );
}

#[test]
fn blank_lines_count_but_give_no_tokens() {
    let tokens = tokenize("\n\n  \nint a;\n".to_string()).unwrap();
    assert_eq!(
        kinds_and_texts(&tokens),
        vec![
            tok(TokenType::TYPE, "int", 4),
            tok(TokenType::ID, "a", 4),
            tok(TokenType::SYMBOL, ";", 4),
            tok(TokenType::EOF, "", 4),
        ]
    );
}
