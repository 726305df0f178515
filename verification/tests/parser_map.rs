use juvinil::error::JuvinilError;
use juvinil::lexical_analysis::lex::split_whitespace;
use juvinil::lexical_analysis::token::Token;
use juvinil::syntax_analysis::parser_map::{parse_entry, ParserMap};
use juvinil::text::contains;

const LANG_MAP: &str = "!--! FIRST\nprogram -> { _ID_ if\n  block->{\n!--! FOLLOW\nblock -> } ;\nstmt -> ; -> ignored\n!--!\nstmt -> _ID_ ( =\nstmt -> _NUM_\n";

#[test]
fn tables_are_read_by_section() {
    let map = ParserMap::new(LANG_MAP).unwrap();
    let id = Token::new_id("x".to_string(), 1);
    let number = Token::new_number("7".to_string(), 1);
    let brace = Token::new_symbol("{".to_string(), 1);
    let close = Token::new_symbol("}".to_string(), 1);
    let semicolon = Token::new_symbol(";".to_string(), 1);
    let keyword_if = Token::new_keyword("if".to_string(), 1);
    let keyword_while = Token::new_keyword("while".to_string(), 1);

    assert!(map.is_first("program", &id));
    assert!(map.is_first("program", &brace));
    assert!(map.is_first("program", &keyword_if));
    assert!(!map.is_first("program", &keyword_while));
    assert!(!map.is_first("program", &number));
    assert!(map.is_first("block", &brace));
    assert!(!map.is_first("block", &id));
    assert!(!map.is_first("stmt", &id));
    assert!(!map.is_first("nothing", &id));

    assert!(map.is_follow("block", &close));
    assert!(map.is_follow("block", &semicolon));
    assert!(!map.is_follow("block", &brace));
    assert!(map.is_follow("stmt", &semicolon));
    assert!(!map.is_follow("stmt", &id));
    assert!(!map.is_follow("program", &id));

    // The second line for `stmt` replaced the first.
    assert!(map.is_lookahead("stmt", &number));
    assert!(!map.is_lookahead("stmt", &id));
    assert!(!map.is_lookahead("block", &close));
}

#[test]
fn identifier_and_number_are_looked_up_by_their_kind() {
    let map = ParserMap::new("!--!\na -> _ID_\nb -> _NUM_\nc -> x 7\n").unwrap();
    assert!(map.is_first("a", &Token::new_id("x".to_string(), 1)));
    assert!(map.is_first("b", &Token::new_number("7".to_string(), 1)));
    assert!(!map.is_first("c", &Token::new_id("x".to_string(), 1)));
    assert!(!map.is_first("c", &Token::new_number("7".to_string(), 1)));
    assert!(map.is_first("c", &Token::new_keyword("x".to_string(), 1)));
}

#[test]
fn token_is_matched_where_an_entry_occurs_in_it() {
    let map = ParserMap::new("!--!\nk -> if for\n").unwrap();
    assert!(map.is_first("k", &Token::new_keyword("if".to_string(), 1)));
    assert!(map.is_first("k", &Token::new_keyword("elseif".to_string(), 1)));
    assert!(map.is_first("k", &Token::new_keyword("before".to_string(), 1)));
    assert!(!map.is_first("k", &Token::new_keyword("i".to_string(), 1)));
    assert!(!map.is_first("k", &Token::new_keyword("fi".to_string(), 1)));
}

#[test]
fn symbol_without_tokens_matches_nothing() {
    let map = ParserMap::new("!--!\nempty ->\n").unwrap();
    assert!(!map.is_first("empty", &Token::new_keyword("if".to_string(), 1)));
    assert!(!map.is_first("empty", &Token::new_string("".to_string(), 1)));
}

#[test]
fn empty_text_gives_empty_tables() {
    let map = ParserMap::new("").unwrap();
    assert!(!map.is_first("a", &Token::eof(0)));
    let map = ParserMap::new("!--!\n!--!\n!--!\n").unwrap();
    assert!(!map.is_lookahead("a", &Token::eof(0)));
}

#[test]
fn line_that_writes_no_entry_is_refused() {
    match ParserMap::new("!--!\nprogram -> {\nblock {\n") {
        Err(JuvinilError::LexicalError(line, number)) => {
            assert_eq!(line, "block {");
            assert_eq!(number, 3);
        }
        Ok(_) => panic!("accepted a line without an arrow"),
        Err(other) => panic!("unexpected error: {:?}", other),
    }
    match ParserMap::new("!--!\n\n") {
        Err(JuvinilError::LexicalError(line, number)) => {
            assert_eq!(line, "");
            assert_eq!(number, 2);
        }
        Ok(_) => panic!("accepted an empty line"),
        Err(other) => panic!("unexpected error: {:?}", other),
    }
}

#[test]
fn entry_outside_the_three_sections_is_refused() {
    match ParserMap::new("program -> {\n!--!\n") {
        Err(JuvinilError::LexicalError(line, number)) => {
            assert_eq!(line, "program -> {");
            assert_eq!(number, 1);
        }
        Ok(_) => panic!("accepted an entry before the first section"),
        Err(other) => panic!("unexpected error: {:?}", other),
    }
    match ParserMap::new("!--!\n!--!\n!--!\n!--!\na -> b\n") {
        Err(JuvinilError::LexicalError(line, number)) => {
            assert_eq!(line, "a -> b");
            assert_eq!(number, 5);
        }
        Ok(_) => panic!("accepted an entry behind the third section"),
        Err(other) => panic!("unexpected error: {:?}", other),
    }
}

#[test]
fn entry_is_symbol_arrow_tokens() {
    let entry = parse_entry("  stmt list  ->  a   b\tc  ").unwrap();
    assert_eq!(entry.key, "stmt list");
    assert_eq!(entry.elements, vec!["a", "b", "c"]);
    let entry = parse_entry("a->b->c").unwrap();
    assert_eq!(entry.key, "a");
    assert_eq!(entry.elements, vec!["b"]);
    let entry = parse_entry("a-->b").unwrap();
    assert_eq!(entry.key, "a-");
    assert_eq!(entry.elements, vec!["b"]);
    let entry = parse_entry("->").unwrap();
    assert_eq!(entry.key, "");
    assert!(entry.elements.is_empty());
    assert!(parse_entry("a - > b").is_none());
    assert!(parse_entry("").is_none());
    assert!(parse_entry("-").is_none());
}

#[test]
fn words_and_occurrences() {
    assert_eq!(split_whitespace("  a  bc\td \n"), vec!["a", "bc", "d"]);
    assert_eq!(split_whitespace(""), Vec::<String>::new());
    assert_eq!(split_whitespace(" \t"), Vec::<String>::new());
    assert!(contains("hello", "ell"));
    assert!(contains("hello", "hello"));
    assert!(contains("hello", ""));
    assert!(contains("", ""));
    assert!(contains("hello", "o"));
    assert!(!contains("hello", "hello!"));
    assert!(!contains("hello", "lol"));
    assert!(!contains("", "a"));
    assert!(contains("aab", "ab"));
}
