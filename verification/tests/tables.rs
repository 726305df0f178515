use juvinil::lexical_analysis::comparators::{comparator_of, Comparator};
use juvinil::lexical_analysis::jv_types::{jv_type_of, JvType};
use juvinil::lexical_analysis::keyword::{keyword_of, Keyword};
use juvinil::lexical_analysis::operators::{operator_of, Operator};
use juvinil::lexical_analysis::regex_token::{regex_token_map, RegexToken};
use juvinil::lexical_analysis::symbols::{symbol_of, Symbol};
use juvinil::lexical_analysis::token::{
    is_comparator, is_keyword, is_operator, is_symbol, is_type, Token, TokenType,
};
use juvinil::syntax_analysis::scope::{JvFunction, Scope};
use juvinil::text::{chars_of, quote, remove_char, str_equal};

#[test]
fn tables_match_exactly() {
    for word in ["func", "return", "if", "else", "for", "do", "while", "break", "continue", "true", "false"] {
        assert!(is_keyword(word), "{}", word);
    }
    for word in ["Func", "IF", "switch", "case", "", "fo", "forr", " if"] {
        assert!(!is_keyword(word), "{}", word);
    }
    for word in ["=", "+", "-", "*", "/", "%", "!", "&", "|", "++", "--", "+=", "-="] {
        assert!(is_operator(word), "{}", word);
    }
    for word in ["==", "**", "=+", "", "<"] {
        assert!(!is_operator(word), "{}", word);
    }
    for word in ["void", "int", "float", "boolean", "char", "string"] {
        assert!(is_type(word), "{}", word);
    }
    for word in ["bool", "Int", "double", ""] {
        assert!(!is_type(word), "{}", word);
    }
    for word in [";", "(", ")", "[", "]", "{", "}", ","] {
        assert!(is_symbol(word), "{}", word);
    }
    for word in [":", ".", "()", ""] {
        assert!(!is_symbol(word), "{}", word);
    }
    for word in ["&&", "||", "==", "!=", "<", ">", ">=", "<="] {
        assert!(is_comparator(word), "{}", word);
    }
    for word in ["=", "=>", "=<", "<>", "&", ""] {
        assert!(!is_comparator(word), "{}", word);
    }
}

#[test]
fn lookups_give_the_variants() {
    assert_eq!(comparator_of("&&"), Some(Comparator::AND));
    assert_eq!(comparator_of("<"), Some(Comparator::SMTHAN));
    assert_eq!(comparator_of(">"), Some(Comparator::BGTHAN));
    assert_eq!(comparator_of(">="), Some(Comparator::BGEQTHAN));
    assert_eq!(comparator_of("<="), Some(Comparator::SMEQTHAN));
    assert_eq!(comparator_of("!="), Some(Comparator::NEQ));
    assert_eq!(comparator_of("="), None);
    assert_eq!(jv_type_of("boolean"), Some(JvType::BOOLEAN));
    assert_eq!(jv_type_of("float"), Some(JvType::FLOAT));
    assert_eq!(jv_type_of("bool"), None);
    assert_eq!(keyword_of("switch"), Some(Keyword::SWITCH));
    assert_eq!(keyword_of("func"), Some(Keyword::FUNC));
    assert_eq!(keyword_of("do"), None);
    assert_eq!(operator_of("%"), Some(Operator::MODULE));
    assert_eq!(operator_of("+="), Some(Operator::INCREMENTBY));
    assert_eq!(operator_of("--"), Some(Operator::DECREMENT));
    assert_eq!(operator_of("=="), None);
    assert_eq!(symbol_of(";"), Some(Symbol::ENDEXPR));
    assert_eq!(symbol_of("{"), Some(Symbol::SBOPEN));
    assert_eq!(symbol_of("["), Some(Symbol::BOPEN));
    assert_eq!(symbol_of(","), None);
}

#[test]
fn variants_print_their_names() {
    assert_eq!(Operator::ASSIGN.to_string(), "ASSIGN");
    assert_eq!(Operator::BINARYOR.to_string(), "BINARYOR");
    assert_eq!(Operator::DECREMENTBY.to_string(), "DECREMENTBY");
    assert_eq!(Symbol::ENDEXPR.to_string(), "ENDEXPR");
    assert_eq!(Symbol::SBCLOSE.to_string(), "SBCLOSE");
}

#[test]
fn token_constructors_set_the_kind() {
    let t = Token::new(TokenType::ID, "x".to_string(), 3);
    assert_eq!((t.token_type, t.value.as_str(), t.file_line), (TokenType::ID, "x", 3));
    assert_eq!(Token::new_keyword("if".to_string(), 1).token_type, TokenType::KEYWORD);
    assert_eq!(Token::new_operator("+".to_string(), 1).token_type, TokenType::OPERATOR);
    assert_eq!(Token::new_type("int".to_string(), 1).token_type, TokenType::TYPE);
    assert_eq!(Token::new_symbol(";".to_string(), 1).token_type, TokenType::SYMBOL);
    assert_eq!(Token::new_comparator("<".to_string(), 1).token_type, TokenType::COMPARATOR);
    assert_eq!(Token::new_id("a".to_string(), 1).token_type, TokenType::ID);
    assert_eq!(Token::new_number("7".to_string(), 1).token_type, TokenType::NUMBER);
    let s = Token::new_string("\"a \"b\" c\"".to_string(), 2);
    assert_eq!((s.token_type, s.value.as_str(), s.file_line), (TokenType::STRING, "a b c", 2));
    let e = Token::eof(12);
    assert_eq!((e.token_type, e.value.as_str(), e.file_line), (TokenType::EOF, "", 12));
    assert_eq!(s.values(), (TokenType::STRING, "a b c"));
    let copy = s.clone();
    assert_eq!((copy.token_type, copy.value.as_str(), copy.file_line), (TokenType::STRING, "a b c", 2));
}

#[test]
fn pattern_table_is_in_order() {
    let map = regex_token_map();
    assert_eq!(map[0].regex_template, "^[+-]?[0-9]+$");
    assert_eq!(map[0].token_type, TokenType::NUMBER);
    assert_eq!(map[1].regex_template, "^\"[^\"]*\"$");
    assert_eq!(map[1].token_type, TokenType::STRING);
    assert_eq!(map[2].regex_template, "^[a-zA-Z_]+$");
    assert_eq!(map[2].token_type, TokenType::ID);
    let rt = RegexToken::new("^a$", TokenType::ID);
    assert_eq!(rt.regex_template, "^a$");
    let t = Token::from_regex_token(&map[1], "\"q\"", 4);
    assert_eq!((t.token_type, t.value.as_str(), t.file_line), (TokenType::STRING, "q", 4));
    let t = Token::from_regex_token(&map[0], "-3", 4);
    assert_eq!((t.token_type, t.value.as_str()), (TokenType::NUMBER, "-3"));
    let t = Token::from_regex_token(&map[2], "id", 4);
    assert_eq!((t.token_type, t.value.as_str()), (TokenType::ID, "id"));
}

#[test]
fn scope_finds_the_first_of_a_name() {
    let mut scope = Scope::new();
    assert!(scope.variables.is_empty());
    assert!(scope.functions.is_empty());
    assert_eq!(scope.find_variable("a"), None);
    scope.add_variable("int".to_string(), "a".to_string());
    scope.add_variable("float".to_string(), "b".to_string());
    scope.add_variable("char".to_string(), "a".to_string());
    assert_eq!(scope.find_variable("a"), Some(0));
    assert_eq!(scope.find_variable("b"), Some(1));
    assert_eq!(scope.find_variable("c"), None);
    assert!(!scope.variables[1].assigned);
    assert_eq!(scope.variables[1].var_type, "float");
    scope.add_function(JvFunction {
        return_type: "int".to_string(),
        func_name: "f".to_string(),
        params: vec!["int".to_string(), "bool".to_string()],
    });
    assert_eq!(scope.find_function("f"), Some(0));
    assert_eq!(scope.find_function("a"), None);
    let copy = scope.functions[0].clone();
    assert_eq!(copy.params, vec!["int", "bool"]);
    assert_eq!(copy.return_type, "int");
    let var = scope.variables[1].clone();
    assert_eq!((var.var_name.as_str(), var.assigned), ("b", false));
}

#[test]
fn text_helpers() {
    assert_eq!(chars_of("aé\n"), vec!['a', 'é', '\n']);
    assert_eq!(chars_of(""), Vec::<char>::new());
    assert_eq!(quote("a b"), "\"a b\"");
    assert_eq!(quote(""), "\"\"");
    assert_eq!(remove_char("\"a\"\"b", '"'), "ab");
    assert_eq!(remove_char("abc", 'x'), "abc");
    assert!(str_equal("", ""));
    assert!(str_equal("if", "if"));
    assert!(str_equal("aé越", "aé越"));
    assert!(!str_equal("if", "iff"));
    assert!(!str_equal("if", "of"));
    assert!(!str_equal("if", "If"));
    assert!(!str_equal("é", "e"));
    assert!(!str_equal("", "a"));
}
