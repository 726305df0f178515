use juvinil::error::JuvinilError;
use juvinil::lexical_analysis::lex::tokenize;
use juvinil::lexical_analysis::token::{Token, TokenType};
use juvinil::syntax_analysis::parser::Parser;
use juvinil::translate;

const HEAD: &str = "#include <stdio.h>\n#include <string>\n#include <cstdlib>\n#include <conio.h>\nusing namespace std;\n\n";
const OPEN: &str = "int main() {\n";
const CLOSE: &str = "\n\ngetch();\n}\n";

fn parse(source: &str) -> Result<String, JuvinilError> {
    let tokens = tokenize(source.to_string())?;
    let mut parser = Parser::new(tokens)?;
    parser.parse()?;
    Ok(parser.emit())
}

fn program(body: &str) -> String {
    format!("{}{}{}{}", HEAD, OPEN, body, CLOSE)
}

fn with_functions(functions: &str, body: &str) -> String {
    format!("{}{}{}{}{}", HEAD, functions, OPEN, body, CLOSE)
}

#[test]
fn lex_operators_ok() {
    let source = "int a;\nint b;\na = 1 + 2 * 3;\nb = a - 4 / 2 % 3;\na += b;\nb -= 1;\na = ( a & b ) | 3;\nb = ++ a;\n";
    let tokens = tokenize(source.to_string());
    assert!(tokens.is_ok(), "Should be OK");
    let mut parser = Parser::new(tokens.unwrap()).unwrap();
    let result = parser.parse();
    assert!(result.is_ok(), "Should be OK");
}

#[test]
fn types_ok() {
    let source = "int a;\nfloat b;\nboolean c;\nchar d;\nstring e;\nint[4] f;\nc = true;\n";
    let tokens = tokenize(source.to_string());
    assert!(tokens.is_ok(), "Should be OK");
    let mut parser = Parser::new(tokens.unwrap()).unwrap();
    let result = parser.parse();
    assert!(result.is_ok(), "Should be OK");
}

#[test]
fn strings_ok() {
    let source = "string s;\ns = \"hello world\" ;\nprintf(\"%s\", s);\n";
    let tokens = tokenize(source.to_string());
    assert!(tokens.is_ok(), "Should be OK");
    let mut parser = Parser::new(tokens.unwrap()).unwrap();
    let result = parser.parse();
    assert!(result.is_ok(), "Should be OK");
}

#[test]
fn if_ok() {
    let source = "int a;\na = 1;\nif (a < 2 && a != 0) {\na = 2;\n} else {\na = 3;\n}\n";
    let tokens = tokenize(source.to_string());
    assert!(tokens.is_ok(), "Should be OK");
    let mut parser = Parser::new(tokens.unwrap()).unwrap();
    let result = parser.parse();
    assert!(result.is_ok(), "Should be OK");
}

#[test]
fn for_ok() {
    let source = "int i;\nint total;\ntotal = 0;\nfor (i = 0; i < 10) {\ntotal += i;\ni += 1;\n}\n";
    let tokens = tokenize(source.to_string());
    assert!(tokens.is_ok(), "Should be OK");
    let mut parser = Parser::new(tokens.unwrap()).unwrap();
    let result = parser.parse();
    assert!(result.is_ok(), "Should be OK");
}

#[test]
fn declarations_and_assignments_translate() {
    let code = parse("int a;\na = 4;\nint b;\nb = a;\n").unwrap();
    assert_eq!(code, program("int a;\na = 4;\nint b;\nb = a;\n"));
}

#[test]
fn parsed_variables_are_assigned_in_the_outermost_scope() {
    let tokens = tokenize("int a;\na = 4;\nint b;\nb = a;\nfloat c;\n".to_string()).unwrap();
    let mut parser = Parser::new(tokens).unwrap();
    assert!(parser.search_var_in_scope("a").is_none());
    parser.parse().unwrap();
    let a = parser.search_var_in_scope("a").unwrap();
    assert_eq!((a.var_name.as_str(), a.var_type.as_str(), a.assigned), ("a", "int", true));
    let b = parser.search_var_in_scope("b").unwrap();
    assert_eq!((b.var_name.as_str(), b.var_type.as_str(), b.assigned), ("b", "int", true));
    let c = parser.search_var_in_scope("c").unwrap();
    assert_eq!((c.var_name.as_str(), c.var_type.as_str(), c.assigned), ("c", "float", false));
    assert!(parser.search_var_in_scope("d").is_none());
}

#[test]
fn parsed_functions_are_declared_in_the_outermost_scope() {
    let source = "func boolean both(boolean a, int[2] b) {\nreturn a;\n}\n{\nfunc void inner() {\n}\n}\n";
    let mut parser = Parser::new(tokenize(source.to_string()).unwrap()).unwrap();
    parser.parse().unwrap();
    let both = parser.search_func_in_scope("both").unwrap();
    assert_eq!(both.func_name, "both");
    assert_eq!(both.return_type, "bool");
    assert_eq!(both.params, vec!["bool", "int[2]"]);
    assert!(parser.search_func_in_scope("inner").is_none());
    assert!(parser.search_var_in_scope("a").is_none());
}

#[test]
fn empty_program_is_the_bare_entry_point() {
    assert_eq!(parse("").unwrap(), program(""));
    assert_eq!(parse("\n\n").unwrap(), program(""));
}

#[test]
fn translation_has_one_entry_point() {
    let code = parse("func int one() {\nreturn 1;\n}\nint a;\na = one();\n").unwrap();
    assert!(!code.is_empty());
    assert!(code.starts_with(HEAD));
    assert!(code.ends_with(CLOSE));
    assert_eq!(code.matches(OPEN).count(), 1);
    assert_eq!(code.matches("getch();").count(), 1);
    assert_eq!(
        code,
        with_functions("int one (){\nreturn 1;\n}\n", "int a;\na = one ();\n")
    );
}

fn brackets_match(text: &str) -> bool {
    let mut open = Vec::new();
    let mut in_string = false;
    for c in text.chars() {
        if in_string {
            in_string = c != '"';
        } else if c == '"' {
            in_string = true;
        } else if c == '(' || c == '{' {
            open.push(c);
        } else if c == ')' || c == '}' {
            let expected = if c == ')' { '(' } else { '{' };
            if open.pop() != Some(expected) {
                return false;
            }
        }
    }
    !in_string && open.is_empty()
}

#[test]
fn translation_closes_its_brackets_in_order() {
    let source = "func int f(int a, int[2] b) {\nif (a < 1 && ( a + 2 ) * 3 > 4) {\nreturn f(a, b);\n} else {\nprintf( \"} ) a ( {\" , a);\n}\nwhile (a > 0) {\ndo {\na -= 1;\n} while (a != 0);\n}\nreturn ( ( a ) );\n}\nint i;\nfor (i = 0; i < f(1, 2)) {\n{\ni += 1;\n}\n}\n";
    let code = parse(source).unwrap();
    assert!(brackets_match(&code));
    assert_eq!(code.matches('{').count(), 9);
    assert!(code.contains("printf (\"} ) a ( {\", a);\n"));
    assert!(brackets_match(&parse("").unwrap()));
    assert!(!brackets_match("int main() {\n}\n}\n"));
    assert!(!brackets_match("f ({)}"));
}

#[test]
fn translation_only_grows() {
    for source in ["int a;\na = 1;\n", "int a;\n{\na = b;\n}\n", "func int f() {\nreturn 1;\n}\nf(;\n"] {
        let mut parser = Parser::new(tokenize(source.to_string()).unwrap()).unwrap();
        let before = parser.emit();
        let _ = parser.parse();
        let after = parser.emit();
        assert!(after.starts_with(&before), "{}", source);
        let _ = parser.parse();
        assert!(parser.emit().starts_with(&after), "{}", source);
    }
}

#[test]
fn parse_twice_wraps_twice() {
    let tokens = tokenize("int a;\n".to_string()).unwrap();
    let mut parser = Parser::new(tokens).unwrap();
    assert_eq!(parser.emit(), HEAD);
    parser.parse().unwrap();
    let once = parser.emit();
    assert_eq!(once, program("int a;\n"));
    parser.parse().unwrap();
    assert_eq!(parser.emit(), format!("{}{}{}", once, OPEN, CLOSE));
}

#[test]
fn shadowing_in_a_nested_block_is_accepted() {
    let code = parse("int x;\n{\nfloat x;\n}\n").unwrap();
    assert_eq!(code, program("int x;\n{\nfloat x;\n}\n"));
}

#[test]
fn redeclaration_in_the_same_block_is_refused() {
    match parse("int x;\nint x;\n") {
        Err(JuvinilError::DuplicateVariable(name, line)) => {
            assert_eq!(name, "x");
            assert_eq!(line, 2);
        }
        other => panic!("unexpected outcome: {:?}", other),
    }
    match parse("{\nint x;\nfloat x;\n}\n") {
        Err(JuvinilError::DuplicateVariable(name, line)) => {
            assert_eq!(name, "x");
            assert_eq!(line, 3);
        }
        other => panic!("unexpected outcome: {:?}", other),
    }
}

#[test]
fn scope_ends_with_its_block() {
    match parse("{\nint x;\nx = 1;\n}\nx = 2;\n") {
        Err(JuvinilError::UndeclaredVariable(name, line)) => {
            assert_eq!(name, "x");
            assert_eq!(line, 5);
        }
        other => panic!("unexpected outcome: {:?}", other),
    }
    assert!(parse("int x;\n{\nx = 1;\n{\nx = 2;\n}\n}\n").is_ok());
}

#[test]
fn assignment_before_declaration_is_refused() {
    match parse("x = 1;") {
        Err(JuvinilError::UndeclaredVariable(name, line)) => {
            assert_eq!(name, "x");
            assert_eq!(line, 1);
        }
        other => panic!("unexpected outcome: {:?}", other),
    }
}

#[test]
fn reading_an_unassigned_variable_is_refused() {
    match parse("int x;\nint y;\ny = x + 1;\n") {
        Err(JuvinilError::UnassignedVariable(name, line)) => {
            assert_eq!(name, "x");
            assert_eq!(line, 3);
        }
        other => panic!("unexpected outcome: {:?}", other),
    }
    match parse("int y;\ny = z;\n") {
        Err(JuvinilError::UnassignedVariable(name, line)) => {
            assert_eq!(name, "z");
            assert_eq!(line, 2);
        }
        other => panic!("unexpected outcome: {:?}", other),
    }
}

#[test]
fn assignment_in_an_inner_block_reaches_the_outer_variable() {
    assert!(parse("int x;\nint y;\n{\nx = 1;\n}\ny = x;\n").is_ok());
    // The inner `x` is another variable: the outer one stays unassigned.
    match parse("int x;\nint y;\n{\nint x;\nx = 1;\n}\ny = x;\n") {
        Err(JuvinilError::UnassignedVariable(name, line)) => {
            assert_eq!(name, "x");
            assert_eq!(line, 7);
        }
        other => panic!("unexpected outcome: {:?}", other),
    }
}

#[test]
fn variable_is_assigned_only_once_its_assignment_is_read() {
    match parse("int x;\nx = x + 1 ;\n") {
        Err(JuvinilError::UnassignedVariable(name, line)) => {
            assert_eq!(name, "x");
            assert_eq!(line, 2);
        }
        other => panic!("unexpected outcome: {:?}", other),
    }
    let mut parser = Parser::new(tokenize("int x;\nx = x + 1 ;\n".to_string()).unwrap()).unwrap();
    assert!(parser.parse().is_err());
    assert!(!parser.search_var_in_scope("x").unwrap().assigned);
    assert_eq!(
        parse("int x;\nx = 1;\nx = x + 1;\n").unwrap(),
        program("int x;\nx = 1;\nx = x+1;\n")
    );
    // An assignment that fails leaves the variable as it was.
    let mut parser = Parser::new(tokenize("int x;\nx = 1 2;\n".to_string()).unwrap()).unwrap();
    assert!(parser.parse().is_err());
    assert!(!parser.search_var_in_scope("x").unwrap().assigned);
}

#[test]
fn failure_leaves_what_was_read_and_written() {
    // The call of an undeclared function: nothing of it is written.
    let mut parser = Parser::new(tokenize("int a;\nfoo(1);\n".to_string()).unwrap()).unwrap();
    assert!(matches!(parser.parse(), Err(JuvinilError::UndeclaredFunction(_, 2))));
    assert_eq!(parser.emit(), format!("{}{}{}", HEAD, OPEN, "int a;\n"));
    assert!(parser.search_var_in_scope("a").is_some());

    // A second declaration of the same function: the scope holds the first.
    let source = "func void f ( ) { }\nfunc void f ( ) { }";
    let mut parser = Parser::new(tokenize(source.to_string()).unwrap()).unwrap();
    match parser.parse() {
        Err(JuvinilError::DuplicateFunction(name, line)) => {
            assert_eq!(name, "f");
            assert_eq!(line, 2);
        }
        other => panic!("unexpected outcome: {:?}", other),
    }
    assert_eq!(parser.search_func_in_scope("f").unwrap().return_type, "void");
    assert_eq!(parser.emit(), format!("{}{}", HEAD, "void f (){\n}\n"));

    // A token that starts no statement: nothing is read or written.
    let tokens = vec![Token::new_keyword("else".to_string(), 1), Token::eof(1)];
    let mut parser = Parser::new(tokens).unwrap();
    match parser.parse() {
        Err(JuvinilError::SyntaxError(kind, text, found, line)) => {
            assert_eq!(kind, TokenType::EOF);
            assert_eq!(text, "");
            assert_eq!(found.value, "else");
            assert_eq!(line, 1);
        }
        other => panic!("unexpected outcome: {:?}", other),
    }
    assert_eq!(parser.emit(), format!("{}{}", HEAD, OPEN));

    // An error inside a block: the block's scope is still open.
    let mut parser =
        Parser::new(tokenize("int a;\n{\nint b;\nb = c;\n}\n".to_string()).unwrap()).unwrap();
    assert!(matches!(parser.parse(), Err(JuvinilError::UnassignedVariable(_, 4))));
    assert!(parser.search_var_in_scope("b").is_some());
    assert_eq!(parser.emit(), format!("{}{}{}", HEAD, OPEN, "int a;\n{\nint b;\n"));
}

#[test]
fn function_may_call_itself() {
    let code = parse("func int fact(int n) {\nreturn n * fact(n - 1);\n}\n").unwrap();
    assert_eq!(
        code,
        with_functions("int fact (int n){\nreturn n*fact (n-1);\n}\n", "")
    );
}

#[test]
fn function_is_visible_after_its_declaration() {
    let code =
        parse("func void show(string text, int times) {\nprintf(text, times);\n}\nshow(\"x\", 2);\n")
            .unwrap();
    assert_eq!(
        code,
        with_functions(
            "void show (string text,int times){\nprintf (text, times);\n}\n",
            "show (\"x\", 2);\n"
        )
    );
}

#[test]
fn undeclared_function_is_refused_but_printf_is_built_in() {
    match parse("foo(1);") {
        Err(JuvinilError::UndeclaredFunction(name, line)) => {
            assert_eq!(name, "foo");
            assert_eq!(line, 1);
        }
        other => panic!("unexpected outcome: {:?}", other),
    }
    assert_eq!(parse("printf(\"a\");").unwrap(), program("printf (\"a\");\n"));
    assert_eq!(parse("printf();").unwrap(), program("printf ();\n"));
}

#[test]
fn duplicate_function_is_refused() {
    match parse("func int f() {\n}\nfunc int f() {\n}\n") {
        Err(JuvinilError::DuplicateFunction(name, line)) => {
            assert_eq!(name, "f");
            assert_eq!(line, 3);
        }
        other => panic!("unexpected outcome: {:?}", other),
    }
}

#[test]
fn duplicate_parameter_is_refused() {
    match parse("func int f(int a, float a) {\n}\n") {
        Err(JuvinilError::DuplicateVariable(name, line)) => {
            assert_eq!(name, "a");
            assert_eq!(line, 1);
        }
        other => panic!("unexpected outcome: {:?}", other),
    }
}

#[test]
fn parameters_are_assigned_and_local() {
    assert!(parse("func int f(int a) {\nint b;\nb = a;\nreturn b;\n}\n").is_ok());
    match parse("func int f(int a) {\nreturn a;\n}\nint c;\nc = a;\n") {
        Err(JuvinilError::UnassignedVariable(name, line)) => {
            assert_eq!(name, "a");
            assert_eq!(line, 5);
        }
        other => panic!("unexpected outcome: {:?}", other),
    }
}

#[test]
fn function_declared_inside_a_block_leaves_with_it() {
    assert!(parse("{\nfunc int f() {\nreturn 1;\n}\nint a;\na = f();\n}\n").is_ok());
    match parse("{\nfunc int f() {\nreturn 1;\n}\n}\nint a;\na = f();\n") {
        Err(JuvinilError::UndeclaredFunction(name, line)) => {
            assert_eq!(name, "f");
            assert_eq!(line, 7);
        }
        other => panic!("unexpected outcome: {:?}", other),
    }
}

#[test]
fn control_statements_translate() {
    assert_eq!(
        parse("int a;\na = 1;\nif (a < 2) {\na = 2;\n}\n").unwrap(),
        program("int a;\na = 1;\nif (a < 2){\na = 2;\n}\n")
    );
    assert_eq!(
        parse("int a;\na = 1;\nif (a < 2) {\na = 2;\n} else {\na = 3;\n}\n").unwrap(),
        program("int a;\na = 1;\nif (a < 2){\na = 2;\n}\nelse {\na = 3;\n}\n")
    );
    assert_eq!(
        parse("int a;\na = 1;\nwhile (a < 9) {\na += 1;\nbreak;\n}\n").unwrap(),
        program("int a;\na = 1;\nwhile(a < 9) {\na += 1;\nbreak;\n}\n")
    );
    assert_eq!(
        parse("int a;\na = 1;\ndo {\na -= 1;\ncontinue;\n} while (a > 0);\n").unwrap(),
        program("int a;\na = 1;\ndo {\na -= 1;\ncontinue;\n}\nwhile(a > 0);\n")
    );
    assert_eq!(
        parse("int i;\nfor (i = 0; i < 3) {\ni += 1;\n}\n").unwrap(),
        program("int i;\nfor(i = 0; i < 3 ;){\ni += 1;\n}\n")
    );
}

#[test]
fn boolean_expressions_translate() {
    assert_eq!(
        parse("int a;\na = 1;\nif (a < 2 && a > 0 || a == 5) {\n}\n").unwrap(),
        program("int a;\na = 1;\nif (a < 2 && a > 0 || a == 5){\n}\n")
    );
    // A comparison needs its comparator.
    match parse("int a;\na = 1;\nif (a) {\n}\n") {
        Err(JuvinilError::SyntaxError(kind, text, found, line)) => {
            assert_eq!(kind, TokenType::COMPARATOR);
            assert_eq!(text, "");
            assert_eq!(found.value, ")");
            assert_eq!(line, 3);
        }
        other => panic!("unexpected outcome: {:?}", other),
    }
}

#[test]
fn expressions_translate_as_written() {
    assert_eq!(
        parse("int a;\na = 8 - 4 - 2;\n").unwrap(),
        program("int a;\na = 8-4-2;\n")
    );
    assert_eq!(
        parse("int a;\na = ( 1 + 2 ) * 3 / 4 % 5;\n").unwrap(),
        program("int a;\na = (1+2)*3/4%5;\n")
    );
    assert_eq!(
        parse("int a;\na = 1;\na = - a;\na = ++ a;\na = -- a & 3 | 4;\n").unwrap(),
        program("int a;\na = 1;\na = -a;\na = ++a;\na = --a&3|4;\n")
    );
    assert_eq!(
        parse("boolean t;\nt = true;\nt = false;\n").unwrap(),
        program("bool t;\nt = true;\nt = false;\n")
    );
    assert_eq!(
        parse("string s;\ns = \"two words\" ;\ns += \"x\" ;\n").unwrap(),
        program("string s;\ns = \"two words\";\ns += \"x\";\n")
    );
}

#[test]
fn types_translate() {
    assert_eq!(
        parse("void v;\nint i;\nfloat f;\nboolean b;\nchar c;\nstring s;\n").unwrap(),
        program("void v;\nint i;\nfloat f;\nbool b;\nchar c;\nstring s;\n")
    );
    assert_eq!(parse("int[5] v;\n").unwrap(), program("int v[5];\n"));
    assert_eq!(
        parse("func boolean f(boolean[2] flags) {\nreturn true;\n}\n").unwrap(),
        with_functions("bool f (bool flags[2]){\nreturn true;\n}\n", "")
    );
}

#[test]
fn return_with_and_without_a_value() {
    assert_eq!(
        parse("func void f() {\nreturn;\n}\n").unwrap(),
        with_functions("void f (){\nreturn ;\n}\n", "")
    );
    assert_eq!(
        parse("func string f() {\nreturn \"a b\" ;\n}\n").unwrap(),
        with_functions("string f (){\nreturn \"a b\";\n}\n", "")
    );
}

#[test]
fn syntax_errors_name_what_was_expected() {
    match parse("int ;") {
        Err(JuvinilError::SyntaxError(kind, text, found, line)) => {
            assert_eq!(kind, TokenType::ID);
            assert_eq!(text, "");
            assert_eq!((found.token_type, found.value.as_str()), (TokenType::SYMBOL, ";"));
            assert_eq!(line, 1);
        }
        other => panic!("unexpected outcome: {:?}", other),
    }
    match parse("int a\nint b;") {
        Err(JuvinilError::SyntaxError(kind, text, found, line)) => {
            assert_eq!(kind, TokenType::SYMBOL);
            assert_eq!(text, ";");
            assert_eq!((found.token_type, found.value.as_str()), (TokenType::TYPE, "int"));
            assert_eq!(line, 2);
        }
        other => panic!("unexpected outcome: {:?}", other),
    }
    match parse("int a;\na 4;") {
        Err(JuvinilError::SyntaxError(kind, text, found, _)) => {
            assert_eq!(kind, TokenType::OPERATOR);
            assert_eq!(text, "=");
            assert_eq!(found.value, "4");
        }
        other => panic!("unexpected outcome: {:?}", other),
    }
}

#[test]
fn token_that_starts_nothing_is_a_syntax_error() {
    match parse("int a;\n;\n") {
        Err(JuvinilError::SyntaxError(kind, text, found, line)) => {
            assert_eq!(kind, TokenType::EOF);
            assert_eq!(text, "");
            assert_eq!((found.token_type, found.value.as_str()), (TokenType::SYMBOL, ";"));
            assert_eq!(line, 2);
        }
        other => panic!("unexpected outcome: {:?}", other),
    }
    match parse("{\nint a;\n)\n}\n") {
        Err(JuvinilError::SyntaxError(kind, text, found, line)) => {
            assert_eq!(kind, TokenType::SYMBOL);
            assert_eq!(text, "}");
            assert_eq!(found.value, ")");
            assert_eq!(line, 3);
        }
        other => panic!("unexpected outcome: {:?}", other),
    }
}

#[test]
fn block_left_open_is_a_syntax_error() {
    match parse("{\nint a;\n") {
        Err(JuvinilError::SyntaxError(kind, text, found, line)) => {
            assert_eq!(kind, TokenType::SYMBOL);
            assert_eq!(text, "}");
            assert_eq!(found.token_type, TokenType::EOF);
            assert_eq!(line, 2);
        }
        other => panic!("unexpected outcome: {:?}", other),
    }
}

#[test]
fn parser_needs_the_end_marker() {
    match Parser::new(Vec::new()) {
        Err(JuvinilError::SyntaxError(kind, text, found, line)) => {
            assert_eq!(kind, TokenType::EOF);
            assert_eq!(text, "");
            assert_eq!(found.token_type, TokenType::EOF);
            assert_eq!(line, 0);
        }
        Ok(_) => panic!("accepted an empty stream"),
        Err(other) => panic!("unexpected error: {:?}", other),
    }
    let tokens = vec![
        Token::new_type("int".to_string(), 1),
        Token::new_id("a".to_string(), 1),
        Token::new_symbol(";".to_string(), 2),
    ];
    match Parser::new(tokens) {
        Err(JuvinilError::SyntaxError(kind, _, found, line)) => {
            assert_eq!(kind, TokenType::EOF);
            assert_eq!(found.value, ";");
            assert_eq!(line, 2);
        }
        Ok(_) => panic!("accepted a stream without end marker"),
        Err(other) => panic!("unexpected error: {:?}", other),
    }
    let tokens = vec![
        Token::new_type("int".to_string(), 1),
        Token::new_id("a".to_string(), 1),
        Token::new_symbol(";".to_string(), 1),
        Token::eof(1),
    ];
    let mut parser = Parser::new(tokens).unwrap();
    parser.parse().unwrap();
    assert_eq!(parser.emit(), program("int a;\n"));
}

#[test]
fn type_token_must_name_a_type() {
    let tokens = vec![
        Token::new_type("number".to_string(), 1),
        Token::new_id("a".to_string(), 1),
        Token::new_symbol(";".to_string(), 1),
        Token::eof(1),
    ];
    let mut parser = Parser::new(tokens).unwrap();
    match parser.parse() {
        Err(JuvinilError::SyntaxError(kind, text, found, line)) => {
            assert_eq!(kind, TokenType::TYPE);
            assert_eq!(text, "");
            assert_eq!(found.value, "number");
            assert_eq!(line, 1);
        }
        other => panic!("unexpected outcome: {:?}", other),
    }
}

#[test]
fn translate_runs_both_stages() {
    assert_eq!(
        translate("int a;\na = 4;\n".to_string()).unwrap(),
        program("int a;\na = 4;\n")
    );
    assert!(matches!(
        translate("string s = \"hello;".to_string()),
        Err(JuvinilError::UnclosedString(1))
    ));
    assert!(matches!(
        translate("x = 1;".to_string()),
        Err(JuvinilError::UndeclaredVariable(_, 1))
    ));
}
