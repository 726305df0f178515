//! Brackets in the translation: what a parse writes is well-formed as far
//! as brackets go. Outside string literals every `{` and every `(` that it
//! opens has its matching closer, in nesting order.
//!
//! This holds for clean tokens: the text of a string literal holds no double
//! quote, and the text of any other token but a symbol holds no bracket and
//! no double quote. The tokens of the lexer's tables are such, and so is
//! every identifier, number and string literal that its patterns let pass.

use vstd::prelude::*;
use crate::lexical_analysis::token::{TokenType, TokenView};
use crate::syntax_analysis::brackets::{
    Level, brackets_match, closes, is_mark, lemma_closer, level_of, lemma_opener, lemma_plain_is_neutral,
    lemma_quoted_is_neutral, lemma_scan_plain, lemma_scan_split, neutral, opens, plain_text,
    quote_free, scan,
};
use crate::syntax_analysis::grammar::{
    MAIN_CLOSE, MAIN_OPEN, PREAMBLE, ParseState, Parsed, Step, consume, initial_state,
    spec_asgn, spec_block, spec_block_items, spec_bnr, spec_boolexpr, spec_cmp,
    spec_condition, spec_decl, spec_decls, spec_equality, spec_expr, spec_factor, spec_func,
    spec_funcdecl, spec_funcdecls, spec_funcheader, spec_join, spec_jvtype, spec_params,
    spec_paramsdecl, spec_program, spec_segment, spec_start, spec_stmt, spec_stmt_do_while,
    spec_stmt_for, spec_stmt_if, spec_stmt_return, spec_stmt_while, spec_stmts, spec_term,
    spec_unit, spec_value, starts_statement,
};
use crate::syntax_analysis::progress::{
    lemma_asgn, lemma_block, lemma_block_items, lemma_bnr, lemma_boolexpr, lemma_cmp,
    lemma_condition, lemma_decl, lemma_decls, lemma_equality, lemma_expr, lemma_func,
    lemma_funcdecl, lemma_funcdecls, lemma_funcheader, lemma_join, lemma_jvtype, lemma_params,
    lemma_paramsdecl, lemma_segment, lemma_stmt, lemma_term, lemma_unit, lemma_value,
};
use crate::syntax_analysis::scope::{declare_parameter, push_scope};

verus! {

broadcast use crate::syntax_analysis::brackets::lemma_scan_joined;

/// The tokens are clean: the text of a string literal holds no double quote,
/// and the text of any other token but a symbol is plain.
pub open spec fn clean_tokens(tokens: Seq<TokenView>) -> bool {
    forall|i: int|
        0 <= i < tokens.len() ==> {
            &&& (#[trigger] tokens[i]).token_type == TokenType::STRING ==> quote_free(
                tokens[i].value,
            )
            &&& tokens[i].token_type != TokenType::STRING && tokens[i].token_type
                != TokenType::SYMBOL ==> plain_text(tokens[i].value)
        }
}

/// If `r` is a success, it wrote nothing and its text is neutral.
pub open spec fn text_balanced(st: ParseState, r: Parsed<Seq<char>>) -> bool {
    r is Ok ==> r->Ok_0.1.code == st.code && neutral(r->Ok_0.0)
}

/// If `r` is a success, what it wrote is neutral: read from any level at
/// which the text before ends outside a string literal, the text after ends
/// at the same level.
pub open spec fn step_balanced(st: ParseState, r: Step) -> bool {
    r is Ok ==> forall|base: Level|
        scan(base, st.code).good() ==> #[trigger] scan(base, r->Ok_0.code) == scan(
            base,
            st.code,
        )
}

/// The text of the current token is neutral unless the token is a symbol or
/// a string literal.
pub proof fn lemma_token_is_neutral(st: ParseState)
    requires
        st.wf(),
        clean_tokens(st.tokens),
        !st.at_kind(TokenType::SYMBOL),
        !st.at_kind(TokenType::STRING),
    ensures
        neutral(st.current().value),
{
    lemma_plain_is_neutral(st.current().value);
}

/// A text in which a pair of parentheses stands, at `open` and `close`, and
/// which is plain otherwise, changes nothing.
pub proof fn lemma_scan_pair(level: Level, text: Seq<char>, open: int, close: int)
    requires
        level.good(),
        0 <= open < close < text.len(),
        text[open] == '(',
        text[close] == ')',
        forall|i: int|
            0 <= i < text.len() && i != open && i != close ==> !is_mark(#[trigger] text[i]),
    ensures
        scan(level, text) == level,
{
    let before = text.take(close);
    lemma_scan_split(level, text, close);
    lemma_opener(before, open);
    assert(scan(level, before) == level.push('('));
    assert(level.push('(').open.drop_last() =~= level.open);
    lemma_scan_plain(level, text.skip(close + 1));
}

/// The entry point opens one brace and closes it; its parentheses are closed
/// where they stand.
pub proof fn lemma_entry_point()
    ensures
        opens(MAIN_OPEN@, '{'),
        closes(MAIN_CLOSE@, '{'),
{
    reveal_strlit("int main() {\n");
    reveal_strlit("\n\ngetch();\n}\n");
    let open = MAIN_OPEN@;
    let close = MAIN_CLOSE@;
    assert forall|level: Level| level.good() implies #[trigger] scan(level, open) == level.push(
        '{',
    ) by {
        lemma_scan_split(level, open, 11);
        lemma_scan_pair(level, open.take(11), 8, 9);
        lemma_scan_plain(level.push('{'), open.skip(12));
    }
    assert forall|level: Level| level.good() implies #[trigger] scan(level.push('{'), close)
        == level by {
        let pushed = level.push('{');
        lemma_scan_split(pushed, close, 11);
        lemma_scan_pair(pushed, close.take(11), 7, 8);
        assert(pushed.open.drop_last() =~= level.open);
        lemma_scan_plain(level, close.skip(12));
    }
}

/// The heading of the translation holds no bracket and no double quote.
pub proof fn lemma_heading_is_neutral()
    ensures
        neutral(PREAMBLE@),
{
    reveal_strlit(
        "#include <stdio.h>\n#include <string>\n#include <cstdlib>\n#include <conio.h>\nusing namespace std;\n\n",
    );
    lemma_plain_is_neutral(PREAMBLE@);
}

/// The separators and words of the translation, and the names of its types,
/// hold no bracket and no quote.
pub proof fn lemma_words_are_neutral()
    ensures
        neutral(" "@),
        neutral(";\n"@),
        neutral("\n"@),
        neutral(";"@),
        neutral(", "@),
        neutral(","@),
        neutral("["@),
        neutral("]"@),
        neutral("else "@),
        neutral("do "@),
        neutral("break;\n"@),
        neutral("continue;\n"@),
        neutral("return "@),
        neutral("void"@),
        neutral("int"@),
        neutral("float"@),
        neutral("bool"@),
        neutral("char"@),
        neutral("string"@),
{
    reveal_strlit(" ");
    lemma_plain_is_neutral(" "@);
    reveal_strlit(";\n");
    lemma_plain_is_neutral(";\n"@);
    reveal_strlit("\n");
    lemma_plain_is_neutral("\n"@);
    reveal_strlit(";");
    lemma_plain_is_neutral(";"@);
    reveal_strlit(", ");
    lemma_plain_is_neutral(", "@);
    reveal_strlit(",");
    lemma_plain_is_neutral(","@);
    reveal_strlit("[");
    lemma_plain_is_neutral("["@);
    reveal_strlit("]");
    lemma_plain_is_neutral("]"@);
    reveal_strlit("else ");
    lemma_plain_is_neutral("else "@);
    reveal_strlit("do ");
    lemma_plain_is_neutral("do "@);
    reveal_strlit("break;\n");
    lemma_plain_is_neutral("break;\n"@);
    reveal_strlit("continue;\n");
    lemma_plain_is_neutral("continue;\n"@);
    reveal_strlit("return ");
    lemma_plain_is_neutral("return "@);
    reveal_strlit("void");
    lemma_plain_is_neutral("void"@);
    reveal_strlit("int");
    lemma_plain_is_neutral("int"@);
    reveal_strlit("float");
    lemma_plain_is_neutral("float"@);
    reveal_strlit("bool");
    lemma_plain_is_neutral("bool"@);
    reveal_strlit("char");
    lemma_plain_is_neutral("char"@);
    reveal_strlit("string");
    lemma_plain_is_neutral("string"@);
}

/// What opens a parenthesis or a block holds the one bracket and nothing
/// else that counts.
pub proof fn lemma_openers()
    ensures
        opens("for("@, '('),
        opens("if ("@, '('),
        opens("while("@, '('),
        opens(" ("@, '('),
        opens("("@, '('),
        opens("{\n"@, '{'),
{
    reveal_strlit("for(");
    lemma_opener("for("@, 3);
    reveal_strlit("if (");
    lemma_opener("if ("@, 3);
    reveal_strlit("while(");
    lemma_opener("while("@, 5);
    reveal_strlit(" (");
    lemma_opener(" ("@, 1);
    reveal_strlit("(");
    lemma_opener("("@, 0);
    reveal_strlit("{\n");
    lemma_opener("{\n"@, 0);
}

/// What closes a parenthesis or a block holds the one bracket and nothing
/// else that counts.
pub proof fn lemma_closers()
    ensures
        closes(" ;)"@, '('),
        closes(")"@, '('),
        closes(") "@, '('),
        closes(");\n"@, '('),
        closes("}\n"@, '{'),
{
    reveal_strlit(" ;)");
    lemma_closer(" ;)"@, 2);
    reveal_strlit(")");
    lemma_closer(")"@, 0);
    reveal_strlit(") ");
    lemma_closer(") "@, 0);
    reveal_strlit(");\n");
    lemma_closer(");\n"@, 0);
    reveal_strlit("}\n");
    lemma_closer("}\n"@, 0);
}

/// A type is written without brackets, and reading it writes nothing.
pub proof fn lemma_jvtype_is_neutral(st: ParseState)
    requires
        st.wf(),
        clean_tokens(st.tokens),
    ensures
        spec_jvtype(st) is Ok ==> {
            &&& spec_jvtype(st)->Ok_0.1.code == st.code
            &&& neutral(spec_jvtype(st)->Ok_0.0.target)
            &&& neutral(spec_jvtype(st)->Ok_0.0.suffix)
        },
{
    lemma_words_are_neutral();
    if spec_jvtype(st) is Ok {
        let st1 = st.advance();
        if st1.at("["@) {
            let st2 = consume(st1, TokenType::SYMBOL, Some("["@))->Ok_0;
            lemma_token_is_neutral(st2);
        }
    }
}

/// `decl` writes a balanced text.
pub proof fn lemma_decl_is_balanced(st: ParseState)
    requires
        st.wf(),
        clean_tokens(st.tokens),
    ensures
        step_balanced(st, spec_decl(st)),
{
    lemma_words_are_neutral();
    lemma_jvtype(st);
    lemma_jvtype_is_neutral(st);
    if spec_decl(st) is Ok {
        let st1 = spec_jvtype(st)->Ok_0.1;
        lemma_token_is_neutral(st1);
    }
}

/// `decls` writes a balanced text.
pub proof fn lemma_decls_is_balanced(st: ParseState)
    requires
        st.wf(),
        clean_tokens(st.tokens),
    ensures
        step_balanced(st, spec_decls(st)),
    decreases st.remaining(),
{
    if st.at_kind(TokenType::TYPE) {
        lemma_decl(st);
        lemma_decl_is_balanced(st);
        match spec_decl(st) {
            Ok(st1) => {
                if st1.after(st) {
                    lemma_decls_is_balanced(st1);
                }
            },
            Err(_) => {},
        }
    }
}

/// `paramsdecl` writes nothing, and its text is neutral.
pub proof fn lemma_paramsdecl_is_neutral(st: ParseState)
    requires
        st.wf(),
        clean_tokens(st.tokens),
    ensures
        spec_paramsdecl(st) is Ok ==> spec_paramsdecl(st)->Ok_0.1.code == st.code && neutral(
            spec_paramsdecl(st)->Ok_0.0.text,
        ),
    decreases st.remaining(),
{
    lemma_words_are_neutral();
    if !st.at(")"@) && spec_paramsdecl(st) is Ok {
        lemma_jvtype(st);
        lemma_jvtype_is_neutral(st);
        let st1 = spec_jvtype(st)->Ok_0.1;
        lemma_token_is_neutral(st1);
        let st2 = consume(st1, TokenType::ID, None)->Ok_0;
        let scopes = declare_parameter(
            st1.scopes,
            spec_jvtype(st)->Ok_0.0.name,
            st1.current().value,
            st1.line(),
        )->Ok_0;
        let st3 = st2.with_scopes(scopes);
        if st3.at(","@) {
            let st4 = consume(st3, TokenType::SYMBOL, Some(","@))->Ok_0;
            if st4.after(st) {
                lemma_paramsdecl_is_neutral(st4);
            }
        }
    }
}

/// The header of a function declaration writes a balanced text.
pub proof fn lemma_funcheader_is_balanced(st: ParseState)
    requires
        st.wf(),
        clean_tokens(st.tokens),
    ensures
        step_balanced(st, spec_funcheader(st)),
{
    lemma_words_are_neutral();
    lemma_openers();
    lemma_closers();
    if spec_funcheader(st) is Ok {
        let st1 = consume(st, TokenType::KEYWORD, Some("func"@))->Ok_0;
        lemma_jvtype(st1);
        lemma_jvtype_is_neutral(st1);
        let st2 = spec_jvtype(st1)->Ok_0.1;
        lemma_token_is_neutral(st2);
        let st3 = consume(st2, TokenType::ID, None)->Ok_0;
        let st4 = consume(
            st3.with_scopes(push_scope(st3.scopes)),
            TokenType::SYMBOL,
            Some("("@),
        )->Ok_0;
        lemma_paramsdecl(st4);
        lemma_paramsdecl_is_neutral(st4);
    }
}

/// `func` writes nothing, and the call is balanced.
pub proof fn lemma_func_is_balanced(st: ParseState)
    requires
        st.wf(),
        clean_tokens(st.tokens),
    ensures
        text_balanced(st, spec_func(st)),
    decreases st.remaining(), 0nat,
{
    lemma_openers();
    lemma_closers();
    if spec_func(st) is Ok {
        lemma_token_is_neutral(st);
        let st1 = consume(st, TokenType::ID, None)->Ok_0;
        let st2 = consume(st1, TokenType::SYMBOL, Some("("@))->Ok_0;
        lemma_params(st2);
        lemma_params_is_balanced(st2);
    }
}

/// `factor` writes nothing, and its text is balanced.
pub proof fn lemma_factor_is_balanced(st: ParseState)
    requires
        st.wf(),
        clean_tokens(st.tokens),
    ensures
        text_balanced(st, spec_factor(st)),
    decreases st.remaining(), 1nat,
{
    lemma_openers();
    lemma_closers();
    if spec_factor(st) is Ok {
        if st.at_kind(TokenType::NUMBER) {
            lemma_token_is_neutral(st);
        } else if st.at("("@) {
            let st1 = consume(st, TokenType::SYMBOL, Some("("@))->Ok_0;
            lemma_expr(st1);
            lemma_expr_is_balanced(st1);
        } else if st.at_kind(TokenType::ID) && st.pos + 1 < st.tokens.len() && !st.next_is("("@) {
            lemma_token_is_neutral(st);
        } else if st.at("true"@) || st.at("false"@) {
            lemma_token_is_neutral(st);
        } else {
            lemma_func_is_balanced(st);
        }
    }
}

/// `unit` writes nothing, and its text is balanced.
pub proof fn lemma_unit_is_balanced(st: ParseState)
    requires
        st.wf(),
        clean_tokens(st.tokens),
    ensures
        text_balanced(st, spec_unit(st)),
    decreases st.remaining(), 2nat,
{
    if spec_unit(st) is Ok {
        if st.at("-"@) || st.at("++"@) || st.at("--"@) {
            lemma_token_is_neutral(st);
            let st1 = consume(st, TokenType::OPERATOR, None)->Ok_0;
            lemma_unit_is_balanced(st1);
        } else {
            lemma_factor_is_balanced(st);
        }
    }
}

/// `term` writes nothing, and its text is balanced.
pub proof fn lemma_term_is_balanced(st: ParseState)
    requires
        st.wf(),
        clean_tokens(st.tokens),
    ensures
        text_balanced(st, spec_term(st)),
    decreases st.remaining(), 3nat,
{
    if spec_term(st) is Ok {
        lemma_unit(st);
        lemma_unit_is_balanced(st);
        let st1 = spec_unit(st)->Ok_0.1;
        if st1.at("*"@) || st1.at("/"@) || st1.at("%"@) {
            lemma_token_is_neutral(st1);
            let st2 = consume(st1, TokenType::OPERATOR, None)->Ok_0;
            lemma_term_is_balanced(st2);
        }
    }
}

/// `bnr` writes nothing, and its text is balanced.
pub proof fn lemma_bnr_is_balanced(st: ParseState)
    requires
        st.wf(),
        clean_tokens(st.tokens),
    ensures
        text_balanced(st, spec_bnr(st)),
    decreases st.remaining(), 4nat,
{
    if spec_bnr(st) is Ok {
        lemma_term(st);
        lemma_term_is_balanced(st);
        let st1 = spec_term(st)->Ok_0.1;
        if st1.at("&"@) || st1.at("|"@) {
            lemma_token_is_neutral(st1);
            let st2 = consume(st1, TokenType::OPERATOR, None)->Ok_0;
            lemma_bnr_is_balanced(st2);
        }
    }
}

/// `expr` writes nothing, and its text is balanced.
pub proof fn lemma_expr_is_balanced(st: ParseState)
    requires
        st.wf(),
        clean_tokens(st.tokens),
    ensures
        text_balanced(st, spec_expr(st)),
    decreases st.remaining(), 5nat,
{
    if spec_expr(st) is Ok {
        lemma_bnr(st);
        lemma_bnr_is_balanced(st);
        let st1 = spec_bnr(st)->Ok_0.1;
        if st1.at("+"@) || st1.at("-"@) {
            lemma_token_is_neutral(st1);
            let st2 = consume(st1, TokenType::OPERATOR, None)->Ok_0;
            lemma_expr_is_balanced(st2);
        }
    }
}

/// `value` writes nothing, and its text is balanced.
pub proof fn lemma_value_is_balanced(st: ParseState)
    requires
        st.wf(),
        clean_tokens(st.tokens),
    ensures
        text_balanced(st, spec_value(st)),
    decreases st.remaining(), 6nat,
{
    if spec_value(st) is Ok {
        if st.at_kind(TokenType::STRING) {
            lemma_quoted_is_neutral(st.current().value);
        } else {
            lemma_expr_is_balanced(st);
        }
    }
}

/// `params` writes nothing, and its text is balanced.
pub proof fn lemma_params_is_balanced(st: ParseState)
    requires
        st.wf(),
        clean_tokens(st.tokens),
    ensures
        text_balanced(st, spec_params(st)),
    decreases st.remaining(), 7nat,
{
    lemma_words_are_neutral();
    if !st.at(")"@) && spec_params(st) is Ok {
        lemma_value(st);
        lemma_value_is_balanced(st);
        let st1 = spec_value(st)->Ok_0.1;
        if st1.at(","@) {
            let st2 = consume(st1, TokenType::SYMBOL, Some(","@))->Ok_0;
            lemma_params_is_balanced(st2);
        }
    }
}

/// `cmp` writes nothing, and its text is balanced.
pub proof fn lemma_cmp_is_balanced(st: ParseState)
    requires
        st.wf(),
        clean_tokens(st.tokens),
    ensures
        text_balanced(st, spec_cmp(st)),
    decreases st.remaining(), 8nat,
{
    lemma_words_are_neutral();
    if spec_cmp(st) is Ok {
        lemma_expr(st);
        lemma_expr_is_balanced(st);
        let st1 = spec_expr(st)->Ok_0.1;
        lemma_token_is_neutral(st1);
        let st2 = consume(st1, TokenType::COMPARATOR, None)->Ok_0;
        lemma_expr_is_balanced(st2);
    }
}

/// `equality` writes nothing, and its text is balanced.
pub proof fn lemma_equality_is_balanced(st: ParseState)
    requires
        st.wf(),
        clean_tokens(st.tokens),
    ensures
        text_balanced(st, spec_equality(st)),
    decreases st.remaining(), 9nat,
{
    lemma_words_are_neutral();
    if spec_equality(st) is Ok {
        lemma_cmp(st);
        lemma_cmp_is_balanced(st);
        let st1 = spec_cmp(st)->Ok_0.1;
        if st1.at("=="@) || st1.at("!="@) {
            lemma_token_is_neutral(st1);
            let st2 = consume(st1, TokenType::COMPARATOR, None)->Ok_0;
            lemma_equality_is_balanced(st2);
        }
    }
}

/// `join` writes nothing, and its text is balanced.
pub proof fn lemma_join_is_balanced(st: ParseState)
    requires
        st.wf(),
        clean_tokens(st.tokens),
    ensures
        text_balanced(st, spec_join(st)),
    decreases st.remaining(), 10nat,
{
    lemma_words_are_neutral();
    if spec_join(st) is Ok {
        lemma_equality(st);
        lemma_equality_is_balanced(st);
        let st1 = spec_equality(st)->Ok_0.1;
        if st1.at("&&"@) {
            lemma_token_is_neutral(st1);
            let st2 = consume(st1, TokenType::COMPARATOR, None)->Ok_0;
            lemma_join_is_balanced(st2);
        }
    }
}

/// `boolexpr` writes nothing, and its text is balanced.
pub proof fn lemma_boolexpr_is_balanced(st: ParseState)
    requires
        st.wf(),
        clean_tokens(st.tokens),
    ensures
        text_balanced(st, spec_boolexpr(st)),
    decreases st.remaining(), 11nat,
{
    lemma_words_are_neutral();
    if spec_boolexpr(st) is Ok {
        lemma_join(st);
        lemma_join_is_balanced(st);
        let st1 = spec_join(st)->Ok_0.1;
        if st1.at("||"@) {
            lemma_token_is_neutral(st1);
            let st2 = consume(st1, TokenType::COMPARATOR, None)->Ok_0;
            lemma_boolexpr_is_balanced(st2);
        }
    }
}

/// `condition` writes nothing, and its text is balanced.
pub proof fn lemma_condition_is_balanced(st: ParseState)
    requires
        st.wf(),
        clean_tokens(st.tokens),
    ensures
        text_balanced(st, spec_condition(st)),
    decreases st.remaining(), 12nat,
{
    if spec_condition(st) is Ok {
        let st1 = consume(st, TokenType::SYMBOL, Some("("@))->Ok_0;
        lemma_boolexpr(st1);
        lemma_boolexpr_is_balanced(st1);
    }
}

/// `asgn` writes a balanced text.
pub proof fn lemma_asgn_is_balanced(st: ParseState)
    requires
        st.wf(),
        clean_tokens(st.tokens),
    ensures
        step_balanced(st, spec_asgn(st)),
    decreases st.remaining(), 13nat,
{
    lemma_words_are_neutral();
    if spec_asgn(st) is Ok {
        lemma_token_is_neutral(st);
        let st1 = consume(st, TokenType::ID, None)->Ok_0;
        lemma_token_is_neutral(st1);
        let st2 = st1.advance();
        lemma_value(st2);
        lemma_value_is_balanced(st2);
    }
}

/// `return` writes a balanced text.
pub proof fn lemma_stmt_return_is_balanced(st: ParseState)
    requires
        st.wf(),
        clean_tokens(st.tokens),
    ensures
        step_balanced(st, spec_stmt_return(st)),
    decreases st.remaining(), 14nat,
{
    lemma_words_are_neutral();
    if spec_stmt_return(st) is Ok {
        let st1 = consume(st, TokenType::KEYWORD, Some("return"@))->Ok_0;
        if !st1.at(";"@) {
            lemma_value(st1);
            lemma_value_is_balanced(st1);
        }
    }
}

/// `block` writes a balanced text.
pub proof fn lemma_block_is_balanced(st: ParseState)
    requires
        st.wf(),
        clean_tokens(st.tokens),
    ensures
        step_balanced(st, spec_block(st)),
    decreases st.remaining(), 20nat,
{
    lemma_openers();
    lemma_closers();
    if spec_block(st) is Ok {
        let st1 = consume(
            st.with_scopes(push_scope(st.scopes)),
            TokenType::SYMBOL,
            Some("{"@),
        )->Ok_0;
        lemma_block_items(st1.emit("{\n"@));
        lemma_block_items_is_balanced(st1.emit("{\n"@));
    }
}

/// `for` writes a balanced text.
pub proof fn lemma_stmt_for_is_balanced(st: ParseState)
    requires
        st.wf(),
        clean_tokens(st.tokens),
    ensures
        step_balanced(st, spec_stmt_for(st)),
    decreases st.remaining(), 21nat,
{
    lemma_words_are_neutral();
    lemma_openers();
    lemma_closers();
    if spec_stmt_for(st) is Ok {
        let st1 = consume(st, TokenType::KEYWORD, Some("for"@))->Ok_0;
        let st2 = consume(st1, TokenType::SYMBOL, Some("("@))->Ok_0;
        lemma_asgn(st2.emit("for("@));
        lemma_asgn_is_balanced(st2.emit("for("@));
        let st3 = spec_asgn(st2.emit("for("@))->Ok_0;
        lemma_boolexpr(st3);
        lemma_boolexpr_is_balanced(st3);
        let condition = spec_boolexpr(st3)->Ok_0.0;
        let st4 = spec_boolexpr(st3)->Ok_0.1;
        let st5 = consume(st4, TokenType::SYMBOL, Some(")"@))->Ok_0;
        lemma_block_is_balanced(st5.emit(" "@ + condition + " ;)"@));
    }
}

/// `if` writes a balanced text.
pub proof fn lemma_stmt_if_is_balanced(st: ParseState)
    requires
        st.wf(),
        clean_tokens(st.tokens),
    ensures
        step_balanced(st, spec_stmt_if(st)),
    decreases st.remaining(), 21nat,
{
    lemma_words_are_neutral();
    lemma_openers();
    lemma_closers();
    if spec_stmt_if(st) is Ok {
        let st1 = consume(st, TokenType::KEYWORD, Some("if"@))->Ok_0;
        lemma_condition(st1);
        lemma_condition_is_balanced(st1);
        let condition = spec_condition(st1)->Ok_0.0;
        let st2 = spec_condition(st1)->Ok_0.1;
        let written = st2.emit("if ("@ + condition + ")"@);
        lemma_block(written);
        lemma_block_is_balanced(written);
        let st3 = spec_block(written)->Ok_0;
        if st3.at("else"@) {
            let st4 = consume(st3, TokenType::KEYWORD, Some("else"@))->Ok_0;
            lemma_block_is_balanced(st4.emit("else "@));
        }
    }
}

/// `while` writes a balanced text.
pub proof fn lemma_stmt_while_is_balanced(st: ParseState)
    requires
        st.wf(),
        clean_tokens(st.tokens),
    ensures
        step_balanced(st, spec_stmt_while(st)),
    decreases st.remaining(), 21nat,
{
    lemma_openers();
    lemma_closers();
    if spec_stmt_while(st) is Ok {
        let st1 = consume(st, TokenType::KEYWORD, Some("while"@))->Ok_0;
        lemma_condition(st1);
        lemma_condition_is_balanced(st1);
        let condition = spec_condition(st1)->Ok_0.0;
        let st2 = spec_condition(st1)->Ok_0.1;
        lemma_block_is_balanced(st2.emit("while("@ + condition + ") "@));
    }
}

/// `do-while` writes a balanced text.
pub proof fn lemma_stmt_do_while_is_balanced(st: ParseState)
    requires
        st.wf(),
        clean_tokens(st.tokens),
    ensures
        step_balanced(st, spec_stmt_do_while(st)),
    decreases st.remaining(), 21nat,
{
    lemma_words_are_neutral();
    lemma_openers();
    lemma_closers();
    if spec_stmt_do_while(st) is Ok {
        let st1 = consume(st, TokenType::KEYWORD, Some("do"@))->Ok_0;
        lemma_block(st1.emit("do "@));
        lemma_block_is_balanced(st1.emit("do "@));
        let st2 = spec_block(st1.emit("do "@))->Ok_0;
        let st3 = consume(st2, TokenType::KEYWORD, Some("while"@))->Ok_0;
        lemma_condition(st3);
        lemma_condition_is_balanced(st3);
    }
}

/// `funcdecl` writes a balanced text.
pub proof fn lemma_funcdecl_is_balanced(st: ParseState)
    requires
        st.wf(),
        clean_tokens(st.tokens),
    ensures
        step_balanced(st, spec_funcdecl(st)),
    decreases st.remaining(), 21nat,
{
    if spec_funcdecl(st) is Ok {
        lemma_funcheader(st);
        lemma_funcheader_is_balanced(st);
        lemma_block_is_balanced(spec_funcheader(st)->Ok_0);
    }
}

/// `stmt` writes a balanced text.
pub proof fn lemma_stmt_is_balanced(st: ParseState)
    requires
        st.wf(),
        clean_tokens(st.tokens),
    ensures
        step_balanced(st, spec_stmt(st)),
    decreases st.remaining(), 22nat,
{
    lemma_words_are_neutral();
    if spec_stmt(st) is Ok {
        if st.at_kind(TokenType::ID) {
            if st.next_is("("@) {
                lemma_func(st);
                lemma_func_is_balanced(st);
            } else {
                lemma_asgn(st);
                lemma_asgn_is_balanced(st);
            }
        } else if st.at("{"@) {
            lemma_block_is_balanced(st);
        } else if st.at("for"@) {
            lemma_stmt_for_is_balanced(st);
        } else if st.at("if"@) {
            lemma_stmt_if_is_balanced(st);
        } else if st.at("while"@) {
            lemma_stmt_while_is_balanced(st);
        } else if st.at("do"@) {
            lemma_stmt_do_while_is_balanced(st);
        } else if st.at("func"@) {
            lemma_funcdecl_is_balanced(st);
        } else if st.at("break"@) {
        } else if st.at("continue"@) {
        } else {
            lemma_stmt_return_is_balanced(st);
        }
    }
}

/// `stmts` writes a balanced text.
pub proof fn lemma_stmts_is_balanced(st: ParseState)
    requires
        st.wf(),
        clean_tokens(st.tokens),
    ensures
        step_balanced(st, spec_stmts(st)),
    decreases st.remaining(), 23nat,
{
    if starts_statement(st.current()) {
        lemma_stmt(st);
        lemma_stmt_is_balanced(st);
        match spec_stmt(st) {
            Ok(st1) => {
                if st1.after(st) {
                    lemma_stmts_is_balanced(st1);
                }
            },
            Err(_) => {},
        }
    }
}

/// `segment` writes a balanced text.
pub proof fn lemma_segment_is_balanced(st: ParseState)
    requires
        st.wf(),
        clean_tokens(st.tokens),
    ensures
        step_balanced(st, spec_segment(st)),
    decreases st.remaining(), 24nat,
{
    if st.at("{"@) {
        lemma_block(st);
        lemma_block_is_balanced(st);
    }
    let after_block = if st.at("{"@) {
        spec_block(st)
    } else {
        Ok(st)
    };
    match after_block {
        Ok(st1) => {
            if st1.at_kind(TokenType::TYPE) {
                lemma_decls(st1);
                lemma_decls_is_balanced(st1);
            }
            let after_decls = if st1.at_kind(TokenType::TYPE) {
                spec_decls(st1)
            } else {
                Ok(st1)
            };
            match after_decls {
                Ok(st2) => {
                    if st2.follows(st) {
                        lemma_stmts_is_balanced(st2);
                    }
                },
                Err(_) => {},
            }
        },
        Err(_) => {},
    }
}

/// The inside of a block is a balanced text.
pub proof fn lemma_block_items_is_balanced(st: ParseState)
    requires
        st.wf(),
        clean_tokens(st.tokens),
    ensures
        step_balanced(st, spec_block_items(st)),
    decreases st.remaining(), 25nat,
{
    if !st.at("}"@) {
        lemma_segment(st);
        lemma_segment_is_balanced(st);
        match spec_segment(st) {
            Ok(st1) => {
                if st1.after(st) {
                    lemma_block_items_is_balanced(st1);
                }
            },
            Err(_) => {},
        }
    }
}

/// `program` writes a balanced text.
pub proof fn lemma_program_is_balanced(st: ParseState)
    requires
        st.wf(),
        clean_tokens(st.tokens),
    ensures
        step_balanced(st, spec_program(st)),
    decreases st.remaining(), 25nat,
{
    lemma_segment(st);
    lemma_segment_is_balanced(st);
    match spec_segment(st) {
        Ok(st1) => {
            if !st1.at_kind(TokenType::EOF) && st1.after(st) {
                lemma_program_is_balanced(st1);
            }
        },
        Err(_) => {},
    }
}

/// The function declarations are a balanced text.
pub proof fn lemma_funcdecls_is_balanced(st: ParseState)
    requires
        st.wf(),
        clean_tokens(st.tokens),
    ensures
        step_balanced(st, spec_funcdecls(st)),
    decreases st.remaining(), 25nat,
{
    if st.at("func"@) {
        lemma_funcdecl(st);
        lemma_funcdecl_is_balanced(st);
        match spec_funcdecl(st) {
            Ok(st1) => {
                if st1.after(st) {
                    lemma_funcdecls_is_balanced(st1);
                }
            },
            Err(_) => {},
        }
    }
}

/// What a parse writes is well-formed as far as brackets go: where the
/// tokens are clean, a parse that succeeds adds a text in which, outside
/// string literals, every `{` and every `(` has its matching closer in
/// nesting order.
pub proof fn lemma_parse_is_balanced(st: ParseState)
    requires
        st.wf(),
        clean_tokens(st.tokens),
    ensures
        step_balanced(st, spec_start(st)),
{
    lemma_entry_point();
    if spec_start(st) is Ok {
        lemma_funcdecls(st.blank());
        lemma_funcdecls_is_balanced(st.blank());
        let st1 = spec_funcdecls(st.blank())->Ok_0;
        lemma_program_is_balanced(st1.blank());
        let st2 = spec_program(st1.blank())->Ok_0;
        assert(neutral(st1.code)) by {
            assert forall|level: Level| level.good() implies #[trigger] scan(level, st1.code)
                == level by {
                assert(scan(level, st.blank().code) == level);
            }
        }
        assert(neutral(st2.code)) by {
            assert forall|level: Level| level.good() implies #[trigger] scan(level, st2.code)
                == level by {
                assert(scan(level, st1.blank().code) == level);
            }
        }
    }
}

/// A parse that succeeds leaves the brackets as it found them: what it adds
/// to a text that ends outside a string literal closes what it opens.
pub proof fn lemma_parse_keeps_level(st: ParseState)
    requires
        st.wf(),
        clean_tokens(st.tokens),
        level_of(st.code).good(),
        spec_start(st) is Ok,
    ensures
        level_of(spec_start(st)->Ok_0.code) == level_of(st.code),
{
    lemma_parse_is_balanced(st);
    assert(scan(Level::start(), spec_start(st)->Ok_0.code) == scan(Level::start(), st.code));
}

/// The translation of a whole program is well-formed as far as brackets go:
/// where the tokens are clean and the parse succeeds, every bracket outside
/// string literals has its matching closer in nesting order, and every string
/// literal is closed.
pub proof fn lemma_translation_brackets_match(tokens: Seq<TokenView>)
    requires
        initial_state(tokens).wf(),
        clean_tokens(tokens),
        spec_start(initial_state(tokens)) is Ok,
    ensures
        brackets_match(spec_start(initial_state(tokens))->Ok_0.code),
{
    let st = initial_state(tokens);
    lemma_parse_is_balanced(st);
    lemma_heading_is_neutral();
    assert(scan(Level::start(), st.code) == Level::start());
}

} // verus!
