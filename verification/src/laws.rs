//! What holds of the lexer, the scopes and the parser whatever the program.

use vstd::prelude::*;
use crate::error::{JuvinilErrorView, JuvinilResult};
use crate::lexical_analysis::lex::{
    lemma_line_end_bounds, lemma_word_end_bounds, line_end, next_line,
    spec_pre_process_line, spec_tokenize, split_symbols_from, symbol_len, tokenize_from,
    tokenize_line, tokenize_result, word_end, words_from,
};
use crate::lexical_analysis::token::{Token, TokenType, TokenView, tokens_view};
use crate::syntax_analysis::grammar::{
    Failure, MAIN_CLOSE, MAIN_OPEN, PREAMBLE, ParseState, consume, declared_name, fail,
    initial_state, spec_asgn, spec_bnr, spec_expr, spec_factor, spec_func, spec_funcdecls,
    spec_funcheader, spec_jvtype, spec_paramsdecl, spec_program, spec_start, spec_stmt,
    spec_term, spec_unit, spec_value, starts_statement,
};
use crate::syntax_analysis::scope::{
    FunctionView, ScopeView, VariableView, assert_assigned, assign, declare_parameter,
    declare_variable, function_below, function_from, is_assigned, lookup_function,
    lookup_variable, push_scope, variable_below, variable_from,
};
use crate::text::{char_is_whitespace, count_char};

verus! {

// The lexer.

/// Lexing is a function of the source text: two runs on the same text end
/// alike, with the same tokens or with the same error.
pub proof fn lemma_tokenize_twice(
    source: Seq<char>,
    first: JuvinilResult<Vec<Token>>,
    second: JuvinilResult<Vec<Token>>,
)
    requires
        tokenize_result(source, first),
        tokenize_result(source, second),
    ensures
        first is Ok <==> second is Ok,
        first is Ok ==> tokens_view(first->Ok_0@) == tokens_view(second->Ok_0@),
        first is Err ==> first->Err_0@ == second->Err_0@,
{
}

/// A line with an odd number of double quotes is an `UnclosedString` error
/// that carries the number of the line: its index and one.
pub proof fn lemma_odd_quotes_unclosed(line: Seq<char>, index: usize)
    requires
        index < usize::MAX,
        count_char(line, '"') % 2 != 0,
    ensures
        spec_pre_process_line(line, index) == Err::<Seq<Seq<char>>, JuvinilErrorView>(
            JuvinilErrorView::UnclosedString((index + 1) as usize),
        ),
{
}

/// Lexing stops at the first line with an odd number of double quotes: where
/// the lines before `from` were read and the line that starts at `from` is
/// such a line, the outcome is an `UnclosedString` error with its number.
pub proof fn lemma_unclosed_string_ends_lexing(
    source: Seq<char>,
    from: int,
    lines: nat,
    done: Seq<TokenView>,
)
    requires
        0 <= from < source.len(),
        lines < usize::MAX,
        count_char(source.subrange(from, line_end(source, from)), '"') % 2 != 0,
    ensures
        tokenize_from(source, from, lines, done) == Err::<Seq<TokenView>, JuvinilErrorView>(
            JuvinilErrorView::UnclosedString((lines + 1) as usize),
        ),
{
}

/// Whatever lines are read, the tokens end with the end marker.
pub proof fn lemma_tokens_end_with_marker(
    source: Seq<char>,
    from: int,
    lines: nat,
    done: Seq<TokenView>,
)
    requires
        0 <= from,
        tokenize_from(source, from, lines, done) is Ok,
    ensures
        tokenize_from(source, from, lines, done)->Ok_0.len() > 0,
        tokenize_from(source, from, lines, done)->Ok_0.last().token_type == TokenType::EOF,
    decreases source.len() - from,
{
    if from < source.len() {
        lemma_line_end_bounds(source, from);
        let read = tokenize_line(source.subrange(from, line_end(source, from)), lines, done)->Ok_0;
        lemma_tokens_end_with_marker(source, next_line(source, from), lines + 1, read);
    }
}

/// The tokens of a program that was lexed are what the parser asks for: it
/// starts from them in a well-formed state.
pub proof fn lemma_lexed_tokens_are_well_formed(source: Seq<char>)
    requires
        spec_tokenize(source) is Ok,
    ensures
        initial_state(spec_tokenize(source)->Ok_0).wf(),
{
    lemma_tokens_end_with_marker(source, 0, 0, Seq::empty());
}

/// A word holds no white space up to its end.
pub proof fn lemma_word_holds_no_whitespace(line: Seq<char>, from: int, at: int)
    requires
        0 <= from <= at < word_end(line, from),
    ensures
        !char_is_whitespace(line[at]),
    decreases line.len() - from,
{
    lemma_word_end_bounds(line, from);
    if from < at {
        lemma_word_holds_no_whitespace(line, from + 1, at);
    }
}

/// A word: characters, at least one, none of them white space.
pub open spec fn is_word(text: Seq<char>) -> bool {
    text.len() > 0 && forall|k: int| 0 <= k < text.len() ==> !char_is_whitespace(#[trigger] text[k])
}

/// The words of a line are not empty and hold no white space.
pub proof fn lemma_words_are_words(line: Seq<char>, from: int)
    requires
        0 <= from <= line.len(),
    ensures
        forall|i: int|
            0 <= i < words_from(line, from).len() ==> is_word(#[trigger] words_from(line, from)[i]),
    decreases line.len() - from,
{
    if from < line.len() {
        if char_is_whitespace(line[from]) {
            lemma_words_are_words(line, from + 1);
            assert(words_from(line, from) == words_from(line, from + 1));
        } else {
            let end = word_end(line, from);
            lemma_word_end_bounds(line, from);
            lemma_words_are_words(line, end);
            let word = line.subrange(from, end);
            let rest = words_from(line, end);
            assert(words_from(line, from) =~= seq![word] + rest);
            assert forall|k: int| 0 <= k < word.len() implies !char_is_whitespace(
                #[trigger] word[k],
            ) by {
                lemma_word_holds_no_whitespace(line, from, from + k);
            }
            assert(is_word(word));
            assert forall|i: int| 0 <= i < words_from(line, from).len() implies is_word(
                #[trigger] words_from(line, from)[i],
            ) by {
                if i > 0 {
                    assert(words_from(line, from)[i] == rest[i - 1]);
                }
            }
        }
    }
}

/// The pieces put together again.
pub open spec fn joined(pieces: Seq<Seq<char>>) -> Seq<char>
    decreases pieces.len(),
{
    if pieces.len() == 0 {
        Seq::empty()
    } else {
        joined(pieces.drop_last()) + pieces.last()
    }
}

/// Cutting a word at its special symbols loses nothing and yields no empty
/// piece: the pieces, put together again, are the word.
pub proof fn lemma_split_symbols_rejoins(
    word: Seq<char>,
    from: int,
    start: int,
    done: Seq<Seq<char>>,
)
    requires
        0 <= start <= from <= word.len(),
        forall|i: int| 0 <= i < done.len() ==> (#[trigger] done[i]).len() > 0,
    ensures
        joined(split_symbols_from(word, from, start, done)) == joined(done) + word.subrange(
            start,
            word.len() as int,
        ),
        forall|i: int|
            0 <= i < split_symbols_from(word, from, start, done).len() ==> (
            #[trigger] split_symbols_from(word, from, start, done)[i]).len() > 0,
    decreases word.len() - from,
{
    let rest = word.subrange(start, word.len() as int);
    if from >= word.len() {
        if start < word.len() {
            assert(done.push(rest).drop_last() =~= done);
        } else {
            assert(joined(done) + rest =~= joined(done));
        }
    } else if symbol_len(word, from) > 0 {
        let end = from + symbol_len(word, from);
        let symbol = word.subrange(from, end);
        let piece = word.subrange(start, from);
        let before = if start < from {
            done.push(piece)
        } else {
            done
        };
        if start < from {
            assert(before.drop_last() =~= done);
        } else {
            assert(joined(done) + piece =~= joined(done));
        }
        assert(joined(before) == joined(done) + piece);
        assert(before.push(symbol).drop_last() =~= before);
        lemma_split_symbols_rejoins(word, end, end, before.push(symbol));
        assert(joined(done) + piece + symbol + word.subrange(end, word.len() as int) =~= joined(
            done,
        ) + rest);
    } else {
        lemma_split_symbols_rejoins(word, from + 1, start, done);
    }
}

// The scopes.

/// A variable that was added at the end of a scope which did not hold its
/// name is found there.
pub proof fn lemma_variable_from_push(
    variables: Seq<VariableView>,
    variable: VariableView,
    from: int,
)
    requires
        0 <= from <= variables.len(),
        variable_from(variables, variable.var_name, from) is None,
    ensures
        variable_from(variables.push(variable), variable.var_name, from) == Some(
            variables.len() as int,
        ),
    decreases variables.len() - from,
{
    if from < variables.len() {
        lemma_variable_from_push(variables, variable, from + 1);
    }
}

/// Declaring a name twice in the same scope fails: the second declaration is
/// a `DuplicateVariable` error on its line.
pub proof fn lemma_redeclaration_fails(
    scopes: Seq<ScopeView>,
    first_type: Seq<char>,
    second_type: Seq<char>,
    name: Seq<char>,
    first_line: usize,
    second_line: usize,
)
    requires
        scopes.len() >= 1,
        declare_variable(scopes, first_type, name, first_line) is Ok,
    ensures
        declare_variable(
            declare_variable(scopes, first_type, name, first_line)->Ok_0,
            second_type,
            name,
            second_line,
        ) == Err::<Seq<ScopeView>, JuvinilErrorView>(
            JuvinilErrorView::DuplicateVariable(name, second_line),
        ),
{
    let variable = VariableView { var_type: first_type, var_name: name, assigned: false };
    lemma_variable_from_push(scopes.last().variables, variable, 0);
}

/// A nested scope may declare any name, whatever the scopes around it hold:
/// shadowing is no error.
pub proof fn lemma_shadowing_succeeds(
    scopes: Seq<ScopeView>,
    var_type: Seq<char>,
    name: Seq<char>,
    line: usize,
)
    ensures
        declare_variable(push_scope(scopes), var_type, name, line) is Ok,
{
}

/// A variable that has just been declared is not assigned: reading it is an
/// `UnassignedVariable` error.
pub proof fn lemma_declared_is_unassigned(
    scopes: Seq<ScopeView>,
    var_type: Seq<char>,
    name: Seq<char>,
    line: usize,
    read_line: usize,
)
    requires
        scopes.len() >= 1,
        declare_variable(scopes, var_type, name, line) is Ok,
    ensures
        assert_assigned(declare_variable(scopes, var_type, name, line)->Ok_0, name, read_line)
            == Err::<(), JuvinilErrorView>(JuvinilErrorView::UnassignedVariable(name, read_line)),
{
    let variable = VariableView { var_type, var_name: name, assigned: false };
    lemma_variable_from_push(scopes.last().variables, variable, 0);
    let declared = declare_variable(scopes, var_type, name, line)->Ok_0;
    assert(declared.last().variables =~= scopes.last().variables.push(variable));
    assert(variable_below(declared, name, declared.len() as int) == Some(
        (declared.len() - 1, scopes.last().variables.len() as int),
    ));
}

/// A name is found where the chain is searched only as far as it reaches,
/// and it is found in a scope that holds it.
pub proof fn lemma_variable_below_in_range(scopes: Seq<ScopeView>, name: Seq<char>, depth: int)
    requires
        0 <= depth <= scopes.len(),
    ensures
        match variable_below(scopes, name, depth) {
            Some((found, index)) => 0 <= found < depth && scopes[found].variable_index(name)
                == Some(index),
            None => true,
        },
    decreases depth,
{
    if depth > 0 && scopes[depth - 1].variable_index(name) is None {
        lemma_variable_below_in_range(scopes, name, depth - 1);
    }
}

/// A function of a given name is found wherever the scope holds one.
pub proof fn lemma_function_from_finds(
    functions: Seq<FunctionView>,
    name: Seq<char>,
    from: int,
    held: int,
)
    requires
        0 <= from <= held < functions.len(),
        functions[held].func_name == name,
    ensures
        function_from(functions, name, from) is Some,
    decreases functions.len() - from,
{
    if functions[from].func_name != name {
        lemma_function_from_finds(functions, name, from + 1, held);
    }
}

// The parser.

/// Assigning to a name that no enclosing scope declares is an
/// `UndeclaredVariable` error on the line of the name.
pub proof fn lemma_assignment_needs_declaration(st: ParseState)
    requires
        lookup_variable(st.scopes, st.current().value) is None,
    ensures
        spec_asgn(st) == Err::<ParseState, Failure>(
            fail(st, JuvinilErrorView::UndeclaredVariable(st.current().value, st.line())),
        ),
        assign(st.scopes, st.current().value, st.line()) == Err::<
            Seq<ScopeView>,
            JuvinilErrorView,
        >(JuvinilErrorView::UndeclaredVariable(st.current().value, st.line())),
{
}

/// Where an expression reads a variable that is not assigned, be it declared
/// or not, the parse ends with an `UnassignedVariable` error on that line.
pub proof fn lemma_read_needs_assignment(st: ParseState)
    requires
        st.wf(),
        st.at_kind(TokenType::ID),
        !st.next_is("("@),
        !st.at("("@),
        !is_assigned(st.scopes, st.current().value),
    ensures
        spec_factor(st) == Err::<(Seq<char>, ParseState), Failure>(
            fail(st, JuvinilErrorView::UnassignedVariable(st.current().value, st.line())),
        ),
{
}

/// Calling a function that no enclosing scope declares, and that is not
/// `printf`, is an `UndeclaredFunction` error; nothing is read.
pub proof fn lemma_call_needs_declaration(st: ParseState)
    requires
        st.current().value != "printf"@,
        lookup_function(st.scopes, st.current().value) is None,
    ensures
        spec_func(st) == Err::<(Seq<char>, ParseState), Failure>(
            fail(st, JuvinilErrorView::UndeclaredFunction(st.current().value, st.line())),
        ),
{
}

/// Where a statement is asked for and the current token can start none, the
/// outcome is a syntax error that asks for `return`; nothing is read or
/// written.
pub proof fn lemma_statement_needs_a_start(st: ParseState)
    requires
        !starts_statement(st.current()),
    ensures
        spec_stmt(st) == Err::<ParseState, Failure>(
            fail(
                st,
                JuvinilErrorView::SyntaxError(
                    TokenType::KEYWORD,
                    "return"@,
                    st.current(),
                    st.line(),
                ),
            ),
        ),
{
}

/// A value that starts with the name of a variable that is not assigned is
/// an `UnassignedVariable` error, met on that name.
pub proof fn lemma_value_needs_assignment(st: ParseState)
    requires
        st.wf(),
        st.at_kind(TokenType::ID),
        !st.next_is("("@),
        !st.at("("@),
        !st.at("-"@),
        !st.at("++"@),
        !st.at("--"@),
        !is_assigned(st.scopes, st.current().value),
    ensures
        spec_value(st) == Err::<(Seq<char>, ParseState), Failure>(
            fail(st, JuvinilErrorView::UnassignedVariable(st.current().value, st.line())),
        ),
{
    lemma_read_needs_assignment(st);
    assert(spec_unit(st) == spec_factor(st));
    assert(spec_term(st) == Err::<(Seq<char>, ParseState), Failure>(spec_factor(st)->Err_0));
    assert(spec_bnr(st) == Err::<(Seq<char>, ParseState), Failure>(spec_factor(st)->Err_0));
    assert(spec_expr(st) == Err::<(Seq<char>, ParseState), Failure>(spec_factor(st)->Err_0));
}

/// A variable counts as assigned only once its assignment is read to the
/// end: an assignment whose value reads the variable itself, while nothing
/// was assigned to it before, is an `UnassignedVariable` error met on the
/// name in the value, and the scopes are as they were.
pub proof fn lemma_assignment_reads_before_it_assigns(st: ParseState)
    requires
        st.wf(),
        st.at_kind(TokenType::ID),
        lookup_variable(st.scopes, st.current().value) is Some,
        !is_assigned(st.scopes, st.current().value),
        st.advance().at_kind(TokenType::OPERATOR),
        st.advance().at("="@) || st.advance().at("+="@) || st.advance().at("-="@),
        st.advance().advance().at_kind(TokenType::ID),
        st.advance().advance().at(st.current().value),
        !st.advance().advance().next_is("("@),
        !st.at("("@),
        !st.at("-"@),
        !st.at("++"@),
        !st.at("--"@),
    ensures
        spec_asgn(st) == Err::<ParseState, Failure>(
            fail(
                st.advance().advance(),
                JuvinilErrorView::UnassignedVariable(
                    st.current().value,
                    st.advance().advance().line(),
                ),
            ),
        ),
        spec_asgn(st)->Err_0.state.scopes == st.scopes,
{
    let st1 = st.advance();
    let st2 = st1.advance();
    assert(consume(st, TokenType::ID, None) == Ok::<ParseState, Failure>(st1));
    assert(st2.wf() && st2.follows(st));
    lemma_value_needs_assignment(st2);
}

/// Declaring parameters leaves the depth of the chain and the functions of
/// every scope as they were.
pub proof fn lemma_parameters_leave_functions(st: ParseState)
    requires
        st.scopes.len() >= 1,
        spec_paramsdecl(st) is Ok,
    ensures
        spec_paramsdecl(st)->Ok_0.1.scopes.len() == st.scopes.len(),
        forall|depth: int|
            0 <= depth < st.scopes.len() ==> (#[trigger] spec_paramsdecl(
                st,
            )->Ok_0.1.scopes[depth]).functions == st.scopes[depth].functions,
    decreases st.remaining(),
{
    if !st.at(")"@) {
        let typed = spec_jvtype(st)->Ok_0.1;
        let ty = spec_jvtype(st)->Ok_0.0;
        assert(typed.scopes == st.scopes);
        let name = typed.current().value;
        let scopes = declare_parameter(typed.scopes, ty.name, name, typed.line())->Ok_0;
        assert(scopes.len() == st.scopes.len());
        assert forall|depth: int| 0 <= depth < st.scopes.len() implies (#[trigger] scopes[depth]).functions
            == st.scopes[depth].functions by {}
        let named = consume(
            typed,
            TokenType::ID,
            None,
        )->Ok_0.with_scopes(scopes);
        if named.at(","@) {
            let next = consume(
                named,
                TokenType::SYMBOL,
                Some(","@),
            )->Ok_0;
            if next.after(st) {
                lemma_parameters_leave_functions(next);
            }
        }
    }
}

/// A function is visible from the end of its header on: when its body
/// starts, its name resolves, so the body may call the function itself.
pub proof fn lemma_function_visible_in_its_body(st: ParseState)
    requires
        st.scopes.len() >= 1,
        spec_funcheader(st) is Ok,
    ensures
        lookup_function(spec_funcheader(st)->Ok_0.scopes, declared_name(st)) is Some,
{
    let st1 = consume(
        st,
        TokenType::KEYWORD,
        Some("func"@),
    )->Ok_0;
    let st2 = spec_jvtype(st1)->Ok_0.1;
    let name = st2.current().value;
    assert(name == declared_name(st));
    let st3 = consume(st2, TokenType::ID, None)->Ok_0;
    assert(st3.scopes == st.scopes);
    let st4 = consume(
        st3.with_scopes(push_scope(st3.scopes)),
        TokenType::SYMBOL,
        Some("("@),
    )->Ok_0;
    assert(st4.scopes == push_scope(st.scopes));
    lemma_parameters_leave_functions(st4);
    let st5 = spec_paramsdecl(st4)->Ok_0.1;
    let st6 = consume(
        st5,
        TokenType::SYMBOL,
        Some(")"@),
    )->Ok_0;
    let end = spec_funcheader(st)->Ok_0;
    let inner = st.scopes.len() as int;
    assert(st6.scopes.len() == inner + 1);
    assert(st6.scopes[inner].functions == st4.scopes[inner].functions);
    assert(end.scopes[inner].functions =~= Seq::empty());
    let outer = end.scopes[inner - 1].functions;
    assert(outer.len() > 0 && outer.last().func_name == name);
    lemma_function_from_finds(outer, name, 0, outer.len() - 1);
    assert(function_below(end.scopes, name, inner + 1) == function_below(end.scopes, name, inner));
}

/// A successful parse adds to the translation the functions of the program
/// and then the rest of it inside the entry point, which is opened once and
/// closed once. The translation is never empty.
pub proof fn lemma_translation_shape(st: ParseState)
    requires
        spec_start(st) is Ok,
    ensures
        spec_start(st)->Ok_0.code.len() > 0,
        exists|functions: Seq<char>, program: Seq<char>|
            spec_start(st)->Ok_0.code == st.code + functions + MAIN_OPEN@ + program + MAIN_CLOSE@,
{
    reveal_strlit("int main() {\n");
    let end = spec_start(st)->Ok_0;
    let st1 = spec_funcdecls(st.blank())->Ok_0;
    let st2 = spec_program(st1.blank())->Ok_0;
    assert(end.code == st.code + st1.code + MAIN_OPEN@ + st2.code + MAIN_CLOSE@);
}

/// The translation of a whole program starts with the heading.
pub proof fn lemma_translation_heading(tokens: Seq<TokenView>)
    requires
        spec_start(initial_state(tokens)) is Ok,
    ensures
        exists|functions: Seq<char>, program: Seq<char>|
            spec_start(initial_state(tokens))->Ok_0.code == PREAMBLE@ + functions + MAIN_OPEN@
                + program + MAIN_CLOSE@,
{
    lemma_translation_shape(initial_state(tokens));
}

} // verus!
