//! The parser: it walks the tokens once, production by production, checks
//! declarations and uses against the scopes, and writes the translation as it
//! goes. The first error ends the parse.
//!
//! Every production is a method that is proved to do exactly what the
//! function of the same name in [`crate::syntax_analysis::grammar`] says: it
//! ends in the state that the function gives, with the same text or with the
//! same error. After an error the parser stands where the error was met.

use vstd::prelude::*;
use crate::error::{JuvinilError, JuvinilErrorView, JuvinilResult};
use crate::lexical_analysis::token::{Token, TokenType, eof_token, tokens_view};
use crate::syntax_analysis::grammar::{
    Failure, MAIN_CLOSE, MAIN_OPEN, PREAMBLE, ParametersView, ParseState, Parsed, Step, TypeView,
    consume, fail, initial_state, kept, moved, spec_asgn, spec_block, spec_block_items, spec_bnr,
    spec_boolexpr, spec_cmp, spec_condition, spec_decl, spec_decls, spec_endexpr, spec_equality,
    spec_expr, spec_factor, spec_func, spec_funcdecl, spec_funcdecls, spec_funcheader,
    spec_join, spec_jvtype, spec_params, spec_paramsdecl, spec_program, spec_segment,
    spec_start, spec_stmt, spec_stmt_do_while, spec_stmt_for, spec_stmt_if, spec_stmt_return,
    spec_stmt_while, spec_stmts, spec_term, spec_unit, spec_value, starts_statement,
    target_type,
};
use crate::syntax_analysis::scope::{
    FunctionView, JvFunction, JvVariable, Scope, ScopeView, assert_assigned, assign,
    function_below, lookup_function,
    lookup_variable, pop_scope, push_scope, scopes_view, variable_below,
};
use crate::syntax_analysis::balance::{clean_tokens, lemma_parse_keeps_level};
use crate::syntax_analysis::brackets::level_of;
use crate::syntax_analysis::append::lemma_parse_is_append_only;
use crate::text::{grows, quote, str_equal, strings_view};

verus! {

/// The parser and its state.
pub struct Parser {
    /// The tokens that the lexer produced.
    tokens: Vec<Token>,
    /// The place of the current token.
    pos: usize,
    /// The chain of scopes, outermost first.
    scopes: Vec<Scope>,
    /// The translation written so far.
    intermediary_code: String,
}

/// What an optional text stands for.
pub open spec fn text_view(text: Option<&str>) -> Option<Seq<char>> {
    match text {
        Some(t) => Some(t@),
        None => None,
    }
}

/// The parser ended as `expected` says: in the state `end`, be it with
/// success or with the error.
pub open spec fn step_of(r: JuvinilResult<()>, end: ParseState, expected: Step) -> bool {
    match r {
        Ok(_) => expected == Ok::<ParseState, Failure>(end),
        Err(e) => expected == Err::<ParseState, Failure>(fail(end, e@)),
    }
}

/// The parser ended as `expected` says: in the state `end`, with the text or
/// with the error.
pub open spec fn text_of(r: JuvinilResult<String>, end: ParseState, expected: Parsed<Seq<char>>)
    -> bool {
    match r {
        Ok(text) => expected == Ok::<(Seq<char>, ParseState), Failure>((text@, end)),
        Err(e) => expected == Err::<(Seq<char>, ParseState), Failure>(fail(end, e@)),
    }
}

// The cursor, the scopes and the text.
impl Parser {
    /// What the parser knows.
    pub closed spec fn view(&self) -> ParseState {
        ParseState {
            tokens: tokens_view(self.tokens@),
            pos: self.pos as int,
            scopes: scopes_view(self.scopes@),
            code: self.intermediary_code@,
        }
    }

    /// The cursor is on a token, the last token is the end marker, and there
    /// is a scope to declare in: what [`Parser::new`] sets up and every
    /// method keeps.
    pub closed spec fn wf(&self) -> bool {
        &&& self.pos < self.tokens@.len()
        &&& self.tokens@.last().token_type == TokenType::EOF
        &&& self.scopes@.len() >= 1
    }

    /// The current token.
    fn current(&self) -> (token: &Token)
        requires
            self.wf(),
        ensures
            token@ == self@.current(),
    {
        &self.tokens[self.pos]
    }

    /// Whether the current token reads `text`.
    fn at(&self, text: &str) -> (r: bool)
        requires
            self.wf(),
        ensures
            r == self@.at(text@),
    {
        str_equal(self.tokens[self.pos].value.as_str(), text)
    }

    /// Whether the current token is of the kind `kind`.
    fn at_kind(&self, kind: TokenType) -> (r: bool)
        requires
            self.wf(),
        ensures
            r == self@.at_kind(kind),
    {
        self.tokens[self.pos].token_type == kind
    }

    /// Whether a token follows the current one and reads `text`.
    fn next_is(&self, text: &str) -> (r: bool)
        requires
            self.wf(),
        ensures
            r == self@.next_is(text@),
    {
        if self.pos < self.tokens.len() - 1 {
            str_equal(self.tokens[self.pos + 1].value.as_str(), text)
        } else {
            false
        }
    }

    /// How many tokens are left, the current one included.
    fn remaining(&self) -> (left: usize)
        requires
            self.wf(),
        ensures
            left == self@.remaining(),
    {
        self.tokens.len() - self.pos
    }

    /// The text of the current token.
    fn current_text(&self) -> (text: String)
        requires
            self.wf(),
        ensures
            text@ == self@.current().value,
    {
        self.tokens[self.pos].value.clone()
    }

    /// The line of the current token.
    fn current_line(&self) -> (line: usize)
        requires
            self.wf(),
        ensures
            line == self@.line(),
    {
        self.tokens[self.pos].file_line
    }

    /// Moves to the next token; on the last token the cursor stays.
    fn next(&mut self)
        requires
            old(self).wf(),
        ensures
            final(self).wf(),
            final(self)@ == old(self)@.advance(),
    {
        if self.pos < self.tokens.len() - 1 {
            self.pos = self.pos + 1;
        }
    }

    /// Takes the current token if it is of the kind `token_type` and, where
    /// `value` is given, reads `value`; a syntax error otherwise.
    fn consume(&mut self, token_type: TokenType, value: Option<&str>) -> (r: JuvinilResult<()>)
        requires
            old(self).wf(),
        ensures
            final(self).wf(),
            step_of(r, final(self)@, consume(old(self)@, token_type, text_view(value))),
            r is Ok ==> final(self)@ == old(self)@.advance(),
            r is Ok && token_type != TokenType::EOF ==> final(self)@.after(old(self)@),
            r is Err ==> final(self)@ == old(self)@,
    {
        let matches = if self.tokens[self.pos].token_type != token_type {
            false
        } else {
            match value {
                Some(text) => str_equal(self.tokens[self.pos].value.as_str(), text),
                None => true,
            }
        };
        if !matches {
            let expected = match value {
                Some(text) => text.to_owned(),
                None => String::new(),
            };
            let found = self.tokens[self.pos].clone();
            let line = self.tokens[self.pos].file_line;
            return Err(JuvinilError::SyntaxError(token_type, expected, found, line));
        }
        self.next();
        Ok(())
    }

    /// Adds `text` to the translation.
    fn push_intermediary_code(&mut self, text: &str)
        requires
            old(self).wf(),
        ensures
            final(self).wf(),
            final(self)@ == old(self)@.emit(text@),
    {
        self.intermediary_code.append(text);
    }
}


// The scopes.
impl Parser {
    /// Opens a new innermost scope.
    fn push_scope(&mut self)
        requires
            old(self).wf(),
        ensures
            final(self).wf(),
            final(self)@ == old(self)@.with_scopes(push_scope(old(self)@.scopes)),
    {
        self.scopes.push(Scope::new());
        assert(scopes_view(self.scopes@) =~= push_scope(scopes_view(old(self).scopes@)));
    }

    /// Leaves the innermost scope, which is not the outermost one.
    fn pop_scope(&mut self)
        requires
            old(self).wf(),
            old(self)@.scopes.len() >= 2,
        ensures
            final(self).wf(),
            final(self)@ == old(self)@.with_scopes(pop_scope(old(self)@.scopes)),
    {
        self.scopes.pop();
        assert(scopes_view(self.scopes@) =~= pop_scope(scopes_view(old(self).scopes@)));
    }

    /// Where the variable `name` resolves to: the scope and the place in it.
    fn locate_variable(&self, name: &str) -> (found: Option<(usize, usize)>)
        requires
            self.wf(),
        ensures
            match found {
                Some((depth, index)) => lookup_variable(self@.scopes, name@) == Some(
                    (depth as int, index as int),
                ) && depth < self.scopes@.len() && index < self.scopes@[depth as int].variables@.len(),
                None => lookup_variable(self@.scopes, name@) is None,
            },
    {
        let mut depth: usize = self.scopes.len();
        while depth > 0
            invariant
                depth <= self.scopes@.len(),
                lookup_variable(self@.scopes, name@) == variable_below(
                    self@.scopes,
                    name@,
                    depth as int,
                ),
            decreases depth,
        {
            match self.scopes[depth - 1].find_variable(name) {
                Some(index) => {
                    return Some((depth - 1, index));
                },
                None => {},
            }
            depth = depth - 1;
        }
        None
    }

    /// Where the function `name` resolves to: the scope and the place in it.
    fn locate_function(&self, name: &str) -> (found: Option<(usize, usize)>)
        requires
            self.wf(),
        ensures
            match found {
                Some((depth, index)) => lookup_function(self@.scopes, name@) == Some(
                    (depth as int, index as int),
                ) && depth < self.scopes@.len() && index < self.scopes@[depth as int].functions@.len(),
                None => lookup_function(self@.scopes, name@) is None,
            },
    {
        let mut depth: usize = self.scopes.len();
        while depth > 0
            invariant
                depth <= self.scopes@.len(),
                lookup_function(self@.scopes, name@) == function_below(
                    self@.scopes,
                    name@,
                    depth as int,
                ),
            decreases depth,
        {
            match self.scopes[depth - 1].find_function(name) {
                Some(index) => {
                    return Some((depth - 1, index));
                },
                None => {},
            }
            depth = depth - 1;
        }
        None
    }

    /// The variable that `var_name` resolves to, searched from the innermost
    /// scope outwards.
    pub fn search_var_in_scope(&self, var_name: &str) -> (found: Option<JvVariable>)
        requires
            self.wf(),
        ensures
            match found {
                Some(variable) => match lookup_variable(self@.scopes, var_name@) {
                    Some((depth, index)) => variable@ == self@.scopes[depth].variables[index],
                    None => false,
                },
                None => lookup_variable(self@.scopes, var_name@) is None,
            },
    {
        match self.locate_variable(var_name) {
            Some((depth, index)) => Some(self.scopes[depth].variables[index].clone()),
            None => None,
        }
    }

    /// The function that `func_name` resolves to, searched from the
    /// innermost scope outwards.
    pub fn search_func_in_scope(&self, func_name: &str) -> (found: Option<JvFunction>)
        requires
            self.wf(),
        ensures
            match found {
                Some(function) => match lookup_function(self@.scopes, func_name@) {
                    Some((depth, index)) => function@ == self@.scopes[depth].functions[index],
                    None => false,
                },
                None => lookup_function(self@.scopes, func_name@) is None,
            },
    {
        match self.locate_function(func_name) {
            Some((depth, index)) => Some(self.scopes[depth].functions[index].clone()),
            None => None,
        }
    }

    /// Adds a variable, not yet assigned, to the innermost scope.
    fn register_variable_in_scope(&mut self, var_type: String, var_name: String)
        requires
            old(self).wf(),
        ensures
            final(self).wf(),
            final(self)@ == old(self)@.with_scopes(
                old(self)@.scopes.update(
                    old(self)@.scopes.len() - 1,
                    old(self)@.scopes.last().with_variable(var_type@, var_name@),
                ),
            ),
    {
        let innermost = self.scopes.len() - 1;
        self.scopes[innermost].add_variable(var_type, var_name);
        assert(scopes_view(self.scopes@) =~= scopes_view(old(self).scopes@).update(
            innermost as int,
            scopes_view(old(self).scopes@).last().with_variable(var_type@, var_name@),
        ));
    }

    /// Adds a parameter, which is assigned from the start, to the innermost
    /// scope.
    fn register_parameter_in_scope(&mut self, var_type: String, var_name: String)
        requires
            old(self).wf(),
        ensures
            final(self).wf(),
            final(self)@ == old(self)@.with_scopes(
                old(self)@.scopes.update(
                    old(self)@.scopes.len() - 1,
                    old(self)@.scopes.last().with_parameter(var_type@, var_name@),
                ),
            ),
    {
        let innermost = self.scopes.len() - 1;
        self.scopes[innermost].add_parameter(var_type, var_name);
        assert(scopes_view(self.scopes@) =~= scopes_view(old(self).scopes@).update(
            innermost as int,
            scopes_view(old(self).scopes@).last().with_parameter(var_type@, var_name@),
        ));
    }

    /// Marks the variable that `var_name` resolves to as assigned; an error
    /// if no scope declares it.
    fn mark_variable_as_assigned(&mut self, var_name: &str) -> (r: JuvinilResult<()>)
        requires
            old(self).wf(),
        ensures
            final(self).wf(),
            match r {
                Ok(_) => assign(old(self)@.scopes, var_name@, old(self)@.line()) == Ok::<
                    Seq<ScopeView>,
                    JuvinilErrorView,
                >(final(self)@.scopes) && final(self)@ == old(self)@.with_scopes(
                    final(self)@.scopes,
                ),
                Err(e) => assign(old(self)@.scopes, var_name@, old(self)@.line()) == Err::<
                    Seq<ScopeView>,
                    JuvinilErrorView,
                >(e@) && final(self)@ == old(self)@,
            },
            final(self)@.scopes.len() == old(self)@.scopes.len(),
    {
        match self.locate_variable(var_name) {
            Some((depth, index)) => {
                self.scopes[depth].set_assigned(index);
                assert(scopes_view(self.scopes@) =~= scopes_view(old(self).scopes@).update(
                    depth as int,
                    scopes_view(old(self).scopes@)[depth as int].with_assigned(index as int),
                ));
                Ok(())
            },
            None => Err(JuvinilError::UndeclaredVariable(var_name.to_owned(), self.current_line())),
        }
    }

    /// With `declared`, the current token must name a variable that some
    /// enclosing scope declares. Without it, the current token must name no
    /// variable of the innermost scope.
    fn assert_id_declared(&self, declared: bool) -> (r: JuvinilResult<Option<JvVariable>>)
        requires
            self.wf(),
        ensures
            match r {
                Ok(found) => if declared {
                    lookup_variable(self@.scopes, self@.current().value) is Some && found is Some
                } else {
                    self@.scopes.last().variable_index(self@.current().value) is None
                        && found is None
                },
                Err(e) => if declared {
                    lookup_variable(self@.scopes, self@.current().value) is None && e@
                        == JuvinilErrorView::UndeclaredVariable(self@.current().value, self@.line())
                } else {
                    self@.scopes.last().variable_index(self@.current().value) is Some && e@
                        == JuvinilErrorView::DuplicateVariable(self@.current().value, self@.line())
                },
            },
    {
        let var_name = self.current_text();
        if declared {
            match self.search_var_in_scope(var_name.as_str()) {
                Some(variable) => Ok(Some(variable)),
                None => Err(JuvinilError::UndeclaredVariable(var_name, self.current_line())),
            }
        } else {
            let innermost = self.scopes.len() - 1;
            match self.scopes[innermost].find_variable(var_name.as_str()) {
                Some(_) => Err(JuvinilError::DuplicateVariable(var_name, self.current_line())),
                None => Ok(None),
            }
        }
    }

    /// The current token must name a variable that has been assigned.
    fn assert_id_assigned(&self) -> (r: JuvinilResult<()>)
        requires
            self.wf(),
        ensures
            match r {
                Ok(_) => assert_assigned(self@.scopes, self@.current().value, self@.line()) is Ok,
                Err(e) => assert_assigned(self@.scopes, self@.current().value, self@.line())
                    == Err::<(), JuvinilErrorView>(e@),
            },
    {
        let var_name = self.current_text();
        match self.search_var_in_scope(var_name.as_str()) {
            Some(variable) => {
                if variable.assigned {
                    return Ok(());
                }
            },
            None => {},
        }
        Err(JuvinilError::UnassignedVariable(var_name, self.current_line()))
    }

    /// Adds a function to the scope around the innermost one.
    fn register_func_in_scope(
        &mut self,
        return_type: String,
        func_name: String,
        params: Vec<String>,
    )
        requires
            old(self).wf(),
            old(self)@.scopes.len() >= 2,
        ensures
            final(self).wf(),
            final(self)@ == old(self)@.with_scopes(
                old(self)@.scopes.update(
                    old(self)@.scopes.len() - 2,
                    old(self)@.scopes[old(self)@.scopes.len() - 2].with_function(
                        FunctionView {
                            return_type: return_type@,
                            func_name: func_name@,
                            params: strings_view(params@),
                        },
                    ),
                ),
            ),
    {
        let outer = self.scopes.len() - 2;
        self.scopes[outer].add_function(JvFunction { return_type, func_name, params });
        assert(scopes_view(self.scopes@) =~= scopes_view(old(self).scopes@).update(
            outer as int,
            scopes_view(old(self).scopes@)[outer as int].with_function(
                FunctionView {
                    return_type: return_type@,
                    func_name: func_name@,
                    params: strings_view(params@),
                },
            ),
        ));
    }

    /// With `declared`, the current token must name a function that some
    /// enclosing scope declares. Without it, the current token must name no
    /// function of the innermost scope.
    fn assert_func_declared(&self, declared: bool) -> (r: JuvinilResult<Option<JvFunction>>)
        requires
            self.wf(),
        ensures
            match r {
                Ok(found) => if declared {
                    lookup_function(self@.scopes, self@.current().value) is Some && found is Some
                } else {
                    self@.scopes.last().function_index(self@.current().value) is None
                        && found is None
                },
                Err(e) => if declared {
                    lookup_function(self@.scopes, self@.current().value) is None && e@
                        == JuvinilErrorView::UndeclaredFunction(self@.current().value, self@.line())
                } else {
                    self@.scopes.last().function_index(self@.current().value) is Some && e@
                        == JuvinilErrorView::DuplicateFunction(self@.current().value, self@.line())
                },
            },
    {
        let func_name = self.current_text();
        if declared {
            match self.search_func_in_scope(func_name.as_str()) {
                Some(function) => Ok(Some(function)),
                None => Err(JuvinilError::UndeclaredFunction(func_name, self.current_line())),
            }
        } else {
            let innermost = self.scopes.len() - 1;
            match self.scopes[innermost].find_function(func_name.as_str()) {
                Some(_) => Err(JuvinilError::DuplicateFunction(func_name, self.current_line())),
                None => Ok(None),
            }
        }
    }
}


// Types and expressions.
impl Parser {
    /// The name that the translation gives to the type `value`, if it is one
    /// of the six types.
    fn map_type(&self, value: &str) -> (r: Option<String>)
        ensures
            match r {
                Some(target) => target_type(value@) == Some(target@),
                None => target_type(value@) is None,
            },
    {
        if str_equal(value, "void") {
            Some("void".to_owned())
        } else if str_equal(value, "int") {
            Some("int".to_owned())
        } else if str_equal(value, "float") {
            Some("float".to_owned())
        } else if str_equal(value, "boolean") {
            Some("bool".to_owned())
        } else if str_equal(value, "char") {
            Some("char".to_owned())
        } else if str_equal(value, "string") {
            Some("string".to_owned())
        } else {
            None
        }
    }

    /// `type -> TYPE ('[' NUMBER ']')?`: the name of the type, its name in
    /// the translation and its array suffix.
    fn jvtype(&mut self) -> (r: JuvinilResult<(String, String, String)>)
        requires
            old(self).wf(),
        ensures
            final(self).wf(),
            match r {
                Ok(ty) => spec_jvtype(old(self)@) == Ok::<(TypeView, ParseState), Failure>(
                    (TypeView { name: ty.0@, target: ty.1@, suffix: ty.2@ }, final(self)@),
                ) && moved(old(self)@, final(self)@),
                Err(e) => spec_jvtype(old(self)@) == Err::<(TypeView, ParseState), Failure>(
                    fail(final(self)@, e@),
                ),
            },
    {
        let name = self.current_text();
        let mapped = if self.at_kind(TokenType::TYPE) {
            self.map_type(name.as_str())
        } else {
            None
        };
        let target = match mapped {
            Some(target) => target,
            None => {
                let found = self.current().clone();
                let line = self.current_line();
                return Err(JuvinilError::SyntaxError(TokenType::TYPE, String::new(), found, line));
            },
        };
        self.consume(TokenType::TYPE, None)?;
        if self.at("[") {
            self.consume(TokenType::SYMBOL, Some("["))?;
            let size = self.current_text();
            self.consume(TokenType::NUMBER, None)?;
            self.consume(TokenType::SYMBOL, Some("]"))?;
            let mut suffix = "[".to_owned();
            suffix.append(size.as_str());
            suffix.append("]");
            Ok((name, target, suffix))
        } else {
            Ok((name, target, String::new()))
        }
    }

    /// `;`, which ends a statement.
    fn endexpr(&mut self) -> (r: JuvinilResult<()>)
        requires
            old(self).wf(),
        ensures
            final(self).wf(),
            step_of(r, final(self)@, spec_endexpr(old(self)@)),
            r is Ok ==> final(self)@ == old(self)@.advance() && final(self)@.after(old(self)@),
    {
        self.consume(TokenType::SYMBOL, Some(";"))
    }

    /// `func -> ID '(' params ')'`
    fn func(&mut self) -> (r: JuvinilResult<String>)
        requires
            old(self).wf(),
        ensures
            final(self).wf(),
            text_of(r, final(self)@, spec_func(old(self)@)),
            r is Ok ==> moved(old(self)@, final(self)@),
        decreases old(self)@.remaining(), 0nat,
    {
        let func_name = self.current_text();
        if !str_equal(func_name.as_str(), "printf") {
            match self.assert_func_declared(true) {
                Ok(_) => {},
                Err(e) => {
                    return Err(e);
                },
            }
        }
        self.consume(TokenType::ID, None)?;
        self.consume(TokenType::SYMBOL, Some("("))?;
        let func_params = self.params()?;
        self.consume(TokenType::SYMBOL, Some(")"))?;
        let mut call = func_name;
        call.append(" (");
        call.append(func_params.as_str());
        call.append(")");
        Ok(call)
    }

    /// `factor -> NUMBER | '(' expr ')' | ID | 'true' | 'false' | func`
    fn factor(&mut self) -> (r: JuvinilResult<String>)
        requires
            old(self).wf(),
        ensures
            final(self).wf(),
            text_of(r, final(self)@, spec_factor(old(self)@)),
            r is Ok ==> moved(old(self)@, final(self)@),
        decreases old(self)@.remaining(), 1nat,
    {
        if self.at_kind(TokenType::NUMBER) {
            let number = self.current_text();
            self.consume(TokenType::NUMBER, None)?;
            return Ok(number);
        }
        if self.at("(") {
            self.consume(TokenType::SYMBOL, Some("("))?;
            let expr_result = self.expr()?;
            self.consume(TokenType::SYMBOL, Some(")"))?;
            let mut text = "(".to_owned();
            text.append(expr_result.as_str());
            text.append(")");
            return Ok(text);
        }
        if self.at_kind(TokenType::ID) && !self.next_is("(") {
            match self.assert_id_assigned() {
                Ok(_) => {},
                Err(e) => {
                    return Err(e);
                },
            }
            let var_name = self.current_text();
            self.consume(TokenType::ID, None)?;
            return Ok(var_name);
        }
        if self.at("true") || self.at("false") {
            let bool_value = self.current_text();
            self.consume(TokenType::KEYWORD, None)?;
            return Ok(bool_value);
        }
        self.func()
    }

    /// `unit -> ('-' | '++' | '--') unit | factor`
    fn unit(&mut self) -> (r: JuvinilResult<String>)
        requires
            old(self).wf(),
        ensures
            final(self).wf(),
            text_of(r, final(self)@, spec_unit(old(self)@)),
            r is Ok ==> moved(old(self)@, final(self)@),
        decreases old(self)@.remaining(), 2nat,
    {
        if self.at("-") || self.at("++") || self.at("--") {
            let mut unit_result = self.current_text();
            self.consume(TokenType::OPERATOR, None)?;
            let operand = self.unit()?;
            unit_result.append(operand.as_str());
            return Ok(unit_result);
        }
        self.factor()
    }

    /// `term -> unit (('*' | '/' | '%') term)?`
    fn term(&mut self) -> (r: JuvinilResult<String>)
        requires
            old(self).wf(),
        ensures
            final(self).wf(),
            text_of(r, final(self)@, spec_term(old(self)@)),
            r is Ok ==> moved(old(self)@, final(self)@),
        decreases old(self)@.remaining(), 3nat,
    {
        let mut term_result = self.unit()?;
        if self.at("*") || self.at("/") || self.at("%") {
            let operator = self.current_text();
            self.consume(TokenType::OPERATOR, None)?;
            term_result.append(operator.as_str());
            let recursive_result = self.term()?;
            term_result.append(recursive_result.as_str());
        }
        Ok(term_result)
    }

    /// `bnr -> term (('&' | '|') bnr)?`
    fn bnr(&mut self) -> (r: JuvinilResult<String>)
        requires
            old(self).wf(),
        ensures
            final(self).wf(),
            text_of(r, final(self)@, spec_bnr(old(self)@)),
            r is Ok ==> moved(old(self)@, final(self)@),
        decreases old(self)@.remaining(), 4nat,
    {
        let mut bnr_result = self.term()?;
        if self.at("&") || self.at("|") {
            let operator = self.current_text();
            self.consume(TokenType::OPERATOR, None)?;
            bnr_result.append(operator.as_str());
            let recursive_result = self.bnr()?;
            bnr_result.append(recursive_result.as_str());
        }
        Ok(bnr_result)
    }

    /// `expr -> bnr (('+' | '-') expr)?`
    fn expr(&mut self) -> (r: JuvinilResult<String>)
        requires
            old(self).wf(),
        ensures
            final(self).wf(),
            text_of(r, final(self)@, spec_expr(old(self)@)),
            r is Ok ==> moved(old(self)@, final(self)@),
        decreases old(self)@.remaining(), 5nat,
    {
        let mut expr_result = self.bnr()?;
        if self.at("+") || self.at("-") {
            let operator = self.current_text();
            self.consume(TokenType::OPERATOR, None)?;
            expr_result.append(operator.as_str());
            let recursive_result = self.expr()?;
            expr_result.append(recursive_result.as_str());
        }
        Ok(expr_result)
    }

    /// `value -> STRING | expr`
    fn value(&mut self) -> (r: JuvinilResult<String>)
        requires
            old(self).wf(),
        ensures
            final(self).wf(),
            text_of(r, final(self)@, spec_value(old(self)@)),
            r is Ok ==> moved(old(self)@, final(self)@),
        decreases old(self)@.remaining(), 6nat,
    {
        if self.at_kind(TokenType::STRING) {
            let literal = quote(self.current().value.as_str());
            self.consume(TokenType::STRING, None)?;
            return Ok(literal);
        }
        self.expr()
    }

    /// `params -> (value (',' params)?)?`
    fn params(&mut self) -> (r: JuvinilResult<String>)
        requires
            old(self).wf(),
        ensures
            final(self).wf(),
            text_of(r, final(self)@, spec_params(old(self)@)),
            r is Ok ==> kept(old(self)@, final(self)@),
        decreases old(self)@.remaining(), 7nat,
    {
        if self.at(")") {
            return Ok(String::new());
        }
        let mut params_result = self.value()?;
        if self.at(",") {
            self.consume(TokenType::SYMBOL, Some(","))?;
            params_result.append(", ");
            let recursive_result = self.params()?;
            params_result.append(recursive_result.as_str());
        }
        Ok(params_result)
    }

    /// `cmp -> expr COMPARATOR expr`
    fn cmp(&mut self) -> (r: JuvinilResult<String>)
        requires
            old(self).wf(),
        ensures
            final(self).wf(),
            text_of(r, final(self)@, spec_cmp(old(self)@)),
            r is Ok ==> moved(old(self)@, final(self)@),
        decreases old(self)@.remaining(), 8nat,
    {
        let mut result = self.expr()?;
        let comparator = self.current_text();
        self.consume(TokenType::COMPARATOR, None)?;
        let right = self.expr()?;
        result.append(" ");
        result.append(comparator.as_str());
        result.append(" ");
        result.append(right.as_str());
        Ok(result)
    }

    /// `equality -> cmp (('==' | '!=') equality)?`
    fn equality(&mut self) -> (r: JuvinilResult<String>)
        requires
            old(self).wf(),
        ensures
            final(self).wf(),
            text_of(r, final(self)@, spec_equality(old(self)@)),
            r is Ok ==> moved(old(self)@, final(self)@),
        decreases old(self)@.remaining(), 9nat,
    {
        let mut result = self.cmp()?;
        if self.at("==") || self.at("!=") {
            let comparator = self.current_text();
            self.consume(TokenType::COMPARATOR, None)?;
            let recursive_result = self.equality()?;
            result.append(" ");
            result.append(comparator.as_str());
            result.append(" ");
            result.append(recursive_result.as_str());
        }
        Ok(result)
    }

    /// `join -> equality ('&&' join)?`
    fn join(&mut self) -> (r: JuvinilResult<String>)
        requires
            old(self).wf(),
        ensures
            final(self).wf(),
            text_of(r, final(self)@, spec_join(old(self)@)),
            r is Ok ==> moved(old(self)@, final(self)@),
        decreases old(self)@.remaining(), 10nat,
    {
        let mut result = self.equality()?;
        if self.at("&&") {
            let comparator = self.current_text();
            self.consume(TokenType::COMPARATOR, None)?;
            let recursive_result = self.join()?;
            result.append(" ");
            result.append(comparator.as_str());
            result.append(" ");
            result.append(recursive_result.as_str());
        }
        Ok(result)
    }

    /// `boolexpr -> join ('||' boolexpr)?`
    fn boolexpr(&mut self) -> (r: JuvinilResult<String>)
        requires
            old(self).wf(),
        ensures
            final(self).wf(),
            text_of(r, final(self)@, spec_boolexpr(old(self)@)),
            r is Ok ==> moved(old(self)@, final(self)@),
        decreases old(self)@.remaining(), 11nat,
    {
        let mut result = self.join()?;
        if self.at("||") {
            let comparator = self.current_text();
            self.consume(TokenType::COMPARATOR, None)?;
            let recursive_result = self.boolexpr()?;
            result.append(" ");
            result.append(comparator.as_str());
            result.append(" ");
            result.append(recursive_result.as_str());
        }
        Ok(result)
    }

    /// `'(' boolexpr ')'`, the condition of a control statement.
    fn condition(&mut self) -> (r: JuvinilResult<String>)
        requires
            old(self).wf(),
        ensures
            final(self).wf(),
            text_of(r, final(self)@, spec_condition(old(self)@)),
            r is Ok ==> moved(old(self)@, final(self)@),
        decreases old(self)@.remaining(), 12nat,
    {
        self.consume(TokenType::SYMBOL, Some("("))?;
        let boolexpr_result = self.boolexpr()?;
        self.consume(TokenType::SYMBOL, Some(")"))?;
        Ok(boolexpr_result)
    }
}


// Declarations and statements.
impl Parser {
    /// `decl -> type ID ';'`
    fn decl(&mut self) -> (r: JuvinilResult<()>)
        requires
            old(self).wf(),
        ensures
            final(self).wf(),
            step_of(r, final(self)@, spec_decl(old(self)@)),
            r is Ok ==> moved(old(self)@, final(self)@),
    {
        let (var_type, target, suffix) = self.jvtype()?;
        match self.assert_id_declared(false) {
            Ok(_) => {},
            Err(e) => {
                return Err(e);
            },
        }
        let var_name = self.current_text();
        self.consume(TokenType::ID, None)?;
        self.endexpr()?;
        let mut text = target;
        text.append(" ");
        text.append(var_name.as_str());
        text.append(suffix.as_str());
        text.append(";\n");
        self.push_intermediary_code(text.as_str());
        self.register_variable_in_scope(var_type, var_name);
        Ok(())
    }

    /// `decls -> decl*`
    fn decls(&mut self) -> (r: JuvinilResult<()>)
        requires
            old(self).wf(),
        ensures
            final(self).wf(),
            step_of(r, final(self)@, spec_decls(old(self)@)),
            r is Ok ==> kept(old(self)@, final(self)@),
    {
        while self.at_kind(TokenType::TYPE)
            invariant
                self.wf(),
                spec_decls(old(self)@) == spec_decls(self@),
                kept(old(self)@, self@),
            decreases self@.remaining(),
        {
            self.decl()?;
        }
        Ok(())
    }

    /// `asgn -> ID ('=' | '+=' | '-=') value ';'`
    ///
    /// The variable is marked as assigned once the whole assignment is read.
    fn asgn(&mut self) -> (r: JuvinilResult<()>)
        requires
            old(self).wf(),
        ensures
            final(self).wf(),
            step_of(r, final(self)@, spec_asgn(old(self)@)),
            r is Ok ==> moved(old(self)@, final(self)@),
        decreases old(self)@.remaining(), 13nat,
    {
        match self.assert_id_declared(true) {
            Ok(_) => {},
            Err(e) => {
                return Err(e);
            },
        }
        let id_value = self.current_text();
        self.consume(TokenType::ID, None)?;
        let operator_value = self.current_text();
        if self.at("+=") {
            self.consume(TokenType::OPERATOR, Some("+="))?;
        } else if self.at("-=") {
            self.consume(TokenType::OPERATOR, Some("-="))?;
        } else {
            self.consume(TokenType::OPERATOR, Some("="))?;
        }
        let expr_value = self.value()?;
        self.endexpr()?;
        self.mark_variable_as_assigned(id_value.as_str())?;
        let mut text = id_value;
        text.append(" ");
        text.append(operator_value.as_str());
        text.append(" ");
        text.append(expr_value.as_str());
        text.append(";");
        self.push_intermediary_code(text.as_str());
        Ok(())
    }

    /// `return -> 'return' value? ';'`
    fn stmt_return(&mut self) -> (r: JuvinilResult<()>)
        requires
            old(self).wf(),
        ensures
            final(self).wf(),
            step_of(r, final(self)@, spec_stmt_return(old(self)@)),
            r is Ok ==> moved(old(self)@, final(self)@),
        decreases old(self)@.remaining(), 14nat,
    {
        self.consume(TokenType::KEYWORD, Some("return"))?;
        let expr_result = if self.at(";") {
            String::new()
        } else {
            self.value()?
        };
        self.endexpr()?;
        let mut text = "return ".to_owned();
        text.append(expr_result.as_str());
        text.append(";\n");
        self.push_intermediary_code(text.as_str());
        Ok(())
    }

    /// `paramsdecl -> (type ID (',' paramsdecl)?)?`: the text of the
    /// parameters and their types.
    fn paramsdecl(&mut self) -> (r: JuvinilResult<(String, Vec<String>)>)
        requires
            old(self).wf(),
        ensures
            final(self).wf(),
            match r {
                Ok(parameters) => spec_paramsdecl(old(self)@) == Ok::<
                    (ParametersView, ParseState),
                    Failure,
                >(
                    (
                        ParametersView {
                            text: parameters.0@,
                            types: strings_view(parameters.1@),
                        },
                        final(self)@,
                    ),
                ) && kept(old(self)@, final(self)@),
                Err(e) => spec_paramsdecl(old(self)@) == Err::<
                    (ParametersView, ParseState),
                    Failure,
                >(fail(final(self)@, e@)),
            },
        decreases old(self)@.remaining(),
    {
        if self.at(")") {
            let types: Vec<String> = Vec::new();
            assert(strings_view(types@) =~= Seq::empty());
            return Ok((String::new(), types));
        }
        let (param_type, target, suffix) = self.jvtype()?;
        match self.assert_id_declared(false) {
            Ok(_) => {},
            Err(e) => {
                return Err(e);
            },
        }
        let id_value = self.current_text();
        self.consume(TokenType::ID, None)?;
        self.register_parameter_in_scope(param_type, id_value.clone());
        let mut declared_type = target.clone();
        declared_type.append(suffix.as_str());
        let mut text = target;
        text.append(" ");
        text.append(id_value.as_str());
        text.append(suffix.as_str());
        let mut types: Vec<String> = Vec::new();
        types.push(declared_type);
        assert(strings_view(types@) =~= seq![declared_type@]);
        if self.at(",") {
            self.consume(TokenType::SYMBOL, Some(","))?;
            text.append(",");
            let (rest_text, mut rest_types) = self.paramsdecl()?;
            text.append(rest_text.as_str());
            let ghost first = strings_view(types@);
            let ghost rest = strings_view(rest_types@);
            types.append(&mut rest_types);
            assert(strings_view(types@) =~= first + rest);
        }
        Ok((text, types))
    }

    /// The header of a function declaration, up to its body.
    fn funcheader(&mut self) -> (r: JuvinilResult<()>)
        requires
            old(self).wf(),
        ensures
            final(self).wf(),
            step_of(r, final(self)@, spec_funcheader(old(self)@)),
            r is Ok ==> final(self)@.tokens == old(self)@.tokens && final(self)@.after(old(self)@)
                && final(self)@.scopes.len() == old(self)@.scopes.len() + 1,
    {
        self.consume(TokenType::KEYWORD, Some("func"))?;
        let (_, target, suffix) = self.jvtype()?;
        match self.assert_func_declared(false) {
            Ok(_) => {},
            Err(e) => {
                return Err(e);
            },
        }
        let func_name = self.current_text();
        self.consume(TokenType::ID, None)?;
        self.push_scope();
        self.consume(TokenType::SYMBOL, Some("("))?;
        let (params_value, func_params) = self.paramsdecl()?;
        self.consume(TokenType::SYMBOL, Some(")"))?;
        let mut return_type = target;
        return_type.append(suffix.as_str());
        let mut text = return_type.clone();
        text.append(" ");
        text.append(func_name.as_str());
        text.append(" (");
        text.append(params_value.as_str());
        text.append(")");
        self.register_func_in_scope(return_type, func_name, func_params);
        self.push_intermediary_code(text.as_str());
        Ok(())
    }

    /// `block -> '{' segment* '}'`
    fn block(&mut self) -> (r: JuvinilResult<()>)
        requires
            old(self).wf(),
        ensures
            final(self).wf(),
            step_of(r, final(self)@, spec_block(old(self)@)),
            r is Ok ==> moved(old(self)@, final(self)@),
        decreases old(self)@.remaining(), 20nat,
    {
        self.push_scope();
        self.consume(TokenType::SYMBOL, Some("{"))?;
        self.push_intermediary_code("{\n");
        self.block_items()?;
        self.consume(TokenType::SYMBOL, Some("}"))?;
        self.push_intermediary_code("}\n");
        self.pop_scope();
        Ok(())
    }

    /// `for -> 'for' '(' asgn boolexpr ')' block`
    fn stmt_for(&mut self) -> (r: JuvinilResult<()>)
        requires
            old(self).wf(),
        ensures
            final(self).wf(),
            step_of(r, final(self)@, spec_stmt_for(old(self)@)),
            r is Ok ==> moved(old(self)@, final(self)@),
        decreases old(self)@.remaining(), 21nat,
    {
        self.consume(TokenType::KEYWORD, Some("for"))?;
        self.consume(TokenType::SYMBOL, Some("("))?;
        self.push_intermediary_code("for(");
        self.asgn()?;
        let boolexpr_result = self.boolexpr()?;
        self.consume(TokenType::SYMBOL, Some(")"))?;
        let mut text = " ".to_owned();
        text.append(boolexpr_result.as_str());
        text.append(" ;)");
        self.push_intermediary_code(text.as_str());
        self.block()
    }

    /// `if -> 'if' '(' boolexpr ')' block ('else' block)?`
    fn stmt_if(&mut self) -> (r: JuvinilResult<()>)
        requires
            old(self).wf(),
        ensures
            final(self).wf(),
            step_of(r, final(self)@, spec_stmt_if(old(self)@)),
            r is Ok ==> moved(old(self)@, final(self)@),
        decreases old(self)@.remaining(), 21nat,
    {
        self.consume(TokenType::KEYWORD, Some("if"))?;
        let boolexpr_result = self.condition()?;
        let mut text = "if (".to_owned();
        text.append(boolexpr_result.as_str());
        text.append(")");
        self.push_intermediary_code(text.as_str());
        self.block()?;
        if self.at("else") {
            self.consume(TokenType::KEYWORD, Some("else"))?;
            self.push_intermediary_code("else ");
            self.block()?;
        }
        Ok(())
    }

    /// `while -> 'while' '(' boolexpr ')' block`
    fn stmt_while(&mut self) -> (r: JuvinilResult<()>)
        requires
            old(self).wf(),
        ensures
            final(self).wf(),
            step_of(r, final(self)@, spec_stmt_while(old(self)@)),
            r is Ok ==> moved(old(self)@, final(self)@),
        decreases old(self)@.remaining(), 21nat,
    {
        self.consume(TokenType::KEYWORD, Some("while"))?;
        let boolexpr_result = self.condition()?;
        let mut text = "while(".to_owned();
        text.append(boolexpr_result.as_str());
        text.append(") ");
        self.push_intermediary_code(text.as_str());
        self.block()
    }

    /// `do-while -> 'do' block 'while' '(' boolexpr ')' ';'`
    fn stmt_do_while(&mut self) -> (r: JuvinilResult<()>)
        requires
            old(self).wf(),
        ensures
            final(self).wf(),
            step_of(r, final(self)@, spec_stmt_do_while(old(self)@)),
            r is Ok ==> moved(old(self)@, final(self)@),
        decreases old(self)@.remaining(), 21nat,
    {
        self.consume(TokenType::KEYWORD, Some("do"))?;
        self.push_intermediary_code("do ");
        self.block()?;
        self.consume(TokenType::KEYWORD, Some("while"))?;
        let boolexpr_result = self.condition()?;
        self.endexpr()?;
        let mut text = "while(".to_owned();
        text.append(boolexpr_result.as_str());
        text.append(");\n");
        self.push_intermediary_code(text.as_str());
        Ok(())
    }

    /// `funcdecl -> 'func' type ID '(' paramsdecl ')' block`
    fn funcdecl(&mut self) -> (r: JuvinilResult<()>)
        requires
            old(self).wf(),
        ensures
            final(self).wf(),
            step_of(r, final(self)@, spec_funcdecl(old(self)@)),
            r is Ok ==> moved(old(self)@, final(self)@),
        decreases old(self)@.remaining(), 21nat,
    {
        self.funcheader()?;
        self.block()?;
        self.pop_scope();
        Ok(())
    }

    /// One statement.
    fn stmt(&mut self) -> (r: JuvinilResult<()>)
        requires
            old(self).wf(),
        ensures
            final(self).wf(),
            step_of(r, final(self)@, spec_stmt(old(self)@)),
            r is Ok ==> moved(old(self)@, final(self)@),
        decreases old(self)@.remaining(), 22nat,
    {
        if self.at_kind(TokenType::ID) {
            if self.next_is("(") {
                let mut func_value = self.func()?;
                self.endexpr()?;
                func_value.append(";\n");
                self.push_intermediary_code(func_value.as_str());
                return Ok(());
            }
            self.asgn()?;
            self.push_intermediary_code("\n");
            return Ok(());
        }
        if self.at("{") {
            return self.block();
        }
        if self.at("for") {
            return self.stmt_for();
        }
        if self.at("if") {
            return self.stmt_if();
        }
        if self.at("while") {
            return self.stmt_while();
        }
        if self.at("do") {
            return self.stmt_do_while();
        }
        if self.at("func") {
            return self.funcdecl();
        }
        if self.at("break") {
            self.consume(TokenType::KEYWORD, Some("break"))?;
            self.endexpr()?;
            self.push_intermediary_code("break;\n");
            return Ok(());
        }
        if self.at("continue") {
            self.consume(TokenType::KEYWORD, Some("continue"))?;
            self.endexpr()?;
            self.push_intermediary_code("continue;\n");
            return Ok(());
        }
        self.stmt_return()
    }

    /// Whether a statement can start with the current token.
    fn starts_statement(&self) -> (r: bool)
        requires
            self.wf(),
        ensures
            r == starts_statement(self@.current()),
    {
        self.at_kind(TokenType::ID) || self.at("for") || self.at("if") || self.at("while")
            || self.at("do") || self.at("break") || self.at("continue") || self.at("return")
            || self.at("{") || self.at("func")
    }

    /// `stmts -> stmt*`
    fn stmts(&mut self) -> (r: JuvinilResult<()>)
        requires
            old(self).wf(),
        ensures
            final(self).wf(),
            step_of(r, final(self)@, spec_stmts(old(self)@)),
            r is Ok ==> kept(old(self)@, final(self)@),
        decreases old(self)@.remaining(), 23nat,
    {
        while self.starts_statement()
            invariant
                self.wf(),
                spec_stmts(old(self)@) == spec_stmts(self@),
                kept(old(self)@, self@),
            decreases self@.remaining(),
        {
            self.stmt()?;
        }
        Ok(())
    }

    /// `segment -> block? decls? stmts`
    fn segment(&mut self) -> (r: JuvinilResult<()>)
        requires
            old(self).wf(),
        ensures
            final(self).wf(),
            step_of(r, final(self)@, spec_segment(old(self)@)),
            r is Ok ==> kept(old(self)@, final(self)@),
        decreases old(self)@.remaining(), 24nat,
    {
        if self.at("{") {
            self.block()?;
        }
        if self.at_kind(TokenType::TYPE) {
            self.decls()?;
        }
        self.stmts()
    }

    /// The inside of a block, up to the closing brace or to a token that no
    /// segment can take.
    fn block_items(&mut self) -> (r: JuvinilResult<()>)
        requires
            old(self).wf(),
        ensures
            final(self).wf(),
            step_of(r, final(self)@, spec_block_items(old(self)@)),
            r is Ok ==> kept(old(self)@, final(self)@),
        decreases old(self)@.remaining(), 25nat,
    {
        while !self.at("}")
            invariant
                self.wf(),
                spec_block_items(old(self)@) == spec_block_items(self@),
                kept(old(self)@, self@),
            decreases self@.remaining(),
        {
            let left = self.remaining();
            self.segment()?;
            if self.remaining() == left {
                return Ok(());
            }
        }
        Ok(())
    }

    /// `program -> segment*`, up to the end marker.
    fn program(&mut self) -> (r: JuvinilResult<()>)
        requires
            old(self).wf(),
        ensures
            final(self).wf(),
            step_of(r, final(self)@, spec_program(old(self)@)),
            r is Ok ==> kept(old(self)@, final(self)@) && final(self)@.at_kind(TokenType::EOF),
        decreases old(self)@.remaining(), 25nat,
    {
        loop
            invariant
                self.wf(),
                spec_program(old(self)@) == spec_program(self@),
                kept(old(self)@, self@),
            decreases self@.remaining(),
        {
            let left = self.remaining();
            self.segment()?;
            if self.at_kind(TokenType::EOF) {
                return Ok(());
            }
            if self.remaining() == left {
                let found = self.current().clone();
                let line = self.current_line();
                return Err(JuvinilError::SyntaxError(TokenType::EOF, String::new(), found, line));
            }
        }
    }

    /// `funcdecl*`
    fn funcdecls(&mut self) -> (r: JuvinilResult<()>)
        requires
            old(self).wf(),
        ensures
            final(self).wf(),
            step_of(r, final(self)@, spec_funcdecls(old(self)@)),
            r is Ok ==> kept(old(self)@, final(self)@),
        decreases old(self)@.remaining(), 25nat,
    {
        while self.at("func")
            invariant
                self.wf(),
                spec_funcdecls(old(self)@) == spec_funcdecls(self@),
                kept(old(self)@, self@),
            decreases self@.remaining(),
        {
            self.funcdecl()?;
        }
        Ok(())
    }

    /// `start -> funcdecl* program`
    fn start(&mut self) -> (r: JuvinilResult<()>)
        requires
            old(self).wf(),
        ensures
            final(self).wf(),
            step_of(r, final(self)@, spec_start(old(self)@)),
            r is Ok ==> kept(old(self)@, final(self)@) && final(self)@.at_kind(TokenType::EOF),
    {
        let mut code = String::new();
        std::mem::swap(&mut code, &mut self.intermediary_code);
        match self.funcdecls() {
            Ok(_) => {},
            Err(e) => {
                code.append(self.intermediary_code.as_str());
                self.intermediary_code = code;
                return Err(e);
            },
        }
        let mut functions = String::new();
        std::mem::swap(&mut functions, &mut self.intermediary_code);
        code.append(functions.as_str());
        code.append(MAIN_OPEN);
        match self.program() {
            Ok(_) => {},
            Err(e) => {
                code.append(self.intermediary_code.as_str());
                self.intermediary_code = code;
                return Err(e);
            },
        }
        code.append(self.intermediary_code.as_str());
        code.append(MAIN_CLOSE);
        self.intermediary_code = code;
        Ok(())
    }
}

// What the parser offers.
impl Parser {
    /// A parser at the start of `tokens`, with one empty scope and the
    /// heading of the translation written.
    ///
    /// The tokens must end with the end marker, as those of the lexer do;
    /// otherwise this is a syntax error that asks for the end marker and
    /// shows the last token (the end marker on line 0, if there is none).
    pub fn new(tokens: Vec<Token>) -> (r: JuvinilResult<Parser>)
        ensures
            match r {
                Ok(parser) => {
                    &&& tokens@.len() > 0
                    &&& tokens@.last().token_type == TokenType::EOF
                    &&& parser.wf()
                    &&& parser@ == initial_state(tokens_view(tokens@))
                },
                Err(e) => {
                    &&& tokens@.len() == 0 || tokens@.last().token_type != TokenType::EOF
                    &&& e@ == JuvinilErrorView::SyntaxError(
                        TokenType::EOF,
                        Seq::empty(),
                        if tokens@.len() == 0 {
                            eof_token(0)
                        } else {
                            tokens@.last()@
                        },
                        if tokens@.len() == 0 {
                            0
                        } else {
                            tokens@.last().file_line
                        },
                    )
                },
            },
    {
        if tokens.len() == 0 {
            return Err(
                JuvinilError::SyntaxError(TokenType::EOF, String::new(), Token::eof(0), 0),
            );
        }
        let last = tokens.len() - 1;
        if tokens[last].token_type != TokenType::EOF {
            let found = tokens[last].clone();
            let line = tokens[last].file_line;
            return Err(JuvinilError::SyntaxError(TokenType::EOF, String::new(), found, line));
        }
        let mut scopes: Vec<Scope> = Vec::new();
        scopes.push(Scope::new());
        let parser = Parser {
            tokens,
            pos: 0,
            scopes,
            intermediary_code: PREAMBLE.to_owned(),
        };
        assert(parser@.scopes =~= push_scope(Seq::empty()));
        Ok(parser)
    }

    /// Parses the whole program: checks it against the grammar and the
    /// scoping rules and writes its translation.
    ///
    /// On success the translation has grown by the functions, followed by the
    /// program inside the one entry point that wraps it. Where the tokens are
    /// clean, what was added closes every bracket that it opens, in nesting
    /// order. Whether the parse succeeds or fails, it only adds to the
    /// translation. On failure the
    /// parser stands on the token at which the error was met, with the scopes
    /// and the translation as they were then.
    pub fn parse(&mut self) -> (r: JuvinilResult<()>)
        requires
            old(self).wf(),
        ensures
            final(self).wf(),
            step_of(r, final(self)@, spec_start(old(self)@)),
            r is Ok ==> kept(old(self)@, final(self)@) && final(self)@.at_kind(TokenType::EOF),
            r is Ok ==> final(self)@.code.len() > 0,
            r is Ok ==> exists|functions: Seq<char>, program: Seq<char>|
                final(self)@.code == old(self)@.code + functions + MAIN_OPEN@ + program
                    + MAIN_CLOSE@,
            r is Ok && clean_tokens(old(self)@.tokens) && level_of(old(self)@.code).good()
                ==> level_of(final(self)@.code) == level_of(old(self)@.code),
            grows(old(self)@.code, final(self)@.code),
    {
        proof {
            reveal_strlit("int main() {\n");
            lemma_parse_is_append_only(self@);
            if spec_start(self@) is Ok && clean_tokens(self@.tokens) && level_of(
                self@.code,
            ).good() {
                lemma_parse_keeps_level(self@);
            }
        }
        self.start()
    }

    /// The translation written so far.
    pub fn emit(&self) -> (code: String)
        ensures
            code@ == self@.code,
    {
        self.intermediary_code.clone()
    }
}

} // verus!
