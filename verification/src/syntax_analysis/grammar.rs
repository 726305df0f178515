//! The grammar, as functions on parse states.
//!
//! A [`ParseState`] is what the parser knows at one moment: the tokens, the
//! place of the current token, the chain of scopes and the text written so
//! far. Each production of the grammar is a function from the state in which
//! it starts to the state in which it ends, or to the error that stops the
//! parse. Productions that stand for an expression also give the text that
//! the expression is rendered as.
//!
//! ```text
//! start      -> funcdecl* program
//! program    -> segment (until the end marker)
//! segment    -> block? decls? stmts
//! block      -> '{' segment* '}'
//! decls      -> decl*
//! decl       -> type ID ';'
//! stmts      -> stmt*
//! stmt       -> func ';' | asgn | block | for | if | while | do-while
//!             | funcdecl | 'break' ';' | 'continue' ';' | return
//! type       -> TYPE ('[' NUMBER ']')?
//! asgn       -> ID ('=' | '+=' | '-=') value ';'
//! value      -> STRING | expr
//! expr       -> bnr (('+' | '-') expr)?
//! bnr        -> term (('&' | '|') bnr)?
//! term       -> unit (('*' | '/' | '%') term)?
//! unit       -> ('-' | '++' | '--') unit | factor
//! factor     -> NUMBER | '(' expr ')' | ID | 'true' | 'false' | func
//! boolexpr   -> join ('||' boolexpr)?
//! join       -> equality ('&&' join)?
//! equality   -> cmp (('==' | '!=') equality)?
//! cmp        -> expr COMPARATOR expr
//! funcdecl   -> 'func' type ID '(' paramsdecl ')' block
//! paramsdecl -> (type ID (',' paramsdecl)?)?
//! func       -> ID '(' params ')'
//! params     -> (value (',' params)?)?
//! ```
//!
//! The binary operators are right-recursive, as written: `a - b - c` is read
//! and rendered as it stands, and nothing here regroups it.
//!
//! A function is visible from the end of its header on, so its own body may
//! call it.
//!
//! The productions call each other, so each definition must be shown to end.
//! The measure is the number of tokens left, then the rank of the production.
//! Where a production goes on after another one, it asks that the cursor did
//! not move backwards ([`ParseState::follows`]), or that it moved forwards
//! ([`ParseState::after`]) before going round a cycle of the grammar. From a
//! well-formed state every production that succeeds meets those demands,
//! which [`crate::syntax_analysis::progress`] proves; the states that fail
//! them are answered with [`stuck`] only so that the definitions are total.

use vstd::prelude::*;
use crate::error::JuvinilErrorView;
use crate::lexical_analysis::token::{TokenType, TokenView};
use crate::syntax_analysis::scope::{
    FunctionView, ScopeView, assert_assigned, assign, declare_parameter, declare_variable,
    lookup_function, lookup_variable, pop_scope, push_scope,
};
use crate::text::quoted;

verus! {

/// What the parser knows at one moment.
pub struct ParseState {
    /// The tokens, closed by the end marker.
    pub tokens: Seq<TokenView>,
    /// The place of the current token.
    pub pos: int,
    /// The chain of scopes, outermost first.
    pub scopes: Seq<ScopeView>,
    /// The translation written so far.
    pub code: Seq<char>,
}

/// How a production fails: the error, and the state in which it was met. A
/// check that fails leaves the state as it found it, so what was read and
/// written up to the error stands.
pub struct Failure {
    pub error: JuvinilErrorView,
    pub state: ParseState,
}

/// The failure of a check that was made in the state `st`.
pub open spec fn fail(st: ParseState, error: JuvinilErrorView) -> Failure {
    Failure { error, state: st }
}

/// The outcome of a production that produces no text of its own.
pub type Step = Result<ParseState, Failure>;

/// The outcome of a production that gives a value: most often the text that
/// an expression is rendered as.
pub type Parsed<T> = Result<(T, ParseState), Failure>;

impl ParseState {
    /// The cursor is on a token, the last token is the end marker, and there
    /// is a scope to declare in.
    pub open spec fn wf(self) -> bool {
        &&& 0 <= self.pos < self.tokens.len()
        &&& self.tokens.last().token_type == TokenType::EOF
        &&& self.scopes.len() >= 1
    }

    /// How many tokens are left, the current one included.
    pub open spec fn remaining(self) -> nat {
        if self.pos < self.tokens.len() {
            (self.tokens.len() - self.pos) as nat
        } else {
            0
        }
    }

    /// The current token.
    pub open spec fn current(self) -> TokenView {
        self.tokens[self.pos]
    }

    /// The line of the current token.
    pub open spec fn line(self) -> usize {
        self.current().file_line
    }

    /// Whether the current token reads `text`.
    pub open spec fn at(self, text: Seq<char>) -> bool {
        self.current().value == text
    }

    /// Whether the current token is of the kind `kind`.
    pub open spec fn at_kind(self, kind: TokenType) -> bool {
        self.current().token_type == kind
    }

    /// Whether there is a token after the current one and it reads `text`.
    pub open spec fn next_is(self, text: Seq<char>) -> bool {
        self.pos + 1 < self.tokens.len() && self.tokens[self.pos + 1].value == text
    }

    /// The state with the cursor one token further; on the last token the
    /// cursor stays.
    pub open spec fn advance(self) -> ParseState {
        if self.pos + 1 < self.tokens.len() {
            ParseState { pos: self.pos + 1, ..self }
        } else {
            self
        }
    }

    /// The state with `text` added to the translation.
    pub open spec fn emit(self, text: Seq<char>) -> ParseState {
        ParseState { code: self.code + text, ..self }
    }

    /// The state with another chain of scopes.
    pub open spec fn with_scopes(self, scopes: Seq<ScopeView>) -> ParseState {
        ParseState { scopes, ..self }
    }

    /// The state with nothing written yet.
    pub open spec fn blank(self) -> ParseState {
        ParseState { code: Seq::empty(), ..self }
    }

    /// The cursor is not before that of `earlier`.
    pub open spec fn follows(self, earlier: ParseState) -> bool {
        self.remaining() <= earlier.remaining()
    }

    /// The cursor is beyond that of `earlier`.
    pub open spec fn after(self, earlier: ParseState) -> bool {
        self.remaining() < earlier.remaining()
    }
}

/// From `old` to `new` the tokens are the same, the cursor did not move
/// backwards and the chain of scopes kept its depth.
pub open spec fn kept(old: ParseState, new: ParseState) -> bool {
    new.tokens == old.tokens && new.follows(old) && new.scopes.len() == old.scopes.len()
}

/// From `old` to `new` the tokens are the same, the cursor moved forwards and
/// the chain of scopes kept its depth.
pub open spec fn moved(old: ParseState, new: ParseState) -> bool {
    new.tokens == old.tokens && new.after(old) && new.scopes.len() == old.scopes.len()
}

/// The state in which a parse of `tokens` starts: the cursor on the first
/// token, one empty scope, and the heading of the translation written.
pub open spec fn initial_state(tokens: Seq<TokenView>) -> ParseState {
    ParseState { tokens, pos: 0, scopes: push_scope(Seq::empty()), code: preamble() }
}

/// The heading of every translation.
pub open spec fn preamble() -> Seq<char> {
    PREAMBLE@
}

/// The heading of every translation.
pub const PREAMBLE: &'static str =
    "#include <stdio.h>\n#include <string>\n#include <cstdlib>\n#include <conio.h>\nusing namespace std;\n\n";

/// What opens the entry point that wraps the program.
pub const MAIN_OPEN: &'static str = "int main() {\n";

/// What closes the entry point that wraps the program.
pub const MAIN_CLOSE: &'static str = "\n\ngetch();\n}\n";

/// The answer for a state in which the cursor went backwards or stood still
/// where it had to move: a syntax error that asks for the end marker.
pub open spec fn stuck(st: ParseState) -> Failure {
    fail(st, JuvinilErrorView::SyntaxError(TokenType::EOF, Seq::empty(), st.current(), st.line()))
}

/// Takes the current token if it is of the kind `kind` and, where `text` is
/// given, reads `text`.
pub open spec fn consume(st: ParseState, kind: TokenType, text: Option<Seq<char>>) -> Step {
    if !st.at_kind(kind) || (text is Some && !st.at(text->0)) {
        Err(
            fail(
                st,
                JuvinilErrorView::SyntaxError(
                    kind,
                    match text {
                        Some(t) => t,
                        None => Seq::empty(),
                    },
                    st.current(),
                    st.line(),
                ),
            ),
        )
    } else {
        Ok(st.advance())
    }
}

/// `;`, which ends a statement.
pub open spec fn spec_endexpr(st: ParseState) -> Step {
    consume(st, TokenType::SYMBOL, Some(";"@))
}

/// The name that the translation gives to the type `name`.
pub open spec fn target_type(name: Seq<char>) -> Option<Seq<char>> {
    if name == "void"@ {
        Some("void"@)
    } else if name == "int"@ {
        Some("int"@)
    } else if name == "float"@ {
        Some("float"@)
    } else if name == "boolean"@ {
        Some("bool"@)
    } else if name == "char"@ {
        Some("char"@)
    } else if name == "string"@ {
        Some("string"@)
    } else {
        None
    }
}

/// A type as it was read.
pub struct TypeView {
    /// Its name in the source.
    pub name: Seq<char>,
    /// Its name in the translation.
    pub target: Seq<char>,
    /// The array suffix `[n]`, or nothing.
    pub suffix: Seq<char>,
}

/// `type -> TYPE ('[' NUMBER ']')?`
///
/// The token must be of the kind TYPE and name one of the six types.
pub open spec fn spec_jvtype(st: ParseState) -> Parsed<TypeView> {
    if !st.at_kind(TokenType::TYPE) || target_type(st.current().value) is None {
        Err(
            fail(
                st,
                JuvinilErrorView::SyntaxError(
                    TokenType::TYPE,
                    Seq::empty(),
                    st.current(),
                    st.line(),
                ),
            ),
        )
    } else {
        let name = st.current().value;
        let target = target_type(name)->0;
        let st1 = st.advance();
        if st1.at("["@) {
            match consume(st1, TokenType::SYMBOL, Some("["@)) {
                Err(e) => Err(e),
                Ok(st2) => match consume(st2, TokenType::NUMBER, None) {
                    Err(e) => Err(e),
                    Ok(st3) => match consume(st3, TokenType::SYMBOL, Some("]"@)) {
                        Err(e) => Err(e),
                        Ok(st4) => Ok(
                            (
                                TypeView {
                                    name,
                                    target,
                                    suffix: "["@ + st2.current().value + "]"@,
                                },
                                st4,
                            ),
                        ),
                    },
                },
            }
        } else {
            Ok((TypeView { name, target, suffix: Seq::empty() }, st1))
        }
    }
}

/// `decl -> type ID ';'`
///
/// Declares the variable in the innermost scope and writes the declaration.
pub open spec fn spec_decl(st: ParseState) -> Step {
    match spec_jvtype(st) {
        Err(e) => Err(e),
        Ok((ty, st1)) => {
            let name = st1.current().value;
            match declare_variable(st1.scopes, ty.name, name, st1.line()) {
                Err(e) => Err(fail(st1, e)),
                Ok(scopes) => match consume(st1, TokenType::ID, None) {
                    Err(e) => Err(e),
                    Ok(st2) => match spec_endexpr(st2) {
                        Err(e) => Err(e),
                        Ok(st3) => Ok(
                            st3.emit(ty.target + " "@ + name + ty.suffix + ";\n"@).with_scopes(
                                scopes,
                            ),
                        ),
                    },
                },
            }
        },
    }
}

/// `decls -> decl*`, for as long as the current token is a type.
pub open spec fn spec_decls(st: ParseState) -> Step
    decreases st.remaining(),
{
    if st.at_kind(TokenType::TYPE) {
        match spec_decl(st) {
            Err(e) => Err(e),
            Ok(st1) => if st1.after(st) {
                spec_decls(st1)
            } else {
                Ok(st1)
            },
        }
    } else {
        Ok(st)
    }
}

/// Whether a statement can start with `token`.
pub open spec fn starts_statement(token: TokenView) -> bool {
    ||| token.token_type == TokenType::ID
    ||| token.value == "for"@
    ||| token.value == "if"@
    ||| token.value == "while"@
    ||| token.value == "do"@
    ||| token.value == "break"@
    ||| token.value == "continue"@
    ||| token.value == "return"@
    ||| token.value == "{"@
    ||| token.value == "func"@
}

/// `func -> ID '(' params ')'`
///
/// The function must be declared, unless it is `printf`.
pub open spec fn spec_func(st: ParseState) -> Parsed<Seq<char>>
    decreases st.remaining(), 0nat,
{
    let name = st.current().value;
    if name != "printf"@ && lookup_function(st.scopes, name) is None {
        Err(fail(st, JuvinilErrorView::UndeclaredFunction(name, st.line())))
    } else {
        match consume(st, TokenType::ID, None) {
            Err(e) => Err(e),
            Ok(st1) => match consume(st1, TokenType::SYMBOL, Some("("@)) {
                Err(e) => Err(e),
                Ok(st2) => if !st2.after(st) {
                    Err(stuck(st2))
                } else {
                    match spec_params(st2) {
                        Err(e) => Err(e),
                        Ok((arguments, st3)) => match consume(
                            st3,
                            TokenType::SYMBOL,
                            Some(")"@),
                        ) {
                            Err(e) => Err(e),
                            Ok(st4) => Ok((name + " ("@ + arguments + ")"@, st4)),
                        },
                    }
                },
            },
        }
    }
}

/// `factor -> NUMBER | '(' expr ')' | ID | 'true' | 'false' | func`
///
/// A variable that is read must have been assigned.
pub open spec fn spec_factor(st: ParseState) -> Parsed<Seq<char>>
    decreases st.remaining(), 1nat,
{
    if st.at_kind(TokenType::NUMBER) {
        match consume(st, TokenType::NUMBER, None) {
            Err(e) => Err(e),
            Ok(st1) => Ok((st.current().value, st1)),
        }
    } else if st.at("("@) {
        match consume(st, TokenType::SYMBOL, Some("("@)) {
            Err(e) => Err(e),
            Ok(st1) => if !st1.after(st) {
                Err(stuck(st1))
            } else {
                match spec_expr(st1) {
                    Err(e) => Err(e),
                    Ok((inner, st2)) => match consume(st2, TokenType::SYMBOL, Some(")"@)) {
                        Err(e) => Err(e),
                        Ok(st3) => Ok(("("@ + inner + ")"@, st3)),
                    },
                }
            },
        }
    } else if st.at_kind(TokenType::ID) && st.pos + 1 < st.tokens.len() && !st.next_is("("@) {
        match assert_assigned(st.scopes, st.current().value, st.line()) {
            Err(e) => Err(fail(st, e)),
            Ok(_) => match consume(st, TokenType::ID, None) {
                Err(e) => Err(e),
                Ok(st1) => Ok((st.current().value, st1)),
            },
        }
    } else if st.at("true"@) || st.at("false"@) {
        match consume(st, TokenType::KEYWORD, None) {
            Err(e) => Err(e),
            Ok(st1) => Ok((st.current().value, st1)),
        }
    } else {
        spec_func(st)
    }
}

/// `unit -> ('-' | '++' | '--') unit | factor`
pub open spec fn spec_unit(st: ParseState) -> Parsed<Seq<char>>
    decreases st.remaining(), 2nat,
{
    if st.at("-"@) || st.at("++"@) || st.at("--"@) {
        match consume(st, TokenType::OPERATOR, None) {
            Err(e) => Err(e),
            Ok(st1) => if !st1.after(st) {
                Err(stuck(st1))
            } else {
                match spec_unit(st1) {
                    Err(e) => Err(e),
                    Ok((operand, st2)) => Ok((st.current().value + operand, st2)),
                }
            },
        }
    } else {
        spec_factor(st)
    }
}

/// `term -> unit (('*' | '/' | '%') term)?`
pub open spec fn spec_term(st: ParseState) -> Parsed<Seq<char>>
    decreases st.remaining(), 3nat,
{
    match spec_unit(st) {
        Err(e) => Err(e),
        Ok((left, st1)) => if st1.at("*"@) || st1.at("/"@) || st1.at("%"@) {
            match consume(st1, TokenType::OPERATOR, None) {
                Err(e) => Err(e),
                Ok(st2) => if !st2.after(st) {
                    Err(stuck(st2))
                } else {
                    match spec_term(st2) {
                        Err(e) => Err(e),
                        Ok((right, st3)) => Ok((left + st1.current().value + right, st3)),
                    }
                },
            }
        } else {
            Ok((left, st1))
        },
    }
}

/// `bnr -> term (('&' | '|') bnr)?`
pub open spec fn spec_bnr(st: ParseState) -> Parsed<Seq<char>>
    decreases st.remaining(), 4nat,
{
    match spec_term(st) {
        Err(e) => Err(e),
        Ok((left, st1)) => if st1.at("&"@) || st1.at("|"@) {
            match consume(st1, TokenType::OPERATOR, None) {
                Err(e) => Err(e),
                Ok(st2) => if !st2.after(st) {
                    Err(stuck(st2))
                } else {
                    match spec_bnr(st2) {
                        Err(e) => Err(e),
                        Ok((right, st3)) => Ok((left + st1.current().value + right, st3)),
                    }
                },
            }
        } else {
            Ok((left, st1))
        },
    }
}

/// `expr -> bnr (('+' | '-') expr)?`
pub open spec fn spec_expr(st: ParseState) -> Parsed<Seq<char>>
    decreases st.remaining(), 5nat,
{
    match spec_bnr(st) {
        Err(e) => Err(e),
        Ok((left, st1)) => if st1.at("+"@) || st1.at("-"@) {
            match consume(st1, TokenType::OPERATOR, None) {
                Err(e) => Err(e),
                Ok(st2) => if !st2.after(st) {
                    Err(stuck(st2))
                } else {
                    match spec_expr(st2) {
                        Err(e) => Err(e),
                        Ok((right, st3)) => Ok((left + st1.current().value + right, st3)),
                    }
                },
            }
        } else {
            Ok((left, st1))
        },
    }
}

/// `value -> STRING | expr`
///
/// A string literal is rendered between double quotes.
pub open spec fn spec_value(st: ParseState) -> Parsed<Seq<char>>
    decreases st.remaining(), 6nat,
{
    if st.at_kind(TokenType::STRING) {
        match consume(st, TokenType::STRING, None) {
            Err(e) => Err(e),
            Ok(st1) => Ok((quoted(st.current().value), st1)),
        }
    } else {
        spec_expr(st)
    }
}

/// `params -> (value (',' params)?)?`
pub open spec fn spec_params(st: ParseState) -> Parsed<Seq<char>>
    decreases st.remaining(), 7nat,
{
    if st.at(")"@) {
        Ok((Seq::empty(), st))
    } else {
        match spec_value(st) {
            Err(e) => Err(e),
            Ok((first, st1)) => if st1.at(","@) {
                match consume(st1, TokenType::SYMBOL, Some(","@)) {
                    Err(e) => Err(e),
                    Ok(st2) => if !st2.after(st) {
                        Err(stuck(st2))
                    } else {
                        match spec_params(st2) {
                            Err(e) => Err(e),
                            Ok((rest, st3)) => Ok((first + ", "@ + rest, st3)),
                        }
                    },
                }
            } else {
                Ok((first, st1))
            },
        }
    }
}

/// `cmp -> expr COMPARATOR expr`
pub open spec fn spec_cmp(st: ParseState) -> Parsed<Seq<char>>
    decreases st.remaining(), 8nat,
{
    match spec_expr(st) {
        Err(e) => Err(e),
        Ok((left, st1)) => match consume(st1, TokenType::COMPARATOR, None) {
            Err(e) => Err(e),
            Ok(st2) => if !st2.after(st) {
                Err(stuck(st2))
            } else {
                match spec_expr(st2) {
                    Err(e) => Err(e),
                    Ok((right, st3)) => Ok(
                        (left + " "@ + st1.current().value + " "@ + right, st3),
                    ),
                }
            },
        },
    }
}

/// `equality -> cmp (('==' | '!=') equality)?`
pub open spec fn spec_equality(st: ParseState) -> Parsed<Seq<char>>
    decreases st.remaining(), 9nat,
{
    match spec_cmp(st) {
        Err(e) => Err(e),
        Ok((left, st1)) => if st1.at("=="@) || st1.at("!="@) {
            match consume(st1, TokenType::COMPARATOR, None) {
                Err(e) => Err(e),
                Ok(st2) => if !st2.after(st) {
                    Err(stuck(st2))
                } else {
                    match spec_equality(st2) {
                        Err(e) => Err(e),
                        Ok((right, st3)) => Ok(
                            (left + " "@ + st1.current().value + " "@ + right, st3),
                        ),
                    }
                },
            }
        } else {
            Ok((left, st1))
        },
    }
}

/// `join -> equality ('&&' join)?`
pub open spec fn spec_join(st: ParseState) -> Parsed<Seq<char>>
    decreases st.remaining(), 10nat,
{
    match spec_equality(st) {
        Err(e) => Err(e),
        Ok((left, st1)) => if st1.at("&&"@) {
            match consume(st1, TokenType::COMPARATOR, None) {
                Err(e) => Err(e),
                Ok(st2) => if !st2.after(st) {
                    Err(stuck(st2))
                } else {
                    match spec_join(st2) {
                        Err(e) => Err(e),
                        Ok((right, st3)) => Ok(
                            (left + " "@ + st1.current().value + " "@ + right, st3),
                        ),
                    }
                },
            }
        } else {
            Ok((left, st1))
        },
    }
}

/// `boolexpr -> join ('||' boolexpr)?`
pub open spec fn spec_boolexpr(st: ParseState) -> Parsed<Seq<char>>
    decreases st.remaining(), 11nat,
{
    match spec_join(st) {
        Err(e) => Err(e),
        Ok((left, st1)) => if st1.at("||"@) {
            match consume(st1, TokenType::COMPARATOR, None) {
                Err(e) => Err(e),
                Ok(st2) => if !st2.after(st) {
                    Err(stuck(st2))
                } else {
                    match spec_boolexpr(st2) {
                        Err(e) => Err(e),
                        Ok((right, st3)) => Ok(
                            (left + " "@ + st1.current().value + " "@ + right, st3),
                        ),
                    }
                },
            }
        } else {
            Ok((left, st1))
        },
    }
}

/// `'(' boolexpr ')'`, the condition of a control statement.
pub open spec fn spec_condition(st: ParseState) -> Parsed<Seq<char>>
    decreases st.remaining(), 12nat,
{
    match consume(st, TokenType::SYMBOL, Some("("@)) {
        Err(e) => Err(e),
        Ok(st1) => if !st1.follows(st) {
            Err(stuck(st1))
        } else {
            match spec_boolexpr(st1) {
                Err(e) => Err(e),
                Ok((condition, st2)) => match consume(st2, TokenType::SYMBOL, Some(")"@)) {
                    Err(e) => Err(e),
                    Ok(st3) => Ok((condition, st3)),
                },
            }
        },
    }
}

/// `asgn -> ID ('=' | '+=' | '-=') value ';'`
///
/// The variable must be declared. It counts as assigned once the whole
/// assignment is read, so a value that reads the variable itself needs an
/// earlier assignment.
pub open spec fn spec_asgn(st: ParseState) -> Step
    decreases st.remaining(), 13nat,
{
    let name = st.current().value;
    if lookup_variable(st.scopes, name) is None {
        Err(fail(st, JuvinilErrorView::UndeclaredVariable(name, st.line())))
    } else {
        match consume(st, TokenType::ID, None) {
            Err(e) => Err(e),
            Ok(st1) => {
                let operator = st1.current().value;
                let expected = if operator == "+="@ {
                    "+="@
                } else if operator == "-="@ {
                    "-="@
                } else {
                    "="@
                };
                match consume(st1, TokenType::OPERATOR, Some(expected)) {
                    Err(e) => Err(e),
                    Ok(st2) => if !st2.follows(st) {
                        Err(stuck(st2))
                    } else {
                        match spec_value(st2) {
                            Err(e) => Err(e),
                            Ok((value, st3)) => match spec_endexpr(st3) {
                                Err(e) => Err(e),
                                Ok(st4) => match assign(st4.scopes, name, st4.line()) {
                                    Err(e) => Err(fail(st4, e)),
                                    Ok(scopes) => Ok(
                                        st4.with_scopes(scopes).emit(
                                            name + " "@ + operator + " "@ + value + ";"@,
                                        ),
                                    ),
                                },
                            },
                        }
                    },
                }
            },
        }
    }
}

/// `return -> 'return' value? ';'`
pub open spec fn spec_stmt_return(st: ParseState) -> Step
    decreases st.remaining(), 14nat,
{
    match consume(st, TokenType::KEYWORD, Some("return"@)) {
        Err(e) => Err(e),
        Ok(st1) => {
            let returned = if st1.at(";"@) {
                Ok((Seq::empty(), st1))
            } else if !st1.follows(st) {
                Err(stuck(st1))
            } else {
                spec_value(st1)
            };
            match returned {
                Err(e) => Err(e),
                Ok((value, st2)) => match spec_endexpr(st2) {
                    Err(e) => Err(e),
                    Ok(st3) => Ok(st3.emit("return "@ + value + ";\n"@)),
                },
            }
        },
    }
}

/// The declared parameters: the text they are rendered as, and their types.
pub struct ParametersView {
    pub text: Seq<char>,
    pub types: Seq<Seq<char>>,
}

/// `paramsdecl -> (type ID (',' paramsdecl)?)?`
///
/// Each parameter is declared in the innermost scope, as assigned.
pub open spec fn spec_paramsdecl(st: ParseState) -> Parsed<ParametersView>
    decreases st.remaining(),
{
    if st.at(")"@) {
        Ok((ParametersView { text: Seq::empty(), types: Seq::empty() }, st))
    } else {
        match spec_jvtype(st) {
            Err(e) => Err(e),
            Ok((ty, st1)) => {
                let name = st1.current().value;
                match declare_parameter(st1.scopes, ty.name, name, st1.line()) {
                    Err(e) => Err(fail(st1, e)),
                    Ok(scopes) => match consume(st1, TokenType::ID, None) {
                        Err(e) => Err(e),
                        Ok(st2) => {
                            let st3 = st2.with_scopes(scopes);
                            let text = ty.target + " "@ + name + ty.suffix;
                            let declared_type = ty.target + ty.suffix;
                            if st3.at(","@) {
                                match consume(st3, TokenType::SYMBOL, Some(","@)) {
                                    Err(e) => Err(e),
                                    Ok(st4) => if !st4.after(st) {
                                        Err(stuck(st4))
                                    } else {
                                        match spec_paramsdecl(st4) {
                                            Err(e) => Err(e),
                                            Ok((rest, st5)) => Ok(
                                                (
                                                    ParametersView {
                                                        text: text + ","@ + rest.text,
                                                        types: seq![declared_type] + rest.types,
                                                    },
                                                    st5,
                                                ),
                                            ),
                                        }
                                    },
                                }
                            } else {
                                Ok(
                                    (
                                        ParametersView { text, types: seq![declared_type] },
                                        st3,
                                    ),
                                )
                            }
                        },
                    },
                }
            },
        }
    }
}

/// The name of the function that a declaration starting at `st` declares:
/// what stands behind `func` and the type.
pub open spec fn declared_name(st: ParseState) -> Seq<char> {
    match consume(st, TokenType::KEYWORD, Some("func"@)) {
        Err(_) => Seq::empty(),
        Ok(st1) => match spec_jvtype(st1) {
            Err(_) => Seq::empty(),
            Ok((_, st2)) => st2.current().value,
        },
    }
}

/// What `funcdecl` has read when it reaches the body: the state, in which the
/// function stands declared in the scope around its parameters and its header
/// is written.
pub open spec fn spec_funcheader(st: ParseState) -> Step {
    match consume(st, TokenType::KEYWORD, Some("func"@)) {
        Err(e) => Err(e),
        Ok(st1) => match spec_jvtype(st1) {
            Err(e) => Err(e),
            Ok((ty, st2)) => {
                let name = st2.current().value;
                if st2.scopes.last().function_index(name) is Some {
                    Err(fail(st2, JuvinilErrorView::DuplicateFunction(name, st2.line())))
                } else {
                    match consume(st2, TokenType::ID, None) {
                        Err(e) => Err(e),
                        Ok(st3) => match consume(
                            st3.with_scopes(push_scope(st3.scopes)),
                            TokenType::SYMBOL,
                            Some("("@),
                        ) {
                            Err(e) => Err(e),
                            Ok(st4) => match spec_paramsdecl(st4) {
                                Err(e) => Err(e),
                                Ok((parameters, st5)) => match consume(
                                    st5,
                                    TokenType::SYMBOL,
                                    Some(")"@),
                                ) {
                                    Err(e) => Err(e),
                                    Ok(st6) => {
                                        let return_type = ty.target + ty.suffix;
                                        let function = FunctionView {
                                            return_type,
                                            func_name: name,
                                            params: parameters.types,
                                        };
                                        let outer = st6.scopes.len() - 2;
                                        Ok(
                                            st6.with_scopes(
                                                st6.scopes.update(
                                                    outer,
                                                    st6.scopes[outer].with_function(function),
                                                ),
                                            ).emit(
                                                return_type + " "@ + name + " ("@
                                                    + parameters.text + ")"@,
                                            ),
                                        )
                                    },
                                },
                            },
                        },
                    }
                }
            },
        },
    }
}

/// `block -> '{' segment* '}'`, in a scope of its own.
pub open spec fn spec_block(st: ParseState) -> Step
    decreases st.remaining(), 20nat,
{
    match consume(st.with_scopes(push_scope(st.scopes)), TokenType::SYMBOL, Some("{"@)) {
        Err(e) => Err(e),
        Ok(st1) => if !st1.after(st) {
            Err(stuck(st1))
        } else {
            match spec_block_items(st1.emit("{\n"@)) {
                Err(e) => Err(e),
                Ok(st2) => match consume(st2, TokenType::SYMBOL, Some("}"@)) {
                    Err(e) => Err(e),
                    Ok(st3) => Ok(st3.emit("}\n"@).with_scopes(pop_scope(st3.scopes))),
                },
            }
        },
    }
}

/// `for -> 'for' '(' asgn boolexpr ')' block`
pub open spec fn spec_stmt_for(st: ParseState) -> Step
    decreases st.remaining(), 21nat,
{
    match consume(st, TokenType::KEYWORD, Some("for"@)) {
        Err(e) => Err(e),
        Ok(st1) => match consume(st1, TokenType::SYMBOL, Some("("@)) {
            Err(e) => Err(e),
            Ok(st2) => if !st2.follows(st) {
                Err(stuck(st2))
            } else {
                match spec_asgn(st2.emit("for("@)) {
                    Err(e) => Err(e),
                    Ok(st3) => if !st3.follows(st) {
                        Err(stuck(st3))
                    } else {
                        match spec_boolexpr(st3) {
                            Err(e) => Err(e),
                            Ok((condition, st4)) => match consume(
                                st4,
                                TokenType::SYMBOL,
                                Some(")"@),
                            ) {
                                Err(e) => Err(e),
                                Ok(st5) => if !st5.follows(st) {
                                    Err(stuck(st5))
                                } else {
                                    spec_block(st5.emit(" "@ + condition + " ;)"@))
                                },
                            },
                        }
                    },
                }
            },
        },
    }
}

/// `if -> 'if' '(' boolexpr ')' block ('else' block)?`
pub open spec fn spec_stmt_if(st: ParseState) -> Step
    decreases st.remaining(), 21nat,
{
    match consume(st, TokenType::KEYWORD, Some("if"@)) {
        Err(e) => Err(e),
        Ok(st1) => if !st1.follows(st) {
            Err(stuck(st1))
        } else {
            match spec_condition(st1) {
                Err(e) => Err(e),
                Ok((condition, st2)) => if !st2.follows(st) {
                    Err(stuck(st2))
                } else {
                    match spec_block(st2.emit("if ("@ + condition + ")"@)) {
                        Err(e) => Err(e),
                        Ok(st3) => if st3.at("else"@) {
                            match consume(st3, TokenType::KEYWORD, Some("else"@)) {
                                Err(e) => Err(e),
                                Ok(st4) => if !st4.follows(st) {
                                    Err(stuck(st4))
                                } else {
                                    spec_block(st4.emit("else "@))
                                },
                            }
                        } else {
                            Ok(st3)
                        },
                    }
                },
            }
        },
    }
}

/// `while -> 'while' '(' boolexpr ')' block`
pub open spec fn spec_stmt_while(st: ParseState) -> Step
    decreases st.remaining(), 21nat,
{
    match consume(st, TokenType::KEYWORD, Some("while"@)) {
        Err(e) => Err(e),
        Ok(st1) => if !st1.follows(st) {
            Err(stuck(st1))
        } else {
            match spec_condition(st1) {
                Err(e) => Err(e),
                Ok((condition, st2)) => if !st2.follows(st) {
                    Err(stuck(st2))
                } else {
                    spec_block(st2.emit("while("@ + condition + ") "@))
                },
            }
        },
    }
}

/// `do-while -> 'do' block 'while' '(' boolexpr ')' ';'`
pub open spec fn spec_stmt_do_while(st: ParseState) -> Step
    decreases st.remaining(), 21nat,
{
    match consume(st, TokenType::KEYWORD, Some("do"@)) {
        Err(e) => Err(e),
        Ok(st1) => if !st1.follows(st) {
            Err(stuck(st1))
        } else {
            match spec_block(st1.emit("do "@)) {
                Err(e) => Err(e),
                Ok(st2) => match consume(st2, TokenType::KEYWORD, Some("while"@)) {
                    Err(e) => Err(e),
                    Ok(st3) => if !st3.follows(st) {
                        Err(stuck(st3))
                    } else {
                        match spec_condition(st3) {
                            Err(e) => Err(e),
                            Ok((condition, st4)) => match spec_endexpr(st4) {
                                Err(e) => Err(e),
                                Ok(st5) => Ok(st5.emit("while("@ + condition + ");\n"@)),
                            },
                        }
                    },
                },
            }
        },
    }
}

/// `funcdecl -> 'func' type ID '(' paramsdecl ')' block`
///
/// The parameters and the body share a scope of their own. The function is
/// declared in the scope around it as soon as its header is read.
pub open spec fn spec_funcdecl(st: ParseState) -> Step
    decreases st.remaining(), 21nat,
{
    match spec_funcheader(st) {
        Err(e) => Err(e),
        Ok(st1) => if !st1.follows(st) {
            Err(stuck(st1))
        } else {
            match spec_block(st1) {
                Err(e) => Err(e),
                Ok(st2) => Ok(st2.with_scopes(pop_scope(st2.scopes))),
            }
        },
    }
}

/// One statement.
pub open spec fn spec_stmt(st: ParseState) -> Step
    decreases st.remaining(), 22nat,
{
    if st.at_kind(TokenType::ID) {
        if st.next_is("("@) {
            match spec_func(st) {
                Err(e) => Err(e),
                Ok((call, st1)) => match spec_endexpr(st1) {
                    Err(e) => Err(e),
                    Ok(st2) => Ok(st2.emit(call + ";\n"@)),
                },
            }
        } else {
            match spec_asgn(st) {
                Err(e) => Err(e),
                Ok(st1) => Ok(st1.emit("\n"@)),
            }
        }
    } else if st.at("{"@) {
        spec_block(st)
    } else if st.at("for"@) {
        spec_stmt_for(st)
    } else if st.at("if"@) {
        spec_stmt_if(st)
    } else if st.at("while"@) {
        spec_stmt_while(st)
    } else if st.at("do"@) {
        spec_stmt_do_while(st)
    } else if st.at("func"@) {
        spec_funcdecl(st)
    } else if st.at("break"@) {
        match consume(st, TokenType::KEYWORD, Some("break"@)) {
            Err(e) => Err(e),
            Ok(st1) => match spec_endexpr(st1) {
                Err(e) => Err(e),
                Ok(st2) => Ok(st2.emit("break;\n"@)),
            },
        }
    } else if st.at("continue"@) {
        match consume(st, TokenType::KEYWORD, Some("continue"@)) {
            Err(e) => Err(e),
            Ok(st1) => match spec_endexpr(st1) {
                Err(e) => Err(e),
                Ok(st2) => Ok(st2.emit("continue;\n"@)),
            },
        }
    } else {
        spec_stmt_return(st)
    }
}

/// `stmts -> stmt*`, for as long as the current token can start a statement.
pub open spec fn spec_stmts(st: ParseState) -> Step
    decreases st.remaining(), 23nat,
{
    if starts_statement(st.current()) {
        match spec_stmt(st) {
            Err(e) => Err(e),
            Ok(st1) => if st1.after(st) {
                spec_stmts(st1)
            } else {
                Ok(st1)
            },
        }
    } else {
        Ok(st)
    }
}

/// `segment -> block? decls? stmts`
pub open spec fn spec_segment(st: ParseState) -> Step
    decreases st.remaining(), 24nat,
{
    let after_block = if st.at("{"@) {
        spec_block(st)
    } else {
        Ok(st)
    };
    match after_block {
        Err(e) => Err(e),
        Ok(st1) => {
            let after_decls = if st1.at_kind(TokenType::TYPE) {
                spec_decls(st1)
            } else {
                Ok(st1)
            };
            match after_decls {
                Err(e) => Err(e),
                Ok(st2) => if !st2.follows(st) {
                    Err(stuck(st2))
                } else {
                    spec_stmts(st2)
                },
            }
        },
    }
}

/// The inside of a block: segments up to the closing brace. A token that no
/// segment can take ends it as well, and is then refused by `block`.
pub open spec fn spec_block_items(st: ParseState) -> Step
    decreases st.remaining(), 25nat,
{
    if st.at("}"@) {
        Ok(st)
    } else {
        match spec_segment(st) {
            Err(e) => Err(e),
            Ok(st1) => if st1.after(st) {
                spec_block_items(st1)
            } else {
                Ok(st1)
            },
        }
    }
}

/// `program -> segment*`, up to the end marker. A token that no segment can
/// take is a syntax error that asks for the end marker.
pub open spec fn spec_program(st: ParseState) -> Step
    decreases st.remaining(), 25nat,
{
    match spec_segment(st) {
        Err(e) => Err(e),
        Ok(st1) => if st1.at_kind(TokenType::EOF) {
            Ok(st1)
        } else if st1.after(st) {
            spec_program(st1)
        } else {
            Err(stuck(st1))
        },
    }
}

/// `funcdecl*`, for as long as the current token reads `func`.
pub open spec fn spec_funcdecls(st: ParseState) -> Step
    decreases st.remaining(), 25nat,
{
    if st.at("func"@) {
        match spec_funcdecl(st) {
            Err(e) => Err(e),
            Ok(st1) => if st1.after(st) {
                spec_funcdecls(st1)
            } else {
                Ok(st1)
            },
        }
    } else {
        Ok(st)
    }
}

/// `start -> funcdecl* program`
///
/// The functions are written first; the program follows inside the one entry
/// point that wraps it. Where the parse fails, what was written up to the
/// error stands: the functions and, if the program was reached, the opening
/// of the entry point and the program as far as it was read.
pub open spec fn spec_start(st: ParseState) -> Step {
    match spec_funcdecls(st.blank()) {
        Err(failure) => Err(
            Failure {
                error: failure.error,
                state: ParseState { code: st.code + failure.state.code, ..failure.state },
            },
        ),
        Ok(st1) => match spec_program(st1.blank()) {
            Err(failure) => Err(
                Failure {
                    error: failure.error,
                    state: ParseState {
                        code: st.code + st1.code + MAIN_OPEN@ + failure.state.code,
                        ..failure.state
                    },
                },
            ),
            Ok(st2) => Ok(
                ParseState {
                    code: st.code + st1.code + MAIN_OPEN@ + st2.code + MAIN_CLOSE@,
                    ..st2
                },
            ),
        },
    }
}

} // verus!
