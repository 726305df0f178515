//! What every production keeps: from a well-formed state a production that
//! succeeds ends in a well-formed state over the same tokens, with the cursor
//! not before where it was and the chain of scopes as deep as it was. So the
//! outermost scope is never left, and no production reads behind the end
//! marker. Most productions take at least one token.

use vstd::prelude::*;
use crate::lexical_analysis::token::TokenType;
use crate::laws::lemma_variable_below_in_range;
use crate::syntax_analysis::grammar::{
    ParseState, Parsed, Step, consume, kept, moved, spec_asgn, spec_block, spec_block_items,
    spec_bnr, spec_boolexpr, spec_cmp, spec_condition, spec_decl, spec_decls, spec_endexpr,
    spec_equality, spec_expr, spec_factor, spec_func, spec_funcdecl, spec_funcdecls,
    spec_funcheader, spec_join, spec_jvtype, spec_params, spec_paramsdecl, spec_program,
    spec_segment, spec_start, spec_stmt, spec_stmt_do_while, spec_stmt_for, spec_stmt_if,
    spec_stmt_return, spec_stmt_while, spec_stmts, spec_term, spec_unit, spec_value,
    starts_statement,
};
use crate::syntax_analysis::scope::{ScopeView, assign, declare_parameter, push_scope};

verus! {

/// If `r` is a success, it ends well-formed and the cursor did not move
/// backwards.
pub open spec fn step_keeps(st: ParseState, r: Step) -> bool {
    r is Ok ==> r->Ok_0.wf() && kept(st, r->Ok_0)
}

/// If `r` is a success, it ends well-formed and the cursor moved forwards.
pub open spec fn step_moves(st: ParseState, r: Step) -> bool {
    r is Ok ==> r->Ok_0.wf() && moved(st, r->Ok_0)
}

/// If `r` is a success, it ends well-formed and the cursor did not move
/// backwards.
pub open spec fn text_keeps<T>(st: ParseState, r: Parsed<T>) -> bool {
    r is Ok ==> r->Ok_0.1.wf() && kept(st, r->Ok_0.1)
}

/// If `r` is a success, it ends well-formed and the cursor moved forwards.
pub open spec fn text_moves<T>(st: ParseState, r: Parsed<T>) -> bool {
    r is Ok ==> r->Ok_0.1.wf() && moved(st, r->Ok_0.1)
}

/// Taking a token that is not the end marker moves the cursor; scopes and
/// text stay.
pub proof fn lemma_consume(st: ParseState, kind: TokenType, text: Option<Seq<char>>)
    requires
        st.wf(),
    ensures
        step_keeps(st, consume(st, kind, text)),
        kind != TokenType::EOF ==> step_moves(st, consume(st, kind, text)),
        consume(st, kind, text) is Ok ==> consume(st, kind, text)->Ok_0.scopes == st.scopes,
{
}

/// Assigning keeps the depth of the chain.
pub proof fn lemma_assign_keeps_depth(
    scopes: Seq<ScopeView>,
    name: Seq<char>,
    line: usize,
)
    ensures
        assign(scopes, name, line) is Ok ==> assign(scopes, name, line)->Ok_0.len()
            == scopes.len(),
{
    lemma_variable_below_in_range(scopes, name, scopes.len() as int);
}

/// `type` keeps the state well-formed, takes at least one token and leaves
/// the scopes alone.
pub proof fn lemma_jvtype(st: ParseState)
    requires
        st.wf(),
    ensures
        text_moves(st, spec_jvtype(st)),
        spec_jvtype(st) is Ok ==> spec_jvtype(st)->Ok_0.1.scopes == st.scopes,
{
}

/// `decl` keeps the state well-formed and takes at least one token.
pub proof fn lemma_decl(st: ParseState)
    requires
        st.wf(),
    ensures
        step_moves(st, spec_decl(st)),
{
    lemma_jvtype(st);
}

/// `decls` keeps the state well-formed; it may take no token.
pub proof fn lemma_decls(st: ParseState)
    requires
        st.wf(),
    ensures
        step_keeps(st, spec_decls(st)),
    decreases st.remaining(),
{
    if st.at_kind(TokenType::TYPE) {
        lemma_decl(st);
        match spec_decl(st) {
            Ok(st1) => {
                if st1.after(st) {
                    lemma_decls(st1);
                }
            },
            Err(_) => {},
        }
    }
}

/// `paramsdecl` keeps the state well-formed; it may take no token.
pub proof fn lemma_paramsdecl(st: ParseState)
    requires
        st.wf(),
    ensures
        text_keeps(st, spec_paramsdecl(st)),
    decreases st.remaining(),
{
    if !st.at(")"@) {
        lemma_jvtype(st);
        match spec_jvtype(st) {
            Ok((ty, st1)) => {
                let name = st1.current().value;
                match declare_parameter(st1.scopes, ty.name, name, st1.line()) {
                    Ok(scopes) => {
                        match consume(st1, TokenType::ID, None) {
                            Ok(st2) => {
                                let st3 = st2.with_scopes(scopes);
                                if st3.at(","@) {
                                    match consume(st3, TokenType::SYMBOL, Some(","@)) {
                                        Ok(st4) => {
                                            if st4.after(st) {
                                                lemma_paramsdecl(st4);
                                            }
                                        },
                                        Err(_) => {},
                                    }
                                }
                            },
                            Err(_) => {},
                        }
                    },
                    Err(_) => {},
                }
            },
            Err(_) => {},
        }
    }
}

/// The header of a function declaration opens one scope.
pub proof fn lemma_funcheader(st: ParseState)
    requires
        st.wf(),
    ensures
        spec_funcheader(st) is Ok ==> {
            &&& spec_funcheader(st)->Ok_0.wf()
            &&& spec_funcheader(st)->Ok_0.tokens == st.tokens
            &&& spec_funcheader(st)->Ok_0.after(st)
            &&& spec_funcheader(st)->Ok_0.scopes.len() == st.scopes.len() + 1
        },
{
    match consume(st, TokenType::KEYWORD, Some("func"@)) {
        Ok(st1) => {
            lemma_jvtype(st1);
            match spec_jvtype(st1) {
                Ok((_, st2)) => {
                    match consume(st2, TokenType::ID, None) {
                        Ok(st3) => {
                            let pushed = st3.with_scopes(push_scope(st3.scopes));
                            match consume(pushed, TokenType::SYMBOL, Some("("@)) {
                                Ok(st4) => {
                                    lemma_paramsdecl(st4);
                                },
                                Err(_) => {},
                            }
                        },
                        Err(_) => {},
                    }
                },
                Err(_) => {},
            }
        },
        Err(_) => {},
    }
}

/// `func` keeps the state well-formed and takes at least one token.
pub proof fn lemma_func(st: ParseState)
    requires
        st.wf(),
    ensures
        text_moves(st, spec_func(st)),
    decreases st.remaining(), 0nat,
{
    match consume(st, TokenType::ID, None) {
        Ok(st1) => {
            match consume(st1, TokenType::SYMBOL, Some("("@)) {
                Ok(st2) => {
                    if st2.after(st) {
                        lemma_params(st2);
                    }
                },
                Err(_) => {},
            }
        },
        Err(_) => {},
    }
}

/// `factor` keeps the state well-formed and takes at least one token.
pub proof fn lemma_factor(st: ParseState)
    requires
        st.wf(),
    ensures
        text_moves(st, spec_factor(st)),
    decreases st.remaining(), 1nat,
{
    if st.at_kind(TokenType::NUMBER) {
    } else if st.at("("@) {
        match consume(st, TokenType::SYMBOL, Some("("@)) {
            Ok(st1) => {
                if st1.after(st) {
                    lemma_expr(st1);
                }
            },
            Err(_) => {},
        }
    } else if st.at_kind(TokenType::ID) && st.pos + 1 < st.tokens.len() && !st.next_is("("@) {
    } else if st.at("true"@) || st.at("false"@) {
    } else {
        lemma_func(st);
    }
}

/// `unit` keeps the state well-formed and takes at least one token.
pub proof fn lemma_unit(st: ParseState)
    requires
        st.wf(),
    ensures
        text_moves(st, spec_unit(st)),
    decreases st.remaining(), 2nat,
{
    if st.at("-"@) || st.at("++"@) || st.at("--"@) {
        match consume(st, TokenType::OPERATOR, None) {
            Ok(st1) => {
                if st1.after(st) {
                    lemma_unit(st1);
                }
            },
            Err(_) => {},
        }
    } else {
        lemma_factor(st);
    }
}

/// `term` keeps the state well-formed and takes at least one token.
pub proof fn lemma_term(st: ParseState)
    requires
        st.wf(),
    ensures
        text_moves(st, spec_term(st)),
    decreases st.remaining(), 3nat,
{
    lemma_unit(st);
    match spec_unit(st) {
        Ok((_, st1)) => {
            if st1.at("*"@) || st1.at("/"@) || st1.at("%"@) {
                match consume(st1, TokenType::OPERATOR, None) {
                    Ok(st2) => {
                        if st2.after(st) {
                            lemma_term(st2);
                        }
                    },
                    Err(_) => {},
                }
            }
        },
        Err(_) => {},
    }
}

/// `bnr` keeps the state well-formed and takes at least one token.
pub proof fn lemma_bnr(st: ParseState)
    requires
        st.wf(),
    ensures
        text_moves(st, spec_bnr(st)),
    decreases st.remaining(), 4nat,
{
    lemma_term(st);
    match spec_term(st) {
        Ok((_, st1)) => {
            if st1.at("&"@) || st1.at("|"@) {
                match consume(st1, TokenType::OPERATOR, None) {
                    Ok(st2) => {
                        if st2.after(st) {
                            lemma_bnr(st2);
                        }
                    },
                    Err(_) => {},
                }
            }
        },
        Err(_) => {},
    }
}

/// `expr` keeps the state well-formed and takes at least one token.
pub proof fn lemma_expr(st: ParseState)
    requires
        st.wf(),
    ensures
        text_moves(st, spec_expr(st)),
    decreases st.remaining(), 5nat,
{
    lemma_bnr(st);
    match spec_bnr(st) {
        Ok((_, st1)) => {
            if st1.at("+"@) || st1.at("-"@) {
                match consume(st1, TokenType::OPERATOR, None) {
                    Ok(st2) => {
                        if st2.after(st) {
                            lemma_expr(st2);
                        }
                    },
                    Err(_) => {},
                }
            }
        },
        Err(_) => {},
    }
}

/// `value` keeps the state well-formed and takes at least one token.
pub proof fn lemma_value(st: ParseState)
    requires
        st.wf(),
    ensures
        text_moves(st, spec_value(st)),
    decreases st.remaining(), 6nat,
{
    if !st.at_kind(TokenType::STRING) {
        lemma_expr(st);
    }
}

/// `params` keeps the state well-formed; it may take no token.
pub proof fn lemma_params(st: ParseState)
    requires
        st.wf(),
    ensures
        text_keeps(st, spec_params(st)),
    decreases st.remaining(), 7nat,
{
    if !st.at(")"@) {
        lemma_value(st);
        match spec_value(st) {
            Ok((_, st1)) => {
                if st1.at(","@) {
                    match consume(st1, TokenType::SYMBOL, Some(","@)) {
                        Ok(st2) => {
                            if st2.after(st) {
                                lemma_params(st2);
                            }
                        },
                        Err(_) => {},
                    }
                }
            },
            Err(_) => {},
        }
    }
}

/// `cmp` keeps the state well-formed and takes at least one token.
pub proof fn lemma_cmp(st: ParseState)
    requires
        st.wf(),
    ensures
        text_moves(st, spec_cmp(st)),
    decreases st.remaining(), 8nat,
{
    lemma_expr(st);
    match spec_expr(st) {
        Ok((_, st1)) => {
            match consume(st1, TokenType::COMPARATOR, None) {
                Ok(st2) => {
                    if st2.after(st) {
                        lemma_expr(st2);
                    }
                },
                Err(_) => {},
            }
        },
        Err(_) => {},
    }
}

/// `equality` keeps the state well-formed and takes at least one token.
pub proof fn lemma_equality(st: ParseState)
    requires
        st.wf(),
    ensures
        text_moves(st, spec_equality(st)),
    decreases st.remaining(), 9nat,
{
    lemma_cmp(st);
    match spec_cmp(st) {
        Ok((_, st1)) => {
            if st1.at("=="@) || st1.at("!="@) {
                match consume(st1, TokenType::COMPARATOR, None) {
                    Ok(st2) => {
                        if st2.after(st) {
                            lemma_equality(st2);
                        }
                    },
                    Err(_) => {},
                }
            }
        },
        Err(_) => {},
    }
}

/// `join` keeps the state well-formed and takes at least one token.
pub proof fn lemma_join(st: ParseState)
    requires
        st.wf(),
    ensures
        text_moves(st, spec_join(st)),
    decreases st.remaining(), 10nat,
{
    lemma_equality(st);
    match spec_equality(st) {
        Ok((_, st1)) => {
            if st1.at("&&"@) {
                match consume(st1, TokenType::COMPARATOR, None) {
                    Ok(st2) => {
                        if st2.after(st) {
                            lemma_join(st2);
                        }
                    },
                    Err(_) => {},
                }
            }
        },
        Err(_) => {},
    }
}

/// `boolexpr` keeps the state well-formed and takes at least one token.
pub proof fn lemma_boolexpr(st: ParseState)
    requires
        st.wf(),
    ensures
        text_moves(st, spec_boolexpr(st)),
    decreases st.remaining(), 11nat,
{
    lemma_join(st);
    match spec_join(st) {
        Ok((_, st1)) => {
            if st1.at("||"@) {
                match consume(st1, TokenType::COMPARATOR, None) {
                    Ok(st2) => {
                        if st2.after(st) {
                            lemma_boolexpr(st2);
                        }
                    },
                    Err(_) => {},
                }
            }
        },
        Err(_) => {},
    }
}

/// `condition` keeps the state well-formed and takes at least one token.
pub proof fn lemma_condition(st: ParseState)
    requires
        st.wf(),
    ensures
        text_moves(st, spec_condition(st)),
    decreases st.remaining(), 12nat,
{
    match consume(st, TokenType::SYMBOL, Some("("@)) {
        Ok(st1) => {
            lemma_boolexpr(st1);
        },
        Err(_) => {},
    }
}

/// `asgn` keeps the state well-formed and takes at least one token.
pub proof fn lemma_asgn(st: ParseState)
    requires
        st.wf(),
    ensures
        step_moves(st, spec_asgn(st)),
    decreases st.remaining(), 13nat,
{
    let name = st.current().value;
    match consume(st, TokenType::ID, None) {
        Ok(st1) => {
            let operator = st1.current().value;
            let expected = if operator == "+="@ {
                "+="@
            } else if operator == "-="@ {
                "-="@
            } else {
                "="@
            };
            match consume(st1, TokenType::OPERATOR, Some(expected)) {
                Ok(st2) => {
                    lemma_value(st2);
                    match spec_value(st2) {
                        Ok((_, st3)) => {
                            match spec_endexpr(st3) {
                                Ok(st4) => {
                                    lemma_assign_keeps_depth(st4.scopes, name, st4.line());
                                },
                                Err(_) => {},
                            }
                        },
                        Err(_) => {},
                    }
                },
                Err(_) => {},
            }
        },
        Err(_) => {},
    }
}

/// `return` keeps the state well-formed and takes at least one token.
pub proof fn lemma_stmt_return(st: ParseState)
    requires
        st.wf(),
    ensures
        step_moves(st, spec_stmt_return(st)),
    decreases st.remaining(), 14nat,
{
    match consume(st, TokenType::KEYWORD, Some("return"@)) {
        Ok(st1) => {
            if !st1.at(";"@) {
                lemma_value(st1);
            }
        },
        Err(_) => {},
    }
}

/// `block` keeps the state well-formed and takes at least one token.
pub proof fn lemma_block(st: ParseState)
    requires
        st.wf(),
    ensures
        step_moves(st, spec_block(st)),
    decreases st.remaining(), 20nat,
{
    match consume(st.with_scopes(push_scope(st.scopes)), TokenType::SYMBOL, Some("{"@)) {
        Ok(st1) => {
            if st1.after(st) {
                lemma_block_items(st1.emit("{\n"@));
            }
        },
        Err(_) => {},
    }
}

/// `for` keeps the state well-formed and takes at least one token.
pub proof fn lemma_stmt_for(st: ParseState)
    requires
        st.wf(),
    ensures
        step_moves(st, spec_stmt_for(st)),
    decreases st.remaining(), 21nat,
{
    match consume(st, TokenType::KEYWORD, Some("for"@)) {
        Ok(st1) => {
            match consume(st1, TokenType::SYMBOL, Some("("@)) {
                Ok(st2) => {
                    lemma_asgn(st2.emit("for("@));
                    match spec_asgn(st2.emit("for("@)) {
                        Ok(st3) => {
                            lemma_boolexpr(st3);
                            match spec_boolexpr(st3) {
                                Ok((condition, st4)) => {
                                    match consume(st4, TokenType::SYMBOL, Some(")"@)) {
                                        Ok(st5) => {
                                            lemma_block(st5.emit(" "@ + condition + " ;)"@));
                                        },
                                        Err(_) => {},
                                    }
                                },
                                Err(_) => {},
                            }
                        },
                        Err(_) => {},
                    }
                },
                Err(_) => {},
            }
        },
        Err(_) => {},
    }
}

/// `if` keeps the state well-formed and takes at least one token.
pub proof fn lemma_stmt_if(st: ParseState)
    requires
        st.wf(),
    ensures
        step_moves(st, spec_stmt_if(st)),
    decreases st.remaining(), 21nat,
{
    match consume(st, TokenType::KEYWORD, Some("if"@)) {
        Ok(st1) => {
            lemma_condition(st1);
            match spec_condition(st1) {
                Ok((condition, st2)) => {
                    lemma_block(st2.emit("if ("@ + condition + ")"@));
                    match spec_block(st2.emit("if ("@ + condition + ")"@)) {
                        Ok(st3) => {
                            if st3.at("else"@) {
                                match consume(st3, TokenType::KEYWORD, Some("else"@)) {
                                    Ok(st4) => {
                                        lemma_block(st4.emit("else "@));
                                    },
                                    Err(_) => {},
                                }
                            }
                        },
                        Err(_) => {},
                    }
                },
                Err(_) => {},
            }
        },
        Err(_) => {},
    }
}

/// `while` keeps the state well-formed and takes at least one token.
pub proof fn lemma_stmt_while(st: ParseState)
    requires
        st.wf(),
    ensures
        step_moves(st, spec_stmt_while(st)),
    decreases st.remaining(), 21nat,
{
    match consume(st, TokenType::KEYWORD, Some("while"@)) {
        Ok(st1) => {
            lemma_condition(st1);
            match spec_condition(st1) {
                Ok((condition, st2)) => {
                    lemma_block(st2.emit("while("@ + condition + ") "@));
                },
                Err(_) => {},
            }
        },
        Err(_) => {},
    }
}

/// `do-while` keeps the state well-formed and takes at least one token.
pub proof fn lemma_stmt_do_while(st: ParseState)
    requires
        st.wf(),
    ensures
        step_moves(st, spec_stmt_do_while(st)),
    decreases st.remaining(), 21nat,
{
    match consume(st, TokenType::KEYWORD, Some("do"@)) {
        Ok(st1) => {
            lemma_block(st1.emit("do "@));
            match spec_block(st1.emit("do "@)) {
                Ok(st2) => {
                    match consume(st2, TokenType::KEYWORD, Some("while"@)) {
                        Ok(st3) => {
                            lemma_condition(st3);
                        },
                        Err(_) => {},
                    }
                },
                Err(_) => {},
            }
        },
        Err(_) => {},
    }
}

/// `funcdecl` keeps the state well-formed and takes at least one token.
pub proof fn lemma_funcdecl(st: ParseState)
    requires
        st.wf(),
    ensures
        step_moves(st, spec_funcdecl(st)),
    decreases st.remaining(), 21nat,
{
    lemma_funcheader(st);
    match spec_funcheader(st) {
        Ok(st1) => {
            lemma_block(st1);
        },
        Err(_) => {},
    }
}

/// `stmt` keeps the state well-formed and takes at least one token.
pub proof fn lemma_stmt(st: ParseState)
    requires
        st.wf(),
    ensures
        step_moves(st, spec_stmt(st)),
    decreases st.remaining(), 22nat,
{
    if st.at_kind(TokenType::ID) {
        if st.next_is("("@) {
            lemma_func(st);
        } else {
            lemma_asgn(st);
        }
    } else if st.at("{"@) {
        lemma_block(st);
    } else if st.at("for"@) {
        lemma_stmt_for(st);
    } else if st.at("if"@) {
        lemma_stmt_if(st);
    } else if st.at("while"@) {
        lemma_stmt_while(st);
    } else if st.at("do"@) {
        lemma_stmt_do_while(st);
    } else if st.at("func"@) {
        lemma_funcdecl(st);
    } else if st.at("break"@) {
    } else if st.at("continue"@) {
    } else {
        lemma_stmt_return(st);
    }
}

/// `stmts` keeps the state well-formed; it may take no token.
pub proof fn lemma_stmts(st: ParseState)
    requires
        st.wf(),
    ensures
        step_keeps(st, spec_stmts(st)),
    decreases st.remaining(), 23nat,
{
    if starts_statement(st.current()) {
        lemma_stmt(st);
        match spec_stmt(st) {
            Ok(st1) => {
                if st1.after(st) {
                    lemma_stmts(st1);
                }
            },
            Err(_) => {},
        }
    }
}

/// `segment` keeps the state well-formed; it may take no token.
pub proof fn lemma_segment(st: ParseState)
    requires
        st.wf(),
    ensures
        step_keeps(st, spec_segment(st)),
    decreases st.remaining(), 24nat,
{
    if st.at("{"@) {
        lemma_block(st);
    }
    let after_block = if st.at("{"@) {
        spec_block(st)
    } else {
        Ok(st)
    };
    match after_block {
        Ok(st1) => {
            if st1.at_kind(TokenType::TYPE) {
                lemma_decls(st1);
            }
            let after_decls = if st1.at_kind(TokenType::TYPE) {
                spec_decls(st1)
            } else {
                Ok(st1)
            };
            match after_decls {
                Ok(st2) => {
                    lemma_stmts(st2);
                },
                Err(_) => {},
            }
        },
        Err(_) => {},
    }
}

/// `block_items` keeps the state well-formed; it may take no token.
pub proof fn lemma_block_items(st: ParseState)
    requires
        st.wf(),
    ensures
        step_keeps(st, spec_block_items(st)),
    decreases st.remaining(), 25nat,
{
    if !st.at("}"@) {
        lemma_segment(st);
        match spec_segment(st) {
            Ok(st1) => {
                if st1.after(st) {
                    lemma_block_items(st1);
                }
            },
            Err(_) => {},
        }
    }
}

/// `program` keeps the state well-formed and ends on the end marker.
pub proof fn lemma_program(st: ParseState)
    requires
        st.wf(),
    ensures
        step_keeps(st, spec_program(st)),
        spec_program(st) is Ok ==> spec_program(st)->Ok_0.at_kind(TokenType::EOF),
    decreases st.remaining(), 25nat,
{
    lemma_segment(st);
    match spec_segment(st) {
        Ok(st1) => {
            if !st1.at_kind(TokenType::EOF) && st1.after(st) {
                lemma_program(st1);
            }
        },
        Err(_) => {},
    }
}

/// `funcdecls` keeps the state well-formed; it may take no token.
pub proof fn lemma_funcdecls(st: ParseState)
    requires
        st.wf(),
    ensures
        step_keeps(st, spec_funcdecls(st)),
    decreases st.remaining(), 25nat,
{
    if st.at("func"@) {
        lemma_funcdecl(st);
        match spec_funcdecl(st) {
            Ok(st1) => {
                if st1.after(st) {
                    lemma_funcdecls(st1);
                }
            },
            Err(_) => {},
        }
    }
}

/// A parse that succeeds ends on the end marker, in a well-formed state over
/// the same tokens and with the chain of scopes as deep as it was.
pub proof fn lemma_start(st: ParseState)
    requires
        st.wf(),
    ensures
        step_keeps(st, spec_start(st)),
        spec_start(st) is Ok ==> spec_start(st)->Ok_0.at_kind(TokenType::EOF),
{
    lemma_funcdecls(st.blank());
    match spec_funcdecls(st.blank()) {
        Ok(st1) => {
            lemma_program(st1.blank());
        },
        Err(_) => {},
    }
}

} // verus!
