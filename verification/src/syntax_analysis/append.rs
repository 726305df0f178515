//! The translation is append-only: no production changes what was written
//! before it, whether it succeeds or fails. So what a parse has written for
//! one statement stands before what it writes for the next, in the order of
//! the source, and the productions that read an expression, a type or the
//! parameters write nothing themselves.

use vstd::prelude::*;
use crate::lexical_analysis::token::TokenType;
use crate::syntax_analysis::grammar::{
    ParseState, Parsed, Step, consume, spec_asgn, spec_block, spec_block_items, spec_bnr,
    spec_boolexpr, spec_cmp, spec_condition, spec_decl, spec_decls, spec_endexpr,
    spec_equality, spec_expr, spec_factor, spec_func, spec_funcdecl, spec_funcdecls,
    spec_funcheader, spec_join, spec_jvtype, spec_params, spec_paramsdecl, spec_program,
    spec_segment, spec_start, spec_stmt, spec_stmt_do_while, spec_stmt_for, spec_stmt_if,
    spec_stmt_return, spec_stmt_while, spec_stmts, spec_term, spec_unit, spec_value,
    starts_statement,
};
use crate::syntax_analysis::progress::{
    lemma_asgn, lemma_assign_keeps_depth, lemma_block, lemma_block_items, lemma_bnr,
    lemma_boolexpr, lemma_cmp, lemma_condition, lemma_decl, lemma_decls, lemma_equality,
    lemma_expr, lemma_factor, lemma_func, lemma_funcdecl, lemma_funcdecls, lemma_funcheader,
    lemma_join, lemma_jvtype, lemma_params, lemma_paramsdecl, lemma_program, lemma_segment,
    lemma_stmt, lemma_stmt_do_while, lemma_stmt_for, lemma_stmt_if, lemma_stmt_return,
    lemma_stmt_while, lemma_stmts, lemma_term, lemma_unit, lemma_value,
};
use crate::syntax_analysis::scope::{declare_parameter, push_scope};
use crate::text::{grows, lemma_grows_self};

verus! {

broadcast use crate::text::lemma_grows_more;

/// The production only added to the translation: whatever the translation
/// started with before, it starts with in the state in which the production
/// ended or failed.
pub open spec fn step_grows(st: ParseState, r: Step) -> bool {
    &&& r is Ok ==> forall|base: Seq<char>|
        grows(base, st.code) ==> #[trigger] grows(base, r->Ok_0.code)
    &&& r is Err ==> forall|base: Seq<char>|
        grows(base, st.code) ==> #[trigger] grows(base, r->Err_0.state.code)
}

/// The production wrote nothing, in the state in which it ended or failed.
pub open spec fn text_grows<T>(st: ParseState, r: Parsed<T>) -> bool {
    match r {
        Ok((_, end)) => end.code == st.code,
        Err(failure) => failure.state.code == st.code,
    }
}

/// `type` writes nothing, whether it succeeds or fails.
pub proof fn lemma_jvtype_grows(st: ParseState)
    requires
        st.wf(),
    ensures
        text_grows(st, spec_jvtype(st)),
{
}

/// `decl` only adds to the translation, whether it succeeds or fails.
pub proof fn lemma_decl_grows(st: ParseState)
    requires
        st.wf(),
    ensures
        step_grows(st, spec_decl(st)),
{
    lemma_jvtype(st);
    lemma_jvtype_grows(st);
}

/// `decls` only adds to the translation, whether it succeeds or fails.
pub proof fn lemma_decls_grows(st: ParseState)
    requires
        st.wf(),
    ensures
        step_grows(st, spec_decls(st)),
    decreases st.remaining(),
{
    if st.at_kind(TokenType::TYPE) {
        lemma_decl(st);
        lemma_decl_grows(st);
        match spec_decl(st) {
            Ok(st1) => {
                if st1.after(st) {
                    lemma_decls(st1);
                    lemma_decls_grows(st1);
                }
            },
            Err(_) => {},
        }
    }
}

/// `paramsdecl` writes nothing, whether it succeeds or fails.
pub proof fn lemma_paramsdecl_grows(st: ParseState)
    requires
        st.wf(),
    ensures
        text_grows(st, spec_paramsdecl(st)),
    decreases st.remaining(),
{
    if !st.at(")"@) {
        lemma_jvtype(st);
        lemma_jvtype_grows(st);
        match spec_jvtype(st) {
            Ok((ty, st1)) => {
                let name = st1.current().value;
                match declare_parameter(st1.scopes, ty.name, name, st1.line()) {
                    Ok(scopes) => {
                        match consume(st1, TokenType::ID, None) {
                            Ok(st2) => {
                                let st3 = st2.with_scopes(scopes);
                                if st3.at(","@) {
                                    match consume(st3, TokenType::SYMBOL, Some(","@)) {
                                        Ok(st4) => {
                                            if st4.after(st) {
                                                lemma_paramsdecl(st4);
                                                lemma_paramsdecl_grows(st4);
                                            }
                                        },
                                        Err(_) => {},
                                    }
                                }
                            },
                            Err(_) => {},
                        }
                    },
                    Err(_) => {},
                }
            },
            Err(_) => {},
        }
    }
}

/// The header of a function declaration only adds to the translation.
pub proof fn lemma_funcheader_grows(st: ParseState)
    requires
        st.wf(),
    ensures
        step_grows(st, spec_funcheader(st)),
{
    match consume(st, TokenType::KEYWORD, Some("func"@)) {
        Ok(st1) => {
            lemma_jvtype(st1);
            lemma_jvtype_grows(st1);
            match spec_jvtype(st1) {
                Ok((_, st2)) => {
                    match consume(st2, TokenType::ID, None) {
                        Ok(st3) => {
                            let pushed = st3.with_scopes(push_scope(st3.scopes));
                            match consume(pushed, TokenType::SYMBOL, Some("("@)) {
                                Ok(st4) => {
                                    lemma_paramsdecl(st4);
                                    lemma_paramsdecl_grows(st4);
                                },
                                Err(_) => {},
                            }
                        },
                        Err(_) => {},
                    }
                },
                Err(_) => {},
            }
        },
        Err(_) => {},
    }
}

/// `func` writes nothing, whether it succeeds or fails.
pub proof fn lemma_func_grows(st: ParseState)
    requires
        st.wf(),
    ensures
        text_grows(st, spec_func(st)),
    decreases st.remaining(), 0nat,
{
    match consume(st, TokenType::ID, None) {
        Ok(st1) => {
            match consume(st1, TokenType::SYMBOL, Some("("@)) {
                Ok(st2) => {
                    if st2.after(st) {
                        lemma_params(st2);
                        lemma_params_grows(st2);
                    }
                },
                Err(_) => {},
            }
        },
        Err(_) => {},
    }
}

/// `factor` writes nothing, whether it succeeds or fails.
pub proof fn lemma_factor_grows(st: ParseState)
    requires
        st.wf(),
    ensures
        text_grows(st, spec_factor(st)),
    decreases st.remaining(), 1nat,
{
    if st.at_kind(TokenType::NUMBER) {
    } else if st.at("("@) {
        match consume(st, TokenType::SYMBOL, Some("("@)) {
            Ok(st1) => {
                if st1.after(st) {
                    lemma_expr(st1);
                    lemma_expr_grows(st1);
                }
            },
            Err(_) => {},
        }
    } else if st.at_kind(TokenType::ID) && st.pos + 1 < st.tokens.len() && !st.next_is("("@) {
    } else if st.at("true"@) || st.at("false"@) {
    } else {
        lemma_func(st);
        lemma_func_grows(st);
    }
}

/// `unit` writes nothing, whether it succeeds or fails.
pub proof fn lemma_unit_grows(st: ParseState)
    requires
        st.wf(),
    ensures
        text_grows(st, spec_unit(st)),
    decreases st.remaining(), 2nat,
{
    if st.at("-"@) || st.at("++"@) || st.at("--"@) {
        match consume(st, TokenType::OPERATOR, None) {
            Ok(st1) => {
                if st1.after(st) {
                    lemma_unit(st1);
                    lemma_unit_grows(st1);
                }
            },
            Err(_) => {},
        }
    } else {
        lemma_factor(st);
        lemma_factor_grows(st);
    }
}

/// `term` writes nothing, whether it succeeds or fails.
pub proof fn lemma_term_grows(st: ParseState)
    requires
        st.wf(),
    ensures
        text_grows(st, spec_term(st)),
    decreases st.remaining(), 3nat,
{
    lemma_unit(st);
    lemma_unit_grows(st);
    match spec_unit(st) {
        Ok((_, st1)) => {
            if st1.at("*"@) || st1.at("/"@) || st1.at("%"@) {
                match consume(st1, TokenType::OPERATOR, None) {
                    Ok(st2) => {
                        if st2.after(st) {
                            lemma_term(st2);
                            lemma_term_grows(st2);
                        }
                    },
                    Err(_) => {},
                }
            }
        },
        Err(_) => {},
    }
}

/// `bnr` writes nothing, whether it succeeds or fails.
pub proof fn lemma_bnr_grows(st: ParseState)
    requires
        st.wf(),
    ensures
        text_grows(st, spec_bnr(st)),
    decreases st.remaining(), 4nat,
{
    lemma_term(st);
    lemma_term_grows(st);
    match spec_term(st) {
        Ok((_, st1)) => {
            if st1.at("&"@) || st1.at("|"@) {
                match consume(st1, TokenType::OPERATOR, None) {
                    Ok(st2) => {
                        if st2.after(st) {
                            lemma_bnr(st2);
                            lemma_bnr_grows(st2);
                        }
                    },
                    Err(_) => {},
                }
            }
        },
        Err(_) => {},
    }
}

/// `expr` writes nothing, whether it succeeds or fails.
pub proof fn lemma_expr_grows(st: ParseState)
    requires
        st.wf(),
    ensures
        text_grows(st, spec_expr(st)),
    decreases st.remaining(), 5nat,
{
    lemma_bnr(st);
    lemma_bnr_grows(st);
    match spec_bnr(st) {
        Ok((_, st1)) => {
            if st1.at("+"@) || st1.at("-"@) {
                match consume(st1, TokenType::OPERATOR, None) {
                    Ok(st2) => {
                        if st2.after(st) {
                            lemma_expr(st2);
                            lemma_expr_grows(st2);
                        }
                    },
                    Err(_) => {},
                }
            }
        },
        Err(_) => {},
    }
}

/// `value` writes nothing, whether it succeeds or fails.
pub proof fn lemma_value_grows(st: ParseState)
    requires
        st.wf(),
    ensures
        text_grows(st, spec_value(st)),
    decreases st.remaining(), 6nat,
{
    if !st.at_kind(TokenType::STRING) {
        lemma_expr(st);
        lemma_expr_grows(st);
    }
}

/// `params` writes nothing, whether it succeeds or fails.
pub proof fn lemma_params_grows(st: ParseState)
    requires
        st.wf(),
    ensures
        text_grows(st, spec_params(st)),
    decreases st.remaining(), 7nat,
{
    if !st.at(")"@) {
        lemma_value(st);
        lemma_value_grows(st);
        match spec_value(st) {
            Ok((_, st1)) => {
                if st1.at(","@) {
                    match consume(st1, TokenType::SYMBOL, Some(","@)) {
                        Ok(st2) => {
                            if st2.after(st) {
                                lemma_params(st2);
                                lemma_params_grows(st2);
                            }
                        },
                        Err(_) => {},
                    }
                }
            },
            Err(_) => {},
        }
    }
}

/// `cmp` writes nothing, whether it succeeds or fails.
pub proof fn lemma_cmp_grows(st: ParseState)
    requires
        st.wf(),
    ensures
        text_grows(st, spec_cmp(st)),
    decreases st.remaining(), 8nat,
{
    lemma_expr(st);
    lemma_expr_grows(st);
    match spec_expr(st) {
        Ok((_, st1)) => {
            match consume(st1, TokenType::COMPARATOR, None) {
                Ok(st2) => {
                    if st2.after(st) {
                        lemma_expr(st2);
                        lemma_expr_grows(st2);
                    }
                },
                Err(_) => {},
            }
        },
        Err(_) => {},
    }
}

/// `equality` writes nothing, whether it succeeds or fails.
pub proof fn lemma_equality_grows(st: ParseState)
    requires
        st.wf(),
    ensures
        text_grows(st, spec_equality(st)),
    decreases st.remaining(), 9nat,
{
    lemma_cmp(st);
    lemma_cmp_grows(st);
    match spec_cmp(st) {
        Ok((_, st1)) => {
            if st1.at("=="@) || st1.at("!="@) {
                match consume(st1, TokenType::COMPARATOR, None) {
                    Ok(st2) => {
                        if st2.after(st) {
                            lemma_equality(st2);
                            lemma_equality_grows(st2);
                        }
                    },
                    Err(_) => {},
                }
            }
        },
        Err(_) => {},
    }
}

/// `join` writes nothing, whether it succeeds or fails.
pub proof fn lemma_join_grows(st: ParseState)
    requires
        st.wf(),
    ensures
        text_grows(st, spec_join(st)),
    decreases st.remaining(), 10nat,
{
    lemma_equality(st);
    lemma_equality_grows(st);
    match spec_equality(st) {
        Ok((_, st1)) => {
            if st1.at("&&"@) {
                match consume(st1, TokenType::COMPARATOR, None) {
                    Ok(st2) => {
                        if st2.after(st) {
                            lemma_join(st2);
                            lemma_join_grows(st2);
                        }
                    },
                    Err(_) => {},
                }
            }
        },
        Err(_) => {},
    }
}

/// `boolexpr` writes nothing, whether it succeeds or fails.
pub proof fn lemma_boolexpr_grows(st: ParseState)
    requires
        st.wf(),
    ensures
        text_grows(st, spec_boolexpr(st)),
    decreases st.remaining(), 11nat,
{
    lemma_join(st);
    lemma_join_grows(st);
    match spec_join(st) {
        Ok((_, st1)) => {
            if st1.at("||"@) {
                match consume(st1, TokenType::COMPARATOR, None) {
                    Ok(st2) => {
                        if st2.after(st) {
                            lemma_boolexpr(st2);
                            lemma_boolexpr_grows(st2);
                        }
                    },
                    Err(_) => {},
                }
            }
        },
        Err(_) => {},
    }
}

/// `condition` writes nothing, whether it succeeds or fails.
pub proof fn lemma_condition_grows(st: ParseState)
    requires
        st.wf(),
    ensures
        text_grows(st, spec_condition(st)),
    decreases st.remaining(), 12nat,
{
    match consume(st, TokenType::SYMBOL, Some("("@)) {
        Ok(st1) => {
            lemma_boolexpr(st1);
            lemma_boolexpr_grows(st1);
        },
        Err(_) => {},
    }
}

/// `asgn` only adds to the translation, whether it succeeds or fails.
pub proof fn lemma_asgn_grows(st: ParseState)
    requires
        st.wf(),
    ensures
        step_grows(st, spec_asgn(st)),
    decreases st.remaining(), 13nat,
{
    let name = st.current().value;
    match consume(st, TokenType::ID, None) {
        Ok(st1) => {
            let operator = st1.current().value;
            let expected = if operator == "+="@ {
                "+="@
            } else if operator == "-="@ {
                "-="@
            } else {
                "="@
            };
            match consume(st1, TokenType::OPERATOR, Some(expected)) {
                Ok(st2) => {
                    lemma_value(st2);
                    lemma_value_grows(st2);
                    match spec_value(st2) {
                        Ok((_, st3)) => {
                            match spec_endexpr(st3) {
                                Ok(st4) => {
                                    lemma_assign_keeps_depth(st4.scopes, name, st4.line());
                                },
                                Err(_) => {},
                            }
                        },
                        Err(_) => {},
                    }
                },
                Err(_) => {},
            }
        },
        Err(_) => {},
    }
}

/// `return` only adds to the translation, whether it succeeds or fails.
pub proof fn lemma_stmt_return_grows(st: ParseState)
    requires
        st.wf(),
    ensures
        step_grows(st, spec_stmt_return(st)),
    decreases st.remaining(), 14nat,
{
    match consume(st, TokenType::KEYWORD, Some("return"@)) {
        Ok(st1) => {
            if !st1.at(";"@) {
                lemma_value(st1);
                lemma_value_grows(st1);
            }
        },
        Err(_) => {},
    }
}

/// `block` only adds to the translation, whether it succeeds or fails.
pub proof fn lemma_block_grows(st: ParseState)
    requires
        st.wf(),
    ensures
        step_grows(st, spec_block(st)),
    decreases st.remaining(), 20nat,
{
    match consume(st.with_scopes(push_scope(st.scopes)), TokenType::SYMBOL, Some("{"@)) {
        Ok(st1) => {
            if st1.after(st) {
                lemma_block_items(st1.emit("{\n"@));
                lemma_block_items_grows(st1.emit("{\n"@));
            }
        },
        Err(_) => {},
    }
}

/// `for` only adds to the translation, whether it succeeds or fails.
pub proof fn lemma_stmt_for_grows(st: ParseState)
    requires
        st.wf(),
    ensures
        step_grows(st, spec_stmt_for(st)),
    decreases st.remaining(), 21nat,
{
    match consume(st, TokenType::KEYWORD, Some("for"@)) {
        Ok(st1) => {
            match consume(st1, TokenType::SYMBOL, Some("("@)) {
                Ok(st2) => {
                    lemma_asgn(st2.emit("for("@));
                    lemma_asgn_grows(st2.emit("for("@));
                    match spec_asgn(st2.emit("for("@)) {
                        Ok(st3) => {
                            lemma_boolexpr(st3);
                            lemma_boolexpr_grows(st3);
                            match spec_boolexpr(st3) {
                                Ok((condition, st4)) => {
                                    match consume(st4, TokenType::SYMBOL, Some(")"@)) {
                                        Ok(st5) => {
                                            lemma_block(st5.emit(" "@ + condition + " ;)"@));
                                            lemma_block_grows(st5.emit(" "@ + condition + " ;)"@));
                                        },
                                        Err(_) => {},
                                    }
                                },
                                Err(_) => {},
                            }
                        },
                        Err(_) => {},
                    }
                },
                Err(_) => {},
            }
        },
        Err(_) => {},
    }
}

/// `if` only adds to the translation, whether it succeeds or fails.
pub proof fn lemma_stmt_if_grows(st: ParseState)
    requires
        st.wf(),
    ensures
        step_grows(st, spec_stmt_if(st)),
    decreases st.remaining(), 21nat,
{
    match consume(st, TokenType::KEYWORD, Some("if"@)) {
        Ok(st1) => {
            lemma_condition(st1);
            lemma_condition_grows(st1);
            match spec_condition(st1) {
                Ok((condition, st2)) => {
                    lemma_block(st2.emit("if ("@ + condition + ")"@));
                    lemma_block_grows(st2.emit("if ("@ + condition + ")"@));
                    match spec_block(st2.emit("if ("@ + condition + ")"@)) {
                        Ok(st3) => {
                            if st3.at("else"@) {
                                match consume(st3, TokenType::KEYWORD, Some("else"@)) {
                                    Ok(st4) => {
                                        lemma_block(st4.emit("else "@));
                                        lemma_block_grows(st4.emit("else "@));
                                    },
                                    Err(_) => {},
                                }
                            }
                        },
                        Err(_) => {},
                    }
                },
                Err(_) => {},
            }
        },
        Err(_) => {},
    }
}

/// `while` only adds to the translation, whether it succeeds or fails.
pub proof fn lemma_stmt_while_grows(st: ParseState)
    requires
        st.wf(),
    ensures
        step_grows(st, spec_stmt_while(st)),
    decreases st.remaining(), 21nat,
{
    match consume(st, TokenType::KEYWORD, Some("while"@)) {
        Ok(st1) => {
            lemma_condition(st1);
            lemma_condition_grows(st1);
            match spec_condition(st1) {
                Ok((condition, st2)) => {
                    lemma_block(st2.emit("while("@ + condition + ") "@));
                    lemma_block_grows(st2.emit("while("@ + condition + ") "@));
                },
                Err(_) => {},
            }
        },
        Err(_) => {},
    }
}

/// `do-while` only adds to the translation, whether it succeeds or fails.
pub proof fn lemma_stmt_do_while_grows(st: ParseState)
    requires
        st.wf(),
    ensures
        step_grows(st, spec_stmt_do_while(st)),
    decreases st.remaining(), 21nat,
{
    match consume(st, TokenType::KEYWORD, Some("do"@)) {
        Ok(st1) => {
            lemma_block(st1.emit("do "@));
            lemma_block_grows(st1.emit("do "@));
            match spec_block(st1.emit("do "@)) {
                Ok(st2) => {
                    match consume(st2, TokenType::KEYWORD, Some("while"@)) {
                        Ok(st3) => {
                            lemma_condition(st3);
                            lemma_condition_grows(st3);
                        },
                        Err(_) => {},
                    }
                },
                Err(_) => {},
            }
        },
        Err(_) => {},
    }
}

/// `funcdecl` only adds to the translation, whether it succeeds or fails.
pub proof fn lemma_funcdecl_grows(st: ParseState)
    requires
        st.wf(),
    ensures
        step_grows(st, spec_funcdecl(st)),
    decreases st.remaining(), 21nat,
{
    lemma_funcheader(st);
    lemma_funcheader_grows(st);
    match spec_funcheader(st) {
        Ok(st1) => {
            lemma_block(st1);
            lemma_block_grows(st1);
        },
        Err(_) => {},
    }
}

/// `stmt` only adds to the translation, whether it succeeds or fails.
pub proof fn lemma_stmt_grows(st: ParseState)
    requires
        st.wf(),
    ensures
        step_grows(st, spec_stmt(st)),
    decreases st.remaining(), 22nat,
{
    if st.at_kind(TokenType::ID) {
        if st.next_is("("@) {
            lemma_func(st);
            lemma_func_grows(st);
        } else {
            lemma_asgn(st);
            lemma_asgn_grows(st);
        }
    } else if st.at("{"@) {
        lemma_block(st);
        lemma_block_grows(st);
    } else if st.at("for"@) {
        lemma_stmt_for(st);
        lemma_stmt_for_grows(st);
    } else if st.at("if"@) {
        lemma_stmt_if(st);
        lemma_stmt_if_grows(st);
    } else if st.at("while"@) {
        lemma_stmt_while(st);
        lemma_stmt_while_grows(st);
    } else if st.at("do"@) {
        lemma_stmt_do_while(st);
        lemma_stmt_do_while_grows(st);
    } else if st.at("func"@) {
        lemma_funcdecl(st);
        lemma_funcdecl_grows(st);
    } else if st.at("break"@) {
    } else if st.at("continue"@) {
    } else {
        lemma_stmt_return(st);
        lemma_stmt_return_grows(st);
    }
}

/// `stmts` only adds to the translation, whether it succeeds or fails.
pub proof fn lemma_stmts_grows(st: ParseState)
    requires
        st.wf(),
    ensures
        step_grows(st, spec_stmts(st)),
    decreases st.remaining(), 23nat,
{
    if starts_statement(st.current()) {
        lemma_stmt(st);
        lemma_stmt_grows(st);
        match spec_stmt(st) {
            Ok(st1) => {
                if st1.after(st) {
                    lemma_stmts(st1);
                    lemma_stmts_grows(st1);
                }
            },
            Err(_) => {},
        }
    }
}

/// `segment` only adds to the translation, whether it succeeds or fails.
pub proof fn lemma_segment_grows(st: ParseState)
    requires
        st.wf(),
    ensures
        step_grows(st, spec_segment(st)),
    decreases st.remaining(), 24nat,
{
    if st.at("{"@) {
        lemma_block(st);
        lemma_block_grows(st);
    }
    let after_block = if st.at("{"@) {
        spec_block(st)
    } else {
        Ok(st)
    };
    match after_block {
        Ok(st1) => {
            if st1.at_kind(TokenType::TYPE) {
                lemma_decls(st1);
                lemma_decls_grows(st1);
            }
            let after_decls = if st1.at_kind(TokenType::TYPE) {
                spec_decls(st1)
            } else {
                Ok(st1)
            };
            match after_decls {
                Ok(st2) => {
                    lemma_stmts(st2);
                    lemma_stmts_grows(st2);
                },
                Err(_) => {},
            }
        },
        Err(_) => {},
    }
}

/// `block_items` only adds to the translation, whether it succeeds or fails.
pub proof fn lemma_block_items_grows(st: ParseState)
    requires
        st.wf(),
    ensures
        step_grows(st, spec_block_items(st)),
    decreases st.remaining(), 25nat,
{
    if !st.at("}"@) {
        lemma_segment(st);
        lemma_segment_grows(st);
        match spec_segment(st) {
            Ok(st1) => {
                if st1.after(st) {
                    lemma_block_items(st1);
                    lemma_block_items_grows(st1);
                }
            },
            Err(_) => {},
        }
    }
}

/// `program` only adds to the translation, whether it succeeds or fails.
pub proof fn lemma_program_grows(st: ParseState)
    requires
        st.wf(),
    ensures
        step_grows(st, spec_program(st)),
    decreases st.remaining(), 25nat,
{
    lemma_segment(st);
    lemma_segment_grows(st);
    match spec_segment(st) {
        Ok(st1) => {
            if !st1.at_kind(TokenType::EOF) && st1.after(st) {
                lemma_program(st1);
                lemma_program_grows(st1);
            }
        },
        Err(_) => {},
    }
}

/// `funcdecls` only adds to the translation, whether it succeeds or fails.
pub proof fn lemma_funcdecls_grows(st: ParseState)
    requires
        st.wf(),
    ensures
        step_grows(st, spec_funcdecls(st)),
    decreases st.remaining(), 25nat,
{
    if st.at("func"@) {
        lemma_funcdecl(st);
        lemma_funcdecl_grows(st);
        match spec_funcdecl(st) {
            Ok(st1) => {
                if st1.after(st) {
                    lemma_funcdecls(st1);
                    lemma_funcdecls_grows(st1);
                }
            },
            Err(_) => {},
        }
    }
}

/// A parse only adds to the translation, whether it succeeds or fails: what
/// was written before stands, and what is written stands in the order in
/// which it was read.
pub proof fn lemma_start_grows(st: ParseState)
    requires
        st.wf(),
    ensures
        step_grows(st, spec_start(st)),
{
    lemma_funcdecls(st.blank());
    lemma_funcdecls_grows(st.blank());
    match spec_funcdecls(st.blank()) {
        Ok(st1) => {
            lemma_program(st1.blank());
            lemma_program_grows(st1.blank());
        },
        Err(_) => {},
    }
}

/// What stood in the translation before a parse stands in it afterwards,
/// unchanged and at its start, whether the parse succeeded or failed.
pub proof fn lemma_parse_is_append_only(st: ParseState)
    requires
        st.wf(),
    ensures
        spec_start(st) is Ok ==> grows(st.code, spec_start(st)->Ok_0.code),
        spec_start(st) is Err ==> grows(st.code, spec_start(st)->Err_0.state.code),
{
    lemma_start_grows(st);
    lemma_grows_self(st.code);
}

} // verus!
