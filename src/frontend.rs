//! The syntax tree of the source language, as its parser produces it.

use vstd::prelude::*;

verus! {

/// An expression or statement. All values are machine words.
#[derive(Debug)]
pub enum Expr {
    Literal(String),
    Identifier(String),
    Assign(String, Box<Expr>),
    Eq(Box<Expr>, Box<Expr>),
    Ne(Box<Expr>, Box<Expr>),
    Lt(Box<Expr>, Box<Expr>),
    Le(Box<Expr>, Box<Expr>),
    Gt(Box<Expr>, Box<Expr>),
    Ge(Box<Expr>, Box<Expr>),
    Add(Box<Expr>, Box<Expr>),
    Sub(Box<Expr>, Box<Expr>),
    Mul(Box<Expr>, Box<Expr>),
    Div(Box<Expr>, Box<Expr>),
    IfElse(Box<Expr>, Vec<Expr>, Vec<Expr>),
    WhileLoop(Box<Expr>, Vec<Expr>),
    /// `try { body } catch name { handler }`
    TryCatch(Vec<Expr>, String, Vec<Expr>),
    /// `try { body } finally { cleanup }`
    TryFinally(Vec<Expr>, Vec<Expr>),
    Call(String, Vec<Expr>),
    /// `&name`: the address of a named data object.
    GlobalDataAddr(String),
    Throw(Box<Expr>),
}

} // verus!
