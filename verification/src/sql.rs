//! Statements for the local SQLite store: the text of each statement and the
//! values bound to its placeholders, in order.

use vstd::prelude::*;
use crate::model::F32Bits;

verus! {

/// A value bound to a statement placeholder.
#[derive(Clone, Debug, PartialEq)]
pub enum Param {
    /// SQL `NULL` (what an absent optional value binds as).
    Null,
    Text(String),
    Integer(i64),
    Bool(bool),
    /// An `f32`, by its bit pattern.
    Real(F32Bits),
    /// The `f32` product `factor * value`, both given by their bit patterns;
    /// the multiplication happens where the value is bound.
    RealScaled { factor: F32Bits, value: F32Bits },
}

/// A bound value, with text as a sequence of characters.
pub enum ParamView {
    Null,
    Text(Seq<char>),
    Integer(i64),
    Bool(bool),
    Real(F32Bits),
    RealScaled { factor: F32Bits, value: F32Bits },
}

impl View for Param {
    type V = ParamView;

    open spec fn view(&self) -> ParamView {
        match self {
            Param::Null => ParamView::Null,
            Param::Text(s) => ParamView::Text(s@),
            Param::Integer(i) => ParamView::Integer(*i),
            Param::Bool(b) => ParamView::Bool(*b),
            Param::Real(f) => ParamView::Real(*f),
            Param::RealScaled { factor, value } => ParamView::RealScaled { factor: *factor, value: *value },
        }
    }
}

/// A statement with its bound values.
#[derive(Debug, PartialEq)]
pub struct Statement {
    pub sql: &'static str,
    pub params: Vec<Param>,
}

/// A statement as text and a sequence of bound values.
pub struct StatementView {
    pub sql: Seq<char>,
    pub params: Seq<ParamView>,
}

impl View for Statement {
    type V = StatementView;

    open spec fn view(&self) -> StatementView {
        StatementView { sql: self.sql@, params: self.params@.map_values(|p: Param| p@) }
    }
}

/// The statement view of `sql` with the values `params`.
pub open spec fn stmt(sql: &str, params: Seq<ParamView>) -> StatementView {
    StatementView { sql: sql@, params }
}

/// The views of a sequence of statements.
pub open spec fn views(s: Seq<Statement>) -> Seq<StatementView> {
    s.map_values(|st: Statement| st@)
}

pub open spec fn text(s: String) -> ParamView {
    ParamView::Text(s@)
}

pub open spec fn opt_text(o: Option<String>) -> ParamView {
    match o {
        Some(s) => ParamView::Text(s@),
        None => ParamView::Null,
    }
}

pub open spec fn opt_int(o: Option<i32>) -> ParamView {
    match o {
        Some(i) => ParamView::Integer(i as i64),
        None => ParamView::Null,
    }
}

pub open spec fn opt_real(o: Option<F32Bits>) -> ParamView {
    match o {
        Some(f) => ParamView::Real(f),
        None => ParamView::Null,
    }
}

pub open spec fn opt_bool(o: Option<bool>) -> ParamView {
    match o {
        Some(b) => ParamView::Bool(b),
        None => ParamView::Null,
    }
}

pub open spec fn integer(i: i32) -> ParamView {
    ParamView::Integer(i as i64)
}

/// Binds a copy of a text value.
pub fn text_param(s: &String) -> (p: Param)
    ensures
        p@ == text(*s),
{
    Param::Text(s.clone())
}

/// Binds a copy of an optional text value.
pub fn opt_text_param(o: &Option<String>) -> (p: Param)
    ensures
        p@ == opt_text(*o),
{
    match o {
        Some(s) => Param::Text(s.clone()),
        None => Param::Null,
    }
}

/// Binds an optional integer.
pub fn opt_int_param(o: Option<i32>) -> (p: Param)
    ensures
        p@ == opt_int(o),
{
    match o {
        Some(i) => Param::Integer(i as i64),
        None => Param::Null,
    }
}

/// Binds an optional float.
pub fn opt_real_param(o: Option<F32Bits>) -> (p: Param)
    ensures
        p@ == opt_real(o),
{
    match o {
        Some(f) => Param::Real(f),
        None => Param::Null,
    }
}

/// Binds an optional flag.
pub fn opt_bool_param(o: Option<bool>) -> (p: Param)
    ensures
        p@ == opt_bool(o),
{
    match o {
        Some(b) => Param::Bool(b),
        None => Param::Null,
    }
}

/// Binds an integer.
pub fn int_param(i: i32) -> (p: Param)
    ensures
        p@ == integer(i),
{
    Param::Integer(i as i64)
}

/// A value is bound as itself: text as its characters, an integer widened to
/// 64 bits, a float or flag as it is, and an absent optional value as NULL.
pub proof fn lemma_bound_values(s: String, o: Option<String>, i: Option<i32>, f: Option<F32Bits>, b: Option<bool>, n: i32)
    ensures
        text(s) == ParamView::Text(s@),
        integer(n) == ParamView::Integer(n as i64),
        o is None ==> opt_text(o) == ParamView::Null,
        o matches Some(x) ==> opt_text(o) == ParamView::Text(x@),
        i is None ==> opt_int(i) == ParamView::Null,
        i matches Some(x) ==> opt_int(i) == ParamView::Integer(x as i64),
        f is None ==> opt_real(f) == ParamView::Null,
        f matches Some(x) ==> opt_real(f) == ParamView::Real(x),
        b is None ==> opt_bool(b) == ParamView::Null,
        b matches Some(x) ==> opt_bool(b) == ParamView::Bool(x),
{
}

} // verus!
