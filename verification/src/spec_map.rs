//! The mapping itself, stated mathematically: for every source node view,
//! either the wire node view it translates to, or the exact message of the
//! error that rejects it.
//!
//! These functions are the reference that the executable translators in
//! [`crate::translate`] are proved against.  They are total: a `Result`
//! return says precisely on which inputs translation succeeds and what it
//! produces, and on which it fails and with which message.  Failure
//! propagates from the first failing child, in declared field order.

use vstd::prelude::*;

use crate::ast::BinaryOperator;
use crate::ast::DataTypeView;
use crate::ast::ExprView;
use crate::ast::IdentView;
use crate::ast::StatementView;
use crate::ast::UnaryOperator;
use crate::ast::ValueView;
use crate::wire::WireBinaryOperator;
use crate::wire::WireDataTypeView;
use crate::wire::WireExprView;
use crate::wire::WireIdentView;
use crate::wire::WireStatementView;
use crate::wire::WireUnaryOperator;
use crate::wire::WireValueView;

verus! {

/// The message rejecting a literal value kind outside the supported set;
/// `rendering` is the offending node's rendered form.
pub open spec fn value_rejected_msg(rendering: Seq<char>) -> Seq<char> {
    "not supported value "@ + rendering
}

/// The message rejecting an expression kind outside the supported set;
/// `rendering` is the offending node's rendered form.
pub open spec fn expr_rejected_msg(rendering: Seq<char>) -> Seq<char> {
    "Dont supported expr "@ + rendering
}

/// The message rejecting every statement kind other than a function
/// definition: a fixed literal, deliberately coarse.
pub open spec fn statement_rejected_msg() -> Seq<char> {
    "unimplemented"@
}

/// Maps an identifier.  Total: the text is kept verbatim, and the quote
/// marker becomes a one-character string, or the empty string when the
/// identifier was unquoted.
pub open spec fn map_ident(i: IdentView) -> WireIdentView {
    WireIdentView {
        value: i.value,
        quote_style: match i.quote_style {
            Some(c) => seq![c],
            None => Seq::empty(),
        },
    }
}

/// Maps a sequence of identifiers pointwise, keeping order.
pub open spec fn map_idents(s: Seq<IdentView>) -> Seq<WireIdentView> {
    s.map_values(|i: IdentView| map_ident(i))
}

/// Maps a literal value.  `Number` and `SingleQuotedString` keep their exact
/// text; `Null` becomes the wire `Null` variant with its marker set `true`;
/// every other literal kind is rejected.
pub open spec fn map_value(v: ValueView) -> Result<WireValueView, Seq<char>> {
    match v {
        ValueView::Number(s) => Ok(WireValueView::Number(s)),
        ValueView::SingleQuotedString(s) => Ok(WireValueView::SingleQuotedString(s)),
        ValueView::Null => Ok(WireValueView::Null(true)),
        ValueView::Unsupported(rendering) => Err(value_rejected_msg(rendering)),
    }
}

/// Maps a unary operator; every variant has exactly one wire counterpart.
pub open spec fn map_unary_operator(op: UnaryOperator) -> WireUnaryOperator {
    match op {
        UnaryOperator::Plus => WireUnaryOperator::Plus,
        UnaryOperator::Minus => WireUnaryOperator::Minus,
        UnaryOperator::Not => WireUnaryOperator::Not,
    }
}

/// Maps a binary operator; every variant has exactly one wire counterpart.
pub open spec fn map_binary_operator(op: BinaryOperator) -> WireBinaryOperator {
    match op {
        BinaryOperator::Plus => WireBinaryOperator::Plus,
        BinaryOperator::Minus => WireBinaryOperator::Minus,
        BinaryOperator::Multiply => WireBinaryOperator::Multiply,
        BinaryOperator::Divide => WireBinaryOperator::Divide,
        BinaryOperator::Modulus => WireBinaryOperator::Modulus,
        BinaryOperator::Gt => WireBinaryOperator::Gt,
        BinaryOperator::Lt => WireBinaryOperator::Lt,
        BinaryOperator::GtEq => WireBinaryOperator::GtEq,
        BinaryOperator::LtEq => WireBinaryOperator::LtEq,
        BinaryOperator::Eq => WireBinaryOperator::Eq,
        BinaryOperator::NotEq => WireBinaryOperator::NotEq,
        BinaryOperator::And => WireBinaryOperator::And,
        BinaryOperator::Or => WireBinaryOperator::Or,
        BinaryOperator::Like => WireBinaryOperator::Like,
        BinaryOperator::NotLike => WireBinaryOperator::NotLike,
    }
}

/// Maps a data type.  Total over the whole type grammar.
///
/// The defaulting policy is asymmetric on purpose: an unset `Char` or
/// `Varchar` length becomes `0`, an unset `Float` length becomes `8`, unset
/// `Decimal` precision and scale each become `0` independently, while
/// `Binary`, `Varbinary`, `Blob` and `Clob` keep true optionality (an unset
/// length stays an absent field).
pub open spec fn map_data_type(dt: DataTypeView) -> WireDataTypeView
    decreases dt,
{
    match dt {
        DataTypeView::Char(s) => WireDataTypeView::Char {
            length: match s {
                Some(n) => n,
                None => 0,
            },
        },
        DataTypeView::Varchar(s) => WireDataTypeView::Varchar {
            length: match s {
                Some(n) => n,
                None => 0,
            },
        },
        DataTypeView::Uuid => WireDataTypeView::Uuid,
        DataTypeView::Clob(s) => WireDataTypeView::Clob { length: s },
        DataTypeView::Binary(s) => WireDataTypeView::Binary { length: s },
        DataTypeView::Varbinary(s) => WireDataTypeView::Varbinary { length: s },
        DataTypeView::Blob(s) => WireDataTypeView::Blob { length: s },
        DataTypeView::Decimal(p, s) => WireDataTypeView::Decimal {
            precision: match p {
                Some(n) => n,
                None => 0,
            },
            scale: match s {
                Some(n) => n,
                None => 0,
            },
        },
        DataTypeView::Float(s) => WireDataTypeView::Float {
            length: match s {
                Some(n) => n,
                None => 8,
            },
        },
        DataTypeView::SmallInt => WireDataTypeView::SmallInt,
        DataTypeView::Int => WireDataTypeView::Int,
        DataTypeView::BigInt => WireDataTypeView::BigInt,
        DataTypeView::Real => WireDataTypeView::Real,
        DataTypeView::Double => WireDataTypeView::Double,
        DataTypeView::Boolean => WireDataTypeView::Boolean,
        DataTypeView::Date => WireDataTypeView::Date,
        DataTypeView::Time => WireDataTypeView::Time,
        DataTypeView::Timestamp => WireDataTypeView::Timestamp,
        DataTypeView::Interval => WireDataTypeView::Interval,
        DataTypeView::Regclass => WireDataTypeView::Regclass,
        DataTypeView::Text => WireDataTypeView::Text,
        DataTypeView::Bytea => WireDataTypeView::Bytea,
        DataTypeView::Custom(name) => WireDataTypeView::Custom { name: map_idents(name) },
        DataTypeView::Array(elem) => WireDataTypeView::Array {
            data_type: Box::new(map_data_type(*elem)),
        },
    }
}

/// Maps an expression: each supported variant to its one wire counterpart,
/// children translated recursively in declared order, and any unsupported
/// variant rejected.  The error is the first failing child's, so a failure
/// anywhere rejects the whole expression with that child's message.
pub open spec fn map_expr(e: ExprView) -> Result<WireExprView, Seq<char>>
    decreases e,
{
    match e {
        ExprView::Identifier(i) => Ok(WireExprView::Identifier { ident: map_ident(i) }),
        ExprView::Parameter { name, data_type } => Ok(WireExprView::Parameter {
            name: match name {
                Some(i) => Some(map_ident(i)),
                None => None,
            },
            data_type: data_type,
            default: None,
        }),
        ExprView::Function(f) => match map_exprs(f.args) {
            Ok(wargs) => Ok(WireExprView::Function {
                name: f.name,
                args: wargs,
                distinct: f.distinct,
            }),
            Err(m) => Err(m),
        },
        ExprView::UnaryOp { op, expr } => match map_expr(*expr) {
            Ok(w) => Ok(WireExprView::UnaryOp {
                op: map_unary_operator(op),
                expr: Box::new(w),
            }),
            Err(m) => Err(m),
        },
        ExprView::BinaryOp { left, op, right } => match map_expr(*left) {
            Ok(wl) => match map_expr(*right) {
                Ok(wr) => Ok(WireExprView::BinaryOp {
                    left: Box::new(wl),
                    op: map_binary_operator(op),
                    right: Box::new(wr),
                }),
                Err(m) => Err(m),
            },
            Err(m) => Err(m),
        },
        ExprView::Cast { expr, data_type } => match map_expr(*expr) {
            Ok(w) => Ok(WireExprView::Cast { expr: Box::new(w), data_type: data_type }),
            Err(m) => Err(m),
        },
        ExprView::Case { operand, conditions, results, else_result } => match map_expr_opt(
            operand,
        ) {
            Ok(wop) => match map_exprs(conditions) {
                Ok(wconds) => match map_exprs(results) {
                    Ok(wres) => match map_expr_opt(else_result) {
                        Ok(welse) => Ok(WireExprView::Case {
                            operand: wop,
                            conditions: wconds,
                            results: wres,
                            else_result: welse,
                        }),
                        Err(m) => Err(m),
                    },
                    Err(m) => Err(m),
                },
                Err(m) => Err(m),
            },
            Err(m) => Err(m),
        },
        ExprView::Value(v) => match map_value(v) {
            Ok(w) => Ok(WireExprView::Value { value: w }),
            Err(m) => Err(m),
        },
        ExprView::Nested(inner) => match map_expr(*inner) {
            Ok(w) => Ok(WireExprView::Nested { expr: Box::new(w) }),
            Err(m) => Err(m),
        },
        ExprView::Between { expr, negated, low, high } => match map_expr(*expr) {
            Ok(we) => match map_expr(*low) {
                Ok(wlo) => match map_expr(*high) {
                    Ok(whi) => Ok(WireExprView::Between {
                        expr: Box::new(we),
                        negated: negated,
                        low: Box::new(wlo),
                        high: Box::new(whi),
                    }),
                    Err(m) => Err(m),
                },
                Err(m) => Err(m),
            },
            Err(m) => Err(m),
        },
        ExprView::Unsupported(rendering) => Err(expr_rejected_msg(rendering)),
    }
}

/// Maps an optional expression; an absent child stays absent.
pub open spec fn map_expr_opt(o: Option<Box<ExprView>>) -> Result<
    Option<Box<WireExprView>>,
    Seq<char>,
>
    decreases o,
{
    match o {
        Some(e) => match map_expr(*e) {
            Ok(w) => Ok(Some(Box::new(w))),
            Err(m) => Err(m),
        },
        None => Ok(None),
    }
}

/// Maps a sequence of expressions element by element, keeping order; the
/// first failing element rejects the whole sequence with its message.
pub open spec fn map_exprs(s: Seq<ExprView>) -> Result<Seq<WireExprView>, Seq<char>>
    decreases s,
{
    if s.len() == 0 {
        Ok(Seq::empty())
    } else {
        match map_exprs(s.drop_last()) {
            Ok(ws) => match map_expr(s.last()) {
                Ok(w) => Ok(ws.push(w)),
                Err(m) => Err(m),
            },
            Err(m) => Err(m),
        }
    }
}

/// Once a prefix of a sequence fails to map, the whole sequence fails with
/// the same message: later elements cannot rescue or change the error.
pub proof fn lemma_map_exprs_err_extends(s: Seq<ExprView>, k: int)
    requires
        0 <= k <= s.len(),
        map_exprs(s.subrange(0, k)) is Err,
    ensures
        map_exprs(s) == map_exprs(s.subrange(0, k)),
    decreases s.len() - k,
{
    if k == s.len() {
        assert(s.subrange(0, k) =~= s);
    } else {
        let q = s.subrange(0, k + 1);
        assert(q.drop_last() =~= s.subrange(0, k));
        assert(map_exprs(q) == map_exprs(s.subrange(0, k)));
        lemma_map_exprs_err_extends(s, k + 1);
    }
}

/// Maps a statement.  A function definition keeps its scalar flags verbatim
/// and translates its optional declared result type, its body expression and
/// its argument list (in that order, which fixes whose error wins); every
/// other statement kind is rejected with the fixed message.
pub open spec fn map_statement(s: StatementView) -> Result<WireStatementView, Seq<char>> {
    match s {
        StatementView::CreateFunction {
            name,
            temporary,
            or_replace,
            if_not_exists,
            args,
            return_type,
            expr,
        } => match map_expr(*expr) {
            Ok(we) => match map_exprs(args) {
                Ok(wargs) => Ok(WireStatementView::CreateFunction {
                    name: name,
                    temporary: temporary,
                    or_replace: or_replace,
                    if_not_exists: if_not_exists,
                    return_type: match return_type {
                        Some(dt) => Some(map_data_type(dt)),
                        None => None,
                    },
                    expr: Box::new(we),
                    args: wargs,
                }),
                Err(m) => Err(m),
            },
            Err(m) => Err(m),
        },
        StatementView::Unsupported => Err(statement_rejected_msg()),
    }
}

/// Maps a script: every statement in order, the first failing statement
/// rejecting the whole script with its message.
pub open spec fn map_script(s: Seq<StatementView>) -> Result<Seq<WireStatementView>, Seq<char>>
    decreases s,
{
    if s.len() == 0 {
        Ok(Seq::empty())
    } else {
        match map_script(s.drop_last()) {
            Ok(ws) => match map_statement(s.last()) {
                Ok(w) => Ok(ws.push(w)),
                Err(m) => Err(m),
            },
            Err(m) => Err(m),
        }
    }
}

/// Once a prefix of a script fails to map, the whole script fails with the
/// same message.
pub proof fn lemma_map_script_err_extends(s: Seq<StatementView>, k: int)
    requires
        0 <= k <= s.len(),
        map_script(s.subrange(0, k)) is Err,
    ensures
        map_script(s) == map_script(s.subrange(0, k)),
    decreases s.len() - k,
{
    if k == s.len() {
        assert(s.subrange(0, k) =~= s);
    } else {
        let q = s.subrange(0, k + 1);
        assert(q.drop_last() =~= s.subrange(0, k));
        assert(map_script(q) == map_script(s.subrange(0, k)));
        lemma_map_script_err_extends(s, k + 1);
    }
}

} // verus!
