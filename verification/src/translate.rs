//! The executable translators: one per node kind, each proved to compute
//! exactly the mapping stated in [`crate::spec_map`].
//!
//! Every function either returns the wire node whose view the mapping
//! prescribes for its input, or the error whose message the mapping
//! prescribes; nothing else can come back.  Failure of any child rejects the
//! whole containing node, so no partially-filled wire message ever escapes.

use vstd::prelude::*;
use vstd::string::StringExecFns;

use crate::ast::BinaryOperator;
use crate::ast::DataType;
use crate::ast::Expr;
use crate::ast::Ident;
use crate::ast::Statement;
use crate::ast::UnaryOperator;
use crate::ast::Value;
use crate::ast::exprs_deep_view;
use crate::ast::lemma_exprs_deep_view;
use crate::spec_map::lemma_map_exprs_err_extends;
use crate::spec_map::lemma_map_script_err_extends;
use crate::spec_map::map_binary_operator;
use crate::spec_map::map_data_type;
use crate::spec_map::map_expr;
use crate::spec_map::map_exprs;
use crate::spec_map::map_ident;
use crate::spec_map::map_idents;
use crate::spec_map::map_script;
use crate::spec_map::map_statement;
use crate::spec_map::map_unary_operator;
use crate::spec_map::map_value;
use crate::wire::WireBinaryOperator;
use crate::wire::WireDataType;
use crate::wire::WireExpr;
use crate::wire::WireExprView;
use crate::wire::WireIdent;
use crate::wire::WireStatement;
use crate::wire::WireStatementView;
use crate::wire::WireUnaryOperator;
use crate::wire::WireValue;
use crate::wire::WireValueView;
use crate::wire::wire_exprs_deep_view;
use crate::ConvertError;

verus! {

/// Relies on `String::from` for `char`: the returned string holds exactly
/// the one given character.
#[verifier::external_body]
fn char_to_string(c: char) -> (r: String)
    ensures
        r@ == seq![c],
{
    String::from(c)
}

/// Translates an identifier: the text verbatim, and the quote marker as a
/// one-character string or the empty-string "no quote" sentinel.
pub fn translate_ident(i: &Ident) -> (r: WireIdent)
    ensures
        r.deep_view() == map_ident(i.deep_view()),
{
    WireIdent {
        value: i.value.clone(),
        quote_style: match i.quote_style {
            Some(c) => char_to_string(c),
            None => String::new(),
        },
    }
}

/// Translates a literal value, or rejects an unsupported literal kind with a
/// message naming its rendered form.
pub fn translate_value(v: &Value) -> (r: Result<WireValue, ConvertError>)
    ensures
        (match r {
            Ok(w) => map_value(v.deep_view()) == Ok::<_, Seq<char>>(w.deep_view()),
            Err(e) => map_value(v.deep_view()) == Err::<WireValueView, _>(e@),
        }),
{
    match v {
        Value::Number(s) => Ok(WireValue::Number(s.clone())),
        Value::SingleQuotedString(s) => Ok(WireValue::SingleQuotedString(s.clone())),
        Value::Null => Ok(WireValue::Null(true)),
        Value::Unsupported(rendering) => {
            let mut m = "not supported value ".to_owned();
            m.append(rendering.as_str());
            Err(ConvertError::new(m))
        },
    }
}

/// Translates a declared data type.  This covers the full type grammar, so
/// it always succeeds; the `Result` stands so that a future extension of the
/// grammar must decide its failure behaviour explicitly.
pub fn translate_data_type(dt: &DataType) -> (r: Result<WireDataType, ConvertError>)
    ensures
        r is Ok,
        (match r {
            Ok(w) => w.deep_view() == map_data_type(dt.deep_view()),
            Err(_) => false,
        }),
    decreases dt,
{
    match dt {
        DataType::Char(s) => Ok(WireDataType::Char {
            length: match s {
                Some(n) => *n,
                None => 0,
            },
        }),
        DataType::Varchar(s) => Ok(WireDataType::Varchar {
            length: match s {
                Some(n) => *n,
                None => 0,
            },
        }),
        DataType::Uuid => Ok(WireDataType::Uuid),
        DataType::Clob(s) => Ok(WireDataType::Clob { length: *s }),
        DataType::Binary(s) => Ok(WireDataType::Binary { length: *s }),
        DataType::Varbinary(s) => Ok(WireDataType::Varbinary { length: *s }),
        DataType::Blob(s) => Ok(WireDataType::Blob { length: *s }),
        DataType::Decimal(p, s) => Ok(WireDataType::Decimal {
            precision: match p {
                Some(n) => *n,
                None => 0,
            },
            scale: match s {
                Some(n) => *n,
                None => 0,
            },
        }),
        DataType::Float(s) => Ok(WireDataType::Float {
            length: match s {
                Some(n) => *n,
                None => 8,
            },
        }),
        DataType::SmallInt => Ok(WireDataType::SmallInt),
        DataType::Int => Ok(WireDataType::Int),
        DataType::BigInt => Ok(WireDataType::BigInt),
        DataType::Real => Ok(WireDataType::Real),
        DataType::Double => Ok(WireDataType::Double),
        DataType::Boolean => Ok(WireDataType::Boolean),
        DataType::Date => Ok(WireDataType::Date),
        DataType::Time => Ok(WireDataType::Time),
        DataType::Timestamp => Ok(WireDataType::Timestamp),
        DataType::Interval => Ok(WireDataType::Interval),
        DataType::Regclass => Ok(WireDataType::Regclass),
        DataType::Text => Ok(WireDataType::Text),
        DataType::Bytea => Ok(WireDataType::Bytea),
        DataType::Custom(name) => {
            let mut wname: Vec<WireIdent> = Vec::new();
            let mut k: usize = 0;
            while k < name.len()
                invariant
                    k <= name.len(),
                    wname.deep_view() =~= map_idents(name.deep_view()).subrange(0, k as int),
                decreases name.len() - k,
            {
                let ghost prev = wname.deep_view();
                let w = translate_ident(&name[k]);
                wname.push(w);
                proof {
                    let s = map_idents(name.deep_view());
                    assert(prev.len() == k);
                    assert(wname@.len() == k + 1);
                    assert(wname.deep_view().len() == k + 1);
                    assert forall|j: int| 0 <= j < k + 1 implies #[trigger] wname.deep_view()[j]
                        == s.subrange(0, k + 1)[j] by {
                        if j < k {
                            assert(wname.deep_view()[j] == prev[j]);
                            assert(prev[j] == s.subrange(0, k as int)[j]);
                        } else {
                            assert(wname.deep_view()[j] == w.deep_view());
                            assert(s[j] == map_ident(name.deep_view()[j]));
                        }
                    }
                    assert(wname.deep_view() =~= s.subrange(0, k + 1));
                }
                k += 1;
            }
            proof {
                assert(wname.deep_view() =~= map_idents(name.deep_view()));
            }
            Ok(WireDataType::Custom { name: wname })
        },
        DataType::Array(elem) => match translate_data_type(elem) {
            Ok(w) => Ok(WireDataType::Array { data_type: Box::new(w) }),
            Err(e) => Err(e),
        },
    }
}

/// Translates a unary operator; every variant has exactly one counterpart.
fn translate_unary_operator(op: &UnaryOperator) -> (r: WireUnaryOperator)
    ensures
        r == map_unary_operator(*op),
{
    match op {
        UnaryOperator::Plus => WireUnaryOperator::Plus,
        UnaryOperator::Minus => WireUnaryOperator::Minus,
        UnaryOperator::Not => WireUnaryOperator::Not,
    }
}

/// Translates a binary operator; every variant has exactly one counterpart.
fn translate_binary_operator(op: &BinaryOperator) -> (r: WireBinaryOperator)
    ensures
        r == map_binary_operator(*op),
{
    match op {
        BinaryOperator::Plus => WireBinaryOperator::Plus,
        BinaryOperator::Minus => WireBinaryOperator::Minus,
        BinaryOperator::Multiply => WireBinaryOperator::Multiply,
        BinaryOperator::Divide => WireBinaryOperator::Divide,
        BinaryOperator::Modulus => WireBinaryOperator::Modulus,
        BinaryOperator::Gt => WireBinaryOperator::Gt,
        BinaryOperator::Lt => WireBinaryOperator::Lt,
        BinaryOperator::GtEq => WireBinaryOperator::GtEq,
        BinaryOperator::LtEq => WireBinaryOperator::LtEq,
        BinaryOperator::Eq => WireBinaryOperator::Eq,
        BinaryOperator::NotEq => WireBinaryOperator::NotEq,
        BinaryOperator::And => WireBinaryOperator::And,
        BinaryOperator::Or => WireBinaryOperator::Or,
        BinaryOperator::Like => WireBinaryOperator::Like,
        BinaryOperator::NotLike => WireBinaryOperator::NotLike,
    }
}

/// Translates one expression, or rejects it with the first failing child's
/// error; an unsupported expression kind is rejected with a message naming
/// its rendered form.
pub fn translate_expr(e: &Expr) -> (r: Result<WireExpr, ConvertError>)
    ensures
        (match r {
            Ok(w) => map_expr(e.deep_view()) == Ok::<_, Seq<char>>(w.deep_view()),
            Err(err) => map_expr(e.deep_view()) == Err::<WireExprView, _>(err@),
        }),
    decreases e,
{
    match e {
        Expr::Identifier(i) => Ok(WireExpr::Identifier { ident: translate_ident(i) }),
        Expr::Parameter { name, data_type } => Ok(WireExpr::Parameter {
            name: match name {
                Some(i) => Some(translate_ident(i)),
                None => None,
            },
            data_type: data_type.clone(),
            default: None,
        }),
        Expr::Function(f) => match translate_exprs(&f.args) {
            Ok(wargs) => Ok(WireExpr::Function {
                name: f.name.clone(),
                args: wargs,
                distinct: f.distinct,
            }),
            Err(err) => Err(err),
        },
        Expr::UnaryOp { op, expr } => match translate_expr(expr) {
            Ok(w) => Ok(WireExpr::UnaryOp {
                op: translate_unary_operator(op),
                expr: Box::new(w),
            }),
            Err(err) => Err(err),
        },
        Expr::BinaryOp { left, op, right } => match translate_expr(left) {
            Ok(wl) => match translate_expr(right) {
                Ok(wr) => Ok(WireExpr::BinaryOp {
                    left: Box::new(wl),
                    op: translate_binary_operator(op),
                    right: Box::new(wr),
                }),
                Err(err) => Err(err),
            },
            Err(err) => Err(err),
        },
        Expr::Cast { expr, data_type } => match translate_expr(expr) {
            Ok(w) => Ok(WireExpr::Cast { expr: Box::new(w), data_type: data_type.clone() }),
            Err(err) => Err(err),
        },
        Expr::Case { operand, conditions, results, else_result } => {
            proof {
                // the optional children sit one call deeper in the mapping,
                // so the prover must look two unfoldings in
                reveal_with_fuel(map_expr, 2);
            }
            let wop = match operand {
                Some(inner) => match translate_expr(inner) {
                    Ok(w) => Some(Box::new(w)),
                    Err(err) => {
                        return Err(err);
                    },
                },
                None => None,
            };
            let wconds = match translate_exprs(conditions) {
                Ok(ws) => ws,
                Err(err) => {
                    return Err(err);
                },
            };
            let wres = match translate_exprs(results) {
                Ok(ws) => ws,
                Err(err) => {
                    return Err(err);
                },
            };
            let welse = match else_result {
                Some(inner) => match translate_expr(inner) {
                    Ok(w) => Some(Box::new(w)),
                    Err(err) => {
                        return Err(err);
                    },
                },
                None => None,
            };
            Ok(WireExpr::Case {
                operand: wop,
                conditions: wconds,
                results: wres,
                else_result: welse,
            })
        },
        Expr::Value(v) => match translate_value(v) {
            Ok(w) => Ok(WireExpr::Value { value: w }),
            Err(err) => Err(err),
        },
        Expr::Nested(inner) => match translate_expr(inner) {
            Ok(w) => Ok(WireExpr::Nested { expr: Box::new(w) }),
            Err(err) => Err(err),
        },
        Expr::Between { expr, negated, low, high } => match translate_expr(expr) {
            Ok(we) => match translate_expr(low) {
                Ok(wlo) => match translate_expr(high) {
                    Ok(whi) => Ok(WireExpr::Between {
                        expr: Box::new(we),
                        negated: *negated,
                        low: Box::new(wlo),
                        high: Box::new(whi),
                    }),
                    Err(err) => Err(err),
                },
                Err(err) => Err(err),
            },
            Err(err) => Err(err),
        },
        Expr::Unsupported(rendering) => {
            let mut m = "Dont supported expr ".to_owned();
            m.append(rendering.as_str());
            Err(ConvertError::new(m))
        },
    }
}

/// Translates a list of expressions element by element, keeping order; the
/// first failing element rejects the whole list with its error.
pub fn translate_exprs(v: &Vec<Expr>) -> (r: Result<Vec<WireExpr>, ConvertError>)
    ensures
        (match r {
            Ok(ws) => map_exprs(exprs_deep_view(v@)) == Ok::<_, Seq<char>>(
                wire_exprs_deep_view(ws@),
            ),
            Err(err) => map_exprs(exprs_deep_view(v@)) == Err::<Seq<WireExprView>, _>(err@),
        }),
    decreases v,
{
    let ghost sv = exprs_deep_view(v@);
    proof {
        lemma_exprs_deep_view(v@);
        assert(sv.subrange(0, 0) =~= Seq::<crate::ast::ExprView>::empty());
        assert(wire_exprs_deep_view(Seq::<WireExpr>::empty()) == Seq::<WireExprView>::empty());
    }
    let mut out: Vec<WireExpr> = Vec::new();
    let mut i: usize = 0;
    while i < v.len()
        invariant
            i <= v.len(),
            sv == exprs_deep_view(v@),
            sv.len() == v@.len(),
            forall|j: int| 0 <= j < sv.len() ==> #[trigger] sv[j] == v@[j].deep_view(),
            out@.len() == i as int,
            map_exprs(sv.subrange(0, i as int)) == Ok::<_, Seq<char>>(
                wire_exprs_deep_view(out@),
            ),
        decreases v@.len() - i,
    {
        match translate_expr(&v[i]) {
            Ok(w) => {
                let ghost prevout = out@;
                out.push(w);
                proof {
                    let q = sv.subrange(0, i + 1);
                    assert(q.drop_last() =~= sv.subrange(0, i as int));
                    assert(q.last() == sv[i as int]);
                    assert(out@.last() == out@[i as int]);
                    assert(map_expr(q.last()) == Ok::<_, Seq<char>>(out@.last().deep_view()));
                    assert(map_exprs(q) == Ok::<_, Seq<char>>(
                        wire_exprs_deep_view(prevout).push(out@.last().deep_view()),
                    ));
                    assert(out@.drop_last() =~= prevout);
                    assert(wire_exprs_deep_view(out@) == wire_exprs_deep_view(prevout).push(
                        out@.last().deep_view(),
                    ));
                }
                i += 1;
            },
            Err(err) => {
                proof {
                    let q = sv.subrange(0, i + 1);
                    assert(q.drop_last() =~= sv.subrange(0, i as int));
                    assert(q.last() == sv[i as int]);
                    assert(map_exprs(q) == Err::<Seq<WireExprView>, _>(err@));
                    lemma_map_exprs_err_extends(sv, i + 1);
                }
                return Err(err);
            },
        }
    }
    proof {
        assert(sv.subrange(0, v@.len() as int) =~= sv);
    }
    Ok(out)
}

/// Translates one statement: a function definition keeps its scalar flags
/// verbatim and translates its declared result type, body and argument list;
/// any other statement kind is rejected with the fixed message.
pub fn translate_statement(s: &Statement) -> (r: Result<WireStatement, ConvertError>)
    ensures
        (match r {
            Ok(w) => map_statement(s.deep_view()) == Ok::<_, Seq<char>>(w.deep_view()),
            Err(err) => map_statement(s.deep_view()) == Err::<WireStatementView, _>(err@),
        }),
{
    match s {
        Statement::CreateFunction {
            name,
            temporary,
            or_replace,
            if_not_exists,
            args,
            return_type,
            expr,
        } => {
            let wret = match return_type {
                Some(dt) => match translate_data_type(dt) {
                    Ok(w) => Some(w),
                    Err(err) => {
                        return Err(err);
                    },
                },
                None => None,
            };
            let we = match translate_expr(expr) {
                Ok(w) => w,
                Err(err) => {
                    return Err(err);
                },
            };
            let wargs = match translate_exprs(args) {
                Ok(ws) => ws,
                Err(err) => {
                    return Err(err);
                },
            };
            Ok(WireStatement::CreateFunction {
                name: name.clone(),
                temporary: *temporary,
                or_replace: *or_replace,
                if_not_exists: *if_not_exists,
                return_type: wret,
                expr: Box::new(we),
                args: wargs,
            })
        },
        Statement::Unsupported => Err(ConvertError::new("unimplemented".to_owned())),
    }
}

/// Translates a parsed script: every statement in order, each to its wire
/// message; the first statement that cannot be translated rejects the whole
/// script with its error, and nothing is returned for any statement.
pub fn sql2pb(script: &Vec<Statement>) -> (r: Result<Vec<WireStatement>, ConvertError>)
    ensures
        (match r {
            Ok(ws) => map_script(script.deep_view()) == Ok::<_, Seq<char>>(ws.deep_view()),
            Err(err) => map_script(script.deep_view()) == Err::<Seq<WireStatementView>, _>(
                err@,
            ),
        }),
{
    let ghost sv = script.deep_view();
    let mut out: Vec<WireStatement> = Vec::new();
    proof {
        assert(sv.subrange(0, 0) =~= Seq::<crate::ast::StatementView>::empty());
        assert(out.deep_view() =~= Seq::<WireStatementView>::empty());
    }
    let mut i: usize = 0;
    while i < script.len()
        invariant
            i <= script.len(),
            sv == script.deep_view(),
            sv.len() == script@.len(),
            out@.len() == i as int,
            map_script(sv.subrange(0, i as int)) == Ok::<_, Seq<char>>(out.deep_view()),
        decreases script@.len() - i,
    {
        match translate_statement(&script[i]) {
            Ok(w) => {
                let ghost prevout = out.deep_view();
                out.push(w);
                proof {
                    let q = sv.subrange(0, i + 1);
                    assert(q.drop_last() =~= sv.subrange(0, i as int));
                    assert(q.last() == sv[i as int]);
                    assert(sv[i as int] == script@[i as int].deep_view());
                    assert(out@.last() == out@[i as int]);
                    assert(map_statement(q.last()) == Ok::<_, Seq<char>>(
                        out@.last().deep_view(),
                    ));
                    assert(map_script(q) == Ok::<_, Seq<char>>(
                        prevout.push(out@.last().deep_view()),
                    ));
                    assert(out.deep_view() =~= prevout.push(out@.last().deep_view()));
                }
                i += 1;
            },
            Err(err) => {
                proof {
                    let q = sv.subrange(0, i + 1);
                    assert(q.drop_last() =~= sv.subrange(0, i as int));
                    assert(q.last() == sv[i as int]);
                    assert(sv[i as int] == script@[i as int].deep_view());
                    assert(map_script(q) == Err::<Seq<WireStatementView>, _>(err@));
                    lemma_map_script_err_extends(sv, i + 1);
                }
                return Err(err);
            },
        }
    }
    proof {
        assert(sv.subrange(0, script@.len() as int) =~= sv);
    }
    Ok(out)
}

} // verus!
