//! The structural guarantees of the mapping, stated and proved once and for
//! all: defaulting policy, null encoding, operator distinctness, order and
//! shape preservation, and the rejection path.

use vstd::prelude::*;

use crate::ast::BinaryOperator;
use crate::ast::DataTypeView;
use crate::ast::ExprView;
use crate::ast::FunctionCallView;
use crate::ast::StatementView;
use crate::ast::UnaryOperator;
use crate::ast::ValueView;
use crate::spec_map::expr_rejected_msg;
use crate::spec_map::map_binary_operator;
use crate::spec_map::map_data_type;
use crate::spec_map::map_expr;
use crate::spec_map::map_ident;
use crate::spec_map::map_expr_opt;
use crate::spec_map::map_exprs;
use crate::spec_map::map_statement;
use crate::spec_map::map_unary_operator;
use crate::spec_map::map_value;
use crate::wire::WireDataTypeView;
use crate::wire::WireExprView;
use crate::wire::WireValueView;

verus! {

/// Defaulting is asymmetric, variant by variant: an unset `Char` or
/// `Varchar` length becomes the number `0` and an unset `Float` length the
/// number `8`, unset `Decimal` precision and scale each become `0`, while an
/// unset `Binary`, `Varbinary`, `Blob` or `Clob` length stays an absent
/// field, never a number.
pub proof fn lemma_default_asymmetry()
    ensures
        map_data_type(DataTypeView::Char(None)) == (WireDataTypeView::Char { length: 0 }),
        map_data_type(DataTypeView::Varchar(None)) == (WireDataTypeView::Varchar { length: 0 }),
        map_data_type(DataTypeView::Float(None)) == (WireDataTypeView::Float { length: 8 }),
        map_data_type(DataTypeView::Decimal(None, None)) == (WireDataTypeView::Decimal {
            precision: 0,
            scale: 0,
        }),
        map_data_type(DataTypeView::Binary(None)) == (WireDataTypeView::Binary { length: None }),
        map_data_type(DataTypeView::Varbinary(None)) == (WireDataTypeView::Varbinary {
            length: None,
        }),
        map_data_type(DataTypeView::Blob(None)) == (WireDataTypeView::Blob { length: None }),
        map_data_type(DataTypeView::Clob(None)) == (WireDataTypeView::Clob { length: None }),
{
}

/// A source `NULL` literal translates to the wire `Null` variant with its
/// redundant marker field set `true`, never to an absent field.
pub proof fn lemma_null_marker()
    ensures
        map_value(ValueView::Null) == Ok::<_, Seq<char>>(WireValueView::Null(true)),
{
}

/// No two unary operators collapse to one wire value: the operator mapping
/// is injective over its enumeration.
pub proof fn lemma_unary_operator_distinct(a: UnaryOperator, b: UnaryOperator)
    ensures
        map_unary_operator(a) == map_unary_operator(b) ==> a == b,
{
}

/// No two binary operators collapse to one wire value: the operator mapping
/// is injective over its enumeration.
pub proof fn lemma_binary_operator_distinct(a: BinaryOperator, b: BinaryOperator)
    ensures
        map_binary_operator(a) == map_binary_operator(b) ==> a == b,
{
}

/// An expression kind outside the supported set is always rejected, with the
/// message naming its rendered form.
pub proof fn lemma_unsupported_expr_rejected(rendering: Seq<char>)
    ensures
        map_expr(ExprView::Unsupported(rendering)) == Err::<WireExprView, _>(
            expr_rejected_msg(rendering),
        ),
{
}

/// A failing body expression rejects the whole containing statement with the
/// same error: no partially-filled wire statement is ever produced.
pub proof fn lemma_statement_rejected_with_body(s: StatementView)
    requires
        s is CreateFunction,
        map_expr(*s->CreateFunction_expr) is Err,
    ensures
        map_statement(s) == Err::<crate::wire::WireStatementView, Seq<char>>(
            map_expr(*s->CreateFunction_expr)->Err_0,
        ),
{
}

/// A failing argument rejects the whole containing statement when the body
/// itself translates: the statement fails with the argument list's error.
pub proof fn lemma_statement_rejected_with_args(s: StatementView)
    requires
        s is CreateFunction,
        map_expr(*s->CreateFunction_expr) is Ok,
        map_exprs(s->CreateFunction_args) is Err,
    ensures
        map_statement(s) == Err::<crate::wire::WireStatementView, Seq<char>>(
            map_exprs(s->CreateFunction_args)->Err_0,
        ),
{
}

/// A list of expressions maps pointwise and in order: the i-th wire element
/// is exactly the translation of the i-th source element.
pub proof fn lemma_map_exprs_pointwise(s: Seq<ExprView>, ws: Seq<WireExprView>)
    requires
        map_exprs(s) == Ok::<_, Seq<char>>(ws),
    ensures
        ws.len() == s.len(),
        forall|i: int|
            0 <= i < s.len() ==> map_expr(s[i]) == Ok::<_, Seq<char>>(#[trigger] ws[i]),
    decreases s,
{
    if s.len() > 0 {
        let p = s.drop_last();
        let wp = map_exprs(p)->Ok_0;
        lemma_map_exprs_pointwise(p, wp);
        assert(ws == wp.push(map_expr(s.last())->Ok_0));
        assert forall|i: int| 0 <= i < s.len() implies map_expr(s[i]) == Ok::<_, Seq<char>>(
            #[trigger] ws[i],
        ) by {
            if i < s.len() - 1 {
                assert(p[i] == s[i]);
                assert(ws[i] == wp[i]);
            } else {
                assert(s[i] == s.last());
            }
        }
    }
}

/// Binary operators keep operand order: the wire left operand is the
/// translation of the source left operand, and likewise on the right.
pub proof fn lemma_binary_order(
    left: Box<ExprView>,
    op: BinaryOperator,
    right: Box<ExprView>,
    w: WireExprView,
)
    requires
        map_expr(ExprView::BinaryOp { left, op, right }) == Ok::<_, Seq<char>>(w),
    ensures
        w is BinaryOp,
        map_expr(*left) == Ok::<_, Seq<char>>(*w->BinaryOp_left),
        map_expr(*right) == Ok::<_, Seq<char>>(*w->BinaryOp_right),
        w->BinaryOp_op == map_binary_operator(op),
{
}

/// Function calls keep argument order: the i-th wire argument is the
/// translation of the i-th source argument.
pub proof fn lemma_function_args_order(f: FunctionCallView, w: WireExprView)
    requires
        map_expr(ExprView::Function(f)) == Ok::<_, Seq<char>>(w),
    ensures
        w is Function,
        w->Function_args.len() == f.args.len(),
        forall|i: int|
            0 <= i < f.args.len() ==> map_expr(f.args[i]) == Ok::<_, Seq<char>>(
                #[trigger] w->Function_args[i],
            ),
{
    lemma_map_exprs_pointwise(f.args, w->Function_args);
}

/// Case expressions keep the order of their condition and result lists.
pub proof fn lemma_case_order(
    operand: Option<Box<ExprView>>,
    conditions: Seq<ExprView>,
    results: Seq<ExprView>,
    else_result: Option<Box<ExprView>>,
    w: WireExprView,
)
    requires
        map_expr(ExprView::Case { operand, conditions, results, else_result }) == Ok::<
            _,
            Seq<char>,
        >(w),
    ensures
        w is Case,
        w->Case_conditions.len() == conditions.len(),
        forall|i: int|
            0 <= i < conditions.len() ==> map_expr(conditions[i]) == Ok::<_, Seq<char>>(
                #[trigger] w->Case_conditions[i],
            ),
        w->Case_results.len() == results.len(),
        forall|i: int|
            0 <= i < results.len() ==> map_expr(results[i]) == Ok::<_, Seq<char>>(
                #[trigger] w->Case_results[i],
            ),
{
    lemma_map_exprs_pointwise(conditions, w->Case_conditions);
    lemma_map_exprs_pointwise(results, w->Case_results);
}

/// The larger of two naturals.
pub open spec fn nat_max(a: nat, b: nat) -> nat {
    if a >= b {
        a
    } else {
        b
    }
}

/// How many immediate expression children a source node has.
pub open spec fn expr_child_count(e: ExprView) -> nat {
    match e {
        ExprView::Identifier(_) => 0,
        ExprView::Parameter { name, data_type } => 0,
        ExprView::Function(f) => f.args.len(),
        ExprView::UnaryOp { op, expr } => 1,
        ExprView::BinaryOp { left, op, right } => 2,
        ExprView::Cast { expr, data_type } => 1,
        ExprView::Case { operand, conditions, results, else_result } => (if operand is Some {
            1nat
        } else {
            0nat
        }) + conditions.len() + results.len() + (if else_result is Some {
            1nat
        } else {
            0nat
        }),
        ExprView::Value(_) => 0,
        ExprView::Nested(_) => 1,
        ExprView::Between { expr, negated, low, high } => 3,
        ExprView::Unsupported(_) => 0,
    }
}

/// How many immediate expression children a wire node has.
pub open spec fn wire_expr_child_count(w: WireExprView) -> nat {
    match w {
        WireExprView::Identifier { ident } => 0,
        WireExprView::Parameter { name, data_type, default } => (if default is Some {
            1nat
        } else {
            0nat
        }),
        WireExprView::Function { name, args, distinct } => args.len(),
        WireExprView::UnaryOp { op, expr } => 1,
        WireExprView::BinaryOp { left, op, right } => 2,
        WireExprView::Cast { expr, data_type } => 1,
        WireExprView::Case { operand, conditions, results, else_result } => (if operand
            is Some {
            1nat
        } else {
            0nat
        }) + conditions.len() + results.len() + (if else_result is Some {
            1nat
        } else {
            0nat
        }),
        WireExprView::Value { value } => 0,
        WireExprView::Nested { expr } => 1,
        WireExprView::Between { expr, negated, low, high } => 3,
    }
}

/// Nesting depth of a source expression: a leaf counts one, an inner node
/// one more than its deepest child.
pub open spec fn expr_depth(e: ExprView) -> nat
    decreases e,
{
    match e {
        ExprView::Identifier(_) => 1,
        ExprView::Parameter { name, data_type } => 1,
        ExprView::Function(f) => 1 + exprs_depth(f.args),
        ExprView::UnaryOp { op, expr } => 1 + expr_depth(*expr),
        ExprView::BinaryOp { left, op, right } => 1 + nat_max(
            expr_depth(*left),
            expr_depth(*right),
        ),
        ExprView::Cast { expr, data_type } => 1 + expr_depth(*expr),
        ExprView::Case { operand, conditions, results, else_result } => 1 + nat_max(
            nat_max(opt_expr_depth(operand), exprs_depth(conditions)),
            nat_max(exprs_depth(results), opt_expr_depth(else_result)),
        ),
        ExprView::Value(_) => 1,
        ExprView::Nested(inner) => 1 + expr_depth(*inner),
        ExprView::Between { expr, negated, low, high } => 1 + nat_max(
            expr_depth(*expr),
            nat_max(expr_depth(*low), expr_depth(*high)),
        ),
        ExprView::Unsupported(_) => 1,
    }
}

/// Depth of an optional child: absent counts zero.
pub open spec fn opt_expr_depth(o: Option<Box<ExprView>>) -> nat
    decreases o,
{
    match o {
        Some(e) => expr_depth(*e),
        None => 0,
    }
}

/// The deepest element of a list of children; an empty list counts zero.
pub open spec fn exprs_depth(s: Seq<ExprView>) -> nat
    decreases s,
{
    if s.len() == 0 {
        0
    } else {
        nat_max(exprs_depth(s.drop_last()), expr_depth(s.last()))
    }
}

/// Nesting depth of a wire expression, measured exactly as on the source.
pub open spec fn wire_expr_depth(w: WireExprView) -> nat
    decreases w,
{
    match w {
        WireExprView::Identifier { ident } => 1,
        WireExprView::Parameter { name, data_type, default } => 1 + wire_opt_expr_depth(default),
        WireExprView::Function { name, args, distinct } => 1 + wire_exprs_depth(args),
        WireExprView::UnaryOp { op, expr } => 1 + wire_expr_depth(*expr),
        WireExprView::BinaryOp { left, op, right } => 1 + nat_max(
            wire_expr_depth(*left),
            wire_expr_depth(*right),
        ),
        WireExprView::Cast { expr, data_type } => 1 + wire_expr_depth(*expr),
        WireExprView::Case { operand, conditions, results, else_result } => 1 + nat_max(
            nat_max(wire_opt_expr_depth(operand), wire_exprs_depth(conditions)),
            nat_max(wire_exprs_depth(results), wire_opt_expr_depth(else_result)),
        ),
        WireExprView::Value { value } => 1,
        WireExprView::Nested { expr } => 1 + wire_expr_depth(*expr),
        WireExprView::Between { expr, negated, low, high } => 1 + nat_max(
            wire_expr_depth(*expr),
            nat_max(wire_expr_depth(*low), wire_expr_depth(*high)),
        ),
    }
}

/// Depth of an optional wire child: absent counts zero.
pub open spec fn wire_opt_expr_depth(o: Option<Box<WireExprView>>) -> nat
    decreases o,
{
    match o {
        Some(e) => wire_expr_depth(*e),
        None => 0,
    }
}

/// The deepest element of a list of wire children; an empty list counts
/// zero.
pub open spec fn wire_exprs_depth(s: Seq<WireExprView>) -> nat
    decreases s,
{
    if s.len() == 0 {
        0
    } else {
        nat_max(wire_exprs_depth(s.drop_last()), wire_expr_depth(s.last()))
    }
}

/// Shape preservation, one level at a time: a translated node has exactly as
/// many immediate children as its source.
pub proof fn lemma_child_count_preserved(e: ExprView, w: WireExprView)
    requires
        map_expr(e) == Ok::<_, Seq<char>>(w),
    ensures
        wire_expr_child_count(w) == expr_child_count(e),
{
    reveal_with_fuel(map_expr, 2);
    match e {
        ExprView::Function(f) => {
            lemma_map_exprs_pointwise(f.args, w->Function_args);
        },
        ExprView::Case { operand, conditions, results, else_result } => {
            lemma_map_exprs_pointwise(conditions, w->Case_conditions);
            lemma_map_exprs_pointwise(results, w->Case_results);
        },
        _ => {},
    }
}

/// Shape preservation in the large: a translated expression has exactly the
/// nesting depth of its source, however deep the tree.
pub proof fn lemma_depth_preserved(e: ExprView)
    requires
        map_expr(e) is Ok,
    ensures
        wire_expr_depth(map_expr(e)->Ok_0) == expr_depth(e),
    decreases e,
{
    reveal_with_fuel(map_expr, 2);
    match e {
        ExprView::Function(f) => {
            lemma_depth_preserved_seq(f.args);
        },
        ExprView::UnaryOp { op, expr } => {
            lemma_depth_preserved(*expr);
        },
        ExprView::BinaryOp { left, op, right } => {
            lemma_depth_preserved(*left);
            lemma_depth_preserved(*right);
        },
        ExprView::Cast { expr, data_type } => {
            lemma_depth_preserved(*expr);
        },
        ExprView::Case { operand, conditions, results, else_result } => {
            lemma_depth_preserved_opt(operand);
            lemma_depth_preserved_seq(conditions);
            lemma_depth_preserved_seq(results);
            lemma_depth_preserved_opt(else_result);
        },
        ExprView::Nested(inner) => {
            lemma_depth_preserved(*inner);
        },
        ExprView::Between { expr, negated, low, high } => {
            lemma_depth_preserved(*expr);
            lemma_depth_preserved(*low);
            lemma_depth_preserved(*high);
        },
        _ => {},
    }
}

/// Depth preservation for an optional child.
pub proof fn lemma_depth_preserved_opt(o: Option<Box<ExprView>>)
    requires
        map_expr_opt(o) is Ok,
    ensures
        wire_opt_expr_depth(map_expr_opt(o)->Ok_0) == opt_expr_depth(o),
    decreases o,
{
    match o {
        Some(e) => {
            lemma_depth_preserved(*e);
        },
        None => {},
    }
}

/// Depth preservation for a list of children.
pub proof fn lemma_depth_preserved_seq(s: Seq<ExprView>)
    requires
        map_exprs(s) is Ok,
    ensures
        wire_exprs_depth(map_exprs(s)->Ok_0) == exprs_depth(s),
    decreases s,
{
    if s.len() > 0 {
        let p = s.drop_last();
        let wp = map_exprs(p)->Ok_0;
        let wlast = map_expr(s.last())->Ok_0;
        lemma_depth_preserved_seq(p);
        lemma_depth_preserved(s.last());
        let ws = map_exprs(s)->Ok_0;
        assert(ws == wp.push(wlast));
        assert(ws.drop_last() =~= wp);
        assert(ws.last() == wlast);
    }
}

/// Nesting depth of a declared data type: only arrays nest.
pub open spec fn data_type_depth(dt: DataTypeView) -> nat
    decreases dt,
{
    match dt {
        DataTypeView::Array(elem) => 1 + data_type_depth(*elem),
        _ => 1,
    }
}

/// Nesting depth of a wire data type, measured exactly as on the source.
pub open spec fn wire_data_type_depth(w: WireDataTypeView) -> nat
    decreases w,
{
    match w {
        WireDataTypeView::Array { data_type } => 1 + wire_data_type_depth(*data_type),
        _ => 1,
    }
}

/// Shape preservation over the type grammar: a translated data type nests
/// exactly as deep as its source, and a custom type keeps all its name parts
/// in order.
pub proof fn lemma_data_type_shape(dt: DataTypeView)
    ensures
        wire_data_type_depth(map_data_type(dt)) == data_type_depth(dt),
        dt is Custom ==> {
            &&& map_data_type(dt)->Custom_name.len() == dt->Custom_0.len()
            &&& forall|i: int|
                0 <= i < dt->Custom_0.len() ==> #[trigger] map_data_type(dt)->Custom_name[i]
                    == map_ident(dt->Custom_0[i])
        },
    decreases dt,
{
    match dt {
        DataTypeView::Array(elem) => {
            lemma_data_type_shape(*elem);
        },
        _ => {},
    }
}

/// Whether an expression holds, anywhere in it, a node outside the
/// supported set: an unsupported expression kind or an unsupported literal.
pub open spec fn expr_has_unsupported(e: ExprView) -> bool
    decreases e,
{
    match e {
        ExprView::Identifier(_) => false,
        ExprView::Parameter { name, data_type } => false,
        ExprView::Function(f) => exprs_have_unsupported(f.args),
        ExprView::UnaryOp { op, expr } => expr_has_unsupported(*expr),
        ExprView::BinaryOp { left, op, right } => expr_has_unsupported(*left)
            || expr_has_unsupported(*right),
        ExprView::Cast { expr, data_type } => expr_has_unsupported(*expr),
        ExprView::Case { operand, conditions, results, else_result } => opt_has_unsupported(
            operand,
        ) || exprs_have_unsupported(conditions) || exprs_have_unsupported(results)
            || opt_has_unsupported(else_result),
        ExprView::Value(v) => v is Unsupported,
        ExprView::Nested(inner) => expr_has_unsupported(*inner),
        ExprView::Between { expr, negated, low, high } => expr_has_unsupported(*expr)
            || expr_has_unsupported(*low) || expr_has_unsupported(*high),
        ExprView::Unsupported(_) => true,
    }
}

/// Whether an optional child holds an unsupported node.
pub open spec fn opt_has_unsupported(o: Option<Box<ExprView>>) -> bool
    decreases o,
{
    match o {
        Some(e) => expr_has_unsupported(*e),
        None => false,
    }
}

/// Whether any element of a list holds an unsupported node.
pub open spec fn exprs_have_unsupported(s: Seq<ExprView>) -> bool
    decreases s,
{
    if s.len() == 0 {
        false
    } else {
        exprs_have_unsupported(s.drop_last()) || expr_has_unsupported(s.last())
    }
}

/// The rejection path, exactly: an expression fails to translate if and only
/// if a node outside the supported set occurs somewhere in it.  Nothing else
/// is ever rejected, and such a node is never silently dropped.
pub proof fn lemma_rejection_exact(e: ExprView)
    ensures
        map_expr(e) is Err <==> expr_has_unsupported(e),
    decreases e,
{
    reveal_with_fuel(map_expr, 2);
    match e {
        ExprView::Function(f) => {
            lemma_rejection_exact_seq(f.args);
        },
        ExprView::UnaryOp { op, expr } => {
            lemma_rejection_exact(*expr);
        },
        ExprView::BinaryOp { left, op, right } => {
            lemma_rejection_exact(*left);
            lemma_rejection_exact(*right);
        },
        ExprView::Cast { expr, data_type } => {
            lemma_rejection_exact(*expr);
        },
        ExprView::Case { operand, conditions, results, else_result } => {
            lemma_rejection_exact_opt(operand);
            lemma_rejection_exact_seq(conditions);
            lemma_rejection_exact_seq(results);
            lemma_rejection_exact_opt(else_result);
        },
        ExprView::Nested(inner) => {
            lemma_rejection_exact(*inner);
        },
        ExprView::Between { expr, negated, low, high } => {
            lemma_rejection_exact(*expr);
            lemma_rejection_exact(*low);
            lemma_rejection_exact(*high);
        },
        _ => {},
    }
}

/// The rejection path for an optional child.
pub proof fn lemma_rejection_exact_opt(o: Option<Box<ExprView>>)
    ensures
        map_expr_opt(o) is Err <==> opt_has_unsupported(o),
    decreases o,
{
    match o {
        Some(e) => {
            lemma_rejection_exact(*e);
        },
        None => {},
    }
}

/// The rejection path for a list of children.
pub proof fn lemma_rejection_exact_seq(s: Seq<ExprView>)
    ensures
        map_exprs(s) is Err <==> exprs_have_unsupported(s),
    decreases s,
{
    if s.len() > 0 {
        lemma_rejection_exact_seq(s.drop_last());
        lemma_rejection_exact(s.last());
    }
}

/// The rejection path at statement level: a function definition fails to
/// translate exactly when its body or one of its arguments holds an
/// unsupported node, and every other statement kind always fails.
pub proof fn lemma_statement_rejection_exact(s: StatementView)
    ensures
        (match s {
            StatementView::CreateFunction {
                name,
                temporary,
                or_replace,
                if_not_exists,
                args,
                return_type,
                expr,
            } => map_statement(s) is Err <==> (expr_has_unsupported(*expr)
                || exprs_have_unsupported(args)),
            StatementView::Unsupported => map_statement(s) is Err,
        }),
{
    match s {
        StatementView::CreateFunction {
            name,
            temporary,
            or_replace,
            if_not_exists,
            args,
            return_type,
            expr,
        } => {
            lemma_rejection_exact(*expr);
            lemma_rejection_exact_seq(args);
        },
        StatementView::Unsupported => {},
    }
}

} // verus!
