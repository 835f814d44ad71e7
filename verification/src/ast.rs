//! The source syntax tree: the crate's own model of the parsed SQL
//! constructs that the translators read.
//!
//! A parser produces these nodes; the crate only consumes them.  The model is
//! a closed, variant-tagged tree.  Variants that the translation does not
//! support are represented explicitly (`Unsupported`), carrying the rendered
//! form of the foreign node where the error message needs it, so that the
//! rejection policy itself is part of the model.
//!
//! Where a node stores a type as text (`Expr::Parameter`, `Expr::Cast`), the
//! text is the type's canonical rendering, produced by whoever built the
//! tree; the translation stores such text verbatim.
//!
//! Each executable type has a spec counterpart (its deep view) over `Seq` and
//! plain values, which the translation contracts speak about.

use vstd::prelude::*;

verus! {

/// An identifier: its text and the quote character it was written with, if
/// any.
#[derive(Debug, Clone, PartialEq)]
pub struct Ident {
    pub value: String,
    pub quote_style: Option<char>,
}

/// Deep view of [`Ident`].
pub struct IdentView {
    pub value: Seq<char>,
    pub quote_style: Option<char>,
}

impl DeepView for Ident {
    type V = IdentView;

    open spec fn deep_view(&self) -> IdentView {
        IdentView { value: self.value@, quote_style: self.quote_style }
    }
}

/// A literal value.
#[derive(Debug, Clone, PartialEq)]
pub enum Value {
    /// A numeric literal, kept as its exact source text.
    Number(String),
    /// A single-quoted string literal, with the quotes already stripped.
    SingleQuotedString(String),
    /// The `NULL` literal.
    Null,
    /// Any other literal kind, carrying its rendered form.
    Unsupported(String),
}

/// Deep view of [`Value`].
pub enum ValueView {
    Number(Seq<char>),
    SingleQuotedString(Seq<char>),
    Null,
    Unsupported(Seq<char>),
}

impl DeepView for Value {
    type V = ValueView;

    open spec fn deep_view(&self) -> ValueView {
        match self {
            Value::Number(s) => ValueView::Number(s@),
            Value::SingleQuotedString(s) => ValueView::SingleQuotedString(s@),
            Value::Null => ValueView::Null,
            Value::Unsupported(s) => ValueView::Unsupported(s@),
        }
    }
}

/// A unary operator applied to one operand.
#[derive(Debug, Clone, Copy, PartialEq, Eq, Structural)]
pub enum UnaryOperator {
    Plus,
    Minus,
    Not,
}

/// A binary operator applied to a left and a right operand.
#[derive(Debug, Clone, Copy, PartialEq, Eq, Structural)]
pub enum BinaryOperator {
    Plus,
    Minus,
    Multiply,
    Divide,
    Modulus,
    Gt,
    Lt,
    GtEq,
    LtEq,
    Eq,
    NotEq,
    And,
    Or,
    Like,
    NotLike,
}

impl DeepView for UnaryOperator {
    type V = UnaryOperator;

    open spec fn deep_view(&self) -> UnaryOperator {
        *self
    }
}

impl DeepView for BinaryOperator {
    type V = BinaryOperator;

    open spec fn deep_view(&self) -> BinaryOperator {
        *self
    }
}

/// A declared data type.
///
/// Length-like parameters are optional in the source; the translation's
/// defaulting policy for an absent parameter differs between variants and is
/// stated in the mapping itself.
#[derive(Debug, PartialEq)]
pub enum DataType {
    Char(Option<u64>),
    Varchar(Option<u64>),
    Uuid,
    Clob(Option<u64>),
    Binary(Option<u64>),
    Varbinary(Option<u64>),
    Blob(Option<u64>),
    Decimal(Option<u64>, Option<u64>),
    Float(Option<u64>),
    SmallInt,
    Int,
    BigInt,
    Real,
    Double,
    Boolean,
    Date,
    Time,
    Timestamp,
    Interval,
    Regclass,
    Text,
    Bytea,
    /// A custom type, named by a qualified multi-part identifier.
    Custom(Vec<Ident>),
    /// An array of an element type.
    Array(Box<DataType>),
}

/// Deep view of [`DataType`].
pub enum DataTypeView {
    Char(Option<u64>),
    Varchar(Option<u64>),
    Uuid,
    Clob(Option<u64>),
    Binary(Option<u64>),
    Varbinary(Option<u64>),
    Blob(Option<u64>),
    Decimal(Option<u64>, Option<u64>),
    Float(Option<u64>),
    SmallInt,
    Int,
    BigInt,
    Real,
    Double,
    Boolean,
    Date,
    Time,
    Timestamp,
    Interval,
    Regclass,
    Text,
    Bytea,
    Custom(Seq<IdentView>),
    Array(Box<DataTypeView>),
}

impl DeepView for DataType {
    type V = DataTypeView;

    open spec fn deep_view(&self) -> DataTypeView
        decreases self,
    {
        match self {
            DataType::Char(s) => DataTypeView::Char(*s),
            DataType::Varchar(s) => DataTypeView::Varchar(*s),
            DataType::Uuid => DataTypeView::Uuid,
            DataType::Clob(s) => DataTypeView::Clob(*s),
            DataType::Binary(s) => DataTypeView::Binary(*s),
            DataType::Varbinary(s) => DataTypeView::Varbinary(*s),
            DataType::Blob(s) => DataTypeView::Blob(*s),
            DataType::Decimal(p, s) => DataTypeView::Decimal(*p, *s),
            DataType::Float(s) => DataTypeView::Float(*s),
            DataType::SmallInt => DataTypeView::SmallInt,
            DataType::Int => DataTypeView::Int,
            DataType::BigInt => DataTypeView::BigInt,
            DataType::Real => DataTypeView::Real,
            DataType::Double => DataTypeView::Double,
            DataType::Boolean => DataTypeView::Boolean,
            DataType::Date => DataTypeView::Date,
            DataType::Time => DataTypeView::Time,
            DataType::Timestamp => DataTypeView::Timestamp,
            DataType::Interval => DataTypeView::Interval,
            DataType::Regclass => DataTypeView::Regclass,
            DataType::Text => DataTypeView::Text,
            DataType::Bytea => DataTypeView::Bytea,
            DataType::Custom(name) => DataTypeView::Custom(name.deep_view()),
            DataType::Array(dt) => DataTypeView::Array(Box::new((**dt).deep_view())),
        }
    }
}

/// A function call expression: the callee's canonical name, its arguments in
/// source order, and the `DISTINCT` flag.
///
/// A windowing clause has no representation here: translating it is an
/// explicit non-goal, and it is dropped before the tree reaches this crate.
#[derive(Debug, PartialEq)]
pub struct FunctionCall {
    pub name: String,
    pub args: Vec<Expr>,
    pub distinct: bool,
}

/// Deep view of [`FunctionCall`].
pub struct FunctionCallView {
    pub name: Seq<char>,
    pub args: Seq<ExprView>,
    pub distinct: bool,
}

/// A scalar expression.
#[derive(Debug, PartialEq)]
pub enum Expr {
    /// A bare identifier.
    Identifier(Ident),
    /// A typed parameter in a function definition's argument list.  The type
    /// is kept in its canonical textual form.  A source-side default value is
    /// dropped before the tree reaches this crate: the wire form never
    /// carries one.
    Parameter { name: Option<Ident>, data_type: String },
    /// A function call.
    Function(FunctionCall),
    /// A unary operator applied to an operand.
    UnaryOp { op: UnaryOperator, expr: Box<Expr> },
    /// A binary operator applied to a left and a right operand.
    BinaryOp { left: Box<Expr>, op: BinaryOperator, right: Box<Expr> },
    /// A cast of an expression to a type, the type in its canonical textual
    /// form.
    Cast { expr: Box<Expr>, data_type: String },
    /// A `CASE` expression.  Conditions and results are positionally paired
    /// by the consumer; this crate does not validate their lengths against
    /// each other.
    Case {
        operand: Option<Box<Expr>>,
        conditions: Vec<Expr>,
        results: Vec<Expr>,
        else_result: Option<Box<Expr>>,
    },
    /// A literal value.
    Value(Value),
    /// A parenthesized expression.  Parenthesization is preserved as a
    /// distinct wrapper so that a consumer can re-render the source
    /// faithfully.
    Nested(Box<Expr>),
    /// A `BETWEEN` predicate.
    Between { expr: Box<Expr>, negated: bool, low: Box<Expr>, high: Box<Expr> },
    /// Any other expression kind, carrying its rendered form.
    Unsupported(String),
}

/// Deep view of [`Expr`].
pub enum ExprView {
    Identifier(IdentView),
    Parameter { name: Option<IdentView>, data_type: Seq<char> },
    Function(FunctionCallView),
    UnaryOp { op: UnaryOperator, expr: Box<ExprView> },
    BinaryOp { left: Box<ExprView>, op: BinaryOperator, right: Box<ExprView> },
    Cast { expr: Box<ExprView>, data_type: Seq<char> },
    Case {
        operand: Option<Box<ExprView>>,
        conditions: Seq<ExprView>,
        results: Seq<ExprView>,
        else_result: Option<Box<ExprView>>,
    },
    Value(ValueView),
    Nested(Box<ExprView>),
    Between { expr: Box<ExprView>, negated: bool, low: Box<ExprView>, high: Box<ExprView> },
    Unsupported(Seq<char>),
}

impl DeepView for Expr {
    type V = ExprView;

    open spec fn deep_view(&self) -> ExprView
        decreases self,
    {
        match self {
            Expr::Identifier(i) => ExprView::Identifier(i.deep_view()),
            Expr::Parameter { name, data_type } => ExprView::Parameter {
                name: match name {
                    Some(i) => Some(i.deep_view()),
                    None => None,
                },
                data_type: data_type@,
            },
            Expr::Function(f) => ExprView::Function(
                FunctionCallView {
                    name: f.name@,
                    args: exprs_deep_view(f.args@),
                    distinct: f.distinct,
                },
            ),
            Expr::UnaryOp { op, expr } => ExprView::UnaryOp {
                op: *op,
                expr: Box::new((**expr).deep_view()),
            },
            Expr::BinaryOp { left, op, right } => ExprView::BinaryOp {
                left: Box::new((**left).deep_view()),
                op: *op,
                right: Box::new((**right).deep_view()),
            },
            Expr::Cast { expr, data_type } => ExprView::Cast {
                expr: Box::new((**expr).deep_view()),
                data_type: data_type@,
            },
            Expr::Case { operand, conditions, results, else_result } => ExprView::Case {
                operand: match operand {
                    Some(e) => Some(Box::new((**e).deep_view())),
                    None => None,
                },
                conditions: exprs_deep_view(conditions@),
                results: exprs_deep_view(results@),
                else_result: match else_result {
                    Some(e) => Some(Box::new((**e).deep_view())),
                    None => None,
                },
            },
            Expr::Value(v) => ExprView::Value(v.deep_view()),
            Expr::Nested(e) => ExprView::Nested(Box::new((**e).deep_view())),
            Expr::Between { expr, negated, low, high } => ExprView::Between {
                expr: Box::new((**expr).deep_view()),
                negated: *negated,
                low: Box::new((**low).deep_view()),
                high: Box::new((**high).deep_view()),
            },
            Expr::Unsupported(s) => ExprView::Unsupported(s@),
        }
    }
}

/// Pointwise deep view of a sequence of expressions, in order.
pub open spec fn exprs_deep_view(s: Seq<Expr>) -> Seq<ExprView>
    decreases s,
{
    if s.len() == 0 {
        Seq::empty()
    } else {
        exprs_deep_view(s.drop_last()).push(s.last().deep_view())
    }
}

/// What [`exprs_deep_view`] is pointwise: the view of the sequence has the
/// same length and holds each element's view at the same position.
pub proof fn lemma_exprs_deep_view(s: Seq<Expr>)
    ensures
        exprs_deep_view(s).len() == s.len(),
        forall|i: int|
            0 <= i < s.len() ==> #[trigger] exprs_deep_view(s)[i] == s[i].deep_view(),
    decreases s,
{
    if s.len() > 0 {
        assert(exprs_deep_view(s) == exprs_deep_view(s.drop_last()).push(s.last().deep_view()));
        lemma_exprs_deep_view(s.drop_last());
        assert forall|i: int| 0 <= i < s.len() implies #[trigger] exprs_deep_view(s)[i]
            == s[i].deep_view() by {
            if i < s.len() - 1 {
                assert(exprs_deep_view(s)[i] == exprs_deep_view(s.drop_last())[i]);
                assert(s.drop_last()[i] == s[i]);
            }
        }
    }
}

/// A top-level statement.
#[derive(Debug, PartialEq)]
pub enum Statement {
    /// A function definition: `CREATE FUNCTION`.  The name is kept in its
    /// canonical textual form; the arguments are `Expr::Parameter` nodes in
    /// source order; the body is one expression.
    CreateFunction {
        name: String,
        temporary: bool,
        or_replace: bool,
        if_not_exists: bool,
        args: Vec<Expr>,
        return_type: Option<DataType>,
        expr: Box<Expr>,
    },
    /// Any other statement kind.  The translation rejects it wholesale.
    Unsupported,
}

/// Deep view of [`Statement`].
pub enum StatementView {
    CreateFunction {
        name: Seq<char>,
        temporary: bool,
        or_replace: bool,
        if_not_exists: bool,
        args: Seq<ExprView>,
        return_type: Option<DataTypeView>,
        expr: Box<ExprView>,
    },
    Unsupported,
}

impl DeepView for Statement {
    type V = StatementView;

    open spec fn deep_view(&self) -> StatementView {
        match self {
            Statement::CreateFunction {
                name,
                temporary,
                or_replace,
                if_not_exists,
                args,
                return_type,
                expr,
            } => StatementView::CreateFunction {
                name: name@,
                temporary: *temporary,
                or_replace: *or_replace,
                if_not_exists: *if_not_exists,
                args: exprs_deep_view(args@),
                return_type: match return_type {
                    Some(dt) => Some(dt.deep_view()),
                    None => None,
                },
                expr: Box::new((**expr).deep_view()),
            },
            Statement::Unsupported => StatementView::Unsupported,
        }
    }
}

} // verus!
