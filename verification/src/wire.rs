//! The wire message tree: the crate's own model of the binary-serializable
//! messages that the translation produces.
//!
//! Each wire node mirrors one source node one level at a time; a binary
//! encoder (an external collaborator) turns a finished tree into bytes.
//! Optional fields here are optional on the wire; everything else is always
//! present.  As in [`crate::ast`], each executable type has a spec
//! counterpart (its deep view) that the contracts speak about.

use vstd::prelude::*;

verus! {

/// A wire identifier.  `quote_style` is the quote character as a one-character
/// string, or the empty string as an explicit "no quote" value (an empty
/// string sentinel, not an absent field).
#[derive(Debug, Clone, PartialEq)]
pub struct WireIdent {
    pub value: String,
    pub quote_style: String,
}

/// Deep view of [`WireIdent`].
pub struct WireIdentView {
    pub value: Seq<char>,
    pub quote_style: Seq<char>,
}

impl DeepView for WireIdent {
    type V = WireIdentView;

    open spec fn deep_view(&self) -> WireIdentView {
        WireIdentView { value: self.value@, quote_style: self.quote_style@ }
    }
}

/// A wire literal value.
#[derive(Debug, Clone, PartialEq)]
pub enum WireValue {
    /// A numeric literal, as its exact source text.
    Number(String),
    /// A single-quoted string literal's content.
    SingleQuotedString(String),
    /// The `NULL` literal.  The variant itself already signals null-ness; the
    /// boolean marker is redundant but part of the wire contract, and the
    /// translation always sets it to `true`.
    Null(bool),
}

/// Deep view of [`WireValue`].
pub enum WireValueView {
    Number(Seq<char>),
    SingleQuotedString(Seq<char>),
    Null(bool),
}

impl DeepView for WireValue {
    type V = WireValueView;

    open spec fn deep_view(&self) -> WireValueView {
        match self {
            WireValue::Number(s) => WireValueView::Number(s@),
            WireValue::SingleQuotedString(s) => WireValueView::SingleQuotedString(s@),
            WireValue::Null(b) => WireValueView::Null(*b),
        }
    }
}

/// The wire enumeration of unary operators.
#[derive(Debug, Clone, Copy, PartialEq, Eq, Structural)]
pub enum WireUnaryOperator {
    Plus,
    Minus,
    Not,
}

/// The wire enumeration of binary operators.
#[derive(Debug, Clone, Copy, PartialEq, Eq, Structural)]
pub enum WireBinaryOperator {
    Plus,
    Minus,
    Multiply,
    Divide,
    Modulus,
    Gt,
    Lt,
    GtEq,
    LtEq,
    Eq,
    NotEq,
    And,
    Or,
    Like,
    NotLike,
}

impl DeepView for WireUnaryOperator {
    type V = WireUnaryOperator;

    open spec fn deep_view(&self) -> WireUnaryOperator {
        *self
    }
}

impl DeepView for WireBinaryOperator {
    type V = WireBinaryOperator;

    open spec fn deep_view(&self) -> WireBinaryOperator {
        *self
    }
}

/// A wire data type message.
///
/// The defaulting policy is asymmetric on purpose: length-like parameters of
/// character and approximate-numeric types (`Char`, `Varchar`, `Float`,
/// `Decimal`) are plain numbers that a translator fills with a default when
/// the source leaves them unset, while byte-oriented and large-object types
/// (`Binary`, `Varbinary`, `Blob`, `Clob`) keep true optionality: an unset
/// source length is an absent wire field, not a zero.
#[derive(Debug, PartialEq)]
pub enum WireDataType {
    Char { length: u64 },
    Varchar { length: u64 },
    Uuid,
    Clob { length: Option<u64> },
    Binary { length: Option<u64> },
    Varbinary { length: Option<u64> },
    Blob { length: Option<u64> },
    Decimal { precision: u64, scale: u64 },
    Float { length: u64 },
    SmallInt,
    Int,
    BigInt,
    Real,
    Double,
    Boolean,
    Date,
    Time,
    Timestamp,
    Interval,
    Regclass,
    Text,
    Bytea,
    Custom { name: Vec<WireIdent> },
    Array { data_type: Box<WireDataType> },
}

/// Deep view of [`WireDataType`].
pub enum WireDataTypeView {
    Char { length: u64 },
    Varchar { length: u64 },
    Uuid,
    Clob { length: Option<u64> },
    Binary { length: Option<u64> },
    Varbinary { length: Option<u64> },
    Blob { length: Option<u64> },
    Decimal { precision: u64, scale: u64 },
    Float { length: u64 },
    SmallInt,
    Int,
    BigInt,
    Real,
    Double,
    Boolean,
    Date,
    Time,
    Timestamp,
    Interval,
    Regclass,
    Text,
    Bytea,
    Custom { name: Seq<WireIdentView> },
    Array { data_type: Box<WireDataTypeView> },
}

impl DeepView for WireDataType {
    type V = WireDataTypeView;

    open spec fn deep_view(&self) -> WireDataTypeView
        decreases self,
    {
        match self {
            WireDataType::Char { length } => WireDataTypeView::Char { length: *length },
            WireDataType::Varchar { length } => WireDataTypeView::Varchar { length: *length },
            WireDataType::Uuid => WireDataTypeView::Uuid,
            WireDataType::Clob { length } => WireDataTypeView::Clob { length: *length },
            WireDataType::Binary { length } => WireDataTypeView::Binary { length: *length },
            WireDataType::Varbinary { length } => WireDataTypeView::Varbinary { length: *length },
            WireDataType::Blob { length } => WireDataTypeView::Blob { length: *length },
            WireDataType::Decimal { precision, scale } => WireDataTypeView::Decimal {
                precision: *precision,
                scale: *scale,
            },
            WireDataType::Float { length } => WireDataTypeView::Float { length: *length },
            WireDataType::SmallInt => WireDataTypeView::SmallInt,
            WireDataType::Int => WireDataTypeView::Int,
            WireDataType::BigInt => WireDataTypeView::BigInt,
            WireDataType::Real => WireDataTypeView::Real,
            WireDataType::Double => WireDataTypeView::Double,
            WireDataType::Boolean => WireDataTypeView::Boolean,
            WireDataType::Date => WireDataTypeView::Date,
            WireDataType::Time => WireDataTypeView::Time,
            WireDataType::Timestamp => WireDataTypeView::Timestamp,
            WireDataType::Interval => WireDataTypeView::Interval,
            WireDataType::Regclass => WireDataTypeView::Regclass,
            WireDataType::Text => WireDataTypeView::Text,
            WireDataType::Bytea => WireDataTypeView::Bytea,
            WireDataType::Custom { name } => WireDataTypeView::Custom { name: name.deep_view() },
            WireDataType::Array { data_type } => WireDataTypeView::Array {
                data_type: Box::new((**data_type).deep_view()),
            },
        }
    }
}

/// A wire expression message.
#[derive(Debug, PartialEq)]
pub enum WireExpr {
    /// A bare identifier.
    Identifier { ident: WireIdent },
    /// A typed parameter.  The type is carried as canonical text, and
    /// `default` is never filled by the translation.
    Parameter { name: Option<WireIdent>, data_type: String, default: Option<Box<WireExpr>> },
    /// A function call: canonical name, arguments in source order, and the
    /// `DISTINCT` flag.
    Function { name: String, args: Vec<WireExpr>, distinct: bool },
    /// A unary operator applied to an operand.
    UnaryOp { op: WireUnaryOperator, expr: Box<WireExpr> },
    /// A binary operator applied to a left and a right operand, in that
    /// order.
    BinaryOp { left: Box<WireExpr>, op: WireBinaryOperator, right: Box<WireExpr> },
    /// A cast, with the target type as canonical text.
    Cast { expr: Box<WireExpr>, data_type: String },
    /// A `CASE` expression; conditions and results keep their source order.
    Case {
        operand: Option<Box<WireExpr>>,
        conditions: Vec<WireExpr>,
        results: Vec<WireExpr>,
        else_result: Option<Box<WireExpr>>,
    },
    /// A literal value.
    Value { value: WireValue },
    /// A parenthesized expression, kept as a distinct wrapper.
    Nested { expr: Box<WireExpr> },
    /// A `BETWEEN` predicate.
    Between { expr: Box<WireExpr>, negated: bool, low: Box<WireExpr>, high: Box<WireExpr> },
}

/// Deep view of [`WireExpr`].
pub enum WireExprView {
    Identifier { ident: WireIdentView },
    Parameter {
        name: Option<WireIdentView>,
        data_type: Seq<char>,
        default: Option<Box<WireExprView>>,
    },
    Function { name: Seq<char>, args: Seq<WireExprView>, distinct: bool },
    UnaryOp { op: WireUnaryOperator, expr: Box<WireExprView> },
    BinaryOp { left: Box<WireExprView>, op: WireBinaryOperator, right: Box<WireExprView> },
    Cast { expr: Box<WireExprView>, data_type: Seq<char> },
    Case {
        operand: Option<Box<WireExprView>>,
        conditions: Seq<WireExprView>,
        results: Seq<WireExprView>,
        else_result: Option<Box<WireExprView>>,
    },
    Value { value: WireValueView },
    Nested { expr: Box<WireExprView> },
    Between {
        expr: Box<WireExprView>,
        negated: bool,
        low: Box<WireExprView>,
        high: Box<WireExprView>,
    },
}

impl DeepView for WireExpr {
    type V = WireExprView;

    open spec fn deep_view(&self) -> WireExprView
        decreases self,
    {
        match self {
            WireExpr::Identifier { ident } => WireExprView::Identifier { ident: ident.deep_view() },
            WireExpr::Parameter { name, data_type, default } => WireExprView::Parameter {
                name: match name {
                    Some(i) => Some(i.deep_view()),
                    None => None,
                },
                data_type: data_type@,
                default: match default {
                    Some(e) => Some(Box::new((**e).deep_view())),
                    None => None,
                },
            },
            WireExpr::Function { name, args, distinct } => WireExprView::Function {
                name: name@,
                args: wire_exprs_deep_view(args@),
                distinct: *distinct,
            },
            WireExpr::UnaryOp { op, expr } => WireExprView::UnaryOp {
                op: *op,
                expr: Box::new((**expr).deep_view()),
            },
            WireExpr::BinaryOp { left, op, right } => WireExprView::BinaryOp {
                left: Box::new((**left).deep_view()),
                op: *op,
                right: Box::new((**right).deep_view()),
            },
            WireExpr::Cast { expr, data_type } => WireExprView::Cast {
                expr: Box::new((**expr).deep_view()),
                data_type: data_type@,
            },
            WireExpr::Case { operand, conditions, results, else_result } => WireExprView::Case {
                operand: match operand {
                    Some(e) => Some(Box::new((**e).deep_view())),
                    None => None,
                },
                conditions: wire_exprs_deep_view(conditions@),
                results: wire_exprs_deep_view(results@),
                else_result: match else_result {
                    Some(e) => Some(Box::new((**e).deep_view())),
                    None => None,
                },
            },
            WireExpr::Value { value } => WireExprView::Value { value: value.deep_view() },
            WireExpr::Nested { expr } => WireExprView::Nested {
                expr: Box::new((**expr).deep_view()),
            },
            WireExpr::Between { expr, negated, low, high } => WireExprView::Between {
                expr: Box::new((**expr).deep_view()),
                negated: *negated,
                low: Box::new((**low).deep_view()),
                high: Box::new((**high).deep_view()),
            },
        }
    }
}

/// Pointwise deep view of a sequence of wire expressions, in order.
pub open spec fn wire_exprs_deep_view(s: Seq<WireExpr>) -> Seq<WireExprView>
    decreases s,
{
    if s.len() == 0 {
        Seq::empty()
    } else {
        wire_exprs_deep_view(s.drop_last()).push(s.last().deep_view())
    }
}

/// A wire statement message.
#[derive(Debug, PartialEq)]
pub enum WireStatement {
    /// A function definition.  `return_type` keeps the source's optionality;
    /// the body expression is always present.
    CreateFunction {
        name: String,
        temporary: bool,
        or_replace: bool,
        if_not_exists: bool,
        return_type: Option<WireDataType>,
        expr: Box<WireExpr>,
        args: Vec<WireExpr>,
    },
}

/// Deep view of [`WireStatement`].
pub enum WireStatementView {
    CreateFunction {
        name: Seq<char>,
        temporary: bool,
        or_replace: bool,
        if_not_exists: bool,
        return_type: Option<WireDataTypeView>,
        expr: Box<WireExprView>,
        args: Seq<WireExprView>,
    },
}

impl DeepView for WireStatement {
    type V = WireStatementView;

    open spec fn deep_view(&self) -> WireStatementView {
        match self {
            WireStatement::CreateFunction {
                name,
                temporary,
                or_replace,
                if_not_exists,
                return_type,
                expr,
                args,
            } => WireStatementView::CreateFunction {
                name: name@,
                temporary: *temporary,
                or_replace: *or_replace,
                if_not_exists: *if_not_exists,
                return_type: match return_type {
                    Some(dt) => Some(dt.deep_view()),
                    None => None,
                },
                expr: Box::new((**expr).deep_view()),
                args: wire_exprs_deep_view(args@),
            },
        }
    }
}

} // verus!
