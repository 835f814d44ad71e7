//! Translation of parsed SQL syntax trees into a wire-format message tree.
//!
//! The crate owns two tree shapes: the source syntax tree ([`ast`]) as the
//! parser hands it over, and the wire message tree ([`wire`]) that a binary
//! encoder takes away.  The translators in [`translate`] map the first onto
//! the second, recursively and exhaustively: every supported source variant
//! has exactly one wire counterpart, and every unsupported variant is
//! rejected with an explicit error rather than silently dropped.
//!
//! The mathematical content of the mapping lives in [`spec_map`]; the
//! contracts of the executable translators state that they compute exactly
//! that mapping.  [`laws`] proves the structural guarantees of the mapping:
//! shape preservation, order preservation, and operator distinctness.

use vstd::prelude::*;

pub mod ast;
pub mod laws;
pub mod spec_map;
pub mod translate;
pub mod wire;

pub use ast::BinaryOperator;
pub use ast::DataType;
pub use ast::Expr;
pub use ast::FunctionCall;
pub use ast::Ident;
pub use ast::Statement;
pub use ast::UnaryOperator;
pub use ast::Value;
pub use translate::sql2pb;
pub use translate::translate_data_type;
pub use translate::translate_expr;
pub use translate::translate_exprs;
pub use translate::translate_ident;
pub use translate::translate_statement;
pub use translate::translate_value;
pub use wire::WireBinaryOperator;
pub use wire::WireDataType;
pub use wire::WireExpr;
pub use wire::WireIdent;
pub use wire::WireStatement;
pub use wire::WireUnaryOperator;
pub use wire::WireValue;

verus! {

/// The single error kind of the crate: a free-text message describing why a
/// source node could not be translated.  Its view is the message itself, as a
/// sequence of characters, so contracts can pin the exact text down.
#[derive(Debug, Clone)]
pub struct ConvertError {
    msg: String,
}

impl View for ConvertError {
    type V = Seq<char>;

    closed spec fn view(&self) -> Seq<char> {
        self.msg@
    }
}

impl ConvertError {
    /// Wraps a message into an error.
    pub fn new(msg: String) -> (e: ConvertError)
        ensures
            e@ == msg@,
    {
        ConvertError { msg }
    }

    /// The message carried by this error.
    pub fn message(&self) -> (m: &String)
        ensures
            m@ == self@,
    {
        &self.msg
    }
}

} // verus!
