use sql2pb::BinaryOperator;
use sql2pb::DataType;
use sql2pb::Expr;
use sql2pb::Ident;
use sql2pb::Statement;
use sql2pb::Value;
use sql2pb::WireBinaryOperator;
use sql2pb::WireDataType;
use sql2pb::WireExpr;
use sql2pb::WireIdent;
use sql2pb::WireStatement;
use sql2pb::WireValue;
use sql2pb::sql2pb;
use sql2pb::translate_statement;

fn num(text: &str) -> Expr {
    Expr::Value(Value::Number(text.to_string()))
}

fn wire_num(text: &str) -> WireExpr {
    WireExpr::Value { value: WireValue::Number(text.to_string()) }
}

// CREATE FUNCTION f() RETURNS INT64 AS (1+2), as the parser hands it over
fn create_f() -> Statement {
    Statement::CreateFunction {
        name: "f".to_string(),
        temporary: false,
        or_replace: false,
        if_not_exists: false,
        args: vec![],
        return_type: Some(DataType::Int),
        expr: Box::new(Expr::Nested(Box::new(Expr::BinaryOp {
            left: Box::new(num("1")),
            op: BinaryOperator::Plus,
            right: Box::new(num("2")),
        }))),
    }
}

fn wire_f() -> WireStatement {
    WireStatement::CreateFunction {
        name: "f".to_string(),
        temporary: false,
        or_replace: false,
        if_not_exists: false,
        return_type: Some(WireDataType::Int),
        expr: Box::new(WireExpr::Nested {
            expr: Box::new(WireExpr::BinaryOp {
                left: Box::new(wire_num("1")),
                op: WireBinaryOperator::Plus,
                right: Box::new(wire_num("2")),
            }),
        }),
        args: vec![],
    }
}

#[test]
fn create_function_with_arithmetic_body() {
    let w = translate_statement(&create_f()).unwrap();
    assert_eq!(w, wire_f());
}

#[test]
fn create_function_with_typed_argument() {
    // CREATE FUNCTION g(x INT64) RETURNS INT64 AS (x)
    let s = Statement::CreateFunction {
        name: "g".to_string(),
        temporary: false,
        or_replace: false,
        if_not_exists: false,
        args: vec![Expr::Parameter {
            name: Some(Ident { value: "x".to_string(), quote_style: None }),
            data_type: "INT64".to_string(),
        }],
        return_type: Some(DataType::Int),
        expr: Box::new(Expr::Nested(Box::new(Expr::Identifier(Ident {
            value: "x".to_string(),
            quote_style: None,
        })))),
    };
    let w = translate_statement(&s).unwrap();
    assert_eq!(
        w,
        WireStatement::CreateFunction {
            name: "g".to_string(),
            temporary: false,
            or_replace: false,
            if_not_exists: false,
            return_type: Some(WireDataType::Int),
            expr: Box::new(WireExpr::Nested {
                expr: Box::new(WireExpr::Identifier {
                    ident: WireIdent { value: "x".to_string(), quote_style: "".to_string() },
                }),
            }),
            args: vec![WireExpr::Parameter {
                name: Some(WireIdent { value: "x".to_string(), quote_style: "".to_string() }),
                data_type: "INT64".to_string(),
                default: None,
            }],
        }
    );
}

#[test]
fn flags_are_copied_verbatim() {
    let s = Statement::CreateFunction {
        name: "f".to_string(),
        temporary: true,
        or_replace: true,
        if_not_exists: true,
        args: vec![],
        return_type: None,
        expr: Box::new(num("1")),
    };
    match translate_statement(&s).unwrap() {
        WireStatement::CreateFunction { temporary, or_replace, if_not_exists, return_type, .. } => {
            assert!(temporary);
            assert!(or_replace);
            assert!(if_not_exists);
            assert_eq!(return_type, None);
        },
    }
}

#[test]
fn a_script_translates_every_statement_in_order() {
    // a consumer that wants only the first statement's bytes picks index 0;
    // the translation itself keeps them all, in input order
    let script = vec![create_f(), create_f()];
    let ws = sql2pb(&script).unwrap();
    assert_eq!(ws.len(), 2);
    assert_eq!(ws[0], wire_f());
    assert_eq!(ws[1], wire_f());
}

#[test]
fn unimplemented_statement_is_rejected() {
    // e.g. SELECT 1, or anything that is not a function definition
    let err = translate_statement(&Statement::Unsupported).unwrap_err();
    assert_eq!(err.message(), "unimplemented");
}

#[test]
fn a_failing_statement_rejects_the_whole_script() {
    let script = vec![create_f(), Statement::Unsupported];
    let err = sql2pb(&script).unwrap_err();
    assert_eq!(err.message(), "unimplemented");
}

#[test]
fn a_failing_argument_rejects_the_whole_statement() {
    let s = Statement::CreateFunction {
        name: "f".to_string(),
        temporary: false,
        or_replace: false,
        if_not_exists: false,
        args: vec![Expr::Unsupported("Wildcard".to_string())],
        return_type: None,
        expr: Box::new(num("1")),
    };
    let err = translate_statement(&s).unwrap_err();
    assert_eq!(err.message(), "Dont supported expr Wildcard");
}

#[test]
fn empty_script_translates_to_empty_output() {
    let ws = sql2pb(&vec![]).unwrap();
    assert!(ws.is_empty());
}
