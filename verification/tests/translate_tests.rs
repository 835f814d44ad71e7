use sql2pb::BinaryOperator;
use sql2pb::DataType;
use sql2pb::Expr;
use sql2pb::FunctionCall;
use sql2pb::Ident;
use sql2pb::UnaryOperator;
use sql2pb::Value;
use sql2pb::WireBinaryOperator;
use sql2pb::WireDataType;
use sql2pb::WireExpr;
use sql2pb::WireIdent;
use sql2pb::WireUnaryOperator;
use sql2pb::WireValue;
use sql2pb::translate_data_type;
use sql2pb::translate_expr;
use sql2pb::translate_ident;
use sql2pb::translate_value;

fn num(text: &str) -> Expr {
    Expr::Value(Value::Number(text.to_string()))
}

fn wire_num(text: &str) -> WireExpr {
    WireExpr::Value { value: WireValue::Number(text.to_string()) }
}

#[test]
fn ident_without_quote_gets_empty_sentinel() {
    let w = translate_ident(&Ident { value: "col".to_string(), quote_style: None });
    assert_eq!(w, WireIdent { value: "col".to_string(), quote_style: "".to_string() });
}

#[test]
fn ident_with_quote_gets_one_char_string() {
    let w = translate_ident(&Ident { value: "col".to_string(), quote_style: Some('`') });
    assert_eq!(w, WireIdent { value: "col".to_string(), quote_style: "`".to_string() });
}

#[test]
fn number_keeps_exact_text() {
    let w = translate_value(&Value::Number("12.3450".to_string())).unwrap();
    assert_eq!(w, WireValue::Number("12.3450".to_string()));
}

#[test]
fn quoted_string_keeps_exact_text() {
    let w = translate_value(&Value::SingleQuotedString("a b".to_string())).unwrap();
    assert_eq!(w, WireValue::SingleQuotedString("a b".to_string()));
}

#[test]
fn null_translates_to_true_marker() {
    let w = translate_value(&Value::Null).unwrap();
    assert_eq!(w, WireValue::Null(true));
}

#[test]
fn unsupported_value_is_rejected_with_rendering() {
    let e = translate_value(&Value::Unsupported("TRUE".to_string())).unwrap_err();
    assert_eq!(e.message(), "not supported value TRUE");
}

#[test]
fn char_without_length_defaults_to_zero() {
    let w = translate_data_type(&DataType::Char(None)).unwrap();
    assert_eq!(w, WireDataType::Char { length: 0 });
}

#[test]
fn varchar_without_length_defaults_to_zero() {
    let w = translate_data_type(&DataType::Varchar(None)).unwrap();
    assert_eq!(w, WireDataType::Varchar { length: 0 });
}

#[test]
fn float_without_length_defaults_to_eight() {
    let w = translate_data_type(&DataType::Float(None)).unwrap();
    assert_eq!(w, WireDataType::Float { length: 8 });
}

#[test]
fn decimal_without_parameters_defaults_to_zero_zero() {
    let w = translate_data_type(&DataType::Decimal(None, None)).unwrap();
    assert_eq!(w, WireDataType::Decimal { precision: 0, scale: 0 });
}

#[test]
fn binary_without_length_stays_absent() {
    let w = translate_data_type(&DataType::Binary(None)).unwrap();
    assert_eq!(w, WireDataType::Binary { length: None });
}

#[test]
fn blob_and_clob_and_varbinary_keep_optionality() {
    assert_eq!(
        translate_data_type(&DataType::Blob(None)).unwrap(),
        WireDataType::Blob { length: None }
    );
    assert_eq!(
        translate_data_type(&DataType::Clob(Some(9))).unwrap(),
        WireDataType::Clob { length: Some(9) }
    );
    assert_eq!(
        translate_data_type(&DataType::Varbinary(None)).unwrap(),
        WireDataType::Varbinary { length: None }
    );
}

#[test]
fn char_with_length_keeps_it() {
    let w = translate_data_type(&DataType::Char(Some(5))).unwrap();
    assert_eq!(w, WireDataType::Char { length: 5 });
}

#[test]
fn array_nests_its_element_type() {
    let w = translate_data_type(&DataType::Array(Box::new(DataType::Int))).unwrap();
    assert_eq!(w, WireDataType::Array { data_type: Box::new(WireDataType::Int) });
}

#[test]
fn custom_type_translates_each_name_part() {
    let w = translate_data_type(&DataType::Custom(vec![
        Ident { value: "geo".to_string(), quote_style: None },
        Ident { value: "point".to_string(), quote_style: Some('"') },
    ]))
    .unwrap();
    assert_eq!(
        w,
        WireDataType::Custom {
            name: vec![
                WireIdent { value: "geo".to_string(), quote_style: "".to_string() },
                WireIdent { value: "point".to_string(), quote_style: "\"".to_string() },
            ],
        }
    );
}

#[test]
fn binary_op_keeps_left_then_right_order() {
    let e = Expr::BinaryOp {
        left: Box::new(num("1")),
        op: BinaryOperator::Plus,
        right: Box::new(num("2")),
    };
    let w = translate_expr(&e).unwrap();
    assert_eq!(
        w,
        WireExpr::BinaryOp {
            left: Box::new(wire_num("1")),
            op: WireBinaryOperator::Plus,
            right: Box::new(wire_num("2")),
        }
    );
}

#[test]
fn every_unary_operator_maps_to_a_distinct_wire_value() {
    let ops = [UnaryOperator::Plus, UnaryOperator::Minus, UnaryOperator::Not];
    let expected = [WireUnaryOperator::Plus, WireUnaryOperator::Minus, WireUnaryOperator::Not];
    let mut got: Vec<WireUnaryOperator> = Vec::new();
    for op in ops {
        let w = translate_expr(&Expr::UnaryOp { op, expr: Box::new(num("1")) }).unwrap();
        match w {
            WireExpr::UnaryOp { op: wop, .. } => got.push(wop),
            other => panic!("expected a unary node, got {:?}", other),
        }
    }
    assert_eq!(got, expected);
    for i in 0..got.len() {
        for j in 0..got.len() {
            if i != j {
                assert_ne!(got[i], got[j]);
            }
        }
    }
}

#[test]
fn every_binary_operator_maps_to_a_distinct_wire_value() {
    let ops = [
        BinaryOperator::Plus,
        BinaryOperator::Minus,
        BinaryOperator::Multiply,
        BinaryOperator::Divide,
        BinaryOperator::Modulus,
        BinaryOperator::Gt,
        BinaryOperator::Lt,
        BinaryOperator::GtEq,
        BinaryOperator::LtEq,
        BinaryOperator::Eq,
        BinaryOperator::NotEq,
        BinaryOperator::And,
        BinaryOperator::Or,
        BinaryOperator::Like,
        BinaryOperator::NotLike,
    ];
    let expected = [
        WireBinaryOperator::Plus,
        WireBinaryOperator::Minus,
        WireBinaryOperator::Multiply,
        WireBinaryOperator::Divide,
        WireBinaryOperator::Modulus,
        WireBinaryOperator::Gt,
        WireBinaryOperator::Lt,
        WireBinaryOperator::GtEq,
        WireBinaryOperator::LtEq,
        WireBinaryOperator::Eq,
        WireBinaryOperator::NotEq,
        WireBinaryOperator::And,
        WireBinaryOperator::Or,
        WireBinaryOperator::Like,
        WireBinaryOperator::NotLike,
    ];
    let mut got: Vec<WireBinaryOperator> = Vec::new();
    for op in ops {
        let e = Expr::BinaryOp { left: Box::new(num("1")), op, right: Box::new(num("2")) };
        match translate_expr(&e).unwrap() {
            WireExpr::BinaryOp { op: wop, .. } => got.push(wop),
            other => panic!("expected a binary node, got {:?}", other),
        }
    }
    assert_eq!(got.as_slice(), expected.as_slice());
    for i in 0..got.len() {
        for j in 0..got.len() {
            if i != j {
                assert_ne!(got[i], got[j]);
            }
        }
    }
}

#[test]
fn function_call_keeps_argument_order_and_flags() {
    let e = Expr::Function(FunctionCall {
        name: "greatest".to_string(),
        args: vec![num("3"), num("1"), num("2")],
        distinct: true,
    });
    let w = translate_expr(&e).unwrap();
    assert_eq!(
        w,
        WireExpr::Function {
            name: "greatest".to_string(),
            args: vec![wire_num("3"), wire_num("1"), wire_num("2")],
            distinct: true,
        }
    );
}

#[test]
fn case_keeps_conditions_and_results_in_order() {
    let e = Expr::Case {
        operand: Some(Box::new(num("0"))),
        conditions: vec![num("1"), num("2")],
        results: vec![num("10"), num("20")],
        else_result: None,
    };
    let w = translate_expr(&e).unwrap();
    assert_eq!(
        w,
        WireExpr::Case {
            operand: Some(Box::new(wire_num("0"))),
            conditions: vec![wire_num("1"), wire_num("2")],
            results: vec![wire_num("10"), wire_num("20")],
            else_result: None,
        }
    );
}

#[test]
fn nested_wrapper_and_depth_are_preserved() {
    // (1 + 2): the parenthesization stays a distinct wrapper node
    let e = Expr::Nested(Box::new(Expr::BinaryOp {
        left: Box::new(num("1")),
        op: BinaryOperator::Plus,
        right: Box::new(num("2")),
    }));
    let w = translate_expr(&e).unwrap();
    assert_eq!(
        w,
        WireExpr::Nested {
            expr: Box::new(WireExpr::BinaryOp {
                left: Box::new(wire_num("1")),
                op: WireBinaryOperator::Plus,
                right: Box::new(wire_num("2")),
            }),
        }
    );
}

#[test]
fn between_keeps_expr_low_high_order() {
    let e = Expr::Between {
        expr: Box::new(num("5")),
        negated: true,
        low: Box::new(num("1")),
        high: Box::new(num("9")),
    };
    let w = translate_expr(&e).unwrap();
    assert_eq!(
        w,
        WireExpr::Between {
            expr: Box::new(wire_num("5")),
            negated: true,
            low: Box::new(wire_num("1")),
            high: Box::new(wire_num("9")),
        }
    );
}

#[test]
fn cast_and_parameter_carry_type_text() {
    let c = Expr::Cast { expr: Box::new(num("1")), data_type: "INT64".to_string() };
    assert_eq!(
        translate_expr(&c).unwrap(),
        WireExpr::Cast { expr: Box::new(wire_num("1")), data_type: "INT64".to_string() }
    );
    let p = Expr::Parameter {
        name: Some(Ident { value: "x".to_string(), quote_style: None }),
        data_type: "INT64".to_string(),
    };
    assert_eq!(
        translate_expr(&p).unwrap(),
        WireExpr::Parameter {
            name: Some(WireIdent { value: "x".to_string(), quote_style: "".to_string() }),
            data_type: "INT64".to_string(),
            default: None,
        }
    );
}

#[test]
fn unsupported_expr_is_rejected_with_rendering() {
    let e = translate_expr(&Expr::Unsupported("Subquery".to_string())).unwrap_err();
    assert_eq!(e.message(), "Dont supported expr Subquery");
}

#[test]
fn failure_inside_a_subtree_rejects_the_whole_expression() {
    let e = Expr::BinaryOp {
        left: Box::new(num("1")),
        op: BinaryOperator::Plus,
        right: Box::new(Expr::Unsupported("Subquery".to_string())),
    };
    let err = translate_expr(&e).unwrap_err();
    assert_eq!(err.message(), "Dont supported expr Subquery");
}
