use query_planner::binder::{
    AggKind, BinaryOperator, BindError, Binder, BoundAggCall, BoundBinaryOp, BoundColumnRef,
    BoundExpr, BoundInputRef, BoundTypeCast, Function, FunctionArg, FunctionArgExpr,
};
use query_planner::binder::agg_call::bind_aggregate;
use query_planner::catalog::ColumnRefId;
use query_planner::float64::float64_bits_from_i32;
use query_planner::types::{ConvertError, DataType, DataTypeKind, DataValue};

fn int_column(column: u32, name: &str) -> BoundExpr {
    BoundExpr::ColumnRef(BoundColumnRef {
        column_ref_id: ColumnRefId::new(0, 0, 0, column),
        is_primary_key: false,
        desc: DataTypeKind::Int(None).not_null().to_column(name.to_string()),
    })
}

fn call(name: &str, args: Vec<BoundExpr>) -> Function {
    Function {
        name: name.to_string(),
        args: args
            .into_iter()
            .map(|e| FunctionArg::Unnamed(FunctionArgExpr::Expr(e)))
            .collect(),
    }
}

fn int_type() -> DataType {
    DataTypeKind::Int(None).not_null()
}

#[test]
fn float_bits_of_small_integers() {
    assert_eq!(float64_bits_from_i32(0), 0);
    assert_eq!(float64_bits_from_i32(1), 0x3FF0_0000_0000_0000);
    assert_eq!(float64_bits_from_i32(3), 0x4008_0000_0000_0000);
    assert_eq!(float64_bits_from_i32(-1), 0xBFF0_0000_0000_0000);
}

#[test]
fn float_bits_agree_with_the_machine() {
    let samples = [
        0,
        1,
        -1,
        2,
        3,
        -3,
        7,
        8,
        100,
        -100,
        65535,
        65536,
        1 << 30,
        (1 << 30) + 1,
        i32::MAX,
        i32::MIN,
        i32::MIN + 1,
        123_456_789,
        -987_654_321,
    ];
    for x in samples {
        assert_eq!(float64_bits_from_i32(x), f64::from(x).to_bits());
        assert_eq!(f64::from_bits(float64_bits_from_i32(x)), f64::from(x));
    }
}

#[test]
fn avg_becomes_sum_over_cast_count() {
    let v1 = int_column(0, "v1");
    let bound = Binder.bind_function(&call("avg", vec![v1.clone()])).unwrap();
    assert_eq!(
        bound,
        BoundExpr::BinaryOp(BoundBinaryOp {
            op: BinaryOperator::Divide,
            left_expr: Box::new(BoundExpr::AggCall(BoundAggCall {
                kind: AggKind::Sum,
                args: vec![v1.clone()],
                return_type: int_type(),
            })),
            right_expr: Box::new(BoundExpr::TypeCast(BoundTypeCast {
                ty: DataTypeKind::Int(None),
                expr: Box::new(BoundExpr::AggCall(BoundAggCall {
                    kind: AggKind::Count,
                    args: vec![v1],
                    return_type: int_type(),
                })),
            })),
            return_type: Some(int_type()),
        })
    );
}

#[test]
fn avg_without_argument_is_refused() {
    let result = Binder.bind_function(&call("avg", vec![]));
    assert!(matches!(result, Err(BindError::InvalidExpression(_))));
}

#[test]
fn avg_of_untyped_argument_is_refused() {
    let result = Binder.bind_function(&call("avg", vec![BoundExpr::Constant(DataValue::Null)]));
    assert!(matches!(result, Err(BindError::InvalidExpression(_))));
}

#[test]
fn count_without_argument_counts_rows() {
    let bound = Binder.bind_function(&call("count", vec![])).unwrap();
    assert_eq!(
        bound,
        BoundExpr::AggCall(BoundAggCall {
            kind: AggKind::RowCount,
            args: vec![BoundExpr::InputRef(BoundInputRef { index: 0, return_type: int_type() })],
            return_type: int_type(),
        })
    );
}

#[test]
fn count_of_wildcard_counts_rows() {
    let func = Function {
        name: "count".to_string(),
        args: vec![FunctionArg::Unnamed(FunctionArgExpr::Wildcard)],
    };
    let bound = Binder.bind_function(&func).unwrap();
    assert!(matches!(
        bound,
        BoundExpr::AggCall(BoundAggCall { kind: AggKind::RowCount, .. })
    ));
}

#[test]
fn wildcard_drops_the_arguments_before_it() {
    let func = Function {
        name: "count".to_string(),
        args: vec![
            FunctionArg::Unnamed(FunctionArgExpr::Expr(int_column(0, "v1"))),
            FunctionArg::Named { name: "x".to_string(), arg: FunctionArgExpr::Wildcard },
            FunctionArg::Unnamed(FunctionArgExpr::Expr(int_column(1, "v2"))),
        ],
    };
    let bound = Binder.bind_function(&func).unwrap();
    assert!(matches!(
        bound,
        BoundExpr::AggCall(BoundAggCall { kind: AggKind::RowCount, .. })
    ));
}

#[test]
fn qualified_wildcard_is_refused() {
    let func = Function {
        name: "count".to_string(),
        args: vec![FunctionArg::Unnamed(FunctionArgExpr::QualifiedWildcard("t".to_string()))],
    };
    assert_eq!(
        Binder.bind_function(&func),
        Err(BindError::InvalidExpression(
            "Unsupported aggregate argument: qualified wildcard".to_string()
        ))
    );
}

#[test]
fn count_of_column_counts_values() {
    let v1 = int_column(0, "v1");
    let bound = Binder.bind_function(&call("count", vec![v1.clone()])).unwrap();
    assert_eq!(
        bound,
        BoundExpr::AggCall(BoundAggCall {
            kind: AggKind::Count,
            args: vec![v1],
            return_type: int_type(),
        })
    );
}

#[test]
fn dp_count_without_argument_is_refused() {
    assert_eq!(
        Binder.bind_function(&call("dp_count", vec![])),
        Err(BindError::InvalidExpression(
            "Unsupported dp_count(*), please use dp_count(1, epsilon)".to_string()
        ))
    );
}

#[test]
fn dp_count_takes_integer_epsilon() {
    let v1 = int_column(0, "v1");
    let bound = Binder
        .bind_function(&call(
            "dp_count",
            vec![v1.clone(), BoundExpr::Constant(DataValue::Int32(3))],
        ))
        .unwrap();
    assert_eq!(
        bound,
        BoundExpr::AggCall(BoundAggCall {
            kind: AggKind::DPCount(3.0f64.to_bits()),
            args: vec![v1],
            return_type: DataTypeKind::Float(None).not_null(),
        })
    );
}

#[test]
fn dp_count_takes_float_epsilon() {
    let v1 = int_column(0, "v1");
    let bound = Binder
        .bind_function(&call(
            "dp_count",
            vec![v1.clone(), BoundExpr::Constant(DataValue::Float64(0.5f64.to_bits()))],
        ))
        .unwrap();
    match bound {
        BoundExpr::AggCall(BoundAggCall { kind: AggKind::DPCount(bits), args, return_type }) => {
            assert_eq!(f64::from_bits(bits), 0.5);
            assert_eq!(args, vec![v1]);
            assert_eq!(return_type, DataType::new(DataTypeKind::Float(None), false));
        }
        other => panic!("unexpected {:?}", other),
    }
}

#[test]
fn dp_count_with_wrong_arity_is_refused() {
    let usage = Err(BindError::InvalidExpression(
        "dp_count usage: dp_count(col, epsilon)".to_string(),
    ));
    assert_eq!(Binder.bind_function(&call("dp_count", vec![int_column(0, "v1")])), usage);
    assert_eq!(
        Binder.bind_function(&call(
            "dp_count",
            vec![
                int_column(0, "v1"),
                BoundExpr::Constant(DataValue::Int32(1)),
                BoundExpr::Constant(DataValue::Int32(1)),
            ]
        )),
        usage
    );
}

#[test]
fn dp_count_with_other_epsilon_is_refused() {
    let usage = Err(BindError::InvalidExpression(
        "dp_count usage: dp_count(col, epsilon)".to_string(),
    ));
    assert_eq!(
        Binder.bind_function(&call(
            "dp_count",
            vec![int_column(0, "v1"), BoundExpr::Constant(DataValue::Bool(true))]
        )),
        usage
    );
    assert_eq!(
        Binder.bind_function(&call("dp_count", vec![int_column(0, "v1"), int_column(1, "v2")])),
        usage
    );
}

#[test]
fn dp_sum_takes_epsilon() {
    let v1 = int_column(0, "v1");
    let bound = Binder
        .bind_function(&call(
            "dp_sum",
            vec![v1.clone(), BoundExpr::Constant(DataValue::Int32(-2))],
        ))
        .unwrap();
    assert_eq!(
        bound,
        BoundExpr::AggCall(BoundAggCall {
            kind: AggKind::DPSum((-2.0f64).to_bits()),
            args: vec![v1],
            return_type: DataTypeKind::Float(None).not_null(),
        })
    );
}

#[test]
fn dp_sum_with_wrong_shape_is_refused() {
    let usage = Err(BindError::InvalidExpression("dp_sum usage: dp_sum(col, epsilon)".to_string()));
    assert_eq!(Binder.bind_function(&call("dp_sum", vec![])), usage);
    assert_eq!(Binder.bind_function(&call("dp_sum", vec![int_column(0, "v1")])), usage);
    assert_eq!(
        Binder.bind_function(&call(
            "dp_sum",
            vec![int_column(0, "v1"), BoundExpr::Constant(DataValue::String("x".to_string()))]
        )),
        usage
    );
}

#[test]
fn min_max_sum_pass_the_argument_type() {
    let big = BoundExpr::ColumnRef(BoundColumnRef {
        column_ref_id: ColumnRefId::new(0, 0, 0, 2),
        is_primary_key: false,
        desc: DataTypeKind::BigInt(None).nullable().to_column("v3".to_string()),
    });
    for (name, kind) in [("max", AggKind::Max), ("min", AggKind::Min), ("sum", AggKind::Sum)] {
        let bound = Binder.bind_function(&call(name, vec![big.clone()])).unwrap();
        assert_eq!(
            bound,
            BoundExpr::AggCall(BoundAggCall {
                kind,
                args: vec![big.clone()],
                return_type: DataTypeKind::BigInt(None).nullable(),
            })
        );
    }
}

#[test]
fn sum_without_argument_is_refused() {
    assert_eq!(
        Binder.bind_function(&call("sum", vec![])),
        Err(BindError::InvalidExpression(
            "aggregate usage: function(col), with a typed column".to_string()
        ))
    );
}

#[test]
fn names_are_read_in_lower_case() {
    let v1 = int_column(0, "v1");
    let bound = Binder.bind_function(&call("SUM", vec![v1.clone()])).unwrap();
    assert!(matches!(bound, BoundExpr::AggCall(BoundAggCall { kind: AggKind::Sum, .. })));
    let bound = Binder.bind_function(&call("Dp_Count", vec![v1, BoundExpr::Constant(DataValue::Int32(1))]));
    assert!(matches!(
        bound,
        Ok(BoundExpr::AggCall(BoundAggCall { kind: AggKind::DPCount(_), .. }))
    ));
}

#[test]
fn bind_aggregate_takes_the_name_as_given() {
    let v1 = int_column(0, "v1");
    assert_eq!(
        bind_aggregate(&"SUM".to_string(), vec![v1.clone()]),
        Err(BindError::UnsupportedFunction("SUM".to_string()))
    );
    assert!(bind_aggregate(&"sum".to_string(), vec![v1]).is_ok());
}

#[test]
fn other_functions_are_unsupported() {
    assert_eq!(
        Binder.bind_function(&call("Lower", vec![int_column(0, "v1")])),
        Err(BindError::UnsupportedFunction("lower".to_string()))
    );
}

#[test]
fn literal_as_count() {
    assert_eq!(DataValue::Null.as_usize(), Ok(None));
    assert_eq!(DataValue::Int32(7).as_usize(), Ok(Some(7)));
    assert_eq!(DataValue::Int64(1 << 20).as_usize(), Ok(Some(1 << 20)));
    assert_eq!(DataValue::Int32(0).as_usize(), Ok(Some(0)));
    assert_eq!(
        DataValue::Int32(-1).as_usize(),
        Err(ConvertError::Cast(DataValue::Int32(-1)))
    );
    assert_eq!(
        DataValue::Int64(-5).as_usize(),
        Err(ConvertError::Cast(DataValue::Int64(-5)))
    );
    assert_eq!(
        DataValue::Bool(true).as_usize(),
        Err(ConvertError::Cast(DataValue::Bool(true)))
    );
    assert_eq!(
        DataValue::String("3".to_string()).as_usize(),
        Err(ConvertError::Cast(DataValue::String("3".to_string())))
    );
}

#[test]
fn types_of_expressions() {
    assert_eq!(BoundExpr::Constant(DataValue::Null).return_type(), None);
    assert_eq!(
        BoundExpr::Constant(DataValue::Int64(1)).return_type(),
        Some(DataTypeKind::BigInt(None).not_null())
    );
    assert_eq!(int_column(0, "v1").return_type(), Some(int_type()));
    let cast = BoundExpr::TypeCast(BoundTypeCast {
        ty: DataTypeKind::Double,
        expr: Box::new(int_column(0, "v1")),
    });
    assert_eq!(cast.return_type(), Some(DataTypeKind::Double.nullable()));
}

#[test]
fn equality_of_expressions_is_structural() {
    let a = BoundExpr::BinaryOp(BoundBinaryOp {
        op: BinaryOperator::Plus,
        left_expr: Box::new(int_column(1, "v2")),
        right_expr: Box::new(BoundExpr::Constant(DataValue::Int32(1))),
        return_type: Some(int_type()),
    });
    let b = a.clone();
    assert!(a.equals(&b));
    let c = BoundExpr::BinaryOp(BoundBinaryOp {
        op: BinaryOperator::Plus,
        left_expr: Box::new(int_column(1, "v2")),
        right_expr: Box::new(BoundExpr::Constant(DataValue::Int32(2))),
        return_type: Some(int_type()),
    });
    assert!(!a.equals(&c));
    let d = BoundExpr::AggCall(BoundAggCall {
        kind: AggKind::Sum,
        args: vec![a.clone()],
        return_type: int_type(),
    });
    let e = BoundExpr::AggCall(BoundAggCall {
        kind: AggKind::Sum,
        args: vec![c],
        return_type: int_type(),
    });
    assert!(d.equals(&d.clone()));
    assert!(!d.equals(&e));
    assert!(!d.equals(&a));
}
