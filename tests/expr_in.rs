use status_chain::{DataChunk, DataType, Datum, ExprError, InExpression, InputRefExpression, ScalarImpl};

fn utf8(s: &str) -> Datum {
    Some(ScalarImpl::Utf8(s.to_string()))
}

fn abc_def() -> InExpression {
    let input_ref = InputRefExpression::new(DataType::Char, 0);
    let data = vec![utf8("abc"), utf8("def")];
    InExpression::new(input_ref, data, DataType::Boolean)
}

#[test]
fn test_search_expr() {
    let input_ref = InputRefExpression::new(DataType::Char, 0);
    let data = vec![
        Some(ScalarImpl::Utf8("abc".to_string())),
        Some(ScalarImpl::Utf8("def".to_string())),
    ];
    let search_expr = InExpression::new(input_ref, data, DataType::Boolean);
    let column = vec![utf8("abc"), utf8("a"), utf8("def"), utf8("abc")];
    let data_chunk = DataChunk::builder().columns(vec![column]).build();
    let res = search_expr.eval(&data_chunk).unwrap();
    assert_eq!(res.datum_at(0), Some(ScalarImpl::Bool(true)));
    assert_eq!(res.datum_at(1), Some(ScalarImpl::Bool(false)));
    assert_eq!(res.datum_at(2), Some(ScalarImpl::Bool(true)));
    assert_eq!(res.datum_at(3), Some(ScalarImpl::Bool(true)));
}

#[test]
fn search_skips_invisible_rows() {
    let column = vec![utf8("abc"), utf8("a"), utf8("def"), utf8("x")];
    let chunk = DataChunk::builder()
        .columns(vec![column])
        .visibility(vec![false, true, true, true])
        .build();
    let res = abc_def().eval(&chunk).unwrap();
    assert_eq!(res.len(), 3);
    assert_eq!(res.datum_at(0), Some(ScalarImpl::Bool(false)));
    assert_eq!(res.datum_at(1), Some(ScalarImpl::Bool(true)));
    assert_eq!(res.datum_at(2), Some(ScalarImpl::Bool(false)));
}

#[test]
fn search_matches_null_only_when_listed() {
    let chunk = DataChunk::builder().columns(vec![vec![None, utf8("abc")]]).build();
    let res = abc_def().eval(&chunk).unwrap();
    assert_eq!(res.datum_at(0), Some(ScalarImpl::Bool(false)));
    let with_null = InExpression::new(
        InputRefExpression::new(DataType::Char, 0),
        vec![None, utf8("abc"), utf8("abc")],
        DataType::Boolean,
    );
    let res = with_null.eval(&chunk).unwrap();
    assert_eq!(res.datum_at(0), Some(ScalarImpl::Bool(true)));
    assert_eq!(res.datum_at(1), Some(ScalarImpl::Bool(true)));
}

#[test]
fn search_distinguishes_types() {
    let bools = InExpression::new(
        InputRefExpression::new(DataType::Boolean, 1),
        vec![Some(ScalarImpl::Bool(true))],
        DataType::Boolean,
    );
    let chunk = DataChunk::builder()
        .columns(vec![
            vec![utf8("true")],
            vec![Some(ScalarImpl::Bool(false)), Some(ScalarImpl::Bool(true))],
        ])
        .build();
    let res = bools.eval(&chunk).unwrap();
    assert_eq!(res.len(), 2);
    assert_eq!(res.datum_at(0), Some(ScalarImpl::Bool(false)));
    assert_eq!(res.datum_at(1), Some(ScalarImpl::Bool(true)));
    assert_eq!(bools.return_type(), DataType::Boolean);
}

#[test]
fn search_of_empty_column_is_empty() {
    let chunk = DataChunk::builder().columns(vec![Vec::new()]).build();
    assert_eq!(abc_def().eval(&chunk).unwrap().len(), 0);
    assert!(abc_def().contains(&utf8("def")));
    assert!(!abc_def().contains(&utf8("de")));
}

#[test]
fn search_reports_missing_column() {
    let chunk = DataChunk::builder().build();
    assert_eq!(chunk.num_columns(), 0);
    assert!(matches!(abc_def().eval(&chunk), Err(ExprError::ColumnOutOfRange)));
}

#[test]
fn search_reports_mask_of_other_length() {
    let chunk = DataChunk::builder()
        .columns(vec![vec![utf8("abc")]])
        .visibility(vec![true, false])
        .build();
    assert!(matches!(abc_def().eval(&chunk), Err(ExprError::VisibilityMismatch)));
}
