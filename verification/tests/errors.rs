use xlsx_sheet::record::{FieldName, RecValue};
use xlsx_sheet::sheet::build;
use xlsx_sheet::emit::emit;
use xlsx_sheet::error::{SheetError, ValueKind};

fn text(v: &str) -> RecValue {
    RecValue::Str(v.to_string())
}

fn one_cell_sheet(cell: Vec<(FieldName, RecValue)>) -> Vec<(FieldName, RecValue)> {
    vec![
        (FieldName::Name, text("Sheet1")),
        (FieldName::Cells, RecValue::List(vec![RecValue::Rec(cell)])),
    ]
}

fn one_rule_sheet(rule: Vec<(FieldName, RecValue)>) -> Vec<(FieldName, RecValue)> {
    vec![
        (FieldName::Name, text("Sheet1")),
        (
            FieldName::ConditionalFormats,
            RecValue::List(vec![RecValue::Rec(vec![
                (FieldName::FirstRow, RecValue::Int(0)),
                (FieldName::FirstColumn, RecValue::Int(0)),
                (FieldName::LastRow, RecValue::Int(1)),
                (FieldName::LastColumn, RecValue::Int(1)),
                (FieldName::Rule, RecValue::Rec(rule)),
            ])]),
        ),
    ]
}

#[test]
fn missing_name_is_reported() {
    let fields: Vec<(FieldName, RecValue)> = vec![];
    assert_eq!(build(&fields).unwrap_err(), SheetError::MissingField(FieldName::Name));
}

#[test]
fn name_of_wrong_shape_is_reported() {
    let fields = vec![(FieldName::Name, RecValue::Int(3))];
    assert_eq!(
        build(&fields).unwrap_err(),
        SheetError::TypeMismatch(FieldName::Name, ValueKind::Str)
    );
}

#[test]
fn collection_of_wrong_shape_is_reported() {
    let fields = vec![
        (FieldName::Name, text("Sheet1")),
        (FieldName::Cells, RecValue::Bool(true)),
    ];
    assert_eq!(
        build(&fields).unwrap_err(),
        SheetError::TypeMismatch(FieldName::Cells, ValueKind::List)
    );
}

#[test]
fn cell_missing_row_is_reported() {
    let fields = one_cell_sheet(vec![
        (FieldName::Column, RecValue::Int(0)),
        (FieldName::Value, text("x")),
    ]);
    assert_eq!(build(&fields).unwrap_err(), SheetError::MissingField(FieldName::Row));
}

#[test]
fn cell_row_of_wrong_shape_is_reported() {
    let fields = one_cell_sheet(vec![
        (FieldName::Row, text("zero")),
        (FieldName::Column, RecValue::Int(0)),
    ]);
    assert_eq!(
        build(&fields).unwrap_err(),
        SheetError::TypeMismatch(FieldName::Row, ValueKind::Int)
    );
}

#[test]
fn out_of_bounds_row_is_a_range_error() {
    let fields = one_cell_sheet(vec![
        (FieldName::Row, RecValue::Int(1048576)),
        (FieldName::Column, RecValue::Int(0)),
        (FieldName::Value, RecValue::Int(1)),
    ]);
    assert_eq!(build(&fields).unwrap_err(), SheetError::Range);
}

#[test]
fn out_of_bounds_column_is_a_range_error() {
    let fields = one_cell_sheet(vec![
        (FieldName::Row, RecValue::Int(0)),
        (FieldName::Column, RecValue::Int(16384)),
        (FieldName::Value, RecValue::Int(1)),
    ]);
    assert_eq!(build(&fields).unwrap_err(), SheetError::Range);
}

#[test]
fn number_outside_sink_integer_range_is_rejected() {
    let fields = one_cell_sheet(vec![
        (FieldName::Row, RecValue::Int(0)),
        (FieldName::Column, RecValue::Int(0)),
        (FieldName::Value, RecValue::Int(2147483648)),
    ]);
    assert_eq!(build(&fields).unwrap_err(), SheetError::Range);
}

#[test]
fn oversized_cell_text_is_rejected() {
    let long = "x".repeat(32768);
    let fields = one_cell_sheet(vec![
        (FieldName::Row, RecValue::Int(0)),
        (FieldName::Column, RecValue::Int(0)),
        (FieldName::Value, text(&long)),
    ]);
    assert_eq!(build(&fields).unwrap_err(), SheetError::Range);
}

#[test]
fn invalid_color_code_is_a_style_error() {
    let fields = one_cell_sheet(vec![
        (FieldName::Row, RecValue::Int(0)),
        (FieldName::Column, RecValue::Int(0)),
        (FieldName::Value, RecValue::Int(1)),
        (FieldName::Style, RecValue::Rec(vec![(FieldName::FontColor, RecValue::Int(0x1000000))])),
    ]);
    assert_eq!(build(&fields).unwrap_err(), SheetError::Style);
}

#[test]
fn color_of_wrong_shape_is_reported() {
    let fields = one_cell_sheet(vec![
        (FieldName::Row, RecValue::Int(0)),
        (FieldName::Column, RecValue::Int(0)),
        (FieldName::Style, RecValue::Rec(vec![(FieldName::FontColor, text("#ffffff"))])),
    ]);
    assert_eq!(
        build(&fields).unwrap_err(),
        SheetError::TypeMismatch(FieldName::FontColor, ValueKind::Int)
    );
}

#[test]
fn failed_build_registers_nothing() {
    let fields = one_cell_sheet(vec![
        (FieldName::Row, RecValue::Int(2000000)),
        (FieldName::Column, RecValue::Int(0)),
        (FieldName::Style, RecValue::Rec(vec![(FieldName::Bold, RecValue::Bool(true))])),
    ]);
    assert!(build(&fields).is_err());
}

#[test]
fn between_rule_missing_a_bound_is_rejected() {
    let fields = one_rule_sheet(vec![
        (FieldName::Kind, text("cell_between")),
        (FieldName::MinValue, RecValue::Int(1)),
    ]);
    assert_eq!(build(&fields).unwrap_err(), SheetError::ConditionalFormat);
}

#[test]
fn unknown_rule_kind_is_rejected() {
    let fields = one_rule_sheet(vec![(FieldName::Kind, text("sparkline"))]);
    assert_eq!(build(&fields).unwrap_err(), SheetError::ConditionalFormat);
}

#[test]
fn empty_rule_formula_is_rejected() {
    let fields = one_rule_sheet(vec![
        (FieldName::Kind, text("formula")),
        (FieldName::Formula, text("")),
    ]);
    assert_eq!(build(&fields).unwrap_err(), SheetError::ConditionalFormat);
}

#[test]
fn top_value_out_of_range_is_rejected() {
    let fields = one_rule_sheet(vec![
        (FieldName::Kind, text("top")),
        (FieldName::Value, RecValue::Int(1001)),
    ]);
    assert_eq!(build(&fields).unwrap_err(), SheetError::ConditionalFormat);
    let fields = one_rule_sheet(vec![
        (FieldName::Kind, text("top")),
        (FieldName::Value, RecValue::Int(101)),
        (FieldName::Percent, RecValue::Bool(true)),
    ]);
    assert_eq!(build(&fields).unwrap_err(), SheetError::ConditionalFormat);
}

#[test]
fn ill_ordered_config_span_is_rejected() {
    let fields = vec![
        (FieldName::Name, text("Sheet1")),
        (
            FieldName::RowConfigs,
            RecValue::List(vec![RecValue::Rec(vec![
                (FieldName::Index, RecValue::Int(7)),
                (FieldName::LastIndex, RecValue::Int(3)),
            ])]),
        ),
    ];
    assert_eq!(build(&fields).unwrap_err(), SheetError::Range);
}

#[test]
fn formula_rule_that_strips_to_empty_is_rejected() {
    let fields = one_rule_sheet(vec![
        (FieldName::Kind, text("formula")),
        (FieldName::Formula, text("=")),
    ]);
    assert_eq!(build(&fields).unwrap_err(), SheetError::ConditionalFormat);
    let fields = one_rule_sheet(vec![
        (FieldName::Kind, text("formula")),
        (FieldName::Formula, text("{=}")),
    ]);
    assert_eq!(build(&fields).unwrap_err(), SheetError::ConditionalFormat);
}

#[test]
fn ill_ordered_array_formula_range_is_rejected() {
    let fields = vec![
        (FieldName::Name, text("Sheet1")),
        (
            FieldName::ArrayFormulas,
            RecValue::List(vec![RecValue::Rec(vec![
                (FieldName::FirstRow, RecValue::Int(3)),
                (FieldName::FirstColumn, RecValue::Int(0)),
                (FieldName::LastRow, RecValue::Int(1)),
                (FieldName::LastColumn, RecValue::Int(0)),
                (FieldName::Formula, text("=A1")),
                (FieldName::Dynamic, RecValue::Bool(false)),
            ])]),
        ),
    ];
    assert_eq!(build(&fields).unwrap_err(), SheetError::Range);
}

#[test]
fn ill_ordered_table_columns_are_rejected() {
    let fields = vec![
        (FieldName::Name, text("Sheet1")),
        (
            FieldName::Tables,
            RecValue::List(vec![RecValue::Rec(vec![
                (FieldName::FirstRow, RecValue::Int(0)),
                (FieldName::FirstColumn, RecValue::Int(5)),
                (FieldName::LastRow, RecValue::Int(3)),
                (FieldName::LastColumn, RecValue::Int(2)),
            ])]),
        ),
    ];
    assert_eq!(build(&fields).unwrap_err(), SheetError::Range);
}

#[test]
fn single_row_table_with_header_is_rejected() {
    let fields = vec![
        (FieldName::Name, text("Sheet1")),
        (
            FieldName::Tables,
            RecValue::List(vec![RecValue::Rec(vec![
                (FieldName::FirstRow, RecValue::Int(4)),
                (FieldName::FirstColumn, RecValue::Int(0)),
                (FieldName::LastRow, RecValue::Int(4)),
                (FieldName::LastColumn, RecValue::Int(2)),
            ])]),
        ),
    ];
    assert_eq!(build(&fields).unwrap_err(), SheetError::Range);
}

#[test]
fn missing_formula_field_is_reported() {
    let fields = vec![
        (FieldName::Name, text("Sheet1")),
        (
            FieldName::ArrayFormulas,
            RecValue::List(vec![RecValue::Rec(vec![
                (FieldName::FirstRow, RecValue::Int(0)),
                (FieldName::FirstColumn, RecValue::Int(0)),
                (FieldName::LastRow, RecValue::Int(0)),
                (FieldName::LastColumn, RecValue::Int(0)),
                (FieldName::Dynamic, RecValue::Bool(false)),
            ])]),
        ),
    ];
    assert_eq!(build(&fields).unwrap_err(), SheetError::MissingField(FieldName::Formula));
}

#[test]
fn sink_rejects_an_invalid_sheet_name() {
    let fields = vec![(FieldName::Name, text("bad:name"))];
    let sheet = build(&fields).expect("build accepts any name");
    assert!(matches!(emit(sheet), Err(SheetError::Emission)));
}

#[test]
fn sink_rejects_an_overlong_sheet_name() {
    let fields = vec![(FieldName::Name, text("abcdefghijklmnopqrstuvwxyz_abcdef"))];
    let sheet = build(&fields).expect("build accepts any name");
    assert!(matches!(emit(sheet), Err(SheetError::Emission)));
}
