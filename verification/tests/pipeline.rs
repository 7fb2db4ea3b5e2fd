use xlsx_sheet::record::{FieldName, RecValue};
use xlsx_sheet::sheet::build;
use xlsx_sheet::plan::{plan, EmitOp};
use xlsx_sheet::emit::emit;
use xlsx_sheet::error::SheetError;
use xlsx_sheet::cond_format::CfRule;

fn s(v: &str) -> RecValue {
    RecValue::Str(v.to_string())
}

fn named(name: &str) -> Vec<(FieldName, RecValue)> {
    vec![(FieldName::Name, s(name))]
}

fn cell_at(row: i64, col: i64, value: RecValue) -> RecValue {
    RecValue::Rec(vec![
        (FieldName::Row, RecValue::Int(row)),
        (FieldName::Column, RecValue::Int(col)),
        (FieldName::Value, value),
    ])
}

#[test]
fn report_scenario_builds_and_emits() {
    let fields = vec![
        (FieldName::Name, s("Report")),
        (FieldName::Cells, RecValue::List(vec![cell_at(1, 1, s("Hello"))])),
        (
            FieldName::ConditionalFormats,
            RecValue::List(vec![RecValue::Rec(vec![
                (FieldName::FirstRow, RecValue::Int(0)),
                (FieldName::FirstColumn, RecValue::Int(0)),
                (FieldName::LastRow, RecValue::Int(9)),
                (FieldName::LastColumn, RecValue::Int(0)),
                (
                    FieldName::Rule,
                    RecValue::Rec(vec![
                        (FieldName::Kind, s("top")),
                        (FieldName::Value, RecValue::Int(10)),
                        (FieldName::Percent, RecValue::Bool(true)),
                    ]),
                ),
            ])]),
        ),
        (
            FieldName::ArrayFormulas,
            RecValue::List(vec![RecValue::Rec(vec![
                (FieldName::FirstRow, RecValue::Int(0)),
                (FieldName::FirstColumn, RecValue::Int(1)),
                (FieldName::LastRow, RecValue::Int(4)),
                (FieldName::LastColumn, RecValue::Int(1)),
                (FieldName::Formula, s("=SORT(A1:A5)")),
                (FieldName::Dynamic, RecValue::Bool(true)),
            ])]),
        ),
    ];
    let sheet = build(&fields).expect("build");
    assert_eq!(sheet.name, "Report");
    let ops = plan(&sheet).expect("plan");
    let expected = vec![
        EmitOp::SetName { name: "Report".to_string() },
        EmitOp::CondFormat {
            first_row: 0,
            first_col: 0,
            last_row: 9,
            last_col: 0,
            rule: CfRule::TopBottom { bottom: false, percent: true, value: 10 },
            format: None,
            stop_if_true: false,
        },
        EmitOp::DynamicFormula {
            first_row: 0,
            first_col: 1,
            last_row: 4,
            last_col: 1,
            formula: "=SORT(A1:A5)".to_string(),
        },
        EmitOp::CellText { row: 1, col: 1, text: "Hello".to_string() },
    ];
    assert_eq!(ops, expected);
    assert!(emit(sheet).is_ok());
}

#[test]
fn full_featured_sheet_emits() {
    let style = RecValue::Rec(vec![
        (FieldName::Bold, RecValue::Bool(true)),
        (FieldName::FontColor, RecValue::Int(0x336699)),
        (FieldName::NumFormat, s("0.00")),
    ]);
    let fields = vec![
        (FieldName::Name, s("Everything")),
        (
            FieldName::RowConfigs,
            RecValue::List(vec![RecValue::Rec(vec![
                (FieldName::Index, RecValue::Int(2)),
                (FieldName::Size, RecValue::Int(30)),
                (FieldName::Hidden, RecValue::Bool(true)),
                (FieldName::Style, style),
            ])]),
        ),
        (
            FieldName::ColumnConfigs,
            RecValue::List(vec![RecValue::Rec(vec![
                (FieldName::Index, RecValue::Int(3)),
                (FieldName::Size, RecValue::Int(15)),
            ])]),
        ),
        (
            FieldName::Cells,
            RecValue::List(vec![
                cell_at(0, 0, s("title")),
                cell_at(1, 0, RecValue::Int(42)),
                cell_at(2, 0, RecValue::Bool(false)),
                RecValue::Rec(vec![
                    (FieldName::Row, RecValue::Int(3)),
                    (FieldName::Column, RecValue::Int(0)),
                    (FieldName::Formula, s("=SUM(A1:A3)")),
                ]),
            ]),
        ),
        (
            FieldName::Tables,
            RecValue::List(vec![RecValue::Rec(vec![
                (FieldName::FirstRow, RecValue::Int(10)),
                (FieldName::FirstColumn, RecValue::Int(0)),
                (FieldName::LastRow, RecValue::Int(12)),
                (FieldName::LastColumn, RecValue::Int(2)),
            ])]),
        ),
    ];
    let sheet = build(&fields).expect("build");
    assert_eq!(sheet.cells.len(), 4);
    assert_eq!(sheet.tables.len(), 1);
    assert_eq!(sheet.styles.formats.len(), 1);
    assert!(emit(sheet).is_ok());
}

#[test]
fn equal_style_descriptions_resolve_to_equal_styles() {
    let styled_cell = |row: i64| {
        RecValue::Rec(vec![
            (FieldName::Row, RecValue::Int(row)),
            (FieldName::Column, RecValue::Int(0)),
            (FieldName::Value, RecValue::Int(row)),
            (
                FieldName::Style,
                RecValue::Rec(vec![
                    (FieldName::Bold, RecValue::Bool(true)),
                    (FieldName::BackgroundColor, RecValue::Int(0xFF0000)),
                ]),
            ),
        ])
    };
    let fields = vec![
        (FieldName::Name, s("Styles")),
        (FieldName::Cells, RecValue::List(vec![styled_cell(0), styled_cell(1)])),
    ];
    let sheet = build(&fields).expect("build");
    let k1 = sheet.cells[0].style.expect("key");
    let k2 = sheet.cells[1].style.expect("key");
    assert_ne!(k1, k2);
    let f1 = sheet.styles.resolve(k1).expect("resolve first");
    let f2 = sheet.styles.resolve(k2).expect("resolve second");
    assert_eq!(f1, f2);
    assert!(f1.bold);
    assert!(!f1.italic);
    assert_eq!(f1.background_color, Some(0xFF0000));
    assert_eq!(f1.font_color, None);
}

#[test]
fn dangling_style_reference_fails_emission() {
    let fields = named("Plain");
    let mut sheet = build(&fields).expect("build");
    sheet.cells.push(xlsx_sheet::cell::Cell {
        row: 0,
        col: 0,
        value: xlsx_sheet::cell::CellValue::Blank,
        style: Some(7),
    });
    assert_eq!(plan(&sheet), Err(SheetError::DanglingReference));
    assert!(matches!(emit(sheet), Err(SheetError::DanglingReference)));
}

#[test]
fn dangling_rule_reference_fails_emission() {
    let fields = named("Plain");
    let mut sheet = build(&fields).expect("build");
    sheet.conditional_formats.push(xlsx_sheet::cond_format::CfEntry {
        first_row: 0,
        first_col: 0,
        last_row: 0,
        last_col: 0,
        rule: 0,
        style: None,
        stop_if_true: false,
    });
    assert!(matches!(emit(sheet), Err(SheetError::DanglingReference)));
}

#[test]
fn array_formula_variants_route_to_distinct_writes() {
    let af = |dynamic: bool, styled: bool| {
        let mut f = vec![
            (FieldName::FirstRow, RecValue::Int(0)),
            (FieldName::FirstColumn, RecValue::Int(0)),
            (FieldName::LastRow, RecValue::Int(0)),
            (FieldName::LastColumn, RecValue::Int(2)),
            (FieldName::Formula, s("=A1*2")),
            (FieldName::Dynamic, RecValue::Bool(dynamic)),
        ];
        if styled {
            f.push((FieldName::Style, RecValue::Rec(vec![(FieldName::Italic, RecValue::Bool(true))])));
        }
        RecValue::Rec(f)
    };
    let fields = vec![
        (FieldName::Name, s("Variants")),
        (
            FieldName::ArrayFormulas,
            RecValue::List(vec![af(false, false), af(false, true), af(true, false), af(true, true)]),
        ),
    ];
    let sheet = build(&fields).expect("build");
    let ops = plan(&sheet).expect("plan");
    assert!(matches!(ops[1], EmitOp::StaticFormula { .. }));
    assert!(matches!(ops[2], EmitOp::StaticFormulaFmt { .. }));
    assert!(matches!(ops[3], EmitOp::DynamicFormula { .. }));
    assert!(matches!(ops[4], EmitOp::DynamicFormulaFmt { .. }));
    assert!(emit(sheet).is_ok());
}

#[test]
fn cells_are_written_after_array_formulas() {
    let fields = vec![
        (FieldName::Name, s("Overlap")),
        (FieldName::Cells, RecValue::List(vec![cell_at(0, 0, s("wins"))])),
        (
            FieldName::ArrayFormulas,
            RecValue::List(vec![RecValue::Rec(vec![
                (FieldName::FirstRow, RecValue::Int(0)),
                (FieldName::FirstColumn, RecValue::Int(0)),
                (FieldName::LastRow, RecValue::Int(0)),
                (FieldName::LastColumn, RecValue::Int(2)),
                (FieldName::Formula, s("=A10:C10")),
                (FieldName::Dynamic, RecValue::Bool(false)),
            ])]),
        ),
    ];
    let sheet = build(&fields).expect("build");
    let ops = plan(&sheet).expect("plan");
    let af_idx = ops.iter().position(|o| matches!(o, EmitOp::StaticFormula { .. })).expect("formula write");
    let cell_idx = ops.iter().position(|o| matches!(o, EmitOp::CellText { .. })).expect("cell write");
    assert!(af_idx < cell_idx);
}

#[test]
fn absent_and_empty_table_collections_agree() {
    let absent = named("NoTables");
    let empty = vec![
        (FieldName::Name, s("NoTables")),
        (FieldName::Tables, RecValue::List(vec![])),
    ];
    let s1 = build(&absent).expect("build absent");
    let s2 = build(&empty).expect("build empty");
    assert_eq!(s1.tables.len(), 0);
    assert_eq!(s2.tables.len(), 0);
    let ops1 = plan(&s1).expect("plan absent");
    let ops2 = plan(&s2).expect("plan empty");
    assert!(ops1.iter().all(|o| !matches!(o, EmitOp::TableAdd { .. })));
    assert_eq!(ops1, ops2);
    assert!(emit(s1).is_ok());
    assert!(emit(s2).is_ok());
}

#[test]
fn row_config_plans_size_format_hidden_in_order() {
    let fields = vec![
        (FieldName::Name, s("Rows")),
        (
            FieldName::RowConfigs,
            RecValue::List(vec![RecValue::Rec(vec![
                (FieldName::Index, RecValue::Int(5)),
                (FieldName::Size, RecValue::Int(44)),
                (FieldName::Hidden, RecValue::Bool(true)),
                (FieldName::Style, RecValue::Rec(vec![(FieldName::Bold, RecValue::Bool(true))])),
            ])]),
        ),
    ];
    let sheet = build(&fields).expect("build");
    let ops = plan(&sheet).expect("plan");
    assert!(matches!(ops[1], EmitOp::RowHeight { row: 5, height: 44 }));
    assert!(matches!(ops[2], EmitOp::RowFormat { row: 5, .. }));
    assert!(matches!(ops[3], EmitOp::RowHidden { row: 5 }));
}

#[test]
fn range_config_expands_to_every_index() {
    let fields = vec![
        (FieldName::Name, s("Span")),
        (
            FieldName::ColumnConfigs,
            RecValue::List(vec![RecValue::Rec(vec![
                (FieldName::Index, RecValue::Int(2)),
                (FieldName::LastIndex, RecValue::Int(4)),
                (FieldName::Hidden, RecValue::Bool(true)),
            ])]),
        ),
    ];
    let sheet = build(&fields).expect("build");
    let ops = plan(&sheet).expect("plan");
    assert_eq!(ops.len(), 4);
    assert!(matches!(ops[1], EmitOp::ColHidden { col: 2 }));
    assert!(matches!(ops[2], EmitOp::ColHidden { col: 3 }));
    assert!(matches!(ops[3], EmitOp::ColHidden { col: 4 }));
    assert!(emit(sheet).is_ok());
}

#[test]
fn cell_value_kinds_map_to_their_writes() {
    let fields = vec![
        (FieldName::Name, s("Kinds")),
        (
            FieldName::Cells,
            RecValue::List(vec![
                cell_at(0, 0, RecValue::Int(-3)),
                cell_at(1, 0, RecValue::Bool(true)),
                RecValue::Rec(vec![
                    (FieldName::Row, RecValue::Int(2)),
                    (FieldName::Column, RecValue::Int(0)),
                ]),
            ]),
        ),
    ];
    let sheet = build(&fields).expect("build");
    let ops = plan(&sheet).expect("plan");
    assert_eq!(ops.len(), 3);
    assert!(matches!(ops[1], EmitOp::CellNumber { row: 0, col: 0, number: -3 }));
    assert!(matches!(ops[2], EmitOp::CellBool { row: 1, col: 0, value: true }));
}

#[test]
fn every_rule_kind_builds_and_emits() {
    let kinds: Vec<(&str, Vec<(FieldName, RecValue)>)> = vec![
        ("cell_greater_than", vec![(FieldName::Value, RecValue::Int(5))]),
        ("cell_less_than", vec![(FieldName::Value, RecValue::Int(5))]),
        ("cell_equal_to", vec![(FieldName::Value, RecValue::Int(5))]),
        (
            "cell_between",
            vec![(FieldName::MinValue, RecValue::Int(1)), (FieldName::MaxValue, RecValue::Int(9))],
        ),
        ("formula", vec![(FieldName::Formula, s("=$A$1>0"))]),
        ("top", vec![(FieldName::Value, RecValue::Int(7))]),
        ("bottom", vec![(FieldName::Value, RecValue::Int(7))]),
        ("duplicate", vec![]),
        ("unique", vec![]),
        ("text_contains", vec![(FieldName::Text, s("needle"))]),
        ("date_yesterday", vec![]),
        ("date_today", vec![]),
        ("date_tomorrow", vec![]),
        ("blank", vec![]),
        ("not_blank", vec![]),
        ("error", vec![]),
        ("not_error", vec![]),
        ("color_scale", vec![]),
        ("data_bar", vec![]),
        ("icon_set", vec![]),
    ];
    let n = kinds.len();
    let entries: Vec<RecValue> = kinds
        .into_iter()
        .map(|(kind, mut extra)| {
            let mut rule = vec![(FieldName::Kind, s(kind))];
            rule.append(&mut extra);
            RecValue::Rec(vec![
                (FieldName::FirstRow, RecValue::Int(0)),
                (FieldName::FirstColumn, RecValue::Int(0)),
                (FieldName::LastRow, RecValue::Int(9)),
                (FieldName::LastColumn, RecValue::Int(3)),
                (FieldName::Rule, RecValue::Rec(rule)),
            ])
        })
        .collect();
    let fields = vec![
        (FieldName::Name, s("Rules")),
        (FieldName::ConditionalFormats, RecValue::List(entries)),
    ];
    let sheet = build(&fields).expect("build");
    assert_eq!(sheet.rules.rules.len(), n);
    assert!(emit(sheet).is_ok());
}

#[test]
fn overlapping_tables_are_refused_before_any_write() {
    let table = |r1: i64, r2: i64| {
        RecValue::Rec(vec![
            (FieldName::FirstRow, RecValue::Int(r1)),
            (FieldName::FirstColumn, RecValue::Int(0)),
            (FieldName::LastRow, RecValue::Int(r2)),
            (FieldName::LastColumn, RecValue::Int(3)),
        ])
    };
    let fields = vec![
        (FieldName::Name, s("Overlapping")),
        (FieldName::Tables, RecValue::List(vec![table(0, 5), table(4, 9)])),
    ];
    let sheet = build(&fields).expect("build accepts overlapping tables");
    assert_eq!(plan(&sheet), Err(SheetError::Emission));
    assert!(matches!(emit(sheet), Err(SheetError::Emission)));
}

#[test]
fn disjoint_tables_emit_successfully() {
    let table = |r1: i64, r2: i64| {
        RecValue::Rec(vec![
            (FieldName::FirstRow, RecValue::Int(r1)),
            (FieldName::FirstColumn, RecValue::Int(0)),
            (FieldName::LastRow, RecValue::Int(r2)),
            (FieldName::LastColumn, RecValue::Int(3)),
        ])
    };
    let fields = vec![
        (FieldName::Name, s("Disjoint")),
        (FieldName::Tables, RecValue::List(vec![table(0, 5), table(7, 9)])),
    ];
    let sheet = build(&fields).expect("build");
    let ops = plan(&sheet).expect("plan");
    assert_eq!(ops.iter().filter(|o| matches!(o, EmitOp::TableAdd { .. })).count(), 2);
    assert!(emit(sheet).is_ok());
}

#[test]
fn stop_if_true_is_carried_to_the_write() {
    let fields = vec![
        (FieldName::Name, s("Stops")),
        (
            FieldName::ConditionalFormats,
            RecValue::List(vec![RecValue::Rec(vec![
                (FieldName::FirstRow, RecValue::Int(0)),
                (FieldName::FirstColumn, RecValue::Int(0)),
                (FieldName::LastRow, RecValue::Int(4)),
                (FieldName::LastColumn, RecValue::Int(0)),
                (FieldName::StopIfTrue, RecValue::Bool(true)),
                (
                    FieldName::Rule,
                    RecValue::Rec(vec![(FieldName::Kind, s("duplicate"))]),
                ),
            ])]),
        ),
    ];
    let sheet = build(&fields).expect("build");
    assert!(sheet.conditional_formats[0].stop_if_true);
    let ops = plan(&sheet).expect("plan");
    assert!(matches!(ops[1], EmitOp::CondFormat { stop_if_true: true, .. }));
    assert!(emit(sheet).is_ok());
}

#[test]
fn interner_hands_out_dense_keys() {
    let mut table = xlsx_sheet::interner::StyleInterner::new();
    let f = xlsx_sheet::style::Style {
        bold: false,
        italic: true,
        font_color: None,
        background_color: None,
        num_format: None,
    };
    let k = table.register(f);
    assert_eq!(k, 0);
    assert!(table.resolve(0).is_some());
    assert!(table.resolve(0).unwrap().italic);
    assert!(table.resolve(1).is_none());
}
