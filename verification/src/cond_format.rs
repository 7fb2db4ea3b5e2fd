//! Conditional-format rules: the closed catalogue of rule variants, their
//! validation, and the ranged entries that reference a registered rule.

use vstd::prelude::*;
use vstd::string::StrSliceExecFns;
use crate::record::{FieldName, RecValue, spec_get_field, get_field};
use crate::error::{SheetError, ValueKind};
use crate::style::Style;
use crate::interner::{StyleInterner, CfInterner, StyleRef};
use crate::bounds::{spec_parse_row, spec_parse_col, parse_row, parse_col, spec_parse_style, parse_style};

verus! {

/// How a cell-value rule compares a cell against its target value.
#[derive(Clone, Copy, PartialEq, Eq, Structural, Debug)]
pub enum CfCellOp {
    GreaterThan,
    LessThan,
    EqualTo,
}

/// Which day a date rule matches, relative to when the file is opened.
#[derive(Clone, Copy, PartialEq, Eq, Structural, Debug)]
pub enum CfDatePeriod {
    Yesterday,
    Today,
    Tomorrow,
}

/// The closed catalogue of conditional-format rule variants.
#[derive(Debug, Clone, PartialEq)]
pub enum CfRule {
    /// Compare each cell against one target value.
    CellCompare { op: CfCellOp, value: i32 },
    /// Match cells between the two bounds (inclusive).
    CellBetween { low: i32, high: i32 },
    /// Match cells for which a formula evaluates to true.
    FormulaRule { formula: String },
    /// Match the top (or bottom) `value` cells, or `value` percent of cells.
    TopBottom { bottom: bool, percent: bool, value: u16 },
    /// Match duplicate values, or unique ones.
    DuplicateRule { unique: bool },
    /// Match cells whose text contains the target string.
    TextContains { text: String },
    /// Match cells whose date falls in the given period.
    DateRule { period: CfDatePeriod },
    /// Match blank cells, or non-blank ones.
    BlankRule { negated: bool },
    /// Match error cells, or non-error ones.
    ErrorRule { negated: bool },
    /// A two-color scale over the range, with the sink's default colors.
    ColorScale,
    /// A data bar over the range, with the sink's default style.
    DataBar,
    /// An icon set over the range, with the sink's default icons.
    IconSet,
}

impl CfRule {
    /// An exact copy; unlike a derived clone, its contract says so.
    pub fn duplicate(&self) -> (r: CfRule)
        ensures
            r == *self,
    {
        match self {
            CfRule::CellCompare { op, value } => CfRule::CellCompare { op: *op, value: *value },
            CfRule::CellBetween { low, high } => CfRule::CellBetween { low: *low, high: *high },
            CfRule::FormulaRule { formula } => CfRule::FormulaRule { formula: formula.clone() },
            CfRule::TopBottom { bottom, percent, value } => CfRule::TopBottom {
                bottom: *bottom,
                percent: *percent,
                value: *value,
            },
            CfRule::DuplicateRule { unique } => CfRule::DuplicateRule { unique: *unique },
            CfRule::TextContains { text } => CfRule::TextContains { text: text.clone() },
            CfRule::DateRule { period } => CfRule::DateRule { period: *period },
            CfRule::BlankRule { negated } => CfRule::BlankRule { negated: *negated },
            CfRule::ErrorRule { negated } => CfRule::ErrorRule { negated: *negated },
            CfRule::ColorScale => CfRule::ColorScale,
            CfRule::DataBar => CfRule::DataBar,
            CfRule::IconSet => CfRule::IconSet,
        }
    }
}

/// A rule as the sink's call log records it: the same catalogue, with every
/// string taken as its character sequence, so that a trusted contract can
/// state the rule a sink call carried without holding a `String` value.
pub ghost enum CfRuleView {
    CellCompare { op: CfCellOp, value: i32 },
    CellBetween { low: i32, high: i32 },
    FormulaRule { formula: Seq<char> },
    TopBottom { bottom: bool, percent: bool, value: u16 },
    DuplicateRule { unique: bool },
    TextContains { text: Seq<char> },
    DateRule { period: CfDatePeriod },
    BlankRule { negated: bool },
    ErrorRule { negated: bool },
    ColorScale,
    DataBar,
    IconSet,
}

/// The view of a catalogue rule, variant for variant.
pub open spec fn view_of_rule(r: CfRule) -> CfRuleView {
    match r {
        CfRule::CellCompare { op, value } => CfRuleView::CellCompare { op, value },
        CfRule::CellBetween { low, high } => CfRuleView::CellBetween { low, high },
        CfRule::FormulaRule { formula } => CfRuleView::FormulaRule { formula: formula@ },
        CfRule::TopBottom { bottom, percent, value } => CfRuleView::TopBottom { bottom, percent, value },
        CfRule::DuplicateRule { unique } => CfRuleView::DuplicateRule { unique },
        CfRule::TextContains { text } => CfRuleView::TextContains { text: text@ },
        CfRule::DateRule { period } => CfRuleView::DateRule { period },
        CfRule::BlankRule { negated } => CfRuleView::BlankRule { negated },
        CfRule::ErrorRule { negated } => CfRuleView::ErrorRule { negated },
        CfRule::ColorScale => CfRuleView::ColorScale,
        CfRule::DataBar => CfRuleView::DataBar,
        CfRule::IconSet => CfRuleView::IconSet,
    }
}

/// One conditional format attached to a rectangular range.
///
/// `rule` is a key into the sheet's rule interner and `style` an optional key
/// into its style interner; both must resolve at emission time.
#[derive(Debug, Clone, PartialEq)]
pub struct CfEntry {
    pub first_row: u32,
    pub first_col: u16,
    pub last_row: u32,
    pub last_col: u16,
    pub rule: StyleRef,
    pub style: Option<StyleRef>,
    pub stop_if_true: bool,
}

/// The formula text the sink actually validates and stores: it strips one
/// leading `{`, then one leading `=`, then one trailing `}` before checking
/// that anything is left.
pub open spec fn spec_strip_formula_marks(s: Seq<char>) -> Seq<char> {
    let s1 = if s.len() > 0 && s[0] == '{' {
        s.drop_first()
    } else {
        s
    };
    let s2 = if s1.len() > 0 && s1[0] == '=' {
        s1.drop_first()
    } else {
        s1
    };
    if s2.len() > 0 && s2[s2.len() - 1] == '}' {
        s2.drop_last()
    } else {
        s2
    }
}

/// Whether a formula is empty once the sink strips its array-formula marks.
fn formula_strips_to_empty(s: &str) -> (r: bool)
    ensures
        r == (spec_strip_formula_marks(s@).len() == 0),
{
    let n = s.unicode_len();
    if n == 0 {
        return true;
    }
    if n > 3 {
        return false;
    }
    let pre1: usize = if s.get_char(0) == '{' {
        1
    } else {
        0
    };
    let pre2: usize = if n > pre1 && s.get_char(pre1) == '=' {
        pre1 + 1
    } else {
        pre1
    };
    if n == pre2 {
        return true;
    }
    let suf: usize = if s.get_char(n - 1) == '}' {
        1
    } else {
        0
    };
    n - pre2 - suf == 0
}

/// A required `i32` field of a rule description; a missing or out-of-range
/// value is a malformed rule.
pub open spec fn spec_rule_int(fields: Seq<(FieldName, RecValue)>, name: FieldName) -> Result<i32, SheetError> {
    match spec_get_field(fields, name) {
        None => Err(SheetError::ConditionalFormat),
        Some(RecValue::Int(v)) => if i32::MIN <= v <= i32::MAX {
            Ok(v as i32)
        } else {
            Err(SheetError::ConditionalFormat)
        },
        Some(_) => Err(SheetError::TypeMismatch(name, ValueKind::Int)),
    }
}

fn rule_int(fields: &Vec<(FieldName, RecValue)>, name: FieldName) -> (r: Result<i32, SheetError>)
    ensures
        r == spec_rule_int(fields@, name),
{
    match get_field(fields, name) {
        None => Err(SheetError::ConditionalFormat),
        Some(RecValue::Int(v)) => {
            if i32::MIN as i64 <= *v && *v <= i32::MAX as i64 {
                Ok(*v as i32)
            } else {
                Err(SheetError::ConditionalFormat)
            }
        },
        Some(_) => Err(SheetError::TypeMismatch(name, ValueKind::Int)),
    }
}

/// The rule a cell-value comparison description denotes.
pub open spec fn spec_cell_rule(fields: Seq<(FieldName, RecValue)>, op: CfCellOp) -> Result<CfRule, SheetError> {
    match spec_rule_int(fields, FieldName::Value) {
        Ok(v) => Ok(CfRule::CellCompare { op, value: v }),
        Err(e) => Err(e),
    }
}

/// The rule a top/bottom description denotes: its `Value` must lie in the
/// range the sink accepts, `1..=1000` for counts and `1..=100` for percents.
pub open spec fn spec_top_rule(fields: Seq<(FieldName, RecValue)>, bottom: bool) -> Result<CfRule, SheetError> {
    match spec_rule_int(fields, FieldName::Value) {
        Err(e) => Err(e),
        Ok(v) => match crate::style::spec_parse_flag(fields, FieldName::Percent) {
            Err(e) => Err(e),
            Ok(percent) => {
                let limit: i32 = if percent { 100 } else { 1000 };
                if 1 <= v <= limit {
                    Ok(CfRule::TopBottom { bottom, percent, value: v as u16 })
                } else {
                    Err(SheetError::ConditionalFormat)
                }
            },
        },
    }
}

/// What a rule description denotes.
///
/// A rule description is a record whose required `Kind` field names a variant
/// of the catalogue; the variant decides which further fields are required.
/// An unknown kind, a missing variant field (such as one bound of a between
/// rule), an out-of-range value or a formula that is empty once the sink's
/// array-formula marks are stripped is a `ConditionalFormat` error.
pub open spec fn spec_parse_rule(fields: Seq<(FieldName, RecValue)>) -> Result<CfRule, SheetError> {
    match spec_get_field(fields, FieldName::Kind) {
        None => Err(SheetError::MissingField(FieldName::Kind)),
        Some(RecValue::Str(kind)) => {
            if kind@ == "cell_greater_than"@ {
                spec_cell_rule(fields, CfCellOp::GreaterThan)
            } else if kind@ == "cell_less_than"@ {
                spec_cell_rule(fields, CfCellOp::LessThan)
            } else if kind@ == "cell_equal_to"@ {
                spec_cell_rule(fields, CfCellOp::EqualTo)
            } else if kind@ == "cell_between"@ {
                match spec_rule_int(fields, FieldName::MinValue) {
                    Err(e) => Err(e),
                    Ok(low) => match spec_rule_int(fields, FieldName::MaxValue) {
                        Err(e) => Err(e),
                        Ok(high) => Ok(CfRule::CellBetween { low, high }),
                    },
                }
            } else if kind@ == "formula"@ {
                match spec_get_field(fields, FieldName::Formula) {
                    Some(RecValue::Str(f)) => if spec_strip_formula_marks(f@).len() > 0 {
                        Ok(CfRule::FormulaRule { formula: f })
                    } else {
                        Err(SheetError::ConditionalFormat)
                    },
                    Some(_) => Err(SheetError::TypeMismatch(FieldName::Formula, ValueKind::Str)),
                    None => Err(SheetError::ConditionalFormat),
                }
            } else if kind@ == "top"@ {
                spec_top_rule(fields, false)
            } else if kind@ == "bottom"@ {
                spec_top_rule(fields, true)
            } else if kind@ == "duplicate"@ {
                Ok(CfRule::DuplicateRule { unique: false })
            } else if kind@ == "unique"@ {
                Ok(CfRule::DuplicateRule { unique: true })
            } else if kind@ == "text_contains"@ {
                match spec_get_field(fields, FieldName::Text) {
                    Some(RecValue::Str(t)) => Ok(CfRule::TextContains { text: t }),
                    Some(_) => Err(SheetError::TypeMismatch(FieldName::Text, ValueKind::Str)),
                    None => Err(SheetError::ConditionalFormat),
                }
            } else if kind@ == "date_yesterday"@ {
                Ok(CfRule::DateRule { period: CfDatePeriod::Yesterday })
            } else if kind@ == "date_today"@ {
                Ok(CfRule::DateRule { period: CfDatePeriod::Today })
            } else if kind@ == "date_tomorrow"@ {
                Ok(CfRule::DateRule { period: CfDatePeriod::Tomorrow })
            } else if kind@ == "blank"@ {
                Ok(CfRule::BlankRule { negated: false })
            } else if kind@ == "not_blank"@ {
                Ok(CfRule::BlankRule { negated: true })
            } else if kind@ == "error"@ {
                Ok(CfRule::ErrorRule { negated: false })
            } else if kind@ == "not_error"@ {
                Ok(CfRule::ErrorRule { negated: true })
            } else if kind@ == "color_scale"@ {
                Ok(CfRule::ColorScale)
            } else if kind@ == "data_bar"@ {
                Ok(CfRule::DataBar)
            } else if kind@ == "icon_set"@ {
                Ok(CfRule::IconSet)
            } else {
                Err(SheetError::ConditionalFormat)
            }
        },
        Some(_) => Err(SheetError::TypeMismatch(FieldName::Kind, ValueKind::Str)),
    }
}

fn kind_is(kind: &String, lit: &str) -> (r: bool)
    ensures
        r == (kind@ == lit@),
{
    let owned = lit.to_owned();
    *kind == owned
}

/// Validates a rule description against the catalogue.
pub fn parse_rule(fields: &Vec<(FieldName, RecValue)>) -> (r: Result<CfRule, SheetError>)
    ensures
        r == spec_parse_rule(fields@),
{
    let kind = match get_field(fields, FieldName::Kind) {
        None => { return Err(SheetError::MissingField(FieldName::Kind)); },
        Some(RecValue::Str(kind)) => kind,
        Some(_) => { return Err(SheetError::TypeMismatch(FieldName::Kind, ValueKind::Str)); },
    };
    if kind_is(kind, "cell_greater_than") {
        cell_rule(fields, CfCellOp::GreaterThan)
    } else if kind_is(kind, "cell_less_than") {
        cell_rule(fields, CfCellOp::LessThan)
    } else if kind_is(kind, "cell_equal_to") {
        cell_rule(fields, CfCellOp::EqualTo)
    } else if kind_is(kind, "cell_between") {
        let low = match rule_int(fields, FieldName::MinValue) {
            Ok(v) => v,
            Err(e) => { return Err(e); },
        };
        let high = match rule_int(fields, FieldName::MaxValue) {
            Ok(v) => v,
            Err(e) => { return Err(e); },
        };
        Ok(CfRule::CellBetween { low, high })
    } else if kind_is(kind, "formula") {
        match get_field(fields, FieldName::Formula) {
            Some(RecValue::Str(f)) => {
                if formula_strips_to_empty(f.as_str()) {
                    Err(SheetError::ConditionalFormat)
                } else {
                    Ok(CfRule::FormulaRule { formula: f.clone() })
                }
            },
            Some(_) => Err(SheetError::TypeMismatch(FieldName::Formula, ValueKind::Str)),
            None => Err(SheetError::ConditionalFormat),
        }
    } else if kind_is(kind, "top") {
        top_rule(fields, false)
    } else if kind_is(kind, "bottom") {
        top_rule(fields, true)
    } else if kind_is(kind, "duplicate") {
        Ok(CfRule::DuplicateRule { unique: false })
    } else if kind_is(kind, "unique") {
        Ok(CfRule::DuplicateRule { unique: true })
    } else if kind_is(kind, "text_contains") {
        match get_field(fields, FieldName::Text) {
            Some(RecValue::Str(t)) => Ok(CfRule::TextContains { text: t.clone() }),
            Some(_) => Err(SheetError::TypeMismatch(FieldName::Text, ValueKind::Str)),
            None => Err(SheetError::ConditionalFormat),
        }
    } else if kind_is(kind, "date_yesterday") {
        Ok(CfRule::DateRule { period: CfDatePeriod::Yesterday })
    } else if kind_is(kind, "date_today") {
        Ok(CfRule::DateRule { period: CfDatePeriod::Today })
    } else if kind_is(kind, "date_tomorrow") {
        Ok(CfRule::DateRule { period: CfDatePeriod::Tomorrow })
    } else if kind_is(kind, "blank") {
        Ok(CfRule::BlankRule { negated: false })
    } else if kind_is(kind, "not_blank") {
        Ok(CfRule::BlankRule { negated: true })
    } else if kind_is(kind, "error") {
        Ok(CfRule::ErrorRule { negated: false })
    } else if kind_is(kind, "not_error") {
        Ok(CfRule::ErrorRule { negated: true })
    } else if kind_is(kind, "color_scale") {
        Ok(CfRule::ColorScale)
    } else if kind_is(kind, "data_bar") {
        Ok(CfRule::DataBar)
    } else if kind_is(kind, "icon_set") {
        Ok(CfRule::IconSet)
    } else {
        Err(SheetError::ConditionalFormat)
    }
}

fn cell_rule(fields: &Vec<(FieldName, RecValue)>, op: CfCellOp) -> (r: Result<CfRule, SheetError>)
    ensures
        r == spec_cell_rule(fields@, op),
{
    match rule_int(fields, FieldName::Value) {
        Ok(v) => Ok(CfRule::CellCompare { op, value: v }),
        Err(e) => Err(e),
    }
}

fn top_rule(fields: &Vec<(FieldName, RecValue)>, bottom: bool) -> (r: Result<CfRule, SheetError>)
    ensures
        r == spec_top_rule(fields@, bottom),
{
    let v = match rule_int(fields, FieldName::Value) {
        Ok(v) => v,
        Err(e) => { return Err(e); },
    };
    let percent = match crate::style::parse_flag(fields, FieldName::Percent) {
        Ok(p) => p,
        Err(e) => { return Err(e); },
    };
    let limit: i32 = if percent { 100 } else { 1000 };
    if 1 <= v && v <= limit {
        Ok(CfRule::TopBottom { bottom, percent, value: v as u16 })
    } else {
        Err(SheetError::ConditionalFormat)
    }
}

/// What a conditional-format entry denotes, and how parsing it changes the
/// two interners.
///
/// An entry carries a rectangular range (validated like any other range), a
/// required `Rule` record (validated against the catalogue, then interned),
/// an optional `Style` description (interned), and an optional boolean
/// `StopIfTrue` flag, `false` by default, that stops later rules on a match.
/// On failure neither interner changes.
pub open spec fn spec_parse_entry(
    fields: Seq<(FieldName, RecValue)>,
    styles: Seq<Style>,
    rules: Seq<CfRule>,
) -> Result<(CfEntry, Seq<Style>, Seq<CfRule>), SheetError> {
    match spec_parse_row(fields, FieldName::FirstRow) {
        Err(e) => Err(e),
        Ok(first_row) => match spec_parse_col(fields, FieldName::FirstColumn) {
            Err(e) => Err(e),
            Ok(first_col) => match spec_parse_row(fields, FieldName::LastRow) {
                Err(e) => Err(e),
                Ok(last_row) => match spec_parse_col(fields, FieldName::LastColumn) {
                    Err(e) => Err(e),
                    Ok(last_col) => if first_row > last_row || first_col > last_col {
                        Err(SheetError::Range)
                    } else {
                        match spec_get_field(fields, FieldName::Rule) {
                            None => Err(SheetError::MissingField(FieldName::Rule)),
                            Some(RecValue::Rec(desc)) => match spec_parse_rule(desc@) {
                                Err(e) => Err(e),
                                Ok(rule) => match crate::style::spec_parse_flag(fields, FieldName::StopIfTrue) {
                                    Err(e) => Err(e),
                                    Ok(stop_if_true) => match spec_parse_style(fields, styles) {
                                        Err(e) => Err(e),
                                        Ok((style, styles2)) => Ok((
                                            CfEntry {
                                                first_row,
                                                first_col,
                                                last_row,
                                                last_col,
                                                rule: rules.len() as StyleRef,
                                                style,
                                                stop_if_true,
                                            },
                                            styles2,
                                            rules.push(rule),
                                        )),
                                    },
                                },
                            },
                            Some(_) => Err(SheetError::TypeMismatch(FieldName::Rule, ValueKind::Rec)),
                        }
                    },
                },
            },
        },
    }
}

/// Validates one conditional-format entry, interning its rule and style.
pub fn parse_entry(
    fields: &Vec<(FieldName, RecValue)>,
    styles: &mut StyleInterner,
    rules: &mut CfInterner,
) -> (r: Result<CfEntry, SheetError>)
    ensures
        match spec_parse_entry(fields@, old(styles)@, old(rules)@) {
            Ok((e, s, ru)) => r == Ok::<CfEntry, SheetError>(e) && final(styles)@ == s && final(rules)@ == ru,
            Err(e) => r == Err::<CfEntry, SheetError>(e)
                && final(styles)@ == old(styles)@
                && final(rules)@ == old(rules)@,
        },
{
    let first_row = match parse_row(fields, FieldName::FirstRow) {
        Ok(v) => v,
        Err(e) => { return Err(e); },
    };
    let first_col = match parse_col(fields, FieldName::FirstColumn) {
        Ok(v) => v,
        Err(e) => { return Err(e); },
    };
    let last_row = match parse_row(fields, FieldName::LastRow) {
        Ok(v) => v,
        Err(e) => { return Err(e); },
    };
    let last_col = match parse_col(fields, FieldName::LastColumn) {
        Ok(v) => v,
        Err(e) => { return Err(e); },
    };
    if first_row > last_row || first_col > last_col {
        return Err(SheetError::Range);
    }
    let rule = match get_field(fields, FieldName::Rule) {
        None => { return Err(SheetError::MissingField(FieldName::Rule)); },
        Some(RecValue::Rec(desc)) => match parse_rule(desc) {
            Ok(rule) => rule,
            Err(e) => { return Err(e); },
        },
        Some(_) => { return Err(SheetError::TypeMismatch(FieldName::Rule, ValueKind::Rec)); },
    };
    let stop_if_true = match crate::style::parse_flag(fields, FieldName::StopIfTrue) {
        Ok(b) => b,
        Err(e) => { return Err(e); },
    };
    let style = match parse_style(fields, styles) {
        Ok(style) => style,
        Err(e) => { return Err(e); },
    };
    let key = rules.register(rule);
    Ok(CfEntry { first_row, first_col, last_row, last_col, rule: key, style, stop_if_true })
}

} // verus!
