//! Cell style descriptions and their resolution into concrete formats.

use vstd::prelude::*;
use crate::record::{FieldName, RecValue, spec_get_field, get_field};
use crate::error::{SheetError, ValueKind};

verus! {

/// Largest RGB color code a style may carry.
pub const COLOR_MAX: u32 = 0xFFFFFF;

/// A concrete, fully resolved cell format.
///
/// This is the value the style interner stores: a style description that
/// passed validation, with every attribute in its final shape.
#[derive(Debug, Clone, PartialEq)]
pub struct Style {
    pub bold: bool,
    pub italic: bool,
    pub font_color: Option<u32>,
    pub background_color: Option<u32>,
    pub num_format: Option<String>,
}

impl Style {
    /// An exact copy; unlike a derived clone, its contract says so.
    pub fn duplicate(&self) -> (r: Style)
        ensures
            r == *self,
    {
        Style {
            bold: self.bold,
            italic: self.italic,
            font_color: self.font_color,
            background_color: self.background_color,
            num_format: match &self.num_format {
                Some(s) => Some(s.clone()),
                None => None,
            },
        }
    }
}

/// What `parse_format` returns: the direct statement of the style schema.
///
/// A style description is a record with optional fields `Bold` and `Italic`
/// (booleans), `FontColor` and `BackgroundColor` (integer RGB codes in
/// `0..=COLOR_MAX`), and `NumFormat` (a string). A field of the wrong shape is
/// a `TypeMismatch`; a color code out of range is a `Style` error.
pub open spec fn spec_parse_format(fields: Seq<(FieldName, RecValue)>) -> Result<Style, SheetError> {
    match spec_parse_flag(fields, FieldName::Bold) {
        Err(e) => Err(e),
        Ok(bold) => match spec_parse_flag(fields, FieldName::Italic) {
            Err(e) => Err(e),
            Ok(italic) => match spec_parse_color(fields, FieldName::FontColor) {
                Err(e) => Err(e),
                Ok(font_color) => match spec_parse_color(fields, FieldName::BackgroundColor) {
                    Err(e) => Err(e),
                    Ok(background_color) => match spec_get_field(fields, FieldName::NumFormat) {
                        None => Ok(Style { bold, italic, font_color, background_color, num_format: None }),
                        Some(RecValue::Str(s)) => Ok(Style {
                            bold,
                            italic,
                            font_color,
                            background_color,
                            num_format: Some(s),
                        }),
                        Some(_) => Err(SheetError::TypeMismatch(FieldName::NumFormat, ValueKind::Str)),
                    },
                },
            },
        },
    }
}

/// An optional boolean field: absent means `false`.
pub open spec fn spec_parse_flag(fields: Seq<(FieldName, RecValue)>, name: FieldName) -> Result<bool, SheetError> {
    match spec_get_field(fields, name) {
        None => Ok(false),
        Some(RecValue::Bool(b)) => Ok(b),
        Some(_) => Err(SheetError::TypeMismatch(name, ValueKind::Bool)),
    }
}

/// An optional boolean field with an explicit default.
pub open spec fn spec_parse_flag_default(fields: Seq<(FieldName, RecValue)>, name: FieldName, default: bool) -> Result<bool, SheetError> {
    match spec_get_field(fields, name) {
        None => Ok(default),
        Some(RecValue::Bool(b)) => Ok(b),
        Some(_) => Err(SheetError::TypeMismatch(name, ValueKind::Bool)),
    }
}

/// Reads an optional boolean field, `default` when absent.
pub fn parse_flag_default(fields: &Vec<(FieldName, RecValue)>, name: FieldName, default: bool) -> (r: Result<bool, SheetError>)
    ensures
        r == spec_parse_flag_default(fields@, name, default),
{
    match get_field(fields, name) {
        None => Ok(default),
        Some(RecValue::Bool(b)) => Ok(*b),
        Some(_) => Err(SheetError::TypeMismatch(name, ValueKind::Bool)),
    }
}

/// An optional RGB color field: an integer in `0..=COLOR_MAX`.
pub open spec fn spec_parse_color(fields: Seq<(FieldName, RecValue)>, name: FieldName) -> Result<Option<u32>, SheetError> {
    match spec_get_field(fields, name) {
        None => Ok(None),
        Some(RecValue::Int(v)) => if 0 <= v <= COLOR_MAX {
            Ok(Some(v as u32))
        } else {
            Err(SheetError::Style)
        },
        Some(_) => Err(SheetError::TypeMismatch(name, ValueKind::Int)),
    }
}

/// Reads an optional boolean field, `false` when absent.
pub fn parse_flag(fields: &Vec<(FieldName, RecValue)>, name: FieldName) -> (r: Result<bool, SheetError>)
    ensures
        r == spec_parse_flag(fields@, name),
{
    match get_field(fields, name) {
        None => Ok(false),
        Some(RecValue::Bool(b)) => Ok(*b),
        Some(_) => Err(SheetError::TypeMismatch(name, ValueKind::Bool)),
    }
}

fn parse_color(fields: &Vec<(FieldName, RecValue)>, name: FieldName) -> (r: Result<Option<u32>, SheetError>)
    ensures
        r == spec_parse_color(fields@, name),
{
    match get_field(fields, name) {
        None => Ok(None),
        Some(RecValue::Int(v)) => {
            if 0 <= *v && *v <= COLOR_MAX as i64 {
                Ok(Some(*v as u32))
            } else {
                Err(SheetError::Style)
            }
        },
        Some(_) => Err(SheetError::TypeMismatch(name, ValueKind::Int)),
    }
}

/// Validates a style description and resolves it into a [`Style`].
pub fn parse_format(fields: &Vec<(FieldName, RecValue)>) -> (r: Result<Style, SheetError>)
    ensures
        r == spec_parse_format(fields@),
{
    let bold = match parse_flag(fields, FieldName::Bold) {
        Ok(b) => b,
        Err(e) => { return Err(e); },
    };
    let italic = match parse_flag(fields, FieldName::Italic) {
        Ok(b) => b,
        Err(e) => { return Err(e); },
    };
    let font_color = match parse_color(fields, FieldName::FontColor) {
        Ok(c) => c,
        Err(e) => { return Err(e); },
    };
    let background_color = match parse_color(fields, FieldName::BackgroundColor) {
        Ok(c) => c,
        Err(e) => { return Err(e); },
    };
    let num_format = match get_field(fields, FieldName::NumFormat) {
        None => None,
        Some(RecValue::Str(s)) => Some(s.clone()),
        Some(_) => { return Err(SheetError::TypeMismatch(FieldName::NumFormat, ValueKind::Str)); },
    };
    Ok(Style { bold, italic, font_color, background_color, num_format })
}

} // verus!
