//! The weakly typed input tree that a host hands to the sheet builder.
//!
//! A sheet description arrives as a record of named fields whose values are
//! strings, integers, booleans, lists or nested records. The builder walks
//! this tree, checking the shape of every field it reads.

use vstd::prelude::*;

verus! {

/// The closed set of field names that the sheet description may use.
#[derive(Clone, Copy, PartialEq, Eq, Structural, Debug)]
pub enum FieldName {
    Name,
    Cells,
    ConditionalFormats,
    ArrayFormulas,
    Tables,
    RowConfigs,
    ColumnConfigs,
    Row,
    Column,
    Value,
    Formula,
    Style,
    FirstRow,
    FirstColumn,
    LastRow,
    LastColumn,
    Dynamic,
    Rule,
    Kind,
    MinValue,
    MaxValue,
    Percent,
    Text,
    Index,
    LastIndex,
    Size,
    Hidden,
    Header,
    StopIfTrue,
    Bold,
    Italic,
    FontColor,
    BackgroundColor,
    NumFormat,
}

/// A value in the input tree. Hosts map their own dynamic values onto this
/// shape; the builder rejects any field whose variant is not the one the
/// schema asks for.
#[derive(Debug)]
pub enum RecValue {
    Str(String),
    Int(i64),
    Bool(bool),
    List(Vec<RecValue>),
    Rec(Vec<(FieldName, RecValue)>),
}

/// The first value stored under `name`, if any.
pub open spec fn spec_get_field(fields: Seq<(FieldName, RecValue)>, name: FieldName) -> Option<RecValue>
    decreases fields.len(),
{
    if fields.len() == 0 {
        None
    } else if fields[0].0 == name {
        Some(fields[0].1)
    } else {
        spec_get_field(fields.drop_first(), name)
    }
}

/// Looks a field up by name, returning the first binding.
pub fn get_field<'a>(fields: &'a Vec<(FieldName, RecValue)>, name: FieldName) -> (r: Option<&'a RecValue>)
    ensures
        match r {
            Some(v) => spec_get_field(fields@, name) == Some(*v),
            None => spec_get_field(fields@, name) is None,
        },
{
    let mut i: usize = 0;
    proof {
        assert(fields@.skip(0) =~= fields@);
    }
    while i < fields.len()
        invariant
            i <= fields.len(),
            spec_get_field(fields@, name) == spec_get_field(fields@.skip(i as int), name),
        decreases fields.len() - i,
    {
        proof {
            assert(fields@.skip(i as int)[0] == fields@[i as int]);
            assert(fields@.skip(i as int).drop_first() =~= fields@.skip(i as int + 1));
        }
        if fields[i].0 == name {
            return Some(&fields[i].1);
        }
        i = i + 1;
    }
    None
}

} // verus!
