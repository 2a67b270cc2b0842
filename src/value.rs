use vstd::prelude::*;
use vstd::utf8::{decode_utf8, valid_utf8};

use crate::error::{ErrorModel, SQLitendError};

verus! {

/// Type code the engine reports for an integer column value.
pub const SQLITE_INTEGER: i32 = 1;

/// Type code the engine reports for a floating-point column value.
pub const SQLITE_FLOAT: i32 = 2;

/// Type code the engine reports for a text column value.
pub const SQLITE_TEXT: i32 = 3;

/// Type code the engine reports for a blob column value.
pub const SQLITE_BLOB: i32 = 4;

/// Type code the engine reports for a null column value.
pub const SQLITE_NULL: i32 = 5;

/// A decoded scalar. A floating-point number is carried as its IEEE-754 bit pattern.
#[derive(Debug, Clone, PartialEq)]
pub enum ColumnValue {
    Null,
    Integer(i64),
    Float(u64),
    Text(String),
    Blob(Vec<u8>),
}

/// A decoded scalar with its text and bytes as sequences.
pub enum ValueModel {
    Null,
    Integer(i64),
    Float(u64),
    Text(Seq<char>),
    Blob(Seq<u8>),
}

impl View for ColumnValue {
    type V = ValueModel;

    open spec fn view(&self) -> ValueModel {
        match self {
            ColumnValue::Null => ValueModel::Null,
            ColumnValue::Integer(i) => ValueModel::Integer(*i),
            ColumnValue::Float(b) => ValueModel::Float(*b),
            ColumnValue::Text(s) => ValueModel::Text(s@),
            ColumnValue::Blob(b) => ValueModel::Blob(b@),
        }
    }
}

/// Which read the engine must make for a column, by its reported type code.
#[derive(Debug, Clone, Copy, PartialEq, Eq)]
pub enum ColumnKind {
    Null,
    Integer,
    Float,
    Text,
    Blob,
}

/// A column value as read from the engine, before it is checked.
#[derive(Debug, Clone)]
pub enum NativeValue {
    Null,
    Integer(i64),
    Float(u64),
    Text(Vec<u8>),
    Blob(Vec<u8>),
    Other(i32),
}

/// One column of the current row as read from the engine: its name's bytes, if
/// the engine gave a name, and its value.
#[derive(Debug, Clone)]
pub struct NativeColumn {
    pub name: Option<Vec<u8>>,
    pub value: NativeValue,
}

pub open spec fn kind_of_code(code: i32) -> Option<ColumnKind> {
    if code == SQLITE_NULL {
        Some(ColumnKind::Null)
    } else if code == SQLITE_INTEGER {
        Some(ColumnKind::Integer)
    } else if code == SQLITE_FLOAT {
        Some(ColumnKind::Float)
    } else if code == SQLITE_TEXT {
        Some(ColumnKind::Text)
    } else if code == SQLITE_BLOB {
        Some(ColumnKind::Blob)
    } else {
        None
    }
}

/// The read to make for a column whose current value has the given type code.
pub fn column_kind(code: i32) -> (r: Result<ColumnKind, SQLitendError>)
    ensures
        kind_of_code(code) is Some ==> r == Ok::<ColumnKind, SQLitendError>(kind_of_code(code)->0),
        kind_of_code(code) is None ==> r is Err && r->Err_0 == SQLitendError::UnsupportColumnType(code),
{
    if code == SQLITE_NULL {
        Ok(ColumnKind::Null)
    } else if code == SQLITE_INTEGER {
        Ok(ColumnKind::Integer)
    } else if code == SQLITE_FLOAT {
        Ok(ColumnKind::Float)
    } else if code == SQLITE_TEXT {
        Ok(ColumnKind::Text)
    } else if code == SQLITE_BLOB {
        Ok(ColumnKind::Blob)
    } else {
        Err(SQLitendError::UnsupportColumnType(code))
    }
}

/// Relies on String::from_utf8: it succeeds exactly on valid UTF-8, and the string
/// then holds the characters those bytes encode.
#[verifier::external_body]
fn utf8_string(bytes: &[u8]) -> (r: Option<String>)
    ensures
        r is Some <==> valid_utf8(bytes@),
        r is Some ==> r->Some_0@ == decode_utf8(bytes@),
{
    String::from_utf8(bytes.to_vec()).ok()
}

/// What decoding a native value gives.
pub open spec fn decoded_value(v: NativeValue) -> Result<ValueModel, ErrorModel> {
    match v {
        NativeValue::Null => Ok(ValueModel::Null),
        NativeValue::Integer(i) => Ok(ValueModel::Integer(i)),
        NativeValue::Float(b) => Ok(ValueModel::Float(b)),
        NativeValue::Text(t) => if valid_utf8(t@) {
            Ok(ValueModel::Text(decode_utf8(t@)))
        } else {
            Err(ErrorModel::Utf8Text)
        },
        NativeValue::Blob(b) => Ok(ValueModel::Blob(b@)),
        NativeValue::Other(code) => Err(ErrorModel::UnsupportColumnType(code)),
    }
}

/// Turns one native column value into a decoded scalar; text must be valid UTF-8.
pub fn decode_value(v: &NativeValue) -> (r: Result<ColumnValue, SQLitendError>)
    ensures
        r is Ok <==> decoded_value(*v) is Ok,
        r is Ok ==> r->Ok_0@ == decoded_value(*v)->Ok_0,
        r is Err ==> r->Err_0@ == decoded_value(*v)->Err_0,
{
    match v {
        NativeValue::Null => Ok(ColumnValue::Null),
        NativeValue::Integer(i) => Ok(ColumnValue::Integer(*i)),
        NativeValue::Float(b) => Ok(ColumnValue::Float(*b)),
        NativeValue::Text(t) => match utf8_string(t.as_slice()) {
            Some(s) => Ok(ColumnValue::Text(s)),
            None => Err(SQLitendError::Utf8Text),
        },
        NativeValue::Blob(b) => Ok(ColumnValue::Blob(b.clone())),
        NativeValue::Other(code) => Err(SQLitendError::UnsupportColumnType(*code)),
    }
}

pub open spec fn null_name_message() -> Seq<char> {
    "the column name is a null pointer, this shouldn't happen"@
}

pub open spec fn bad_name_message() -> Seq<char> {
    "the column name is not a string, this shouldn't happen"@
}

/// What decoding a column name gives: it must be present and valid UTF-8.
pub open spec fn decoded_name(name: Option<Vec<u8>>) -> Result<Seq<char>, ErrorModel> {
    match name {
        None => Err(ErrorModel::GetColumnName(null_name_message())),
        Some(b) => if valid_utf8(b@) {
            Ok(decode_utf8(b@))
        } else {
            Err(ErrorModel::GetColumnName(bad_name_message()))
        },
    }
}

/// Turns the bytes of a column name into a string.
pub fn decode_column_name(name: &Option<Vec<u8>>) -> (r: Result<String, SQLitendError>)
    ensures
        r is Ok <==> decoded_name(*name) is Ok,
        r is Ok ==> r->Ok_0@ == decoded_name(*name)->Ok_0,
        r is Err ==> r->Err_0@ == decoded_name(*name)->Err_0,
{
    match name {
        None => Err(
            SQLitendError::GetColumnName(
                String::from_str("the column name is a null pointer, this shouldn't happen"),
            ),
        ),
        Some(b) => match utf8_string(b.as_slice()) {
            Some(s) => Ok(s),
            None => Err(
                SQLitendError::GetColumnName(
                    String::from_str("the column name is not a string, this shouldn't happen"),
                ),
            ),
        },
    }
}

/// One decoded row: the column names and the values, in column order.
pub struct RowModel {
    pub columns: Seq<Seq<char>>,
    pub values: Seq<ValueModel>,
}

/// What decoding a row of native columns gives: the first column whose name or
/// value cannot be decoded decides the error, the name before the value.
pub open spec fn decoded_row(cols: Seq<NativeColumn>) -> Result<RowModel, ErrorModel>
    decreases cols.len(),
{
    if cols.len() == 0 {
        Ok(RowModel { columns: seq![], values: seq![] })
    } else {
        match decoded_row(cols.drop_last()) {
            Err(e) => Err(e),
            Ok(row) => match decoded_name(cols.last().name) {
                Err(e) => Err(e),
                Ok(n) => match decoded_value(cols.last().value) {
                    Err(e) => Err(e),
                    Ok(v) => Ok(RowModel { columns: row.columns.push(n), values: row.values.push(v) }),
                },
            },
        }
    }
}

pub open spec fn names_view(names: Seq<String>) -> Seq<Seq<char>> {
    names.map_values(|s: String| s@)
}

pub open spec fn values_view(vals: Seq<ColumnValue>) -> Seq<ValueModel> {
    vals.map_values(|v: ColumnValue| v@)
}

/// Decodes the columns of the current row into its names and its values.
pub fn decode_row(cols: &Vec<NativeColumn>) -> (r: Result<(Vec<String>, Vec<ColumnValue>), SQLitendError>)
    ensures
        r is Ok <==> decoded_row(cols@) is Ok,
        r is Ok ==> names_view(r->Ok_0.0@) == decoded_row(cols@)->Ok_0.columns
            && values_view(r->Ok_0.1@) == decoded_row(cols@)->Ok_0.values,
        r is Err ==> r->Err_0@ == decoded_row(cols@)->Err_0,
{
    let mut names: Vec<String> = Vec::new();
    let mut vals: Vec<ColumnValue> = Vec::new();
    let mut i: usize = 0;
    while i < cols.len()
        invariant
            i <= cols@.len(),
            decoded_row(cols@.take(i as int)) is Ok,
            names_view(names@) == decoded_row(cols@.take(i as int))->Ok_0.columns,
            values_view(vals@) == decoded_row(cols@.take(i as int))->Ok_0.values,
        decreases cols@.len() - i,
    {
        let ghost pre = cols@.take(i as int);
        let ghost next = cols@.take(i as int + 1);
        assert(next.drop_last() == pre);
        assert(next.last() == cols@[i as int]);
        let name = match decode_column_name(&cols[i].name) {
            Ok(n) => n,
            Err(e) => {
                proof { lemma_row_error_persists(cols@, i as int + 1); }
                return Err(e);
            },
        };
        let value = match decode_value(&cols[i].value) {
            Ok(v) => v,
            Err(e) => {
                proof { lemma_row_error_persists(cols@, i as int + 1); }
                return Err(e);
            },
        };
        names.push(name);
        vals.push(value);
        assert(names_view(names@) =~= decoded_row(next)->Ok_0.columns);
        assert(values_view(vals@) =~= decoded_row(next)->Ok_0.values);
        i = i + 1;
    }
    assert(cols@.take(cols@.len() as int) =~= cols@);
    Ok((names, vals))
}

/// Once a prefix of the row fails to decode, the whole row fails with that error.
proof fn lemma_row_error_persists(cols: Seq<NativeColumn>, k: int)
    requires
        0 <= k <= cols.len(),
        decoded_row(cols.take(k)) is Err,
    ensures
        decoded_row(cols) == decoded_row(cols.take(k)),
    decreases cols.len() - k,
{
    if k < cols.len() {
        let next = cols.take(k + 1);
        assert(next.drop_last() =~= cols.take(k));
        lemma_row_error_persists(cols, k + 1);
    } else {
        assert(cols.take(k) =~= cols);
    }
}

} // verus!
