use vstd::prelude::*;
use vstd::utf8::encode_utf8;

use crate::error::{ErrorModel, InnerError, SQLitendError};
use crate::value::{
    decode_row, decoded_row, names_view, values_view, ColumnValue, NativeColumn, ValueModel,
};

verus! {

/// Result code of an engine call that succeeded.
pub const SQLITE_OK: i32 = 0;

/// Result code of a step that produced a row.
pub const SQLITE_ROW: i32 = 100;

/// Result code of a step that found no further row.
pub const SQLITE_DONE: i32 = 101;

/// Rows of one statement under one header of column names.
#[derive(Debug, Clone)]
pub struct SQLiteStatementValues {
    pub columns: Vec<String>,
    pub rows: Vec<Vec<ColumnValue>>,
}

pub struct ValuesModel {
    pub columns: Seq<Seq<char>>,
    pub rows: Seq<Seq<ValueModel>>,
}

pub open spec fn rows_view(rows: Seq<Vec<ColumnValue>>) -> Seq<Seq<ValueModel>> {
    rows.map_values(|r: Vec<ColumnValue>| values_view(r@))
}

impl View for SQLiteStatementValues {
    type V = ValuesModel;

    open spec fn view(&self) -> ValuesModel {
        ValuesModel { columns: names_view(self.columns@), rows: rows_view(self.rows@) }
    }
}

pub open spec fn option_values_view(v: Option<SQLiteStatementValues>) -> Option<ValuesModel> {
    match v {
        Some(x) => Some(x@),
        None => None,
    }
}

/// What one statement produced: its text, its byte span in the whole text, whether
/// its rows are exhausted, and its rows if it had any.
#[derive(Debug, Clone)]
pub struct SQLiteStatementTable {
    pub sql: String,
    pub position: [usize; 2],
    pub done: bool,
    pub values: Option<SQLiteStatementValues>,
}

pub struct TableModel {
    pub sql: Seq<char>,
    pub start: usize,
    pub end: usize,
    pub done: bool,
    pub values: Option<ValuesModel>,
}

impl View for SQLiteStatementTable {
    type V = TableModel;

    open spec fn view(&self) -> TableModel {
        TableModel {
            sql: self.sql@,
            start: self.position@[0],
            end: self.position@[1],
            done: self.done,
            values: option_values_view(self.values),
        }
    }
}

/// One unit of a run's output: a statement, or the end of the whole run.
#[derive(Debug, Clone)]
pub enum SQLiteStatementResult {
    Finish,
    Step(SQLiteStatementTable),
}

pub enum OutcomeModel {
    Finish,
    Step(TableModel),
}

impl View for SQLiteStatementResult {
    type V = OutcomeModel;

    open spec fn view(&self) -> OutcomeModel {
        match self {
            SQLiteStatementResult::Finish => OutcomeModel::Finish,
            SQLiteStatementResult::Step(t) => OutcomeModel::Step(t@),
        }
    }
}

pub open spec fn outcomes_view(outs: Seq<SQLiteStatementResult>) -> Seq<OutcomeModel> {
    outs.map_values(|o: SQLiteStatementResult| o@)
}

/// The number of bytes that the UTF-8 encoding of a text takes.
pub open spec fn byte_len(s: Seq<char>) -> nat {
    encode_utf8(s).len()
}

/// The values that one decoded row makes on its own.
pub open spec fn single_row(columns: Seq<Seq<char>>, values: Seq<ValueModel>) -> ValuesModel {
    ValuesModel { columns, rows: seq![values] }
}

/// Rows gathered so far, extended by the rows of `next`; the first header is kept.
pub open spec fn absorb(acc: Option<ValuesModel>, next: ValuesModel) -> ValuesModel {
    match acc {
        None => next,
        Some(a) => ValuesModel { columns: a.columns, rows: a.rows + next.rows },
    }
}

/// Appends the rows of `next` to those gathered so far.
pub fn absorb_values(acc: Option<SQLiteStatementValues>, next: SQLiteStatementValues) -> (r:
    SQLiteStatementValues)
    ensures
        r@ == absorb(option_values_view(acc), next@),
{
    match acc {
        None => next,
        Some(a) => {
            let mut a = a;
            let mut next = next;
            let ghost a0 = a.rows@;
            let ghost n0 = next.rows@;
            a.rows.append(&mut next.rows);
            assert(rows_view(a.rows@) =~= rows_view(a0) + rows_view(n0));
            a
        },
    }
}

/// One compiled statement that is being stepped: its text, its byte span, and
/// whether its rows are exhausted.
#[derive(Debug, Clone)]
pub struct SQLitePreparedStatement {
    pub sql: String,
    pub position: [usize; 2],
    pub done: bool,
}

pub struct CursorModel {
    pub sql: Seq<char>,
    pub start: usize,
    pub end: usize,
    pub done: bool,
}

impl View for SQLitePreparedStatement {
    type V = CursorModel;

    open spec fn view(&self) -> CursorModel {
        CursorModel {
            sql: self.sql@,
            start: self.position@[0],
            end: self.position@[1],
            done: self.done,
        }
    }
}

/// The outcome that a statement with the given state reports with `values`.
pub open spec fn packed(c: CursorModel, values: Option<ValuesModel>) -> OutcomeModel {
    OutcomeModel::Step(
        TableModel { sql: c.sql, start: c.start, end: c.end, done: c.done, values },
    )
}

/// What a step with result code `code` means: a row, exhaustion, or a failure
/// that carries the code and the engine's message.
pub open spec fn step_meaning(code: i32, message: Seq<char>) -> Result<bool, ErrorModel> {
    if code == SQLITE_DONE {
        Ok(false)
    } else if code == SQLITE_ROW {
        Ok(true)
    } else {
        Err(ErrorModel::Step(code, message))
    }
}

impl SQLitePreparedStatement {
    /// Reports this statement with the given rows.
    pub fn pack(&self, values: Option<SQLiteStatementValues>) -> (r: SQLiteStatementResult)
        ensures
            r@ == packed(self@, option_values_view(values)),
    {
        SQLiteStatementResult::Step(
            SQLiteStatementTable {
                sql: self.sql.clone(),
                position: self.position,
                done: self.done,
                values,
            },
        )
    }

    /// Takes in the result code of one step: `true` for a row, `false` once the rows
    /// are exhausted (the statement is then done), an error for any other code.
    pub fn step(&mut self, code: i32, message: String) -> (r: Result<bool, SQLitendError>)
        ensures
            r is Ok <==> step_meaning(code, message@) is Ok,
            r is Ok ==> r->Ok_0 == step_meaning(code, message@)->Ok_0,
            r is Err ==> r->Err_0@ == step_meaning(code, message@)->Err_0,
            final(self).sql == old(self).sql,
            final(self).position == old(self).position,
            final(self).done == (old(self).done || code == SQLITE_DONE),
    {
        if code == SQLITE_DONE {
            self.done = true;
            Ok(false)
        } else if code == SQLITE_ROW {
            Ok(true)
        } else {
            Err(SQLitendError::Step(InnerError { code, message }))
        }
    }

    /// Takes in one step and, for a row, the columns read from it: the row under its
    /// header, `None` once the rows are exhausted, or the first error.
    pub fn get_one(&mut self, code: i32, message: String, columns: &Vec<NativeColumn>) -> (r: Result<
        Option<SQLiteStatementValues>,
        SQLitendError,
    >)
        ensures
            final(self).sql == old(self).sql,
            final(self).position == old(self).position,
            final(self).done == (old(self).done || code == SQLITE_DONE),
            step_meaning(code, message@) is Err ==> r is Err && r->Err_0@ == step_meaning(
                code,
                message@,
            )->Err_0,
            code == SQLITE_DONE ==> r == Ok::<Option<SQLiteStatementValues>, SQLitendError>(None),
            code == SQLITE_ROW ==> (r is Ok <==> decoded_row(columns@) is Ok),
            code == SQLITE_ROW && r is Ok ==> r->Ok_0 is Some && r->Ok_0->Some_0@ == single_row(
                decoded_row(columns@)->Ok_0.columns,
                decoded_row(columns@)->Ok_0.values,
            ),
            code == SQLITE_ROW && r is Err ==> r->Err_0@ == decoded_row(columns@)->Err_0,
    {
        let row = self.step(code, message)?;
        if !row {
            return Ok(None);
        }
        let (names, vals) = decode_row(columns)?;
        let mut rows: Vec<Vec<ColumnValue>> = Vec::new();
        rows.push(vals);
        let v = SQLiteStatementValues { columns: names, rows };
        assert(rows_view(v.rows@) =~= seq![values_view(v.rows@[0]@)]);
        Ok(Some(v))
    }
}

/// The cursor of a multi-statement text: the byte offset where the next statement
/// starts, within a text of `len` bytes.
#[derive(Debug, Clone, Copy)]
pub struct SQLiteStatements {
    pub tail: usize,
    pub len: usize,
}

impl SQLiteStatements {
    pub open spec fn wf(&self) -> bool {
        self.tail <= self.len
    }

    /// A cursor at the start of a text of `len` bytes.
    pub fn new(len: usize) -> (r: SQLiteStatements)
        ensures
            r.tail == 0,
            r.len == len,
            r.wf(),
    {
        SQLiteStatements { tail: 0, len }
    }
}

/// Whether a compiled statement that the engine reports is consistent with the
/// cursor: its text lies within the remaining text and the new tail after it.
pub open spec fn report_fits(tail: usize, len: usize, sql: Seq<char>, new_tail: usize) -> bool {
    &&& tail + byte_len(sql) <= len
    &&& tail <= new_tail <= len
}

/// What compiling at the cursor yields: the next statement, the end of the
/// sequence, or the engine's error.
pub open spec fn compiled(
    s: SQLiteStatements,
    code: i32,
    message: Seq<char>,
    sql: Option<Seq<char>>,
    new_tail: usize,
) -> Result<Option<CursorModel>, ErrorModel> {
    if code != SQLITE_OK {
        Err(ErrorModel::Prepare(code, message))
    } else {
        match sql {
            None => Ok(None),
            Some(t) => Ok(
                Some(
                    CursorModel {
                        sql: t,
                        start: s.tail,
                        end: (s.tail + byte_len(t)) as usize,
                        done: false,
                    },
                ),
            ),
        }
    }
}

pub open spec fn option_string_view(s: Option<String>) -> Option<Seq<char>> {
    match s {
        Some(x) => Some(x@),
        None => None,
    }
}

impl SQLiteStatements {
    /// Takes in the engine's report on compiling the text at the tail: its result
    /// code and message, the statement's text (none once no statement is left), and
    /// the offset just after the statement.
    pub fn prepare_next(
        &mut self,
        code: i32,
        message: String,
        sql: Option<String>,
        new_tail: usize,
    ) -> (r: Result<Option<SQLitePreparedStatement>, SQLitendError>)
        requires
            old(self).wf(),
            code == SQLITE_OK && sql is Some ==> report_fits(
                old(self).tail,
                old(self).len,
                sql->Some_0@,
                new_tail,
            ),
        ensures
            final(self).wf(),
            final(self).len == old(self).len,
            r is Ok <==> compiled(*old(self), code, message@, option_string_view(sql), new_tail) is Ok,
            r is Err ==> r->Err_0@ == compiled(
                *old(self),
                code,
                message@,
                option_string_view(sql),
                new_tail,
            )->Err_0,
            r is Ok ==> (r->Ok_0 is Some <==> sql is Some),
            r is Ok && r->Ok_0 is Some ==> Some(r->Ok_0->Some_0@) == compiled(
                *old(self),
                code,
                message@,
                option_string_view(sql),
                new_tail,
            )->Ok_0,
            r is Ok && r->Ok_0 is Some ==> final(self).tail == new_tail,
            !(r is Ok && r->Ok_0 is Some) ==> final(self).tail == old(self).tail,
    {
        if code != SQLITE_OK {
            return Err(SQLitendError::Prepare(InnerError { code, message }));
        }
        match sql {
            None => Ok(None),
            Some(text) => {
                let n = text.as_str().as_bytes().len();
                let start = self.tail;
                let end = start + n;
                self.tail = new_tail;
                Ok(Some(SQLitePreparedStatement { sql: text, position: [start, end], done: false }))
            },
        }
    }
}

} // verus!
