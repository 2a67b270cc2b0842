use vstd::prelude::*;

use crate::error::{ErrorModel, FailureModel, InnerError, SQLitendError, WorkerError};
use crate::statement::{
    absorb, absorb_values, byte_len, option_string_view, option_values_view, outcomes_view,
    packed, report_fits, single_row, CursorModel, OutcomeModel, SQLitePreparedStatement,
    SQLiteStatementResult, SQLiteStatementValues, SQLiteStatements, ValuesModel, SQLITE_DONE,
    SQLITE_OK, SQLITE_ROW,
};
use crate::value::{decoded_row, NativeColumn};
use crate::vfs::{check_import_db, import_check};

verus! {

/// Where a session's database lives: a file name, and whether it is kept in the
/// persistent pool (or else in memory).
#[derive(Debug, Clone)]
pub struct OpenOptions {
    pub filename: String,
    pub persist: bool,
}

/// A stepping operation on a prepared text.
#[derive(Debug, Clone, Copy, PartialEq, Eq, Structural)]
pub enum Operation {
    Continue,
    StepOver,
    StepIn,
    StepOut,
}

/// The operation in flight on a prepared text, with what it has gathered so far.
#[derive(Debug, Clone)]
pub enum Task {
    Ready,
    Running {
        op: Operation,
        row_by_row: bool,
        outs: Vec<SQLiteStatementResult>,
        acc: Option<SQLiteStatementValues>,
    },
}

/// Whether a text is prepared, and if so where its sequence stands.
#[derive(Debug, Clone)]
pub enum Execution {
    Idle,
    Prepared {
        statements: SQLiteStatements,
        current: Option<SQLitePreparedStatement>,
        task: Task,
    },
}

/// One logical connection: its options, whether an engine handle is open, and
/// the state of execution.
#[derive(Debug, Clone)]
pub struct Session {
    pub open_options: OpenOptions,
    pub opened: bool,
    pub execution: Execution,
}

/// What the engine reports back for an action.
#[derive(Debug, Clone)]
pub enum EngineEvent {
    /// The result of compiling at the tail: code, message, the statement's text
    /// (none when no statement is left) and the offset just after it.
    Compiled { code: i32, message: String, sql: Option<String>, tail: usize },
    /// The result of one step of the live statement, with the columns of the row
    /// when the code reports one.
    Stepped { code: i32, message: String, columns: Vec<NativeColumn> },
}

/// What a finished operation hands back.
#[derive(Debug, Clone)]
pub enum Reply {
    Outcomes(Vec<SQLiteStatementResult>),
    Outcome(SQLiteStatementResult),
    Entered,
}

/// What the engine must do next for a session, or the reply that ends an operation.
#[derive(Debug)]
pub enum Action {
    /// Compile the next statement starting at this byte offset of the text.
    Compile(usize),
    /// Advance the live statement by one row.
    Step,
    Reply(Result<Reply, WorkerError>),
}

pub enum TaskModel {
    Ready,
    Running { op: Operation, row_by_row: bool, outs: Seq<OutcomeModel>, acc: Option<ValuesModel> },
}

pub enum ExecModel {
    Idle,
    Prepared { tail: usize, len: usize, current: Option<CursorModel>, task: TaskModel },
}

pub struct SessionModel {
    pub filename: Seq<char>,
    pub persist: bool,
    pub opened: bool,
    pub execution: ExecModel,
}

pub enum EventModel {
    Compiled { code: i32, message: Seq<char>, sql: Option<Seq<char>>, tail: usize },
    Stepped { code: i32, message: Seq<char>, columns: Seq<NativeColumn> },
}

pub enum ReplyModel {
    Outcomes(Seq<OutcomeModel>),
    Outcome(OutcomeModel),
    Entered,
}

pub enum ActionModel {
    Compile(usize),
    Step,
    Reply(Result<ReplyModel, FailureModel>),
}

impl View for Task {
    type V = TaskModel;

    open spec fn view(&self) -> TaskModel {
        match self {
            Task::Ready => TaskModel::Ready,
            Task::Running { op, row_by_row, outs, acc } => TaskModel::Running {
                op: *op,
                row_by_row: *row_by_row,
                outs: outcomes_view(outs@),
                acc: option_values_view(*acc),
            },
        }
    }
}

pub open spec fn option_cursor_view(c: Option<SQLitePreparedStatement>) -> Option<CursorModel> {
    match c {
        Some(x) => Some(x@),
        None => None,
    }
}

impl View for Execution {
    type V = ExecModel;

    open spec fn view(&self) -> ExecModel {
        match self {
            Execution::Idle => ExecModel::Idle,
            Execution::Prepared { statements, current, task } => ExecModel::Prepared {
                tail: statements.tail,
                len: statements.len,
                current: option_cursor_view(*current),
                task: task@,
            },
        }
    }
}

impl View for Session {
    type V = SessionModel;

    open spec fn view(&self) -> SessionModel {
        SessionModel {
            filename: self.open_options.filename@,
            persist: self.open_options.persist,
            opened: self.opened,
            execution: self.execution@,
        }
    }
}

impl View for EngineEvent {
    type V = EventModel;

    open spec fn view(&self) -> EventModel {
        match self {
            EngineEvent::Compiled { code, message, sql, tail } => EventModel::Compiled {
                code: *code,
                message: message@,
                sql: option_string_view(*sql),
                tail: *tail,
            },
            EngineEvent::Stepped { code, message, columns } => EventModel::Stepped {
                code: *code,
                message: message@,
                columns: columns@,
            },
        }
    }
}

impl View for Reply {
    type V = ReplyModel;

    open spec fn view(&self) -> ReplyModel {
        match self {
            Reply::Outcomes(v) => ReplyModel::Outcomes(outcomes_view(v@)),
            Reply::Outcome(o) => ReplyModel::Outcome(o@),
            Reply::Entered => ReplyModel::Entered,
        }
    }
}

impl View for Action {
    type V = ActionModel;

    open spec fn view(&self) -> ActionModel {
        match self {
            Action::Compile(t) => ActionModel::Compile(*t),
            Action::Step => ActionModel::Step,
            Action::Reply(Ok(r)) => ActionModel::Reply(Ok(r@)),
            Action::Reply(Err(e)) => ActionModel::Reply(Err(e@)),
        }
    }
}

pub open spec fn with_exec(s: SessionModel, e: ExecModel) -> SessionModel {
    SessionModel { filename: s.filename, persist: s.persist, opened: s.opened, execution: e }
}

/// The operation is refused; nothing changes.
pub open spec fn refused(s: SessionModel, e: FailureModel) -> (SessionModel, ActionModel) {
    (s, ActionModel::Reply(Err(e)))
}

/// The operation fails; the prepared text is abandoned.
pub open spec fn failed(s: SessionModel, e: FailureModel) -> (SessionModel, ActionModel) {
    (with_exec(s, ExecModel::Idle), ActionModel::Reply(Err(e)))
}

pub open spec fn replied(s: SessionModel, e: ExecModel, r: ReplyModel) -> (SessionModel, ActionModel) {
    (with_exec(s, e), ActionModel::Reply(Ok(r)))
}

/// How a session answers the start of a stepping operation.
pub open spec fn begin_spec(s: SessionModel, op: Operation) -> (SessionModel, ActionModel) {
    match s.execution {
        ExecModel::Idle => refused(s, FailureModel::InvaildState),
        ExecModel::Prepared { tail, len, current, task } => match task {
            TaskModel::Running { .. } => refused(s, FailureModel::InvaildState),
            TaskModel::Ready => {
                let by_row = op == Operation::StepOver && current is Some;
                let run = with_exec(
                    s,
                    ExecModel::Prepared {
                        tail,
                        len,
                        current,
                        task: TaskModel::Running { op, row_by_row: by_row, outs: seq![], acc: None },
                    },
                );
                if op == Operation::StepIn && current is Some {
                    refused(s, FailureModel::InvaildState)
                } else if op == Operation::StepOut && current is None {
                    refused(s, FailureModel::InvaildState)
                } else if current is Some {
                    (run, ActionModel::Step)
                } else {
                    (run, ActionModel::Compile(tail))
                }
            },
        },
    }
}

/// How a session takes in the result of a step of its live statement.
pub open spec fn stepped_spec(
    s: SessionModel,
    tail: usize,
    len: usize,
    c: CursorModel,
    op: Operation,
    row_by_row: bool,
    outs: Seq<OutcomeModel>,
    acc: Option<ValuesModel>,
    code: i32,
    message: Seq<char>,
    columns: Seq<NativeColumn>,
) -> (SessionModel, ActionModel) {
    if code == SQLITE_ROW {
        match decoded_row(columns) {
            Err(e) => failed(s, FailureModel::SQLite(e)),
            Ok(row) => {
                let v = single_row(row.columns, row.values);
                if row_by_row {
                    replied(
                        s,
                        ExecModel::Prepared { tail, len, current: Some(c), task: TaskModel::Ready },
                        ReplyModel::Outcome(packed(c, Some(v))),
                    )
                } else {
                    (
                        with_exec(
                            s,
                            ExecModel::Prepared {
                                tail,
                                len,
                                current: Some(c),
                                task: TaskModel::Running {
                                    op,
                                    row_by_row,
                                    outs,
                                    acc: Some(absorb(acc, v)),
                                },
                            },
                        ),
                        ActionModel::Step,
                    )
                }
            },
        }
    } else if code == SQLITE_DONE {
        let o = packed(CursorModel { done: true, ..c }, acc);
        if op == Operation::Continue {
            (
                with_exec(
                    s,
                    ExecModel::Prepared {
                        tail,
                        len,
                        current: None,
                        task: TaskModel::Running {
                            op,
                            row_by_row: false,
                            outs: outs.push(o),
                            acc: None,
                        },
                    },
                ),
                ActionModel::Compile(tail),
            )
        } else if op == Operation::StepIn {
            failed(s, FailureModel::Unexpected)
        } else {
            replied(
                s,
                ExecModel::Prepared { tail, len, current: None, task: TaskModel::Ready },
                ReplyModel::Outcome(o),
            )
        }
    } else {
        failed(s, FailureModel::SQLite(ErrorModel::Step(code, message)))
    }
}

/// How a session takes in the result of compiling at its tail.
pub open spec fn compiled_spec(
    s: SessionModel,
    tail: usize,
    len: usize,
    op: Operation,
    outs: Seq<OutcomeModel>,
    code: i32,
    message: Seq<char>,
    sql: Option<Seq<char>>,
    new_tail: usize,
) -> (SessionModel, ActionModel) {
    if code != SQLITE_OK {
        failed(s, FailureModel::SQLite(ErrorModel::Prepare(code, message)))
    } else {
        match sql {
            None => if op == Operation::Continue {
                replied(s, ExecModel::Idle, ReplyModel::Outcomes(outs.push(OutcomeModel::Finish)))
            } else if op == Operation::StepOver {
                replied(s, ExecModel::Idle, ReplyModel::Outcome(OutcomeModel::Finish))
            } else if op == Operation::StepIn {
                replied(
                    s,
                    ExecModel::Prepared { tail, len, current: None, task: TaskModel::Ready },
                    ReplyModel::Entered,
                )
            } else {
                failed(s, FailureModel::Unexpected)
            },
            Some(t) => if !report_fits(tail, len, t, new_tail) || op == Operation::StepOut {
                failed(s, FailureModel::Unexpected)
            } else {
                let c = CursorModel {
                    sql: t,
                    start: tail,
                    end: (tail + byte_len(t)) as usize,
                    done: false,
                };
                if op == Operation::StepIn {
                    replied(
                        s,
                        ExecModel::Prepared {
                            tail: new_tail,
                            len,
                            current: Some(c),
                            task: TaskModel::Ready,
                        },
                        ReplyModel::Entered,
                    )
                } else {
                    (
                        with_exec(
                            s,
                            ExecModel::Prepared {
                                tail: new_tail,
                                len,
                                current: Some(c),
                                task: TaskModel::Running {
                                    op,
                                    row_by_row: false,
                                    outs,
                                    acc: None,
                                },
                            },
                        ),
                        ActionModel::Step,
                    )
                }
            },
        }
    }
}

/// How a session takes in what the engine reports for the action it asked for.
pub open spec fn feed_spec(s: SessionModel, ev: EventModel) -> (SessionModel, ActionModel) {
    match s.execution {
        ExecModel::Idle => refused(s, FailureModel::Unexpected),
        ExecModel::Prepared { tail, len, current, task } => match task {
            TaskModel::Ready => refused(s, FailureModel::Unexpected),
            TaskModel::Running { op, row_by_row, outs, acc } => match ev {
                EventModel::Stepped { code, message, columns } => match current {
                    None => failed(s, FailureModel::Unexpected),
                    Some(c) => stepped_spec(
                        s,
                        tail,
                        len,
                        c,
                        op,
                        row_by_row,
                        outs,
                        acc,
                        code,
                        message,
                        columns,
                    ),
                },
                EventModel::Compiled { code, message, sql, tail: new_tail } => match current {
                    Some(_) => failed(s, FailureModel::Unexpected),
                    None => compiled_spec(s, tail, len, op, outs, code, message, sql, new_tail),
                },
            },
        },
    }
}

/// The session's invariant: a prepared text needs an open handle and a cursor
/// within the text; a row-by-row step needs a live statement.
pub open spec fn model_wf(s: SessionModel) -> bool {
    match s.execution {
        ExecModel::Idle => true,
        ExecModel::Prepared { tail, len, current, task } => {
            &&& s.opened
            &&& tail <= len
            &&& match task {
                TaskModel::Running { row_by_row, .. } => row_by_row ==> current is Some,
                TaskModel::Ready => true,
            }
        },
    }
}

impl Session {
    pub open spec fn wf(&self) -> bool {
        model_wf(self@)
    }

    /// A session on a freshly opened handle, with nothing prepared.
    pub fn new(open_options: OpenOptions) -> (r: Session)
        ensures
            r@ == (SessionModel {
                filename: open_options.filename@,
                persist: open_options.persist,
                opened: true,
                execution: ExecModel::Idle,
            }),
            r.wf(),
    {
        Session { open_options, opened: true, execution: Execution::Idle }
    }

    /// Starts a stepping operation; the action says what the engine must do first.
    pub fn begin(&mut self, op: Operation) -> (r: Action)
        requires
            old(self).wf(),
        ensures
            final(self).wf(),
            (final(self)@, r@) == begin_spec(old(self)@, op),
            final(self).open_options == old(self).open_options,
    {
        let mut ex = Execution::Idle;
        std::mem::swap(&mut ex, &mut self.execution);
        match ex {
            Execution::Idle => {
                self.execution = Execution::Idle;
                Action::Reply(Err(WorkerError::InvaildState))
            },
            Execution::Prepared { statements, current, task } => {
                match task {
                    Task::Running { .. } => {
                        self.execution = Execution::Prepared { statements, current, task };
                        Action::Reply(Err(WorkerError::InvaildState))
                    },
                    Task::Ready => {
                        let live = current.is_some();
                        if (op == Operation::StepIn && live) || (op == Operation::StepOut && !live) {
                            self.execution = Execution::Prepared { statements, current, task: Task::Ready };
                            return Action::Reply(Err(WorkerError::InvaildState));
                        }
                        let by_row = op == Operation::StepOver && live;
                        let tail = statements.tail;
                        self.execution = Execution::Prepared {
                            statements,
                            current,
                            task: Task::Running { op, row_by_row: by_row, outs: Vec::new(), acc: None },
                        };
                        proof {
                            assert(outcomes_view(Seq::<SQLiteStatementResult>::empty()) =~= seq![]);
                        }
                        if live {
                            Action::Step
                        } else {
                            Action::Compile(tail)
                        }
                    },
                }
            },
        }
    }
}

impl Session {
    /// Takes in what the engine reports for the action this session asked for; the
    /// result is the next action, or the reply that ends the operation.
    pub fn feed(&mut self, ev: EngineEvent) -> (r: Action)
        requires
            old(self).wf(),
        ensures
            final(self).wf(),
            (final(self)@, r@) == feed_spec(old(self)@, ev@),
            final(self).open_options == old(self).open_options,
    {
        let mut ex = Execution::Idle;
        std::mem::swap(&mut ex, &mut self.execution);
        match ex {
            Execution::Idle => Action::Reply(Err(WorkerError::Unexpected)),
            Execution::Prepared { statements, current, task } => match task {
                Task::Ready => {
                    self.execution = Execution::Prepared { statements, current, task: Task::Ready };
                    Action::Reply(Err(WorkerError::Unexpected))
                },
                Task::Running { op, row_by_row, outs, acc } => match ev {
                    EngineEvent::Stepped { code, message, columns } => match current {
                        None => Action::Reply(Err(WorkerError::Unexpected)),
                        Some(c) => self.take_step(
                            statements,
                            c,
                            op,
                            row_by_row,
                            outs,
                            acc,
                            code,
                            message,
                            &columns,
                        ),
                    },
                    EngineEvent::Compiled { code, message, sql, tail } => match current {
                        Some(_) => Action::Reply(Err(WorkerError::Unexpected)),
                        None => self.take_compile(statements, op, outs, code, message, sql, tail),
                    },
                },
            },
        }
    }

    fn take_step(
        &mut self,
        statements: SQLiteStatements,
        c: SQLitePreparedStatement,
        op: Operation,
        row_by_row: bool,
        outs: Vec<SQLiteStatementResult>,
        acc: Option<SQLiteStatementValues>,
        code: i32,
        message: String,
        columns: &Vec<NativeColumn>,
    ) -> (r: Action)
        requires
            statements.wf(),
            old(self).opened,
        ensures
            (final(self)@, r@) == stepped_spec(
                old(self)@,
                statements.tail,
                statements.len,
                c@,
                op,
                row_by_row,
                outcomes_view(outs@),
                option_values_view(acc),
                code,
                message@,
                columns@,
            ),
            final(self).wf(),
            final(self).open_options == old(self).open_options,
    {
        let mut c = c;
        let ghost c0 = c@;
        match c.get_one(code, message, columns) {
            Err(e) => {
                self.execution = Execution::Idle;
                Action::Reply(Err(WorkerError::SQLite(e)))
            },
            Ok(Some(v)) => {
                if row_by_row {
                    let o = c.pack(Some(v));
                    self.execution = Execution::Prepared {
                        statements,
                        current: Some(c),
                        task: Task::Ready,
                    };
                    Action::Reply(Ok(Reply::Outcome(o)))
                } else {
                    let merged = absorb_values(acc, v);
                    self.execution = Execution::Prepared {
                        statements,
                        current: Some(c),
                        task: Task::Running { op, row_by_row, outs, acc: Some(merged) },
                    };
                    Action::Step
                }
            },
            Ok(None) => {
                let o = c.pack(acc);
                if op == Operation::Continue {
                    let mut outs = outs;
                    let ghost before = outs@;
                    outs.push(o);
                    assert(outcomes_view(outs@) =~= outcomes_view(before).push(o@));
                    let tail = statements.tail;
                    self.execution = Execution::Prepared {
                        statements,
                        current: None,
                        task: Task::Running { op, row_by_row: false, outs, acc: None },
                    };
                    Action::Compile(tail)
                } else if op == Operation::StepIn {
                    self.execution = Execution::Idle;
                    Action::Reply(Err(WorkerError::Unexpected))
                } else {
                    self.execution = Execution::Prepared {
                        statements,
                        current: None,
                        task: Task::Ready,
                    };
                    Action::Reply(Ok(Reply::Outcome(o)))
                }
            },
        }
    }

    fn take_compile(
        &mut self,
        statements: SQLiteStatements,
        op: Operation,
        outs: Vec<SQLiteStatementResult>,
        code: i32,
        message: String,
        sql: Option<String>,
        new_tail: usize,
    ) -> (r: Action)
        requires
            statements.wf(),
            old(self).opened,
        ensures
            (final(self)@, r@) == compiled_spec(
                old(self)@,
                statements.tail,
                statements.len,
                op,
                outcomes_view(outs@),
                code,
                message@,
                option_string_view(sql),
                new_tail,
            ),
            final(self).wf(),
            final(self).open_options == old(self).open_options,
    {
        if code != SQLITE_OK {
            self.execution = Execution::Idle;
            return Action::Reply(Err(WorkerError::SQLite(SQLitendError::Prepare(InnerError { code, message }))));
        }
        let fits = match &sql {
            Some(t) => {
                let n = t.as_str().as_bytes().len();
                assert(n == byte_len(t@));
                n <= statements.len - statements.tail && statements.tail <= new_tail
                    && new_tail <= statements.len
            },
            None => true,
        };
        assert(sql is Some ==> (fits == report_fits(statements.tail, statements.len, sql->Some_0@, new_tail)));
        if sql.is_some() && (!fits || op == Operation::StepOut) {
            self.execution = Execution::Idle;
            return Action::Reply(Err(WorkerError::Unexpected));
        }
        let mut statements = statements;
        match statements.prepare_next(code, message, sql, new_tail) {
            Err(e) => {
                self.execution = Execution::Idle;
                Action::Reply(Err(WorkerError::SQLite(e)))
            },
            Ok(None) => {
                if op == Operation::Continue {
                    let mut outs = outs;
                    let ghost before = outs@;
                    outs.push(SQLiteStatementResult::Finish);
                    assert(outcomes_view(outs@) =~= outcomes_view(before).push(OutcomeModel::Finish));
                    self.execution = Execution::Idle;
                    Action::Reply(Ok(Reply::Outcomes(outs)))
                } else if op == Operation::StepOver {
                    self.execution = Execution::Idle;
                    Action::Reply(Ok(Reply::Outcome(SQLiteStatementResult::Finish)))
                } else if op == Operation::StepIn {
                    self.execution = Execution::Prepared { statements, current: None, task: Task::Ready };
                    Action::Reply(Ok(Reply::Entered))
                } else {
                    self.execution = Execution::Idle;
                    Action::Reply(Err(WorkerError::Unexpected))
                }
            },
            Ok(Some(c)) => {
                if op == Operation::StepIn {
                    self.execution = Execution::Prepared {
                        statements,
                        current: Some(c),
                        task: Task::Ready,
                    };
                    Action::Reply(Ok(Reply::Entered))
                } else {
                    self.execution = Execution::Prepared {
                        statements,
                        current: Some(c),
                        task: Task::Running { op, row_by_row: false, outs, acc: None },
                    };
                    Action::Step
                }
            },
        }
    }
}

/// A change to the backing file of a session, on the file system its options name.
#[derive(Debug, Clone)]
pub enum StorageAction {
    /// Remove the file.
    Delete,
    /// Write these bytes as the whole file; the page size is that of their header.
    Import { data: Vec<u8>, page_size: usize },
}

pub enum StorageModel {
    Delete,
    Import(Seq<u8>),
}

impl View for StorageAction {
    type V = StorageModel;

    open spec fn view(&self) -> StorageModel {
        match self {
            StorageAction::Delete => StorageModel::Delete,
            StorageAction::Import { data, .. } => StorageModel::Import(data@),
        }
    }
}

pub open spec fn storage_view(acts: Seq<StorageAction>) -> Seq<StorageModel> {
    acts.map_values(|a: StorageAction| a@)
}

/// The files of one file system after a change to `filename`.
pub open spec fn apply_storage(
    store: Map<Seq<char>, Seq<u8>>,
    filename: Seq<char>,
    a: StorageModel,
) -> Map<Seq<char>, Seq<u8>> {
    match a {
        StorageModel::Delete => store.remove(filename),
        StorageModel::Import(d) => store.insert(filename, d),
    }
}

/// The files of one file system after the changes, in order, to `filename`.
pub open spec fn apply_all(
    store: Map<Seq<char>, Seq<u8>>,
    filename: Seq<char>,
    acts: Seq<StorageModel>,
) -> Map<Seq<char>, Seq<u8>>
    decreases acts.len(),
{
    if acts.len() == 0 {
        store
    } else {
        apply_all(apply_storage(store, filename, acts[0]), filename, acts.drop_first())
    }
}

/// The session with its handle closed and nothing prepared.
pub open spec fn closed(s: SessionModel) -> SessionModel {
    SessionModel { filename: s.filename, persist: s.persist, opened: false, execution: ExecModel::Idle }
}

/// The session on a freshly opened handle, with nothing prepared.
pub open spec fn reopened(s: SessionModel) -> SessionModel {
    SessionModel { filename: s.filename, persist: s.persist, opened: true, execution: ExecModel::Idle }
}

/// A text of `len` bytes prepared from its start.
pub open spec fn prepared(s: SessionModel, len: usize) -> SessionModel {
    with_exec(
        s,
        ExecModel::Prepared { tail: 0, len, current: None, task: TaskModel::Ready },
    )
}

impl Session {
    /// Closes the engine handle; whatever was prepared is dropped.
    pub fn discard_handle(&mut self)
        ensures
            final(self)@ == closed(old(self)@),
            final(self).wf(),
            final(self).open_options == old(self).open_options,
    {
        self.opened = false;
        self.execution = Execution::Idle;
    }

    /// Records that a fresh engine handle was opened on the session's options.
    pub fn attach_handle(&mut self)
        ensures
            final(self)@ == reopened(old(self)@),
            final(self).wf(),
            final(self).open_options == old(self).open_options,
    {
        self.opened = true;
        self.execution = Execution::Idle;
    }

    /// Starts a run over a text of `len` bytes. Fails when no handle is open.
    pub fn prepare(&mut self, len: usize) -> (r: Result<(), WorkerError>)
        requires
            old(self).wf(),
        ensures
            final(self).wf(),
            final(self).open_options == old(self).open_options,
            old(self).opened ==> r is Ok && final(self)@ == prepared(old(self)@, len),
            !old(self).opened ==> r is Err && r->Err_0@ == FailureModel::InvaildState && final(self)@ == old(self)@,
    {
        if !self.opened {
            return Err(WorkerError::InvaildState);
        }
        self.execution = Execution::Prepared {
            statements: SQLiteStatements::new(len),
            current: None,
            task: Task::Ready,
        };
        Ok(())
    }

    /// What must happen to storage before a run: with `clear_on_prepare` the file is
    /// removed and the handle closed, to be opened afresh. Fails when no handle is open.
    pub fn begin_prepare(&mut self, clear_on_prepare: bool) -> (r: Result<
        Vec<StorageAction>,
        WorkerError,
    >)
        requires
            old(self).wf(),
        ensures
            final(self).wf(),
            final(self).open_options == old(self).open_options,
            !old(self).opened ==> r is Err && r->Err_0@ == FailureModel::InvaildState && final(self)@ == old(self)@,
            old(self).opened && clear_on_prepare ==> r is Ok && storage_view(r->Ok_0@) == seq![
                StorageModel::Delete,
            ] && final(self)@ == closed(old(self)@),
            old(self).opened && !clear_on_prepare ==> r is Ok && r->Ok_0@.len() == 0 && final(self)@ == old(self)@,
    {
        if !self.opened {
            return Err(WorkerError::InvaildState);
        }
        let mut acts: Vec<StorageAction> = Vec::new();
        if clear_on_prepare {
            self.discard_handle();
            acts.push(StorageAction::Delete);
            assert(storage_view(acts@) =~= seq![StorageModel::Delete]);
        }
        Ok(acts)
    }

    /// What must happen to storage to replace the file with `data`: the image is
    /// checked, then the file is removed and written anew, and the handle closed, to
    /// be opened afresh. A refused image changes nothing.
    pub fn begin_load(&mut self, data: Vec<u8>) -> (r: Result<Vec<StorageAction>, WorkerError>)
        requires
            old(self).wf(),
        ensures
            final(self).wf(),
            final(self).open_options == old(self).open_options,
            import_check(data@) is Err ==> r is Err && r->Err_0@ == FailureModel::LoadDb(
                import_check(data@)->Err_0.message_spec(),
            ) && final(self)@ == old(self)@,
            import_check(data@) is Ok ==> r is Ok && storage_view(r->Ok_0@) == seq![
                StorageModel::Delete,
                StorageModel::Import(data@),
            ] && final(self)@ == closed(old(self)@),
    {
        match check_import_db(data.as_slice()) {
            Err(e) => Err(WorkerError::LoadDb(e.message())),
            Ok(page_size) => {
                self.discard_handle();
                let mut acts: Vec<StorageAction> = Vec::new();
                acts.push(StorageAction::Delete);
                acts.push(StorageAction::Import { data, page_size });
                assert(storage_view(acts@) =~= seq![
                    StorageModel::Delete,
                    StorageModel::Import(data@),
                ]);
                Ok(acts)
            },
        }
    }
}

} // verus!
