use vstd::prelude::*;

use crate::registry::{fresh, SessionRegistry};
use crate::session::{
    apply_all, begin_spec, closed, feed_spec, prepared, reopened, with_exec, OpenOptions,
    StorageModel, ActionModel, EventModel, ExecModel, Operation,
    ReplyModel, SessionModel, TaskModel,
};
use crate::statement::{
    absorb, byte_len, packed, report_fits, single_row, CursorModel, OutcomeModel, ValuesModel,
    SQLITE_DONE, SQLITE_OK, SQLITE_ROW,
};
use crate::value::{decoded_row, NativeColumn, ValueModel};
use crate::vfs::import_check;

verus! {

/// The engine reports a row with these columns.
pub open spec fn row_event(cols: Seq<NativeColumn>) -> EventModel {
    EventModel::Stepped { code: SQLITE_ROW, message: seq![], columns: cols }
}

/// The engine reports that the live statement has no further row.
pub open spec fn done_event() -> EventModel {
    EventModel::Stepped { code: SQLITE_DONE, message: seq![], columns: seq![] }
}

/// The engine compiled a statement with this text, ending at `tail`.
pub open spec fn compiled_event(sql: Seq<char>, tail: usize) -> EventModel {
    EventModel::Compiled { code: SQLITE_OK, message: seq![], sql: Some(sql), tail }
}

/// The engine found no further statement.
pub open spec fn end_event(tail: usize) -> EventModel {
    EventModel::Compiled { code: SQLITE_OK, message: seq![], sql: None, tail }
}

pub open spec fn row_events(rows: Seq<Seq<NativeColumn>>) -> Seq<EventModel> {
    rows.map_values(|r: Seq<NativeColumn>| row_event(r))
}

/// Every row decodes.
pub open spec fn decodable(rows: Seq<Seq<NativeColumn>>) -> bool {
    forall|i: int| 0 <= i < rows.len() ==> (#[trigger] decoded_row(rows[i])) is Ok
}

/// The values that one decodable row makes.
pub open spec fn row_values(cols: Seq<NativeColumn>) -> ValuesModel {
    single_row(decoded_row(cols)->Ok_0.columns, decoded_row(cols)->Ok_0.values)
}

/// Rows gathered one after the other onto `acc`.
pub open spec fn absorb_all(acc: Option<ValuesModel>, rows: Seq<Seq<NativeColumn>>) -> Option<
    ValuesModel,
>
    decreases rows.len(),
{
    if rows.len() == 0 {
        acc
    } else {
        absorb_all(Some(absorb(acc, row_values(rows[0]))), rows.drop_first())
    }
}

/// The state and the last action after the session takes in `evs` in order.
pub open spec fn run(s: SessionModel, evs: Seq<EventModel>) -> (SessionModel, ActionModel)
    decreases evs.len(),
{
    if evs.len() == 0 {
        (s, ActionModel::Step)
    } else if evs.len() == 1 {
        feed_spec(s, evs[0])
    } else {
        run(feed_spec(s, evs[0]).0, evs.drop_first())
    }
}

proof fn lemma_run_concat(s: SessionModel, a: Seq<EventModel>, b: Seq<EventModel>)
    requires
        a.len() >= 1,
        b.len() >= 1,
    ensures
        run(s, a + b) == run(run(s, a).0, b),
    decreases a.len(),
{
    if a.len() == 1 {
        assert((a + b).drop_first() =~= b);
    } else {
        assert((a + b).drop_first() =~= a.drop_first() + b);
        lemma_run_concat(feed_spec(s, a[0]).0, a.drop_first(), b);
    }
}

/// A statement being drained takes in its rows one by one and keeps asking for the next.
proof fn lemma_drain_rows(
    s: SessionModel,
    tail: usize,
    len: usize,
    c: CursorModel,
    op: Operation,
    outs: Seq<OutcomeModel>,
    acc: Option<ValuesModel>,
    rows: Seq<Seq<NativeColumn>>,
)
    requires
        rows.len() >= 1,
        decodable(rows),
        s.execution == (ExecModel::Prepared {
            tail,
            len,
            current: Some(c),
            task: TaskModel::Running { op, row_by_row: false, outs, acc },
        }),
    ensures
        run(s, row_events(rows)) == (
            with_exec(
                s,
                ExecModel::Prepared {
                    tail,
                    len,
                    current: Some(c),
                    task: TaskModel::Running { op, row_by_row: false, outs, acc: absorb_all(acc, rows) },
                },
            ),
            ActionModel::Step,
        ),
    decreases rows.len(),
{
    let evs = row_events(rows);
    assert(evs[0] == row_event(rows[0]));
    assert(decoded_row(rows[0]) is Ok);
    let acc1 = Some(absorb(acc, row_values(rows[0])));
    let s1 = with_exec(
        s,
        ExecModel::Prepared {
            tail,
            len,
            current: Some(c),
            task: TaskModel::Running { op, row_by_row: false, outs, acc: acc1 },
        },
    );
    assert(feed_spec(s, evs[0]) == (s1, ActionModel::Step));
    let rest = rows.drop_first();
    if rows.len() == 1 {
        assert(rest.len() == 0);
    } else {
        assert(evs.drop_first() =~= row_events(rest));
        assert forall|i: int| 0 <= i < rest.len() implies (#[trigger] decoded_row(rest[i])) is Ok by {
            assert(rest[i] == rows[i + 1]);
        }
        lemma_drain_rows(s1, tail, len, c, op, outs, acc1, rest);
        assert(with_exec(s1, ExecModel::Idle) == with_exec(s, ExecModel::Idle));
    }
}

/// What the engine reports for one statement of a text: its text, the offset just
/// after it, and the columns of each of its rows.
pub struct StatementTrace {
    pub sql: Seq<char>,
    pub tail: usize,
    pub rows: Seq<Seq<NativeColumn>>,
}

/// The statement that compiling at `start` yields, before any step.
pub open spec fn cursor_at(sql: Seq<char>, start: usize) -> CursorModel {
    CursorModel { sql, start, end: (start + byte_len(sql)) as usize, done: false }
}

/// The engine's reports for one statement: compiled, each row, then no further row.
pub open spec fn statement_events(st: StatementTrace) -> Seq<EventModel> {
    seq![compiled_event(st.sql, st.tail)] + row_events(st.rows) + seq![done_event()]
}

/// The engine's reports for a whole text: each statement, then no further statement.
pub open spec fn trace_events(stmts: Seq<StatementTrace>, end: usize) -> Seq<EventModel>
    decreases stmts.len(),
{
    if stmts.len() == 0 {
        seq![end_event(end)]
    } else {
        statement_events(stmts[0]) + trace_events(stmts.drop_first(), end)
    }
}

/// The reports are consistent: each statement lies in the remaining text, each
/// row decodes.
pub open spec fn trace_fits(tail: usize, len: usize, stmts: Seq<StatementTrace>) -> bool
    decreases stmts.len(),
{
    if stmts.len() == 0 {
        true
    } else {
        &&& report_fits(tail, len, stmts[0].sql, stmts[0].tail)
        &&& decodable(stmts[0].rows)
        &&& trace_fits(stmts[0].tail, len, stmts.drop_first())
    }
}

/// The outcome that draining one statement compiled at `start` reports.
pub open spec fn drained(st: StatementTrace, start: usize) -> OutcomeModel {
    packed(CursorModel { done: true, ..cursor_at(st.sql, start) }, absorb_all(None, st.rows))
}

/// The outcomes of a whole run over the statements, the first compiled at `tail`.
pub open spec fn run_outcomes(tail: usize, stmts: Seq<StatementTrace>) -> Seq<OutcomeModel>
    decreases stmts.len(),
{
    if stmts.len() == 0 {
        seq![]
    } else {
        seq![drained(stmts[0], tail)] + run_outcomes(stmts[0].tail, stmts.drop_first())
    }
}

/// A session running `op`, between statements, at `tail`.
pub open spec fn between(
    s: SessionModel,
    tail: usize,
    len: usize,
    op: Operation,
    outs: Seq<OutcomeModel>,
) -> SessionModel {
    with_exec(
        s,
        ExecModel::Prepared {
            tail,
            len,
            current: None,
            task: TaskModel::Running { op, row_by_row: false, outs, acc: None },
        },
    )
}

/// One statement of a run: compiled, drained, and its outcome recorded.
proof fn lemma_run_statement(
    s: SessionModel,
    tail: usize,
    len: usize,
    outs: Seq<OutcomeModel>,
    st: StatementTrace,
)
    requires
        report_fits(tail, len, st.sql, st.tail),
        decodable(st.rows),
    ensures
        run(between(s, tail, len, Operation::Continue, outs), statement_events(st)) == (
            between(s, st.tail, len, Operation::Continue, outs.push(drained(st, tail))),
            ActionModel::Compile(st.tail),
        ),
{
    let s0 = between(s, tail, len, Operation::Continue, outs);
    let c = cursor_at(st.sql, tail);
    let s1 = with_exec(
        s,
        ExecModel::Prepared {
            tail: st.tail,
            len,
            current: Some(c),
            task: TaskModel::Running { op: Operation::Continue, row_by_row: false, outs, acc: None },
        },
    );
    assert(feed_spec(s0, compiled_event(st.sql, st.tail)) == (s1, ActionModel::Step));
    let first = seq![compiled_event(st.sql, st.tail)];
    let last = seq![done_event()];
    let s2 = with_exec(
        s,
        ExecModel::Prepared {
            tail: st.tail,
            len,
            current: Some(c),
            task: TaskModel::Running {
                op: Operation::Continue,
                row_by_row: false,
                outs,
                acc: absorb_all(None, st.rows),
            },
        },
    );
    assert(run(s0, first) == (s1, ActionModel::Step));
    if st.rows.len() == 0 {
        assert(row_events(st.rows) =~= seq![]);
        assert(statement_events(st) =~= first + last);
        lemma_run_concat(s0, first, last);
        assert(s2 == s1);
    } else {
        lemma_drain_rows(s1, st.tail, len, c, Operation::Continue, outs, None, st.rows);
        assert(with_exec(s1, ExecModel::Idle) == with_exec(s, ExecModel::Idle));
        assert(statement_events(st) =~= (first + row_events(st.rows)) + last);
        lemma_run_concat(s0, first + row_events(st.rows), last);
        lemma_run_concat(s0, first, row_events(st.rows));
    }
    assert(feed_spec(s2, done_event()) == (
        between(s, st.tail, len, Operation::Continue, outs.push(drained(st, tail))),
        ActionModel::Compile(st.tail),
    ));
}

/// A whole run: every statement drained in order, then the end of the run.
proof fn lemma_run_text(
    s: SessionModel,
    tail: usize,
    len: usize,
    outs: Seq<OutcomeModel>,
    stmts: Seq<StatementTrace>,
    end: usize,
)
    requires
        trace_fits(tail, len, stmts),
    ensures
        run(between(s, tail, len, Operation::Continue, outs), trace_events(stmts, end)) == (
            with_exec(s, ExecModel::Idle),
            ActionModel::Reply(
                Ok(ReplyModel::Outcomes(outs + run_outcomes(tail, stmts) + seq![OutcomeModel::Finish])),
            ),
        ),
    decreases stmts.len(),
{
    let s0 = between(s, tail, len, Operation::Continue, outs);
    if stmts.len() == 0 {
        assert(outs + run_outcomes(tail, stmts) + seq![OutcomeModel::Finish] =~= outs.push(
            OutcomeModel::Finish,
        ));
        assert(with_exec(s0, ExecModel::Idle) == with_exec(s, ExecModel::Idle));
    } else {
        let st = stmts[0];
        let rest = stmts.drop_first();
        lemma_run_statement(s, tail, len, outs, st);
        let outs1 = outs.push(drained(st, tail));
        lemma_run_text(s, st.tail, len, outs1, rest, end);
        lemma_trace_nonempty(rest, end);
        lemma_run_concat(s0, statement_events(st), trace_events(rest, end));
        assert(outs1 + run_outcomes(st.tail, rest) + seq![OutcomeModel::Finish] =~= outs
            + run_outcomes(tail, stmts) + seq![OutcomeModel::Finish]);
    }
}

proof fn lemma_trace_nonempty(stmts: Seq<StatementTrace>, end: usize)
    ensures
        trace_events(stmts, end).len() >= 1,
    decreases stmts.len(),
{
    if stmts.len() > 0 {
        lemma_trace_nonempty(stmts.drop_first(), end);
    }
}

proof fn lemma_run_outcomes_shape(tail: usize, stmts: Seq<StatementTrace>)
    ensures
        run_outcomes(tail, stmts).len() == stmts.len(),
        forall|i: int|
            0 <= i < stmts.len() ==> (#[trigger] run_outcomes(tail, stmts)[i]) is Step
                && run_outcomes(tail, stmts)[i]->Step_0.sql == stmts[i].sql
                && run_outcomes(tail, stmts)[i]->Step_0.done,
    decreases stmts.len(),
{
    if stmts.len() > 0 {
        let rest = stmts.drop_first();
        lemma_run_outcomes_shape(stmts[0].tail, rest);
        assert forall|i: int| 0 <= i < stmts.len() implies (#[trigger] run_outcomes(
            tail,
            stmts,
        )[i]) is Step && run_outcomes(tail, stmts)[i]->Step_0.sql == stmts[i].sql
            && run_outcomes(tail, stmts)[i]->Step_0.done by {
            if i > 0 {
                assert(run_outcomes(tail, stmts)[i] == run_outcomes(stmts[0].tail, rest)[i - 1]);
                assert(rest[i - 1] == stmts[i]);
            }
        }
    }
}

/// Running a prepared text to completion, where the engine compiles each statement,
/// reports its rows and then no further statement, yields exactly one drained `Step`
/// outcome per statement, in source order, and then one `Finish`; the session is
/// left idle.
pub proof fn lemma_continue_one_step_per_statement(
    s: SessionModel,
    len: usize,
    stmts: Seq<StatementTrace>,
    end: usize,
)
    requires
        trace_fits(0, len, stmts),
    ensures
        begin_spec(prepared(s, len), Operation::Continue) == (
            between(s, 0, len, Operation::Continue, seq![]),
            ActionModel::Compile(0),
        ),
        ({
            let outs = seq![] + run_outcomes(0, stmts) + seq![OutcomeModel::Finish];
            &&& run(between(s, 0, len, Operation::Continue, seq![]), trace_events(stmts, end)) == (
                with_exec(s, ExecModel::Idle),
                ActionModel::Reply(Ok(ReplyModel::Outcomes(outs))),
            )
            &&& outs.len() == stmts.len() + 1
            &&& outs[stmts.len() as int] == OutcomeModel::Finish
            &&& forall|i: int|
                0 <= i < stmts.len() ==> (#[trigger] outs[i]) is Step && outs[i]->Step_0.sql
                    == stmts[i].sql && outs[i]->Step_0.done
        }),
{
    lemma_run_text(s, 0, len, seq![], stmts, end);
    lemma_run_outcomes_shape(0, stmts);
    let outs = seq![] + run_outcomes(0, stmts) + seq![OutcomeModel::Finish];
    assert forall|i: int| 0 <= i < stmts.len() implies (#[trigger] outs[i]) is Step
        && outs[i]->Step_0.sql == stmts[i].sql && outs[i]->Step_0.done by {
        assert(outs[i] == run_outcomes(0, stmts)[i]);
    }
}

/// The decoded values of each row, in order.
pub open spec fn row_stream(rows: Seq<Seq<NativeColumn>>) -> Seq<Seq<ValueModel>> {
    rows.map_values(|r: Seq<NativeColumn>| decoded_row(r)->Ok_0.values)
}

proof fn lemma_absorb_all(acc: ValuesModel, rows: Seq<Seq<NativeColumn>>)
    requires
        decodable(rows),
    ensures
        absorb_all(Some(acc), rows) == Some(
            ValuesModel { columns: acc.columns, rows: acc.rows + row_stream(rows) },
        ),
    decreases rows.len(),
{
    if rows.len() == 0 {
        assert(acc.rows + row_stream(rows) =~= acc.rows);
    } else {
        let rest = rows.drop_first();
        let acc1 = absorb(Some(acc), row_values(rows[0]));
        assert forall|i: int| 0 <= i < rest.len() implies (#[trigger] decoded_row(rest[i])) is Ok by {
            assert(rest[i] == rows[i + 1]);
        }
        lemma_absorb_all(acc1, rest);
        assert(acc1.rows + row_stream(rest) =~= acc.rows + row_stream(rows));
    }
}

/// Gathering a statement's rows in one go keeps the first row's header and every
/// row's values, in order.
proof fn lemma_gathered(rows: Seq<Seq<NativeColumn>>)
    requires
        rows.len() >= 1,
        decodable(rows),
    ensures
        absorb_all(None, rows) == Some(
            ValuesModel { columns: row_values(rows[0]).columns, rows: row_stream(rows) },
        ),
{
    assert(decoded_row(rows[0]) is Ok);
    let rest = rows.drop_first();
    assert forall|i: int| 0 <= i < rest.len() implies (#[trigger] decoded_row(rest[i])) is Ok by {
        assert(rest[i] == rows[i + 1]);
    }
    lemma_absorb_all(row_values(rows[0]), rest);
    assert(row_values(rows[0]).rows + row_stream(rest) =~= row_stream(rows));
}

/// A session whose live statement waits for the next step, with nothing in flight.
pub open spec fn stepping(s: SessionModel, tail: usize, len: usize, c: CursorModel) -> SessionModel {
    with_exec(s, ExecModel::Prepared { tail, len, current: Some(c), task: TaskModel::Ready })
}

/// A session with a prepared text and no live statement, with nothing in flight.
pub open spec fn waiting(s: SessionModel, tail: usize, len: usize) -> SessionModel {
    with_exec(s, ExecModel::Prepared { tail, len, current: None, task: TaskModel::Ready })
}

/// A step over with no live statement compiles the next one and drains it: its
/// outcome holds all of its rows and the session waits at the next statement.
pub proof fn lemma_step_over_drains_statement(
    s: SessionModel,
    tail: usize,
    len: usize,
    st: StatementTrace,
)
    requires
        report_fits(tail, len, st.sql, st.tail),
        decodable(st.rows),
    ensures
        begin_spec(waiting(s, tail, len), Operation::StepOver) == (
            between(s, tail, len, Operation::StepOver, seq![]),
            ActionModel::Compile(tail),
        ),
        run(between(s, tail, len, Operation::StepOver, seq![]), statement_events(st)) == (
            waiting(s, st.tail, len),
            ActionModel::Reply(Ok(ReplyModel::Outcome(drained(st, tail)))),
        ),
{
    let op = Operation::StepOver;
    let s0 = between(s, tail, len, op, seq![]);
    let c = cursor_at(st.sql, tail);
    let s1 = with_exec(
        s,
        ExecModel::Prepared {
            tail: st.tail,
            len,
            current: Some(c),
            task: TaskModel::Running { op, row_by_row: false, outs: seq![], acc: None },
        },
    );
    assert(feed_spec(s0, compiled_event(st.sql, st.tail)) == (s1, ActionModel::Step));
    let first = seq![compiled_event(st.sql, st.tail)];
    let last = seq![done_event()];
    let s2 = with_exec(
        s,
        ExecModel::Prepared {
            tail: st.tail,
            len,
            current: Some(c),
            task: TaskModel::Running {
                op,
                row_by_row: false,
                outs: seq![],
                acc: absorb_all(None, st.rows),
            },
        },
    );
    assert(run(s0, first) == (s1, ActionModel::Step));
    if st.rows.len() == 0 {
        assert(row_events(st.rows) =~= seq![]);
        assert(statement_events(st) =~= first + last);
        lemma_run_concat(s0, first, last);
        assert(s2 == s1);
    } else {
        lemma_drain_rows(s1, st.tail, len, c, op, seq![], None, st.rows);
        assert(with_exec(s1, ExecModel::Idle) == with_exec(s, ExecModel::Idle));
        assert(statement_events(st) =~= (first + row_events(st.rows)) + last);
        lemma_run_concat(s0, first + row_events(st.rows), last);
        lemma_run_concat(s0, first, row_events(st.rows));
    }
}

/// Inside a statement, each step over reports exactly the next row and leaves the
/// statement live; once the rows are exhausted, a step over reports the statement
/// done with no row. Those rows, one after the other, are exactly the rows that a
/// single step over of the whole statement gathers, with the same header.
pub proof fn lemma_step_over_rows_concatenate(
    s: SessionModel,
    tail: usize,
    len: usize,
    st: StatementTrace,
    start: usize,
)
    requires
        st.rows.len() >= 1,
        decodable(st.rows),
    ensures
        begin_spec(stepping(s, tail, len, cursor_at(st.sql, start)), Operation::StepOver).1
            == ActionModel::Step,
        forall|i: int|
            0 <= i < st.rows.len() ==> #[trigger] feed_spec(
                begin_spec(stepping(s, tail, len, cursor_at(st.sql, start)), Operation::StepOver).0,
                row_event(st.rows[i]),
            ) == (
                stepping(s, tail, len, cursor_at(st.sql, start)),
                ActionModel::Reply(
                    Ok(
                        ReplyModel::Outcome(
                            packed(cursor_at(st.sql, start), Some(row_values(st.rows[i]))),
                        ),
                    ),
                ),
            ),
        feed_spec(
            begin_spec(stepping(s, tail, len, cursor_at(st.sql, start)), Operation::StepOver).0,
            done_event(),
        ) == (
            waiting(s, tail, len),
            ActionModel::Reply(
                Ok(
                    ReplyModel::Outcome(
                        packed(CursorModel { done: true, ..cursor_at(st.sql, start) }, None),
                    ),
                ),
            ),
        ),
        forall|i: int| 0 <= i < st.rows.len() ==> #[trigger] row_values(st.rows[i]).rows == seq![
            row_stream(st.rows)[i],
        ],
        drained(st, start) == packed(
            CursorModel { done: true, ..cursor_at(st.sql, start) },
            Some(ValuesModel { columns: row_values(st.rows[0]).columns, rows: row_stream(st.rows) }),
        ),
{
    let c = cursor_at(st.sql, start);
    let r = begin_spec(stepping(s, tail, len, c), Operation::StepOver).0;
    assert(r == with_exec(
        s,
        ExecModel::Prepared {
            tail,
            len,
            current: Some(c),
            task: TaskModel::Running {
                op: Operation::StepOver,
                row_by_row: true,
                outs: seq![],
                acc: None,
            },
        },
    ));
    assert forall|i: int| 0 <= i < st.rows.len() implies #[trigger] feed_spec(r, row_event(st.rows[i]))
        == (
        stepping(s, tail, len, c),
        ActionModel::Reply(Ok(ReplyModel::Outcome(packed(c, Some(row_values(st.rows[i])))))),
    ) by {
        assert(decoded_row(st.rows[i]) is Ok);
    }
    lemma_gathered(st.rows);
}

/// Stepping into a statement compiles it without taking a row; stepping over it
/// row by row afterwards then reports the same rows, in the same order, that a
/// direct step over gathers in one outcome.
pub proof fn lemma_step_in_then_step_over(s: SessionModel, tail: usize, len: usize, st: StatementTrace)
    requires
        report_fits(tail, len, st.sql, st.tail),
        st.rows.len() >= 1,
        decodable(st.rows),
    ensures
        run(
            begin_spec(waiting(s, tail, len), Operation::StepIn).0,
            seq![compiled_event(st.sql, st.tail)],
        ) == (stepping(s, st.tail, len, cursor_at(st.sql, tail)), ActionModel::Reply(
            Ok(ReplyModel::Entered),
        )),
        run(between(s, tail, len, Operation::StepOver, seq![]), statement_events(st)) == (
            waiting(s, st.tail, len),
            ActionModel::Reply(Ok(ReplyModel::Outcome(drained(st, tail)))),
        ),
        forall|i: int|
            0 <= i < st.rows.len() ==> #[trigger] feed_spec(
                begin_spec(stepping(s, st.tail, len, cursor_at(st.sql, tail)), Operation::StepOver).0,
                row_event(st.rows[i]),
            ).1 == ActionModel::Reply(
                Ok(ReplyModel::Outcome(packed(cursor_at(st.sql, tail), Some(row_values(st.rows[i]))))),
            ),
        forall|i: int| 0 <= i < st.rows.len() ==> #[trigger] row_values(st.rows[i]).rows == seq![
            row_stream(st.rows)[i],
        ],
        drained(st, tail)->Step_0.values == Some(
            ValuesModel { columns: row_values(st.rows[0]).columns, rows: row_stream(st.rows) },
        ),
{
    lemma_step_over_drains_statement(s, tail, len, st);
    lemma_step_over_rows_concatenate(s, st.tail, len, st, tail);
    let b = begin_spec(waiting(s, tail, len), Operation::StepIn).0;
    assert(b == between(s, tail, len, Operation::StepIn, seq![]));
}

/// What `SessionRegistry::open` promises: `id` names a fresh session on `o`, and
/// every other id keeps its session.
pub open spec fn opened_from(
    new: SessionRegistry,
    old: SessionRegistry,
    id: Seq<char>,
    o: OpenOptions,
) -> bool {
    &&& new.has(id)
    &&& new.session(id) == fresh(o)
    &&& new.others_kept(&old, id)
}

/// Opening the same id twice with the same options, with nothing in between, leaves
/// every id with the session that the first opening left, and opening asks for no
/// change to any stored file.
pub proof fn lemma_open_twice_changes_nothing(
    a: SessionRegistry,
    b: SessionRegistry,
    c: SessionRegistry,
    id: Seq<char>,
    o: OpenOptions,
    store: Map<Seq<char>, Seq<u8>>,
)
    requires
        opened_from(b, a, id, o),
        opened_from(c, b, id, o),
    ensures
        forall|k: Seq<char>| #[trigger] c.has(k) == b.has(k),
        forall|k: Seq<char>| #[trigger] b.has(k) ==> c.session(k) == b.session(k),
        apply_all(store, o.filename@, seq![]) == store,
{
    assert forall|k: Seq<char>| #[trigger] c.has(k) == b.has(k) by {
        if k != id {
            assert(c.others_kept(&b, id));
        }
    }
    assert forall|k: Seq<char>| #[trigger] b.has(k) implies c.session(k) == b.session(k) by {
        if k != id {
            assert(c.others_kept(&b, id));
            assert(c.has(k) == b.has(k));
        }
    }
}

/// Exporting a session's file and loading the exported bytes straight back leaves
/// the stored files as they were, and the session, once its handle is opened again,
/// as after a fresh open on the same options. This holds for files whose bytes pass
/// the image check; other bytes are refused by the load and change nothing.
pub proof fn lemma_download_then_load_keeps_storage(s: SessionModel, store: Map<Seq<char>, Seq<u8>>)
    requires
        store.contains_key(s.filename),
        import_check(store[s.filename]) is Ok,
    ensures
        apply_all(
            store,
            s.filename,
            seq![StorageModel::Delete, StorageModel::Import(store[s.filename])],
        ) == store,
        reopened(closed(s)) == (SessionModel {
            filename: s.filename,
            persist: s.persist,
            opened: true,
            execution: ExecModel::Idle,
        }),
{
    let acts = seq![StorageModel::Delete, StorageModel::Import(store[s.filename])];
    let st1 = store.remove(s.filename);
    assert(acts.drop_first() =~= seq![StorageModel::Import(store[s.filename])]);
    assert(acts.drop_first().drop_first() =~= seq![]);
    let f = s.filename;
    let st2 = st1.insert(f, store[f]);
    assert(apply_all(st2, f, acts.drop_first().drop_first()) == st2);
    assert(apply_all(st1, f, acts.drop_first()) == apply_all(st2, f, acts.drop_first().drop_first()));
    assert(apply_all(store, f, acts) == apply_all(st1, f, acts.drop_first()));
    assert(st2 =~= store);
}

} // verus!
