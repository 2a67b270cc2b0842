use sqlight::error::{SQLitendError, WorkerError};
use sqlight::registry::SessionRegistry;
use sqlight::session::{Action, EngineEvent, OpenOptions, Operation, Reply, Session, StorageAction};
use sqlight::statement::{
    absorb_values, SQLitePreparedStatement, SQLiteStatementResult, SQLiteStatementValues,
    SQLiteStatements, SQLITE_DONE, SQLITE_OK, SQLITE_ROW,
};
use sqlight::value::{
    column_kind, decode_column_name, decode_row, decode_value, ColumnKind, ColumnValue,
    NativeColumn, NativeValue,
};
use sqlight::vfs::{capacity_growth, check_import_db, open_growth, uri, ImportDbError};

fn options(persist: bool) -> OpenOptions {
    OpenOptions { filename: "test.db".to_string(), persist }
}

fn compiled(sql: &str, tail: usize) -> EngineEvent {
    EngineEvent::Compiled { code: SQLITE_OK, message: String::new(), sql: Some(sql.to_string()), tail }
}

fn exhausted() -> EngineEvent {
    EngineEvent::Compiled { code: SQLITE_OK, message: String::new(), sql: None, tail: 0 }
}

fn row(cols: Vec<(&str, NativeValue)>) -> EngineEvent {
    EngineEvent::Stepped {
        code: SQLITE_ROW,
        message: String::new(),
        columns: cols
            .into_iter()
            .map(|(n, v)| NativeColumn { name: Some(n.as_bytes().to_vec()), value: v })
            .collect(),
    }
}

fn done() -> EngineEvent {
    EngineEvent::Stepped { code: SQLITE_DONE, message: String::new(), columns: vec![] }
}

fn table(o: &SQLiteStatementResult) -> &sqlight::statement::SQLiteStatementTable {
    match o {
        SQLiteStatementResult::Step(t) => t,
        SQLiteStatementResult::Finish => panic!("expected a statement outcome"),
    }
}

fn prepared_session(sql: &str) -> Session {
    let mut s = Session::new(options(false));
    s.prepare(sql.len()).unwrap();
    s
}

#[test]
fn column_kind_by_code() {
    assert_eq!(column_kind(1).unwrap(), ColumnKind::Integer);
    assert_eq!(column_kind(2).unwrap(), ColumnKind::Float);
    assert_eq!(column_kind(3).unwrap(), ColumnKind::Text);
    assert_eq!(column_kind(4).unwrap(), ColumnKind::Blob);
    assert_eq!(column_kind(5).unwrap(), ColumnKind::Null);
    assert!(matches!(column_kind(9), Err(SQLitendError::UnsupportColumnType(9))));
}

#[test]
fn decode_value_kinds() {
    assert_eq!(decode_value(&NativeValue::Null).unwrap(), ColumnValue::Null);
    assert_eq!(decode_value(&NativeValue::Integer(-7)).unwrap(), ColumnValue::Integer(-7));
    let bits = 1.5f64.to_bits();
    assert_eq!(decode_value(&NativeValue::Float(bits)).unwrap(), ColumnValue::Float(bits));
    assert_eq!(
        decode_value(&NativeValue::Text("héllo".as_bytes().to_vec())).unwrap(),
        ColumnValue::Text("héllo".to_string())
    );
    assert_eq!(decode_value(&NativeValue::Blob(vec![0, 255])).unwrap(), ColumnValue::Blob(vec![0, 255]));
}

#[test]
fn decode_value_rejects_bad_text() {
    assert!(matches!(decode_value(&NativeValue::Text(vec![0xff, 0xfe])), Err(SQLitendError::Utf8Text)));
    assert!(matches!(
        decode_value(&NativeValue::Other(42)),
        Err(SQLitendError::UnsupportColumnType(42))
    ));
}

#[test]
fn decode_column_name_cases() {
    assert_eq!(decode_column_name(&Some(b"x".to_vec())).unwrap(), "x");
    match decode_column_name(&None) {
        Err(SQLitendError::GetColumnName(m)) => assert!(m.contains("null pointer")),
        _ => panic!("expected a column name error"),
    }
    match decode_column_name(&Some(vec![0xc3])) {
        Err(SQLitendError::GetColumnName(m)) => assert!(m.contains("not a string")),
        _ => panic!("expected a column name error"),
    }
}

#[test]
fn decode_row_first_error_wins() {
    let cols = vec![
        NativeColumn { name: Some(b"a".to_vec()), value: NativeValue::Integer(1) },
        NativeColumn { name: Some(b"b".to_vec()), value: NativeValue::Text(vec![0xff]) },
        NativeColumn { name: None, value: NativeValue::Null },
    ];
    assert!(matches!(decode_row(&cols), Err(SQLitendError::Utf8Text)));
    let (names, vals) = decode_row(&cols[..1].to_vec()).unwrap();
    assert_eq!(names, vec!["a".to_string()]);
    assert_eq!(vals, vec![ColumnValue::Integer(1)]);
}

#[test]
fn step_codes() {
    let mut st = SQLitePreparedStatement { sql: "SELECT 1;".into(), position: [0, 9], done: false };
    assert_eq!(st.step(SQLITE_ROW, String::new()).unwrap(), true);
    assert!(!st.done);
    match st.step(5, "database is locked".into()) {
        Err(SQLitendError::Step(e)) => {
            assert_eq!(e.code, 5);
            assert_eq!(e.message, "database is locked");
        }
        _ => panic!("expected a step error"),
    }
    assert_eq!(st.step(SQLITE_DONE, String::new()).unwrap(), false);
    assert!(st.done);
}

#[test]
fn get_one_and_pack() {
    let mut st = SQLitePreparedStatement { sql: "SELECT 2 AS y;".into(), position: [3, 17], done: false };
    let cols = vec![NativeColumn { name: Some(b"y".to_vec()), value: NativeValue::Integer(2) }];
    let v = st.get_one(SQLITE_ROW, String::new(), &cols).unwrap().unwrap();
    assert_eq!(v.columns, vec!["y".to_string()]);
    assert_eq!(v.rows, vec![vec![ColumnValue::Integer(2)]]);
    assert!(st.get_one(SQLITE_DONE, String::new(), &cols).unwrap().is_none());
    let packed = st.pack(Some(v));
    let t = table(&packed);
    assert_eq!(t.sql, "SELECT 2 AS y;");
    assert_eq!(t.position, [3, 17]);
    assert!(t.done);
}

#[test]
fn absorb_keeps_first_header() {
    let a = SQLiteStatementValues { columns: vec!["x".into()], rows: vec![vec![ColumnValue::Integer(1)]] };
    let b = SQLiteStatementValues { columns: vec!["x".into()], rows: vec![vec![ColumnValue::Integer(2)]] };
    let m = absorb_values(Some(a), b);
    assert_eq!(m.rows, vec![vec![ColumnValue::Integer(1)], vec![ColumnValue::Integer(2)]]);
    let c = SQLiteStatementValues { columns: vec!["z".into()], rows: vec![] };
    assert_eq!(absorb_values(None, c).columns, vec!["z".to_string()]);
}

#[test]
fn prepare_next_tracks_offsets() {
    let text = "SELECT 1; SELECT 'é';";
    let mut seq = SQLiteStatements::new(text.len());
    let first = seq.prepare_next(SQLITE_OK, String::new(), Some("SELECT 1;".into()), 9).unwrap().unwrap();
    assert_eq!(first.position, [0, 9]);
    assert_eq!(seq.tail, 9);
    let second = seq
        .prepare_next(SQLITE_OK, String::new(), Some(" SELECT 'é';".into()), text.len())
        .unwrap()
        .unwrap();
    assert_eq!(second.position, [9, text.len()]);
    assert!(seq.prepare_next(SQLITE_OK, String::new(), None, text.len()).unwrap().is_none());
    match seq.prepare_next(1, "syntax error".into(), None, 0) {
        Err(SQLitendError::Prepare(e)) => assert_eq!((e.code, e.message.as_str()), (1, "syntax error")),
        _ => panic!("expected a prepare error"),
    }
}

#[test]
fn run_three_statements_to_completion() {
    let sql = "CREATE TABLE t(x); INSERT INTO t VALUES (1); SELECT * FROM t;";
    let mut reg = SessionRegistry::new();
    reg.open("".into(), options(false));
    let acts = reg.begin_prepare("", true).unwrap();
    assert_eq!(acts.len(), 1);
    assert!(matches!(acts[0], StorageAction::Delete));
    reg.attach_handle("").unwrap();
    reg.prepare("", sql.len()).unwrap();
    assert!(matches!(reg.begin("", Operation::Continue), Action::Compile(0)));
    assert!(matches!(reg.feed("", compiled("CREATE TABLE t(x);", 18)), Action::Step));
    assert!(matches!(reg.feed("", done()), Action::Compile(18)));
    assert!(matches!(reg.feed("", compiled(" INSERT INTO t VALUES (1);", 44)), Action::Step));
    assert!(matches!(reg.feed("", done()), Action::Compile(44)));
    assert!(matches!(reg.feed("", compiled(" SELECT * FROM t;", 61)), Action::Step));
    assert!(matches!(reg.feed("", row(vec![("x", NativeValue::Integer(1))])), Action::Step));
    assert!(matches!(reg.feed("", done()), Action::Compile(61)));
    let outs = match reg.feed("", exhausted()) {
        Action::Reply(Ok(Reply::Outcomes(o))) => o,
        _ => panic!("expected the outcomes"),
    };
    assert_eq!(outs.len(), 4);
    assert!(table(&outs[0]).values.is_none());
    assert!(table(&outs[1]).values.is_none());
    assert_eq!(table(&outs[0]).position, [0, 18]);
    assert_eq!(table(&outs[1]).position, [18, 44]);
    assert_eq!(table(&outs[2]).position, [44, 61]);
    let v = table(&outs[2]).values.as_ref().unwrap();
    assert_eq!(v.columns, vec!["x".to_string()]);
    assert_eq!(v.rows, vec![vec![ColumnValue::Integer(1)]]);
    assert!(matches!(outs[3], SQLiteStatementResult::Finish));
    assert!(matches!(reg.begin("", Operation::Continue), Action::Reply(Err(WorkerError::InvaildState))));
}

#[test]
fn step_over_on_idle_is_invalid_state() {
    let mut s = Session::new(options(false));
    assert!(matches!(s.begin(Operation::StepOver), Action::Reply(Err(WorkerError::InvaildState))));
}

#[test]
fn step_in_and_out_need_the_right_state() {
    let mut s = prepared_session("SELECT 1;");
    assert!(matches!(s.begin(Operation::StepOut), Action::Reply(Err(WorkerError::InvaildState))));
    assert!(matches!(s.begin(Operation::StepIn), Action::Compile(0)));
    assert!(matches!(s.feed(compiled("SELECT 1;", 9)), Action::Reply(Ok(Reply::Entered))));
    assert!(matches!(s.begin(Operation::StepIn), Action::Reply(Err(WorkerError::InvaildState))));
    assert!(matches!(s.begin(Operation::StepOut), Action::Step));
    assert!(matches!(s.feed(row(vec![("1", NativeValue::Integer(1))])), Action::Step));
    match s.feed(done()) {
        Action::Reply(Ok(Reply::Outcome(o))) => {
            let t = table(&o);
            assert!(t.done);
            assert_eq!(t.values.as_ref().unwrap().rows.len(), 1);
        }
        _ => panic!("expected the statement's outcome"),
    }
}

#[test]
fn syntax_error_in_second_statement() {
    let mut s = prepared_session("SELECT 1; SELEC 2;");
    assert!(matches!(s.begin(Operation::StepOver), Action::Compile(0)));
    assert!(matches!(s.feed(compiled("SELECT 1;", 9)), Action::Step));
    assert!(matches!(s.feed(row(vec![("1", NativeValue::Integer(1))])), Action::Step));
    match s.feed(done()) {
        Action::Reply(Ok(Reply::Outcome(o))) => assert_eq!(table(&o).sql, "SELECT 1;"),
        _ => panic!("expected the first statement's outcome"),
    }
    assert!(matches!(s.begin(Operation::StepOver), Action::Compile(9)));
    let failed = s.feed(EngineEvent::Compiled {
        code: 1,
        message: "near \"SELEC\": syntax error".into(),
        sql: None,
        tail: 0,
    });
    match failed {
        Action::Reply(Err(WorkerError::SQLite(SQLitendError::Prepare(e)))) => assert_eq!(e.code, 1),
        _ => panic!("expected a prepare error"),
    }
    assert!(matches!(s.begin(Operation::StepOver), Action::Reply(Err(WorkerError::InvaildState))));
}

#[test]
fn syntax_error_aborts_continue() {
    let mut s = prepared_session("SELECT 1; SELEC 2;");
    assert!(matches!(s.begin(Operation::Continue), Action::Compile(0)));
    assert!(matches!(s.feed(compiled("SELECT 1;", 9)), Action::Step));
    assert!(matches!(s.feed(done()), Action::Compile(9)));
    let failed = s.feed(EngineEvent::Compiled { code: 1, message: "syntax error".into(), sql: None, tail: 0 });
    assert!(matches!(failed, Action::Reply(Err(WorkerError::SQLite(SQLitendError::Prepare(_))))));
}

#[test]
fn step_in_then_step_over_matches_direct_step_over() {
    let rows = [1i64, 2, 3];
    let mut a = prepared_session("SELECT x FROM t;");
    assert!(matches!(a.begin(Operation::StepIn), Action::Compile(0)));
    assert!(matches!(a.feed(compiled("SELECT x FROM t;", 16)), Action::Reply(Ok(Reply::Entered))));
    let mut stepped = Vec::new();
    for r in rows {
        assert!(matches!(a.begin(Operation::StepOver), Action::Step));
        match a.feed(row(vec![("x", NativeValue::Integer(r))])) {
            Action::Reply(Ok(Reply::Outcome(o))) => {
                let t = table(&o);
                assert!(!t.done);
                stepped.extend(t.values.as_ref().unwrap().rows.clone());
            }
            _ => panic!("expected one row"),
        }
    }
    assert!(matches!(a.begin(Operation::StepOver), Action::Step));
    match a.feed(done()) {
        Action::Reply(Ok(Reply::Outcome(o))) => {
            assert!(table(&o).done);
            assert!(table(&o).values.is_none());
        }
        _ => panic!("expected the end of the statement"),
    }

    let mut b = prepared_session("SELECT x FROM t;");
    assert!(matches!(b.begin(Operation::StepOver), Action::Compile(0)));
    assert!(matches!(b.feed(compiled("SELECT x FROM t;", 16)), Action::Step));
    for r in rows {
        assert!(matches!(b.feed(row(vec![("x", NativeValue::Integer(r))])), Action::Step));
    }
    let all = match b.feed(done()) {
        Action::Reply(Ok(Reply::Outcome(o))) => table(&o).values.clone().unwrap(),
        _ => panic!("expected the statement's rows"),
    };
    assert_eq!(all.rows, stepped);
    assert_eq!(stepped, vec![
        vec![ColumnValue::Integer(1)],
        vec![ColumnValue::Integer(2)],
        vec![ColumnValue::Integer(3)],
    ]);
}

#[test]
fn step_over_after_last_statement_finishes() {
    let mut s = prepared_session("");
    assert!(matches!(s.begin(Operation::StepOver), Action::Compile(0)));
    assert!(matches!(
        s.feed(exhausted()),
        Action::Reply(Ok(Reply::Outcome(SQLiteStatementResult::Finish)))
    ));
}

#[test]
fn bad_row_fails_the_run() {
    let mut s = prepared_session("SELECT x'ff';");
    assert!(matches!(s.begin(Operation::Continue), Action::Compile(0)));
    assert!(matches!(s.feed(compiled("SELECT x'ff';", 13)), Action::Step));
    let ev = EngineEvent::Stepped {
        code: SQLITE_ROW,
        message: String::new(),
        columns: vec![NativeColumn { name: Some(b"v".to_vec()), value: NativeValue::Other(7) }],
    };
    assert!(matches!(
        s.feed(ev),
        Action::Reply(Err(WorkerError::SQLite(SQLitendError::UnsupportColumnType(7))))
    ));
}

#[test]
fn registry_missing_session() {
    let mut reg = SessionRegistry::new();
    assert!(matches!(reg.begin("nope", Operation::Continue), Action::Reply(Err(WorkerError::NotFound))));
    assert!(matches!(reg.prepare("nope", 3), Err(WorkerError::NotFound)));
    assert!(!reg.close("nope"));
}

#[test]
fn registry_open_twice_is_one_session() {
    let mut reg = SessionRegistry::new();
    reg.open("a".into(), options(true));
    reg.open("a".into(), options(true));
    assert_eq!(reg.ids.len(), 1);
    let o = reg.options("a").unwrap();
    assert_eq!(o.filename, "test.db");
    assert!(o.persist);
    reg.open("b".into(), options(false));
    assert_eq!(reg.ids.len(), 2);
    assert!(reg.close("a"));
    assert!(matches!(reg.options("a"), Err(WorkerError::NotFound)));
    assert!(!reg.options("b").unwrap().persist);
}

#[test]
fn prepare_without_handle_is_invalid_state() {
    let mut s = Session::new(options(false));
    s.discard_handle();
    assert!(matches!(s.prepare(4), Err(WorkerError::InvaildState)));
    assert!(matches!(s.begin_prepare(false), Err(WorkerError::InvaildState)));
    s.attach_handle();
    assert!(s.begin_prepare(false).unwrap().is_empty());
}

fn image(page_field: [u8; 2], len: usize) -> Vec<u8> {
    let mut v = vec![0u8; len];
    v[..15].copy_from_slice(b"SQLite format 3");
    v[16] = page_field[0];
    v[17] = page_field[1];
    v
}

#[test]
fn check_import_db_cases() {
    assert_eq!(check_import_db(&image([0x10, 0x00], 4096)), Ok(4096));
    assert_eq!(check_import_db(&image([0x00, 0x01], 1024)), Ok(65536));
    assert_eq!(check_import_db(&vec![0u8; 100]), Err(ImportDbError::InvalidDbSize));
    assert_eq!(check_import_db(&vec![0u8; 1000]), Err(ImportDbError::InvalidDbSize));
    assert_eq!(check_import_db(&vec![0u8; 1024]), Err(ImportDbError::InvalidHeader));
}

#[test]
fn load_then_reopen() {
    let mut s = Session::new(options(false));
    let data = image([0x10, 0x00], 4096);
    let acts = s.begin_load(data.clone()).unwrap();
    assert_eq!(acts.len(), 2);
    assert!(matches!(acts[0], StorageAction::Delete));
    match &acts[1] {
        StorageAction::Import { data: d, page_size } => {
            assert_eq!(d, &data);
            assert_eq!(*page_size, 4096);
        }
        _ => panic!("expected an import"),
    }
    assert!(!s.opened);
    s.attach_handle();
    assert!(s.opened);
}

#[test]
fn load_refuses_bad_image() {
    let mut s = Session::new(options(true));
    match s.begin_load(vec![1, 2, 3]) {
        Err(WorkerError::LoadDb(m)) => assert_eq!(m, "Byte array size is invalid for an SQLite db."),
        _ => panic!("expected a load error"),
    }
    assert!(s.opened);
}

#[test]
fn uri_selects_file_system() {
    assert_eq!(uri("test.db", true), "file:test.db?vfs=opfs");
    assert_eq!(uri("test.db", false), "file:test.db?vfs=memvfs");
}

#[test]
fn persistent_open_near_capacity_grows_pool() {
    assert_eq!(open_growth(true, 6, 5), 6);
    assert_eq!(open_growth(true, 6, 6), 6);
    assert_eq!(open_growth(true, 10, 2), 0);
    assert_eq!(open_growth(false, 6, 6), 0);
    assert_eq!(capacity_growth(6, 4), 0);
    assert_eq!(capacity_growth(6, 5), 6);
}
