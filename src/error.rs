use vstd::prelude::*;

verus! {

/// An error code together with the message that the engine gave for it.
#[derive(Debug, Clone)]
pub struct InnerError {
    pub code: i32,
    pub message: String,
}

/// Failures of the engine layer: opening, compiling, stepping and decoding.
#[derive(Debug, Clone)]
pub enum SQLitendError {
    ToCStr,
    OpenDb(InnerError),
    Prepare(InnerError),
    Step(InnerError),
    GetColumnName(String),
    Utf8Text,
    UnsupportColumnType(i32),
}

/// Failures reported to the caller of a session operation.
#[derive(Debug, Clone)]
pub enum WorkerError {
    SQLite(SQLitendError),
    NotOpened,
    NotFound,
    InvaildState,
    OpfsSAHPoolOpened,
    LoadDb(String),
    DownloadDb(String),
    Unexpected,
}

/// An engine-layer error with its text as a sequence of characters.
pub enum ErrorModel {
    ToCStr,
    OpenDb(i32, Seq<char>),
    Prepare(i32, Seq<char>),
    Step(i32, Seq<char>),
    GetColumnName(Seq<char>),
    Utf8Text,
    UnsupportColumnType(i32),
}

impl View for SQLitendError {
    type V = ErrorModel;

    open spec fn view(&self) -> ErrorModel {
        match self {
            SQLitendError::ToCStr => ErrorModel::ToCStr,
            SQLitendError::OpenDb(e) => ErrorModel::OpenDb(e.code, e.message@),
            SQLitendError::Prepare(e) => ErrorModel::Prepare(e.code, e.message@),
            SQLitendError::Step(e) => ErrorModel::Step(e.code, e.message@),
            SQLitendError::GetColumnName(m) => ErrorModel::GetColumnName(m@),
            SQLitendError::Utf8Text => ErrorModel::Utf8Text,
            SQLitendError::UnsupportColumnType(c) => ErrorModel::UnsupportColumnType(*c),
        }
    }
}

/// A caller-facing error with its text as a sequence of characters.
pub enum FailureModel {
    SQLite(ErrorModel),
    NotOpened,
    NotFound,
    InvaildState,
    OpfsSAHPoolOpened,
    LoadDb(Seq<char>),
    DownloadDb(Seq<char>),
    Unexpected,
}

impl View for WorkerError {
    type V = FailureModel;

    open spec fn view(&self) -> FailureModel {
        match self {
            WorkerError::SQLite(e) => FailureModel::SQLite(e@),
            WorkerError::NotOpened => FailureModel::NotOpened,
            WorkerError::NotFound => FailureModel::NotFound,
            WorkerError::InvaildState => FailureModel::InvaildState,
            WorkerError::OpfsSAHPoolOpened => FailureModel::OpfsSAHPoolOpened,
            WorkerError::LoadDb(m) => FailureModel::LoadDb(m@),
            WorkerError::DownloadDb(m) => FailureModel::DownloadDb(m@),
            WorkerError::Unexpected => FailureModel::Unexpected,
        }
    }
}

} // verus!
