/// Error types of the engine layer and of session operations.
pub mod error;
/// Proved properties of runs, stepping, opening and loading.
pub mod laws;
/// Sessions by id.
pub mod registry;
/// One session's execution state machine and its storage operations.
pub mod session;
/// Editor and layout settings.
pub mod state;
/// Statement outcomes, the stepped statement and the statement sequence.
pub mod statement;
/// Column decoding.
pub mod value;
/// File-system names, URIs, pool capacity and database image checks.
pub mod vfs;
