//! Turning I/O results into storage errors that say what failed.

use vstd::prelude::*;
use crate::error_source::any_error_of_io;
use crate::errors::{ErrorSubject, ErrorVerb, SnapshotSignature, StorageError};
use crate::log_id::LogId;

verus! {

/// `r` turned into a storage result: the value is kept, an I/O error becomes a storage
/// error about `subject` while doing `verb`.
pub open spec fn is_storage_result<T>(
    r: Result<T, std::io::Error>,
    o: Result<T, StorageError>,
    subject: ErrorSubject,
    verb: ErrorVerb,
) -> bool {
    match r {
        Ok(t) => o == Ok::<T, StorageError>(t),
        Err(_) => o matches Err(e) && e.subject == subject && e.verb == verb,
    }
}

fn sto_map<T>(r: Result<T, std::io::Error>, subject: ErrorSubject, verb: ErrorVerb) -> (o: Result<
    T,
    StorageError,
>)
    ensures
        is_storage_result(r, o, subject, verb),
{
    match r {
        Ok(t) => Ok(t),
        Err(e) => Err(StorageError::new(subject, verb, any_error_of_io(&e))),
    }
}

/// Conversions of an I/O result into a storage result, one per kind of storage
/// operation.
pub trait StorageIOResult<T>: Sized {
    /// The I/O result itself.
    spec fn io_result(&self) -> Result<T, std::io::Error>;

    /// Writing the log entry `log_id` failed.
    fn sto_write_log_entry(self, log_id: LogId) -> (o: Result<T, StorageError>)
        ensures
            is_storage_result(self.io_result(), o, ErrorSubject::Log(log_id), ErrorVerb::Write),
    ;

    /// Reading the log entry `log_id` failed.
    fn sto_read_log_entry(self, log_id: LogId) -> (o: Result<T, StorageError>)
        ensures
            is_storage_result(self.io_result(), o, ErrorSubject::Log(log_id), ErrorVerb::Read),
    ;

    /// Reading the log entry at `log_index` failed.
    fn sto_read_log_at_index(self, log_index: u64) -> (o: Result<T, StorageError>)
        ensures
            is_storage_result(
                self.io_result(),
                o,
                ErrorSubject::LogIndex(log_index),
                ErrorVerb::Read,
            ),
    ;

    /// Writing log entries failed.
    fn sto_write_logs(self) -> (o: Result<T, StorageError>)
        ensures
            is_storage_result(self.io_result(), o, ErrorSubject::Logs, ErrorVerb::Write),
    ;

    /// Reading log entries failed.
    fn sto_read_logs(self) -> (o: Result<T, StorageError>)
        ensures
            is_storage_result(self.io_result(), o, ErrorSubject::Logs, ErrorVerb::Read),
    ;

    /// Writing the vote failed.
    fn sto_write_vote(self) -> (o: Result<T, StorageError>)
        ensures
            is_storage_result(self.io_result(), o, ErrorSubject::Vote, ErrorVerb::Write),
    ;

    /// Reading the vote failed.
    fn sto_read_vote(self) -> (o: Result<T, StorageError>)
        ensures
            is_storage_result(self.io_result(), o, ErrorSubject::Vote, ErrorVerb::Read),
    ;

    /// Applying the log entry `log_id` failed.
    fn sto_apply(self, log_id: LogId) -> (o: Result<T, StorageError>)
        ensures
            is_storage_result(self.io_result(), o, ErrorSubject::Apply(log_id), ErrorVerb::Write),
    ;

    /// Writing the state machine failed.
    fn sto_write_sm(self) -> (o: Result<T, StorageError>)
        ensures
            is_storage_result(self.io_result(), o, ErrorSubject::StateMachine, ErrorVerb::Write),
    ;

    /// Reading the state machine failed.
    fn sto_read_sm(self) -> (o: Result<T, StorageError>)
        ensures
            is_storage_result(self.io_result(), o, ErrorSubject::StateMachine, ErrorVerb::Read),
    ;

    /// Writing the snapshot `signature` failed.
    fn sto_write_snapshot(self, signature: Option<SnapshotSignature>) -> (o: Result<T, StorageError>)
        ensures
            is_storage_result(
                self.io_result(),
                o,
                ErrorSubject::Snapshot(signature),
                ErrorVerb::Write,
            ),
    ;

    /// Reading the snapshot `signature` failed.
    fn sto_read_snapshot(self, signature: Option<SnapshotSignature>) -> (o: Result<T, StorageError>)
        ensures
            is_storage_result(
                self.io_result(),
                o,
                ErrorSubject::Snapshot(signature),
                ErrorVerb::Read,
            ),
    ;

    /// Reading from the store failed.
    fn sto_read(self) -> (o: Result<T, StorageError>)
        ensures
            is_storage_result(self.io_result(), o, ErrorSubject::Store, ErrorVerb::Read),
    ;

    /// Writing to the store failed.
    fn sto_write(self) -> (o: Result<T, StorageError>)
        ensures
            is_storage_result(self.io_result(), o, ErrorSubject::Store, ErrorVerb::Write),
    ;
}

impl<T> StorageIOResult<T> for Result<T, std::io::Error> {
    open spec fn io_result(&self) -> Result<T, std::io::Error> {
        *self
    }

    fn sto_write_log_entry(self, log_id: LogId) -> (o: Result<T, StorageError>) {
        sto_map(self, ErrorSubject::Log(log_id), ErrorVerb::Write)
    }

    fn sto_read_log_entry(self, log_id: LogId) -> (o: Result<T, StorageError>) {
        sto_map(self, ErrorSubject::Log(log_id), ErrorVerb::Read)
    }

    fn sto_read_log_at_index(self, log_index: u64) -> (o: Result<T, StorageError>) {
        sto_map(self, ErrorSubject::LogIndex(log_index), ErrorVerb::Read)
    }

    fn sto_write_logs(self) -> (o: Result<T, StorageError>) {
        sto_map(self, ErrorSubject::Logs, ErrorVerb::Write)
    }

    fn sto_read_logs(self) -> (o: Result<T, StorageError>) {
        sto_map(self, ErrorSubject::Logs, ErrorVerb::Read)
    }

    fn sto_write_vote(self) -> (o: Result<T, StorageError>) {
        sto_map(self, ErrorSubject::Vote, ErrorVerb::Write)
    }

    fn sto_read_vote(self) -> (o: Result<T, StorageError>) {
        sto_map(self, ErrorSubject::Vote, ErrorVerb::Read)
    }

    fn sto_apply(self, log_id: LogId) -> (o: Result<T, StorageError>) {
        sto_map(self, ErrorSubject::Apply(log_id), ErrorVerb::Write)
    }

    fn sto_write_sm(self) -> (o: Result<T, StorageError>) {
        sto_map(self, ErrorSubject::StateMachine, ErrorVerb::Write)
    }

    fn sto_read_sm(self) -> (o: Result<T, StorageError>) {
        sto_map(self, ErrorSubject::StateMachine, ErrorVerb::Read)
    }

    fn sto_write_snapshot(self, signature: Option<SnapshotSignature>) -> (o: Result<T, StorageError>) {
        sto_map(self, ErrorSubject::Snapshot(signature), ErrorVerb::Write)
    }

    fn sto_read_snapshot(self, signature: Option<SnapshotSignature>) -> (o: Result<T, StorageError>) {
        sto_map(self, ErrorSubject::Snapshot(signature), ErrorVerb::Read)
    }

    fn sto_read(self) -> (o: Result<T, StorageError>) {
        sto_map(self, ErrorSubject::Store, ErrorVerb::Read)
    }

    fn sto_write(self) -> (o: Result<T, StorageError>) {
        sto_map(self, ErrorSubject::Store, ErrorVerb::Write)
    }
}

} // verus!
