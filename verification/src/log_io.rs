//! Log store I/O requests, log store metadata, the core's bookkeeping and the answer
//! to a client write.

use vstd::prelude::*;
use crate::log_id::LogId;
use crate::membership::Membership;
use crate::vote::Vote;

verus! {

/// The metadata of a log store: the last vote, and the last purged, committed and
/// stored log ids.
#[derive(Debug, Clone, Copy, Default, PartialEq, Eq)]
pub struct LogMetaV3 {
    pub vote: Option<Vote>,
    pub purged: Option<LogId>,
    pub committed: Option<LogId>,
    pub last: Option<LogId>,
}

/// An I/O request to a log store, applied in order.
#[derive(Debug)]
pub enum LogIO<E> {
    /// Save the metadata.
    Meta(LogMetaV3),
    /// Purge the logs up to and including this log id.
    Purge(LogId),
    /// Truncate the logs from and including this log id.
    Truncate(LogId),
    /// Append the entries.
    Append(Vec<E>),
}

impl<E> LogIO<E> {
    /// A request to save `meta`.
    pub fn meta(meta: LogMetaV3) -> (r: Self)
        ensures
            r == LogIO::<E>::Meta(meta),
    {
        LogIO::Meta(meta)
    }

    /// A request to purge up to `upto`.
    pub fn purge(upto: LogId) -> (r: Self)
        ensures
            r == LogIO::<E>::Purge(upto),
    {
        LogIO::Purge(upto)
    }

    /// A request to truncate from `from`.
    pub fn truncate(from: LogId) -> (r: Self)
        ensures
            r == LogIO::<E>::Truncate(from),
    {
        LogIO::Truncate(from)
    }

    /// A request to append `entries`.
    pub fn append(entries: Vec<E>) -> (r: Self)
        ensures
            r matches LogIO::Append(v) && v@ == entries@,
    {
        LogIO::Append(entries)
    }
}

/// What the core keeps beside consensus: the log id of the last snapshot attempt, so a
/// declined snapshot is not tried again at once.
#[derive(Debug, Clone, Copy, Default, PartialEq, Eq)]
pub struct CoreState {
    pub snapshot_tried_at: Option<LogId>,
}

/// The answer to a client write: the log id it was applied at, the application's
/// response, and the membership if the entry changed it.
#[derive(Debug)]
pub struct ClientWriteResponse<R> {
    pub log_id: LogId,
    pub data: R,
    pub membership: Option<Membership>,
}

impl<R> ClientWriteResponse<R> {
    /// The answer to an application request applied at `log_id`.
    pub fn new_app_response(log_id: LogId, data: R) -> (r: Self)
        ensures
            r.log_id == log_id,
            r.data == data,
            r.membership.is_none(),
    {
        ClientWriteResponse { log_id, data, membership: None }
    }

    /// The log id the request was applied at.
    pub fn log_id(&self) -> (r: &LogId)
        ensures
            *r == self.log_id,
    {
        &self.log_id
    }

    /// The application's response.
    pub fn response(&self) -> (r: &R)
        ensures
            *r == self.data,
    {
        &self.data
    }

    /// The membership, if the entry changed it.
    pub fn membership(&self) -> (r: &Option<Membership>)
        ensures
            *r == self.membership,
    {
        &self.membership
    }
}

} // verus!
