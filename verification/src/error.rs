//! The error kinds a batch run can report.

use vstd::prelude::*;

verus! {

/// Why a batch run, or one address within it, failed.
///
/// `MalformedQuery` is batch-fatal and is reported before any network
/// activity. `InvalidAddress`, `ConnectFailure`, `HandshakeFailure` and
/// `Timeout` are scoped to a single address; the batch aggregation turns the
/// first of them into the whole batch's error. `SchedulingFailure` means the
/// execution environment itself could not run a task, which is more severe
/// than any network failure.
#[derive(Clone, Copy, Debug, PartialEq, Eq, Structural)]
pub enum ScrapeError {
    MalformedQuery,
    InvalidAddress,
    ConnectFailure,
    HandshakeFailure,
    Timeout,
    SchedulingFailure,
}

impl ScrapeError {
    /// A short human-readable description of the error kind.
    pub fn describe(&self) -> (r: &'static str)
        ensures
            r@ == self.describe_spec(),
    {
        match self {
            ScrapeError::MalformedQuery => "malformed selector query",
            ScrapeError::InvalidAddress => "address could not be parsed",
            ScrapeError::ConnectFailure => "connection could not be established",
            ScrapeError::HandshakeFailure => "security handshake failed",
            ScrapeError::Timeout => "request timed out",
            ScrapeError::SchedulingFailure => "task could not be scheduled",
        }
    }

    /// What `describe` returns for each kind.
    pub open spec fn describe_spec(self) -> Seq<char> {
        match self {
            ScrapeError::MalformedQuery => "malformed selector query"@,
            ScrapeError::InvalidAddress => "address could not be parsed"@,
            ScrapeError::ConnectFailure => "connection could not be established"@,
            ScrapeError::HandshakeFailure => "security handshake failed"@,
            ScrapeError::Timeout => "request timed out"@,
            ScrapeError::SchedulingFailure => "task could not be scheduled"@,
        }
    }
}

} // verus!
