//! The closed vocabulary of reply statuses and its wire decoding.

use vstd::prelude::*;
use vstd::string::StringSliceAdditionalSpecFns;

use crate::scan::bytes_eq;

verus! {

/// Every status keyword the server may answer with.  A reply whose first
/// token is none of these is malformed.
#[derive(Debug, Clone, Copy, PartialEq, Eq, Structural)]
pub enum Status {
    Okay,
    Found,
    NotFound,
    Reserved,
    DeadlineSoon,
    TimedOut,
    Deleted,
    Released,
    Buried,
    Kicked,
    Using,
    Watching,
    Touched,
    Inserted,
    NotIgnored,
    OutOfMemory,
    InternalError,
    Draining,
    BadFormat,
    UnknownCommand,
    ExpectedCRLF,
    JobTooBig,
    Paused,
}

/// The keyword bytes the server sends for each status.
pub open spec fn spec_status_token(s: Status) -> Seq<u8> {
    match s {
        Status::Okay => "OK".spec_bytes(),
        Status::Found => "FOUND".spec_bytes(),
        Status::NotFound => "NOT_FOUND".spec_bytes(),
        Status::Reserved => "RESERVED".spec_bytes(),
        Status::DeadlineSoon => "DEADLINE_SOON".spec_bytes(),
        Status::TimedOut => "TIMED_OUT".spec_bytes(),
        Status::Deleted => "DELETED".spec_bytes(),
        Status::Released => "RELEASED".spec_bytes(),
        Status::Buried => "BURIED".spec_bytes(),
        Status::Kicked => "KICKED".spec_bytes(),
        Status::Using => "USING".spec_bytes(),
        Status::Watching => "WATCHING".spec_bytes(),
        Status::Touched => "TOUCHED".spec_bytes(),
        Status::Inserted => "INSERTED".spec_bytes(),
        Status::NotIgnored => "NOT_IGNORED".spec_bytes(),
        Status::OutOfMemory => "OUT_OF_MEMORY".spec_bytes(),
        Status::InternalError => "INTERNAL_ERROR".spec_bytes(),
        Status::Draining => "DRAINING".spec_bytes(),
        Status::BadFormat => "BAD_FORMAT".spec_bytes(),
        Status::UnknownCommand => "UNKNOWN_COMMAND".spec_bytes(),
        Status::ExpectedCRLF => "EXPECTED_CRLF".spec_bytes(),
        Status::JobTooBig => "JOB_TOO_BIG".spec_bytes(),
        Status::Paused => "PAUSED".spec_bytes(),
    }
}

/// The status a reply token decodes to, if any.  The checks are laid out in
/// the same order the decoder tries them; the keywords are pairwise distinct,
/// so the order carries no meaning.
pub open spec fn spec_status_of(t: Seq<u8>) -> Option<Status> {
    if t == spec_status_token(Status::Okay) {
        Some(Status::Okay)
    } else if t == spec_status_token(Status::Found) {
        Some(Status::Found)
    } else if t == spec_status_token(Status::NotFound) {
        Some(Status::NotFound)
    } else if t == spec_status_token(Status::Reserved) {
        Some(Status::Reserved)
    } else if t == spec_status_token(Status::DeadlineSoon) {
        Some(Status::DeadlineSoon)
    } else if t == spec_status_token(Status::TimedOut) {
        Some(Status::TimedOut)
    } else if t == spec_status_token(Status::Deleted) {
        Some(Status::Deleted)
    } else if t == spec_status_token(Status::Released) {
        Some(Status::Released)
    } else if t == spec_status_token(Status::Buried) {
        Some(Status::Buried)
    } else if t == spec_status_token(Status::Kicked) {
        Some(Status::Kicked)
    } else if t == spec_status_token(Status::Using) {
        Some(Status::Using)
    } else if t == spec_status_token(Status::Watching) {
        Some(Status::Watching)
    } else if t == spec_status_token(Status::Touched) {
        Some(Status::Touched)
    } else if t == spec_status_token(Status::Inserted) {
        Some(Status::Inserted)
    } else if t == spec_status_token(Status::NotIgnored) {
        Some(Status::NotIgnored)
    } else if t == spec_status_token(Status::OutOfMemory) {
        Some(Status::OutOfMemory)
    } else if t == spec_status_token(Status::InternalError) {
        Some(Status::InternalError)
    } else if t == spec_status_token(Status::Draining) {
        Some(Status::Draining)
    } else if t == spec_status_token(Status::BadFormat) {
        Some(Status::BadFormat)
    } else if t == spec_status_token(Status::UnknownCommand) {
        Some(Status::UnknownCommand)
    } else if t == spec_status_token(Status::ExpectedCRLF) {
        Some(Status::ExpectedCRLF)
    } else if t == spec_status_token(Status::JobTooBig) {
        Some(Status::JobTooBig)
    } else if t == spec_status_token(Status::Paused) {
        Some(Status::Paused)
    } else {
        None
    }
}

/// The variant name, used in error messages.
pub open spec fn spec_status_label(s: Status) -> Seq<char> {
    match s {
        Status::Okay => "Ok"@,
        Status::Found => "Found"@,
        Status::NotFound => "NotFound"@,
        Status::Reserved => "Reserved"@,
        Status::DeadlineSoon => "DeadlineSoon"@,
        Status::TimedOut => "TimedOut"@,
        Status::Deleted => "Deleted"@,
        Status::Released => "Released"@,
        Status::Buried => "Buried"@,
        Status::Kicked => "Kicked"@,
        Status::Using => "Using"@,
        Status::Watching => "Watching"@,
        Status::Touched => "Touched"@,
        Status::Inserted => "Inserted"@,
        Status::NotIgnored => "NotIgnored"@,
        Status::OutOfMemory => "OutOfMemory"@,
        Status::InternalError => "InternalError"@,
        Status::Draining => "Draining"@,
        Status::BadFormat => "BadFormat"@,
        Status::UnknownCommand => "UnknownCommand"@,
        Status::ExpectedCRLF => "ExpectedCRLF"@,
        Status::JobTooBig => "JobTooBig"@,
        Status::Paused => "Paused"@,
    }
}

impl Status {
    /// Decode a reply token into a status.
    pub fn from_token(t: &[u8]) -> (r: Option<Status>)
        ensures
            r == spec_status_of(t@),
    {
        if bytes_eq(t, "OK".as_bytes()) {
            Some(Status::Okay)
        } else if bytes_eq(t, "FOUND".as_bytes()) {
            Some(Status::Found)
        } else if bytes_eq(t, "NOT_FOUND".as_bytes()) {
            Some(Status::NotFound)
        } else if bytes_eq(t, "RESERVED".as_bytes()) {
            Some(Status::Reserved)
        } else if bytes_eq(t, "DEADLINE_SOON".as_bytes()) {
            Some(Status::DeadlineSoon)
        } else if bytes_eq(t, "TIMED_OUT".as_bytes()) {
            Some(Status::TimedOut)
        } else if bytes_eq(t, "DELETED".as_bytes()) {
            Some(Status::Deleted)
        } else if bytes_eq(t, "RELEASED".as_bytes()) {
            Some(Status::Released)
        } else if bytes_eq(t, "BURIED".as_bytes()) {
            Some(Status::Buried)
        } else if bytes_eq(t, "KICKED".as_bytes()) {
            Some(Status::Kicked)
        } else if bytes_eq(t, "USING".as_bytes()) {
            Some(Status::Using)
        } else if bytes_eq(t, "WATCHING".as_bytes()) {
            Some(Status::Watching)
        } else if bytes_eq(t, "TOUCHED".as_bytes()) {
            Some(Status::Touched)
        } else if bytes_eq(t, "INSERTED".as_bytes()) {
            Some(Status::Inserted)
        } else if bytes_eq(t, "NOT_IGNORED".as_bytes()) {
            Some(Status::NotIgnored)
        } else if bytes_eq(t, "OUT_OF_MEMORY".as_bytes()) {
            Some(Status::OutOfMemory)
        } else if bytes_eq(t, "INTERNAL_ERROR".as_bytes()) {
            Some(Status::InternalError)
        } else if bytes_eq(t, "DRAINING".as_bytes()) {
            Some(Status::Draining)
        } else if bytes_eq(t, "BAD_FORMAT".as_bytes()) {
            Some(Status::BadFormat)
        } else if bytes_eq(t, "UNKNOWN_COMMAND".as_bytes()) {
            Some(Status::UnknownCommand)
        } else if bytes_eq(t, "EXPECTED_CRLF".as_bytes()) {
            Some(Status::ExpectedCRLF)
        } else if bytes_eq(t, "JOB_TOO_BIG".as_bytes()) {
            Some(Status::JobTooBig)
        } else if bytes_eq(t, "PAUSED".as_bytes()) {
            Some(Status::Paused)
        } else {
            None
        }
    }

    /// The variant name, for error messages.
    pub fn label(&self) -> (r: &'static str)
        ensures
            r@ == spec_status_label(*self),
    {
        match self {
            Status::Okay => "Ok",
            Status::Found => "Found",
            Status::NotFound => "NotFound",
            Status::Reserved => "Reserved",
            Status::DeadlineSoon => "DeadlineSoon",
            Status::TimedOut => "TimedOut",
            Status::Deleted => "Deleted",
            Status::Released => "Released",
            Status::Buried => "Buried",
            Status::Kicked => "Kicked",
            Status::Using => "Using",
            Status::Watching => "Watching",
            Status::Touched => "Touched",
            Status::Inserted => "Inserted",
            Status::NotIgnored => "NotIgnored",
            Status::OutOfMemory => "OutOfMemory",
            Status::InternalError => "InternalError",
            Status::Draining => "Draining",
            Status::BadFormat => "BadFormat",
            Status::UnknownCommand => "UnknownCommand",
            Status::ExpectedCRLF => "ExpectedCRLF",
            Status::JobTooBig => "JobTooBig",
            Status::Paused => "Paused",
        }
    }

    /// The index of the body-length parameter for body-bearing statuses.
    pub fn body_length_param(&self) -> (r: Option<usize>)
        ensures
            r == spec_body_length_param(*self),
    {
        match self {
            Status::Okay => Some(0),
            Status::Reserved => Some(1),
            Status::Found => Some(1),
            _ => None,
        }
    }
}

/// Which parameter announces the body length: `OK` carries it first,
/// `RESERVED` and `FOUND` carry the job id first and the length second.
/// Every other status carries no body.
pub open spec fn spec_body_length_param(s: Status) -> Option<usize> {
    match s {
        Status::Okay => Some(0usize),
        Status::Reserved => Some(1usize),
        Status::Found => Some(1usize),
        _ => None,
    }
}

} // verus!
