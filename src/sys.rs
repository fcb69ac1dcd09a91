//! Decoding the C library's error numbers.
use vstd::prelude::*;

verus! {

/// The general kind of an input or output error.
#[derive(PartialEq, Eq, Structural, Clone, Copy, Debug, Hash)]
pub enum ErrorKind {
    NotFound,
    PermissionDenied,
    ConnectionRefused,
    ConnectionReset,
    ConnectionAborted,
    NotConnected,
    AddrInUse,
    AddrNotAvailable,
    BrokenPipe,
    AlreadyExists,
    WouldBlock,
    InvalidInput,
    TimedOut,
    Interrupted,
    Other,
}

pub const EPERM: i32 = 1;
pub const ENOENT: i32 = 2;
pub const EINTR: i32 = 4;
pub const EAGAIN: i32 = 11;
pub const EWOULDBLOCK: i32 = EAGAIN;
pub const EACCES: i32 = 13;
pub const EEXIST: i32 = 17;
pub const EINVAL: i32 = 22;
pub const EPIPE: i32 = 32;
pub const EADDRINUSE: i32 = 98;
pub const EADDRNOTAVAIL: i32 = 99;
pub const ECONNABORTED: i32 = 103;
pub const ECONNRESET: i32 = 104;
pub const ENOTCONN: i32 = 107;
pub const ETIMEDOUT: i32 = 110;
pub const ECONNREFUSED: i32 = 111;

/// The kind of error an error number stands for.
pub open spec fn kind_of(errno: i32) -> ErrorKind {
    if errno == ECONNREFUSED {
        ErrorKind::ConnectionRefused
    } else if errno == ECONNRESET {
        ErrorKind::ConnectionReset
    } else if errno == EPERM || errno == EACCES {
        ErrorKind::PermissionDenied
    } else if errno == EPIPE {
        ErrorKind::BrokenPipe
    } else if errno == ENOTCONN {
        ErrorKind::NotConnected
    } else if errno == ECONNABORTED {
        ErrorKind::ConnectionAborted
    } else if errno == EADDRNOTAVAIL {
        ErrorKind::AddrNotAvailable
    } else if errno == EADDRINUSE {
        ErrorKind::AddrInUse
    } else if errno == ENOENT {
        ErrorKind::NotFound
    } else if errno == EINTR {
        ErrorKind::Interrupted
    } else if errno == EINVAL {
        ErrorKind::InvalidInput
    } else if errno == ETIMEDOUT {
        ErrorKind::TimedOut
    } else if errno == EEXIST {
        ErrorKind::AlreadyExists
    } else if errno == EAGAIN || errno == EWOULDBLOCK {
        ErrorKind::WouldBlock
    } else {
        ErrorKind::Other
    }
}

pub fn decode_error_kind(errno: i32) -> (r: ErrorKind)
    ensures
        r == kind_of(errno),
{
    if errno == ECONNREFUSED {
        ErrorKind::ConnectionRefused
    } else if errno == ECONNRESET {
        ErrorKind::ConnectionReset
    } else if errno == EPERM || errno == EACCES {
        ErrorKind::PermissionDenied
    } else if errno == EPIPE {
        ErrorKind::BrokenPipe
    } else if errno == ENOTCONN {
        ErrorKind::NotConnected
    } else if errno == ECONNABORTED {
        ErrorKind::ConnectionAborted
    } else if errno == EADDRNOTAVAIL {
        ErrorKind::AddrNotAvailable
    } else if errno == EADDRINUSE {
        ErrorKind::AddrInUse
    } else if errno == ENOENT {
        ErrorKind::NotFound
    } else if errno == EINTR {
        ErrorKind::Interrupted
    } else if errno == EINVAL {
        ErrorKind::InvalidInput
    } else if errno == ETIMEDOUT {
        ErrorKind::TimedOut
    } else if errno == EEXIST {
        ErrorKind::AlreadyExists
    } else if errno == EAGAIN || errno == EWOULDBLOCK {
        ErrorKind::WouldBlock
    } else {
        ErrorKind::Other
    }
}

} // verus!
