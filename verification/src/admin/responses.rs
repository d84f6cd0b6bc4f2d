//! The responses a admin will get from requests to the service

use vstd::prelude::*;

verus! {

/// All the successful responses to an `AdminRequest`
#[derive(Clone, Copy, PartialEq, Eq, Structural, Debug)]
pub enum AdminSuccess {
    IpBanned,
    IpUnbanned,
    ChangedRole,
}

/// All the unsuccessful responses to an `AdminRequest`
#[derive(Clone, Copy, PartialEq, Eq, Structural, Debug)]
pub enum AdminError {
    InternalError,
}

} // verus!
