//! The requests a admin can send to the service

use vstd::prelude::*;
use crate::auth::requests::{RawSetUserRolePayload, SetUserRolePayload};
use crate::valid::convert::FromRaw;
use crate::valid::ValidationError;

verus! {

/// An address on the network, of either version of the protocol, as the
/// bytes it is made of.
#[derive(Clone, Copy, PartialEq, Eq, Debug)]
pub enum IpAddress {
    V4([u8; 4]),
    V6([u8; 16]),
}

/// The address to ban or to let in again
#[derive(Clone, Copy, PartialEq, Eq, Debug)]
pub struct IpAddrPayload {
    pub ip: IpAddress,
}

/// The requests of an administrator, as they come off the wire.
#[derive(Clone, Copy, PartialEq, Debug)]
pub enum RawAdminRequest<'a> {
    BanIp(IpAddrPayload),
    UnbanIp(IpAddrPayload),
    SetUserRole(RawSetUserRolePayload<'a>),
}

/// The requests of an administrator, with every payload checked.
#[derive(PartialEq, Debug)]
pub enum AdminRequest {
    BanIp(IpAddrPayload),
    UnbanIp(IpAddrPayload),
    SetUserRole(SetUserRolePayload),
}

impl<'a> FromRaw<RawAdminRequest<'a>> for AdminRequest {
    open spec fn refusal(raw: RawAdminRequest<'a>) -> Option<ValidationError> {
        match raw {
            RawAdminRequest::BanIp(_) => None,
            RawAdminRequest::UnbanIp(_) => None,
            RawAdminRequest::SetUserRole(p) => SetUserRolePayload::refusal(p),
        }
    }

    open spec fn made_of(&self, raw: RawAdminRequest<'a>) -> bool {
        match (*self, raw) {
            (AdminRequest::BanIp(v), RawAdminRequest::BanIp(p)) => v == p,
            (AdminRequest::UnbanIp(v), RawAdminRequest::UnbanIp(p)) => v == p,
            (AdminRequest::SetUserRole(v), RawAdminRequest::SetUserRole(p)) => v.made_of(p),
            _ => false,
        }
    }

    fn from_raw(raw: RawAdminRequest<'a>) -> (made: Result<Self, ValidationError>) {
        Self::try_from(raw)
    }
}

impl AdminRequest {
    /// Converts the payload of whichever variant `raw` is, and keeps the
    /// variant. No payload of an administrator's request is held to a rule,
    /// so the conversion always succeeds.
    pub fn try_from<'a>(raw: RawAdminRequest<'a>) -> (made: Result<Self, ValidationError>)
        ensures
            match made {
                Ok(value) => Self::refusal(raw) is None && value.made_of(raw),
                Err(reason) => Self::refusal(raw) == Some(reason),
            },
    {
        match raw {
            RawAdminRequest::BanIp(p) => Ok(AdminRequest::BanIp(p)),
            RawAdminRequest::UnbanIp(p) => Ok(AdminRequest::UnbanIp(p)),
            RawAdminRequest::SetUserRole(p) => match SetUserRolePayload::try_from(p) {
                Ok(v) => Ok(AdminRequest::SetUserRole(v)),
                Err(reason) => Err(reason),
            },
        }
    }
}

} // verus!
