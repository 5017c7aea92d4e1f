//! The datainpulse vendor adapter: a whitelist keyed by the raw IP,
//! addressed with HTTP basic authentication. This vendor returns no
//! entry record worth keeping — a register attempt only succeeds,
//! conflicts, or fails — so its configuration tracks a plain
//! registered-or-not flag instead of an entry.

use vstd::prelude::*;

use crate::adapter::{AdapterError, RegisterClass, SkipReason, VendorReply};

verus! {

/// This vendor reports "already whitelisted" as a 409 on register.
pub open spec fn register_conflict(status: u16) -> bool {
    status == 409
}

/// How a register attempt against this vendor ends, given the target
/// IP and what the exchange produced.
pub open spec fn register_class(target: Seq<char>, reply: VendorReply<()>) -> RegisterClass {
    if target.len() == 0 {
        RegisterClass::Skipped(SkipReason::EmptyTarget)
    } else {
        match reply {
            VendorReply::AuthMissing => RegisterClass::Skipped(SkipReason::AuthMissing),
            VendorReply::TransportError => RegisterClass::Failed(AdapterError::TransportError),
            VendorReply::Reply { status, body } => if crate::adapter::is_success(status) {
                RegisterClass::Registered
            } else if register_conflict(status) {
                RegisterClass::Conflict
            } else {
                RegisterClass::Failed(AdapterError::VendorRejected(status))
            },
        }
    }
}

/// Decide one register exchange: `register(ip)` for this vendor.
/// There is no entry to parse; the body of a success is only logged.
pub fn register_outcome(target: &str, reply: VendorReply<()>) -> (r: RegisterClass)
    ensures
        r == register_class(target@, reply),
{
    if target.is_empty() {
        return RegisterClass::Skipped(SkipReason::EmptyTarget);
    }
    match reply {
        VendorReply::AuthMissing => RegisterClass::Skipped(SkipReason::AuthMissing),
        VendorReply::TransportError => RegisterClass::Failed(AdapterError::TransportError),
        VendorReply::Reply { status, body: _ } => {
            if 200 <= status && status < 300 {
                RegisterClass::Registered
            } else if status == 409 {
                RegisterClass::Conflict
            } else {
                RegisterClass::Failed(AdapterError::VendorRejected(status))
            }
        },
    }
}

} // verus!
