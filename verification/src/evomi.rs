//! The evomi vendor adapter: an IP-whitelist keyed by the raw IP, with
//! cookie-style token authentication handled outside this crate. This
//! vendor is quirkier than the others about "already whitelisted": it
//! answers 400 with the existing entry in the body, but may also answer
//! a bare 500 on a repeated register, which is likewise treated as
//! idempotent success — with nothing usable in the body.

use vstd::prelude::*;

use crate::adapter::{AdapterError, RegisterClass, RegisterOutcome, SkipReason, VendorReply};

verus! {

/// The vendor's record of a whitelisted IP.
///
/// Fields the vendor did not send stay unset; they are never fabricated.
#[derive(Clone, Debug, PartialEq, Eq, Default)]
pub struct ProxyIP {
    /// The ip address of the request.
    pub ip_address: String,
    /// The id of the whitelist entry.
    pub id: u128,
    /// The created at date, when the vendor reported one.
    pub created_at: Option<String>,
    /// The last used date, when the vendor reported one.
    pub last_used_at: Option<String>,
}

/// An entry holding no information: what a register attempt yields
/// when the vendor's body was missing, malformed, or a bare 500.
pub open spec fn entry_is_empty(e: ProxyIP) -> bool {
    &&& e.ip_address@.len() == 0
    &&& e.id == 0
    &&& e.created_at is None
    &&& e.last_used_at is None
}

impl ProxyIP {
    /// The empty entry substituted when the vendor reported nothing usable.
    pub fn empty() -> (r: ProxyIP)
        ensures
            entry_is_empty(r),
    {
        ProxyIP { ip_address: String::new(), id: 0, created_at: None, last_used_at: None }
    }
}

/// This vendor reports "already whitelisted" as a 400, or as a bare
/// 500 on a repeated register.
pub open spec fn register_conflict(status: u16) -> bool {
    status == 400 || status == 500
}

/// How a register attempt against this vendor ends, given the target
/// IP and what the exchange produced.
pub open spec fn register_class(target: Seq<char>, reply: VendorReply<ProxyIP>) -> RegisterClass {
    if target.len() == 0 {
        RegisterClass::Skipped(SkipReason::EmptyTarget)
    } else {
        match reply {
            VendorReply::AuthMissing => RegisterClass::Skipped(SkipReason::AuthMissing),
            VendorReply::TransportError => RegisterClass::Failed(AdapterError::TransportError),
            VendorReply::Reply { status, body } => if crate::adapter::is_success(status) {
                RegisterClass::Registered
            } else if register_conflict(status) {
                RegisterClass::Conflict
            } else {
                RegisterClass::Failed(AdapterError::VendorRejected(status))
            },
        }
    }
}

/// The entry a successful or conflicting register attempt hands back.
/// A success or a 400 carries the parsed body when there is one; a 500
/// conflict carries nothing the adapter would trust, so it always
/// yields the empty entry.
pub open spec fn kept_entry_matches(reply: VendorReply<ProxyIP>, kept: Option<ProxyIP>) -> bool {
    match reply {
        VendorReply::Reply { status, body } => if status == 500 {
            kept matches Some(e) && entry_is_empty(e)
        } else {
            match body {
                Some(e) => kept == Some(e),
                None => kept matches Some(e) && entry_is_empty(e),
            }
        },
        VendorReply::AuthMissing => false,
        VendorReply::TransportError => false,
    }
}

/// Everything the register decision promises: the class is fixed by
/// the target and the reply, and exactly the succeeding classes carry
/// an entry, whose value follows the body rule above.
pub open spec fn register_outcome_matches(
    target: Seq<char>,
    reply: VendorReply<ProxyIP>,
    r: RegisterOutcome<ProxyIP>,
) -> bool {
    &&& crate::adapter::class_of(r) == register_class(target, reply)
    &&& (r is Registered || r is Conflict) ==> kept_entry_matches(
        reply,
        crate::adapter::stored_entry(r),
    )
}

/// Decide one register exchange: `register(ip)` for this vendor.
pub fn register_outcome(target: &str, reply: VendorReply<ProxyIP>) -> (r: RegisterOutcome<
    ProxyIP,
>)
    ensures
        register_outcome_matches(target@, reply, r),
{
    if target.is_empty() {
        return RegisterOutcome::Skipped(SkipReason::EmptyTarget);
    }
    match reply {
        VendorReply::AuthMissing => RegisterOutcome::Skipped(SkipReason::AuthMissing),
        VendorReply::TransportError => RegisterOutcome::Failed(AdapterError::TransportError),
        VendorReply::Reply { status, body } => {
            if 200 <= status && status < 300 {
                match body {
                    Some(e) => RegisterOutcome::Registered(e),
                    None => RegisterOutcome::Registered(ProxyIP::empty()),
                }
            } else if status == 400 {
                match body {
                    Some(e) => RegisterOutcome::Conflict(e),
                    None => RegisterOutcome::Conflict(ProxyIP::empty()),
                }
            } else if status == 500 {
                RegisterOutcome::Conflict(ProxyIP::empty())
            } else {
                RegisterOutcome::Failed(AdapterError::VendorRejected(status))
            }
        },
    }
}

} // verus!
