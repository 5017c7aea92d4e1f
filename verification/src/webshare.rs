//! The webshare vendor adapter: IP-authorization entries keyed by a
//! numeric entry id, plus the two "what is my IP" lookups the resolver
//! uses. Register and deregister go to the vendor's IP-authorization
//! collection; this vendor also exposes an authorized what's-my-ip
//! endpoint whose answer is preferred over a generic lookup.

use vstd::prelude::*;

use crate::adapter::{
    AdapterError, DeregisterOutcome, RegisterClass, RegisterOutcome, SkipReason, VendorReply,
};

verus! {

/// The vendor's record of a whitelisted IP.
///
/// Fields the vendor did not send stay unset; they are never fabricated.
#[derive(Clone, Debug, PartialEq, Eq, Default)]
pub struct ProxyIP {
    /// The ip address of the request.
    pub ip_address: String,
    /// The id of the whitelist entry; the delete call is keyed by it.
    pub id: u128,
    /// The created at date, when the vendor reported one.
    pub created_at: Option<String>,
    /// The last used date, when the vendor reported one.
    pub last_used_at: Option<String>,
}

/// An entry holding no information: what a register attempt yields
/// when the vendor's body was missing or did not parse.
pub open spec fn entry_is_empty(e: ProxyIP) -> bool {
    &&& e.ip_address@.len() == 0
    &&& e.id == 0
    &&& e.created_at is None
    &&& e.last_used_at is None
}

impl ProxyIP {
    /// The empty entry substituted for a missing or malformed body.
    pub fn empty() -> (r: ProxyIP)
        ensures
            entry_is_empty(r),
    {
        ProxyIP { ip_address: String::new(), id: 0, created_at: None, last_used_at: None }
    }
}

/// This vendor reports "already whitelisted" as a 400 on register.
pub open spec fn register_conflict(status: u16) -> bool {
    status == 400
}

/// How a register attempt against this vendor ends, given the target
/// IP and what the exchange produced.
pub open spec fn register_class(target: Seq<char>, reply: VendorReply<ProxyIP>) -> RegisterClass {
    if target.len() == 0 {
        RegisterClass::Skipped(SkipReason::EmptyTarget)
    } else {
        match reply {
            VendorReply::AuthMissing => RegisterClass::Skipped(SkipReason::AuthMissing),
            VendorReply::TransportError => RegisterClass::Failed(AdapterError::TransportError),
            VendorReply::Reply { status, body } => if crate::adapter::is_success(status) {
                RegisterClass::Registered
            } else if register_conflict(status) {
                RegisterClass::Conflict
            } else {
                RegisterClass::Failed(AdapterError::VendorRejected(status))
            },
        }
    }
}

/// The entry a successful or conflicting register attempt hands back:
/// the parsed body when there is one — this vendor returns the
/// existing entry on a 400 as well — and the empty entry otherwise.
pub open spec fn kept_entry_matches(reply: VendorReply<ProxyIP>, kept: Option<ProxyIP>) -> bool {
    match reply {
        VendorReply::Reply { status, body } => match body {
            Some(e) => kept == Some(e),
            None => kept matches Some(e) && entry_is_empty(e),
        },
        VendorReply::AuthMissing => false,
        VendorReply::TransportError => false,
    }
}

/// Everything the register decision promises: the class is fixed by
/// the target and the reply, and exactly the succeeding classes carry
/// an entry, whose value follows the body rule above.
pub open spec fn register_outcome_matches(
    target: Seq<char>,
    reply: VendorReply<ProxyIP>,
    r: RegisterOutcome<ProxyIP>,
) -> bool {
    &&& crate::adapter::class_of(r) == register_class(target, reply)
    &&& (r is Registered || r is Conflict) ==> kept_entry_matches(
        reply,
        crate::adapter::stored_entry(r),
    )
}

/// Decide one register exchange: `register(ip)` for this vendor.
///
/// An empty target or a missing credential no-ops; a success parses
/// the entry, a 400 is the idempotent "already whitelisted" answer,
/// anything else is a logged failure.
pub fn register_outcome(target: &str, reply: VendorReply<ProxyIP>) -> (r: RegisterOutcome<
    ProxyIP,
>)
    ensures
        register_outcome_matches(target@, reply, r),
{
    if target.is_empty() {
        return RegisterOutcome::Skipped(SkipReason::EmptyTarget);
    }
    match reply {
        VendorReply::AuthMissing => RegisterOutcome::Skipped(SkipReason::AuthMissing),
        VendorReply::TransportError => RegisterOutcome::Failed(AdapterError::TransportError),
        VendorReply::Reply { status, body } => {
            if 200 <= status && status < 300 {
                match body {
                    Some(e) => RegisterOutcome::Registered(e),
                    None => RegisterOutcome::Registered(ProxyIP::empty()),
                }
            } else if status == 400 {
                match body {
                    Some(e) => RegisterOutcome::Conflict(e),
                    None => RegisterOutcome::Conflict(ProxyIP::empty()),
                }
            } else {
                RegisterOutcome::Failed(AdapterError::VendorRejected(status))
            }
        },
    }
}

/// Decide one deregister exchange. The delete call is keyed by the
/// entry's numeric id, which always addresses an entry, so there is no
/// empty-target case for this vendor.
pub fn deregister_outcome(reply: VendorReply<()>) -> (r: DeregisterOutcome)
    ensures
        r == crate::adapter::deregister_result(reply),
{
    match reply {
        VendorReply::AuthMissing => DeregisterOutcome::Skipped(SkipReason::AuthMissing),
        VendorReply::TransportError => DeregisterOutcome::Failed(AdapterError::TransportError),
        VendorReply::Reply { status, body: _ } => {
            if 200 <= status && status < 300 {
                DeregisterOutcome::Deregistered
            } else {
                DeregisterOutcome::Failed(AdapterError::VendorRejected(status))
            }
        },
    }
}

/// What the authorized what's-my-ip lookup concluded. `Some(ip)` ends
/// resolution with that value — possibly empty, when a success body
/// did not parse — and `None` asks the caller to fall back to the
/// generic lookup. A missing credential only makes this vendor's
/// lookup unavailable; the generic lookup needs no credential, so it
/// is still asked.
pub open spec fn primary_resolution_matches(
    reply: VendorReply<String>,
    r: Option<String>,
) -> bool {
    match reply {
        VendorReply::AuthMissing => r is None,
        VendorReply::TransportError => r is None,
        VendorReply::Reply { status, body } => if crate::adapter::is_success(status) {
            match body {
                Some(ip) => r == Some(ip),
                None => r matches Some(res) && res@.len() == 0,
            }
        } else {
            r is None
        },
    }
}

/// Decide the authorized what's-my-ip exchange.
///
/// The IP this vendor sees is the proxy-egress address and is
/// authoritative when available, so a parsed success answer ends
/// resolution. When this lookup is unavailable — credential absent —
/// or failed, the caller falls back to the generic lookup instead.
pub fn resolve_primary(reply: VendorReply<String>) -> (r: Option<String>)
    ensures
        primary_resolution_matches(reply, r),
{
    match reply {
        VendorReply::AuthMissing => None,
        VendorReply::TransportError => None,
        VendorReply::Reply { status, body } => {
            if 200 <= status && status < 300 {
                match body {
                    Some(ip) => Some(ip),
                    None => Some(String::new()),
                }
            } else {
                None
            }
        },
    }
}

/// What the generic public-IP lookup concluded: the response text on
/// success, and the empty string — "resolution failed" — otherwise.
pub open spec fn fallback_resolution_matches(reply: VendorReply<String>, r: String) -> bool {
    match reply {
        VendorReply::Reply { status, body } => if crate::adapter::is_success(status) {
            match body {
                Some(ip) => r == ip,
                None => r@.len() == 0,
            }
        } else {
            r@.len() == 0
        },
        VendorReply::AuthMissing => r@.len() == 0,
        VendorReply::TransportError => r@.len() == 0,
    }
}

/// Decide the generic public-IP lookup, the resolver's last resort.
/// Callers must treat an empty result as "resolution failed" and must
/// not register it with any vendor.
pub fn resolve_fallback(reply: VendorReply<String>) -> (r: String)
    ensures
        fallback_resolution_matches(reply, r),
{
    match reply {
        VendorReply::AuthMissing => String::new(),
        VendorReply::TransportError => String::new(),
        VendorReply::Reply { status, body } => {
            if 200 <= status && status < 300 {
                match body {
                    Some(ip) => ip,
                    None => String::new(),
                }
            } else {
                String::new()
            }
        },
    }
}

} // verus!
