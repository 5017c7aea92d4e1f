//! The iproyale vendor adapter: whitelist entries kept per residential
//! user, keyed by a vendor-assigned entry hash, with bearer-token
//! authentication handled outside this crate. Besides register and
//! deregister, this vendor can fetch, list and update entries; the
//! decisions for those exchanges live here too.

use vstd::prelude::*;

use crate::adapter::{AdapterError, RegisterClass, RegisterOutcome, SkipReason, VendorReply};

verus! {

/// The vendor's record of a whitelisted IP.
///
/// Fields the vendor did not send stay unset; they are never fabricated.
#[derive(Clone, Debug, PartialEq, Eq, Default)]
pub struct WhitelistEntry {
    /// The vendor-assigned id hash; the delete call is keyed by it.
    pub hash: String,
    /// The server ip.
    pub ip: String,
    /// The port.
    pub port: u16,
    /// The vendor's label for the kind of entry.
    pub kind: String,
    /// The configuration.
    pub configuration: String,
}

/// An entry holding no information: what a register attempt yields
/// when the vendor's body was missing or did not parse.
pub open spec fn entry_is_empty(e: WhitelistEntry) -> bool {
    &&& e.hash@.len() == 0
    &&& e.ip@.len() == 0
    &&& e.port == 0
    &&& e.kind@.len() == 0
    &&& e.configuration@.len() == 0
}

impl WhitelistEntry {
    /// The empty entry substituted when the vendor reported nothing usable.
    pub fn empty() -> (r: WhitelistEntry)
        ensures
            entry_is_empty(r),
    {
        WhitelistEntry {
            hash: String::new(),
            ip: String::new(),
            port: 0,
            kind: String::new(),
            configuration: String::new(),
        }
    }
}

/// This vendor reports "already whitelisted" as a 409 on register.
pub open spec fn register_conflict(status: u16) -> bool {
    status == 409
}

/// How a register attempt against this vendor ends, given the target
/// IP and what the exchange produced.
pub open spec fn register_class(
    target: Seq<char>,
    reply: VendorReply<WhitelistEntry>,
) -> RegisterClass {
    if target.len() == 0 {
        RegisterClass::Skipped(SkipReason::EmptyTarget)
    } else {
        match reply {
            VendorReply::AuthMissing => RegisterClass::Skipped(SkipReason::AuthMissing),
            VendorReply::TransportError => RegisterClass::Failed(AdapterError::TransportError),
            VendorReply::Reply { status, body } => if crate::adapter::is_success(status) {
                RegisterClass::Registered
            } else if register_conflict(status) {
                RegisterClass::Conflict
            } else {
                RegisterClass::Failed(AdapterError::VendorRejected(status))
            },
        }
    }
}

/// The entry a successful or conflicting register attempt hands back.
/// A success carries the parsed body when there is one; a 409 body is
/// not an entry, so a conflict always yields the empty entry.
pub open spec fn kept_entry_matches(
    reply: VendorReply<WhitelistEntry>,
    kept: Option<WhitelistEntry>,
) -> bool {
    match reply {
        VendorReply::Reply { status, body } => if crate::adapter::is_success(status) {
            match body {
                Some(e) => kept == Some(e),
                None => kept matches Some(e) && entry_is_empty(e),
            }
        } else {
            kept matches Some(e) && entry_is_empty(e)
        },
        VendorReply::AuthMissing => false,
        VendorReply::TransportError => false,
    }
}

/// Everything the register decision promises: the class is fixed by
/// the target and the reply, and exactly the succeeding classes carry
/// an entry, whose value follows the body rule above.
pub open spec fn register_outcome_matches(
    target: Seq<char>,
    reply: VendorReply<WhitelistEntry>,
    r: RegisterOutcome<WhitelistEntry>,
) -> bool {
    &&& crate::adapter::class_of(r) == register_class(target, reply)
    &&& (r is Registered || r is Conflict) ==> kept_entry_matches(
        reply,
        crate::adapter::stored_entry(r),
    )
}

/// Decide one register exchange: `register(ip)` for this vendor.
///
/// A missing token does not abort the run: the vendor is skipped with
/// a diagnostic, consistent with how every other vendor degrades.
pub fn register_outcome(target: &str, reply: VendorReply<WhitelistEntry>) -> (r: RegisterOutcome<
    WhitelistEntry,
>)
    ensures
        register_outcome_matches(target@, reply, r),
{
    if target.is_empty() {
        return RegisterOutcome::Skipped(SkipReason::EmptyTarget);
    }
    match reply {
        VendorReply::AuthMissing => RegisterOutcome::Skipped(SkipReason::AuthMissing),
        VendorReply::TransportError => RegisterOutcome::Failed(AdapterError::TransportError),
        VendorReply::Reply { status, body } => {
            if 200 <= status && status < 300 {
                match body {
                    Some(e) => RegisterOutcome::Registered(e),
                    None => RegisterOutcome::Registered(WhitelistEntry::empty()),
                }
            } else if status == 409 {
                RegisterOutcome::Conflict(WhitelistEntry::empty())
            } else {
                RegisterOutcome::Failed(AdapterError::VendorRejected(status))
            }
        },
    }
}

/// What a fetch or update exchange yields: the vendor's record of the
/// entry on a parsed success, and the empty entry in every other case,
/// so that one vendor's degenerate answer never aborts anything.
pub open spec fn entry_reply_matches(
    reply: VendorReply<WhitelistEntry>,
    r: WhitelistEntry,
) -> bool {
    match reply {
        VendorReply::Reply { status, body } => if crate::adapter::is_success(status) {
            match body {
                Some(e) => r == e,
                None => entry_is_empty(r),
            }
        } else {
            entry_is_empty(r)
        },
        VendorReply::AuthMissing => entry_is_empty(r),
        VendorReply::TransportError => entry_is_empty(r),
    }
}

/// Decide a fetch-one-entry or update-entry exchange. Both calls
/// answer with the entry as the vendor now holds it, and both degrade
/// to the empty entry on any failure.
pub fn entry_outcome(reply: VendorReply<WhitelistEntry>) -> (r: WhitelistEntry)
    ensures
        entry_reply_matches(reply, r),
{
    match reply {
        VendorReply::AuthMissing => WhitelistEntry::empty(),
        VendorReply::TransportError => WhitelistEntry::empty(),
        VendorReply::Reply { status, body } => {
            if 200 <= status && status < 300 {
                match body {
                    Some(e) => e,
                    None => WhitelistEntry::empty(),
                }
            } else {
                WhitelistEntry::empty()
            }
        },
    }
}

/// What a list-entries exchange yields: the vendor's page of entries
/// on a parsed success, and no entries in every other case.
pub open spec fn entries_reply_matches(
    reply: VendorReply<Vec<WhitelistEntry>>,
    r: Vec<WhitelistEntry>,
) -> bool {
    match reply {
        VendorReply::Reply { status, body } => if crate::adapter::is_success(status) {
            match body {
                Some(es) => r == es,
                None => r@.len() == 0,
            }
        } else {
            r@.len() == 0
        },
        VendorReply::AuthMissing => r@.len() == 0,
        VendorReply::TransportError => r@.len() == 0,
    }
}

/// Decide a list-entries exchange.
pub fn entries_outcome(reply: VendorReply<Vec<WhitelistEntry>>) -> (r: Vec<WhitelistEntry>)
    ensures
        entries_reply_matches(reply, r),
{
    match reply {
        VendorReply::AuthMissing => Vec::new(),
        VendorReply::TransportError => Vec::new(),
        VendorReply::Reply { status, body } => {
            if 200 <= status && status < 300 {
                match body {
                    Some(es) => es,
                    None => Vec::new(),
                }
            } else {
                Vec::new()
            }
        },
    }
}

} // verus!
