//! The uniform vocabulary shared by every vendor adapter.
//!
//! Each vendor wraps its whitelist-create / whitelist-delete HTTP calls
//! behind the same capability: `register` an IP, `deregister` it again.
//! The HTTP exchange itself happens outside this crate; what it produced
//! comes back in as a plain [`VendorReply`], and the verified adapter
//! code decides what that exchange meant.

use vstd::prelude::*;

verus! {

/// What one HTTP exchange with a vendor produced, seen as plain data.
///
/// The transport layer hands this in; the adapter logic never sees a
/// socket, only this value. `B` is the vendor's parsed body type.
#[derive(Clone, Debug, PartialEq, Eq)]
pub enum VendorReply<B> {
    /// The required credential was absent, so no request was sent.
    AuthMissing,
    /// The connection failed before any status line came back.
    TransportError,
    /// The vendor answered: an HTTP status and, when one parsed, a body.
    /// A body that failed to parse arrives as `None`, never as an error.
    Reply { status: u16, body: Option<B> },
}

/// Why an adapter stepped aside without talking to its vendor.
#[derive(Clone, Copy, Debug, PartialEq, Eq)]
pub enum SkipReason {
    /// The target IP or identifier was empty: nothing sensible to send.
    EmptyTarget,
    /// The vendor's credential was not configured; the vendor is
    /// silently skipped rather than aborting the run.
    AuthMissing,
}

/// A vendor call that went out and did not succeed.
///
/// These are recorded and logged by the orchestrator, never propagated:
/// one vendor's failure must not block the others.
#[derive(Clone, Copy, Debug, PartialEq, Eq)]
pub enum AdapterError {
    /// Network or connection failure.
    TransportError,
    /// A non-success status the vendor is not known to use for
    /// "already whitelisted"; carries the status code.
    VendorRejected(u16),
}

/// How one register attempt ended, without the vendor's entry payload.
#[derive(Clone, Copy, Debug, PartialEq, Eq)]
pub enum RegisterClass {
    /// The vendor accepted the IP.
    Registered,
    /// The vendor said the IP was already whitelisted; treated as
    /// idempotent success, not as an error.
    Conflict,
    /// The adapter no-opped without calling the vendor.
    Skipped(SkipReason),
    /// The call failed; logged, non-fatal.
    Failed(AdapterError),
}

/// The structured result of one register attempt. `E` is the vendor's
/// entry type; success and conflict carry the entry to store.
#[derive(Clone, Debug, PartialEq, Eq)]
pub enum RegisterOutcome<E> {
    /// The vendor accepted the IP and this is its record of it.
    Registered(E),
    /// The IP was already whitelisted; the entry is what the vendor
    /// reported, or an empty entry when it reported nothing usable.
    Conflict(E),
    /// The adapter no-opped without calling the vendor.
    Skipped(SkipReason),
    /// The call failed; logged, non-fatal.
    Failed(AdapterError),
}

/// The structured result of one deregister attempt.
#[derive(Clone, Copy, Debug, PartialEq, Eq)]
pub enum DeregisterOutcome {
    /// The vendor confirmed the deletion.
    Deregistered,
    /// The adapter no-opped without calling the vendor.
    Skipped(SkipReason),
    /// The call failed; logged, non-fatal.
    Failed(AdapterError),
}

/// An HTTP status in the success range.
pub open spec fn is_success(status: u16) -> bool {
    200 <= status < 300
}

/// The class of a register outcome, with the entry payload dropped.
pub open spec fn class_of<E>(out: RegisterOutcome<E>) -> RegisterClass {
    match out {
        RegisterOutcome::Registered(_) => RegisterClass::Registered,
        RegisterOutcome::Conflict(_) => RegisterClass::Conflict,
        RegisterOutcome::Skipped(why) => RegisterClass::Skipped(why),
        RegisterOutcome::Failed(err) => RegisterClass::Failed(err),
    }
}

/// The entry a register outcome asks the caller to store, if any.
/// Only success and conflict store; a skip or failure leaves whatever
/// was stored before untouched.
pub open spec fn stored_entry<E>(out: RegisterOutcome<E>) -> Option<E> {
    match out {
        RegisterOutcome::Registered(e) => Some(e),
        RegisterOutcome::Conflict(e) => Some(e),
        RegisterOutcome::Skipped(_) => None,
        RegisterOutcome::Failed(_) => None,
    }
}

impl<E> RegisterOutcome<E> {
    /// Drop the entry payload, keeping only how the attempt ended.
    pub fn class(&self) -> (r: RegisterClass)
        ensures
            r == class_of(*self),
    {
        match self {
            RegisterOutcome::Registered(_) => RegisterClass::Registered,
            RegisterOutcome::Conflict(_) => RegisterClass::Conflict,
            RegisterOutcome::Skipped(why) => RegisterClass::Skipped(*why),
            RegisterOutcome::Failed(err) => RegisterClass::Failed(*err),
        }
    }
}

/// What a deregister exchange meant, for a vendor whose delete target
/// is always addressable. Every vendor treats a success status as
/// deleted and anything else as a logged, non-fatal failure.
pub open spec fn deregister_result(reply: VendorReply<()>) -> DeregisterOutcome {
    match reply {
        VendorReply::AuthMissing => DeregisterOutcome::Skipped(SkipReason::AuthMissing),
        VendorReply::TransportError => DeregisterOutcome::Failed(AdapterError::TransportError),
        VendorReply::Reply { status, body } => if is_success(status) {
            DeregisterOutcome::Deregistered
        } else {
            DeregisterOutcome::Failed(AdapterError::VendorRejected(status))
        },
    }
}

/// What a deregister exchange meant, for a vendor whose delete call is
/// keyed by a string (an IP or an entry hash): an empty key means there
/// is nothing the vendor could be asked to delete, so the adapter
/// no-ops.
pub open spec fn deregister_result_keyed(target: Seq<char>, reply: VendorReply<()>) -> DeregisterOutcome {
    if target.len() == 0 {
        DeregisterOutcome::Skipped(SkipReason::EmptyTarget)
    } else {
        deregister_result(reply)
    }
}

/// Decide one deregister exchange for a string-keyed vendor.
pub fn deregister_outcome(target: &str, reply: VendorReply<()>) -> (r: DeregisterOutcome)
    ensures
        r == deregister_result_keyed(target@, reply),
{
    if target.is_empty() {
        return DeregisterOutcome::Skipped(SkipReason::EmptyTarget);
    }
    match reply {
        VendorReply::AuthMissing => DeregisterOutcome::Skipped(SkipReason::AuthMissing),
        VendorReply::TransportError => DeregisterOutcome::Failed(AdapterError::TransportError),
        VendorReply::Reply { status, body: _ } => {
            if 200 <= status && status < 300 {
                DeregisterOutcome::Deregistered
            } else {
                DeregisterOutcome::Failed(AdapterError::VendorRejected(status))
            }
        },
    }
}

} // verus!
