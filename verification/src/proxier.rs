//! The orchestrator: one uniform setup → whitelist → delist lifecycle
//! over every enabled vendor.
//!
//! The orchestrator owns the resolved server IP and zero or more
//! enabled vendor configurations. A whitelist or delist cycle walks
//! the vendors in a fixed order — webshare, datainpulse, iproyale,
//! evomi — and no vendor's failure ever blocks another's attempt or
//! escapes to the caller; per-vendor results come back aggregated in a
//! summary instead.
//!
//! The network work of a cycle is not done here: the orchestrator
//! says, through [`Proxier::whitelist_plan`] and
//! [`Proxier::delist_plan`], which vendor calls should go out, and the
//! caller hands each vendor's [`VendorReply`] back in. Everything the
//! orchestrator then does with those replies is verified.

use vstd::prelude::*;

use crate::adapter::{DeregisterOutcome, RegisterClass, RegisterOutcome, VendorReply};
use crate::datainpulse;
use crate::evomi;
use crate::iproyale::{self, WhitelistEntry};
use crate::webshare;

verus! {

/// The iproyale configuration for the proxy.
#[derive(Clone, Debug, PartialEq, Eq, Default)]
pub struct IPRoyaleConfiguration {
    /// The residential user hash that the vendor's URLs are keyed by.
    pub residential_user_hash: String,
    /// The port to whitelist.
    pub port: u16,
    /// The configuration type.
    pub configuration: String,
    /// The vendor's entry, once a whitelist cycle has stored one.
    pub whitelist_entry: Option<WhitelistEntry>,
}

/// The webshare configuration for the proxy.
#[derive(Clone, Debug, PartialEq, Eq, Default)]
pub struct WebShareConfiguration {
    /// The vendor's entry, once a whitelist cycle has stored one.
    pub whitelist_entry: Option<webshare::ProxyIP>,
}

/// The datainpulse configuration for the proxy. The flag says whether
/// the vendor currently holds this server's IP: this vendor keeps no
/// entry record, so the flag is its whole whitelist state.
#[derive(Clone, Copy, Debug, PartialEq, Eq, Default)]
pub struct DatainpulseConfiguration(pub bool);

/// The evomi configuration for the proxy. The flag says whether the
/// vendor currently holds this server's IP.
#[derive(Clone, Copy, Debug, PartialEq, Eq, Default)]
pub struct EvomiConfiguration(pub bool);

/// The proxy orchestrator: the resolved server IP plus the vendor
/// configurations that are enabled for this run. An absent
/// configuration means that vendor is disabled and is never touched.
#[derive(Clone, Debug, PartialEq, Eq, Default)]
pub struct Proxier {
    /// Iproyale service.
    pub iproyale: Option<IPRoyaleConfiguration>,
    /// Webshare service.
    pub webshare: Option<WebShareConfiguration>,
    /// Datainpulse service residential proxies.
    pub datainpulse: Option<DatainpulseConfiguration>,
    /// Evomi service proxies.
    pub evomi: Option<EvomiConfiguration>,
    /// The server ip to whitelist; empty until resolved.
    pub server_ip: String,
}

/// Each vendor's reply to its register call, for one whitelist cycle.
/// A vendor that was not called — disabled, or skipped for an empty
/// IP — may carry any value here; the cycle ignores it.
#[derive(Clone, Debug, PartialEq, Eq)]
pub struct WhitelistReplies {
    /// Webshare service.
    pub webshare: VendorReply<webshare::ProxyIP>,
    /// Datainpulse service.
    pub datainpulse: VendorReply<()>,
    /// Iproyale service.
    pub iproyale: VendorReply<WhitelistEntry>,
    /// Evomi service.
    pub evomi: VendorReply<evomi::ProxyIP>,
}

/// How each vendor's register attempt ended, aggregated for the
/// caller. `None` means the vendor was disabled for this run. No
/// variant of this summary is an error of `whitelist()` itself:
/// per-vendor failures are recorded here and nowhere else.
#[derive(Clone, Copy, Debug, PartialEq, Eq)]
pub struct WhitelistSummary {
    /// Webshare service.
    pub webshare: Option<RegisterClass>,
    /// Datainpulse service.
    pub datainpulse: Option<RegisterClass>,
    /// Iproyale service.
    pub iproyale: Option<RegisterClass>,
    /// Evomi service.
    pub evomi: Option<RegisterClass>,
}

/// The flag a register attempt leaves behind for a vendor that keeps
/// no entry record: set on success or idempotent conflict, untouched
/// when the attempt was skipped or failed.
pub open spec fn registered_flag_after(pre: bool, class: RegisterClass) -> bool {
    match class {
        RegisterClass::Registered => true,
        RegisterClass::Conflict => true,
        RegisterClass::Skipped(_) => pre,
        RegisterClass::Failed(_) => pre,
    }
}

/// The webshare slot after one register attempt: a disabled vendor
/// stays disabled and reports nothing; an enabled one reports the
/// register class, stores the vendor's entry on success or conflict,
/// and keeps its previous state on a skip or failure.
pub open spec fn webshare_register_applied(
    pre_cfg: Option<WebShareConfiguration>,
    ip: Seq<char>,
    reply: VendorReply<webshare::ProxyIP>,
    post_cfg: Option<WebShareConfiguration>,
    r: Option<RegisterClass>,
) -> bool {
    match pre_cfg {
        None => post_cfg is None && r is None,
        Some(cfg) => {
            let class = webshare::register_class(ip, reply);
            &&& r == Some(class)
            &&& match post_cfg {
                Some(post) => if class is Registered || class is Conflict {
                    webshare::kept_entry_matches(reply, post.whitelist_entry)
                } else {
                    post == cfg
                },
                None => false,
            }
        },
    }
}

/// The datainpulse slot after one register attempt.
pub open spec fn datainpulse_register_applied(
    pre_cfg: Option<DatainpulseConfiguration>,
    ip: Seq<char>,
    reply: VendorReply<()>,
    post_cfg: Option<DatainpulseConfiguration>,
    r: Option<RegisterClass>,
) -> bool {
    match pre_cfg {
        None => post_cfg is None && r is None,
        Some(cfg) => {
            let class = datainpulse::register_class(ip, reply);
            &&& r == Some(class)
            &&& post_cfg == Some(DatainpulseConfiguration(registered_flag_after(cfg.0, class)))
        },
    }
}

/// The iproyale slot after one register attempt: the vendor's
/// addressing fields are never touched, only the entry slot.
pub open spec fn iproyale_register_applied(
    pre_cfg: Option<IPRoyaleConfiguration>,
    ip: Seq<char>,
    reply: VendorReply<WhitelistEntry>,
    post_cfg: Option<IPRoyaleConfiguration>,
    r: Option<RegisterClass>,
) -> bool {
    match pre_cfg {
        None => post_cfg is None && r is None,
        Some(cfg) => {
            let class = iproyale::register_class(ip, reply);
            &&& r == Some(class)
            &&& match post_cfg {
                Some(post) => {
                    &&& post.residential_user_hash == cfg.residential_user_hash
                    &&& post.port == cfg.port
                    &&& post.configuration == cfg.configuration
                    &&& if class is Registered || class is Conflict {
                        iproyale::kept_entry_matches(reply, post.whitelist_entry)
                    } else {
                        post.whitelist_entry == cfg.whitelist_entry
                    }
                },
                None => false,
            }
        },
    }
}

/// The evomi slot after one register attempt: this vendor keeps only
/// the registered flag; the entry its adapter parses is reported but
/// not stored.
pub open spec fn evomi_register_applied(
    pre_cfg: Option<EvomiConfiguration>,
    ip: Seq<char>,
    reply: VendorReply<evomi::ProxyIP>,
    post_cfg: Option<EvomiConfiguration>,
    r: Option<RegisterClass>,
) -> bool {
    match pre_cfg {
        None => post_cfg is None && r is None,
        Some(cfg) => {
            let class = evomi::register_class(ip, reply);
            &&& r == Some(class)
            &&& post_cfg == Some(EvomiConfiguration(registered_flag_after(cfg.0, class)))
        },
    }
}

/// One whole whitelist cycle: the server IP is untouched and every
/// vendor's slot moves by its own register rule, independently of how
/// the other vendors fared.
pub open spec fn whitelist_cycle(
    pre: Proxier,
    replies: WhitelistReplies,
    post: Proxier,
    sum: WhitelistSummary,
) -> bool {
    &&& post.server_ip == pre.server_ip
    &&& webshare_register_applied(
        pre.webshare,
        pre.server_ip@,
        replies.webshare,
        post.webshare,
        sum.webshare,
    )
    &&& datainpulse_register_applied(
        pre.datainpulse,
        pre.server_ip@,
        replies.datainpulse,
        post.datainpulse,
        sum.datainpulse,
    )
    &&& iproyale_register_applied(
        pre.iproyale,
        pre.server_ip@,
        replies.iproyale,
        post.iproyale,
        sum.iproyale,
    )
    &&& evomi_register_applied(
        pre.evomi,
        pre.server_ip@,
        replies.evomi,
        post.evomi,
        sum.evomi,
    )
}

/// Everything a caller needs to issue iproyale's register call: the
/// vendor's addressing fields together with the IP to whitelist.
#[derive(Clone, Debug, PartialEq, Eq)]
pub struct RegisterRequest {
    /// The residential user hash that the vendor's URLs are keyed by.
    pub residential_user_hash: String,
    /// The server ip to whitelist.
    pub ip: String,
    /// The port to whitelist.
    pub port: u16,
    /// The configuration type.
    pub configuration: String,
}

/// The register calls one whitelist cycle asks the caller to perform:
/// one per enabled vendor, and none at all when the server IP is
/// empty — an unresolved IP must never be sent to any vendor.
#[derive(Clone, Debug, PartialEq, Eq)]
pub struct WhitelistPlan {
    /// The IP to register with webshare, when that call should go out.
    pub webshare: Option<String>,
    /// The IP to register with datainpulse.
    pub datainpulse: Option<String>,
    /// The iproyale register request.
    pub iproyale: Option<RegisterRequest>,
    /// The IP to register with evomi.
    pub evomi: Option<String>,
}

/// Everything a caller needs to issue iproyale's deregister call: the
/// user hash addressing the collection and the stored entry's hash.
#[derive(Clone, Debug, PartialEq, Eq)]
pub struct DeregisterRequest {
    /// The residential user hash that the vendor's URLs are keyed by.
    pub residential_user_hash: String,
    /// The stored entry's hash, the delete target.
    pub whitelist_entry_hash: String,
}

/// The deregister calls one delist cycle asks the caller to perform.
/// A vendor holding no whitelist state gets no call: delisting it is
/// a no-op and its adapter must not even be invoked.
#[derive(Clone, Debug, PartialEq, Eq)]
pub struct DelistPlan {
    /// The entry id to delete at webshare.
    pub webshare: Option<u128>,
    /// The IP to delete at datainpulse.
    pub datainpulse: Option<String>,
    /// The iproyale deregister request.
    pub iproyale: Option<DeregisterRequest>,
    /// The IP to delete at evomi.
    pub evomi: Option<String>,
}

/// The register call a whitelist cycle plans for webshare: only an
/// enabled vendor with a non-empty server IP is called.
pub open spec fn planned_webshare_register(p: Proxier) -> Option<String> {
    if p.webshare is Some && p.server_ip@.len() > 0 {
        Some(p.server_ip)
    } else {
        None
    }
}

/// The register call a whitelist cycle plans for datainpulse.
pub open spec fn planned_datainpulse_register(p: Proxier) -> Option<String> {
    if p.datainpulse is Some && p.server_ip@.len() > 0 {
        Some(p.server_ip)
    } else {
        None
    }
}

/// The register call a whitelist cycle plans for iproyale.
pub open spec fn planned_iproyale_register(p: Proxier) -> Option<RegisterRequest> {
    match p.iproyale {
        Some(cfg) => if p.server_ip@.len() > 0 {
            Some(
                RegisterRequest {
                    residential_user_hash: cfg.residential_user_hash,
                    ip: p.server_ip,
                    port: cfg.port,
                    configuration: cfg.configuration,
                },
            )
        } else {
            None
        },
        None => None,
    }
}

/// The register call a whitelist cycle plans for evomi.
pub open spec fn planned_evomi_register(p: Proxier) -> Option<String> {
    if p.evomi is Some && p.server_ip@.len() > 0 {
        Some(p.server_ip)
    } else {
        None
    }
}

/// The deregister call a delist cycle plans for webshare: only when
/// an entry is stored, keyed by its id.
pub open spec fn planned_webshare_deregister(p: Proxier) -> Option<u128> {
    match p.webshare {
        Some(cfg) => match cfg.whitelist_entry {
            Some(e) => Some(e.id),
            None => None,
        },
        None => None,
    }
}

/// The deregister call a delist cycle plans for datainpulse: only
/// when the registered flag is up and the IP key is non-empty.
pub open spec fn planned_datainpulse_deregister(p: Proxier) -> Option<String> {
    match p.datainpulse {
        Some(cfg) => if cfg.0 && p.server_ip@.len() > 0 {
            Some(p.server_ip)
        } else {
            None
        },
        None => None,
    }
}

/// The deregister call a delist cycle plans for iproyale: only when a
/// stored entry carries a non-empty hash to address the delete with.
pub open spec fn planned_iproyale_deregister(p: Proxier) -> Option<DeregisterRequest> {
    match p.iproyale {
        Some(cfg) => match cfg.whitelist_entry {
            Some(e) => if e.hash@.len() > 0 {
                Some(
                    DeregisterRequest {
                        residential_user_hash: cfg.residential_user_hash,
                        whitelist_entry_hash: e.hash,
                    },
                )
            } else {
                None
            },
            None => None,
        },
        None => None,
    }
}

/// The deregister call a delist cycle plans for evomi.
pub open spec fn planned_evomi_deregister(p: Proxier) -> Option<String> {
    match p.evomi {
        Some(cfg) => if cfg.0 && p.server_ip@.len() > 0 {
            Some(p.server_ip)
        } else {
            None
        },
        None => None,
    }
}

/// Each vendor's reply to its deregister call, for one delist cycle.
/// As with [`WhitelistReplies`], the value for a vendor that was not
/// called is ignored.
#[derive(Clone, Debug, PartialEq, Eq)]
pub struct DelistReplies {
    /// Webshare service.
    pub webshare: VendorReply<()>,
    /// Datainpulse service.
    pub datainpulse: VendorReply<()>,
    /// Iproyale service.
    pub iproyale: VendorReply<()>,
    /// Evomi service.
    pub evomi: VendorReply<()>,
}

/// How each vendor's deregister attempt ended. `None` means the
/// vendor was disabled or held nothing to delist; failures are
/// recorded here and never surface as an error of `delist()`.
#[derive(Clone, Copy, Debug, PartialEq, Eq)]
pub struct DelistSummary {
    /// Webshare service.
    pub webshare: Option<DeregisterOutcome>,
    /// Datainpulse service.
    pub datainpulse: Option<DeregisterOutcome>,
    /// Iproyale service.
    pub iproyale: Option<DeregisterOutcome>,
    /// Evomi service.
    pub evomi: Option<DeregisterOutcome>,
}

/// The webshare slot after one delist step: with no stored entry the
/// vendor is left alone — its adapter is not even called — and with
/// one, the entry is cleared whatever the vendor answered. Clearing on
/// failure too is the deliberate best-effort policy: a delist cycle
/// must never leave a vendor stuck in "registered".
pub open spec fn webshare_delist_applied(
    pre_cfg: Option<WebShareConfiguration>,
    reply: VendorReply<()>,
    post_cfg: Option<WebShareConfiguration>,
    r: Option<DeregisterOutcome>,
) -> bool {
    match pre_cfg {
        None => post_cfg is None && r is None,
        Some(cfg) => match cfg.whitelist_entry {
            None => post_cfg == pre_cfg && r is None,
            Some(_) => {
                &&& post_cfg == Some(WebShareConfiguration { whitelist_entry: None })
                &&& r == Some(crate::adapter::deregister_result(reply))
            },
        },
    }
}

/// The datainpulse slot after one delist step: its whitelist state is
/// the registered flag, deleted at the vendor by the raw IP, and the
/// flag is lowered whatever the vendor answered.
pub open spec fn datainpulse_delist_applied(
    pre_cfg: Option<DatainpulseConfiguration>,
    ip: Seq<char>,
    reply: VendorReply<()>,
    post_cfg: Option<DatainpulseConfiguration>,
    r: Option<DeregisterOutcome>,
) -> bool {
    match pre_cfg {
        None => post_cfg is None && r is None,
        Some(cfg) => if !cfg.0 {
            post_cfg == pre_cfg && r is None
        } else {
            &&& post_cfg == Some(DatainpulseConfiguration(false))
            &&& r == Some(crate::adapter::deregister_result_keyed(ip, reply))
        },
    }
}

/// The iproyale slot after one delist step: the delete call is keyed
/// by the stored entry's hash; the entry is cleared whatever the
/// vendor answered, and the addressing fields are never touched.
pub open spec fn iproyale_delist_applied(
    pre_cfg: Option<IPRoyaleConfiguration>,
    reply: VendorReply<()>,
    post_cfg: Option<IPRoyaleConfiguration>,
    r: Option<DeregisterOutcome>,
) -> bool {
    match pre_cfg {
        None => post_cfg is None && r is None,
        Some(cfg) => match cfg.whitelist_entry {
            None => post_cfg == pre_cfg && r is None,
            Some(entry) => {
                &&& post_cfg == Some(
                    IPRoyaleConfiguration {
                        residential_user_hash: cfg.residential_user_hash,
                        port: cfg.port,
                        configuration: cfg.configuration,
                        whitelist_entry: None,
                    },
                )
                &&& r == Some(crate::adapter::deregister_result_keyed(entry.hash@, reply))
            },
        },
    }
}

/// The evomi slot after one delist step; like datainpulse, keyed by
/// the raw IP with only a flag to lower.
pub open spec fn evomi_delist_applied(
    pre_cfg: Option<EvomiConfiguration>,
    ip: Seq<char>,
    reply: VendorReply<()>,
    post_cfg: Option<EvomiConfiguration>,
    r: Option<DeregisterOutcome>,
) -> bool {
    match pre_cfg {
        None => post_cfg is None && r is None,
        Some(cfg) => if !cfg.0 {
            post_cfg == pre_cfg && r is None
        } else {
            &&& post_cfg == Some(EvomiConfiguration(false))
            &&& r == Some(crate::adapter::deregister_result_keyed(ip, reply))
        },
    }
}

/// One whole delist cycle: the server IP is untouched and every
/// vendor's slot moves by its own deregister rule.
pub open spec fn delist_cycle(
    pre: Proxier,
    replies: DelistReplies,
    post: Proxier,
    sum: DelistSummary,
) -> bool {
    &&& post.server_ip == pre.server_ip
    &&& webshare_delist_applied(pre.webshare, replies.webshare, post.webshare, sum.webshare)
    &&& datainpulse_delist_applied(
        pre.datainpulse,
        pre.server_ip@,
        replies.datainpulse,
        post.datainpulse,
        sum.datainpulse,
    )
    &&& iproyale_delist_applied(pre.iproyale, replies.iproyale, post.iproyale, sum.iproyale)
    &&& evomi_delist_applied(
        pre.evomi,
        pre.server_ip@,
        replies.evomi,
        post.evomi,
        sum.evomi,
    )
}

impl Proxier {
    /// A new orchestrator with no vendor enabled yet, holding the
    /// given server IP — possibly empty, in which case `setup_proxies`
    /// will take a resolved one.
    pub fn new(server_ip: &str) -> (r: Proxier)
        ensures
            r.server_ip@ == server_ip@,
            r.iproyale is None,
            r.webshare is None,
            r.datainpulse is None,
            r.evomi is None,
    {
        Proxier {
            iproyale: None,
            webshare: None,
            datainpulse: None,
            evomi: None,
            server_ip: server_ip.to_owned(),
        }
    }

    /// Whether the server IP still has to be resolved before a cycle:
    /// it was not supplied at construction. The caller resolves it
    /// (preferring a vendor's what's-my-ip answer, see
    /// [`crate::webshare::resolve_primary`]) and hands the result to
    /// `setup_proxies`.
    pub fn needs_resolution(&self) -> (r: bool)
        ensures
            r == (self.server_ip@.len() == 0),
    {
        self.server_ip.as_str().is_empty()
    }

    /// Activate the vendor configurations for this run and, when no
    /// server IP was supplied at construction, adopt the resolved one.
    /// An IP supplied up front is immutable: a resolved value never
    /// overrides it.
    pub fn setup_proxies(
        &mut self,
        iproyale: Option<IPRoyaleConfiguration>,
        webshare: Option<WebShareConfiguration>,
        datainpulse: Option<DatainpulseConfiguration>,
        evomi: Option<EvomiConfiguration>,
        resolved_ip: String,
    )
        ensures
            final(self).iproyale == iproyale,
            final(self).webshare == webshare,
            final(self).datainpulse == datainpulse,
            final(self).evomi == evomi,
            final(self).server_ip == if old(self).server_ip@.len() == 0 {
                resolved_ip
            } else {
                old(self).server_ip
            },
    {
        if self.server_ip.as_str().is_empty() {
            self.server_ip = resolved_ip;
        }
        self.iproyale = iproyale;
        self.webshare = webshare;
        self.datainpulse = datainpulse;
        self.evomi = evomi;
    }

    /// Whitelist the server IP with every enabled vendor, in the fixed
    /// order webshare, datainpulse, iproyale, evomi. One vendor's
    /// failure never blocks another's attempt and never reaches the
    /// caller; the summary records how each vendor fared.
    pub fn whitelist(&mut self, replies: WhitelistReplies) -> (r: WhitelistSummary)
        ensures
            whitelist_cycle(*old(self), replies, *final(self), r),
    {
        let WhitelistReplies { webshare, datainpulse, iproyale, evomi } = replies;
        let webshare_class = self.whitelist_webshare(webshare);
        let datainpulse_class = self.whitelist_datainpulse(datainpulse);
        let iproyale_class = self.whitelist_iproyale(iproyale);
        let evomi_class = self.whitelist_evomi(evomi);
        WhitelistSummary {
            webshare: webshare_class,
            datainpulse: datainpulse_class,
            iproyale: iproyale_class,
            evomi: evomi_class,
        }
    }

    /// Whitelist webshare: when enabled, apply its register reply and
    /// store the resulting entry; every other vendor's slot is
    /// untouched.
    pub fn whitelist_webshare(&mut self, reply: VendorReply<webshare::ProxyIP>) -> (r: Option<
        RegisterClass,
    >)
        ensures
            webshare_register_applied(
                old(self).webshare,
                old(self).server_ip@,
                reply,
                final(self).webshare,
                r,
            ),
            final(self).server_ip == old(self).server_ip,
            final(self).iproyale == old(self).iproyale,
            final(self).datainpulse == old(self).datainpulse,
            final(self).evomi == old(self).evomi,
    {
        if self.webshare.is_none() {
            return None;
        }
        let out = webshare::register_outcome(self.server_ip.as_str(), reply);
        let class = out.class();
        match out {
            RegisterOutcome::Registered(e) => {
                self.webshare = Some(WebShareConfiguration { whitelist_entry: Some(e) });
            },
            RegisterOutcome::Conflict(e) => {
                self.webshare = Some(WebShareConfiguration { whitelist_entry: Some(e) });
            },
            RegisterOutcome::Skipped(_) => {},
            RegisterOutcome::Failed(_) => {},
        }
        Some(class)
    }

    /// Whitelist datainpulse: when enabled, apply its register reply
    /// to the registered flag.
    pub fn whitelist_datainpulse(&mut self, reply: VendorReply<()>) -> (r: Option<RegisterClass>)
        ensures
            datainpulse_register_applied(
                old(self).datainpulse,
                old(self).server_ip@,
                reply,
                final(self).datainpulse,
                r,
            ),
            final(self).server_ip == old(self).server_ip,
            final(self).iproyale == old(self).iproyale,
            final(self).webshare == old(self).webshare,
            final(self).evomi == old(self).evomi,
    {
        if self.datainpulse.is_none() {
            return None;
        }
        let class = datainpulse::register_outcome(self.server_ip.as_str(), reply);
        match class {
            RegisterClass::Registered => {
                self.datainpulse = Some(DatainpulseConfiguration(true));
            },
            RegisterClass::Conflict => {
                self.datainpulse = Some(DatainpulseConfiguration(true));
            },
            RegisterClass::Skipped(_) => {},
            RegisterClass::Failed(_) => {},
        }
        Some(class)
    }

    /// Whitelist iproyale: when enabled, apply its register reply and
    /// store the resulting entry beside the vendor's addressing
    /// fields, which are never touched.
    pub fn whitelist_iproyale(&mut self, reply: VendorReply<WhitelistEntry>) -> (r: Option<
        RegisterClass,
    >)
        ensures
            iproyale_register_applied(
                old(self).iproyale,
                old(self).server_ip@,
                reply,
                final(self).iproyale,
                r,
            ),
            final(self).server_ip == old(self).server_ip,
            final(self).webshare == old(self).webshare,
            final(self).datainpulse == old(self).datainpulse,
            final(self).evomi == old(self).evomi,
    {
        if self.iproyale.is_none() {
            return None;
        }
        let out = iproyale::register_outcome(self.server_ip.as_str(), reply);
        let class = out.class();
        match out {
            RegisterOutcome::Registered(e) => {
                match &mut self.iproyale {
                    Some(cfg) => cfg.whitelist_entry = Some(e),
                    None => {},
                }
            },
            RegisterOutcome::Conflict(e) => {
                match &mut self.iproyale {
                    Some(cfg) => cfg.whitelist_entry = Some(e),
                    None => {},
                }
            },
            RegisterOutcome::Skipped(_) => {},
            RegisterOutcome::Failed(_) => {},
        }
        Some(class)
    }

    /// Whitelist evomi: when enabled, apply its register reply to the
    /// registered flag. The entry the adapter parsed is reported in
    /// the class only; this vendor stores none.
    pub fn whitelist_evomi(&mut self, reply: VendorReply<evomi::ProxyIP>) -> (r: Option<
        RegisterClass,
    >)
        ensures
            evomi_register_applied(
                old(self).evomi,
                old(self).server_ip@,
                reply,
                final(self).evomi,
                r,
            ),
            final(self).server_ip == old(self).server_ip,
            final(self).iproyale == old(self).iproyale,
            final(self).webshare == old(self).webshare,
            final(self).datainpulse == old(self).datainpulse,
    {
        if self.evomi.is_none() {
            return None;
        }
        let out = evomi::register_outcome(self.server_ip.as_str(), reply);
        let class = out.class();
        match class {
            RegisterClass::Registered => {
                self.evomi = Some(EvomiConfiguration(true));
            },
            RegisterClass::Conflict => {
                self.evomi = Some(EvomiConfiguration(true));
            },
            RegisterClass::Skipped(_) => {},
            RegisterClass::Failed(_) => {},
        }
        Some(class)
    }

    /// Delist every enabled vendor that currently holds whitelist
    /// state, in the fixed order webshare, datainpulse, iproyale,
    /// evomi, and clear that state whatever each vendor answered. A
    /// vendor with nothing stored is skipped outright. As with
    /// whitelisting, no per-vendor failure reaches the caller.
    pub fn delist(&mut self, replies: DelistReplies) -> (r: DelistSummary)
        ensures
            delist_cycle(*old(self), replies, *final(self), r),
    {
        let DelistReplies { webshare, datainpulse, iproyale, evomi } = replies;
        let webshare_out = self.delist_webshare(webshare);
        let datainpulse_out = self.delist_datainpulse(datainpulse);
        let iproyale_out = self.delist_iproyale(iproyale);
        let evomi_out = self.delist_evomi(evomi);
        DelistSummary {
            webshare: webshare_out,
            datainpulse: datainpulse_out,
            iproyale: iproyale_out,
            evomi: evomi_out,
        }
    }

    /// Delist webshare: when an entry is stored, apply the deregister
    /// reply and clear the entry regardless of the answer.
    pub fn delist_webshare(&mut self, reply: VendorReply<()>) -> (r: Option<DeregisterOutcome>)
        ensures
            webshare_delist_applied(old(self).webshare, reply, final(self).webshare, r),
            final(self).server_ip == old(self).server_ip,
            final(self).iproyale == old(self).iproyale,
            final(self).datainpulse == old(self).datainpulse,
            final(self).evomi == old(self).evomi,
    {
        let r = match &self.webshare {
            None => None,
            Some(cfg) => match &cfg.whitelist_entry {
                None => None,
                Some(_) => Some(webshare::deregister_outcome(reply)),
            },
        };
        if r.is_some() {
            self.webshare = Some(WebShareConfiguration { whitelist_entry: None });
        }
        r
    }

    /// Delist datainpulse: when the registered flag is up, apply the
    /// deregister reply — the delete is keyed by the raw IP — and
    /// lower the flag regardless of the answer.
    pub fn delist_datainpulse(&mut self, reply: VendorReply<()>) -> (r: Option<DeregisterOutcome>)
        ensures
            datainpulse_delist_applied(
                old(self).datainpulse,
                old(self).server_ip@,
                reply,
                final(self).datainpulse,
                r,
            ),
            final(self).server_ip == old(self).server_ip,
            final(self).iproyale == old(self).iproyale,
            final(self).webshare == old(self).webshare,
            final(self).evomi == old(self).evomi,
    {
        let r = match &self.datainpulse {
            None => None,
            Some(cfg) => if cfg.0 {
                Some(crate::adapter::deregister_outcome(self.server_ip.as_str(), reply))
            } else {
                None
            },
        };
        if r.is_some() {
            self.datainpulse = Some(DatainpulseConfiguration(false));
        }
        r
    }

    /// Delist iproyale: when an entry is stored, apply the deregister
    /// reply — the delete is keyed by the entry's hash — and clear the
    /// entry regardless of the answer.
    pub fn delist_iproyale(&mut self, reply: VendorReply<()>) -> (r: Option<DeregisterOutcome>)
        ensures
            iproyale_delist_applied(old(self).iproyale, reply, final(self).iproyale, r),
            final(self).server_ip == old(self).server_ip,
            final(self).webshare == old(self).webshare,
            final(self).datainpulse == old(self).datainpulse,
            final(self).evomi == old(self).evomi,
    {
        let r = match &self.iproyale {
            None => None,
            Some(cfg) => match &cfg.whitelist_entry {
                None => None,
                Some(entry) => Some(
                    crate::adapter::deregister_outcome(entry.hash.as_str(), reply),
                ),
            },
        };
        if r.is_some() {
            match &mut self.iproyale {
                Some(cfg) => cfg.whitelist_entry = None,
                None => {},
            }
        }
        r
    }

    /// Delist evomi: when the registered flag is up, apply the
    /// deregister reply — the delete is keyed by the raw IP — and
    /// lower the flag regardless of the answer.
    pub fn delist_evomi(&mut self, reply: VendorReply<()>) -> (r: Option<DeregisterOutcome>)
        ensures
            evomi_delist_applied(
                old(self).evomi,
                old(self).server_ip@,
                reply,
                final(self).evomi,
                r,
            ),
            final(self).server_ip == old(self).server_ip,
            final(self).iproyale == old(self).iproyale,
            final(self).webshare == old(self).webshare,
            final(self).datainpulse == old(self).datainpulse,
    {
        let r = match &self.evomi {
            None => None,
            Some(cfg) => if cfg.0 {
                Some(crate::adapter::deregister_outcome(self.server_ip.as_str(), reply))
            } else {
                None
            },
        };
        if r.is_some() {
            self.evomi = Some(EvomiConfiguration(false));
        }
        r
    }

    /// The register calls the caller should perform before handing
    /// their replies to `whitelist`: one per enabled vendor, none when
    /// the server IP is empty.
    pub fn whitelist_plan(&self) -> (r: WhitelistPlan)
        ensures
            r.webshare == planned_webshare_register(*self),
            r.datainpulse == planned_datainpulse_register(*self),
            r.iproyale == planned_iproyale_register(*self),
            r.evomi == planned_evomi_register(*self),
    {
        let ip_present = !self.server_ip.as_str().is_empty();
        let webshare = if ip_present && self.webshare.is_some() {
            Some(self.server_ip.clone())
        } else {
            None
        };
        let datainpulse = if ip_present && self.datainpulse.is_some() {
            Some(self.server_ip.clone())
        } else {
            None
        };
        let iproyale = match &self.iproyale {
            Some(cfg) => if ip_present {
                Some(
                    RegisterRequest {
                        residential_user_hash: cfg.residential_user_hash.clone(),
                        ip: self.server_ip.clone(),
                        port: cfg.port,
                        configuration: cfg.configuration.clone(),
                    },
                )
            } else {
                None
            },
            None => None,
        };
        let evomi = if ip_present && self.evomi.is_some() {
            Some(self.server_ip.clone())
        } else {
            None
        };
        WhitelistPlan { webshare, datainpulse, iproyale, evomi }
    }

    /// The deregister calls the caller should perform before handing
    /// their replies to `delist`: one per enabled vendor that holds
    /// whitelist state, and none for a vendor with nothing stored.
    pub fn delist_plan(&self) -> (r: DelistPlan)
        ensures
            r.webshare == planned_webshare_deregister(*self),
            r.datainpulse == planned_datainpulse_deregister(*self),
            r.iproyale == planned_iproyale_deregister(*self),
            r.evomi == planned_evomi_deregister(*self),
    {
        let ip_present = !self.server_ip.as_str().is_empty();
        let webshare = match &self.webshare {
            Some(cfg) => match &cfg.whitelist_entry {
                Some(e) => Some(e.id),
                None => None,
            },
            None => None,
        };
        let datainpulse = match &self.datainpulse {
            Some(cfg) => if cfg.0 && ip_present {
                Some(self.server_ip.clone())
            } else {
                None
            },
            None => None,
        };
        let iproyale = match &self.iproyale {
            Some(cfg) => match &cfg.whitelist_entry {
                Some(e) => if !e.hash.as_str().is_empty() {
                    Some(
                        DeregisterRequest {
                            residential_user_hash: cfg.residential_user_hash.clone(),
                            whitelist_entry_hash: e.hash.clone(),
                        },
                    )
                } else {
                    None
                },
                None => None,
            },
            None => None,
        };
        let evomi = match &self.evomi {
            Some(cfg) => if cfg.0 && ip_present {
                Some(self.server_ip.clone())
            } else {
                None
            },
            None => None,
        };
        DelistPlan { webshare, datainpulse, iproyale, evomi }
    }
}

/// No enabled vendor holds whitelist state: every entry slot is unset
/// and every registered flag is down.
pub open spec fn no_vendor_registered(p: Proxier) -> bool {
    &&& (p.webshare matches Some(c) ==> c.whitelist_entry is None)
    &&& (p.iproyale matches Some(c) ==> c.whitelist_entry is None)
    &&& (p.datainpulse matches Some(c) ==> !c.0)
    &&& (p.evomi matches Some(c) ==> !c.0)
}

/// Any delist cycle, from any prior state, leaves every enabled
/// vendor's whitelist state unset — entry slots cleared, flags
/// lowered — whatever every adapter answered. Cleanup is
/// unconditional: a failed deregister still clears the local state,
/// so a cycle can never leave a vendor stuck as "registered".
pub proof fn lemma_delist_clears_all_state(
    pre: Proxier,
    replies: DelistReplies,
    post: Proxier,
    sum: DelistSummary,
)
    requires
        delist_cycle(pre, replies, post, sum),
    ensures
        no_vendor_registered(post),
{
}

/// Running `delist` after `whitelist` leaves every enabled vendor's
/// whitelist state unset, whatever every adapter answered in either
/// cycle: the special case of the unconditional-cleanup law above
/// that closes one whole lifecycle.
pub proof fn lemma_delist_after_whitelist_clears(
    pre: Proxier,
    wreplies: WhitelistReplies,
    mid: Proxier,
    wsum: WhitelistSummary,
    dreplies: DelistReplies,
    post: Proxier,
    dsum: DelistSummary,
)
    requires
        whitelist_cycle(pre, wreplies, mid, wsum),
        delist_cycle(mid, dreplies, post, dsum),
    ensures
        no_vendor_registered(post),
{
    lemma_delist_clears_all_state(mid, dreplies, post, dsum);
}

/// Running `whitelist` twice in a row never produces more than the
/// one entry per vendor that its slot can hold, and never loses a
/// registration: a vendor registered after the first cycle is still
/// registered after the second — its entry overwritten on a fresh
/// success or conflict, and kept as it was when the second attempt
/// was skipped or failed. Neither cycle raises any error.
pub proof fn lemma_second_whitelist_keeps_registration(
    pre: Proxier,
    first: WhitelistReplies,
    mid: Proxier,
    first_sum: WhitelistSummary,
    second: WhitelistReplies,
    post: Proxier,
    second_sum: WhitelistSummary,
)
    requires
        whitelist_cycle(pre, first, mid, first_sum),
        whitelist_cycle(mid, second, post, second_sum),
    ensures
        mid.webshare matches Some(c) && c.whitelist_entry is Some ==> (post.webshare matches Some(
            after,
        ) && after.whitelist_entry is Some),
        mid.iproyale matches Some(c) && c.whitelist_entry is Some ==> (post.iproyale matches Some(
            after,
        ) && after.whitelist_entry is Some),
        mid.datainpulse matches Some(c) && c.0 ==> (post.datainpulse matches Some(after)
            && after.0),
        mid.evomi matches Some(c) && c.0 ==> (post.evomi matches Some(after) && after.0),
{
}

/// Delisting a vendor that holds no whitelist state is a no-op: the
/// plan asks for no deregister call — so its adapter is never invoked
/// — the summary reports nothing for it, and its configuration is
/// left exactly as it was.
pub proof fn lemma_delist_without_state_is_noop(
    pre: Proxier,
    replies: DelistReplies,
    post: Proxier,
    sum: DelistSummary,
)
    requires
        delist_cycle(pre, replies, post, sum),
    ensures
        pre.webshare matches Some(c) && c.whitelist_entry is None ==> (
        planned_webshare_deregister(pre) is None && post.webshare == pre.webshare
            && sum.webshare is None),
        pre.iproyale matches Some(c) && c.whitelist_entry is None ==> (
        planned_iproyale_deregister(pre) is None && post.iproyale == pre.iproyale
            && sum.iproyale is None),
        pre.datainpulse matches Some(c) && !c.0 ==> (planned_datainpulse_deregister(pre) is None
            && post.datainpulse == pre.datainpulse && sum.datainpulse is None),
        pre.evomi matches Some(c) && !c.0 ==> (planned_evomi_deregister(pre) is None
            && post.evomi == pre.evomi && sum.evomi is None),
{
}

/// When IP resolution failed — the server IP is empty — a whitelist
/// cycle plans no register call for any vendor; and were a register
/// reply fed in anyway, every adapter's decision would be to skip the
/// empty target rather than send it.
pub proof fn lemma_empty_ip_whitelists_nothing(
    p: Proxier,
    webshare_reply: VendorReply<webshare::ProxyIP>,
    datainpulse_reply: VendorReply<()>,
    iproyale_reply: VendorReply<WhitelistEntry>,
    evomi_reply: VendorReply<evomi::ProxyIP>,
)
    requires
        p.server_ip@.len() == 0,
    ensures
        planned_webshare_register(p) is None,
        planned_datainpulse_register(p) is None,
        planned_iproyale_register(p) is None,
        planned_evomi_register(p) is None,
        webshare::register_class(p.server_ip@, webshare_reply) == RegisterClass::Skipped(
            crate::adapter::SkipReason::EmptyTarget,
        ),
        datainpulse::register_class(p.server_ip@, datainpulse_reply) == RegisterClass::Skipped(
            crate::adapter::SkipReason::EmptyTarget,
        ),
        iproyale::register_class(p.server_ip@, iproyale_reply) == RegisterClass::Skipped(
            crate::adapter::SkipReason::EmptyTarget,
        ),
        evomi::register_class(p.server_ip@, evomi_reply) == RegisterClass::Skipped(
            crate::adapter::SkipReason::EmptyTarget,
        ),
{
}

/// With an empty server IP a whitelist cycle changes no vendor's
/// state at all: every enabled vendor's attempt is skipped and its
/// slot left as it was.
pub proof fn lemma_empty_ip_whitelist_cycle_is_noop(
    pre: Proxier,
    replies: WhitelistReplies,
    post: Proxier,
    sum: WhitelistSummary,
)
    requires
        pre.server_ip@.len() == 0,
        whitelist_cycle(pre, replies, post, sum),
    ensures
        post.webshare == pre.webshare,
        post.datainpulse == pre.datainpulse,
        post.iproyale == pre.iproyale,
        post.evomi == pre.evomi,
        post.server_ip == pre.server_ip,
{
}

} // verus!
