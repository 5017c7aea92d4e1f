//! The orchestrator lifecycle: setup, whitelist, delist, the request
//! plans, and the cross-vendor resilience scenarios.

use proxy_whitelist::adapter::{
    AdapterError, DeregisterOutcome, RegisterClass, SkipReason, VendorReply,
};
use proxy_whitelist::proxier::{
    DatainpulseConfiguration, DelistReplies, EvomiConfiguration, IPRoyaleConfiguration, Proxier,
    WebShareConfiguration, WhitelistReplies,
};
use proxy_whitelist::{evomi, iproyale, webshare};

fn all_vendors(server_ip: &str) -> Proxier {
    let mut p = Proxier::new(server_ip);
    p.setup_proxies(
        Some(IPRoyaleConfiguration {
            residential_user_hash: "user-hash".to_string(),
            port: 12321,
            configuration: "sticky".to_string(),
            whitelist_entry: None,
        }),
        Some(WebShareConfiguration { whitelist_entry: None }),
        Some(DatainpulseConfiguration(false)),
        Some(EvomiConfiguration(false)),
        String::new(),
    );
    p
}

fn webshare_entry(id: u128, ip: &str) -> webshare::ProxyIP {
    webshare::ProxyIP {
        ip_address: ip.to_string(),
        id,
        created_at: Some("2024-01-01".to_string()),
        last_used_at: None,
    }
}

fn iproyale_entry(hash: &str, ip: &str) -> iproyale::WhitelistEntry {
    iproyale::WhitelistEntry {
        hash: hash.to_string(),
        ip: ip.to_string(),
        port: 12321,
        kind: String::new(),
        configuration: "sticky".to_string(),
    }
}

fn ok_whitelist_replies(ip: &str) -> WhitelistReplies {
    WhitelistReplies {
        webshare: VendorReply::Reply { status: 200, body: Some(webshare_entry(42, ip)) },
        datainpulse: VendorReply::Reply { status: 200, body: None },
        iproyale: VendorReply::Reply { status: 201, body: Some(iproyale_entry("h1", ip)) },
        evomi: VendorReply::Reply {
            status: 200,
            body: Some(evomi::ProxyIP {
                ip_address: ip.to_string(),
                id: 1,
                created_at: None,
                last_used_at: None,
            }),
        },
    }
}

fn ok_delist_replies() -> DelistReplies {
    DelistReplies {
        webshare: VendorReply::Reply { status: 204, body: None },
        datainpulse: VendorReply::Reply { status: 200, body: None },
        iproyale: VendorReply::Reply { status: 204, body: None },
        evomi: VendorReply::Reply { status: 200, body: None },
    }
}

fn assert_nothing_registered(p: &Proxier) {
    assert_eq!(p.webshare.as_ref().unwrap().whitelist_entry, None);
    assert_eq!(p.iproyale.as_ref().unwrap().whitelist_entry, None);
    assert!(!p.datainpulse.as_ref().unwrap().0);
    assert!(!p.evomi.as_ref().unwrap().0);
}

#[test]
fn delist_after_whitelist_clears_every_vendor_on_success() {
    let mut p = all_vendors("203.0.113.5");
    p.whitelist(ok_whitelist_replies("203.0.113.5"));
    p.delist(ok_delist_replies());
    assert_nothing_registered(&p);
}

#[test]
fn delist_after_whitelist_clears_every_vendor_despite_failures() {
    let mut p = all_vendors("203.0.113.5");
    p.whitelist(ok_whitelist_replies("203.0.113.5"));
    let sum = p.delist(DelistReplies {
        webshare: VendorReply::TransportError,
        datainpulse: VendorReply::Reply { status: 500, body: None },
        iproyale: VendorReply::AuthMissing,
        evomi: VendorReply::Reply { status: 403, body: None },
    });
    assert_nothing_registered(&p);
    assert_eq!(sum.webshare, Some(DeregisterOutcome::Failed(AdapterError::TransportError)));
    assert_eq!(
        sum.datainpulse,
        Some(DeregisterOutcome::Failed(AdapterError::VendorRejected(500))),
    );
    assert_eq!(sum.iproyale, Some(DeregisterOutcome::Skipped(SkipReason::AuthMissing)));
    assert_eq!(sum.evomi, Some(DeregisterOutcome::Failed(AdapterError::VendorRejected(403))));
}

#[test]
fn whitelist_twice_keeps_one_entry_per_vendor() {
    let mut p = all_vendors("203.0.113.5");
    p.whitelist(ok_whitelist_replies("203.0.113.5"));
    let first_entry = p.webshare.as_ref().unwrap().whitelist_entry.clone();
    assert_eq!(first_entry, Some(webshare_entry(42, "203.0.113.5")));

    // The second run fails for webshare and conflicts for the rest:
    // nothing is duplicated and nothing registered is lost.
    let sum = p.whitelist(WhitelistReplies {
        webshare: VendorReply::TransportError,
        datainpulse: VendorReply::Reply { status: 409, body: None },
        iproyale: VendorReply::Reply { status: 409, body: None },
        evomi: VendorReply::Reply { status: 500, body: None },
    });
    assert_eq!(p.webshare.as_ref().unwrap().whitelist_entry, first_entry);
    assert_eq!(
        p.iproyale.as_ref().unwrap().whitelist_entry,
        Some(iproyale::WhitelistEntry::empty()),
    );
    assert!(p.datainpulse.as_ref().unwrap().0);
    assert!(p.evomi.as_ref().unwrap().0);
    assert_eq!(sum.webshare, Some(RegisterClass::Failed(AdapterError::TransportError)));
    assert_eq!(sum.datainpulse, Some(RegisterClass::Conflict));
}

#[test]
fn delist_without_stored_state_is_noop() {
    let mut p = all_vendors("203.0.113.5");
    let plan = p.delist_plan();
    assert_eq!(plan.webshare, None);
    assert_eq!(plan.datainpulse, None);
    assert_eq!(plan.iproyale, None);
    assert_eq!(plan.evomi, None);
    let before = p.clone();
    let sum = p.delist(ok_delist_replies());
    assert_eq!(sum.webshare, None);
    assert_eq!(sum.datainpulse, None);
    assert_eq!(sum.iproyale, None);
    assert_eq!(sum.evomi, None);
    assert_eq!(p, before);
}

#[test]
fn empty_ip_plans_no_register_call_and_adapters_noop() {
    // Resolution failed: the resolver handed back an empty string.
    let mut p = all_vendors("");
    assert!(p.needs_resolution());
    let plan = p.whitelist_plan();
    assert_eq!(plan.webshare, None);
    assert_eq!(plan.datainpulse, None);
    assert_eq!(plan.iproyale, None);
    assert_eq!(plan.evomi, None);
    let before = p.clone();
    let sum = p.whitelist(ok_whitelist_replies("203.0.113.5"));
    assert_eq!(sum.webshare, Some(RegisterClass::Skipped(SkipReason::EmptyTarget)));
    assert_eq!(sum.datainpulse, Some(RegisterClass::Skipped(SkipReason::EmptyTarget)));
    assert_eq!(sum.iproyale, Some(RegisterClass::Skipped(SkipReason::EmptyTarget)));
    assert_eq!(sum.evomi, Some(RegisterClass::Skipped(SkipReason::EmptyTarget)));
    assert_eq!(p, before);
}

#[test]
fn conflict_409_records_vendor_without_erroring() {
    let mut p = all_vendors("203.0.113.5");
    let sum = p.whitelist(WhitelistReplies {
        webshare: VendorReply::Reply { status: 200, body: None },
        datainpulse: VendorReply::Reply { status: 200, body: None },
        iproyale: VendorReply::Reply { status: 409, body: None },
        evomi: VendorReply::Reply { status: 200, body: None },
    });
    // The vendor was attempted and is recorded as conflict-success,
    // not as an error; an (empty) entry marks it registered.
    assert_eq!(sum.iproyale, Some(RegisterClass::Conflict));
    assert_eq!(
        p.iproyale.as_ref().unwrap().whitelist_entry,
        Some(iproyale::WhitelistEntry::empty()),
    );
}

#[test]
fn single_vendor_scenario_register_then_delist_by_id() {
    let mut p = Proxier::new("203.0.113.5");
    p.setup_proxies(
        None,
        Some(WebShareConfiguration { whitelist_entry: None }),
        None,
        None,
        String::new(),
    );
    let plan = p.whitelist_plan();
    assert_eq!(plan.webshare, Some("203.0.113.5".to_string()));
    assert_eq!(plan.datainpulse, None);
    assert_eq!(plan.iproyale, None);
    assert_eq!(plan.evomi, None);

    let entry = webshare::ProxyIP {
        ip_address: "203.0.113.5".to_string(),
        id: 42,
        created_at: None,
        last_used_at: None,
    };
    let sum = p.whitelist(WhitelistReplies {
        webshare: VendorReply::Reply { status: 200, body: Some(entry.clone()) },
        datainpulse: VendorReply::AuthMissing,
        iproyale: VendorReply::AuthMissing,
        evomi: VendorReply::AuthMissing,
    });
    assert_eq!(sum.webshare, Some(RegisterClass::Registered));
    assert_eq!(p.webshare.as_ref().unwrap().whitelist_entry, Some(entry));

    // Exactly one deregister call is planned, keyed by the entry id.
    let plan = p.delist_plan();
    assert_eq!(plan.webshare, Some(42));
    let sum = p.delist(ok_delist_replies());
    assert_eq!(sum.webshare, Some(DeregisterOutcome::Deregistered));
    assert_eq!(p.webshare.as_ref().unwrap().whitelist_entry, None);
    // A second delist would not invoke the adapter again.
    assert_eq!(p.delist_plan().webshare, None);
}

#[test]
fn one_vendor_failing_does_not_block_another() {
    let mut p = Proxier::new("203.0.113.5");
    p.setup_proxies(
        Some(IPRoyaleConfiguration {
            residential_user_hash: "user-hash".to_string(),
            port: 12321,
            configuration: "sticky".to_string(),
            whitelist_entry: None,
        }),
        Some(WebShareConfiguration { whitelist_entry: None }),
        None,
        None,
        String::new(),
    );
    let good = iproyale_entry("h9", "203.0.113.5");
    let sum = p.whitelist(WhitelistReplies {
        webshare: VendorReply::TransportError,
        datainpulse: VendorReply::AuthMissing,
        iproyale: VendorReply::Reply { status: 200, body: Some(good.clone()) },
        evomi: VendorReply::AuthMissing,
    });
    assert_eq!(p.webshare.as_ref().unwrap().whitelist_entry, None);
    assert_eq!(p.iproyale.as_ref().unwrap().whitelist_entry, Some(good));
    assert_eq!(sum.webshare, Some(RegisterClass::Failed(AdapterError::TransportError)));
    assert_eq!(sum.iproyale, Some(RegisterClass::Registered));
}

#[test]
fn setup_adopts_resolved_ip_only_when_absent() {
    let mut p = Proxier::new("");
    assert!(p.needs_resolution());
    p.setup_proxies(None, None, None, None, "198.51.100.7".to_string());
    assert_eq!(p.server_ip, "198.51.100.7".to_string());
    assert!(!p.needs_resolution());

    let mut q = Proxier::new("203.0.113.5");
    assert!(!q.needs_resolution());
    q.setup_proxies(None, None, None, None, "198.51.100.7".to_string());
    assert_eq!(q.server_ip, "203.0.113.5".to_string());
}

#[test]
fn disabled_vendors_report_nothing_and_stay_disabled() {
    let mut p = Proxier::new("203.0.113.5");
    p.setup_proxies(None, None, None, None, String::new());
    let sum = p.whitelist(ok_whitelist_replies("203.0.113.5"));
    assert_eq!(sum.webshare, None);
    assert_eq!(sum.datainpulse, None);
    assert_eq!(sum.iproyale, None);
    assert_eq!(sum.evomi, None);
    assert!(p.webshare.is_none());
    assert!(p.iproyale.is_none());
    let dsum = p.delist(ok_delist_replies());
    assert_eq!(dsum.webshare, None);
    assert_eq!(dsum.iproyale, None);
}

#[test]
fn whitelist_plan_carries_iproyale_request_fields() {
    let p = all_vendors("203.0.113.5");
    let plan = p.whitelist_plan();
    let req = plan.iproyale.unwrap();
    assert_eq!(req.residential_user_hash, "user-hash".to_string());
    assert_eq!(req.ip, "203.0.113.5".to_string());
    assert_eq!(req.port, 12321);
    assert_eq!(req.configuration, "sticky".to_string());
    assert_eq!(plan.datainpulse, Some("203.0.113.5".to_string()));
    assert_eq!(plan.evomi, Some("203.0.113.5".to_string()));
}

#[test]
fn delist_plan_keys_each_vendor_correctly() {
    let mut p = all_vendors("203.0.113.5");
    p.whitelist(ok_whitelist_replies("203.0.113.5"));
    let plan = p.delist_plan();
    assert_eq!(plan.webshare, Some(42));
    assert_eq!(plan.datainpulse, Some("203.0.113.5".to_string()));
    let req = plan.iproyale.unwrap();
    assert_eq!(req.residential_user_hash, "user-hash".to_string());
    assert_eq!(req.whitelist_entry_hash, "h1".to_string());
    assert_eq!(plan.evomi, Some("203.0.113.5".to_string()));

    // Delisting clears the entry but never touches the vendor's
    // addressing fields, whatever the vendor answered.
    p.delist(DelistReplies {
        webshare: VendorReply::Reply { status: 204, body: None },
        datainpulse: VendorReply::Reply { status: 200, body: None },
        iproyale: VendorReply::TransportError,
        evomi: VendorReply::Reply { status: 200, body: None },
    });
    let cfg = p.iproyale.as_ref().unwrap();
    assert_eq!(cfg.whitelist_entry, None);
    assert_eq!(cfg.residential_user_hash, "user-hash".to_string());
    assert_eq!(cfg.port, 12321);
    assert_eq!(cfg.configuration, "sticky".to_string());
    assert_eq!(p.delist_plan().iproyale, None);
}

#[test]
fn delist_plan_skips_entry_with_empty_hash_but_delist_still_clears() {
    let mut p = all_vendors("203.0.113.5");
    // A conflict stored the empty entry: there is no hash to delete by.
    p.whitelist(WhitelistReplies {
        webshare: VendorReply::AuthMissing,
        datainpulse: VendorReply::AuthMissing,
        iproyale: VendorReply::Reply { status: 409, body: None },
        evomi: VendorReply::AuthMissing,
    });
    assert_eq!(
        p.iproyale.as_ref().unwrap().whitelist_entry,
        Some(iproyale::WhitelistEntry::empty()),
    );
    assert_eq!(p.delist_plan().iproyale, None);
    let sum = p.delist(ok_delist_replies());
    assert_eq!(sum.iproyale, Some(DeregisterOutcome::Skipped(SkipReason::EmptyTarget)));
    assert_eq!(p.iproyale.as_ref().unwrap().whitelist_entry, None);
}

#[test]
fn evomi_and_datainpulse_flag_lifecycle() {
    let mut p = all_vendors("203.0.113.5");
    let sum = p.whitelist(WhitelistReplies {
        webshare: VendorReply::AuthMissing,
        datainpulse: VendorReply::Reply { status: 200, body: None },
        iproyale: VendorReply::AuthMissing,
        evomi: VendorReply::Reply { status: 500, body: None },
    });
    // evomi's bare 500 on register counts as already-whitelisted.
    assert_eq!(sum.evomi, Some(RegisterClass::Conflict));
    assert!(p.datainpulse.as_ref().unwrap().0);
    assert!(p.evomi.as_ref().unwrap().0);
    let plan = p.delist_plan();
    assert_eq!(plan.datainpulse, Some("203.0.113.5".to_string()));
    assert_eq!(plan.evomi, Some("203.0.113.5".to_string()));
    p.delist(ok_delist_replies());
    assert!(!p.datainpulse.as_ref().unwrap().0);
    assert!(!p.evomi.as_ref().unwrap().0);
    assert_eq!(p.delist_plan().datainpulse, None);
    assert_eq!(p.delist_plan().evomi, None);
}
