use ceammc_net::discovery::{
    iface_request, join_addresses, mdns, mdns_rc, name_to_iface, registration, Attempt,
    EngineReply, IfaceSelector, Step, Unregistered, DEFAULT_RETRIES,
};
use ceammc_net::domain::{add_local_domain_suffix, local_service_name, make_fullname, str_equals};

type State = mdns<u32, &'static str>;

#[test]
fn suffix_kept_when_already_local() {
    assert_eq!(add_local_domain_suffix(&"host.local.".to_string()), "host.local.");
}

#[test]
fn suffix_dot_appended_after_local() {
    assert_eq!(add_local_domain_suffix(&"host.local".to_string()), "host.local.");
}

#[test]
fn suffix_label_appended_after_dot() {
    assert_eq!(add_local_domain_suffix(&"host.".to_string()), "host.local.");
}

#[test]
fn suffix_appended_outright() {
    assert_eq!(add_local_domain_suffix(&"host".to_string()), "host.local.");
    assert_eq!(add_local_domain_suffix(&"".to_string()), ".local.");
}

#[test]
fn suffix_normalizing_twice_changes_nothing() {
    for h in ["a", "a.", "a.local", "a.local.", "_osc._udp", "x.locals"] {
        let once = add_local_domain_suffix(&h.to_string());
        let twice = add_local_domain_suffix(&once);
        assert_eq!(once, twice);
        assert!(once.ends_with(".local."));
    }
}

#[test]
fn service_name_in_local_domain() {
    assert_eq!(local_service_name("_osc._udp"), "_osc._udp.local.");
}

#[test]
fn fullname_joins_instance_and_service() {
    assert_eq!(make_fullname("EXAMPLE", "_http._tcp."), "EXAMPLE._http._tcp.local.");
    assert_eq!(make_fullname("My Service", "_osc._udp.local."), "My Service._osc._udp.local.");
}

#[test]
fn strings_compared_by_characters() {
    assert!(str_equals("ipv4", "ipv4"));
    assert!(!str_equals("ipv4", "ipv6"));
    assert!(!str_equals("ip", "ipv4"));
}

#[test]
fn register_then_unregister_leaves_record_empty() {
    let mut s: State = mdns::new();
    let full = make_fullname("inst", "_osc._udp");
    let a = s.first_attempt();
    let step = s.register_step(full.clone(), a, EngineReply::Done("info"));
    assert_eq!(step, Step::Done { rc: mdns_rc::Success, report: false });
    assert_eq!(s.registration_count(), 1);
    assert!(s.is_registered(&full));
    let step = s.unregister_step(&full, s.first_attempt(), EngineReply::Done(Unregistered::Confirmed));
    assert_eq!(step, Step::Done { rc: mdns_rc::Success, report: false });
    assert_eq!(s.registration_count(), 0);
}

#[test]
fn subscribing_twice_keeps_one_listener() {
    let mut s: State = mdns::new();
    let name = local_service_name("_osc._udp");
    let a = s.first_attempt();
    assert_eq!(
        s.subscribe_step(name.clone(), a, EngineReply::Done(1)),
        Step::Done { rc: mdns_rc::Success, report: false }
    );
    assert_eq!(
        s.subscribe_step(name.clone(), a, EngineReply::Done(2)),
        Step::Done { rc: mdns_rc::Success, report: false }
    );
    assert_eq!(s.subscription_count(), 1);
    assert_eq!(s.services()[0].1, 1);
}

#[test]
fn transient_register_failure_retried_once() {
    let mut s: State = mdns::new();
    let full = make_fullname("inst", "_osc._udp");
    let first = s.first_attempt();
    assert_eq!(first, Attempt { retries_left: DEFAULT_RETRIES });
    let step = s.register_step(full.clone(), first, EngineReply::Again);
    let next = Attempt { retries_left: 0 };
    assert_eq!(step, Step::Retry { next, pause: true });
    assert_eq!(s.registration_count(), 0);
    let step = s.register_step(full.clone(), next, EngineReply::Done("info"));
    assert_eq!(step, Step::Done { rc: mdns_rc::Success, report: false });
    assert_eq!(s.registration_count(), 1);
}

#[test]
fn second_transient_answer_fails() {
    let mut s: State = mdns::new();
    let step = s.register_step("x".to_string(), Attempt { retries_left: 0 }, EngineReply::Again);
    assert_eq!(step, Step::Done { rc: mdns_rc::ServiceError, report: true });
    let step = s.subscribe_step("y".to_string(), Attempt { retries_left: 0 }, EngineReply::Again);
    assert_eq!(step, Step::Done { rc: mdns_rc::ServiceError, report: true });
    assert_eq!(s.subscription_count(), 0);
}

#[test]
fn retry_budget_is_configurable() {
    let s: State = mdns::with_retries(3);
    assert_eq!(s.first_attempt(), Attempt { retries_left: 3 });
    let none: State = mdns::with_retries(0);
    let mut none = none;
    let step = none.register_step("x".to_string(), none.first_attempt(), EngineReply::Again);
    assert_eq!(step, Step::Done { rc: mdns_rc::ServiceError, report: true });
}

#[test]
fn failed_unsubscribe_still_forgets_the_type() {
    let mut s: State = mdns::new();
    let name = "_a._udp.local.".to_string();
    s.subscribe_step(name.clone(), s.first_attempt(), EngineReply::Done(7));
    let step = s.unsubscribe_step(&name, s.first_attempt(), EngineReply::Failed);
    assert_eq!(step, Step::Done { rc: mdns_rc::ServiceError, report: true });
    assert!(!s.is_subscribed(&name));
}

#[test]
fn transient_unsubscribe_keeps_the_type_until_done() {
    let mut s: State = mdns::new();
    let name = "_a._udp.local.".to_string();
    s.subscribe_step(name.clone(), s.first_attempt(), EngineReply::Done(7));
    let step = s.unsubscribe_step(&name, s.first_attempt(), EngineReply::Again);
    assert_eq!(step, Step::Retry { next: Attempt { retries_left: 0 }, pause: true });
    assert!(s.is_subscribed(&name));
    let step = s.unsubscribe_step(&name, Attempt { retries_left: 0 }, EngineReply::Again);
    assert_eq!(step, Step::Done { rc: mdns_rc::ServiceError, report: true });
    assert!(!s.is_subscribed(&name));
}

#[test]
fn unregister_outcomes() {
    let mut s: State = mdns::new();
    let full = "a._b._udp.local.".to_string();
    s.add_register(full.clone(), "i");
    let step = s.unregister_step(&full, s.first_attempt(), EngineReply::Again);
    assert_eq!(step, Step::Retry { next: Attempt { retries_left: 0 }, pause: false });
    let step = s.unregister_step(&full, s.first_attempt(), EngineReply::Done(Unregistered::NotFound));
    assert_eq!(step, Step::Done { rc: mdns_rc::ServiceNotFound, report: true });
    assert!(s.is_registered(&full));
    let step = s.unregister_step(&full, s.first_attempt(), EngineReply::Failed);
    assert_eq!(step, Step::Done { rc: mdns_rc::ServiceError, report: true });
    assert!(s.is_registered(&full));
}

#[test]
fn record_replaces_and_deletes() {
    let mut s: State = mdns::new();
    assert!(!s.add_register("a".to_string(), "1"));
    assert!(s.add_register("a".to_string(), "2"));
    assert!(!s.add_register("b".to_string(), "3"));
    assert_eq!(s.registration_count(), 2);
    assert!(s.del_register(&"a".to_string()));
    assert!(!s.del_register(&"a".to_string()));
    let rest = s.unregister_all();
    assert_eq!(rest, vec![("b".to_string(), "3")]);
    assert_eq!(s.registration_count(), 0);
}

#[test]
fn remove_service_drops_listener() {
    let mut s: State = mdns::new();
    s.add_service("a".to_string(), 1);
    s.add_service("b".to_string(), 2);
    s.remove_service(&"a".to_string());
    assert_eq!(s.subscription_count(), 1);
    assert_eq!(s.services()[0], ("b".to_string(), 2));
}

#[test]
fn interface_names() {
    assert_eq!(name_to_iface("all"), IfaceSelector::All);
    assert_eq!(name_to_iface("*"), IfaceSelector::All);
    assert_eq!(name_to_iface("ipv4"), IfaceSelector::IPv4);
    assert_eq!(name_to_iface("ipv6"), IfaceSelector::IPv6);
    assert_eq!(name_to_iface("eth1"), IfaceSelector::Named("eth1".to_string()));
    assert_eq!(iface_request("!ipv6"), (false, IfaceSelector::IPv6));
    assert_eq!(iface_request("lo0"), (true, IfaceSelector::Named("lo0".to_string())));
    assert_eq!(iface_request("!127.0.0.1"), (false, IfaceSelector::Named("127.0.0.1".to_string())));
}

#[test]
fn addresses_joined_by_commas() {
    assert_eq!(join_addresses(&vec![]), "");
    assert_eq!(join_addresses(&vec!["10.0.0.1".to_string()]), "10.0.0.1");
    assert_eq!(
        join_addresses(&vec!["10.0.0.1".to_string(), "".to_string(), "::1".to_string()]),
        "10.0.0.1,,::1"
    );
}

#[test]
fn registration_from_descriptor() {
    let r = registration("_osc._udp", "synth", "studio", &vec!["192.168.0.2".to_string()]);
    assert_eq!(r.service, "_osc._udp.local.");
    assert_eq!(r.name, "synth");
    assert_eq!(r.host, "studio.local.");
    assert_eq!(r.fullname, "synth._osc._udp.local.");
    assert_eq!(r.addresses, "192.168.0.2");
}

#[test]
fn resubscribing_needs_no_engine_call() {
    let mut s: State = mdns::new();
    let name = "_a._udp.local.".to_string();
    assert_eq!(s.subscribe_begin(&name), None);
    s.subscribe_step(name.clone(), s.first_attempt(), EngineReply::Done(1));
    assert_eq!(s.subscribe_begin(&name), Some(mdns_rc::Success));
}

#[test]
fn engine_description_of_registration() {
    let r = registration("_osc._udp", "synth", "studio", &vec!["192.168.0.2".to_string()]);
    let info = ceammc_net::discovery::service_info(&r, 9000, None).unwrap();
    assert_eq!(info.get_fullname(), "synth._osc._udp.local.");
    assert_eq!(info.get_port(), 9000);
    let bad = registration("_osc._udp", "synth", "studio", &vec!["not an address".to_string()]);
    assert!(ceammc_net::discovery::service_info(&bad, 9000, None).is_err());
}

#[test]
fn engine_refuses_bad_txt_keys() {
    let r = registration("_osc._udp", "synth", "studio", &vec![]);
    let mut good = std::collections::HashMap::new();
    good.insert("key".to_string(), "v=1".to_string());
    assert!(ceammc_net::discovery::service_info(&r, 1, Some(good)).is_ok());
    let mut eq = std::collections::HashMap::new();
    eq.insert("a=b".to_string(), "v".to_string());
    assert!(ceammc_net::discovery::service_info(&r, 1, Some(eq)).is_err());
    let mut wide = std::collections::HashMap::new();
    wide.insert("ключ".to_string(), "v".to_string());
    assert!(ceammc_net::discovery::service_info(&r, 1, Some(wide)).is_err());
    assert!(ceammc_net::discovery::service_info(&r, 1, None).is_ok());
}
