//! The discovery adapter's own state and decisions: the subscription set,
//! the registration record, the retry policy on transient engine answers,
//! and the requests derived from host input.
//!
//! Each operation is driven one engine answer at a time: the caller makes
//! the engine call, classifies its answer as an [`EngineReply`], and hands it
//! to the matching `*_step` method, which updates the state and says whether
//! to call again or which status ends the operation.

use vstd::prelude::*;
use vstd::string::*;
use crate::domain::{str_equals, fullname_of, with_local_domain, local_service_name, add_local_domain_suffix, make_fullname};
use crate::keyed::{Keyed, lemma_keyed_finite};

verus! {

/// Status codes of the discovery adapter.
#[derive(PartialEq, Eq, Structural, Debug, Clone, Copy)]
#[allow(non_camel_case_types)]
pub enum mdns_rc {
    Success,
    /// when no adapter handle was given
    NullService,
    ServiceError,
    InvalidString,
    BrowseFailed,
    SetOptionError,
    ServiceNotFound,
}

/// The discovery engine's answer to one call, as the decisions read it.
pub enum EngineReply<T> {
    /// The call succeeded and handed back this value.
    Done(T),
    /// A transient "try again" condition.
    Again,
    /// Any other failure.
    Failed,
}

/// What the engine confirmed about an unregistration.
#[derive(PartialEq, Eq, Structural, Debug, Clone, Copy)]
pub enum Unregistered {
    Confirmed,
    NotFound,
}

/// How many more engine calls an operation may make after a transient answer.
#[derive(PartialEq, Eq, Structural, Debug, Clone, Copy)]
pub struct Attempt {
    pub retries_left: u32,
}

/// The retry budget of each operation unless the adapter is given another.
pub const DEFAULT_RETRIES: u32 = 1;

impl Attempt {
    /// The first call of an operation that may retry `retries` times.
    pub fn first(retries: u32) -> (r: Attempt)
        ensures
            r.retries_left == retries,
    {
        Attempt { retries_left: retries }
    }
}

/// What the caller does after handing an engine answer to a step.
#[derive(PartialEq, Eq, Structural, Debug, Clone, Copy)]
pub enum Step {
    /// Call the engine again as `next`; `pause` asks for the short sleep first.
    Retry { next: Attempt, pause: bool },
    /// The operation is over with `rc`; `report` asks for an error text to the host.
    Done { rc: mdns_rc, report: bool },
}

/// After a transient answer: retry while the budget lasts, else fail.
pub open spec fn again_step(a: Attempt, pause: bool) -> Step {
    if a.retries_left > 0 {
        Step::Retry { next: Attempt { retries_left: (a.retries_left - 1) as u32 }, pause }
    } else {
        Step::Done { rc: mdns_rc::ServiceError, report: true }
    }
}

/// The step after an answer to browse, stop-browse or register.
pub open spec fn outcome_step<T>(a: Attempt, reply: EngineReply<T>, pause: bool) -> Step {
    match reply {
        EngineReply::Done(_) => Step::Done { rc: mdns_rc::Success, report: false },
        EngineReply::Again => again_step(a, pause),
        EngineReply::Failed => Step::Done { rc: mdns_rc::ServiceError, report: true },
    }
}

/// The step after an answer to unregister: retried at once, without a pause.
pub open spec fn unregister_outcome(a: Attempt, reply: EngineReply<Unregistered>) -> Step {
    match reply {
        EngineReply::Done(Unregistered::Confirmed) => Step::Done { rc: mdns_rc::Success, report: false },
        EngineReply::Done(Unregistered::NotFound) => Step::Done {
            rc: mdns_rc::ServiceNotFound,
            report: true,
        },
        EngineReply::Again => again_step(a, false),
        EngineReply::Failed => Step::Done { rc: mdns_rc::ServiceError, report: true },
    }
}

/// The subscription set after an answer to browse: a listener is kept only
/// for a type that has none yet.
pub open spec fn subscribed<R>(subs: Map<Seq<char>, R>, k: Seq<char>, reply: EngineReply<R>) -> Map<
    Seq<char>,
    R,
> {
    match reply {
        EngineReply::Done(r) => if subs.contains_key(k) {
            subs
        } else {
            subs.insert(k, r)
        },
        _ => subs,
    }
}

/// The subscription set after an answer to stop-browse: the type is dropped
/// on every terminal answer, failed or not.
pub open spec fn unsubscribed<R>(
    subs: Map<Seq<char>, R>,
    k: Seq<char>,
    a: Attempt,
    reply: EngineReply<()>,
) -> Map<Seq<char>, R> {
    match reply {
        EngineReply::Again => if a.retries_left > 0 {
            subs
        } else {
            subs.remove(k)
        },
        _ => subs.remove(k),
    }
}

/// The registration record after an answer to register.
pub open spec fn registered<I>(rec: Map<Seq<char>, I>, k: Seq<char>, reply: EngineReply<I>) -> Map<
    Seq<char>,
    I,
> {
    match reply {
        EngineReply::Done(info) => rec.insert(k, info),
        _ => rec,
    }
}

/// The registration record after an answer to unregister.
pub open spec fn unregistered<I>(
    rec: Map<Seq<char>, I>,
    k: Seq<char>,
    reply: EngineReply<Unregistered>,
) -> Map<Seq<char>, I> {
    match reply {
        EngineReply::Done(Unregistered::Confirmed) => rec.remove(k),
        _ => rec,
    }
}

fn again(a: Attempt, pause: bool) -> (s: Step)
    ensures
        s == again_step(a, pause),
{
    if a.retries_left > 0 {
        Step::Retry { next: Attempt { retries_left: a.retries_left - 1 }, pause }
    } else {
        Step::Done { rc: mdns_rc::ServiceError, report: true }
    }
}

/// The adapter's state: active subscriptions, each with its listener `R`,
/// and registered instances, each with its description `I`, both keyed by name.
#[allow(non_camel_case_types)]
pub struct mdns<R, I> {
    services: Keyed<R>,
    register_list: Keyed<I>,
    retries: u32,
}

impl<R, I> mdns<R, I> {
    /// Active subscriptions by service type.
    pub closed spec fn subscriptions(&self) -> Map<Seq<char>, R> {
        self.services@
    }

    /// Registered instances by fully-qualified name.
    pub closed spec fn registrations(&self) -> Map<Seq<char>, I> {
        self.register_list@
    }

    /// The retry budget of each operation.
    pub closed spec fn retry_budget(&self) -> u32 {
        self.retries
    }

    /// The subscription set and the registration record are finite.
    pub proof fn lemma_finite(&self)
        ensures
            self.subscriptions().dom().finite(),
            self.registrations().dom().finite(),
    {
        lemma_keyed_finite(self.services);
        lemma_keyed_finite(self.register_list);
    }

    /// No subscriptions, no registrations, the default retry budget.
    pub fn new() -> (r: Self)
        ensures
            r.subscriptions() == Map::<Seq<char>, R>::empty(),
            r.registrations() == Map::<Seq<char>, I>::empty(),
            r.retry_budget() == DEFAULT_RETRIES,
    {
        Self::with_retries(DEFAULT_RETRIES)
    }

    /// No subscriptions, no registrations, `retries` retries per operation.
    pub fn with_retries(retries: u32) -> (r: Self)
        ensures
            r.subscriptions() == Map::<Seq<char>, R>::empty(),
            r.registrations() == Map::<Seq<char>, I>::empty(),
            r.retry_budget() == retries,
    {
        mdns { services: Keyed::new(), register_list: Keyed::new(), retries }
    }

    /// The first attempt of an operation under this adapter's budget.
    pub fn first_attempt(&self) -> (r: Attempt)
        ensures
            r.retries_left == self.retry_budget(),
    {
        Attempt::first(self.retries)
    }

    /// Number of active subscriptions.
    pub fn subscription_count(&self) -> (r: usize)
        ensures
            r == self.subscriptions().len(),
    {
        self.services.len()
    }

    /// Number of registered instances.
    pub fn registration_count(&self) -> (r: usize)
        ensures
            r == self.registrations().len(),
    {
        self.register_list.len()
    }

    /// Whether `name` is registered.
    pub fn is_registered(&self, name: &String) -> (r: bool)
        ensures
            r == self.registrations().contains_key(name@),
    {
        self.register_list.contains(name)
    }

    /// Whether `service` is subscribed to.
    pub fn is_subscribed(&self, service: &String) -> (r: bool)
        ensures
            r == self.subscriptions().contains_key(service@),
    {
        self.services.contains(service)
    }

    /// The active subscriptions with their listeners.
    pub fn services(&self) -> (r: &Vec<(String, R)>)
        ensures
            crate::keyed::map_of(r@) == self.subscriptions(),
            crate::keyed::unique_keys(r@),
    {
        self.services.entries()
    }

    /// Records `srv` under `name`; says whether a record was replaced.
    pub fn add_register(&mut self, name: String, srv: I) -> (r: bool)
        ensures
            final(self).registrations() == old(self).registrations().insert(name@, srv),
            final(self).subscriptions() == old(self).subscriptions(),
            final(self).retry_budget() == old(self).retry_budget(),
            r == old(self).registrations().contains_key(name@),
    {
        self.register_list.insert(name, srv)
    }

    /// Forgets the record of `name`; says whether there was one.
    pub fn del_register(&mut self, name: &String) -> (r: bool)
        ensures
            final(self).registrations() == old(self).registrations().remove(name@),
            final(self).subscriptions() == old(self).subscriptions(),
            final(self).retry_budget() == old(self).retry_budget(),
            r == old(self).registrations().contains_key(name@),
    {
        self.register_list.remove(name)
    }

    /// Hands out every registration, for teardown to unregister each, and
    /// leaves the record empty.
    pub fn unregister_all(&mut self) -> (r: Vec<(String, I)>)
        ensures
            crate::keyed::map_of(r@) == old(self).registrations(),
            crate::keyed::unique_keys(r@),
            final(self).registrations() == Map::<Seq<char>, I>::empty(),
            final(self).subscriptions() == old(self).subscriptions(),
            final(self).retry_budget() == old(self).retry_budget(),
    {
        self.register_list.take_all()
    }

    /// Keeps listener `s` for `name` unless `name` already has one, in which
    /// case `s` is dropped and nothing changes.
    pub fn add_service(&mut self, name: String, s: R)
        ensures
            final(self).subscriptions() == (if old(self).subscriptions().contains_key(name@) {
                old(self).subscriptions()
            } else {
                old(self).subscriptions().insert(name@, s)
            }),
            final(self).registrations() == old(self).registrations(),
            final(self).retry_budget() == old(self).retry_budget(),
    {
        if self.services.contains(&name) {
            return ;
        }
        let _ = self.services.insert(name, s);
    }

    /// Drops the subscription to `name` with its listener, if any.
    pub fn remove_service(&mut self, name: &String)
        ensures
            final(self).subscriptions() == old(self).subscriptions().remove(name@),
            final(self).registrations() == old(self).registrations(),
            final(self).retry_budget() == old(self).retry_budget(),
    {
        let _ = self.services.remove(name);
    }

    /// Before browsing for `service`: a type already subscribed to needs no
    /// engine call, and subscribing again succeeds at once (`Some(Success)`);
    /// otherwise `None`, and the engine is asked.
    pub fn subscribe_begin(&self, service: &String) -> (r: Option<mdns_rc>)
        ensures
            r == (if self.subscriptions().contains_key(service@) {
                Some(mdns_rc::Success)
            } else {
                None
            }),
    {
        if self.services.contains(service) {
            Some(mdns_rc::Success)
        } else {
            None
        }
    }

    /// Takes the engine's answer to a browse call for `service`.
    pub fn subscribe_step(&mut self, service: String, attempt: Attempt, reply: EngineReply<R>) -> (s:
        Step)
        ensures
            s == outcome_step(attempt, reply, true),
            final(self).subscriptions() == subscribed(old(self).subscriptions(), service@, reply),
            final(self).registrations() == old(self).registrations(),
            final(self).retry_budget() == old(self).retry_budget(),
    {
        match reply {
            EngineReply::Done(rcv) => {
                self.add_service(service, rcv);
                Step::Done { rc: mdns_rc::Success, report: false }
            },
            EngineReply::Again => again(attempt, true),
            EngineReply::Failed => Step::Done { rc: mdns_rc::ServiceError, report: true },
        }
    }

    /// Takes the engine's answer to a stop-browse call for `service`.
    pub fn unsubscribe_step(&mut self, service: &String, attempt: Attempt, reply: EngineReply<()>) -> (s:
        Step)
        ensures
            s == outcome_step(attempt, reply, true),
            final(self).subscriptions() == unsubscribed(
                old(self).subscriptions(),
                service@,
                attempt,
                reply,
            ),
            final(self).registrations() == old(self).registrations(),
            final(self).retry_budget() == old(self).retry_budget(),
    {
        let s = match reply {
            EngineReply::Done(_) => Step::Done { rc: mdns_rc::Success, report: false },
            EngineReply::Again => again(attempt, true),
            EngineReply::Failed => Step::Done { rc: mdns_rc::ServiceError, report: true },
        };
        match s {
            Step::Done { .. } => self.remove_service(service),
            Step::Retry { .. } => {},
        }
        s
    }

    /// Takes the engine's answer to registering the instance `fullname`.
    pub fn register_step(&mut self, fullname: String, attempt: Attempt, reply: EngineReply<I>) -> (s:
        Step)
        ensures
            s == outcome_step(attempt, reply, true),
            final(self).registrations() == registered(old(self).registrations(), fullname@, reply),
            final(self).subscriptions() == old(self).subscriptions(),
            final(self).retry_budget() == old(self).retry_budget(),
    {
        match reply {
            EngineReply::Done(info) => {
                let _ = self.add_register(fullname, info);
                Step::Done { rc: mdns_rc::Success, report: false }
            },
            EngineReply::Again => again(attempt, true),
            EngineReply::Failed => Step::Done { rc: mdns_rc::ServiceError, report: true },
        }
    }

    /// Takes the engine's answer to unregistering the instance `fullname`:
    /// the record goes once the engine confirms.
    pub fn unregister_step(
        &mut self,
        fullname: &String,
        attempt: Attempt,
        reply: EngineReply<Unregistered>,
    ) -> (s: Step)
        ensures
            s == unregister_outcome(attempt, reply),
            final(self).registrations() == unregistered(
                old(self).registrations(),
                fullname@,
                reply,
            ),
            final(self).subscriptions() == old(self).subscriptions(),
            final(self).retry_budget() == old(self).retry_budget(),
    {
        match reply {
            EngineReply::Done(Unregistered::Confirmed) => {
                let _ = self.del_register(fullname);
                Step::Done { rc: mdns_rc::Success, report: false }
            },
            EngineReply::Done(Unregistered::NotFound) => Step::Done {
                rc: mdns_rc::ServiceNotFound,
                report: true,
            },
            EngineReply::Again => again(attempt, false),
            EngineReply::Failed => Step::Done { rc: mdns_rc::ServiceError, report: true },
        }
    }
}

/// Registering an instance and then unregistering it under the same name
/// and service type, both accepted by the engine, leaves no record of it;
/// from an empty record, the record is empty again.
pub proof fn law_register_then_unregister<I>(
    rec: Map<Seq<char>, I>,
    name: Seq<char>,
    service: Seq<char>,
    info: I,
)
    ensures
        ({
            let k = fullname_of(name, service);
            let after = unregistered(
                registered(rec, k, EngineReply::Done(info)),
                k,
                EngineReply::Done(Unregistered::Confirmed),
            );
            &&& after == rec.remove(k)
            &&& rec.is_empty() ==> after.is_empty()
        }),
{
    let k = fullname_of(name, service);
    assert(rec.insert(k, info).remove(k) =~= rec.remove(k));
    if rec.is_empty() {
        assert(rec.remove(k) =~= rec);
    }
}

/// Subscribing to a type that already has a listener keeps the first
/// listener and leaves the set, and its size, as it was.
pub proof fn law_subscribe_twice<R>(subs: Map<Seq<char>, R>, k: Seq<char>, r1: R, r2: R)
    ensures
        ({
            let once = subscribed(subs, k, EngineReply::Done(r1));
            let twice = subscribed(once, k, EngineReply::Done(r2));
            &&& twice == once
            &&& twice.len() == once.len()
            &&& once.contains_key(k)
        }),
{
}

/// A registration whose first call meets a transient condition and whose
/// retry is accepted: the first answer asks for one retry and no error
/// report, the second ends with `Ok`, and the record holds the instance once;
/// from an empty record it holds exactly one entry.
pub proof fn law_register_retry_once<I>(
    rec: Map<Seq<char>, I>,
    k: Seq<char>,
    info: I,
    attempt: Attempt,
)
    requires
        attempt.retries_left >= 1,
    ensures
        ({
            let first = outcome_step(attempt, EngineReply::<I>::Again, true);
            let next = Attempt { retries_left: (attempt.retries_left - 1) as u32 };
            let after = registered(registered(rec, k, EngineReply::Again), k, EngineReply::Done(info));
            &&& first == Step::Retry { next, pause: true }
            &&& outcome_step(next, EngineReply::Done(info), true) == Step::Done {
                rc: mdns_rc::Success,
                report: false,
            }
            &&& after == rec.insert(k, info)
            &&& rec.dom().finite() && !rec.contains_key(k) ==> after.len() == rec.len() + 1
            &&& rec.is_empty() ==> after.len() == 1
        }),
{
    let after = rec.insert(k, info);
    if rec.is_empty() {
        assert(after.dom() =~= Set::<Seq<char>>::empty().insert(k));
    }
    if rec.dom().finite() && !rec.contains_key(k) {
        assert(after.dom() =~= rec.dom().insert(k));
    }
}

/// Network interfaces that the engine can be told to use or ignore.
#[derive(PartialEq, Eq, Debug, Clone)]
pub enum IfaceSelector {
    All,
    IPv4,
    IPv6,
    /// An interface address or name, as written.
    Named(String),
}

/// `"all"`
pub open spec fn all_word() -> Seq<char> {
    seq!['a', 'l', 'l']
}

/// `"*"`
pub open spec fn star_word() -> Seq<char> {
    seq!['*']
}

/// `"ipv4"`
pub open spec fn ipv4_word() -> Seq<char> {
    seq!['i', 'p', 'v', '4']
}

/// `"ipv6"`
pub open spec fn ipv6_word() -> Seq<char> {
    seq!['i', 'p', 'v', '6']
}

/// `all` and `*` select every interface, `ipv4` and `ipv6` a family, and
/// anything else the single interface with that address or name.
pub open spec fn selects(name: Seq<char>, sel: IfaceSelector) -> bool {
    match sel {
        IfaceSelector::All => name == all_word() || name == star_word(),
        IfaceSelector::IPv4 => name == ipv4_word(),
        IfaceSelector::IPv6 => name == ipv6_word(),
        IfaceSelector::Named(s) => s@ == name && name != all_word() && name != star_word() && name
            != ipv4_word() && name != ipv6_word(),
    }
}

/// The selector that an interface name stands for.
pub fn name_to_iface(name: &str) -> (r: IfaceSelector)
    ensures
        selects(name@, r),
{
    proof {
        reveal_strlit("all");
        reveal_strlit("*");
        reveal_strlit("ipv4");
        reveal_strlit("ipv6");
    }
    assert("all"@ =~= all_word());
    assert("*"@ =~= star_word());
    assert("ipv4"@ =~= ipv4_word());
    assert("ipv6"@ =~= ipv6_word());
    if str_equals(name, "all") || str_equals(name, "*") {
        IfaceSelector::All
    } else if str_equals(name, "ipv4") {
        IfaceSelector::IPv4
    } else if str_equals(name, "ipv6") {
        IfaceSelector::IPv6
    } else {
        IfaceSelector::Named(String::from_str(name))
    }
}

/// An interface request: a leading `!` asks to disable what follows,
/// anything else to enable it. Returns whether to enable, and the selector.
pub fn iface_request(name: &str) -> (r: (bool, IfaceSelector))
    ensures
        ({
            let disable = name@.len() > 0 && name@[0] == '!';
            let rest = if disable {
                name@.subrange(1, name@.len() as int)
            } else {
                name@
            };
            &&& r.0 == !disable
            &&& selects(rest, r.1)
        }),
{
    let n = name.unicode_len();
    if n > 0 && name.get_char(0) == '!' {
        let rest = name.substring_char(1, n);
        (false, name_to_iface(rest))
    } else {
        (true, name_to_iface(name))
    }
}

/// Addresses joined by commas, in order.
pub open spec fn joined(s: Seq<Seq<char>>) -> Seq<char>
    decreases s.len(),
{
    if s.len() == 0 {
        Seq::empty()
    } else if s.len() == 1 {
        s[0]
    } else {
        joined(s.drop_last()) + seq![','] + s.last()
    }
}

/// The addresses of a registration as the engine takes them: joined by commas.
pub fn join_addresses(ips: &Vec<String>) -> (r: String)
    ensures
        r@ == joined(ips@.map_values(|s: String| s@)),
{
    let ghost v = ips@.map_values(|s: String| s@);
    let mut r = String::new();
    let mut i: usize = 0;
    proof {
        reveal_strlit(",");
        assert(v.take(0) =~= Seq::<Seq<char>>::empty());
    }
    while i < ips.len()
        invariant
            v == ips@.map_values(|s: String| s@),
            i <= ips@.len(),
            r@ == joined(v.take(i as int)),
            ","@ == seq![','],
        decreases ips@.len() - i,
    {
        if i > 0 {
            r.append(",");
        }
        r.append(ips[i].as_str());
        proof {
            let t = v.take(i + 1);
            assert(t.drop_last() =~= v.take(i as int));
            if i == 0 {
                assert(r@ =~= joined(t));
            }
        }
        i = i + 1;
    }
    assert(v.take(ips@.len() as int) =~= v);
    r
}

/// What the engine is asked to register, derived from the host's descriptor.
pub struct Registration {
    /// the service type in the local domain
    pub service: String,
    /// the instance name
    pub name: String,
    /// the host name in the local domain
    pub host: String,
    /// the key of the registration record
    pub fullname: String,
    /// the addresses, joined by commas
    pub addresses: String,
}

/// The registration of instance `name` of `service` on `host` at `ips`:
/// service type and host name carried into the local domain, and the
/// fully-qualified instance name that unregistration will use too.
pub fn registration(service: &str, name: &str, host: &str, ips: &Vec<String>) -> (r: Registration)
    ensures
        r.service@ == with_local_domain(service@),
        r.name@ == name@,
        r.host@ == with_local_domain(host@),
        r.fullname@ == fullname_of(name@, service@),
        r.addresses@ == joined(ips@.map_values(|s: String| s@)),
{
    Registration {
        service: local_service_name(service),
        name: String::from_str(name),
        host: add_local_domain_suffix(&String::from_str(host)),
        fullname: make_fullname(name, service),
        addresses: join_addresses(ips),
    }
}

#[verifier::external_type_specification]
#[verifier::external_body]
pub struct ExServiceInfo(mdns_sd::ServiceInfo);

/// A TXT key that the engine accepts: ASCII, without `=`.
pub open spec fn txt_key_ok(k: Seq<char>) -> bool {
    vstd::utf8::is_ascii_chars(k) && !k.contains('=')
}

/// Every TXT key given is accepted.
pub open spec fn txt_keys_ok(props: Option<std::collections::HashMap<String, String>>) -> bool {
    match props {
        None => true,
        Some(m) => forall|k: String| m@.contains_key(k) ==> txt_key_ok(k@),
    }
}

/// Whether the engine reads `s` as a list of addresses: comma-separated,
/// each trimmed and parsed as an IPv4 or IPv6 address; depends on the text alone.
pub uninterp spec fn addresses_parse(s: Seq<char>) -> bool;

/// Relies on mdns-sd's `ServiceInfo::new`: the engine's description of an
/// instance, or the error's text. It fails exactly when an address does
/// not parse or a TXT key is not ASCII or holds `=`; an empty address list
/// parses to no addresses.
#[verifier::external_body]
fn new_service_info(
    service: &str,
    name: &str,
    host: &str,
    addresses: &str,
    port: u16,
    props: Option<std::collections::HashMap<String, String>>,
) -> (r: Result<mdns_sd::ServiceInfo, String>)
    ensures
        r is Ok == (addresses_parse(addresses@) && txt_keys_ok(props)),
        r is Ok || addresses@.len() > 0 || !txt_keys_ok(props),
{
    match mdns_sd::ServiceInfo::new(service, name, host, addresses, port, props) {
        Ok(info) => Ok(info),
        Err(e) => Err(e.to_string()),
    }
}

/// Relies on mdns-sd's `ServiceInfo::enable_addr_auto`: the same
/// description, whose addresses the engine keeps in step with the host's.
#[verifier::external_body]
fn with_addr_auto(info: mdns_sd::ServiceInfo) -> (r: mdns_sd::ServiceInfo) {
    info.enable_addr_auto()
}

/// The engine's description of a registration on `port` with TXT
/// properties `props`, following the host's addresses; or why the engine
/// refused to describe it: an address that does not parse, or a TXT key
/// that is not ASCII or holds `=`.
pub fn service_info(
    reg: &Registration,
    port: u16,
    props: Option<std::collections::HashMap<String, String>>,
) -> (r: Result<mdns_sd::ServiceInfo, String>)
    ensures
        r is Ok <==> addresses_parse(reg.addresses@) && txt_keys_ok(props),
        reg.addresses@.len() == 0 ==> (r is Ok <==> txt_keys_ok(props)),
{
    match new_service_info(
        reg.service.as_str(),
        reg.name.as_str(),
        reg.host.as_str(),
        reg.addresses.as_str(),
        port,
        props,
    ) {
        Ok(info) => Ok(with_addr_auto(info)),
        Err(e) => Err(e),
    }
}

} // verus!
