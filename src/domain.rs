//! Service and host names of the discovery adapter: the local-domain suffix
//! and the fully-qualified instance name.

use vstd::prelude::*;
use vstd::string::*;

verus! {

/// `s` ends with `suffix`.
pub open spec fn ends_with(s: Seq<char>, suffix: Seq<char>) -> bool {
    suffix.len() <= s.len() && s.subrange(s.len() - suffix.len(), s.len() as int) == suffix
}

/// "."
pub open spec fn dot() -> Seq<char> {
    seq!['.']
}

/// "local."
pub open spec fn local_label() -> Seq<char> {
    seq!['l', 'o', 'c', 'a', 'l', '.']
}

/// ".local"
pub open spec fn dot_local() -> Seq<char> {
    seq!['.', 'l', 'o', 'c', 'a', 'l']
}

/// ".local."
pub open spec fn dot_local_dot() -> Seq<char> {
    seq!['.', 'l', 'o', 'c', 'a', 'l', '.']
}

/// A host or service name carried into the local domain: exactly one
/// `.local.` ends the result, reusing whatever part of it `h` already ends with.
pub open spec fn with_local_domain(h: Seq<char>) -> Seq<char> {
    if ends_with(h, dot_local_dot()) {
        h
    } else if ends_with(h, dot_local()) {
        h + dot()
    } else if ends_with(h, dot()) {
        h + local_label()
    } else {
        h + dot_local_dot()
    }
}

/// The fully-qualified instance name: `<name>.<service>.local.`.
pub open spec fn fullname_of(name: Seq<char>, service: Seq<char>) -> Seq<char> {
    name + dot() + with_local_domain(service)
}

/// Every normalized name ends with `.local.`.
pub proof fn lemma_local_domain_suffix(h: Seq<char>)
    ensures
        ends_with(with_local_domain(h), dot_local_dot()),
{
    let r = with_local_domain(h);
    if ends_with(h, dot_local_dot()) {
    } else if ends_with(h, dot_local()) {
        let t = h.subrange(h.len() - 6, h.len() as int);
        assert(t == dot_local());
        assert forall|i: int| 0 <= i < 6 implies r[r.len() - 7 + i] == dot_local_dot()[i] by {
            assert(r[r.len() - 7 + i] == t[i]);
        }
        assert(r.subrange(r.len() - 7, r.len() as int) =~= dot_local_dot());
    } else if ends_with(h, dot()) {
        assert(h.subrange(h.len() - 1, h.len() as int) == dot());
        assert(h.subrange(h.len() - 1, h.len() as int)[0] == '.');
        assert(r[r.len() - 7] == '.');
        assert(r.subrange(r.len() - 7, r.len() as int) =~= dot_local_dot());
    } else {
        assert(r.subrange(r.len() - 7, r.len() as int) =~= dot_local_dot());
    }
}

/// Normalizing is idempotent: a name that already ends with `.local.` is
/// left as it is, so normalizing twice gives what normalizing once gave.
pub proof fn lemma_local_domain_idempotent(h: Seq<char>)
    ensures
        ends_with(h, dot_local_dot()) ==> with_local_domain(h) == h,
        with_local_domain(with_local_domain(h)) == with_local_domain(h),
{
    lemma_local_domain_suffix(h);
}

/// Whether `s` ends with `suffix`, compared character by character.
pub fn str_ends_with(s: &str, suffix: &str) -> (r: bool)
    ensures
        r == ends_with(s@, suffix@),
{
    let n = s.unicode_len();
    let m = suffix.unicode_len();
    if m > n {
        return false;
    }
    let mut i: usize = 0;
    while i < m
        invariant
            n == s@.len(),
            m == suffix@.len(),
            m <= n,
            i <= m,
            forall|j: int| 0 <= j < i ==> s@[n - m + j] == suffix@[j],
        decreases m - i,
    {
        if s.get_char(n - m + i) != suffix.get_char(i) {
            assert(s@.subrange(n - m, n as int)[i as int] != suffix@[i as int]);
            return false;
        }
        i = i + 1;
    }
    assert(s@.subrange(n - m, n as int) =~= suffix@);
    true
}

/// Whether two strings hold the same characters.
pub fn str_equals(s: &str, t: &str) -> (r: bool)
    ensures
        r == (s@ == t@),
{
    if s.unicode_len() != t.unicode_len() {
        return false;
    }
    let r = str_ends_with(s, t);
    assert(s@.len() - t@.len() == 0);
    assert(s@.subrange(0, s@.len() as int) =~= s@);
    r
}

/// Carries a host name into the local domain (see `with_local_domain`).
pub fn add_local_domain_suffix(hostname: &String) -> (r: String)
    ensures
        r@ == with_local_domain(hostname@),
{
    let h = hostname.as_str();
    proof {
        reveal_strlit(".local.");
        reveal_strlit(".local");
        reveal_strlit(".");
        reveal_strlit("local.");
    }
    assert(".local."@ =~= dot_local_dot());
    assert(".local"@ =~= dot_local());
    assert("."@ =~= dot());
    assert("local."@ =~= local_label());
    if str_ends_with(h, ".local.") {
        hostname.clone()
    } else if str_ends_with(h, ".local") {
        hostname.clone().concat(".")
    } else if str_ends_with(h, ".") {
        hostname.clone().concat("local.")
    } else {
        hostname.clone().concat(".local.")
    }
}

/// A service type carried into the local domain, as browse and register use it.
pub fn local_service_name(name: &str) -> (r: String)
    ensures
        r@ == with_local_domain(name@),
{
    add_local_domain_suffix(&String::from_str(name))
}

/// The fully-qualified instance name: `EXAMPLE` and `_http._tcp.` give
/// `EXAMPLE._http._tcp.local.`.
pub fn make_fullname(name: &str, service: &str) -> (r: String)
    ensures
        r@ == fullname_of(name@, service@),
{
    proof {
        reveal_strlit(".");
    }
    assert("."@ =~= dot());
    let local = local_service_name(service);
    let r = String::from_str(name).concat(".").concat(local.as_str());
    assert(r@ =~= fullname_of(name@, service@));
    r
}

} // verus!
