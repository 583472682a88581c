//! What holds of backend selection whatever the names are. Each law
//! speaks of any result `r` that selection may give for the names.

use vstd::prelude::*;
use crate::error::{ErrorView, NetavarkError};
use crate::firewall::{
    invalid_backend_message, is_bus_failure, kind_of_name, nftables_unavailable_message,
    requested_name, selected_kind, selects, BackendKind, FirewallBackend,
};
use crate::fwnone::Fwnone;
use crate::text::{contains, lemma_contains_suffix, lowercase};

verus! {

/// The four names stand for four different backends, and for the ones
/// that the canonical names say.
pub proof fn lemma_known_names()
    ensures
        kind_of_name("firewalld"@) == Some(BackendKind::Firewalld),
        kind_of_name("iptables"@) == Some(BackendKind::Iptables),
        kind_of_name("nftables"@) == Some(BackendKind::Nftables),
        kind_of_name("none"@) == Some(BackendKind::Fwnone),
        forall|kind: BackendKind| #[trigger]
            kind_of_name(FirewallBackend::name_of(kind)) == Some(kind),
{
    reveal_strlit("firewalld");
    reveal_strlit("iptables");
    reveal_strlit("nftables");
    reveal_strlit("none");
    assert("firewalld"@.len() == 9);
    assert("iptables"@.len() == 8);
    assert("nftables"@.len() == 8);
    assert("none"@.len() == 4);
    assert("iptables"@[0] != "nftables"@[0]);
}

/// A name whose lower-case form stands for no backend is refused, and
/// the error's message holds the name as it was given.
pub proof fn invalid_name_is_reported(
    driver_name: Option<Seq<char>>,
    env_name: Option<Seq<char>>,
    name: Seq<char>,
    r: Result<FirewallBackend, NetavarkError>,
)
    requires
        requested_name(driver_name, env_name) == Some(name),
        kind_of_name(lowercase(name)) is None,
        selects(driver_name, env_name, r),
    ensures
        r is Err,
        r->Err_0@ == ErrorView::Message(invalid_backend_message(name)),
        contains(invalid_backend_message(name), name),
{
    lemma_contains_suffix("Must provide a valid firewall backend, got "@, name);
}

/// Two names that differ only in case, of which one stands for a backend,
/// stand for the same backend, and selection may give for the one exactly
/// what it may give for the other.
pub proof fn matching_ignores_case(
    a: Seq<char>,
    b: Seq<char>,
    env_a: Option<Seq<char>>,
    env_b: Option<Seq<char>>,
    r: Result<FirewallBackend, NetavarkError>,
)
    requires
        lowercase(a) == lowercase(b),
        kind_of_name(lowercase(a)) is Some,
    ensures
        selected_kind(Some(a), env_a) == selected_kind(Some(b), env_b),
        selects(Some(a), env_a, r) == selects(Some(b), env_b, r),
{
}

/// With no name from the caller and none from the environment, selection
/// succeeds with the packet filter, whose name is `iptables`.
pub proof fn default_is_packet_filter(r: Result<FirewallBackend, NetavarkError>)
    requires
        selects(None, None, r),
    ensures
        r is Ok,
        r->Ok_0 == FirewallBackend::Iptables,
        FirewallBackend::name_of(r->Ok_0.kind()) == "iptables"@,
{
}

/// The caller's name decides whatever the environment holds.
pub proof fn explicit_name_takes_precedence(
    driver_name: Seq<char>,
    env_a: Option<Seq<char>>,
    env_b: Option<Seq<char>>,
    r: Result<FirewallBackend, NetavarkError>,
)
    ensures
        requested_name(Some(driver_name), env_a) == Some(driver_name),
        selected_kind(Some(driver_name), env_a) == selected_kind(Some(driver_name), env_b),
        selects(Some(driver_name), env_a, r) == selects(Some(driver_name), env_b, r),
{
}

/// The next-generation packet filter is never handed out: its name gives
/// the error that says it is not available, which is not the error for an
/// invalid name.
pub proof fn nftables_is_unavailable(
    driver_name: Option<Seq<char>>,
    env_name: Option<Seq<char>>,
    name: Seq<char>,
    r: Result<FirewallBackend, NetavarkError>,
)
    requires
        requested_name(driver_name, env_name) == Some(name),
        lowercase(name) == "nftables"@,
        selects(driver_name, env_name, r),
    ensures
        r is Err,
        r->Err_0@ == ErrorView::Message(nftables_unavailable_message()),
        forall|other: Seq<char>| r->Err_0@ != ErrorView::Message(invalid_backend_message(other)),
{
    lemma_known_names();
    reveal_strlit("nftables support presently not available");
    reveal_strlit("Must provide a valid firewall backend, got ");
    assert forall|other: Seq<char>|
        nftables_unavailable_message() != #[trigger] invalid_backend_message(other) by {
        assert(nftables_unavailable_message()[0] == 'n');
        assert(invalid_backend_message(other)[0] == 'M');
    }
}

/// The name `none` always gives the driver that does nothing. Each of
/// that driver's operations promises success and takes the driver by
/// shared reference, without any state to change.
pub proof fn none_is_noop_driver(
    driver_name: Option<Seq<char>>,
    env_name: Option<Seq<char>>,
    name: Seq<char>,
    r: Result<FirewallBackend, NetavarkError>,
)
    requires
        requested_name(driver_name, env_name) == Some(name),
        lowercase(name) == "none"@,
        selects(driver_name, env_name, r),
    ensures
        r is Ok,
        r->Ok_0 == FirewallBackend::Fwnone(Fwnone {  }),
{
    lemma_known_names();
}

/// Asked for the firewall daemon, selection hands out that backend or
/// fails with the bus client's error behind a fixed message: there is no
/// other outcome, and no other backend in its place.
pub proof fn firewalld_needs_the_bus(
    driver_name: Option<Seq<char>>,
    env_name: Option<Seq<char>>,
    name: Seq<char>,
    r: Result<FirewallBackend, NetavarkError>,
)
    requires
        requested_name(driver_name, env_name) == Some(name),
        lowercase(name) == "firewalld"@,
        selects(driver_name, env_name, r),
    ensures
        r is Ok ==> r->Ok_0 is Firewalld,
        r is Err ==> is_bus_failure(r->Err_0@),
{
    lemma_known_names();
}

} // verus!
