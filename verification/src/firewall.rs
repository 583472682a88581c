//! The interface that every firewall backend offers, and the choice of a
//! backend by name.

use vstd::prelude::*;
use vstd::string::*;
use zbus::blocking::Connection;
use crate::bus::open_system_bus;
use crate::error::{ErrorView, NetavarkError};
use crate::fwnone::Fwnone;
use crate::internal_types::{PortForwardConfig, SetupNetwork, TearDownNetwork, TeardownPortForward};
use crate::text::{lowercase, to_lowercase};

verus! {

/// Firewall drivers have the ability to set up per-network firewall
/// forwarding and port mappings. What an operation does to the system is
/// the driver's own business; a failure comes back to the caller as it is.
pub trait FirewallDriver {
    /// Set up firewall rules for the given network.
    fn setup_network(&self, network_setup: SetupNetwork) -> Result<(), NetavarkError>;

    /// Tear down firewall rules for the given network.
    fn teardown_network(&self, tear: TearDownNetwork) -> Result<(), NetavarkError>;

    /// Set up port-forwarding firewall rules for a given container.
    fn setup_port_forward(&self, setup_pw: PortForwardConfig) -> Result<(), NetavarkError>;

    /// Tear down port-forwarding firewall rules for a single container.
    fn teardown_port_forward(&self, teardown_pf: TeardownPortForward) -> Result<
        (),
        NetavarkError,
    >;

    /// Return the name of the driver.
    fn driver_name(&self) -> &str;
}

/// The backends that a name can stand for.
#[derive(Debug, Clone, Copy, PartialEq, Eq, Structural)]
pub enum BackendKind {
    /// The packet-filter rule manager.
    Iptables,
    /// The system firewall daemon, reached over the message bus.
    Firewalld,
    /// The next-generation packet filter: known by name, not yet offered.
    Nftables,
    /// No firewall management.
    Fwnone,
}

/// The backend that a name in lower case stands for, if any.
pub open spec fn kind_of_name(lowered: Seq<char>) -> Option<BackendKind> {
    if lowered == "firewalld"@ {
        Some(BackendKind::Firewalld)
    } else if lowered == "iptables"@ {
        Some(BackendKind::Iptables)
    } else if lowered == "nftables"@ {
        Some(BackendKind::Nftables)
    } else if lowered == "none"@ {
        Some(BackendKind::Fwnone)
    } else {
        None
    }
}

/// The name that decides: the caller's own where there is one, else the
/// one from the environment.
pub open spec fn requested_name(
    driver_name: Option<Seq<char>>,
    env_name: Option<Seq<char>>,
) -> Option<Seq<char>> {
    match driver_name {
        Some(name) => Some(name),
        None => env_name,
    }
}

/// The backend that the two optional names select, or the name that
/// stands for none. Without any name the packet filter is chosen.
pub open spec fn selected_kind(
    driver_name: Option<Seq<char>>,
    env_name: Option<Seq<char>>,
) -> Result<BackendKind, Seq<char>> {
    match requested_name(driver_name, env_name) {
        None => Ok(BackendKind::Iptables),
        Some(name) => match kind_of_name(lowercase(name)) {
            Some(kind) => Ok(kind),
            None => Err(name),
        },
    }
}

/// The characters of an optional text.
pub open spec fn text(name: Option<String>) -> Option<Seq<char>> {
    match name {
        Some(s) => Some(s@),
        None => None,
    }
}

/// The message for a name that stands for no backend.
pub open spec fn invalid_backend_message(name: Seq<char>) -> Seq<char> {
    "Must provide a valid firewall backend, got "@ + name
}

/// The message in front of a failure to reach the system bus.
pub open spec fn bus_failure_message() -> Seq<char> {
    "Error retrieving dbus connection for requested firewall backend"@
}

/// The message for the backend that is known but not offered.
pub open spec fn nftables_unavailable_message() -> Seq<char> {
    "nftables support presently not available"@
}

/// Maps a name that is already in lower case to the backend it stands for.
pub fn parse_kind(lowered: &str) -> (kind: Option<BackendKind>)
    ensures
        kind == kind_of_name(lowered@),
{
    let name = String::from_str(lowered);
    if name == String::from_str("firewalld") {
        Some(BackendKind::Firewalld)
    } else if name == String::from_str("iptables") {
        Some(BackendKind::Iptables)
    } else if name == String::from_str("nftables") {
        Some(BackendKind::Nftables)
    } else if name == String::from_str("none") {
        Some(BackendKind::Fwnone)
    } else {
        None
    }
}

/// Picks the name that decides: `driver_name` takes precedence over
/// `env_name`, which is what the environment held, if anything.
pub fn pick_name(driver_name: Option<String>, env_name: Option<String>) -> (name: Option<String>)
    ensures
        text(name) == requested_name(text(driver_name), text(env_name)),
{
    match driver_name {
        Some(name) => Some(name),
        None => env_name,
    }
}

/// Resolves the two optional names to a backend kind. No outside
/// resource is touched.
pub fn select_kind(driver_name: Option<String>, env_name: Option<String>) -> (r: Result<
    BackendKind,
    NetavarkError,
>)
    ensures
        match selected_kind(text(driver_name), text(env_name)) {
            Ok(kind) => r == Ok::<BackendKind, NetavarkError>(kind),
            Err(name) => r is Err && r->Err_0@ == ErrorView::Message(
                invalid_backend_message(name),
            ),
        },
{
    match pick_name(driver_name, env_name) {
        None => Ok(BackendKind::Iptables),
        Some(name) => {
            let lowered = to_lowercase(name.as_str());
            match parse_kind(lowered.as_str()) {
                Some(kind) => Ok(kind),
                None => {
                    let message = String::from_str(
                        "Must provide a valid firewall backend, got ",
                    ).concat(name.as_str());
                    Err(NetavarkError::Message(message))
                },
            }
        },
    }
}

/// Types of firewall backend, each with what it acquired while it was
/// resolved.
#[derive(Debug)]
pub enum FirewallImpl {
    Iptables,
    Firewalld(Connection),
    Nftables,
    Fwnone,
}

impl FirewallImpl {
    /// The kind of backend that this is.
    pub open spec fn kind(&self) -> BackendKind {
        match self {
            FirewallImpl::Iptables => BackendKind::Iptables,
            FirewallImpl::Firewalld(_) => BackendKind::Firewalld,
            FirewallImpl::Nftables => BackendKind::Nftables,
            FirewallImpl::Fwnone => BackendKind::Fwnone,
        }
    }
}

/// A backend that is ready for use. It owns what was acquired for it.
#[derive(Debug)]
pub enum FirewallBackend {
    /// The packet-filter rule manager.
    Iptables,
    /// The firewall daemon, with the bus connection that reaches it.
    Firewalld(Connection),
    /// The driver that does nothing.
    Fwnone(Fwnone),
}

impl FirewallBackend {
    /// The kind of backend that this is.
    pub open spec fn kind(&self) -> BackendKind {
        match self {
            FirewallBackend::Iptables => BackendKind::Iptables,
            FirewallBackend::Firewalld(_) => BackendKind::Firewalld,
            FirewallBackend::Fwnone(_) => BackendKind::Fwnone,
        }
    }

    /// The canonical name of a kind of backend.
    pub open spec fn name_of(kind: BackendKind) -> Seq<char> {
        match kind {
            BackendKind::Iptables => "iptables"@,
            BackendKind::Firewalld => "firewalld"@,
            BackendKind::Nftables => "nftables"@,
            BackendKind::Fwnone => "none"@,
        }
    }

    /// Return the name of the driver behind this backend.
    pub fn driver_name(&self) -> (name: &'static str)
        ensures
            name@ == Self::name_of(self.kind()),
    {
        match self {
            FirewallBackend::Iptables => "iptables",
            FirewallBackend::Firewalld(_) => "firewalld",
            FirewallBackend::Fwnone(_) => "none",
        }
    }
}

/// `e` is a failure to reach the system bus: the fixed message in front
/// of the bus client's own error.
pub open spec fn is_bus_failure(e: ErrorView) -> bool {
    match e {
        ErrorView::Chain(message, cause) => message == bus_failure_message() && *cause is Dbus,
        _ => false,
    }
}

/// What resolving the two optional names may give: `r` is a backend of
/// the kind that they select, or the error for a name that selects none;
/// for the firewall daemon alone it may also be a failure to reach the
/// system bus.
pub open spec fn resolves_to(
    driver_name: Option<Seq<char>>,
    env_name: Option<Seq<char>>,
    r: Result<FirewallImpl, NetavarkError>,
) -> bool {
    match selected_kind(driver_name, env_name) {
        Err(name) => r is Err && r->Err_0@ == ErrorView::Message(invalid_backend_message(name)),
        Ok(kind) => match r {
            Ok(fw) => fw.kind() == kind,
            Err(e) => kind == BackendKind::Firewalld && is_bus_failure(e@),
        },
    }
}

/// What instantiating a resolved backend gives: the backend itself with
/// what it acquired, except for the one that is not offered.
pub open spec fn instantiated(fw: FirewallImpl) -> Result<FirewallBackend, ErrorView> {
    match fw {
        FirewallImpl::Iptables => Ok(FirewallBackend::Iptables),
        FirewallImpl::Firewalld(conn) => Ok(FirewallBackend::Firewalld(conn)),
        FirewallImpl::Nftables => Err(ErrorView::Message(nftables_unavailable_message())),
        FirewallImpl::Fwnone => Ok(FirewallBackend::Fwnone(Fwnone {  })),
    }
}

/// What selection may give for the two optional names: `r` is what
/// instantiating some backend that they resolve to gives, or the error
/// that resolving them gave.
pub open spec fn selects(
    driver_name: Option<Seq<char>>,
    env_name: Option<Seq<char>>,
    r: Result<FirewallBackend, NetavarkError>,
) -> bool {
    match selected_kind(driver_name, env_name) {
        Err(name) => r is Err && r->Err_0@ == ErrorView::Message(invalid_backend_message(name)),
        Ok(BackendKind::Iptables) => r is Ok && r->Ok_0 == FirewallBackend::Iptables,
        Ok(BackendKind::Fwnone) => r is Ok && r->Ok_0 == FirewallBackend::Fwnone(Fwnone {  }),
        Ok(BackendKind::Nftables) => r is Err && r->Err_0@ == ErrorView::Message(
            nftables_unavailable_message(),
        ),
        Ok(BackendKind::Firewalld) => match r {
            Ok(backend) => backend is Firewalld,
            Err(e) => is_bus_failure(e@),
        },
    }
}

/// Turns the outcome of opening the system bus into the firewall-daemon
/// backend, or into the error that names the failure and keeps its cause.
pub fn firewalld_impl(bus: Result<Connection, zbus::Error>) -> (r: Result<
    FirewallImpl,
    NetavarkError,
>)
    ensures
        match bus {
            Ok(conn) => r is Ok && r->Ok_0 == FirewallImpl::Firewalld(conn),
            Err(cause) => r is Err && r->Err_0@ == ErrorView::Chain(
                bus_failure_message(),
                Box::new(ErrorView::Dbus(cause)),
            ),
        },
{
    match bus {
        Ok(conn) => Ok(FirewallImpl::Firewalld(conn)),
        Err(cause) => Err(
            NetavarkError::wrap(
                "Error retrieving dbus connection for requested firewall backend",
                NetavarkError::from(cause),
            ),
        ),
    }
}

/// What firewall implementation do the two names ask for? `driver_name`
/// is the caller's request, `env_name` what the environment held. For the
/// firewall daemon the system bus is opened here, once.
pub fn get_firewall_impl(driver_name: Option<String>, env_name: Option<String>) -> (r: Result<
    FirewallImpl,
    NetavarkError,
>)
    ensures
        resolves_to(text(driver_name), text(env_name), r),
{
    match select_kind(driver_name, env_name) {
        Err(e) => Err(e),
        Ok(BackendKind::Firewalld) => firewalld_impl(open_system_bus()),
        Ok(BackendKind::Iptables) => Ok(FirewallImpl::Iptables),
        Ok(BackendKind::Nftables) => Ok(FirewallImpl::Nftables),
        Ok(BackendKind::Fwnone) => Ok(FirewallImpl::Fwnone),
    }
}

/// Makes a resolved backend ready for use. The next-generation packet
/// filter is refused: it has no driver yet.
pub fn instantiate(fw: FirewallImpl) -> (r: Result<FirewallBackend, NetavarkError>)
    ensures
        match instantiated(fw) {
            Ok(backend) => r is Ok && r->Ok_0 == backend,
            Err(e) => r is Err && r->Err_0@ == e,
        },
{
    match fw {
        FirewallImpl::Iptables => Ok(FirewallBackend::Iptables),
        FirewallImpl::Firewalld(conn) => Ok(FirewallBackend::Firewalld(conn)),
        FirewallImpl::Nftables => Err(NetavarkError::msg("nftables support presently not available")),
        FirewallImpl::Fwnone => Ok(FirewallBackend::Fwnone(Fwnone::new())),
    }
}

/// Get the firewall backend that the two names ask for, ready for use.
/// `driver_name` is the caller's request and takes precedence;
/// `env_name` is what the environment held. With neither, the packet
/// filter is used.
pub fn get_supported_firewall_driver(
    driver_name: Option<String>,
    env_name: Option<String>,
) -> (r: Result<FirewallBackend, NetavarkError>)
    ensures
        selects(text(driver_name), text(env_name), r),
{
    match get_firewall_impl(driver_name, env_name) {
        Ok(fw) => instantiate(fw),
        Err(e) => Err(e),
    }
}

} // verus!
