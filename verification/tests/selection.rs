use netavark_firewall::error::NetavarkError;
use netavark_firewall::firewall::{
    firewalld_impl, get_firewall_impl, get_supported_firewall_driver, instantiate, parse_kind,
    pick_name, select_kind, BackendKind, FirewallBackend, FirewallDriver, FirewallImpl,
};
use netavark_firewall::fwnone::Fwnone;
use netavark_firewall::internal_types::{
    PortForwardConfig, SetupNetwork, TearDownNetwork, TeardownPortForward,
};

const INVALID: &str = "Must provide a valid firewall backend, got ";
const NO_BUS: &str = "Error retrieving dbus connection for requested firewall backend";
const NO_NFTABLES: &str = "nftables support presently not available";

fn some(s: &str) -> Option<String> {
    Some(s.to_string())
}

fn message_of(e: NetavarkError) -> String {
    match e {
        NetavarkError::Message(m) => m,
        other => panic!("expected a plain message, got {:?}", other),
    }
}

#[test]
fn default_without_any_name_is_iptables() {
    let backend = get_supported_firewall_driver(None, None).unwrap();
    assert!(matches!(backend, FirewallBackend::Iptables));
    assert_eq!(backend.driver_name(), "iptables");
}

#[test]
fn bogus_name_is_refused_and_named() {
    let e = get_supported_firewall_driver(some("bogus"), None).unwrap_err();
    let m = message_of(e);
    assert!(m.contains("bogus"));
    assert_eq!(m, format!("{}bogus", INVALID));
}

#[test]
fn upper_case_nftables_is_unavailable() {
    let e = get_supported_firewall_driver(some("NFTABLES"), None).unwrap_err();
    let m = message_of(e);
    assert_eq!(m, NO_NFTABLES);
    assert!(!m.starts_with(INVALID));
}

#[test]
fn nftables_is_unavailable_from_either_source() {
    let e = get_supported_firewall_driver(some("nftables"), some("none")).unwrap_err();
    assert_eq!(message_of(e), NO_NFTABLES);
    let e = get_supported_firewall_driver(None, some("NfTables")).unwrap_err();
    assert_eq!(message_of(e), NO_NFTABLES);
}

#[test]
fn invalid_name_is_reported_as_given() {
    let e = get_supported_firewall_driver(some("Bogus"), None).unwrap_err();
    assert_eq!(message_of(e), format!("{}Bogus", INVALID));
    let e = get_supported_firewall_driver(None, some("ipchains")).unwrap_err();
    assert_eq!(message_of(e), format!("{}ipchains", INVALID));
    let e = select_kind(some("firewall d"), None).unwrap_err();
    assert_eq!(message_of(e), format!("{}firewall d", INVALID));
}

#[test]
fn empty_name_is_invalid() {
    let e = get_supported_firewall_driver(some(""), some("iptables")).unwrap_err();
    assert_eq!(message_of(e), INVALID);
}

#[test]
fn matching_ignores_case() {
    for name in ["Firewalld", "FIREWALLD", "firewalld", "fIrEwAlLd"] {
        assert_eq!(select_kind(some(name), None).unwrap(), BackendKind::Firewalld);
    }
    for name in ["iptables", "IPTABLES", "IpTables"] {
        assert_eq!(select_kind(some(name), None).unwrap(), BackendKind::Iptables);
    }
    for name in ["nftables", "NFTABLES", "Nftables"] {
        assert_eq!(select_kind(some(name), None).unwrap(), BackendKind::Nftables);
    }
    for name in ["none", "NONE", "None"] {
        assert_eq!(select_kind(some(name), None).unwrap(), BackendKind::Fwnone);
    }
}

#[test]
fn upper_case_name_reaches_the_backend() {
    let backend = get_supported_firewall_driver(some("IPTABLES"), None).unwrap();
    assert!(matches!(backend, FirewallBackend::Iptables));
    let backend = get_supported_firewall_driver(some("NONE"), None).unwrap();
    assert!(matches!(backend, FirewallBackend::Fwnone(_)));
}

#[test]
fn parse_kind_takes_lower_case_only() {
    assert_eq!(parse_kind("firewalld"), Some(BackendKind::Firewalld));
    assert_eq!(parse_kind("iptables"), Some(BackendKind::Iptables));
    assert_eq!(parse_kind("nftables"), Some(BackendKind::Nftables));
    assert_eq!(parse_kind("none"), Some(BackendKind::Fwnone));
    assert_eq!(parse_kind("None"), None);
    assert_eq!(parse_kind("IPTABLES"), None);
    assert_eq!(parse_kind(""), None);
    assert_eq!(parse_kind("iptables "), None);
    assert_eq!(parse_kind("fwnone"), None);
}

#[test]
fn explicit_name_takes_precedence() {
    assert_eq!(pick_name(some("none"), some("iptables")), some("none"));
    assert_eq!(pick_name(None, some("iptables")), some("iptables"));
    assert_eq!(pick_name(some("none"), None), some("none"));
    assert_eq!(pick_name(None, None), None);
    assert_eq!(select_kind(some("none"), some("iptables")).unwrap(), BackendKind::Fwnone);
    assert_eq!(select_kind(some("iptables"), some("bogus")).unwrap(), BackendKind::Iptables);
    let e = select_kind(some("bogus"), some("iptables")).unwrap_err();
    assert_eq!(message_of(e), format!("{}bogus", INVALID));
    let backend = get_supported_firewall_driver(some("none"), some("nftables")).unwrap();
    assert!(matches!(backend, FirewallBackend::Fwnone(_)));
}

#[test]
fn environment_decides_without_explicit_name() {
    assert_eq!(select_kind(None, some("none")).unwrap(), BackendKind::Fwnone);
    assert_eq!(select_kind(None, some("Firewalld")).unwrap(), BackendKind::Firewalld);
    assert_eq!(select_kind(None, None).unwrap(), BackendKind::Iptables);
    let backend = get_supported_firewall_driver(None, some("none")).unwrap();
    assert_eq!(backend.driver_name(), "none");
}

#[test]
fn none_gives_the_noop_driver() {
    let backend = get_supported_firewall_driver(some("none"), None).unwrap();
    assert_eq!(backend.driver_name(), "none");
    let driver = match backend {
        FirewallBackend::Fwnone(driver) => driver,
        other => panic!("expected the no-op driver, got {:?}", other),
    };
    assert_eq!(driver, Fwnone::new());
    assert_eq!(driver.driver_name(), "none");
    assert!(driver.setup_network(SetupNetwork { config: vec![1, 2, 3] }).is_ok());
    assert!(driver.teardown_network(TearDownNetwork { config: vec![1, 2, 3] }).is_ok());
    assert!(driver.setup_port_forward(PortForwardConfig { config: Vec::new() }).is_ok());
    assert!(driver.teardown_port_forward(TeardownPortForward { config: Vec::new() }).is_ok());
    assert!(driver.teardown_network(TearDownNetwork { config: Vec::new() }).is_ok());
}

#[test]
fn noop_driver_behind_the_interface() {
    let driver: Box<dyn FirewallDriver> = Box::new(Fwnone::new());
    assert_eq!(driver.driver_name(), "none");
    assert!(driver.setup_network(SetupNetwork { config: vec![7] }).is_ok());
    assert!(driver.teardown_port_forward(TeardownPortForward { config: vec![7] }).is_ok());
}

#[test]
fn bus_failure_is_wrapped() {
    let e = firewalld_impl(Err(zbus::Error::Unsupported)).unwrap_err();
    match e {
        NetavarkError::Chain(m, cause) => {
            assert_eq!(m, NO_BUS);
            match *cause {
                NetavarkError::Dbus(inner) => assert_eq!(inner, zbus::Error::Unsupported),
                other => panic!("expected the bus error as cause, got {:?}", other),
            }
        }
        other => panic!("expected a chained error, got {:?}", other),
    }
}

#[test]
fn bus_failure_keeps_its_text() {
    let e = firewalld_impl(Err(zbus::Error::Address("no such socket".to_string()))).unwrap_err();
    match e {
        NetavarkError::Chain(_, cause) => match *cause {
            NetavarkError::Dbus(zbus::Error::Address(text)) => assert_eq!(text, "no such socket"),
            other => panic!("expected the address error as cause, got {:?}", other),
        },
        other => panic!("expected a chained error, got {:?}", other),
    }
}

#[test]
fn firewalld_is_the_daemon_or_a_bus_failure() {
    for name in ["firewalld", "FirewallD"] {
        match get_supported_firewall_driver(some(name), None) {
            Ok(backend) => {
                assert!(matches!(backend, FirewallBackend::Firewalld(_)));
                assert_eq!(backend.driver_name(), "firewalld");
            }
            Err(NetavarkError::Chain(m, cause)) => {
                assert_eq!(m, NO_BUS);
                assert!(matches!(*cause, NetavarkError::Dbus(_)));
            }
            Err(other) => panic!("expected a chained error, got {:?}", other),
        }
    }
}

#[test]
fn get_firewall_impl_resolves_each_kind() {
    assert!(matches!(get_firewall_impl(None, None), Ok(FirewallImpl::Iptables)));
    assert!(matches!(get_firewall_impl(some("Iptables"), None), Ok(FirewallImpl::Iptables)));
    assert!(matches!(get_firewall_impl(some("NFTables"), None), Ok(FirewallImpl::Nftables)));
    assert!(matches!(get_firewall_impl(None, some("none")), Ok(FirewallImpl::Fwnone)));
    let e = get_firewall_impl(some("pf"), some("none")).unwrap_err();
    assert_eq!(message_of(e), format!("{}pf", INVALID));
}

#[test]
fn instantiate_each_resolved_backend() {
    assert!(matches!(instantiate(FirewallImpl::Iptables), Ok(FirewallBackend::Iptables)));
    assert!(matches!(instantiate(FirewallImpl::Fwnone), Ok(FirewallBackend::Fwnone(_))));
    let e = instantiate(FirewallImpl::Nftables).unwrap_err();
    assert_eq!(message_of(e), NO_NFTABLES);
}

#[test]
fn error_constructors() {
    assert_eq!(message_of(NetavarkError::msg("plain")), "plain");
    match NetavarkError::wrap("outer", NetavarkError::msg("inner")) {
        NetavarkError::Chain(m, cause) => {
            assert_eq!(m, "outer");
            assert_eq!(message_of(*cause), "inner");
        }
        other => panic!("expected a chained error, got {:?}", other),
    }
    assert!(matches!(
        NetavarkError::from(zbus::Error::InvalidReply),
        NetavarkError::Dbus(zbus::Error::InvalidReply)
    ));
}

#[test]
fn selection_keeps_no_state() {
    assert!(get_supported_firewall_driver(some("bogus"), None).is_err());
    let backend = get_supported_firewall_driver(None, None).unwrap();
    assert_eq!(backend.driver_name(), "iptables");
    assert!(get_supported_firewall_driver(some("nftables"), None).is_err());
    let backend = get_supported_firewall_driver(some("none"), None).unwrap();
    assert_eq!(backend.driver_name(), "none");
}
