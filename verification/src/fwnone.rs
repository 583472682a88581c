//! The backend that manages no firewall at all.

use vstd::prelude::*;
use crate::error::NetavarkError;
use crate::firewall::FirewallDriver;
use crate::internal_types::{PortForwardConfig, SetupNetwork, TearDownNetwork, TeardownPortForward};

verus! {

/// The canonical name of the backend that does nothing.
pub open spec fn fwnone_name() -> Seq<char> {
    "none"@
}

/// A firewall driver whose every operation succeeds without doing
/// anything. It holds no state and reaches nothing outside itself.
#[derive(Debug, Clone, Copy, PartialEq, Eq, Structural)]
pub struct Fwnone {}

impl Fwnone {
    pub fn new() -> (driver: Fwnone)
        ensures
            driver == (Fwnone {  }),
    {
        Fwnone {  }
    }
}

impl FirewallDriver for Fwnone {
    fn setup_network(&self, network_setup: SetupNetwork) -> (r: Result<(), NetavarkError>)
        ensures
            r is Ok,
    {
        Ok(())
    }

    fn teardown_network(&self, tear: TearDownNetwork) -> (r: Result<(), NetavarkError>)
        ensures
            r is Ok,
    {
        Ok(())
    }

    fn setup_port_forward(&self, setup_pw: PortForwardConfig) -> (r: Result<(), NetavarkError>)
        ensures
            r is Ok,
    {
        Ok(())
    }

    fn teardown_port_forward(&self, teardown_pf: TeardownPortForward) -> (r: Result<
        (),
        NetavarkError,
    >)
        ensures
            r is Ok,
    {
        Ok(())
    }

    fn driver_name(&self) -> (name: &str)
        ensures
            name@ == fwnone_name(),
    {
        "none"
    }
}

} // verus!
