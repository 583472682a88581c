//! The requests that a firewall backend is handed. Selection never looks
//! inside them: each carries a description in the encoding in which the
//! caller holds it, and a backend decodes it for itself.

use vstd::prelude::*;

verus! {

/// One network whose firewall rules are to be installed.
#[derive(Debug)]
pub struct SetupNetwork {
    pub config: Vec<u8>,
}

/// One network whose firewall rules are to be removed.
#[derive(Debug)]
pub struct TearDownNetwork {
    pub config: Vec<u8>,
}

/// The port forwards of one container that are to be installed.
#[derive(Debug)]
pub struct PortForwardConfig {
    pub config: Vec<u8>,
}

/// The port forwards of one container that are to be removed.
#[derive(Debug)]
pub struct TeardownPortForward {
    pub config: Vec<u8>,
}

} // verus!
