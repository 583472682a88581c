//! The system message bus, as far as backend selection touches it.

use vstd::prelude::*;
use zbus::blocking::Connection;

verus! {

/// An open connection to a message bus. Nothing inside it is visible
/// here: it is carried to the backend that talks to the firewall daemon.
#[verifier::external_type_specification]
#[verifier::external_body]
pub struct ExConnection(zbus::blocking::Connection);

/// The error that the bus client reports. It is carried as the cause of
/// this library's own error and never inspected.
#[verifier::external_type_specification]
#[verifier::external_body]
pub struct ExBusError(zbus::Error);

/// Calls `zbus::blocking::Connection::system`, which connects to the
/// system instance of the message bus. Whether that succeeds depends on
/// the machine, so nothing is claimed of the outcome.
#[verifier::external_body]
pub(crate) fn open_system_bus() -> Result<Connection, zbus::Error> {
    Connection::system()
}

} // verus!
