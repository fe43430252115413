//! Error taxonomy of the provisioner.

use vstd::prelude::*;

verus! {

/// A failure communicating with, or reported by, the kernel's
/// network-configuration service.
#[derive(Debug, Clone, Copy, PartialEq, Eq, Structural)]
pub enum ChannelError {
    /// The service rejected the request (a name already in use,
    /// insufficient privilege, a malformed name).
    Rejected,
    /// No live interface matches the queried name or index.
    NotFound,
    /// The connection to the service itself failed.
    Connection,
}

/// A failure encountered during provisioning, surfaced to the caller as a
/// failed result; provisioning is never partially successful.
#[derive(Debug, Clone, Copy, PartialEq, Eq, Structural)]
pub enum SetupError {
    /// A kernel-channel request failed.
    Channel(ChannelError),
    /// The hardware-address lookup service reported no address for an
    /// endpoint name.
    AddressMissing,
    /// The hardware-address lookup service itself reported an error.
    AddressLookup,
}

} // verus!
