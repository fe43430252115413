//! The lifecycle state machine of a link pair.
//!
//! Provisioning and teardown talk to two external services: the kernel's
//! network-configuration channel (create a paired link, resolve a name to an
//! index, set a link up, delete a link by index) and a hardware-address
//! lookup service keyed by interface name. Every decision — which request to
//! issue next, with which arguments, and what each response means — lives
//! here and is verified. The unverified shell owns the connection and the
//! execution context: it repeatedly asks [`SetupState::next_action`] what to
//! do, performs the request, and feeds the outcome back through
//! [`SetupState::step`].
//!
//! The states follow the fixed provisioning sequence: create the pair,
//! resolve both indices, activate both endpoints, resolve both hardware
//! addresses, then `Ready`; from `Ready`, the owner's end of scope leads
//! through a single deletion request to `Deleted`. Any failure before
//! `Ready` ends in `Failed`, which records whether the creation request had
//! already succeeded — from that point on the pair may linger on the host,
//! since no compensating rollback is attempted.

use vstd::prelude::*;

use crate::config::{ConfigView, VethConfig};
use crate::error::{ChannelError, SetupError};
use crate::link::{LinkView, VethLink};

verus! {

/// Mathematical model of a response handed back to the machine.
pub ghost enum EventView {
    Acked,
    Index { index: u32 },
    Address { mac_addr: Seq<u8> },
    NoAddress,
    ChannelFailed { error: ChannelError },
    LookupFailed,
    Teardown,
}

/// The outcome of one performed action, handed back to the machine.
#[derive(Debug, Clone, Copy)]
pub enum SetupEvent {
    /// The channel acknowledged a creation, activation or deletion request.
    Acked,
    /// The channel answered an index query with this index.
    Index(u32),
    /// The lookup service returned this hardware address.
    Address([u8; 6]),
    /// The lookup service found no address for the queried name.
    NoAddress,
    /// The channel reported a failure for the pending request.
    ChannelFailed(ChannelError),
    /// The lookup service itself reported an error.
    LookupFailed,
    /// The owning scope has ended; the pair must now be deleted.
    Teardown,
}

impl View for SetupEvent {
    type V = EventView;

    open spec fn view(&self) -> EventView {
        match self {
            SetupEvent::Acked => EventView::Acked,
            SetupEvent::Index(index) => EventView::Index { index: *index },
            SetupEvent::Address(mac_addr) => EventView::Address { mac_addr: mac_addr@ },
            SetupEvent::NoAddress => EventView::NoAddress,
            SetupEvent::ChannelFailed(error) => EventView::ChannelFailed { error: *error },
            SetupEvent::LookupFailed => EventView::LookupFailed,
            SetupEvent::Teardown => EventView::Teardown,
        }
    }
}

/// Mathematical model of a request the machine asks the shell to perform.
pub ghost enum ActionView {
    CreatePair { dev1_ifname: Seq<char>, dev2_ifname: Seq<char> },
    ResolveIndex { ifname: Seq<char> },
    SetUp { index: u32 },
    ResolveAddress { ifname: Seq<char> },
    Delete { index: u32 },
}

/// A request the machine asks the unverified shell to perform next.
#[derive(Debug, Clone)]
pub enum SetupAction {
    /// Issue one creation request naming both endpoints of the pair.
    CreatePair { dev1_ifname: String, dev2_ifname: String },
    /// Query the channel for the index of the interface with this name.
    ResolveIndex { ifname: String },
    /// Mark the interface at this index administratively up.
    SetUp { index: u32 },
    /// Ask the lookup service for the hardware address of this name.
    ResolveAddress { ifname: String },
    /// Issue one removal request for the interface at this index; removing
    /// either end removes the whole pair.
    Delete { index: u32 },
}

impl View for SetupAction {
    type V = ActionView;

    open spec fn view(&self) -> ActionView {
        match self {
            SetupAction::CreatePair { dev1_ifname, dev2_ifname } => ActionView::CreatePair {
                dev1_ifname: dev1_ifname@,
                dev2_ifname: dev2_ifname@,
            },
            SetupAction::ResolveIndex { ifname } => ActionView::ResolveIndex { ifname: ifname@ },
            SetupAction::SetUp { index } => ActionView::SetUp { index: *index },
            SetupAction::ResolveAddress { ifname } => ActionView::ResolveAddress {
                ifname: ifname@,
            },
            SetupAction::Delete { index } => ActionView::Delete { index: *index },
        }
    }
}

/// Mathematical model of the machine's state.
pub ghost enum StateView {
    AwaitingCreate,
    AwaitingIndex1,
    AwaitingIndex2 { index1: u32 },
    AwaitingUp1 { index1: u32, index2: u32 },
    AwaitingUp2 { index1: u32, index2: u32 },
    AwaitingAddress1 { index1: u32, index2: u32 },
    AwaitingAddress2 { index1: u32, index2: u32, mac1: Seq<u8> },
    Ready { dev1: LinkView, dev2: LinkView },
    AwaitingDelete { index1: u32 },
    Deleted,
    Failed { error: SetupError, pair_created: bool },
    TeardownFailed,
}

/// The lifecycle state of one link pair.
///
/// `Ready` is the only state in which descriptors exist; a caller never
/// sees a half-built pair. `Failed` records the error and whether the
/// creation request had already succeeded, in which case the pair may
/// linger on the host and needs manual cleanup. `Deleted` and
/// `TeardownFailed` are terminal.
#[derive(Debug, Clone)]
pub enum SetupState {
    /// The creation request is pending.
    AwaitingCreate,
    /// Created; the index query for the first endpoint is pending.
    AwaitingIndex1,
    /// The index query for the second endpoint is pending.
    AwaitingIndex2 { index1: u32 },
    /// The activation request for the first endpoint is pending.
    AwaitingUp1 { index1: u32, index2: u32 },
    /// The activation request for the second endpoint is pending.
    AwaitingUp2 { index1: u32, index2: u32 },
    /// The address lookup for the first endpoint is pending.
    AwaitingAddress1 { index1: u32, index2: u32 },
    /// The address lookup for the second endpoint is pending.
    AwaitingAddress2 { index1: u32, index2: u32, mac1: [u8; 6] },
    /// Both endpoints exist on the host and are administratively up.
    Ready { dev1: VethLink, dev2: VethLink },
    /// The single deletion request is pending.
    AwaitingDelete { index1: u32 },
    /// The pair has been removed from the host.
    Deleted,
    /// Provisioning failed; `pair_created` says whether the pair may still
    /// occupy the host and so need manual cleanup.
    Failed { error: SetupError, pair_created: bool },
    /// The deletion request failed; the shell treats this as fatal.
    TeardownFailed,
}

impl View for SetupState {
    type V = StateView;

    open spec fn view(&self) -> StateView {
        match self {
            SetupState::AwaitingCreate => StateView::AwaitingCreate,
            SetupState::AwaitingIndex1 => StateView::AwaitingIndex1,
            SetupState::AwaitingIndex2 { index1 } => StateView::AwaitingIndex2 {
                index1: *index1,
            },
            SetupState::AwaitingUp1 { index1, index2 } => StateView::AwaitingUp1 {
                index1: *index1,
                index2: *index2,
            },
            SetupState::AwaitingUp2 { index1, index2 } => StateView::AwaitingUp2 {
                index1: *index1,
                index2: *index2,
            },
            SetupState::AwaitingAddress1 { index1, index2 } => StateView::AwaitingAddress1 {
                index1: *index1,
                index2: *index2,
            },
            SetupState::AwaitingAddress2 { index1, index2, mac1 } => StateView::AwaitingAddress2 {
                index1: *index1,
                index2: *index2,
                mac1: mac1@,
            },
            SetupState::Ready { dev1, dev2 } => StateView::Ready { dev1: dev1@, dev2: dev2@ },
            SetupState::AwaitingDelete { index1 } => StateView::AwaitingDelete {
                index1: *index1,
            },
            SetupState::Deleted => StateView::Deleted,
            SetupState::Failed { error, pair_created } => StateView::Failed {
                error: *error,
                pair_created: *pair_created,
            },
            SetupState::TeardownFailed => StateView::TeardownFailed,
        }
    }
}

/// The transition table of the machine: the state after receiving `e` in
/// state `s` under configuration `c`.
///
/// A response that the pending request cannot produce leaves the state
/// unchanged; in particular the two terminal states `Deleted` and
/// `TeardownFailed` absorb every event.
pub open spec fn spec_step(s: StateView, c: ConfigView, e: EventView) -> StateView {
    match (s, e) {
        (StateView::AwaitingCreate, EventView::Acked) => StateView::AwaitingIndex1,
        (StateView::AwaitingCreate, EventView::ChannelFailed { error }) => StateView::Failed {
            error: SetupError::Channel(error),
            pair_created: false,
        },
        (StateView::AwaitingIndex1, EventView::Index { index }) => StateView::AwaitingIndex2 {
            index1: index,
        },
        (StateView::AwaitingIndex1, EventView::ChannelFailed { error }) => StateView::Failed {
            error: SetupError::Channel(error),
            pair_created: true,
        },
        (StateView::AwaitingIndex2 { index1 }, EventView::Index { index }) => StateView::AwaitingUp1 {
            index1,
            index2: index,
        },
        (StateView::AwaitingIndex2 { .. }, EventView::ChannelFailed { error }) => StateView::Failed {
            error: SetupError::Channel(error),
            pair_created: true,
        },
        (StateView::AwaitingUp1 { index1, index2 }, EventView::Acked) => StateView::AwaitingUp2 {
            index1,
            index2,
        },
        (StateView::AwaitingUp1 { .. }, EventView::ChannelFailed { error }) => StateView::Failed {
            error: SetupError::Channel(error),
            pair_created: true,
        },
        (StateView::AwaitingUp2 { index1, index2 }, EventView::Acked) => StateView::AwaitingAddress1 {
            index1,
            index2,
        },
        (StateView::AwaitingUp2 { .. }, EventView::ChannelFailed { error }) => StateView::Failed {
            error: SetupError::Channel(error),
            pair_created: true,
        },
        (
            StateView::AwaitingAddress1 { index1, index2 },
            EventView::Address { mac_addr },
        ) => StateView::AwaitingAddress2 { index1, index2, mac1: mac_addr },
        (StateView::AwaitingAddress1 { .. }, EventView::NoAddress) => StateView::Failed {
            error: SetupError::AddressMissing,
            pair_created: true,
        },
        (StateView::AwaitingAddress1 { .. }, EventView::LookupFailed) => StateView::Failed {
            error: SetupError::AddressLookup,
            pair_created: true,
        },
        (
            StateView::AwaitingAddress2 { index1, index2, mac1 },
            EventView::Address { mac_addr },
        ) => StateView::Ready {
            dev1: LinkView { ifname: c.dev1_ifname, index: index1, mac_addr: mac1 },
            dev2: LinkView { ifname: c.dev2_ifname, index: index2, mac_addr },
        },
        (StateView::AwaitingAddress2 { .. }, EventView::NoAddress) => StateView::Failed {
            error: SetupError::AddressMissing,
            pair_created: true,
        },
        (StateView::AwaitingAddress2 { .. }, EventView::LookupFailed) => StateView::Failed {
            error: SetupError::AddressLookup,
            pair_created: true,
        },
        (StateView::Ready { dev1, dev2 }, EventView::Teardown) => StateView::AwaitingDelete {
            index1: dev1.index,
        },
        (StateView::AwaitingDelete { .. }, EventView::Acked) => StateView::Deleted,
        (StateView::AwaitingDelete { .. }, EventView::ChannelFailed { .. })
            => StateView::TeardownFailed,
        _ => s,
    }
}

/// The request pending in state `s` under configuration `c`: `None` exactly
/// in `Ready` (where the machine waits for the owner's end of scope) and in
/// the three states that issue no further request — `Deleted`, `Failed` and
/// `TeardownFailed`.
pub open spec fn spec_next_action(s: StateView, c: ConfigView) -> Option<ActionView> {
    match s {
        StateView::AwaitingCreate => Some(
            ActionView::CreatePair { dev1_ifname: c.dev1_ifname, dev2_ifname: c.dev2_ifname },
        ),
        StateView::AwaitingIndex1 => Some(ActionView::ResolveIndex { ifname: c.dev1_ifname }),
        StateView::AwaitingIndex2 { .. } => Some(
            ActionView::ResolveIndex { ifname: c.dev2_ifname },
        ),
        StateView::AwaitingUp1 { index1, .. } => Some(ActionView::SetUp { index: index1 }),
        StateView::AwaitingUp2 { index2, .. } => Some(ActionView::SetUp { index: index2 }),
        StateView::AwaitingAddress1 { .. } => Some(
            ActionView::ResolveAddress { ifname: c.dev1_ifname },
        ),
        StateView::AwaitingAddress2 { .. } => Some(
            ActionView::ResolveAddress { ifname: c.dev2_ifname },
        ),
        StateView::Ready { .. } => None,
        StateView::AwaitingDelete { index1 } => Some(ActionView::Delete { index: index1 }),
        StateView::Deleted => None,
        StateView::Failed { .. } => None,
        StateView::TeardownFailed => None,
    }
}

impl SetupState {
    /// The initial state: nothing has been sent yet; the creation request
    /// is pending.
    pub fn initial() -> (s: SetupState)
        ensures
            s@ == StateView::AwaitingCreate,
    {
        SetupState::AwaitingCreate
    }

    /// The request the shell must perform next, exactly as
    /// [`spec_next_action`] prescribes.
    pub fn next_action(&self, config: &VethConfig) -> (a: Option<SetupAction>)
        ensures
            (match a {
                Some(act) => spec_next_action(self@, config@) == Some(act@),
                None => spec_next_action(self@, config@) is None,
            }),
    {
        match self {
            SetupState::AwaitingCreate => Some(SetupAction::CreatePair {
                dev1_ifname: config.dev1_ifname().to_owned(),
                dev2_ifname: config.dev2_ifname().to_owned(),
            }),
            SetupState::AwaitingIndex1 => Some(SetupAction::ResolveIndex {
                ifname: config.dev1_ifname().to_owned(),
            }),
            SetupState::AwaitingIndex2 { .. } => Some(SetupAction::ResolveIndex {
                ifname: config.dev2_ifname().to_owned(),
            }),
            SetupState::AwaitingUp1 { index1, .. } => Some(SetupAction::SetUp { index: *index1 }),
            SetupState::AwaitingUp2 { index2, .. } => Some(SetupAction::SetUp { index: *index2 }),
            SetupState::AwaitingAddress1 { .. } => Some(SetupAction::ResolveAddress {
                ifname: config.dev1_ifname().to_owned(),
            }),
            SetupState::AwaitingAddress2 { .. } => Some(SetupAction::ResolveAddress {
                ifname: config.dev2_ifname().to_owned(),
            }),
            SetupState::Ready { .. } => None,
            SetupState::AwaitingDelete { index1 } => Some(SetupAction::Delete { index: *index1 }),
            SetupState::Deleted => None,
            SetupState::Failed { .. } => None,
            SetupState::TeardownFailed => None,
        }
    }

    /// Advance the machine by one response, exactly as [`spec_step`]
    /// prescribes.
    pub fn step(self, config: &VethConfig, event: SetupEvent) -> (r: SetupState)
        ensures
            r@ == spec_step(self@, config@, event@),
    {
        match (self, event) {
            (SetupState::AwaitingCreate, SetupEvent::Acked) => SetupState::AwaitingIndex1,
            (SetupState::AwaitingCreate, SetupEvent::ChannelFailed(error)) => SetupState::Failed {
                error: SetupError::Channel(error),
                pair_created: false,
            },
            (SetupState::AwaitingIndex1, SetupEvent::Index(index)) => SetupState::AwaitingIndex2 {
                index1: index,
            },
            (SetupState::AwaitingIndex1, SetupEvent::ChannelFailed(error)) => SetupState::Failed {
                error: SetupError::Channel(error),
                pair_created: true,
            },
            (
                SetupState::AwaitingIndex2 { index1 },
                SetupEvent::Index(index),
            ) => SetupState::AwaitingUp1 { index1, index2: index },
            (
                SetupState::AwaitingIndex2 { .. },
                SetupEvent::ChannelFailed(error),
            ) => SetupState::Failed { error: SetupError::Channel(error), pair_created: true },
            (
                SetupState::AwaitingUp1 { index1, index2 },
                SetupEvent::Acked,
            ) => SetupState::AwaitingUp2 { index1, index2 },
            (
                SetupState::AwaitingUp1 { .. },
                SetupEvent::ChannelFailed(error),
            ) => SetupState::Failed { error: SetupError::Channel(error), pair_created: true },
            (
                SetupState::AwaitingUp2 { index1, index2 },
                SetupEvent::Acked,
            ) => SetupState::AwaitingAddress1 { index1, index2 },
            (
                SetupState::AwaitingUp2 { .. },
                SetupEvent::ChannelFailed(error),
            ) => SetupState::Failed { error: SetupError::Channel(error), pair_created: true },
            (
                SetupState::AwaitingAddress1 { index1, index2 },
                SetupEvent::Address(mac_addr),
            ) => SetupState::AwaitingAddress2 { index1, index2, mac1: mac_addr },
            (
                SetupState::AwaitingAddress1 { .. },
                SetupEvent::NoAddress,
            ) => SetupState::Failed { error: SetupError::AddressMissing, pair_created: true },
            (
                SetupState::AwaitingAddress1 { .. },
                SetupEvent::LookupFailed,
            ) => SetupState::Failed { error: SetupError::AddressLookup, pair_created: true },
            (
                SetupState::AwaitingAddress2 { index1, index2, mac1 },
                SetupEvent::Address(mac_addr),
            ) => SetupState::Ready {
                dev1: VethLink::assemble(config.dev1_ifname().to_owned(), index1, mac1),
                dev2: VethLink::assemble(config.dev2_ifname().to_owned(), index2, mac_addr),
            },
            (
                SetupState::AwaitingAddress2 { .. },
                SetupEvent::NoAddress,
            ) => SetupState::Failed { error: SetupError::AddressMissing, pair_created: true },
            (
                SetupState::AwaitingAddress2 { .. },
                SetupEvent::LookupFailed,
            ) => SetupState::Failed { error: SetupError::AddressLookup, pair_created: true },
            (SetupState::Ready { dev1, dev2: _ }, SetupEvent::Teardown) => {
                SetupState::AwaitingDelete { index1: dev1.index() }
            },
            (SetupState::AwaitingDelete { .. }, SetupEvent::Acked) => SetupState::Deleted,
            (
                SetupState::AwaitingDelete { .. },
                SetupEvent::ChannelFailed(_),
            ) => SetupState::TeardownFailed,
            (s, _) => s,
        }
    }
}

} // verus!
