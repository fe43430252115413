//! Proved laws of the link-pair lifecycle.
//!
//! Each law is stated over the transition table [`spec_step`] and the
//! pending-request function [`spec_next_action`], for every configuration
//! and every response the services can give.

use vstd::prelude::*;

use crate::config::ConfigView;
use crate::error::{ChannelError, SetupError};
use crate::link::LinkView;
use crate::setup::{spec_next_action, spec_step, ActionView, EventView, StateView};

verus! {

/// The state reached from the initial state when every provisioning request
/// succeeds: creation is acknowledged, the two index queries answer
/// `index1` and `index2`, both activations are acknowledged, and the two
/// address lookups answer `mac1` and `mac2`.
pub open spec fn spec_provision_outcome(
    c: ConfigView,
    index1: u32,
    index2: u32,
    mac1: Seq<u8>,
    mac2: Seq<u8>,
) -> StateView {
    let s1 = spec_step(StateView::AwaitingCreate, c, EventView::Acked);
    let s2 = spec_step(s1, c, EventView::Index { index: index1 });
    let s3 = spec_step(s2, c, EventView::Index { index: index2 });
    let s4 = spec_step(s3, c, EventView::Acked);
    let s5 = spec_step(s4, c, EventView::Acked);
    let s6 = spec_step(s5, c, EventView::Address { mac_addr: mac1 });
    spec_step(s6, c, EventView::Address { mac_addr: mac2 })
}

/// Law: for every configuration, whenever every kernel request succeeds,
/// provisioning ends `Ready`, and the two descriptors carry exactly the
/// configured names and exactly the attributes the kernel reported.
pub proof fn lemma_provision_success(
    c: ConfigView,
    index1: u32,
    index2: u32,
    mac1: Seq<u8>,
    mac2: Seq<u8>,
)
    ensures
        spec_provision_outcome(c, index1, index2, mac1, mac2) == (StateView::Ready {
            dev1: LinkView { ifname: c.dev1_ifname, index: index1, mac_addr: mac1 },
            dev2: LinkView { ifname: c.dev2_ifname, index: index2, mac_addr: mac2 },
        }),
{
}

/// Law: the descriptors of a successful provisioning report exactly the
/// kernel-assigned indices; so whenever the kernel assigned two non-zero,
/// distinct indices — as it does for two distinct live interfaces — both
/// endpoints have a non-zero index and the two indices are distinct.
pub proof fn lemma_provision_indices_distinct(
    c: ConfigView,
    index1: u32,
    index2: u32,
    mac1: Seq<u8>,
    mac2: Seq<u8>,
)
    requires
        index1 != 0,
        index2 != 0,
        index1 != index2,
    ensures
        spec_provision_outcome(c, index1, index2, mac1, mac2) matches StateView::Ready {
            dev1,
            dev2,
        } && dev1.index != 0 && dev2.index != 0 && dev1.index != dev2.index,
{
}

/// Law: each descriptor of a successful provisioning carries exactly the
/// six-byte hardware address the lookup service reported for its name —
/// populated, and all zero only if the platform genuinely reported an
/// all-zero address.
pub proof fn lemma_provision_addresses(
    c: ConfigView,
    index1: u32,
    index2: u32,
    mac1: Seq<u8>,
    mac2: Seq<u8>,
)
    requires
        mac1.len() == 6,
        mac2.len() == 6,
    ensures
        spec_provision_outcome(c, index1, index2, mac1, mac2) matches StateView::Ready {
            dev1,
            dev2,
        } && dev1.mac_addr == mac1 && dev2.mac_addr == mac2 && dev1.wf() && dev2.wf(),
{
}

/// Law: teardown from `Ready` requests exactly one deletion, of the first
/// endpoint's index — removing either end removes the whole pair — and once
/// the channel acknowledges it the machine is `Deleted`, a terminal state:
/// no request is ever issued again and no event leads anywhere else.
pub proof fn lemma_teardown_round_trip(c: ConfigView, dev1: LinkView, dev2: LinkView)
    ensures
        spec_step(StateView::Ready { dev1, dev2 }, c, EventView::Teardown)
            == (StateView::AwaitingDelete { index1: dev1.index }),
        spec_next_action(StateView::AwaitingDelete { index1: dev1.index }, c)
            == Some(ActionView::Delete { index: dev1.index }),
        spec_step(StateView::AwaitingDelete { index1: dev1.index }, c, EventView::Acked)
            == StateView::Deleted,
        spec_next_action(StateView::Deleted, c) is None,
        forall|e: EventView| #[trigger] spec_step(StateView::Deleted, c, e)
            == StateView::Deleted,
{
}

/// Law: when the creation request itself fails, provisioning ends `Failed`
/// with the channel's error, the machine records that nothing was created
/// on the host, and it never issues another request.
pub proof fn lemma_create_failure_leaves_no_interface(c: ConfigView, error: ChannelError)
    ensures
        spec_step(StateView::AwaitingCreate, c, EventView::ChannelFailed { error })
            == (StateView::Failed { error: SetupError::Channel(error), pair_created: false }),
        spec_next_action(
            StateView::Failed { error: SetupError::Channel(error), pair_created: false },
            c,
        ) is None,
{
}

/// Law: a deletion is requested only in `AwaitingDelete`, and that state is
/// entered only from `Ready` by the owner's teardown — so at most one
/// deletion request is ever issued per pair, and only at its end of life.
pub proof fn lemma_delete_only_at_end_of_life(c: ConfigView, s: StateView, e: EventView)
    ensures
        spec_next_action(s, c) matches Some(ActionView::Delete { .. }) ==> s is AwaitingDelete,
        spec_step(s, c, e) is AwaitingDelete ==> (s is Ready && e is Teardown)
            || s is AwaitingDelete,
{
}

/// Law: no half-built pair is ever exposed: `Ready` is entered only by the
/// final address-resolution response, and a machine that has failed stays
/// failed and issues no further request.
pub proof fn lemma_no_partial_pair(c: ConfigView, s: StateView, e: EventView)
    ensures
        spec_step(s, c, e) is Ready ==> (s is AwaitingAddress2 && e is Address) || s is Ready,
        s is Failed ==> spec_step(s, c, e) == s,
        s is Failed ==> spec_next_action(s, c) is None,
{
}

} // verus!
