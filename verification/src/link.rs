//! The endpoint descriptor: the result of successful provisioning for one
//! side of the link pair.

use vstd::prelude::*;

verus! {

/// Mathematical model of an endpoint descriptor.
pub ghost struct LinkView {
    pub ifname: Seq<char>,
    pub index: u32,
    pub mac_addr: Seq<u8>,
}

impl LinkView {
    /// A descriptor is well formed when its hardware address has exactly
    /// six bytes, as the kernel reports for this kind of interface.
    pub open spec fn wf(self) -> bool {
        self.mac_addr.len() == 6
    }
}

/// One side of a provisioned link pair: the interface name, the
/// kernel-assigned index, and the hardware address the kernel or driver
/// assigned at creation time. Read-only to callers.
#[derive(Debug, Clone)]
pub struct VethLink {
    ifname: String,
    index: u32,
    mac_addr: [u8; 6],
}

impl View for VethLink {
    type V = LinkView;

    closed spec fn view(&self) -> LinkView {
        LinkView { ifname: self.ifname@, index: self.index, mac_addr: self.mac_addr@ }
    }
}

impl VethLink {
    /// Assemble a descriptor from the attributes the kernel reported for
    /// one endpoint. Crate-internal: callers obtain descriptors only from
    /// a fully provisioned pair.
    pub(crate) fn assemble(ifname: String, index: u32, mac_addr: [u8; 6]) -> (r: VethLink)
        ensures
            r@ == (LinkView { ifname: ifname@, index, mac_addr: mac_addr@ }),
    {
        VethLink { ifname, index, mac_addr }
    }

    /// The interface name; it matches the configured name.
    pub fn ifname(&self) -> (r: &str)
        ensures
            r@ == self@.ifname,
    {
        self.ifname.as_str()
    }

    /// The kernel-assigned index, unique among live host interfaces at
    /// creation time and stable until the interface is removed.
    pub fn index(&self) -> (r: u32)
        ensures
            r == self@.index,
    {
        self.index
    }

    /// The six-byte hardware address assigned at creation time.
    pub fn mac_addr(&self) -> (r: &[u8; 6])
        ensures
            r@ == self@.mac_addr,
    {
        &self.mac_addr
    }
}

/// Every descriptor a caller can hold carries a six-byte hardware address.
pub proof fn lemma_link_view_wf(l: VethLink)
    ensures
        l@.wf(),
{
}

} // verus!
