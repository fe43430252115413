//! The configuration naming the two endpoints of the link pair.

use vstd::prelude::*;

verus! {

/// Mathematical model of a configuration: the two endpoint names.
pub ghost struct ConfigView {
    pub dev1_ifname: Seq<char>,
    pub dev2_ifname: Seq<char>,
}

/// Names of the two endpoints of a link pair. Immutable once constructed.
///
/// The names should be non-empty and distinct, and must satisfy the host's
/// interface-naming constraints; length and character restrictions are
/// enforced by the kernel channel, not here, so none of them is a
/// precondition.
#[derive(Debug, Clone)]
pub struct VethConfig {
    dev1_ifname: String,
    dev2_ifname: String,
}

impl View for VethConfig {
    type V = ConfigView;

    closed spec fn view(&self) -> ConfigView {
        ConfigView { dev1_ifname: self.dev1_ifname@, dev2_ifname: self.dev2_ifname@ }
    }
}

impl VethConfig {
    /// A configuration naming the endpoints `dev1_ifname` and `dev2_ifname`.
    pub fn new(dev1_ifname: String, dev2_ifname: String) -> (r: Self)
        ensures
            r@.dev1_ifname == dev1_ifname@,
            r@.dev2_ifname == dev2_ifname@,
    {
        Self { dev1_ifname, dev2_ifname }
    }

    /// The configured name of the first endpoint.
    pub fn dev1_ifname(&self) -> (r: &str)
        ensures
            r@ == self@.dev1_ifname,
    {
        self.dev1_ifname.as_str()
    }

    /// The configured name of the second endpoint.
    pub fn dev2_ifname(&self) -> (r: &str)
        ensures
            r@ == self@.dev2_ifname,
    {
        self.dev2_ifname.as_str()
    }
}

impl Default for VethConfig {
    /// The default configuration names the endpoints `veth0` and `veth1`.
    fn default() -> (r: Self)
        ensures
            r@.dev1_ifname == "veth0"@,
            r@.dev2_ifname == "veth1"@,
    {
        Self { dev1_ifname: "veth0".to_owned(), dev2_ifname: "veth1".to_owned() }
    }
}

} // verus!
