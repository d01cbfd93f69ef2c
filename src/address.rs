use vstd::prelude::*;
use vstd::string::StringExecFns;

verus! {

/// Which version of IP an address belongs to.
#[derive(Clone, Copy, PartialEq, Eq, Structural, Debug)]
pub enum Family {
    V4,
    V6,
}

/// An IP address, held as its family and its canonical text.
#[derive(Clone, Debug)]
pub struct Address {
    pub family: Family,
    pub text: String,
}

/// The mathematical value of an [`Address`].
pub struct AddressView {
    pub family: Family,
    pub text: Seq<char>,
}

impl View for Address {
    type V = AddressView;

    open spec fn view(&self) -> AddressView {
        AddressView { family: self.family, text: self.text@ }
    }
}

impl Address {
    /// A copy of this address.
    pub fn duplicate(&self) -> (r: Address)
        ensures
            r@ == self@,
    {
        Address { family: self.family, text: self.text.clone() }
    }
}

/// The tunnel device's own address.
pub fn tun_ipv4() -> (r: Address)
    ensures
        r@ == (AddressView { family: Family::V4, text: "10.0.0.33"@ }),
{
    Address { family: Family::V4, text: String::from_str("10.0.0.33") }
}

/// The tunnel device's netmask.
pub fn tun_netmask() -> (r: Address)
    ensures
        r@ == (AddressView { family: Family::V4, text: "255.255.255.0"@ }),
{
    Address { family: Family::V4, text: String::from_str("255.255.255.0") }
}

/// The tunnel device's gateway: traffic sent there enters the tunnel.
pub fn tun_gateway() -> (r: Address)
    ensures
        r@ == (AddressView { family: Family::V4, text: "10.0.0.1"@ }),
{
    Address { family: Family::V4, text: String::from_str("10.0.0.1") }
}

/// The resolver set on the tunnel adapter when the caller names none.
pub fn tun_dns() -> (r: Address)
    ensures
        r@ == (AddressView { family: Family::V4, text: "8.8.8.8"@ }),
{
    Address { family: Family::V4, text: String::from_str("8.8.8.8") }
}

} // verus!
