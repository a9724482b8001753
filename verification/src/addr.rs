use vstd::prelude::*;

verus! {

/// An IP address as plain bits: a 32-bit IPv4 address or a 128-bit IPv6
/// address. The surrounding application parses textual addresses into this
/// form before handing them to the library.
#[derive(Clone, Copy, Debug, PartialEq, Eq, Structural)]
pub enum IpAddress {
    V4(u32),
    V6(u128),
}

impl IpAddress {
    /// Whether this address belongs to the IPv4 family.
    pub open spec fn is_v4(self) -> bool {
        self is V4
    }

    /// The address bits, widened to 128 bits for either family.
    pub open spec fn bits(self) -> u128 {
        match self {
            IpAddress::V4(b) => b as u128,
            IpAddress::V6(b) => b,
        }
    }
}

} // verus!
