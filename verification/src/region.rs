//! The value type describing one SAU region, and its alignment rules.

use vstd::prelude::*;

verus! {

/// Possible attribute of a SAU region.
#[derive(Copy, Clone, Debug, PartialEq, Eq, Structural)]
pub enum SauRegionAttribute {
    /// The region is Secure.
    Secure,
    /// The region is Non-Secure Callable.
    NonSecureCallable,
    /// The region is Non-Secure.
    NonSecure,
}

/// Possible error values returned by the SAU methods.
#[derive(Copy, Clone, Debug, PartialEq, Eq, Structural)]
pub enum SauError {
    /// The region number given to a hardware read or write must be
    /// below the number of regions the hardware implements.
    RegionNumberTooBig,
    /// Bits 0 to 4 of the base address of a SAU region must be set to zero.
    WrongBaseAddress,
    /// Bits 0 to 4 of the limit address of a SAU region must be set to one.
    WrongLimitAddress,
}

/// A base address is valid when it sits on a 32-byte boundary:
/// its five low bits are zero.
pub open spec fn valid_base(base_address: u32) -> bool {
    base_address & 0x1F == 0
}

/// A limit address is valid when it is the last byte of a 32-byte block:
/// its five low bits are all ones.
pub open spec fn valid_limit(limit_address: u32) -> bool {
    limit_address & 0x1F == 0x1F
}

/// Description of a SAU region.
#[derive(Copy, Clone, Debug, PartialEq, Eq, Structural)]
pub struct SauRegion {
    /// First address of the region; its 5 least significant bits must be zero.
    pub base_address: u32,
    /// Last address of the region; its 5 least significant bits must be one.
    pub limit_address: u32,
    /// Attribute of the region.
    pub attribute: SauRegionAttribute,
}

/// A region is valid when both of its addresses obey the alignment rules.
/// Nothing relates the two addresses: the hardware accepts an inverted or
/// zero-length range as well, so the driver does too.
pub open spec fn valid_region(region: SauRegion) -> bool {
    valid_base(region.base_address) && valid_limit(region.limit_address)
}

/// The region an unused slot holds: a zero range marked Non-Secure.
pub open spec fn unused_region() -> SauRegion {
    SauRegion {
        base_address: 0,
        limit_address: 0,
        attribute: SauRegionAttribute::NonSecure,
    }
}

impl SauRegion {
    /// Builds a region from its parts.
    pub fn new(base_address: u32, limit_address: u32, attribute: SauRegionAttribute) -> (r:
        SauRegion)
        ensures
            r == (SauRegion { base_address, limit_address, attribute }),
    {
        SauRegion { base_address, limit_address, attribute }
    }

    /// Checks the alignment rules of both addresses, in the order the
    /// hardware write path checks them: the base address first.
    pub fn validate(&self) -> (r: Result<(), SauError>)
        ensures
            r == (if !valid_base(self.base_address) {
                Err::<(), SauError>(SauError::WrongBaseAddress)
            } else if !valid_limit(self.limit_address) {
                Err::<(), SauError>(SauError::WrongLimitAddress)
            } else {
                Ok::<(), SauError>(())
            }),
            r is Ok <==> valid_region(*self),
    {
        if self.base_address & 0x1F != 0 {
            Err(SauError::WrongBaseAddress)
        } else if self.limit_address & 0x1F != 0x1F {
            Err(SauError::WrongLimitAddress)
        } else {
            Ok(())
        }
    }
}

} // verus!
