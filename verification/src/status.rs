//! Status codes and 16-byte identifiers shared by every interface of the shim.
use vstd::prelude::*;

verus! {

/// Code of a successful call.
pub const S_OK: i32 = 0;

/// Code of an unspecified failure.
pub const E_FAIL: i32 = -2147467259;

/// Code for an operation that is not implemented.
pub const E_NOTIMPL: i32 = -2147467263;

/// Code for "no such interface or identifier".
pub const E_NOINTERFACE: i32 = -2147467262;

/// A COM status code. Negative values are failures.
#[derive(Clone, Copy, Debug, PartialEq, Eq, Structural)]
pub struct HResult(pub i32);

impl HResult {
    /// Whether the code reports success.
    pub open spec fn spec_is_ok(self) -> bool {
        self.0 >= 0
    }

    /// Whether the code reports success.
    #[verifier::when_used_as_spec(spec_is_ok)]
    pub fn is_ok(self) -> (r: bool)
        ensures
            r == (self.0 >= 0),
    {
        self.0 >= 0
    }
}

/// A 16-byte identifier of a class or an interface, held as one number: the
/// first field of the textual form is the most significant.
#[derive(Clone, Copy, Debug, PartialEq, Eq, Structural)]
pub struct Guid(pub u128);

/// The number that the four fields of an identifier stand for.
pub open spec fn guid_value(data1: u32, data2: u16, data3: u16, data4: Seq<u8>) -> int {
    data1 * 0x1_0000_0000_0000_0000_0000_0000 + data2 * 0x1_0000_0000_0000_0000_0000
        + data3 * 0x1_0000_0000_0000_0000 + data4[0] * 0x100_0000_0000_0000 + data4[1]
        * 0x1_0000_0000_0000 + data4[2] * 0x100_0000_0000 + data4[3] * 0x1_0000_0000 + data4[4]
        * 0x100_0000 + data4[5] * 0x1_0000 + data4[6] * 0x100 + data4[7]
}

impl Guid {
    /// Builds an identifier from the four fields of its textual form.
    pub fn from_values(data1: u32, data2: u16, data3: u16, data4: [u8; 8]) -> (g: Guid)
        ensures
            g.0 == guid_value(data1, data2, data3, data4@),
    {
        let high: u128 = (data1 as u128) * 0x1_0000_0000_0000_0000_0000_0000 + (data2 as u128)
            * 0x1_0000_0000_0000_0000_0000 + (data3 as u128) * 0x1_0000_0000_0000_0000;
        let low: u128 = (data4[0] as u128) * 0x100_0000_0000_0000 + (data4[1] as u128)
            * 0x1_0000_0000_0000 + (data4[2] as u128) * 0x100_0000_0000 + (data4[3] as u128)
            * 0x1_0000_0000 + (data4[4] as u128) * 0x100_0000 + (data4[5] as u128) * 0x1_0000
            + (data4[6] as u128) * 0x100 + (data4[7] as u128);
        Guid(high + low)
    }
}

} // verus!
