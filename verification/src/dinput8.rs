//! The one entry of the input library that the host imports. The shim
//! stands in for that library, so it answers the entry itself: the object is
//! created through the component registry instead.
use crate::status::{Guid, HResult, E_NOINTERFACE};
use vstd::prelude::*;

verus! {

/// Class identifier of the input object.
pub const CLSID_DIRECTINPUT8: u128 = 0x25E609E4_B259_11CF_BFC7_4445_5354_0000;

/// Identifier of the input interface with narrow strings.
pub const IID_IDIRECTINPUT8A: u128 = 0xBF798030_483A_4DA2_AA99_5D64_ED36_9700;

/// Identifier of the input interface with wide strings.
pub const IID_IDIRECTINPUT8W: u128 = 0xBF798031_483A_4DA2_AA99_5D64_ED36_9700;

/// Creation context: a server inside the calling process.
pub const CLSCTX_INPROC_SERVER: u32 = 1;

/// How the input object is to be created.
#[derive(Clone, Copy, Debug, PartialEq, Eq, Structural)]
pub struct DirectInputRequest {
    /// Class to create.
    pub clsid: Guid,
    /// Interface to ask the new object for.
    pub iid: Guid,
    /// The object that aggregates the new one, if any.
    pub outer: Option<usize>,
    /// Creation context.
    pub context: u32,
    /// Whether the new object is initialised here, with the host's
    /// instance handle and version. An aggregated object is initialised by
    /// the host.
    pub initialize: bool,
}

/// What the entry does with a request for the interface `riid`.
pub open spec fn directinput8_request(riid: Option<Guid>, outer: Option<usize>) -> Result<
    DirectInputRequest,
    HResult,
> {
    match riid {
        Some(iid) => if iid.0 == IID_IDIRECTINPUT8A || iid.0 == IID_IDIRECTINPUT8W {
            Ok(
                DirectInputRequest {
                    clsid: Guid(CLSID_DIRECTINPUT8),
                    iid,
                    outer,
                    context: CLSCTX_INPROC_SERVER,
                    initialize: outer is None,
                },
            )
        } else {
            Err(HResult(E_NOINTERFACE))
        },
        None => Err(HResult(E_NOINTERFACE)),
    }
}

/// Answers the host's request for an input object. Only the two input
/// interfaces are known; for any other identifier, and for none, the call
/// fails with "no such interface" and nothing is created.
pub fn directinput8_create(
    hinst: usize,
    dwversion: u32,
    riid: Option<Guid>,
    outer: Option<usize>,
) -> (r: Result<DirectInputRequest, HResult>)
    ensures
        r == directinput8_request(riid, outer),
{
    match riid {
        Some(iid) => if iid.0 == IID_IDIRECTINPUT8A || iid.0 == IID_IDIRECTINPUT8W {
            Ok(
                DirectInputRequest {
                    clsid: Guid(CLSID_DIRECTINPUT8),
                    iid,
                    outer,
                    context: CLSCTX_INPROC_SERVER,
                    initialize: outer.is_none(),
                },
            )
        } else {
            Err(HResult(E_NOINTERFACE))
        },
        None => Err(HResult(E_NOINTERFACE)),
    }
}

} // verus!
