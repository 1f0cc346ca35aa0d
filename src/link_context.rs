//! Scanning for reachable vehicles: address validation and the link context.

use crazyflie_link::LinkContext as RadioContext;
use std::sync::Arc;
use vstd::prelude::*;

verus! {

/// Byte repeated five times to form the default broadcast address.
pub const BROADCAST_ADDRESS_BYTE: u8 = 0xE7;

/// Number of bytes of a radio address.
pub const ADDRESS_LEN: usize = 5;

/// Why a scan request was rejected before any radio activity.
#[derive(Debug, Clone, Copy, PartialEq, Eq, Structural)]
pub enum ScanError {
    /// An explicit address was given whose length is not five bytes.
    InvalidAddressLength { len: usize },
}

impl ScanError {
    /// Human readable description of the error.
    pub fn message(&self) -> (r: String)
        ensures
            r@ == "Address must be exactly 5 bytes"@,
    {
        match self {
            ScanError::InvalidAddressLength { .. } => String::from_str("Address must be exactly 5 bytes"),
        }
    }
}

/// The address a scan uses: the given one when it has five bytes, the broadcast
/// address when none is given, and no address otherwise.
pub open spec fn spec_scan_address(address: Option<Seq<u8>>) -> Option<Seq<u8>> {
    match address {
        None => Some(Seq::new(5, |_i: int| BROADCAST_ADDRESS_BYTE)),
        Some(a) => if a.len() == 5 { Some(a) } else { None },
    }
}

/// The bytes of an optional address.
pub open spec fn bytes_view(address: Option<Vec<u8>>) -> Option<Seq<u8>> {
    match address {
        None => None,
        Some(v) => Some(v@),
    }
}

/// Checks the optional address of a scan and returns the five bytes to scan on.
pub fn scan_address(address: Option<Vec<u8>>) -> (r: Result<[u8; 5], ScanError>)
    ensures
        match r {
            Ok(a) => spec_scan_address(bytes_view(address)) == Some(a@),
            Err(e) => spec_scan_address(bytes_view(address)) is None
                && e == (ScanError::InvalidAddressLength { len: address.unwrap()@.len() as usize }),
        },
{
    match address {
        None => {
            let a = [BROADCAST_ADDRESS_BYTE; 5];
            assert(a@ =~= Seq::new(5, |_i: int| BROADCAST_ADDRESS_BYTE));
            Ok(a)
        },
        Some(v) => {
            if v.len() != ADDRESS_LEN {
                return Err(ScanError::InvalidAddressLength { len: v.len() });
            }
            let a = [v[0], v[1], v[2], v[3], v[4]];
            assert(a@ =~= v@);
            Ok(a)
        },
    }
}

#[verifier::external_type_specification]
#[verifier::external_body]
pub struct ExRadioContext(RadioContext);

/// Relies on crazyflie_link::LinkContext::new, which builds a context with no
/// radio opened yet.
pub assume_specification[ RadioContext::new ]() -> RadioContext;

/// Context shared by scans: keeps track of the radio dongles in use.
pub struct LinkContext {
    inner: Arc<RadioContext>,
}

impl LinkContext {
    /// Creates a context; no radio is opened until a scan needs one.
    pub fn new() -> (r: LinkContext) {
        LinkContext { inner: Arc::new(RadioContext::new()) }
    }

    /// The shared underlying context, for running a scan on it.
    pub fn inner(&self) -> &Arc<RadioContext> {
        &self.inner
    }
}

} // verus!
