//! Recognising a printer among the USB devices and picking its endpoints.

use super::constants::{printer_name_from_id, product_name, VENDOR_ID};
use vstd::prelude::*;

verus! {

/// Product identifier of a QL-700 that is still in Editor Lite mode, in
/// which it cannot be printed with.
pub const EDITOR_LITE_PRODUCT_ID: u16 = 0x2049;

/// The direction of an endpoint, seen from the host.
#[derive(Clone, Copy, Debug, PartialEq, Eq, Structural)]
pub enum Direction {
    In,
    Out,
}

/// The transfer type of an endpoint.
#[derive(Clone, Copy, Debug, PartialEq, Eq, Structural)]
pub enum TransferType {
    Control,
    Isochronous,
    Bulk,
    Interrupt,
}

/// What the driver reads of an endpoint descriptor.
#[derive(Clone, Copy, Debug, PartialEq, Eq, Structural)]
pub struct Endpoint {
    pub address: u8,
    pub direction: Direction,
    pub transfer_type: TransferType,
}

/// The pair of endpoints that the driver talks through.
#[derive(Clone, Copy, Debug, PartialEq, Eq, Structural)]
pub struct Endpoints {
    pub in_endpoint: u8,
    pub out_endpoint: u8,
}

/// Why an interface cannot be used.
#[derive(Clone, Copy, Debug, PartialEq, Eq, Structural)]
pub enum EndpointError {
    /// An endpoint of the interface is not a bulk endpoint.
    NotBulk,
    /// The interface lacks an endpoint for one of the two directions.
    NotFound,
}

impl EndpointError {
    /// What the error says in words.
    pub open spec fn spec_message(self) -> Seq<char> {
        match self {
            EndpointError::NotBulk =>
                "Brother QL printers are defined as using only bulk endpoint communication"@,
            EndpointError::NotFound => "Input or output endpoint not found"@,
        }
    }

    /// What the error says in words.
    pub fn message(&self) -> (text: &'static str)
        ensures
            text@ == self.spec_message(),
    {
        match self {
            EndpointError::NotBulk =>
                "Brother QL printers are defined as using only bulk endpoint communication",
            EndpointError::NotFound => "Input or output endpoint not found",
        }
    }
}

/// A device is a supported printer if it carries the vendor's identifier
/// and a product identifier with a model name.
pub open spec fn supported(vendor_id: u16, product_id: u16) -> bool {
    vendor_id == VENDOR_ID && product_name(product_id) is Some
}

/// Whether `endpoints` holds bulk endpoints only.
pub open spec fn all_bulk(endpoints: Seq<Endpoint>) -> bool {
    forall|i: int| 0 <= i < endpoints.len() ==> (#[trigger] endpoints[i]).transfer_type
        == TransferType::Bulk
}

/// The address of the last endpoint with the given direction.
pub open spec fn last_address(endpoints: Seq<Endpoint>, direction: Direction) -> Option<u8>
    decreases endpoints.len(),
{
    if endpoints.len() == 0 {
        None
    } else if endpoints.last().direction == direction {
        Some(endpoints.last().address)
    } else {
        last_address(endpoints.drop_last(), direction)
    }
}

/// The endpoints to use: every endpoint must be a bulk endpoint, and for
/// each direction the last one listed is taken.
pub open spec fn selected(endpoints: Seq<Endpoint>) -> Result<Endpoints, EndpointError> {
    if !all_bulk(endpoints) {
        Err(EndpointError::NotBulk)
    } else {
        match (last_address(endpoints, Direction::In), last_address(endpoints, Direction::Out)) {
            (Some(in_endpoint), Some(out_endpoint)) => Ok(Endpoints { in_endpoint, out_endpoint }),
            _ => Err(EndpointError::NotFound),
        }
    }
}

/// Whether a USB device is a printer that this driver supports.
pub fn is_supported_printer(vendor_id: u16, product_id: u16) -> (yes: bool)
    ensures
        yes == supported(vendor_id, product_id),
{
    vendor_id == VENDOR_ID && printer_name_from_id(product_id).is_some()
}

/// Whether a USB device is a QL-700 whose Editor Lite mode must be
/// switched off before it can print.
pub fn is_in_editor_lite_mode(vendor_id: u16, product_id: u16) -> (yes: bool)
    ensures
        yes == (vendor_id == VENDOR_ID && product_id == EDITOR_LITE_PRODUCT_ID),
{
    vendor_id == VENDOR_ID && product_id == EDITOR_LITE_PRODUCT_ID
}

/// Picks the endpoints of a printer's interface.
pub fn select_endpoints(endpoints: &Vec<Endpoint>) -> (chosen: Result<Endpoints, EndpointError>)
    ensures
        chosen == selected(endpoints@),
{
    let mut in_endpoint: Option<u8> = None;
    let mut out_endpoint: Option<u8> = None;
    let mut i: usize = 0;
    while i < endpoints.len()
        invariant
            i <= endpoints.len(),
            all_bulk(endpoints@.take(i as int)),
            in_endpoint == last_address(endpoints@.take(i as int), Direction::In),
            out_endpoint == last_address(endpoints@.take(i as int), Direction::Out),
        decreases endpoints.len() - i,
    {
        let endpoint = endpoints[i];
        if endpoint.transfer_type != TransferType::Bulk {
            return Err(EndpointError::NotBulk);
        }
        match endpoint.direction {
            Direction::In => in_endpoint = Some(endpoint.address),
            Direction::Out => out_endpoint = Some(endpoint.address),
        }
        proof {
            let next = endpoints@.take(i + 1);
            assert(next.drop_last() =~= endpoints@.take(i as int));
            assert(next.last() == endpoints@[i as int]);
            assert forall|k: int| 0 <= k < next.len() implies (#[trigger] next[k]).transfer_type
                == TransferType::Bulk by {
                if k < i {
                    assert(endpoints@.take(i as int)[k] == next[k]);
                }
            }
        }
        i += 1;
    }
    assert(endpoints@.take(i as int) =~= endpoints@);
    match (in_endpoint, out_endpoint) {
        (Some(in_endpoint), Some(out_endpoint)) => Ok(Endpoints { in_endpoint, out_endpoint }),
        _ => Err(EndpointError::NotFound),
    }
}

} // verus!
