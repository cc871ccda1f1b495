//! Control-endpoint setup requests.
//!
//! The five setup words read from the controller's setup registers are
//! parsed by the `usb2` crate into its typed request enums. Each parse
//! result is a function of the five words alone and carries the name
//! `std_parse_of` / `acm_parse_of` here, applied by the ensures of the
//! two wrappers that make the calls; `parse_setup` and the dispatcher
//! are exact over those names. The descriptor and ACM class enums carry
//! only plain public fields and are declared transparently, so their
//! conversion into this crate's request model is verified; the
//! standard-request enum holds non-zero integer wrappers and stays
//! opaque, converted inside the wrapper's trusted boundary.

use vstd::prelude::*;

verus! {

/// Relies on usb2::StandardRequest; read only through `convert_standard`.
#[verifier::external_type_specification]
#[verifier::external_body]
pub struct ExStandardRequest(usb2::StandardRequest);

/// Relies on usb2::GetDescriptor: the descriptor named by GET_DESCRIPTOR.
#[verifier::external_type_specification]
pub struct ExGetDescriptor(usb2::GetDescriptor);

/// Relies on usb2::cdc::acm::Request: a parsed CDC ACM class request.
#[verifier::external_type_specification]
pub struct ExAcmRequest(usb2::cdc::acm::Request);

/// Relies on usb2::cdc::acm::Kind: the kind of a CDC ACM class request.
#[verifier::external_type_specification]
pub struct ExAcmKind(usb2::cdc::acm::Kind);

/// What usb2::StandardRequest::parse decodes from the five setup words,
/// carried into this crate's request model: a function of its arguments
/// alone.
pub uninterp spec fn std_parse_of(
    bmrequesttype: u8,
    brequest: u8,
    wvalue: u16,
    windex: u16,
    wlength: u16,
) -> Result<SetupRequest, ()>;

/// What usb2::cdc::acm::Request::parse decodes from the five setup
/// words, carried into this crate's request model: a function of its
/// arguments alone.
pub uninterp spec fn acm_parse_of(
    bmrequesttype: u8,
    brequest: u8,
    wvalue: u16,
    windex: u16,
    wlength: u16,
) -> Result<SetupRequest, ()>;

// ---------------------------------------------------------------------
// The driver's own request model, over plain values.
// ---------------------------------------------------------------------

/// The descriptor a GET_DESCRIPTOR request asks for.
#[derive(Clone, Copy, PartialEq, Eq, Structural, Debug)]
pub enum DescriptorKind {
    /// The device descriptor.
    Device,
    /// The device qualifier descriptor.
    DeviceQualifier,
    /// A configuration descriptor.
    Configuration { index: u8 },
    /// An other-speed configuration descriptor.
    OtherSpeedConfiguration { index: u8 },
    /// A string descriptor.
    StringDesc { index: u8, lang_id: u16 },
}

/// The kind of a CDC ACM class request.
#[derive(Clone, Copy, PartialEq, Eq, Structural, Debug)]
pub enum AcmRequestKind {
    /// GET_LINE_CODING
    GetLineCoding,
    /// SET_LINE_CODING
    SetLineCoding,
    /// SET_CONTROL_LINE_STATE
    SetControlLineState { dtr: bool, rts: bool },
}

/// A parsed setup request, reduced to the distinctions the driver acts
/// on. Standard requests the device never serves are collapsed to
/// `OtherStandard` and later stalled.
#[derive(Clone, Copy, PartialEq, Eq, Structural, Debug)]
pub enum SetupRequest {
    /// GET_DESCRIPTOR: send `length` bytes of the named descriptor.
    GetDescriptor { descriptor: DescriptorKind, length: u16 },
    /// SET_ADDRESS: adopt the address, or return to `Default` on zero.
    SetAddress { address: Option<u8> },
    /// SET_CONFIGURATION: adopt the value, or return to `Address` on zero.
    SetConfiguration { value: Option<u8> },
    /// A CDC ACM class request for the given interface.
    Acm { interface: u8, kind: AcmRequestKind },
    /// Any other well-formed standard request; the device stalls it.
    OtherStandard,
}

impl SetupRequest {
    /// Addresses and configuration values are non-zero when present; the
    /// wire encodes "none" as zero and the parser strips it out.
    pub open spec fn wf(&self) -> bool {
        match *self {
            SetupRequest::SetAddress { address } => address matches Some(a) ==> a != 0,
            SetupRequest::SetConfiguration { value } => value matches Some(v) ==> v != 0,
            _ => true,
        }
    }
}

/// The conversion half of `parse_standard`'s trusted boundary. Relies
/// on usb2::StandardRequest's public variants, read field by field, and
/// on core::num::NonZeroU8::get, whose result is non-zero by the type's
/// invariant.
#[verifier::external_body]
fn convert_standard(req: usb2::StandardRequest) -> (r: SetupRequest)
    ensures
        r.wf(),
        r !is Acm,
{
    match req {
        usb2::StandardRequest::GetDescriptor { descriptor, length } => (SetupRequest::GetDescriptor {
            descriptor: convert_descriptor(descriptor),
            length,
        }),
        usb2::StandardRequest::SetAddress { address } => (SetupRequest::SetAddress {
            address: address.map(|a| a.get()),
        }),
        usb2::StandardRequest::SetConfiguration { value } => (SetupRequest::SetConfiguration {
            value: value.map(|v| v.get()),
        }),
        _ => SetupRequest::OtherStandard,
    }
}

/// Mirrors a parsed descriptor name in the driver's model.
fn convert_descriptor(descriptor: usb2::GetDescriptor) -> (r: DescriptorKind)
    ensures
        r == (match descriptor {
            usb2::GetDescriptor::Device => DescriptorKind::Device,
            usb2::GetDescriptor::DeviceQualifier => DescriptorKind::DeviceQualifier,
            usb2::GetDescriptor::Configuration { index } => DescriptorKind::Configuration { index },
            usb2::GetDescriptor::OtherSpeedConfiguration { index } => (
            DescriptorKind::OtherSpeedConfiguration { index }),
            usb2::GetDescriptor::String { index, lang_id } => (DescriptorKind::StringDesc {
                index,
                lang_id,
            }),
        }),
{
    match descriptor {
        usb2::GetDescriptor::Device => DescriptorKind::Device,
        usb2::GetDescriptor::DeviceQualifier => DescriptorKind::DeviceQualifier,
        usb2::GetDescriptor::Configuration { index } => DescriptorKind::Configuration { index },
        usb2::GetDescriptor::OtherSpeedConfiguration { index } => (
        DescriptorKind::OtherSpeedConfiguration { index }),
        usb2::GetDescriptor::String { index, lang_id } => (DescriptorKind::StringDesc {
            index,
            lang_id,
        }),
    }
}

/// Mirrors a parsed ACM class request in the driver's model.
fn convert_acm(req: usb2::cdc::acm::Request) -> (r: SetupRequest)
    ensures
        r matches SetupRequest::Acm { interface, kind } && interface == req.interface,
        r.wf(),
{
    let kind = match req.kind {
        usb2::cdc::acm::Kind::GetLineCoding => AcmRequestKind::GetLineCoding,
        usb2::cdc::acm::Kind::SetLineCoding => AcmRequestKind::SetLineCoding,
        usb2::cdc::acm::Kind::SetControlLineState { dtr, rts } => (
        AcmRequestKind::SetControlLineState { dtr, rts }),
    };
    SetupRequest::Acm { interface: req.interface, kind }
}

/// Assembles a register word from its low and high byte registers.
pub fn word_from_bytes(lo: u8, hi: u8) -> (r: u16)
    ensures
        r == lo + 256 * (hi as u16),
{
    proof {
        lemma_word_from_bytes(lo, hi);
    }
    (lo as u16) | ((hi as u16) << 8)
}

proof fn lemma_word_from_bytes(lo: u8, hi: u8)
    ensures
        ((lo as u16) | ((hi as u16) << 8)) == lo + 256 * (hi as u16),
{
    assert(((lo as u16) | ((hi as u16) << 8)) == lo + 256 * (hi as u16)) by (bit_vector);
}

/// Relies on usb2::StandardRequest::parse: the decoded request is a
/// function of the five setup words alone, named `std_parse_of`; when it
/// decodes, addresses and configuration values are in 1..=127 and
/// 1..=255 on the wire, so the converted request is well formed.
#[verifier::external_body]
fn parse_standard(
    bmrequesttype: u8,
    brequest: u8,
    wvalue: u16,
    windex: u16,
    wlength: u16,
) -> (r: Result<SetupRequest, ()>)
    ensures
        r == std_parse_of(bmrequesttype, brequest, wvalue, windex, wlength),
        r matches Ok(req) ==> req.wf() && req !is Acm,
{
    match usb2::StandardRequest::parse(bmrequesttype, brequest, wvalue, windex, wlength) {
        Ok(req) => Ok(convert_standard(req)),
        Err(()) => Err(()),
    }
}

/// Relies on usb2::cdc::acm::Request::parse: the decoded request is a
/// function of the five setup words alone, named `acm_parse_of`.
#[verifier::external_body]
fn parse_acm(
    bmrequesttype: u8,
    brequest: u8,
    wvalue: u16,
    windex: u16,
    wlength: u16,
) -> (r: Result<SetupRequest, ()>)
    ensures
        r == acm_parse_of(bmrequesttype, brequest, wvalue, windex, wlength),
        r matches Ok(req) ==> req.wf() && req is Acm,
{
    match usb2::cdc::acm::Request::parse(bmrequesttype, brequest, wvalue, windex, wlength) {
        Ok(req) => Ok(convert_acm(req)),
        Err(()) => Err(()),
    }
}

/// The whole setup decode: a standard request first, a CDC ACM class
/// request on its failure, an error when neither fits.
pub open spec fn spec_parse_setup(
    bmrequesttype: u8,
    brequest: u8,
    wvalue: u16,
    windex: u16,
    wlength: u16,
) -> Result<SetupRequest, ()> {
    match std_parse_of(bmrequesttype, brequest, wvalue, windex, wlength) {
        Ok(req) => Ok(req),
        Err(()) => acm_parse_of(bmrequesttype, brequest, wvalue, windex, wlength),
    }
}

/// Parses the five setup words into the driver's request model: first as
/// a standard request, then as a CDC ACM class request; anything else is
/// a malformed or unsupported setup packet, reported as `Err`, on which
/// the caller stalls the control endpoint.
pub fn parse_setup(
    bmrequesttype: u8,
    brequest: u8,
    wvalue: u16,
    windex: u16,
    wlength: u16,
) -> (r: Result<SetupRequest, ()>)
    ensures
        r == spec_parse_setup(bmrequesttype, brequest, wvalue, windex, wlength),
        r matches Ok(req) ==> req.wf(),
{
    match parse_standard(bmrequesttype, brequest, wvalue, windex, wlength) {
        Ok(req) => Ok(req),
        Err(()) => parse_acm(bmrequesttype, brequest, wvalue, windex, wlength),
    }
}

} // verus!
