//! Control endpoint (EP0) and device state.
//!
//! The device-state table for SET_ADDRESS / SET_CONFIGURATION, the
//! multi-packet IN data-stage policy for GET_DESCRIPTOR, and the
//! dispatch of a parsed setup request. A rejected request is reported
//! as `Unsupported` and the caller stalls EP0; an explicitly unfinished
//! path is reported as `NotImplemented` and the caller halts.

use vstd::prelude::*;

use crate::setup::{AcmRequestKind, DescriptorKind, SetupRequest};

verus! {

/// Maximum packet size of the control endpoint, in bytes.
pub const MAX_PACKET_SIZE0: u8 = 64;

/// USB 2.0 device state.
#[derive(Clone, Copy, PartialEq, Eq, Structural, Debug)]
pub enum UsbState {
    /// After reset, before an address is assigned.
    Default,
    /// Addressed but not configured.
    Address { address: u8 },
    /// Addressed and configured; the bulk endpoints are live.
    Configured { address: u8, value: u8 },
}

impl UsbState {
    /// The address is non-zero outside `Default`, and the configuration
    /// value is the single supported one.
    pub open spec fn wf(&self, supported: u8) -> bool {
        match *self {
            UsbState::Default => true,
            UsbState::Address { address } => address != 0,
            UsbState::Configured { address, value } => address != 0 && value == supported,
        }
    }
}

/// Control-read progress on EP0. `Write` exists only between the start
/// of a GET_DESCRIPTOR data stage and its final packet; `leftover`
/// counts the bytes still to send after the packet now in flight.
#[derive(Clone, Copy, PartialEq, Eq, Structural, Debug)]
pub enum Ep0State {
    Idle,
    Write { leftover: u16 },
}

/// One armed EP0 IN packet: how many bytes to latch, and whether the
/// hardware short-circuits EP0DATADONE into the status stage (set
/// exactly for the final packet of the stage).
#[derive(Clone, Copy, PartialEq, Eq, Structural, Debug)]
pub struct Ep0InAction {
    pub maxcnt: u8,
    pub short: bool,
}

// ---------------------------------------------------------------------
// Device-state table.
// ---------------------------------------------------------------------

/// SET_ADDRESS: adopt a new address from `Default` or `Address`, return
/// to `Default` on a zero address, and fail in `Configured`.
pub open spec fn spec_set_address(s: UsbState, address: Option<u8>) -> Result<UsbState, ()> {
    match s {
        UsbState::Default => match address {
            Some(a) => Ok(UsbState::Address { address: a }),
            None => Ok(UsbState::Default),
        },
        UsbState::Address { address: _ } => match address {
            Some(a) => Ok(UsbState::Address { address: a }),
            None => Ok(UsbState::Default),
        },
        UsbState::Configured { .. } => Err(()),
    }
}

/// SET_CONFIGURATION: adopt the single supported value from `Address`,
/// keep it in `Configured`, return to `Address` on a zero value, and
/// fail in `Default` or on any other value.
pub open spec fn spec_set_configuration(s: UsbState, value: Option<u8>, supported: u8) -> Result<
    UsbState,
    (),
> {
    match s {
        UsbState::Default => Err(()),
        UsbState::Address { address } => match value {
            Some(v) => if v == supported {
                Ok(UsbState::Configured { address, value: v })
            } else {
                Err(())
            },
            None => Ok(UsbState::Address { address }),
        },
        UsbState::Configured { address, value: current } => match value {
            Some(v) => if v == current {
                Ok(UsbState::Configured { address, value: current })
            } else {
                Err(())
            },
            None => Ok(UsbState::Address { address }),
        },
    }
}

/// Bus reset: `Default` and `Address` fall back to `Default`;
/// cancelling the transfers of a configured device is an unfinished
/// path.
pub open spec fn spec_usb_reset(s: UsbState) -> Result<UsbState, ()> {
    match s {
        UsbState::Default | UsbState::Address { .. } => Ok(UsbState::Default),
        UsbState::Configured { .. } => Err(()),
    }
}

// ---------------------------------------------------------------------
// EP0 IN data stage.
// ---------------------------------------------------------------------

/// Starting a data stage of `len` bytes: a single short-mode packet if
/// it fits in one, else a full packet with the rest left over.
pub open spec fn spec_start_epin0(len: u16) -> (Ep0State, Ep0InAction) {
    if len <= MAX_PACKET_SIZE0 {
        (Ep0State::Write { leftover: 0 }, Ep0InAction { maxcnt: len as u8, short: true })
    } else {
        (
            Ep0State::Write { leftover: (len - MAX_PACKET_SIZE0) as u16 },
            Ep0InAction { maxcnt: MAX_PACKET_SIZE0, short: false },
        )
    }
}

/// Continuing after EP0DATADONE with `leftover` bytes still to send.
pub open spec fn spec_continue_epin0(leftover: u16) -> (Ep0State, Ep0InAction) {
    if leftover <= MAX_PACKET_SIZE0 {
        (Ep0State::Write { leftover: 0 }, Ep0InAction { maxcnt: leftover as u8, short: true })
    } else {
        (
            Ep0State::Write { leftover: (leftover - MAX_PACKET_SIZE0) as u16 },
            Ep0InAction { maxcnt: MAX_PACKET_SIZE0, short: false },
        )
    }
}

/// Arms the first packet of a control-read data stage.
pub fn start_epin0(len: u16, ep_state: &mut Ep0State) -> (r: Ep0InAction)
    requires
        *old(ep_state) is Idle,
    ensures
        spec_start_epin0(len) == (*final(ep_state), r),
{
    if len <= MAX_PACKET_SIZE0 as u16 {
        *ep_state = Ep0State::Write { leftover: 0 };
        Ep0InAction { maxcnt: len as u8, short: true }
    } else {
        *ep_state = Ep0State::Write { leftover: len - MAX_PACKET_SIZE0 as u16 };
        Ep0InAction { maxcnt: MAX_PACKET_SIZE0, short: false }
    }
}

/// Arms the next packet after EP0DATADONE; the leftover count strictly
/// decreases until it reaches zero.
pub fn continue_epin0(ep_state: &mut Ep0State) -> (r: Ep0InAction)
    requires
        *old(ep_state) matches Ep0State::Write { leftover } && leftover > 0,
    ensures
        spec_continue_epin0(old(ep_state)->leftover) == (*final(ep_state), r),
        final(ep_state)->leftover < old(ep_state)->leftover,
{
    let leftover = match *ep_state {
        Ep0State::Write { leftover } => leftover,
        Ep0State::Idle => 0,  // unreachable under the precondition
    };
    if leftover <= MAX_PACKET_SIZE0 as u16 {
        *ep_state = Ep0State::Write { leftover: 0 };
        Ep0InAction { maxcnt: leftover as u8, short: true }
    } else {
        *ep_state = Ep0State::Write { leftover: leftover - MAX_PACKET_SIZE0 as u16 };
        Ep0InAction { maxcnt: MAX_PACKET_SIZE0, short: false }
    }
}

/// The packet sizes of a whole data stage of `len` bytes, first packet
/// first: what `start_epin0` arms, followed by what the repeated
/// `continue_epin0` calls arm.
pub open spec fn ep0_packets(len: nat) -> Seq<nat>
    decreases len,
{
    if len <= MAX_PACKET_SIZE0 {
        seq![len]
    } else {
        seq![MAX_PACKET_SIZE0 as nat] + ep0_packets((len - MAX_PACKET_SIZE0) as nat)
    }
}

/// Shape of a control-read data stage of `len` bytes: one packet of
/// `len` bytes when it fits in a single packet (a zero-length packet
/// for `len == 0`), else exactly `ceil(len / max-packet-size)` packets,
/// all full except the last, which carries the remainder.
pub proof fn lemma_ep0_transfer(len: nat)
    ensures
        ep0_packets(len).len() == if len <= MAX_PACKET_SIZE0 {
            1int
        } else {
            (len + MAX_PACKET_SIZE0 - 1) / (MAX_PACKET_SIZE0 as int)
        },
        forall|i: int|
            0 <= i < ep0_packets(len).len() - 1 ==> #[trigger] ep0_packets(len)[i]
                == MAX_PACKET_SIZE0,
        ep0_packets(len).last() == len - (ep0_packets(len).len() - 1) * MAX_PACKET_SIZE0,
        ep0_packets(len).last() <= MAX_PACKET_SIZE0,
    decreases len,
{
    if len > MAX_PACKET_SIZE0 {
        let rest = (len - MAX_PACKET_SIZE0) as nat;
        lemma_ep0_transfer(rest);
        let tail = ep0_packets(rest);
        let whole = ep0_packets(len);
        assert(whole == seq![MAX_PACKET_SIZE0 as nat] + tail);
        assert(whole.len() == 1 + tail.len());
        if rest <= MAX_PACKET_SIZE0 {
            assert(whole.len() == 2);
            assert((len + MAX_PACKET_SIZE0 - 1) / (MAX_PACKET_SIZE0 as int) == 2) by {
                assert(MAX_PACKET_SIZE0 < len <= 2 * MAX_PACKET_SIZE0);
            };
        } else {
            assert((len + MAX_PACKET_SIZE0 - 1) / (MAX_PACKET_SIZE0 as int) == 1 + (rest
                + MAX_PACKET_SIZE0 - 1) / (MAX_PACKET_SIZE0 as int)) by {
                vstd::arithmetic::div_mod::lemma_div_plus_one(
                    (rest + MAX_PACKET_SIZE0 - 1) as int,
                    MAX_PACKET_SIZE0 as int,
                );
            };
        }
        assert(whole.last() == tail.last());
        assert(forall|i: int|
            1 <= i < whole.len() - 1 ==> #[trigger] whole[i] == tail[i - 1]);
    }
}

/// The packet list is exactly what the machine arms: the first entry by
/// `start_epin0`, and, while any bytes are left over, the next entry by
/// `continue_epin0` on that leftover.
pub proof fn lemma_ep0_packets_follow_the_machine(len: u16, leftover: u16)
    requires
        leftover > 0,
    ensures
        spec_start_epin0(len).1.maxcnt == ep0_packets(len as nat)[0],
        spec_start_epin0(len).0->leftover > 0 ==> ep0_packets(len as nat).skip(1) =~= ep0_packets(
            spec_start_epin0(len).0->leftover as nat,
        ),
        spec_start_epin0(len).0->leftover == 0 ==> ep0_packets(len as nat).len() == 1,
        spec_continue_epin0(leftover).1.maxcnt == ep0_packets(leftover as nat)[0],
        spec_continue_epin0(leftover).0->leftover > 0 ==> ep0_packets(leftover as nat).skip(1)
            =~= ep0_packets(spec_continue_epin0(leftover).0->leftover as nat),
        spec_continue_epin0(leftover).0->leftover == 0 ==> ep0_packets(leftover as nat).len() == 1,
{
}

// ---------------------------------------------------------------------
// Setup dispatch.
// ---------------------------------------------------------------------

/// Which descriptor table a data stage reads from.
#[derive(Clone, Copy, PartialEq, Eq, Structural, Debug)]
pub enum DescSource {
    /// The device descriptor bytes.
    Device,
    /// The configuration descriptor bytes.
    Configuration,
}

/// An accepted GET_DESCRIPTOR: send the first `length` bytes of the
/// named descriptor, with the first packet already armed.
#[derive(Clone, Copy, PartialEq, Eq, Structural, Debug)]
pub struct Ep0Transfer {
    pub source: DescSource,
    pub length: u16,
    pub first: Ep0InAction,
}

/// Hardware effects requested by an accepted setup request.
#[derive(Clone, Copy, PartialEq, Eq, Structural, Debug)]
pub struct Ep0SetupActions {
    /// Start a control-read data stage.
    pub transfer: Option<Ep0Transfer>,
    /// Enable the bulk endpoints and arm an OUT reception — exactly on
    /// the `Address` to `Configured` transition.
    pub enable_endpoints: bool,
    /// Issue an explicit status stage to acknowledge the request.
    pub ep0status: bool,
}

impl Ep0SetupActions {
    pub open spec fn none() -> Ep0SetupActions {
        Ep0SetupActions { transfer: None, enable_endpoints: false, ep0status: false }
    }
}

/// Why a setup request was not served.
#[derive(Clone, Copy, PartialEq, Eq, Structural, Debug)]
pub enum Ep0SetupError {
    /// Malformed or unsupported: the caller stalls EP0 and carries on.
    Unsupported,
    /// An unfinished path: the caller disconnects and halts.
    NotImplemented,
}

/// The requested slice length of a descriptor of size `avail`: the
/// host's length, capped at what the descriptor holds.
pub open spec fn spec_desc_send_len(length: u16, avail: u16) -> u16 {
    if length <= avail {
        length
    } else {
        avail
    }
}

/// The new device and EP0 state and the requested actions for one
/// parsed setup request, or the error. `dlen` and `clen` are the sizes
/// of the device and configuration descriptors; `supported` is the one
/// configuration value the device offers.
pub open spec fn spec_ep0setup(
    usb: UsbState,
    req: SetupRequest,
    dlen: u16,
    clen: u16,
    supported: u8,
) -> Result<(UsbState, Ep0State, Ep0SetupActions), Ep0SetupError> {
    match req {
        SetupRequest::GetDescriptor { descriptor, length } => match descriptor {
            DescriptorKind::Device => Ok(
                spec_descriptor_stage(usb, DescSource::Device, length, dlen),
            ),
            DescriptorKind::Configuration { index } => if index == 0 {
                Ok(spec_descriptor_stage(usb, DescSource::Configuration, length, clen))
            } else {
                Err(Ep0SetupError::Unsupported)
            },
            DescriptorKind::DeviceQualifier => Err(Ep0SetupError::Unsupported),
            DescriptorKind::StringDesc { .. } => Err(Ep0SetupError::Unsupported),
            DescriptorKind::OtherSpeedConfiguration { .. } => Err(Ep0SetupError::NotImplemented),
        },
        SetupRequest::SetAddress { address } => match spec_set_address(usb, address) {
            Ok(s) => Ok((s, Ep0State::Idle, Ep0SetupActions::none())),
            Err(()) => Err(Ep0SetupError::Unsupported),
        },
        SetupRequest::SetConfiguration { value } => match spec_set_configuration(
            usb,
            value,
            supported,
        ) {
            Ok(s) => Ok(
                (
                    s,
                    Ep0State::Idle,
                    Ep0SetupActions {
                        transfer: None,
                        enable_endpoints: usb is Address && s is Configured,
                        ep0status: true,
                    },
                ),
            ),
            Err(()) => Err(Ep0SetupError::Unsupported),
        },
        SetupRequest::Acm { interface: _, kind } => match kind {
            AcmRequestKind::SetControlLineState { .. } => Ok(
                (
                    usb,
                    Ep0State::Idle,
                    Ep0SetupActions { transfer: None, enable_endpoints: false, ep0status: true },
                ),
            ),
            AcmRequestKind::GetLineCoding | AcmRequestKind::SetLineCoding => Err(
                Ep0SetupError::Unsupported,
            ),
        },
        SetupRequest::OtherStandard => Err(Ep0SetupError::Unsupported),
    }
}

/// An accepted GET_DESCRIPTOR: the device state is untouched and the
/// first packet of the truncated descriptor is armed.
pub open spec fn spec_descriptor_stage(usb: UsbState, source: DescSource, length: u16, avail: u16) -> (
    UsbState,
    Ep0State,
    Ep0SetupActions,
) {
    let send = spec_desc_send_len(length, avail);
    let (ep, first) = spec_start_epin0(send);
    (
        usb,
        ep,
        Ep0SetupActions {
            transfer: Some(Ep0Transfer { source, length: send, first }),
            enable_endpoints: false,
            ep0status: false,
        },
    )
}

/// Serves one parsed setup request: updates the device and EP0 state
/// and reports the hardware actions, or leaves both untouched and
/// reports why the request was not served.
pub fn ep0setup(
    usb_state: &mut UsbState,
    ep_state: &mut Ep0State,
    req: SetupRequest,
    dlen: u16,
    clen: u16,
    supported: u8,
) -> (r: Result<Ep0SetupActions, Ep0SetupError>)
    requires
        *old(ep_state) is Idle,
        old(usb_state).wf(supported),
        req.wf(),
        supported != 0,
    ensures
        (match r {
            Ok(a) => spec_ep0setup(*old(usb_state), req, dlen, clen, supported) == Ok::<
                _,
                Ep0SetupError,
            >((*final(usb_state), *final(ep_state), a)),
            Err(e) => spec_ep0setup(*old(usb_state), req, dlen, clen, supported) == Err::<
                (UsbState, Ep0State, Ep0SetupActions),
                _,
            >(e) && *final(usb_state) == *old(usb_state) && *final(ep_state) == *old(ep_state),
        }),
        final(usb_state).wf(supported),
{
    match req {
        SetupRequest::GetDescriptor { descriptor, length } => match descriptor {
            DescriptorKind::Device => {
                let send = if length <= dlen {
                    length
                } else {
                    dlen
                };
                let first = start_epin0(send, ep_state);
                Ok(
                    Ep0SetupActions {
                        transfer: Some(
                            Ep0Transfer { source: DescSource::Device, length: send, first },
                        ),
                        enable_endpoints: false,
                        ep0status: false,
                    },
                )
            },
            DescriptorKind::Configuration { index } => {
                if index == 0 {
                    let send = if length <= clen {
                        length
                    } else {
                        clen
                    };
                    let first = start_epin0(send, ep_state);
                    Ok(
                        Ep0SetupActions {
                            transfer: Some(
                                Ep0Transfer {
                                    source: DescSource::Configuration,
                                    length: send,
                                    first,
                                },
                            ),
                            enable_endpoints: false,
                            ep0status: false,
                        },
                    )
                } else {
                    Err(Ep0SetupError::Unsupported)
                }
            },
            DescriptorKind::DeviceQualifier => Err(Ep0SetupError::Unsupported),
            DescriptorKind::StringDesc { .. } => Err(Ep0SetupError::Unsupported),
            DescriptorKind::OtherSpeedConfiguration { .. } => Err(Ep0SetupError::NotImplemented),
        },
        SetupRequest::SetAddress { address } => match *usb_state {
            UsbState::Default => {
                match address {
                    Some(a) => {
                        *usb_state = UsbState::Address { address: a };
                    },
                    None => {},
                }
                Ok(Ep0SetupActions { transfer: None, enable_endpoints: false, ep0status: false })
            },
            UsbState::Address { .. } => {
                match address {
                    Some(a) => {
                        *usb_state = UsbState::Address { address: a };
                    },
                    None => {
                        *usb_state = UsbState::Default;
                    },
                }
                Ok(Ep0SetupActions { transfer: None, enable_endpoints: false, ep0status: false })
            },
            UsbState::Configured { .. } => Err(Ep0SetupError::Unsupported),
        },
        SetupRequest::SetConfiguration { value } => match *usb_state {
            UsbState::Default => Err(Ep0SetupError::Unsupported),
            UsbState::Address { address } => match value {
                Some(v) => {
                    if v == supported {
                        *usb_state = UsbState::Configured { address, value: v };
                        Ok(
                            Ep0SetupActions {
                                transfer: None,
                                enable_endpoints: true,
                                ep0status: true,
                            },
                        )
                    } else {
                        Err(Ep0SetupError::Unsupported)
                    }
                },
                None => Ok(
                    Ep0SetupActions { transfer: None, enable_endpoints: false, ep0status: true },
                ),
            },
            UsbState::Configured { address, value: current } => match value {
                Some(v) => {
                    if v == current {
                        Ok(
                            Ep0SetupActions {
                                transfer: None,
                                enable_endpoints: false,
                                ep0status: true,
                            },
                        )
                    } else {
                        Err(Ep0SetupError::Unsupported)
                    }
                },
                None => {
                    *usb_state = UsbState::Address { address };
                    Ok(
                        Ep0SetupActions {
                            transfer: None,
                            enable_endpoints: false,
                            ep0status: true,
                        },
                    )
                },
            },
        },
        SetupRequest::Acm { interface: _, kind } => match kind {
            AcmRequestKind::SetControlLineState { .. } => Ok(
                (Ep0SetupActions { transfer: None, enable_endpoints: false, ep0status: true }),
            ),
            AcmRequestKind::GetLineCoding | AcmRequestKind::SetLineCoding => Err(
                Ep0SetupError::Unsupported,
            ),
        },
        SetupRequest::OtherStandard => Err(Ep0SetupError::Unsupported),
    }
}

/// Applies a bus reset to the device state.
pub fn usb_reset(usb_state: &mut UsbState) -> (r: Result<(), ()>)
    ensures
        (match r {
            Ok(()) => spec_usb_reset(*old(usb_state)) == Ok::<_, ()>(*final(usb_state)),
            Err(()) => spec_usb_reset(*old(usb_state)) == Err::<UsbState, ()>(())
                && *final(usb_state) == *old(usb_state),
        }),
{
    match *usb_state {
        UsbState::Default | UsbState::Address { .. } => {
            *usb_state = UsbState::Default;
            Ok(())
        },
        UsbState::Configured { .. } => Err(()),
    }
}

} // verus!
