//! Interrupt dispatchers and the driver instance.
//!
//! The two interrupt handlers own every protocol state transition. The
//! runtime reads the hardware's event and status registers into
//! snapshots, calls one dispatcher, writes the drained snapshot back,
//! and performs the returned actions; on a fatal outcome it disconnects
//! from the bus and halts.

use vstd::prelude::*;

use crate::bulk::{BulkIn, BulkOut, EpOutState};
use crate::control::{
    ep0setup, continue_epin0, spec_continue_epin0, spec_ep0setup, spec_usb_reset, usb_reset,
    DescSource, Ep0InAction, Ep0SetupActions, Ep0SetupError, Ep0State, Ep0Transfer, UsbState,
};
use crate::event::{
    power_clear, power_next, usbd_clear, usbd_next, PowerEvent, PowerEvents, UsbdEvent, UsbdEvents,
};
use crate::fault::Fatal;
use crate::power::{
    controller_ready_step, power_step, spec_controller_ready, spec_power_step, PowerActions,
    PowerState,
};
use crate::setup::{parse_setup, spec_parse_setup, word_from_bytes, SetupRequest};

verus! {

/// Snapshot of the EVENTCAUSE register's cause bits.
#[derive(Clone, Copy, PartialEq, Eq, Structural, Debug)]
pub struct EventCause {
    /// The controller finished starting up.
    pub ready: bool,
    /// The bus went idle; enter low-power mode.
    pub suspend: bool,
    /// Bus activity resumed; leave low-power mode.
    pub resume: bool,
}

/// Snapshot of the setup registers, one byte register each.
#[derive(Clone, Copy, PartialEq, Eq, Structural, Debug)]
pub struct SetupRegs {
    pub bmrequesttype: u8,
    pub brequest: u8,
    pub wvaluel: u8,
    pub wvalueh: u8,
    pub windexl: u8,
    pub windexh: u8,
    pub wlengthl: u8,
    pub wlengthh: u8,
}

/// The 16-bit setup words, as the dispatcher assembles them from the
/// low and high byte registers.
pub open spec fn spec_wvalue(s: SetupRegs) -> u16 {
    (s.wvaluel + 256 * (s.wvalueh as u16)) as u16
}

pub open spec fn spec_windex(s: SetupRegs) -> u16 {
    (s.windexl + 256 * (s.windexh as u16)) as u16
}

pub open spec fn spec_wlength(s: SetupRegs) -> u16 {
    (s.wlengthl + 256 * (s.wlengthh as u16)) as u16
}

/// Hardware effects requested by one USB-domain dispatch.
#[derive(Clone, Copy, PartialEq, Eq, Structural, Debug)]
pub struct UsbdActions {
    /// Pull D+ up (bring-up completed here).
    pub connect: bool,
    /// Enter (`Some(true)`) or leave (`Some(false)`) low-power mode.
    pub lowpower: Option<bool>,
    /// Stall EP0: the setup request was malformed or unsupported.
    pub ep0stall: bool,
    /// Issue an explicit EP0 status stage.
    pub ep0status: bool,
    /// Start a control-read data stage.
    pub start_transfer: Option<Ep0Transfer>,
    /// Send the next data-stage packet: advance the source pointer by
    /// one max packet and latch the given count.
    pub continue_transfer: Option<Ep0InAction>,
    /// Enable the bulk endpoints and arm an OUT reception.
    pub enable_endpoints: bool,
    /// Arm and start the bulk OUT DMA for this many bytes.
    pub start_out_dma: Option<u8>,
}

impl UsbdActions {
    pub open spec fn none() -> UsbdActions {
        UsbdActions {
            connect: false,
            lowpower: None,
            ep0stall: false,
            ep0status: false,
            start_transfer: None,
            continue_transfer: None,
            enable_endpoints: false,
            start_out_dma: None,
        }
    }

    pub open spec fn stall() -> UsbdActions {
        UsbdActions { ep0stall: true, ..UsbdActions::none() }
    }

    pub open spec fn connect_only(connect: bool) -> UsbdActions {
        UsbdActions { connect, ..UsbdActions::none() }
    }

    pub open spec fn lowpower_only(enter: bool) -> UsbdActions {
        UsbdActions { lowpower: Some(enter), ..UsbdActions::none() }
    }

    pub open spec fn continue_only(next: Ep0InAction) -> UsbdActions {
        UsbdActions { continue_transfer: Some(next), ..UsbdActions::none() }
    }

    pub open spec fn out_dma(start: Option<u8>) -> UsbdActions {
        UsbdActions { start_out_dma: start, ..UsbdActions::none() }
    }

    /// No hardware effect requested.
    pub fn idle() -> (r: UsbdActions)
        ensures
            r == UsbdActions::none(),
    {
        UsbdActions {
            connect: false,
            lowpower: None,
            ep0stall: false,
            ep0status: false,
            start_transfer: None,
            continue_transfer: None,
            enable_endpoints: false,
            start_out_dma: None,
        }
    }

    /// The actions of an accepted setup request.
    pub open spec fn from_setup(a: Ep0SetupActions) -> UsbdActions {
        UsbdActions {
            ep0status: a.ep0status,
            start_transfer: a.transfer,
            enable_endpoints: a.enable_endpoints,
            ..UsbdActions::none()
        }
    }
}

/// The one USB controller instance: the protocol state the dispatchers
/// own, and the static configuration handed over at initialization.
pub struct Usbd {
    power: PowerState,
    usb_state: UsbState,
    ep0: Ep0State,
    device_desc: Vec<u8>,
    config_desc: Vec<u8>,
    config_val: u8,
    claimed: bool,
}

impl Usbd {
    pub closed spec fn power(&self) -> PowerState {
        self.power
    }

    pub closed spec fn usb_state(&self) -> UsbState {
        self.usb_state
    }

    pub closed spec fn ep0(&self) -> Ep0State {
        self.ep0
    }

    pub closed spec fn device_desc(&self) -> Seq<u8> {
        self.device_desc@
    }

    pub closed spec fn config_desc(&self) -> Seq<u8> {
        self.config_desc@
    }

    pub closed spec fn config_val(&self) -> u8 {
        self.config_val
    }

    pub closed spec fn claimed(&self) -> bool {
        self.claimed
    }

    /// The configuration value is non-zero, the device state respects
    /// it, and the descriptors fit the 16-bit lengths of the protocol.
    pub open spec fn wf(&self) -> bool {
        &&& self.config_val() != 0
        &&& self.usb_state().wf(self.config_val())
        &&& self.device_desc().len() <= 0xFFFF
        &&& self.config_desc().len() <= 0xFFFF
    }

    /// A powered-off driver holding the descriptor bytes and the one
    /// supported configuration value.
    pub fn new(device_desc: Vec<u8>, config_desc: Vec<u8>, config_val: u8) -> (r: Usbd)
        requires
            config_val != 0,
            device_desc@.len() <= 0xFFFF,
            config_desc@.len() <= 0xFFFF,
        ensures
            r.wf(),
            r.power() == PowerState::Off,
            r.usb_state() == UsbState::Default,
            r.ep0() == Ep0State::Idle,
            r.device_desc() == device_desc@,
            r.config_desc() == config_desc@,
            r.config_val() == config_val,
            !r.claimed(),
    {
        Usbd {
            power: PowerState::Off,
            usb_state: UsbState::Default,
            ep0: Ep0State::Idle,
            device_desc,
            config_desc,
            config_val,
            claimed: false,
        }
    }

    /// The current bring-up state.
    pub fn power_state(&self) -> (r: PowerState)
        ensures
            r == self.power(),
    {
        self.power
    }

    /// The current device state.
    pub fn device_state(&self) -> (r: UsbState)
        ensures
            r == self.usb_state(),
    {
        self.usb_state
    }

    /// The current EP0 control-read state.
    pub fn ep0_state(&self) -> (r: Ep0State)
        ensures
            r == self.ep0(),
    {
        self.ep0
    }

    /// The bytes a control-read data stage sends from.
    pub fn descriptor(&self, source: DescSource) -> (r: &Vec<u8>)
        ensures
            r@ == (match source {
                DescSource::Device => self.device_desc(),
                DescSource::Configuration => self.config_desc(),
            }),
    {
        match source {
            DescSource::Device => &self.device_desc,
            DescSource::Configuration => &self.config_desc,
        }
    }
}

/// Claims the USB interface: hands out the two bulk endpoint handles,
/// exactly once.
pub fn claim(usbd: &mut Usbd) -> (r: Option<(BulkIn, BulkOut)>)
    ensures
        r is Some <==> !old(usbd).claimed(),
        final(usbd).claimed(),
        final(usbd).power() == old(usbd).power(),
        final(usbd).usb_state() == old(usbd).usb_state(),
        final(usbd).ep0() == old(usbd).ep0(),
        final(usbd).device_desc() == old(usbd).device_desc(),
        final(usbd).config_desc() == old(usbd).config_desc(),
        final(usbd).config_val() == old(usbd).config_val(),
        r matches Some((ep_in, ep_out)) ==> !ep_in.busy() && ep_out.state() == EpOutState::Idle,
{
    if usbd.claimed {
        None
    } else {
        usbd.claimed = true;
        Some((BulkIn::new(), BulkOut::new()))
    }
}

/// Everything of the driver except the power state is untouched.
pub open spec fn only_power_changed(pre: Usbd, post: Usbd) -> bool {
    &&& post.usb_state() == pre.usb_state()
    &&& post.ep0() == pre.ep0()
    &&& post.device_desc() == pre.device_desc()
    &&& post.config_desc() == pre.config_desc()
    &&& post.config_val() == pre.config_val()
    &&& post.claimed() == pre.claimed()
}

/// The power-domain interrupt handler: drains one event (none pending
/// means the clock-stable signal woke it) and steps the bring-up
/// machine.
pub fn power_irq(usbd: &mut Usbd, regs: &mut PowerEvents, clock_stable: bool) -> (r: Result<
    PowerActions,
    Fatal,
>)
    requires
        old(usbd).wf(),
    ensures
        final(usbd).wf(),
        only_power_changed(*old(usbd), *final(usbd)),
        *final(regs) == (match power_next(*old(regs)) {
            Some(e) => power_clear(*old(regs), e),
            None => *old(regs),
        }),
        (match r {
            Ok(a) => spec_power_step(old(usbd).power(), power_next(*old(regs)), clock_stable)
                == Ok::<_, Fatal>((final(usbd).power(), a)),
            Err(f) => spec_power_step(old(usbd).power(), power_next(*old(regs)), clock_stable)
                == Err::<(PowerState, PowerActions), _>(f) && final(usbd).power() == old(
                usbd,
            ).power(),
        }),
{
    let ev = PowerEvent::next(regs);
    power_step(&mut usbd.power, ev, clock_stable)
}

/// The endpoint handles are untouched.
pub open spec fn endpoints_unchanged(
    pre_out: BulkOut,
    post_out: BulkOut,
    pre_in: BulkIn,
    post_in: BulkIn,
) -> bool {
    &&& post_out.state() == pre_out.state()
    &&& post_out.recorded_size() == pre_out.recorded_size()
    &&& post_in.busy() == pre_in.busy()
}

/// The device and EP0 state are untouched.
pub open spec fn control_unchanged(pre: Usbd, post: Usbd) -> bool {
    &&& post.power() == pre.power()
    &&& post.usb_state() == pre.usb_state()
    &&& post.ep0() == pre.ep0()
}

/// The EP0SETUP outcome, relative to what the setup-packet parse
/// returned: a parse failure or an unsupported request stalls and
/// changes nothing, an accepted request moves the states and actions
/// exactly as `spec_ep0setup` says, and an unfinished path is fatal.
pub open spec fn ep0_branch(
    pre_usb: UsbState,
    dlen: u16,
    clen: u16,
    supported: u8,
    parsed: Result<SetupRequest, ()>,
    post_usb: UsbState,
    post_ep0: Ep0State,
    r: Result<UsbdActions, Fatal>,
) -> bool {
    match parsed {
        Err(()) => r == Ok::<_, Fatal>(UsbdActions::stall()) && post_usb == pre_usb && post_ep0
            == Ep0State::Idle,
        Ok(req) => req.wf() && (match spec_ep0setup(pre_usb, req, dlen, clen, supported) {
            Ok((u2, e2, a)) => post_usb == u2 && post_ep0 == e2 && r == Ok::<_, Fatal>(
                UsbdActions::from_setup(a),
            ),
            Err(Ep0SetupError::Unsupported) => r == Ok::<_, Fatal>(UsbdActions::stall()) && post_usb
                == pre_usb && post_ep0 == Ep0State::Idle,
            Err(Ep0SetupError::NotImplemented) => r == Err::<UsbdActions, _>(Fatal::NotImplemented)
                && post_usb == pre_usb && post_ep0 == Ep0State::Idle,
        }),
    }
}

/// The USB-domain interrupt handler: drains one event and dispatches it
/// against the power, device, EP0 and bulk endpoint state.
///
/// `cause` is the EVENTCAUSE snapshot, `setup` the setup registers and
/// `size_epout1` the OUT size register, each read by the caller. On a
/// fatal outcome nothing has changed but the drained event bit, and the
/// caller disconnects and halts.
pub fn usbd_irq(
    usbd: &mut Usbd,
    ep_out: &mut BulkOut,
    ep_in: &mut BulkIn,
    regs: &mut UsbdEvents,
    cause: EventCause,
    setup: SetupRegs,
    size_epout1: u8,
) -> (r: Result<UsbdActions, Fatal>)
    requires
        old(usbd).wf(),
    ensures
        final(usbd).wf(),
        final(usbd).device_desc() == old(usbd).device_desc(),
        final(usbd).config_desc() == old(usbd).config_desc(),
        final(usbd).config_val() == old(usbd).config_val(),
        final(usbd).claimed() == old(usbd).claimed(),
        *final(regs) == (match usbd_next(*old(regs)) {
            Some(e) => usbd_clear(*old(regs), e),
            None => *old(regs),
        }),
        usbd_next(*old(regs)) is None ==> r == Err::<UsbdActions, Fatal>(Fatal::Unreachable),
        r is Err ==> control_unchanged(*old(usbd), *final(usbd)) && endpoints_unchanged(
            *old(ep_out),
            *final(ep_out),
            *old(ep_in),
            *final(ep_in),
        ),
        usbd_next(*old(regs)) is Some && old(usbd).power() is Off ==> r == Err::<
            UsbdActions,
            Fatal,
        >(Fatal::Unreachable),
        (match usbd_next(*old(regs)) {
            None => true,
            Some(e) => old(usbd).power() is RampUp ==> {
            &&& e != UsbdEvent::USBEVENT ==> r == Err::<UsbdActions, Fatal>(Fatal::Unreachable)
            &&& e == UsbdEvent::USBEVENT ==> {
                &&& endpoints_unchanged(*old(ep_out), *final(ep_out), *old(ep_in), *final(ep_in))
                &&& final(usbd).usb_state() == old(usbd).usb_state()
                &&& final(usbd).ep0() == old(usbd).ep0()
                &&& (match r {
                    Ok(a) => spec_controller_ready(old(usbd).power(), cause.ready) == Ok::<
                        _,
                        Fatal,
                    >((final(usbd).power(), PowerActions { enable_usb: false, connect: a.connect }))
                        && a == UsbdActions::connect_only(a.connect),
                    Err(f) => spec_controller_ready(old(usbd).power(), cause.ready) == Err::<
                        (PowerState, PowerActions),
                        _,
                    >(f),
                })
            }
            },
        }),
        (match usbd_next(*old(regs)) {
            None => true,
            Some(e) => old(usbd).power() is Ready ==> {
            &&& final(usbd).power() == old(usbd).power()
            &&& (e == UsbdEvent::USBEVENT ==> control_unchanged(*old(usbd), *final(usbd))
                && endpoints_unchanged(*old(ep_out), *final(ep_out), *old(ep_in), *final(ep_in))
                && r == (if cause.suspend {
                Ok::<_, Fatal>(UsbdActions::lowpower_only(true))
            } else if cause.resume {
                Ok::<_, Fatal>(UsbdActions::lowpower_only(false))
            } else {
                Err::<UsbdActions, Fatal>(Fatal::NotImplemented)
            }))
            &&& (e == UsbdEvent::USBRESET ==> final(usbd).ep0() == old(usbd).ep0()
                && endpoints_unchanged(*old(ep_out), *final(ep_out), *old(ep_in), *final(ep_in))
                && (match spec_usb_reset(old(usbd).usb_state()) {
                Ok(s) => final(usbd).usb_state() == s && r == Ok::<_, Fatal>(UsbdActions::none()),
                Err(()) => r == Err::<UsbdActions, Fatal>(Fatal::NotImplemented),
            }))
            &&& (e == UsbdEvent::EP0SETUP ==> endpoints_unchanged(
                *old(ep_out),
                *final(ep_out),
                *old(ep_in),
                *final(ep_in),
            ) && (if old(usbd).ep0() !is Idle {
                r == Err::<UsbdActions, Fatal>(Fatal::Unreachable) && final(usbd).usb_state()
                    == old(usbd).usb_state() && final(usbd).ep0() == old(usbd).ep0()
            } else {
                ep0_branch(
                    old(usbd).usb_state(),
                    old(usbd).device_desc().len() as u16,
                    old(usbd).config_desc().len() as u16,
                    old(usbd).config_val(),
                    spec_parse_setup(
                        setup.bmrequesttype,
                        setup.brequest,
                        spec_wvalue(setup),
                        spec_windex(setup),
                        spec_wlength(setup),
                    ),
                    final(usbd).usb_state(),
                    final(usbd).ep0(),
                    r,
                )
            }))
            &&& (e == UsbdEvent::EP0DATADONE ==> final(usbd).usb_state() == old(usbd).usb_state()
                && endpoints_unchanged(*old(ep_out), *final(ep_out), *old(ep_in), *final(ep_in))
                && (match old(usbd).ep0() {
                Ep0State::Idle => r == Err::<UsbdActions, Fatal>(Fatal::Unreachable)
                    && final(usbd).ep0() is Idle,
                Ep0State::Write { leftover } => if leftover > 0 {
                    r matches Ok(a) && a.continue_transfer matches Some(next)
                        && spec_continue_epin0(leftover) == (final(usbd).ep0(), next) && a
                        == UsbdActions::continue_only(next)
                } else {
                    final(usbd).ep0() is Idle && r == Ok::<_, Fatal>(UsbdActions::none())
                },
            }))
            &&& (e == UsbdEvent::ENDEPIN1 ==> control_unchanged(*old(usbd), *final(usbd))
                && final(ep_out).state() == old(ep_out).state() && final(ep_out).recorded_size()
                == old(ep_out).recorded_size() && (match r {
                Ok(a) => old(ep_in).busy() && !final(ep_in).busy() && a == UsbdActions::none(),
                Err(f) => f == Fatal::Unreachable && !old(ep_in).busy(),
            }))
            &&& (e == UsbdEvent::ENDEPOUT1 ==> control_unchanged(*old(usbd), *final(usbd))
                && final(ep_in).busy() == old(ep_in).busy() && final(ep_out).recorded_size() == old(
                ep_out,
            ).recorded_size() && (match r {
                Ok(a) => crate::bulk::spec_endepout(old(ep_out).state()) == Ok::<_, Fatal>(
                    final(ep_out).state(),
                ) && a == UsbdActions::none(),
                Err(f) => crate::bulk::spec_endepout(old(ep_out).state()) == Err::<EpOutState, _>(
                    f,
                ),
            }))
            &&& (e == UsbdEvent::EPDATA ==> control_unchanged(*old(usbd), *final(usbd))
                && final(ep_in).busy() == old(ep_in).busy() && (match r {
                Ok(a) => crate::bulk::spec_epdata(old(ep_out).state(), size_epout1) == Ok::<
                    _,
                    Fatal,
                >((final(ep_out).state(), a.start_out_dma)) && a == UsbdActions::out_dma(
                    a.start_out_dma,
                ) && final(ep_out).recorded_size() == (if a.start_out_dma is Some {
                    size_epout1
                } else {
                    old(ep_out).recorded_size()
                }),
                Err(f) => crate::bulk::spec_epdata(old(ep_out).state(), size_epout1) == Err::<
                    (EpOutState, Option<u8>),
                    _,
                >(f),
            }))
            },
        }),
{
    let ev = match UsbdEvent::next(regs) {
        Some(e) => e,
        None => {
            return Err(Fatal::Unreachable);
        },
    };
    match usbd.power {
        PowerState::Off => Err(Fatal::Unreachable),
        PowerState::RampUp { .. } => {
            if ev == UsbdEvent::USBEVENT {
                match controller_ready_step(&mut usbd.power, cause.ready) {
                    Ok(a) => Ok(UsbdActions { connect: a.connect, ..UsbdActions::idle() }),
                    Err(f) => Err(f),
                }
            } else {
                Err(Fatal::Unreachable)
            }
        },
        PowerState::Ready => match ev {
            UsbdEvent::USBEVENT => {
                if cause.suspend {
                    Ok(UsbdActions { lowpower: Some(true), ..UsbdActions::idle() })
                } else if cause.resume {
                    Ok(UsbdActions { lowpower: Some(false), ..UsbdActions::idle() })
                } else {
                    Err(Fatal::NotImplemented)
                }
            },
            UsbdEvent::USBRESET => match usb_reset(&mut usbd.usb_state) {
                Ok(()) => Ok(UsbdActions::idle()),
                Err(()) => Err(Fatal::NotImplemented),
            },
            UsbdEvent::EP0SETUP => {
                match usbd.ep0 {
                    Ep0State::Write { .. } => {
                        return Err(Fatal::Unreachable);
                    },
                    Ep0State::Idle => {},
                }
                let wvalue = word_from_bytes(setup.wvaluel, setup.wvalueh);
                let windex = word_from_bytes(setup.windexl, setup.windexh);
                let wlength = word_from_bytes(setup.wlengthl, setup.wlengthh);
                match parse_setup(setup.bmrequesttype, setup.brequest, wvalue, windex, wlength) {
                    Err(()) => Ok(UsbdActions { ep0stall: true, ..UsbdActions::idle() }),
                    Ok(req) => {
                        let dlen = usbd.device_desc.len() as u16;
                        let clen = usbd.config_desc.len() as u16;
                        match ep0setup(
                            &mut usbd.usb_state,
                            &mut usbd.ep0,
                            req,
                            dlen,
                            clen,
                            usbd.config_val,
                        ) {
                            Ok(a) => Ok(
                                UsbdActions {
                                    ep0status: a.ep0status,
                                    start_transfer: a.transfer,
                                    enable_endpoints: a.enable_endpoints,
                                    ..UsbdActions::idle()
                                },
                            ),
                            Err(Ep0SetupError::Unsupported) => Ok(
                                UsbdActions { ep0stall: true, ..UsbdActions::idle() },
                            ),
                            Err(Ep0SetupError::NotImplemented) => Err(Fatal::NotImplemented),
                        }
                    },
                }
            },
            UsbdEvent::EP0DATADONE => match usbd.ep0 {
                Ep0State::Idle => Err(Fatal::Unreachable),
                Ep0State::Write { leftover } => {
                    if leftover != 0 {
                        let next = continue_epin0(&mut usbd.ep0);
                        Ok(UsbdActions { continue_transfer: Some(next), ..UsbdActions::idle() })
                    } else {
                        usbd.ep0 = Ep0State::Idle;
                        Ok(UsbdActions::idle())
                    }
                },
            },
            UsbdEvent::ENDEPIN1 => match ep_in.on_endepin() {
                Ok(()) => Ok(UsbdActions::idle()),
                Err(f) => Err(f),
            },
            UsbdEvent::ENDEPOUT1 => match ep_out.on_endepout() {
                Ok(()) => Ok(UsbdActions::idle()),
                Err(f) => Err(f),
            },
            UsbdEvent::EPDATA => match ep_out.on_epdata(size_epout1) {
                Ok(start) => Ok(
                    UsbdActions { start_out_dma: start, ..UsbdActions::idle() },
                ),
                Err(f) => Err(f),
            },
        },
    }
}

} // verus!
