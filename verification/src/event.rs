//! Register event sources.
//!
//! Each interrupt domain drains its pending-event bits in a fixed
//! priority order, one event per call. The caller captures the event
//! registers into a snapshot; `next` picks the first pending event of
//! the order and clears that event's bit, and only that one, in the
//! snapshot, which the caller writes back to the hardware.

use vstd::prelude::*;

verus! {

/// Pending-event bits of the power domain.
#[derive(Clone, Copy, PartialEq, Eq, Structural, Debug)]
pub struct PowerEvents {
    pub usbdetected: bool,
    pub usbremoved: bool,
    pub usbpwrrdy: bool,
}

/// One power-domain event.
#[derive(Clone, Copy, PartialEq, Eq, Structural, Debug)]
pub enum PowerEvent {
    USBDETECTED,
    USBREMOVED,
    USBPWRRDY,
}

/// The fixed priority order in which power events are drained.
pub open spec fn power_priority() -> Seq<PowerEvent> {
    seq![PowerEvent::USBDETECTED, PowerEvent::USBREMOVED, PowerEvent::USBPWRRDY]
}

/// Whether the bit of `e` is pending in `p`.
pub open spec fn power_pending(p: PowerEvents, e: PowerEvent) -> bool {
    match e {
        PowerEvent::USBDETECTED => p.usbdetected,
        PowerEvent::USBREMOVED => p.usbremoved,
        PowerEvent::USBPWRRDY => p.usbpwrrdy,
    }
}

/// The first pending power event in priority order, if any.
pub open spec fn power_next(p: PowerEvents) -> Option<PowerEvent> {
    if p.usbdetected {
        Some(PowerEvent::USBDETECTED)
    } else if p.usbremoved {
        Some(PowerEvent::USBREMOVED)
    } else if p.usbpwrrdy {
        Some(PowerEvent::USBPWRRDY)
    } else {
        None
    }
}

/// `p` with the bit of `e` cleared.
pub open spec fn power_clear(p: PowerEvents, e: PowerEvent) -> PowerEvents {
    match e {
        PowerEvent::USBDETECTED => PowerEvents { usbdetected: false, ..p },
        PowerEvent::USBREMOVED => PowerEvents { usbremoved: false, ..p },
        PowerEvent::USBPWRRDY => PowerEvents { usbpwrrdy: false, ..p },
    }
}

impl PowerEvent {
    /// Drains the highest-priority pending power event, clearing exactly
    /// its bit; `None` when nothing is pending.
    pub fn next(regs: &mut PowerEvents) -> (r: Option<PowerEvent>)
        ensures
            r == power_next(*old(regs)),
            *final(regs) == (match r {
                Some(e) => power_clear(*old(regs), e),
                None => *old(regs),
            }),
    {
        if regs.usbdetected {
            regs.usbdetected = false;
            Some(PowerEvent::USBDETECTED)
        } else if regs.usbremoved {
            regs.usbremoved = false;
            Some(PowerEvent::USBREMOVED)
        } else if regs.usbpwrrdy {
            regs.usbpwrrdy = false;
            Some(PowerEvent::USBPWRRDY)
        } else {
            None
        }
    }
}

/// The drained event is the first of the priority list whose bit is
/// pending: no lower-priority event is ever returned over a pending
/// higher-priority one.
pub proof fn lemma_power_priority(p: PowerEvents)
    ensures
        power_next(p) matches Some(e) ==> {
            &&& power_pending(p, e)
            &&& exists|i: int|
                0 <= i < power_priority().len() && power_priority()[i] == e && (forall|j: int|
                    0 <= j < i ==> !power_pending(p, #[trigger] power_priority()[j]))
        },
        power_next(p) is None ==> forall|i: int|
            0 <= i < power_priority().len() ==> !power_pending(p, #[trigger] power_priority()[i]),
{
    if power_next(p) is Some {
        let e = power_next(p)->Some_0;
        let i: int = if p.usbdetected {
            0
        } else if p.usbremoved {
            1
        } else {
            2
        };
        assert(power_priority()[i] == e && (forall|j: int|
            0 <= j < i ==> !power_pending(p, #[trigger] power_priority()[j])));
    }
}

/// Pending-event bits of the USB domain.
#[derive(Clone, Copy, PartialEq, Eq, Structural, Debug)]
pub struct UsbdEvents {
    pub usbevent: bool,
    pub usbreset: bool,
    pub ep0datadone: bool,
    pub ep0setup: bool,
    pub endepin1: bool,
    pub endepout1: bool,
    pub epdata: bool,
}

/// One USB-domain event.
#[derive(Clone, Copy, PartialEq, Eq, Structural, Debug)]
pub enum UsbdEvent {
    USBEVENT,
    USBRESET,
    EP0DATADONE,
    EP0SETUP,
    ENDEPIN1,
    ENDEPOUT1,
    EPDATA,
}

/// The fixed priority order in which USB events are drained.
pub open spec fn usbd_priority() -> Seq<UsbdEvent> {
    seq![
        UsbdEvent::USBEVENT,
        UsbdEvent::USBRESET,
        UsbdEvent::EP0DATADONE,
        UsbdEvent::EP0SETUP,
        UsbdEvent::ENDEPIN1,
        UsbdEvent::ENDEPOUT1,
        UsbdEvent::EPDATA,
    ]
}

/// Whether the bit of `e` is pending in `u`.
pub open spec fn usbd_pending(u: UsbdEvents, e: UsbdEvent) -> bool {
    match e {
        UsbdEvent::USBEVENT => u.usbevent,
        UsbdEvent::USBRESET => u.usbreset,
        UsbdEvent::EP0DATADONE => u.ep0datadone,
        UsbdEvent::EP0SETUP => u.ep0setup,
        UsbdEvent::ENDEPIN1 => u.endepin1,
        UsbdEvent::ENDEPOUT1 => u.endepout1,
        UsbdEvent::EPDATA => u.epdata,
    }
}

/// The first pending USB event in priority order, if any.
pub open spec fn usbd_next(u: UsbdEvents) -> Option<UsbdEvent> {
    if u.usbevent {
        Some(UsbdEvent::USBEVENT)
    } else if u.usbreset {
        Some(UsbdEvent::USBRESET)
    } else if u.ep0datadone {
        Some(UsbdEvent::EP0DATADONE)
    } else if u.ep0setup {
        Some(UsbdEvent::EP0SETUP)
    } else if u.endepin1 {
        Some(UsbdEvent::ENDEPIN1)
    } else if u.endepout1 {
        Some(UsbdEvent::ENDEPOUT1)
    } else if u.epdata {
        Some(UsbdEvent::EPDATA)
    } else {
        None
    }
}

/// `u` with the bit of `e` cleared.
pub open spec fn usbd_clear(u: UsbdEvents, e: UsbdEvent) -> UsbdEvents {
    match e {
        UsbdEvent::USBEVENT => UsbdEvents { usbevent: false, ..u },
        UsbdEvent::USBRESET => UsbdEvents { usbreset: false, ..u },
        UsbdEvent::EP0DATADONE => UsbdEvents { ep0datadone: false, ..u },
        UsbdEvent::EP0SETUP => UsbdEvents { ep0setup: false, ..u },
        UsbdEvent::ENDEPIN1 => UsbdEvents { endepin1: false, ..u },
        UsbdEvent::ENDEPOUT1 => UsbdEvents { endepout1: false, ..u },
        UsbdEvent::EPDATA => UsbdEvents { epdata: false, ..u },
    }
}

impl UsbdEvent {
    /// Drains the highest-priority pending USB event, clearing exactly
    /// its bit; `None` when nothing is pending (a spurious interrupt,
    /// which the dispatcher treats as fatal).
    pub fn next(regs: &mut UsbdEvents) -> (r: Option<UsbdEvent>)
        ensures
            r == usbd_next(*old(regs)),
            *final(regs) == (match r {
                Some(e) => usbd_clear(*old(regs), e),
                None => *old(regs),
            }),
    {
        if regs.usbevent {
            regs.usbevent = false;
            Some(UsbdEvent::USBEVENT)
        } else if regs.usbreset {
            regs.usbreset = false;
            Some(UsbdEvent::USBRESET)
        } else if regs.ep0datadone {
            regs.ep0datadone = false;
            Some(UsbdEvent::EP0DATADONE)
        } else if regs.ep0setup {
            regs.ep0setup = false;
            Some(UsbdEvent::EP0SETUP)
        } else if regs.endepin1 {
            regs.endepin1 = false;
            Some(UsbdEvent::ENDEPIN1)
        } else if regs.endepout1 {
            regs.endepout1 = false;
            Some(UsbdEvent::ENDEPOUT1)
        } else if regs.epdata {
            regs.epdata = false;
            Some(UsbdEvent::EPDATA)
        } else {
            None
        }
    }
}

/// The drained USB event is the first of the priority list whose bit is
/// pending.
pub proof fn lemma_usbd_priority(u: UsbdEvents)
    ensures
        usbd_next(u) matches Some(e) ==> {
            &&& usbd_pending(u, e)
            &&& exists|i: int|
                0 <= i < usbd_priority().len() && usbd_priority()[i] == e && (forall|j: int|
                    0 <= j < i ==> !usbd_pending(u, #[trigger] usbd_priority()[j]))
        },
        usbd_next(u) is None ==> forall|i: int|
            0 <= i < usbd_priority().len() ==> !usbd_pending(u, #[trigger] usbd_priority()[i]),
{
    if usbd_next(u) is Some {
        let e = usbd_next(u)->Some_0;
        let i: int = if u.usbevent {
            0
        } else if u.usbreset {
            1
        } else if u.ep0datadone {
            2
        } else if u.ep0setup {
            3
        } else if u.endepin1 {
            4
        } else if u.endepout1 {
            5
        } else {
            6
        };
        assert(usbd_priority()[i] == e && (forall|j: int|
            0 <= j < i ==> !usbd_pending(u, #[trigger] usbd_priority()[j])));
    }
}

} // verus!
