use usbd::dispatch::{claim, power_irq, usbd_irq, EventCause, SetupRegs, Usbd};
use usbd::event::{PowerEvent, PowerEvents, UsbdEvent, UsbdEvents};
use usbd::fault::Fatal;
use usbd::power::PowerState;

fn no_power_events() -> PowerEvents {
    PowerEvents { usbdetected: false, usbremoved: false, usbpwrrdy: false }
}

fn no_usbd_events() -> UsbdEvents {
    UsbdEvents {
        usbevent: false,
        usbreset: false,
        ep0datadone: false,
        ep0setup: false,
        endepin1: false,
        endepout1: false,
        epdata: false,
    }
}

fn no_cause() -> EventCause {
    EventCause { ready: false, suspend: false, resume: false }
}

fn zero_setup() -> SetupRegs {
    SetupRegs {
        bmrequesttype: 0,
        brequest: 0,
        wvaluel: 0,
        wvalueh: 0,
        windexl: 0,
        windexh: 0,
        wlengthl: 0,
        wlengthh: 0,
    }
}

fn fresh_usbd() -> Usbd {
    Usbd::new(vec![0u8; 18], vec![0u8; 34], 1)
}

/// Drives bring-up from `Off` with the three readiness signals in the
/// given order (0 = clock stable, 1 = power ready, 2 = controller
/// ready) and returns whether each step reported the bus connect.
fn bring_up(order: [u8; 3]) -> (Usbd, Vec<bool>) {
    let mut u = fresh_usbd();
    let (mut ep_in, mut ep_out) = claim(&mut u).unwrap();

    let mut pe = PowerEvents { usbdetected: true, usbremoved: false, usbpwrrdy: false };
    let a = power_irq(&mut u, &mut pe, false).unwrap();
    assert!(a.enable_usb);
    assert!(!a.connect);

    let mut connects = Vec::new();
    for step in order {
        match step {
            0 => {
                let mut pe = no_power_events();
                let a = power_irq(&mut u, &mut pe, true).unwrap();
                connects.push(a.connect);
            }
            1 => {
                let mut pe = PowerEvents { usbdetected: false, usbremoved: false, usbpwrrdy: true };
                let a = power_irq(&mut u, &mut pe, true).unwrap();
                connects.push(a.connect);
            }
            _ => {
                let mut ue = UsbdEvents { usbevent: true, ..no_usbd_events() };
                let cause = EventCause { ready: true, suspend: false, resume: false };
                let a = usbd_irq(&mut u, &mut ep_out, &mut ep_in, &mut ue, cause, zero_setup(), 0)
                    .unwrap();
                connects.push(a.connect);
            }
        }
    }
    (u, connects)
}

#[test]
fn bringup_reaches_ready_in_any_order() {
    let orders = [
        [0u8, 1, 2],
        [0, 2, 1],
        [1, 0, 2],
        [1, 2, 0],
        [2, 0, 1],
        [2, 1, 0],
    ];
    for order in orders {
        let (u, connects) = bring_up(order);
        assert!(matches!(u.power_state(), PowerState::Ready));
        // the bus connect fires exactly once, on the last signal
        assert_eq!(connects, vec![false, false, true]);
    }
}

#[test]
fn bringup_incomplete_is_not_ready() {
    let mut u = fresh_usbd();
    let mut pe = PowerEvents { usbdetected: true, usbremoved: false, usbpwrrdy: false };
    power_irq(&mut u, &mut pe, false).unwrap();

    let mut pe = no_power_events();
    power_irq(&mut u, &mut pe, true).unwrap();
    assert!(matches!(u.power_state(), PowerState::RampUp { .. }));

    let mut pe = PowerEvents { usbdetected: false, usbremoved: false, usbpwrrdy: true };
    power_irq(&mut u, &mut pe, true).unwrap();
    assert!(matches!(u.power_state(), PowerState::RampUp { .. }));
}

#[test]
fn power_event_in_ready_is_not_implemented() {
    let (mut u, _) = bring_up([0, 1, 2]);
    let mut pe = PowerEvents { usbdetected: false, usbremoved: false, usbpwrrdy: true };
    assert_eq!(power_irq(&mut u, &mut pe, true), Err(Fatal::NotImplemented));
}

#[test]
fn unexpected_power_event_is_fatal() {
    let mut u = fresh_usbd();
    // USBREMOVED while Off violates the bring-up protocol
    let mut pe = PowerEvents { usbdetected: false, usbremoved: true, usbpwrrdy: false };
    assert_eq!(power_irq(&mut u, &mut pe, false), Err(Fatal::Unreachable));
}

#[test]
fn power_events_drain_in_priority_order() {
    let mut pe = PowerEvents { usbdetected: true, usbremoved: true, usbpwrrdy: true };
    assert_eq!(PowerEvent::next(&mut pe), Some(PowerEvent::USBDETECTED));
    assert!(!pe.usbdetected && pe.usbremoved && pe.usbpwrrdy);
    assert_eq!(PowerEvent::next(&mut pe), Some(PowerEvent::USBREMOVED));
    assert_eq!(PowerEvent::next(&mut pe), Some(PowerEvent::USBPWRRDY));
    assert_eq!(PowerEvent::next(&mut pe), None);
}

#[test]
fn usbd_events_drain_in_priority_order() {
    let mut ue = UsbdEvents {
        usbevent: false,
        usbreset: true,
        ep0datadone: true,
        ep0setup: true,
        endepin1: false,
        endepout1: true,
        epdata: true,
    };
    assert_eq!(UsbdEvent::next(&mut ue), Some(UsbdEvent::USBRESET));
    assert!(!ue.usbreset && ue.ep0datadone);
    assert_eq!(UsbdEvent::next(&mut ue), Some(UsbdEvent::EP0DATADONE));
    assert_eq!(UsbdEvent::next(&mut ue), Some(UsbdEvent::EP0SETUP));
    assert_eq!(UsbdEvent::next(&mut ue), Some(UsbdEvent::ENDEPOUT1));
    assert_eq!(UsbdEvent::next(&mut ue), Some(UsbdEvent::EPDATA));
    assert_eq!(UsbdEvent::next(&mut ue), None);
}

#[test]
fn spurious_usbd_interrupt_is_fatal() {
    let (mut u, _) = bring_up([0, 1, 2]);
    let (mut ep_in, mut ep_out) = (usbd::bulk::BulkIn::new(), usbd::bulk::BulkOut::new());
    let mut ue = no_usbd_events();
    let r = usbd_irq(&mut u, &mut ep_out, &mut ep_in, &mut ue, no_cause(), zero_setup(), 0);
    assert_eq!(r, Err(Fatal::Unreachable));
}

#[test]
fn suspend_and_resume_toggle_low_power() {
    let (mut u, _) = bring_up([0, 1, 2]);
    let (mut ep_in, mut ep_out) = (usbd::bulk::BulkIn::new(), usbd::bulk::BulkOut::new());

    let mut ue = UsbdEvents { usbevent: true, ..no_usbd_events() };
    let cause = EventCause { ready: false, suspend: true, resume: false };
    let a = usbd_irq(&mut u, &mut ep_out, &mut ep_in, &mut ue, cause, zero_setup(), 0).unwrap();
    assert_eq!(a.lowpower, Some(true));

    let mut ue = UsbdEvents { usbevent: true, ..no_usbd_events() };
    let cause = EventCause { ready: false, suspend: false, resume: true };
    let a = usbd_irq(&mut u, &mut ep_out, &mut ep_in, &mut ue, cause, zero_setup(), 0).unwrap();
    assert_eq!(a.lowpower, Some(false));

    let mut ue = UsbdEvents { usbevent: true, ..no_usbd_events() };
    let r = usbd_irq(&mut u, &mut ep_out, &mut ep_in, &mut ue, no_cause(), zero_setup(), 0);
    assert_eq!(r, Err(Fatal::NotImplemented));
}

#[test]
fn claim_hands_out_the_interface_once() {
    let mut u = fresh_usbd();
    assert!(claim(&mut u).is_some());
    assert!(claim(&mut u).is_none());
}

#[test]
fn timestamp_scales_the_cycle_counter() {
    assert_eq!(usbd::__semidap_timestamp(128), 2);
    assert_eq!(usbd::__semidap_timestamp(63), 0);
    assert_eq!(usbd::__semidap_timestamp(u32::MAX), u32::MAX >> 6);
}

#[test]
fn setup_words_assemble_from_byte_registers() {
    assert_eq!(usbd::setup::word_from_bytes(0x34, 0x12), 0x1234);
    assert_eq!(usbd::setup::word_from_bytes(0xFF, 0xFF), 0xFFFF);
    assert_eq!(usbd::setup::word_from_bytes(0, 0), 0);
}
