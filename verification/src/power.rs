//! Power bring-up state machine.
//!
//! Bring-up leaves `Off` when the USB cable is detected and then waits
//! for three independent signals: the high-frequency clock becoming
//! stable (observed as a power-domain interrupt with no power event
//! pending), the `USBPWRRDY` power event, and the controller-ready
//! cause observed by the USB-domain dispatcher. The machine reaches
//! `Ready`, and the bus is connected, exactly when all three have been
//! seen, in whatever order they arrive.

use vstd::prelude::*;

use crate::event::PowerEvent;
use crate::fault::Fatal;

verus! {

/// Bring-up progress. It only ever advances `Off` to `RampUp` to
/// `Ready`, and each `RampUp` flag is set exactly once.
#[derive(Clone, Copy, PartialEq, Eq, Structural, Debug)]
pub enum PowerState {
    /// No cable detected yet.
    Off,
    /// Cable detected; waiting for the three readiness signals.
    RampUp { clock: bool, power: bool, usb: bool },
    /// All three signals observed; the device is on the bus.
    Ready,
}

/// Hardware effects requested by a power-domain step.
#[derive(Clone, Copy, PartialEq, Eq, Structural, Debug)]
pub struct PowerActions {
    /// Enable the USB peripheral (with its documented silicon
    /// workaround) — requested once, on cable detection.
    pub enable_usb: bool,
    /// Pull D+ up, announcing the device to the host — requested once,
    /// on the transition to `Ready`.
    pub connect: bool,
}

impl PowerActions {
    pub open spec fn none() -> PowerActions {
        PowerActions { enable_usb: false, connect: false }
    }
}

/// `RampUp` flags folded into the `Ready` check: the state advances to
/// `Ready` exactly when all three flags hold.
pub open spec fn ramp_settle(clock: bool, power: bool, usb: bool) -> (PowerState, PowerActions) {
    if clock && power && usb {
        (PowerState::Ready, PowerActions { enable_usb: false, connect: true })
    } else {
        (PowerState::RampUp { clock, power, usb }, PowerActions::none())
    }
}

/// One step of the power-domain dispatcher: the drained event (`None`
/// when the interrupt fired for the clock-stable signal) against the
/// current state.
pub open spec fn spec_power_step(s: PowerState, ev: Option<PowerEvent>, clock_stable: bool) -> Result<
    (PowerState, PowerActions),
    Fatal,
> {
    match s {
        PowerState::Off => match ev {
            None => Ok((PowerState::Off, PowerActions::none())),
            Some(PowerEvent::USBDETECTED) => Ok(
                (
                    PowerState::RampUp { clock: clock_stable, power: false, usb: false },
                    PowerActions { enable_usb: true, connect: false },
                ),
            ),
            Some(_) => Err(Fatal::Unreachable),
        },
        PowerState::RampUp { clock, power, usb } => {
            if !clock && ev is None {
                Ok(ramp_settle(true, power, usb))
            } else if !power {
                match ev {
                    None => Ok((s, PowerActions::none())),
                    Some(PowerEvent::USBPWRRDY) => Ok(ramp_settle(clock, true, usb)),
                    Some(_) => Err(Fatal::Unreachable),
                }
            } else {
                Err(Fatal::Unreachable)
            }
        },
        PowerState::Ready => Err(Fatal::NotImplemented),
    }
}

/// The USB-domain dispatcher observing the controller-ready cause while
/// bring-up is still in progress: sets the third flag.
pub open spec fn spec_controller_ready(s: PowerState, cause_ready: bool) -> Result<
    (PowerState, PowerActions),
    Fatal,
> {
    match s {
        PowerState::RampUp { clock, power, usb } => {
            if !usb && cause_ready {
                Ok(ramp_settle(clock, power, true))
            } else {
                Err(Fatal::Unreachable)
            }
        },
        _ => Err(Fatal::Unreachable),
    }
}

/// Applies one power-domain step. On a fatal outcome the state is left
/// unchanged and the caller disconnects and halts.
pub fn power_step(s: &mut PowerState, ev: Option<PowerEvent>, clock_stable: bool) -> (r: Result<
    PowerActions,
    Fatal,
>)
    ensures
        (match r {
            Ok(a) => spec_power_step(*old(s), ev, clock_stable) == Ok::<_, Fatal>(
                (*final(s), a),
            ),
            Err(f) => spec_power_step(*old(s), ev, clock_stable) == Err::<(PowerState, PowerActions),
                _,
            >(f) && *final(s) == *old(s),
        }),
{
    match *s {
        PowerState::Off => match ev {
            None => Ok(PowerActions { enable_usb: false, connect: false }),
            Some(PowerEvent::USBDETECTED) => {
                *s = PowerState::RampUp { clock: clock_stable, power: false, usb: false };
                Ok(PowerActions { enable_usb: true, connect: false })
            },
            Some(_) => Err(Fatal::Unreachable),
        },
        PowerState::RampUp { clock, power, usb } => {
            if !clock && ev.is_none() {
                Ok(self::settle(s, true, power, usb))
            } else if !power {
                match ev {
                    None => Ok(PowerActions { enable_usb: false, connect: false }),
                    Some(PowerEvent::USBPWRRDY) => Ok(self::settle(s, clock, true, usb)),
                    Some(_) => Err(Fatal::Unreachable),
                }
            } else {
                Err(Fatal::Unreachable)
            }
        },
        PowerState::Ready => Err(Fatal::NotImplemented),
    }
}

/// The USB-domain dispatcher's contribution: the controller-ready cause
/// completes the third flag of bring-up.
pub fn controller_ready_step(s: &mut PowerState, cause_ready: bool) -> (r: Result<
    PowerActions,
    Fatal,
>)
    ensures
        (match r {
            Ok(a) => spec_controller_ready(*old(s), cause_ready) == Ok::<_, Fatal>(
                (*final(s), a),
            ),
            Err(f) => spec_controller_ready(*old(s), cause_ready) == Err::<
                (PowerState, PowerActions),
                _,
            >(f) && *final(s) == *old(s),
        }),
{
    match *s {
        PowerState::RampUp { clock, power, usb } => {
            if !usb && cause_ready {
                Ok(self::settle(s, clock, power, true))
            } else {
                Err(Fatal::Unreachable)
            }
        },
        _ => Err(Fatal::Unreachable),
    }
}

/// Writes the updated flags back, advancing to `Ready` when complete.
fn settle(s: &mut PowerState, clock: bool, power: bool, usb: bool) -> (r: PowerActions)
    ensures
        ramp_settle(clock, power, usb) == (*final(s), r),
{
    if clock && power && usb {
        *s = PowerState::Ready;
        PowerActions { enable_usb: false, connect: true }
    } else {
        *s = PowerState::RampUp { clock, power, usb };
        PowerActions { enable_usb: false, connect: false }
    }
}

/// Bring-up progress as a rank: `Off`, then `RampUp`, then `Ready`.
pub open spec fn power_rank(s: PowerState) -> int {
    match s {
        PowerState::Off => 0,
        PowerState::RampUp { .. } => 1,
        PowerState::Ready => 2,
    }
}

/// Within `RampUp`, no flag ever turns back off.
pub open spec fn ramp_flags_monotone(pre: PowerState, post: PowerState) -> bool {
    pre matches PowerState::RampUp { clock, power, usb } ==> post matches PowerState::RampUp {
        clock: c2,
        power: p2,
        usb: u2,
    } ==> (clock ==> c2) && (power ==> p2) && (usb ==> u2)
}

/// Bring-up only ever advances: an accepted step never lowers the rank
/// and never clears a `RampUp` flag, whichever dispatcher performs it.
pub proof fn lemma_power_monotonic(
    s: PowerState,
    ev: Option<PowerEvent>,
    clock_stable: bool,
    cause_ready: bool,
)
    ensures
        spec_power_step(s, ev, clock_stable) matches Ok((s2, _)) ==> power_rank(s2) >= power_rank(s)
            && ramp_flags_monotone(s, s2),
        spec_controller_ready(s, cause_ready) matches Ok((s2, _)) ==> power_rank(s2) >= power_rank(
            s,
        ) && ramp_flags_monotone(s, s2),
{
}

// ---------------------------------------------------------------------
// Order irrelevance of bring-up.
// ---------------------------------------------------------------------

/// One of the three readiness signals.
#[derive(Clone, Copy, PartialEq, Eq, Structural, Debug)]
pub enum BringUpSignal {
    /// The high-frequency clock became stable.
    ClockStable,
    /// The `USBPWRRDY` power event.
    PowerReady,
    /// The controller-ready cause seen by the USB dispatcher.
    ControllerReady,
}

/// The machine's step for one readiness signal, as each dispatcher
/// performs it.
pub open spec fn apply_signal(s: PowerState, sig: BringUpSignal) -> Result<
    (PowerState, PowerActions),
    Fatal,
> {
    match sig {
        BringUpSignal::ClockStable => spec_power_step(s, None, true),
        BringUpSignal::PowerReady => spec_power_step(s, Some(PowerEvent::USBPWRRDY), true),
        BringUpSignal::ControllerReady => spec_controller_ready(s, true),
    }
}

/// Bring-up reaches `Ready` if and only if all three readiness signals
/// have been observed, in any order: from a fresh ramp-up, any
/// permutation of the three signals steps without fault, stays short of
/// `Ready` (and does not connect) while any signal is missing, and
/// reaches `Ready` — connecting exactly once — on the last.
pub proof fn lemma_bringup_order_irrelevant(o1: BringUpSignal, o2: BringUpSignal, o3: BringUpSignal)
    requires
        o1 != o2,
        o1 != o3,
        o2 != o3,
    ensures
        ({
            let s0 = PowerState::RampUp { clock: false, power: false, usb: false };
            &&& apply_signal(s0, o1) matches Ok((s1, a1)) && !a1.connect && s1 !is Ready && (
            apply_signal(s1, o2) matches Ok((s2, a2)) && !a2.connect && s2 !is Ready && (apply_signal(
                s2,
                o3,
            ) matches Ok((s3, a3)) && a3.connect && s3 is Ready))
        }),
{
}

} // verus!
