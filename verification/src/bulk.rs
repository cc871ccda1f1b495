//! Bulk endpoints.
//!
//! The OUT endpoint reconciles two asynchronous parties: hardware may
//! signal "data arrived" before the application supplies a buffer, or
//! the application may supply a buffer before data arrives. Both
//! interleavings must converge to one DMA transfer and hand the
//! application a packet of the right length. The IN endpoint is a
//! single-outstanding-transfer latch on a busy flag.
//!
//! Application-context steps run inside an interrupt-masked critical
//! section; the `on_*` steps run inside the USB-domain dispatcher. The
//! caller performs the returned DMA actions while still masked.

use vstd::prelude::*;

use crate::fault::Fatal;
use crate::packet::{Packet, CAPACITY};

verus! {

/// Bulk OUT handshake state.
#[derive(Clone, Copy, PartialEq, Eq, Structural, Debug)]
pub enum EpOutState {
    /// No buffer supplied, no data pending.
    Idle,
    /// Hardware signalled data before a buffer was supplied.
    DataReady,
    /// A buffer is supplied and waits for the data signal.
    BufferReady,
    /// DMA is running; the buffer belongs to hardware.
    TransferInProgress,
}

/// A packet length as the hardware reports it, capped at the packet
/// capacity.
pub open spec fn capped(size: u8) -> nat {
    if size <= CAPACITY {
        size as nat
    } else {
        CAPACITY as nat
    }
}

// ---------------------------------------------------------------------
// Bulk OUT.
// ---------------------------------------------------------------------

/// What the application's buffer hand-off decided.
#[derive(Clone, Copy, PartialEq, Eq, Structural, Debug)]
pub struct ReadStart {
    /// The transfer size was not known yet; after completion the length
    /// comes from the size the dispatcher recorded, not from the size
    /// register, which may already describe a newer transfer.
    pub needs_len: bool,
    /// Arm and start the OUT DMA for this many bytes now.
    pub start_dma: Option<u8>,
}

/// The application hand-off step: `Idle` parks the buffer, `DataReady`
/// starts the transfer at the size register's value.
pub open spec fn spec_read_start(s: EpOutState, size_reg: u8) -> Result<
    (EpOutState, ReadStart),
    Fatal,
> {
    match s {
        EpOutState::Idle => Ok(
            (EpOutState::BufferReady, ReadStart { needs_len: true, start_dma: None }),
        ),
        EpOutState::DataReady => Ok(
            (
                EpOutState::TransferInProgress,
                ReadStart { needs_len: false, start_dma: Some(size_reg) },
            ),
        ),
        EpOutState::BufferReady | EpOutState::TransferInProgress => Err(Fatal::Unreachable),
    }
}

/// The dispatcher's data-arrived step: `Idle` notes the data, a parked
/// buffer starts the transfer at the size register's value.
pub open spec fn spec_epdata(s: EpOutState, size_reg: u8) -> Result<
    (EpOutState, Option<u8>),
    Fatal,
> {
    match s {
        EpOutState::Idle => Ok((EpOutState::DataReady, None)),
        EpOutState::BufferReady => Ok((EpOutState::TransferInProgress, Some(size_reg))),
        EpOutState::DataReady | EpOutState::TransferInProgress => Err(Fatal::Unreachable),
    }
}

/// The dispatcher's DMA-end step: only a running transfer completes.
pub open spec fn spec_endepout(s: EpOutState) -> Result<EpOutState, Fatal> {
    match s {
        EpOutState::TransferInProgress => Ok(EpOutState::Idle),
        _ => Err(Fatal::Unreachable),
    }
}

/// Bulk OUT endpoint.
pub struct BulkOut {
    state: EpOutState,
    size: u8,
}

impl BulkOut {
    /// The handshake state.
    pub closed spec fn state(&self) -> EpOutState {
        self.state
    }

    /// The transfer size recorded by the dispatcher when it started the
    /// transfer from interrupt context.
    pub closed spec fn recorded_size(&self) -> u8 {
        self.size
    }

    /// A fresh endpoint: idle, nothing recorded.
    pub fn new() -> (r: BulkOut)
        ensures
            r.state() == EpOutState::Idle,
            r.recorded_size() == 0,
    {
        BulkOut { state: EpOutState::Idle, size: 0 }
    }

    /// The current handshake state.
    pub fn handshake_state(&self) -> (r: EpOutState)
        ensures
            r == self.state(),
    {
        self.state
    }

    /// Whether a read that parked its buffer may resume: the transfer
    /// completed (hardware may already have signalled data for a newer
    /// transfer).
    pub fn poll_done(&self) -> (r: bool)
        ensures
            r == (self.state() == EpOutState::Idle || self.state() == EpOutState::DataReady),
    {
        match self.state {
            EpOutState::Idle | EpOutState::DataReady => true,
            EpOutState::BufferReady | EpOutState::TransferInProgress => false,
        }
    }

    /// Hands the application's buffer to the endpoint: the
    /// interrupt-masked critical section that opens a read operation;
    /// the caller then polls `poll_done` and closes with `read_finish`.
    /// `size_epout1` is the current value of the hardware's OUT size
    /// register. A second outstanding read is a protocol violation.
    pub fn read(&mut self, packet: &mut Packet, size_epout1: u8) -> (r: Result<ReadStart, Fatal>)
        requires
            old(packet).wf(),
        ensures
            final(self).recorded_size() == old(self).recorded_size(),
            final(packet).wf(),
            (match r {
                Ok(start) => {
                    &&& spec_read_start(old(self).state(), size_epout1) == Ok::<_, Fatal>(
                        (final(self).state(), start),
                    )
                    &&& start.needs_len ==> *final(packet) == *old(packet)
                    &&& !start.needs_len ==> final(packet).spec_len() == capped(size_epout1)
                },
                Err(f) => {
                    &&& spec_read_start(old(self).state(), size_epout1) == Err::<
                        (EpOutState, ReadStart),
                        _,
                    >(f)
                    &&& final(self).state() == old(self).state()
                    &&& *final(packet) == *old(packet)
                },
            }),
    {
        match self.state {
            EpOutState::Idle => {
                self.state = EpOutState::BufferReady;
                Ok(ReadStart { needs_len: true, start_dma: None })
            },
            EpOutState::DataReady => {
                packet.set_len(size_epout1);
                self.state = EpOutState::TransferInProgress;
                Ok(ReadStart { needs_len: false, start_dma: Some(size_epout1) })
            },
            EpOutState::BufferReady | EpOutState::TransferInProgress => Err(Fatal::Unreachable),
        }
    }

    /// The dispatcher observed the OUT data event. With a parked buffer
    /// it records the size, and the caller arms and starts the DMA for
    /// the returned byte count.
    pub fn on_epdata(&mut self, size_epout1: u8) -> (r: Result<Option<u8>, Fatal>)
        ensures
            (match r {
                Ok(start_dma) => {
                    &&& spec_epdata(old(self).state(), size_epout1) == Ok::<_, Fatal>(
                        (final(self).state(), start_dma),
                    )
                    &&& final(self).recorded_size() == (if start_dma is Some {
                        size_epout1
                    } else {
                        old(self).recorded_size()
                    })
                },
                Err(f) => {
                    &&& spec_epdata(old(self).state(), size_epout1) == Err::<
                        (EpOutState, Option<u8>),
                        _,
                    >(f)
                    &&& *final(self) == *old(self)
                },
            }),
    {
        match self.state {
            EpOutState::Idle => {
                self.state = EpOutState::DataReady;
                Ok(None)
            },
            EpOutState::BufferReady => {
                self.size = size_epout1;
                self.state = EpOutState::TransferInProgress;
                Ok(Some(size_epout1))
            },
            EpOutState::DataReady | EpOutState::TransferInProgress => Err(Fatal::Unreachable),
        }
    }

    /// The dispatcher observed the end of the OUT DMA: the buffer goes
    /// back to the polling application.
    pub fn on_endepout(&mut self) -> (r: Result<(), Fatal>)
        ensures
            final(self).recorded_size() == old(self).recorded_size(),
            (match r {
                Ok(()) => spec_endepout(old(self).state()) == Ok::<_, Fatal>(final(self).state()),
                Err(f) => spec_endepout(old(self).state()) == Err::<EpOutState, _>(f)
                    && *final(self) == *old(self),
            }),
    {
        match self.state {
            EpOutState::TransferInProgress => {
                self.state = EpOutState::Idle;
                Ok(())
            },
            _ => Err(Fatal::Unreachable),
        }
    }

    /// After `poll_done`, stamps the final length onto the returned
    /// packet: the size recorded in interrupt context when the hand-off
    /// had parked the buffer, or nothing when the length was already
    /// set from the size register at hand-off.
    pub fn read_finish(&self, packet: &mut Packet, needs_len: bool)
        requires
            old(packet).wf(),
        ensures
            final(packet).wf(),
            needs_len ==> final(packet).spec_len() == capped(self.recorded_size()),
            !needs_len ==> *final(packet) == *old(packet),
    {
        if needs_len {
            packet.set_len(self.size);
        }
    }
}

/// The packet length a completed read delivers, by route: the size the
/// dispatcher recorded, or the size register read at hand-off.
pub open spec fn spec_delivered_len(needs_len: bool, recorded: u8, size_at_read: u8) -> nat {
    if needs_len {
        capped(recorded)
    } else {
        capped(size_at_read)
    }
}

/// Both interleavings of the OUT handshake converge: whether the data
/// event precedes the buffer hand-off or follows it, every step is
/// accepted, exactly one DMA start of `size` bytes is issued, the
/// machine returns to `Idle`, and the delivered packet length is the
/// hardware size capped at the packet capacity — by either length
/// route.
pub proof fn lemma_bulk_out_converges(size: u8, recorded0: u8)
    ensures
        ({
            // data first, then the buffer
            let s0 = EpOutState::Idle;
            &&& spec_epdata(s0, size) matches Ok((s1, d1)) && d1 is None && (spec_read_start(
                s1,
                size,
            ) matches Ok((s2, h)) && h.start_dma == Some(size) && !h.needs_len && (spec_endepout(
                s2,
            ) matches Ok(s3) && s3 == EpOutState::Idle && spec_delivered_len(
                h.needs_len,
                recorded0,
                size,
            ) == capped(size)))
        }),
        ({
            // buffer first, then the data
            let s0 = EpOutState::Idle;
            &&& spec_read_start(s0, size) matches Ok((s1, h)) && h.start_dma is None
                && h.needs_len && (spec_epdata(s1, size) matches Ok((s2, d2)) && d2 == Some(size)
                && (spec_endepout(s2) matches Ok(s3) && s3 == EpOutState::Idle
                && spec_delivered_len(h.needs_len, size, size) == capped(size)))
        }),
{
}

// ---------------------------------------------------------------------
// Bulk IN.
// ---------------------------------------------------------------------

/// The packet latched into the IN endpoint's registers: the buffer now
/// belongs to hardware until the dispatcher observes completion.
pub struct WriteStart {
    /// How many bytes the DMA sends.
    pub maxcnt: u8,
    /// The hardware-owned buffer.
    pub packet: Packet,
}

/// Bulk IN endpoint: at most one transfer outstanding.
pub struct BulkIn {
    busy: bool,
}

impl BulkIn {
    /// Whether a transfer is outstanding.
    pub closed spec fn busy(&self) -> bool {
        self.busy
    }

    /// A fresh endpoint with no transfer outstanding.
    pub fn new() -> (r: BulkIn)
        ensures
            !r.busy(),
    {
        BulkIn { busy: false }
    }

    /// Whether a transfer is outstanding.
    pub fn is_busy(&self) -> (r: bool)
        ensures
            r == self.busy(),
    {
        self.busy
    }

    /// Sends a packet to the host. While the endpoint is disabled or a
    /// previous transfer's completion has not been observed, the packet
    /// comes back unchanged and nothing is started — the caller
    /// suspends and retries. Otherwise the buffer moves to hardware,
    /// the busy flag is raised, and the caller latches and starts the DMA.
    pub fn write(&mut self, packet: Packet, enabled: bool) -> (r: Result<WriteStart, Packet>)
        requires
            packet.wf(),
        ensures
            (match r {
                Ok(w) => {
                    &&& enabled && !old(self).busy()
                    &&& final(self).busy()
                    &&& w.maxcnt == packet.spec_len()
                    &&& w.packet == packet
                },
                Err(p) => {
                    &&& !enabled || old(self).busy()
                    &&& *final(self) == *old(self)
                    &&& p == packet
                },
            }),
    {
        if !enabled || self.busy {
            Err(packet)
        } else {
            let maxcnt = packet.len();
            self.busy = true;
            Ok(WriteStart { maxcnt, packet })
        }
    }

    /// The dispatcher observed the end of the IN DMA: the busy flag clears; a
    /// completion with no transfer outstanding is a protocol violation.
    pub fn on_endepin(&mut self) -> (r: Result<(), Fatal>)
        ensures
            (match r {
                Ok(()) => old(self).busy() && !final(self).busy(),
                Err(f) => f == Fatal::Unreachable && !old(self).busy()
                    && *final(self) == *old(self),
            }),
    {
        if self.busy {
            self.busy = false;
            Ok(())
        } else {
            Err(Fatal::Unreachable)
        }
    }
}

} // verus!
