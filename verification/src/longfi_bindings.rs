//! The capability table: the fixed set of hardware operations the radio
//! engine invokes, backed by singleton handle slots.
//!
//! Each peripheral handle lives in a slot that is populated exactly once and
//! never reassigned. A capability call that needs an unpopulated slot is a
//! fatal configuration error — a build or wiring defect, never a runtime
//! condition to retry or a result to recover from — so every such call
//! requires its slot populated as a precondition; the unverified hardware
//! entry points abort where that requirement cannot be met. Polling the busy
//! sense line is the one exception: with the line unavailable it falls back
//! to busy.
//! The peripherals themselves are modelled as plain values: an output line
//! by its level, the transport port by what it sent and what the device
//! returns, the random source by its protocol trace.
//!
//! The board wires the radio's reset pin active-low: a request for the
//! active reset state drives the line low, releasing it drives the line
//! high. `reset_level` is the one place that polarity is written down; the
//! engine asks for the reset *state*, never for a raw line level.

use vstd::pervasive::unreached;
use vstd::prelude::*;

use crate::antenna::AntennaMode;
use crate::antenna::AntennaSwitches;

verus! {

/// The ceiling every power-reduction request is answered with: the
/// power-limiting policy of this board is a fixed stub.
pub const POWER_CEILING: u8 = 17;

/// The level the busy poll reports while the sense line is unavailable:
/// busy, the conservative fallback.
pub const BUSY_FALLBACK: bool = true;

/// A push-pull output line; `true` means driven high.
#[derive(Clone, Copy, Debug, PartialEq, Eq, Structural)]
pub struct OutputLine {
    pub high: bool,
}

/// An input sense line; `true` means it reads high.
#[derive(Clone, Copy, Debug, PartialEq, Eq, Structural)]
pub struct InputLine {
    pub high: bool,
}

/// The full-duplex byte transport to the radio, modelled by what has been
/// sent and what the remote device answers.
pub struct TransportPort {
    /// Every byte written to the port, oldest first.
    pub sent: Vec<u8>,
    /// The bytes the remote device answers with, in order.
    pub inbound: Vec<u8>,
    /// How many answer bytes have been consumed.
    pub cursor: usize,
}

/// The mathematical state of the transport port.
pub ghost struct TransportModel {
    pub sent: Seq<u8>,
    pub inbound: Seq<u8>,
    pub cursor: int,
}

impl View for TransportPort {
    type V = TransportModel;

    open spec fn view(&self) -> TransportModel {
        TransportModel { sent: self.sent@, inbound: self.inbound@, cursor: self.cursor as int }
    }
}

/// The byte the device answers the next exchange with: the next scripted
/// byte, or zero once the script is exhausted.
pub open spec fn inbound_byte(m: TransportModel) -> u8 {
    if m.cursor < m.inbound.len() {
        m.inbound[m.cursor]
    } else {
        0u8
    }
}

/// The port after one full-duplex exchange of `out`.
pub open spec fn after_exchange(m: TransportModel, out: u8) -> TransportModel {
    TransportModel {
        sent: m.sent.push(out),
        inbound: m.inbound,
        cursor: if m.cursor < m.inbound.len() {
            m.cursor + 1
        } else {
            m.cursor
        },
    }
}

impl TransportPort {
    /// A port that will answer with `inbound`, nothing sent yet.
    pub fn new(inbound: Vec<u8>) -> (p: TransportPort)
        ensures
            p@ == (TransportModel { sent: Seq::<u8>::empty(), inbound: inbound@, cursor: 0 }),
    {
        TransportPort { sent: Vec::new(), inbound, cursor: 0 }
    }

    /// One blocking full-duplex exchange: `out` goes to the device, the
    /// device's answer comes back.
    pub fn full_duplex(&mut self, out: u8) -> (r: u8)
        ensures
            r == inbound_byte(old(self)@),
            final(self)@ == after_exchange(old(self)@, out),
    {
        self.sent.push(out);
        if self.cursor < self.inbound.len() {
            let b = self.inbound[self.cursor];
            self.cursor = self.cursor + 1;
            b
        } else {
            0u8
        }
    }
}

/// One step of the random source's hardware protocol.
#[derive(Clone, Copy, Debug, PartialEq, Eq, Structural)]
pub enum RngStep {
    /// The source is armed: conversions start.
    Arm,
    /// The caller blocked until the ready flag flipped.
    Wait,
    /// The sample was read, clearing the ready flag.
    Read,
    /// The source is powered down.
    Disarm,
}

/// The hardware random source, modelled by its sample script and the trace
/// of protocol steps performed on it.
pub struct RandomSource {
    /// Whether the source is currently armed.
    pub enabled: bool,
    /// The samples the hardware will deliver, in order.
    pub samples: Vec<u32>,
    /// How many samples have been consumed.
    pub cursor: usize,
    /// Every protocol step performed, in order.
    pub trace: Vec<RngStep>,
}

/// The mathematical state of the random source.
pub ghost struct RngModel {
    pub enabled: bool,
    pub samples: Seq<u32>,
    pub cursor: int,
    pub trace: Seq<RngStep>,
}

impl View for RandomSource {
    type V = RngModel;

    open spec fn view(&self) -> RngModel {
        RngModel {
            enabled: self.enabled,
            samples: self.samples@,
            cursor: self.cursor as int,
            trace: self.trace@,
        }
    }
}

/// The protocol steps of one complete random-bits call.
pub open spec fn rng_cycle() -> Seq<RngStep> {
    seq![RngStep::Arm, RngStep::Wait, RngStep::Read, RngStep::Disarm]
}

/// The sample the source delivers next: the next scripted sample, or zero
/// once the script is exhausted.
pub open spec fn sample_of(m: RngModel) -> u32 {
    if m.cursor < m.samples.len() {
        m.samples[m.cursor]
    } else {
        0u32
    }
}

/// The source after one complete arm/wait/read/disarm cycle.
pub open spec fn after_cycle(m: RngModel) -> RngModel {
    RngModel {
        enabled: false,
        samples: m.samples,
        cursor: if m.cursor < m.samples.len() {
            m.cursor + 1
        } else {
            m.cursor
        },
        trace: m.trace + rng_cycle(),
    }
}

impl RandomSource {
    /// A disarmed source that will deliver `samples`, nothing done yet.
    pub fn new(samples: Vec<u32>) -> (s: RandomSource)
        ensures
            s@ == (RngModel {
                enabled: false,
                samples: samples@,
                cursor: 0,
                trace: Seq::<RngStep>::empty(),
            }),
    {
        RandomSource { enabled: false, samples, cursor: 0, trace: Vec::new() }
    }

    /// Arm the source: conversions that generate the sample start.
    pub fn enable(&mut self)
        ensures
            final(self)@ == (RngModel {
                enabled: true,
                trace: old(self)@.trace.push(RngStep::Arm),
                ..old(self)@
            }),
    {
        self.enabled = true;
        self.trace.push(RngStep::Arm);
    }

    /// Block until the ready flag flips. Waiting on a disarmed source would
    /// block forever, so the source must be armed.
    pub fn wait(&mut self)
        requires
            old(self)@.enabled,
        ensures
            final(self)@ == (RngModel { trace: old(self)@.trace.push(RngStep::Wait), ..old(self)@ }),
    {
        self.trace.push(RngStep::Wait);
    }

    /// Read the sample, clearing the ready flag. Only an armed source holds
    /// a sample.
    pub fn take_result(&mut self) -> (r: u32)
        requires
            old(self)@.enabled,
        ensures
            r == sample_of(old(self)@),
            final(self)@ == (RngModel {
                cursor: if old(self)@.cursor < old(self)@.samples.len() {
                    old(self)@.cursor + 1
                } else {
                    old(self)@.cursor
                },
                trace: old(self)@.trace.push(RngStep::Read),
                ..old(self)@
            }),
    {
        self.trace.push(RngStep::Read);
        if self.cursor < self.samples.len() {
            let v = self.samples[self.cursor];
            self.cursor = self.cursor + 1;
            v
        } else {
            0u32
        }
    }

    /// Power the source down.
    pub fn disable(&mut self)
        ensures
            final(self)@ == (RngModel {
                enabled: false,
                trace: old(self)@.trace.push(RngStep::Disarm),
                ..old(self)@
            }),
    {
        self.enabled = false;
        self.trace.push(RngStep::Disarm);
    }
}

/// After two consecutive random-bits calls, a disarm and a fresh arm stand
/// strictly between the two sample reads: no call returns a sample without
/// the full arm/wait/read/disarm cycle around it.
pub proof fn lemma_rearm_between_reads(t: Seq<RngStep>)
    ensures
        (t + rng_cycle() + rng_cycle())[t.len() as int + 2] == RngStep::Read,
        (t + rng_cycle() + rng_cycle())[t.len() as int + 6] == RngStep::Read,
        (t + rng_cycle() + rng_cycle())[t.len() as int + 3] == RngStep::Disarm,
        (t + rng_cycle() + rng_cycle())[t.len() as int + 4] == RngStep::Arm,
{
}

/// The singleton hardware handle slots behind the capability table. Each
/// slot is populated once, at construction, and never reassigned; every
/// capability operation is a method, so the engine's callbacks need one
/// exclusive handle to this struct and nothing else. The fields are public
/// so that contracts and tests can speak of the slots directly; no method
/// of the table ever populates or clears a slot after construction, and
/// callers are expected to keep to the same discipline.
pub struct LongFiBindings {
    /// The byte transport to the radio.
    pub spi: Option<TransportPort>,
    /// The transport select line.
    pub spi_nss: Option<OutputLine>,
    /// The radio reset line (driven active-low).
    pub reset: Option<OutputLine>,
    /// The radio busy sense line.
    pub radio_busy: Option<InputLine>,
    /// The hardware random source.
    pub rng: Option<RandomSource>,
    /// The antenna switch bank.
    pub ant_sw: Option<AntennaSwitches>,
    /// Every requested busy-wait, in milliseconds, in order.
    pub delays: Vec<u32>,
}

/// The level the reset line is driven to for a requested reset state: the
/// line is wired active-low, so requesting the active state drives it low.
pub open spec fn reset_level(active: bool) -> bool {
    !active
}

/// The reset line level for a requested reset state (the line is
/// active-low).
pub fn reset_line_level(active: bool) -> (r: bool)
    ensures
        r == reset_level(active),
{
    !active
}

/// The level the busy capability reports for a sense line slot: the line's
/// level, or busy as the conservative fallback when the slot is unpopulated.
pub open spec fn busy_level(slot: Option<InputLine>) -> bool {
    match slot {
        Some(line) => line.high,
        None => BUSY_FALLBACK,
    }
}

impl LongFiBindings {
    /// Populate every slot once from exclusively owned handles.
    pub fn new(
        spi: TransportPort,
        spi_nss: OutputLine,
        reset: OutputLine,
        radio_busy: InputLine,
        rng: RandomSource,
        ant_sw: AntennaSwitches,
    ) -> (b: LongFiBindings)
        ensures
            b.spi == Some(spi),
            b.spi_nss == Some(spi_nss),
            b.reset == Some(reset),
            b.radio_busy == Some(radio_busy),
            b.rng == Some(rng),
            b.ant_sw == Some(ant_sw),
            b.delays@ == Seq::<u32>::empty(),
    {
        LongFiBindings {
            spi: Some(spi),
            spi_nss: Some(spi_nss),
            reset: Some(reset),
            radio_busy: Some(radio_busy),
            rng: Some(rng),
            ant_sw: Some(ant_sw),
            delays: Vec::new(),
        }
    }

    /// Drive the radio reset line. The line is active-low: requesting the
    /// active state drives it low. An unpopulated slot is a fatal
    /// configuration error, excluded here by precondition.
    pub fn radio_reset(&mut self, value: bool)
        requires
            old(self).reset is Some,
        ensures
            *final(self) == (LongFiBindings {
                reset: Some(OutputLine { high: reset_level(value) }),
                ..*old(self)
            }),
    {
        match &mut self.reset {
            Some(line) => {
                line.high = !value;
            },
            None => unreached(),
        }
    }

    /// One blocking full-duplex byte exchange on the transport. An
    /// unpopulated slot is a fatal configuration error, excluded here by
    /// precondition: the call can never invent a byte.
    pub fn spi_in_out(&mut self, out_data: u8) -> (r: u8)
        requires
            old(self).spi is Some,
        ensures
            r == inbound_byte(old(self).spi->0@),
            final(self).spi is Some,
            final(self).spi->0@ == after_exchange(old(self).spi->0@, out_data),
            *final(self) == (LongFiBindings { spi: final(self).spi, ..*old(self) }),
    {
        match &mut self.spi {
            Some(port) => port.full_duplex(out_data),
            None => unreached(),
        }
    }

    /// Drive the transport select line to the requested level. An
    /// unpopulated slot is a fatal configuration error, excluded here by
    /// precondition.
    pub fn spi_nss(&mut self, value: bool)
        requires
            old(self).spi_nss is Some,
        ensures
            *final(self) == (LongFiBindings {
                spi_nss: Some(OutputLine { high: value }),
                ..*old(self)
            }),
    {
        match &mut self.spi_nss {
            Some(line) => {
                line.high = value;
            },
            None => unreached(),
        }
    }

    /// Busy-wait approximately `ms` milliseconds. The request is recorded;
    /// nothing else of the board changes.
    pub fn delay_ms(&mut self, ms: u32)
        ensures
            final(self).delays@ == old(self).delays@.push(ms),
            *final(self) == (LongFiBindings { delays: final(self).delays, ..*old(self) }),
    {
        self.delays.push(ms);
    }

    /// Arm the random source, block until a sample is ready, consume it and
    /// power the source down. The full-width sample is returned whatever
    /// `bits` requests: the width is informational and callers must not
    /// rely on truncation. An unpopulated slot is a fatal configuration
    /// error, excluded here by precondition: the call can never invent a
    /// sample, and no protocol step runs without the source.
    pub fn get_random_bits(&mut self, bits: u8) -> (r: u32)
        requires
            old(self).rng is Some,
        ensures
            r == sample_of(old(self).rng->0@),
            final(self).rng is Some,
            final(self).rng->0@ == after_cycle(old(self).rng->0@),
            *final(self) == (LongFiBindings { rng: final(self).rng, ..*old(self) }),
    {
        match &mut self.rng {
            Some(source) => {
                source.enable();
                source.wait();
                let v = source.take_result();
                source.disable();
                proof {
                    assert(source@.trace =~= old(self).rng->0@.trace + rng_cycle());
                }
                v
            },
            None => unreached(),
        }
    }

    /// Transition the antenna path to `mode`. The power hint is accepted
    /// and unused. An unpopulated switch slot is a fatal configuration
    /// error, excluded here by precondition.
    pub fn set_antenna_pins(&mut self, mode: AntennaMode, power: u8)
        requires
            old(self).ant_sw is Some,
        ensures
            *final(self) == (LongFiBindings {
                ant_sw: Some(AntennaSwitches::pattern_of(mode)),
                ..*old(self)
            }),
    {
        match &mut self.ant_sw {
            Some(sw) => {
                match mode {
                    AntennaMode::Tx => sw.set_tx(),
                    AntennaMode::Rx => sw.set_rx(),
                    AntennaMode::Sleep => sw.set_sleep(),
                }
            },
            None => unreached(),
        }
    }

    /// The current level of the busy sense line; busy (`true`) is the
    /// conservative fallback when the slot is unpopulated.
    pub fn busy_pin_status(&self) -> (r: bool)
        ensures
            r == busy_level(self.radio_busy),
    {
        match &self.radio_busy {
            Some(line) => line.high,
            None => true,
        }
    }
}

/// The power-limiting policy: every request is answered with the fixed
/// ceiling, whatever was asked for.
pub fn reduce_power(requested: u8) -> (r: u8)
    ensures
        r == POWER_CEILING,
{
    POWER_CEILING
}

/// The count a cycle-counting delay must busy-wait for a requested duration
/// of `ms` milliseconds at `cycles_per_ms` CPU cycles per millisecond,
/// saturated at the counter's range: the delay approximates the requested
/// milliseconds, never raw cycles.
pub fn delay_cycles(ms: u32, cycles_per_ms: u32) -> (r: u32)
    ensures
        r as int == (if ms as int * cycles_per_ms as int > u32::MAX as int {
            u32::MAX as int
        } else {
            ms as int * cycles_per_ms as int
        }),
{
    proof {
        assert(ms as int * cycles_per_ms as int <= u32::MAX as int * u32::MAX as int)
            by (nonlinear_arith)
            requires
                0 <= ms as int <= u32::MAX as int,
                0 <= cycles_per_ms as int <= u32::MAX as int,
        ;
    }
    let wide = (ms as u64) * (cycles_per_ms as u64);
    if wide > u32::MAX as u64 {
        u32::MAX
    } else {
        wide as u32
    }
}

} // verus!
