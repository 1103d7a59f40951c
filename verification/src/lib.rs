//! A verified protocol engine for HD44780-style character LCD
//! controllers on a 4-bit multiplexed parallel bus.
//!
//! The engine owns three control lines (register select, read/write,
//! enable) and a 4-line data bus, all behind capability traits that the
//! platform implements.  It polls the controller's busy flag, transfers
//! bytes as two enable-pulsed nibbles (low nibble first), and offers a
//! non-blocking write whose caller owns the retry cadence.

use vstd::prelude::*;

pub mod instr;
pub mod sim;
pub mod utils;

verus! {

use crate::instr::Deliverable;
use crate::utils::{Level, LineLevels, State, DelayMicros};
use crate::utils::{low_nibble, high_nibble, assemble, busy_flag, nibble_stream};
use crate::utils::lemma_nibble_stream_push;
use vstd::string::StringSliceAdditionalSpecFns;

/// A digital output line.
///
/// The ghost [`history`](OutputPin::history) is the sequence of levels
/// the line was successfully driven to, oldest first; a failed drive
/// leaves it unchanged.  Platform implementations supply the physical
/// side; the protocol engine is verified against this model.
pub trait OutputPin: Sized {
    /// The implementor's failure value for a drive that did not happen.
    type Error;

    /// All levels successfully driven onto the line so far, in order.
    /// An implementation verified against this trait overrides it; the
    /// default stands in for implementations outside the verifier's
    /// reach, which are not held to the contracts below anyway.
    open spec fn history(&self) -> Seq<Level> {
        Seq::empty()
    }

    /// Drive the line high.
    fn set_high(&mut self) -> (r: Result<(), Self::Error>)
        ensures
            r is Ok ==> final(self).history() == old(self).history().push(Level::High),
            r is Err ==> final(self).history() == old(self).history(),
    ;

    /// Drive the line low.
    fn set_low(&mut self) -> (r: Result<(), Self::Error>)
        ensures
            r is Ok ==> final(self).history() == old(self).history().push(Level::Low),
            r is Err ==> final(self).history() == old(self).history(),
    ;
}

/// The four data lines of the bus.
///
/// The ghost [`writes`](DataBus::writes) and [`reads`](DataBus::reads)
/// are the nibble values successfully driven onto, respectively read
/// off, the four lines, oldest first.  A failed operation leaves both
/// unchanged; what a read returns is up to the hardware.
pub trait DataBus: Sized {
    /// The implementor's failure value for a bus access that did not
    /// happen.
    type Error;

    /// Nibble values successfully driven onto the lines so far.
    /// An implementation verified against this trait overrides it; the
    /// default stands in for implementations outside the verifier's
    /// reach, which are not held to the contracts below anyway.
    open spec fn writes(&self) -> Seq<u8> {
        Seq::empty()
    }

    /// Nibble values handed back by successful reads so far, under the
    /// same default as [`writes`](DataBus::writes).
    open spec fn reads(&self) -> Seq<u8> {
        Seq::empty()
    }

    /// Drive the four lines to the given levels, now.
    fn write_pins_now(&mut self, levels: LineLevels) -> (r: Result<(), Self::Error>)
        ensures
            r is Ok ==> final(self).writes() == old(self).writes().push(levels.value())
                && final(self).reads() == old(self).reads(),
            r is Err ==> final(self).writes() == old(self).writes() && final(self).reads()
                == old(self).reads(),
    ;

    /// Sample the four lines, now.
    fn read_pins_now(&mut self) -> (r: Result<LineLevels, Self::Error>)
        ensures
            r matches Ok(l) ==> final(self).reads() == old(self).reads().push(l.value())
                && final(self).writes() == old(self).writes(),
            r is Err ==> final(self).reads() == old(self).reads() && final(self).writes()
                == old(self).writes(),
    ;
}

/// One failure, per independently failing physical line, carrying the
/// implementor's error value unmodified.
pub enum LcdError<RS: OutputPin, RW: OutputPin, E: OutputPin, DB: DataBus> {
    RegisterSelectionError(RS::Error),
    ReadWriteError(RW::Error),
    EnableError(E::Error),
    DataBusError(DB::Error),
}

/// Outcome of a non-blocking transfer.
pub enum WriteResult<Fault> {
    /// Both nibbles were latched by the controller.
    Done,
    /// The controller reported busy; nothing beyond the status poll was
    /// driven.  Retry later, at a cadence of the caller's choosing.
    NotReady,
    /// A pin or bus operation failed; the transfer was aborted there.
    Failed(Fault),
}

/// The protocol engine: exclusive owner of the three control lines and
/// the data bus for its entire lifetime.
pub struct LcdPins<RS: OutputPin, RW: OutputPin, E: OutputPin, DB: DataBus> {
    pub register_selection: RS,
    pub read_write: RW,
    pub enable: E,
    pub data_bus: DB,
}

impl<RS: OutputPin, RW: OutputPin, E: OutputPin, DB: DataBus> LcdPins<RS, RW, E, DB> {
    /// What a completed status poll did to the lines: register select
    /// driven low, read/write driven high, two enable pulses, two
    /// nibbles read off the bus, nothing written to it.
    pub open spec fn polled(self, post: Self) -> bool {
        &&& post.register_selection.history() == self.register_selection.history().push(Level::Low)
        &&& post.read_write.history() == self.read_write.history().push(Level::High)
        &&& post.enable.history() == self.enable.history().push(Level::High).push(Level::Low).push(
            Level::High,
        ).push(Level::Low)
        &&& post.data_bus.reads().len() == self.data_bus.reads().len() + 2
        &&& post.data_bus.reads()[self.data_bus.reads().len() as int] < 16
        &&& post.data_bus.reads()[self.data_bus.reads().len() as int + 1] < 16
        &&& post.data_bus.writes() == self.data_bus.writes()
    }

    /// The raw status byte a completed poll assembled: the first nibble
    /// read occupies bits 0..3, the second bits 4..7.
    pub open spec fn polled_raw(self, post: Self) -> u8 {
        let rd = post.data_bus.reads();
        let n = self.data_bus.reads().len() as int;
        assemble(rd[n], rd[n + 1])
    }

    /// The status poll inside a call completed and reported not busy:
    /// exactly two nibbles were read and their low-first assembly has
    /// the busy flag clear.
    pub open spec fn poll_passed(self, post: Self) -> bool {
        &&& post.data_bus.reads().len() == self.data_bus.reads().len() + 2
        &&& !busy_flag(self.polled_raw(post))
    }

    /// What an aborted status poll left behind, by failing line: the
    /// lines before the failing one carry exactly the poll's drives,
    /// the failing operation itself recorded nothing, every later
    /// operation went untried, and nothing was written to the bus.
    pub open spec fn poll_aborted(self, post: Self, e: LcdError<RS, RW, E, DB>) -> bool {
        let rs0 = self.register_selection.history();
        let rw0 = self.read_write.history();
        let en0 = self.enable.history();
        let rd0 = self.data_bus.reads();
        &&& post.data_bus.writes() == self.data_bus.writes()
        &&& post.data_bus.reads().len() <= rd0.len() + 1
        &&& en0.is_prefix_of(post.enable.history())
        &&& (e is RegisterSelectionError ==> post.register_selection.history() == rs0
            && post.read_write == self.read_write && post.enable == self.enable
            && post.data_bus == self.data_bus)
        &&& (!(e is RegisterSelectionError) ==> post.register_selection.history() == rs0.push(
            Level::Low,
        ))
        &&& (e is ReadWriteError ==> post.read_write.history() == rw0 && post.enable == self.enable
            && post.data_bus == self.data_bus)
        &&& (!(e is RegisterSelectionError || e is ReadWriteError) ==> post.read_write.history()
            == rw0.push(Level::High))
        &&& (e is EnableError ==> ({
            ||| (post.enable.history() == en0 || post.enable.history() == en0.push(Level::High))
                && post.data_bus.reads() == rd0
            ||| (post.enable.history() == en0.push(Level::High).push(Level::Low)
                || post.enable.history() == en0.push(Level::High).push(Level::Low).push(
                Level::High,
            )) && post.data_bus.reads().len() == rd0.len() + 1
        }))
        &&& (e is DataBusError ==> ({
            ||| post.enable.history() == en0.push(Level::High).push(Level::Low)
                && post.data_bus.reads() == rd0
            ||| post.enable.history() == en0.push(Level::High).push(Level::Low).push(
                Level::High,
            ).push(Level::Low) && post.data_bus.reads().len() == rd0.len() + 1
        }))
    }

    /// What a completed transfer did to the lines: one status poll,
    /// then register select at the deliverable's level, read/write low,
    /// and the payload's two nibbles driven low-nibble-first onto the
    /// bus, each latched by one enable pulse.
    pub open spec fn transferred(self, post: Self, d: Deliverable) -> bool {
        &&& post.register_selection.history() == self.register_selection.history().push(
            Level::Low,
        ).push(d.register_level())
        &&& post.read_write.history() == self.read_write.history().push(Level::High).push(
            Level::Low,
        )
        &&& post.enable.history() == self.enable.history().push(Level::High).push(Level::Low).push(
            Level::High,
        ).push(Level::Low).push(Level::High).push(Level::Low).push(Level::High).push(Level::Low)
        &&& post.data_bus.writes() == self.data_bus.writes().push(low_nibble(d.payload())).push(
            high_nibble(d.payload()),
        )
        &&& post.data_bus.reads().len() == self.data_bus.reads().len() + 2
    }

    /// What an aborted transfer left behind, by failing line and by
    /// phase: either the status poll itself aborted, or the poll
    /// completed not busy and the data phase aborted at the operation
    /// the error names, with at most a prefix of the payload's nibble
    /// pair on the bus and every later operation untried.
    pub open spec fn write_aborted(self, post: Self, d: Deliverable, e: LcdError<RS, RW, E, DB>) -> bool {
        let w0 = self.data_bus.writes();
        let p = d.payload();
        let rs0 = self.register_selection.history();
        let rw0 = self.read_write.history();
        let en0 = self.enable.history();
        let en_poll = en0.push(Level::High).push(Level::Low).push(Level::High).push(Level::Low);
        &&& (post.data_bus.writes() == w0 || post.data_bus.writes() == w0.push(low_nibble(p))
            || post.data_bus.writes() == w0.push(low_nibble(p)).push(high_nibble(p)))
        &&& (post.data_bus.writes() != w0 ==> self.poll_passed(post)
            && post.register_selection.history() == rs0.push(Level::Low).push(d.register_level())
            && post.read_write.history() == rw0.push(Level::High).push(Level::Low))
        &&& (e is RegisterSelectionError ==> post.data_bus.writes() == w0 && ({
            ||| self.poll_aborted(post, e)
            ||| self.poll_passed(post) && post.register_selection.history() == rs0.push(Level::Low)
                && post.read_write.history() == rw0.push(Level::High)
                && post.enable.history() == en_poll
        }))
        &&& (e is ReadWriteError ==> post.data_bus.writes() == w0 && ({
            ||| self.poll_aborted(post, e)
            ||| self.poll_passed(post) && post.register_selection.history() == rs0.push(
                Level::Low,
            ).push(d.register_level()) && post.read_write.history() == rw0.push(Level::High)
                && post.enable.history() == en_poll
        }))
        &&& (e is EnableError ==> ({
            ||| post.data_bus.writes() == w0 && self.poll_aborted(post, e)
            ||| self.poll_passed(post) && post.register_selection.history() == rs0.push(
                Level::Low,
            ).push(d.register_level()) && post.read_write.history() == rw0.push(Level::High).push(
                Level::Low,
            ) && ({
                ||| post.data_bus.writes() == w0.push(low_nibble(p)) && (post.enable.history()
                    == en_poll || post.enable.history() == en_poll.push(Level::High))
                ||| post.data_bus.writes() == w0.push(low_nibble(p)).push(high_nibble(p)) && (
                post.enable.history() == en_poll.push(Level::High).push(Level::Low)
                    || post.enable.history() == en_poll.push(Level::High).push(Level::Low).push(
                    Level::High,
                ))
            })
        }))
        &&& (e is DataBusError ==> ({
            ||| post.data_bus.writes() == w0 && self.poll_aborted(post, e)
            ||| self.poll_passed(post) && post.register_selection.history() == rs0.push(
                Level::Low,
            ).push(d.register_level()) && post.read_write.history() == rw0.push(Level::High).push(
                Level::Low,
            ) && ({
                ||| post.data_bus.writes() == w0 && post.enable.history() == en_poll
                ||| post.data_bus.writes() == w0.push(low_nibble(p)) && post.enable.history()
                    == en_poll.push(Level::High).push(Level::Low)
            })
        }))
    }

    /// Take exclusive ownership of the three control lines and the bus.
    pub fn new(register_selection: RS, read_write: RW, enable: E, data_bus: DB) -> (r: Self)
        ensures
            r.register_selection == register_selection,
            r.read_write == read_write,
            r.enable == enable,
            r.data_bus == data_bus,
    {
        Self { register_selection, read_write, enable, data_bus }
    }

    /// Yield the lines and the bus back to the caller.
    pub fn into_parts(self) -> (r: (RS, RW, E, DB))
        ensures
            r.0 == self.register_selection,
            r.1 == self.read_write,
            r.2 == self.enable,
            r.3 == self.data_bus,
    {
        (self.register_selection, self.read_write, self.enable, self.data_bus)
    }

    /// One enable pulse: drive the enable line high, wait at least one
    /// microsecond, drive it low, wait at least one microsecond again.
    /// This is the sole mechanism by which the controller samples the
    /// bus; on success the enable line is always left low.
    pub fn pulse_enable<D: DelayMicros>(&mut self, delay: &mut D) -> (r: Result<(), E::Error>)
        ensures
            final(self).register_selection == old(self).register_selection,
            final(self).read_write == old(self).read_write,
            final(self).data_bus == old(self).data_bus,
            r is Ok ==> final(self).enable.history() == old(self).enable.history().push(
                Level::High,
            ).push(Level::Low),
            r is Ok ==> final(self).enable.history().last() == Level::Low,
            r is Err ==> final(self).enable.history() == old(self).enable.history()
                || final(self).enable.history() == old(self).enable.history().push(Level::High),
    {
        match self.enable.set_high() {
            Ok(()) => {},
            Err(e) => {
                return Err(e);
            },
        }
        delay.delay_us(1);
        match self.enable.set_low() {
            Ok(()) => {},
            Err(e) => {
                return Err(e);
            },
        }
        delay.delay_us(1);
        Ok(())
    }

    /// Poll the status register.
    ///
    /// Selects "read status" (register select low, read/write high),
    /// then pulses enable and reads the four bus lines twice: the first
    /// read is the low nibble, the second the high nibble.  The two are
    /// assembled low-nibble-first and decoded.  Any pin or bus failure
    /// aborts at once, naming the failing line; no partial status is
    /// returned.  The bus is never written.
    pub fn state<D: DelayMicros>(&mut self, delay: &mut D) -> (r: Result<
        State,
        LcdError<RS, RW, E, DB>,
    >)
        ensures
            final(self).data_bus.writes() == old(self).data_bus.writes(),
            old(self).data_bus.reads().is_prefix_of(final(self).data_bus.reads()),
            final(self).data_bus.reads().len() <= old(self).data_bus.reads().len() + 2,
            r matches Ok(st) ==> old(self).polled(*final(self)) && st.0 == old(self).polled_raw(
                *final(self),
            ),
            r matches Err(e) ==> old(self).poll_aborted(*final(self), e),
    {
        match self.register_selection.set_low() {
            Ok(()) => {},
            Err(e) => {
                return Err(LcdError::RegisterSelectionError(e));
            },
        }
        match self.read_write.set_high() {
            Ok(()) => {},
            Err(e) => {
                return Err(LcdError::ReadWriteError(e));
            },
        }
        match self.pulse_enable(delay) {
            Ok(()) => {},
            Err(e) => {
                return Err(LcdError::EnableError(e));
            },
        }
        let lower = match self.data_bus.read_pins_now() {
            Ok(l) => l,
            Err(e) => {
                return Err(LcdError::DataBusError(e));
            },
        };
        match self.pulse_enable(delay) {
            Ok(()) => {},
            Err(e) => {
                return Err(LcdError::EnableError(e));
            },
        }
        let upper = match self.data_bus.read_pins_now() {
            Ok(l) => l,
            Err(e) => {
                return Err(LcdError::DataBusError(e));
            },
        };
        let lo = lower.nibble();
        let hi = upper.nibble();
        let raw = lo | (hi << 4);
        proof {
            assert((lo | (hi << 4)) == (lo + hi * 16) as u8) by (bit_vector)
                requires
                    lo < 16,
                    hi < 16,
            ;
        }
        Ok(State(raw))
    }

    /// Transfer one deliverable, without blocking.
    ///
    /// Polls the status register first: if the controller is busy the
    /// call returns [`WriteResult::NotReady`] without driving anything
    /// beyond that poll, and the caller owns the retry cadence.
    /// Otherwise register select is driven low for an instruction and
    /// high for data, read/write is driven low, and the payload byte
    /// goes onto the bus as two nibbles, low nibble first, each latched
    /// by one enable pulse.  A pin or bus failure aborts the transfer
    /// there and names the failing line.
    pub fn write<D: DelayMicros>(&mut self, delay: &mut D, deliverable: Deliverable) -> (r:
        WriteResult<LcdError<RS, RW, E, DB>>)
        ensures
            old(self).data_bus.writes().is_prefix_of(final(self).data_bus.writes()),
            final(self).data_bus.writes().len() <= old(self).data_bus.writes().len() + 2,
            old(self).data_bus.reads().is_prefix_of(final(self).data_bus.reads()),
            final(self).data_bus.reads().len() <= old(self).data_bus.reads().len() + 2,
            final(self).register_selection.history().len() <= old(
                self,
            ).register_selection.history().len() + 2,
            final(self).read_write.history().len() <= old(self).read_write.history().len() + 2,
            final(self).enable.history().len() <= old(self).enable.history().len() + 8,
            r is NotReady ==> old(self).polled(*final(self)) && busy_flag(
                old(self).polled_raw(*final(self)),
            ),
            r is Done ==> old(self).transferred(*final(self), deliverable) && !busy_flag(
                old(self).polled_raw(*final(self)),
            ),
            r matches WriteResult::Failed(e) ==> old(self).write_aborted(
                *final(self),
                deliverable,
                e,
            ),
    {
        let st = match self.state(delay) {
            Ok(st) => st,
            Err(e) => {
                return WriteResult::Failed(e);
            },
        };
        if st.busy() {
            return WriteResult::NotReady;
        }
        let datum: u8 = match deliverable {
            Deliverable::Instr(ci) => {
                match self.register_selection.set_low() {
                    Ok(()) => {},
                    Err(e) => {
                        return WriteResult::Failed(LcdError::RegisterSelectionError(e));
                    },
                }
                ci.byte()
            },
            Deliverable::Data(b) => {
                match self.register_selection.set_high() {
                    Ok(()) => {},
                    Err(e) => {
                        return WriteResult::Failed(LcdError::RegisterSelectionError(e));
                    },
                }
                b
            },
        };
        match self.read_write.set_low() {
            Ok(()) => {},
            Err(e) => {
                return WriteResult::Failed(LcdError::ReadWriteError(e));
            },
        }
        let (lo, hi) = crate::utils::split_byte(datum);
        match self.data_bus.write_pins_now(LineLevels::for_nibble(lo)) {
            Ok(()) => {},
            Err(e) => {
                return WriteResult::Failed(LcdError::DataBusError(e));
            },
        }
        match self.pulse_enable(delay) {
            Ok(()) => {},
            Err(e) => {
                return WriteResult::Failed(LcdError::EnableError(e));
            },
        }
        match self.data_bus.write_pins_now(LineLevels::for_nibble(hi)) {
            Ok(()) => {},
            Err(e) => {
                return WriteResult::Failed(LcdError::DataBusError(e));
            },
        }
        match self.pulse_enable(delay) {
            Ok(()) => {},
            Err(e) => {
                return WriteResult::Failed(LcdError::EnableError(e));
            },
        }
        WriteResult::Done
    }

    /// Store a delay source beside the engine, so status polls and
    /// writes need no timer argument.
    pub fn with_delay<D: DelayMicros>(self, delay: D) -> (r: Lcd<RS, RW, E, DB, D>)
        ensures
            r.pins == self,
            r.delay == delay,
    {
        Lcd { pins: self, delay }
    }
}

/// The byte a character puts on the wire: its code point truncated to
/// eight bits.
pub open spec fn char_byte(c: char) -> u8 {
    ((c as u32) % 256) as u8
}

/// Ordered progress of a byte stream over the bus: the writes trace
/// grew from `w0` to `w1` by the nibble streams of the first `k` bytes
/// in order, and then by at most the nibbles, low first, of byte `k` —
/// the byte the stream stopped on.
pub open spec fn stream_progress(w0: Seq<u8>, w1: Seq<u8>, bytes: Seq<u8>, k: int) -> bool {
    let done = w0 + nibble_stream(bytes.take(k));
    &&& 0 <= k < bytes.len()
    &&& (w1 == done || w1 == done.push(low_nibble(bytes[k])) || w1 == done.push(
        low_nibble(bytes[k]),
    ).push(high_nibble(bytes[k])))
}

/// The timed facade: a protocol engine together with its delay source,
/// plus a blocking byte-stream adapter on top of the non-blocking
/// transfer.
pub struct Lcd<RS: OutputPin, RW: OutputPin, E: OutputPin, DB: DataBus, D: DelayMicros> {
    pub pins: LcdPins<RS, RW, E, DB>,
    pub delay: D,
}

impl<RS: OutputPin, RW: OutputPin, E: OutputPin, DB: DataBus, D: DelayMicros> Lcd<
    RS,
    RW,
    E,
    DB,
    D,
> {
    /// Yield the engine and the delay source back to the caller.
    pub fn into_parts(self) -> (r: (LcdPins<RS, RW, E, DB>, D))
        ensures
            r.0 == self.pins,
            r.1 == self.delay,
    {
        (self.pins, self.delay)
    }

    /// Poll the status register, as [`LcdPins::state`] does with the
    /// stored delay source.
    pub fn state(&mut self) -> (r: Result<State, LcdError<RS, RW, E, DB>>)
        ensures
            final(self).pins.data_bus.writes() == old(self).pins.data_bus.writes(),
            old(self).pins.data_bus.reads().is_prefix_of(final(self).pins.data_bus.reads()),
            final(self).pins.data_bus.reads().len() <= old(self).pins.data_bus.reads().len() + 2,
            r matches Ok(st) ==> old(self).pins.polled(final(self).pins) && st.0 == old(
                self,
            ).pins.polled_raw(final(self).pins),
            r matches Err(e) ==> old(self).pins.poll_aborted(final(self).pins, e),
    {
        self.pins.state(&mut self.delay)
    }

    /// Transfer one deliverable without blocking, as [`LcdPins::write`]
    /// does with the stored delay source.
    pub fn write(&mut self, deliverable: Deliverable) -> (r: WriteResult<LcdError<RS, RW, E, DB>>)
        ensures
            old(self).pins.data_bus.writes().is_prefix_of(final(self).pins.data_bus.writes()),
            final(self).pins.data_bus.writes().len() <= old(self).pins.data_bus.writes().len() + 2,
            old(self).pins.data_bus.reads().is_prefix_of(final(self).pins.data_bus.reads()),
            final(self).pins.data_bus.reads().len() <= old(self).pins.data_bus.reads().len() + 2,
            final(self).pins.register_selection.history().len() <= old(
                self,
            ).pins.register_selection.history().len() + 2,
            final(self).pins.read_write.history().len() <= old(
                self,
            ).pins.read_write.history().len() + 2,
            final(self).pins.enable.history().len() <= old(self).pins.enable.history().len() + 8,
            r is NotReady ==> old(self).pins.polled(final(self).pins) && busy_flag(
                old(self).pins.polled_raw(final(self).pins),
            ),
            r is Done ==> old(self).pins.transferred(final(self).pins, deliverable) && !busy_flag(
                old(self).pins.polled_raw(final(self).pins),
            ),
            r matches WriteResult::Failed(e) ==> old(self).pins.write_aborted(
                final(self).pins,
                deliverable,
                e,
            ),
    {
        self.pins.write(&mut self.delay, deliverable)
    }

    /// Write one character to the data register, blocking: its code
    /// point is truncated to eight bits, as a byte-oriented controller
    /// expects, and a busy controller is polled again, up to
    /// [`BUSY_RETRY_LIMIT`] times, before the call gives up.  The busy
    /// polls themselves write nothing: on [`WriteResult::Done`] the bus
    /// carried exactly the byte's two nibbles, low first.
    pub fn write_char(&mut self, c: char) -> (r: WriteResult<LcdError<RS, RW, E, DB>>)
        ensures
            old(self).pins.data_bus.writes().is_prefix_of(final(self).pins.data_bus.writes()),
            final(self).pins.data_bus.writes().len() <= old(self).pins.data_bus.writes().len() + 2,
            r is Done ==> final(self).pins.data_bus.writes() == old(
                self,
            ).pins.data_bus.writes().push(low_nibble(char_byte(c))).push(high_nibble(char_byte(c))),
            r is NotReady ==> final(self).pins.data_bus.writes() == old(self).pins.data_bus.writes()
                && final(self).pins.data_bus.reads().len() >= old(
                self,
            ).pins.data_bus.reads().len() + 2 && ({
                let rd = final(self).pins.data_bus.reads();
                busy_flag(assemble(rd[rd.len() - 2], rd[rd.len() - 1]))
            }),
            r matches WriteResult::Failed(e) ==> ({
                let w0 = old(self).pins.data_bus.writes();
                let b = char_byte(c);
                &&& (final(self).pins.data_bus.writes() == w0
                    || final(self).pins.data_bus.writes() == w0.push(low_nibble(b))
                    || final(self).pins.data_bus.writes() == w0.push(low_nibble(b)).push(
                    high_nibble(b),
                ))
                &&& (e is RegisterSelectionError ==> final(self).pins.data_bus.writes() == w0)
                &&& (e is ReadWriteError ==> final(self).pins.data_bus.writes() == w0)
                &&& (e is DataBusError ==> final(self).pins.data_bus.writes().len() <= w0.len()
                    + 1)
            }),
    {
        let code: u32 = c as u32;
        let b: u8 = (code % 256) as u8;
        let ghost w0 = self.pins.data_bus.writes();
        let mut tries: u32 = 0;
        loop
            invariant
                tries <= BUSY_RETRY_LIMIT,
                b == char_byte(c),
                w0 == old(self).pins.data_bus.writes(),
                self.pins.data_bus.writes() == w0,
                old(self).pins.data_bus.reads().len() <= self.pins.data_bus.reads().len(),
            decreases BUSY_RETRY_LIMIT - tries,
        {
            match self.write(Deliverable::Data(b)) {
                WriteResult::Done => {
                    proof {
                        assert(w0.is_prefix_of(self.pins.data_bus.writes()));
                    }
                    return WriteResult::Done;
                },
                WriteResult::NotReady => {
                    if tries == BUSY_RETRY_LIMIT {
                        return WriteResult::NotReady;
                    }
                    tries = tries + 1;
                },
                WriteResult::Failed(e) => {
                    proof {
                        assert(w0.is_prefix_of(self.pins.data_bus.writes()));
                    }
                    return WriteResult::Failed(e);
                },
            }
        }
    }

    /// Write every byte of `s` to the data register in order: each byte
    /// is retried while the controller reports busy, up to
    /// [`BUSY_RETRY_LIMIT`] polls, before the next byte is started.  On
    /// [`WriteResult::Done`] the bus has carried exactly the nibble
    /// stream of `s`, low nibble first for each byte.  A controller
    /// still busy after a whole retry budget surfaces as
    /// [`WriteResult::NotReady`]; a pin or bus failure aborts the
    /// stream at the byte it struck.
    pub fn write_str(&mut self, s: &str) -> (r: WriteResult<LcdError<RS, RW, E, DB>>)
        ensures
            old(self).pins.data_bus.writes().is_prefix_of(final(self).pins.data_bus.writes()),
            r is Done ==> final(self).pins.data_bus.writes() == old(self).pins.data_bus.writes()
                + nibble_stream(s.spec_bytes()),
            s.spec_bytes().len() == 0 ==> r is Done,
            r is NotReady ==> (exists|k: int|
                #[trigger] stream_progress(
                    old(self).pins.data_bus.writes(),
                    final(self).pins.data_bus.writes(),
                    s.spec_bytes(),
                    k,
                ) && final(self).pins.data_bus.writes() == old(self).pins.data_bus.writes()
                    + nibble_stream(s.spec_bytes().take(k))),
            r is NotReady ==> final(self).pins.data_bus.reads().len() >= old(
                self,
            ).pins.data_bus.reads().len() + 2 && ({
                let rd = final(self).pins.data_bus.reads();
                busy_flag(assemble(rd[rd.len() - 2], rd[rd.len() - 1]))
            }),
            r matches WriteResult::Failed(e) ==> exists|k: int|
                #[trigger] stream_progress(
                    old(self).pins.data_bus.writes(),
                    final(self).pins.data_bus.writes(),
                    s.spec_bytes(),
                    k,
                ),
    {
        let bytes: &[u8] = s.as_bytes();
        let ghost w0 = self.pins.data_bus.writes();
        let mut i: usize = 0;
        let mut tries: u32 = 0;
        while i < bytes.len()
            invariant
                i <= bytes@.len(),
                tries <= BUSY_RETRY_LIMIT,
                bytes@ == s.spec_bytes(),
                w0 == old(self).pins.data_bus.writes(),
                self.pins.data_bus.writes() =~= w0 + nibble_stream(bytes@.take(i as int)),
                old(self).pins.data_bus.reads().len() <= self.pins.data_bus.reads().len(),
            decreases bytes@.len() - i, BUSY_RETRY_LIMIT - tries,
        {
            let b = bytes[i];
            let ghost wpre = self.pins.data_bus.writes();
            match self.write(Deliverable::Data(b)) {
                WriteResult::Done => {
                    proof {
                        assert(bytes@.take(i + 1) =~= bytes@.take(i as int).push(bytes@[i as int]));
                        lemma_nibble_stream_push(bytes@.take(i as int), bytes@[i as int]);
                        assert(self.pins.data_bus.writes() =~= w0 + nibble_stream(
                            bytes@.take(i + 1),
                        ));
                    }
                    i = i + 1;
                    tries = 0;
                },
                WriteResult::NotReady => {
                    if tries == BUSY_RETRY_LIMIT {
                        proof {
                            assert(w0.is_prefix_of(self.pins.data_bus.writes()));
                            assert(self.pins.data_bus.writes() == w0 + nibble_stream(
                                bytes@.take(i as int),
                            ));
                            assert(stream_progress(
                                w0,
                                self.pins.data_bus.writes(),
                                s.spec_bytes(),
                                i as int,
                            ));
                        }
                        return WriteResult::NotReady;
                    }
                    tries = tries + 1;
                },
                WriteResult::Failed(e) => {
                    proof {
                        assert(w0.is_prefix_of(wpre));
                        lemma_prefix_transitive(w0, wpre, self.pins.data_bus.writes());
                        assert(wpre == w0 + nibble_stream(bytes@.take(i as int)));
                        assert(stream_progress(
                            w0,
                            self.pins.data_bus.writes(),
                            s.spec_bytes(),
                            i as int,
                        ));
                    }
                    return WriteResult::Failed(e);
                },
            }
        }
        proof {
            assert(bytes@.take(bytes@.len() as int) =~= bytes@);
            assert(w0.is_prefix_of(self.pins.data_bus.writes()));
        }
        WriteResult::Done
    }
}

/// How many consecutive busy polls the blocking stream adapter makes
/// for one byte before it reports the controller as not ready.
pub const BUSY_RETRY_LIMIT: u32 = 1000000;

/// A prefix of a prefix is a prefix.
pub proof fn lemma_prefix_transitive(a: Seq<u8>, b: Seq<u8>, c: Seq<u8>)
    requires
        a.is_prefix_of(b),
        b.is_prefix_of(c),
    ensures
        a.is_prefix_of(c),
{
    assert(a =~= c.subrange(0, a.len() as int));
}

} // verus!
