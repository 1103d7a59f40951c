//! In-memory implementations of the pin, bus and delay capabilities.
//!
//! A [`SimPin`] records every level driven onto it and can be told to
//! fail at a chosen attempt; a [`SimBus`] records every nibble written
//! and serves reads from a prepared script; a [`SimDelay`] counts the
//! microseconds requested.  They let the protocol engine run, and be
//! observed, without hardware.

use vstd::prelude::*;

verus! {

use crate::utils::{Level, LineLevels, DelayMicros};
use crate::{OutputPin, DataBus};

/// The failure value of the simulated capabilities.
#[derive(Debug, Clone, Copy, PartialEq, Eq, Structural)]
pub struct SimFault;

/// A recording output pin.  Each successful drive is appended to
/// `log`; the attempt with index `fail_at` (counting every drive
/// attempt from zero) fails instead and drives nothing.
pub struct SimPin {
    pub log: Vec<Level>,
    pub fail_at: Option<usize>,
    pub attempts: usize,
}

impl SimPin {
    /// A pin that never fails, with an empty log.
    pub fn new() -> (r: SimPin)
        ensures
            r.log@ == Seq::<Level>::empty(),
            r.attempts == 0,
            r.fail_at is None,
    {
        SimPin { log: Vec::new(), fail_at: None, attempts: 0 }
    }

    /// A pin whose drive attempt number `n` (from zero) fails.
    pub fn failing_at(n: usize) -> (r: SimPin)
        ensures
            r.log@ == Seq::<Level>::empty(),
            r.attempts == 0,
            r.fail_at == Some(n),
    {
        SimPin { log: Vec::new(), fail_at: Some(n), attempts: 0 }
    }

    fn drive(&mut self, l: Level) -> (r: Result<(), SimFault>)
        ensures
            r is Ok ==> final(self).log@ == old(self).log@.push(l),
            r is Err ==> final(self).log@ == old(self).log@,
    {
        let fail = match self.fail_at {
            Some(n) => n == self.attempts,
            None => false,
        };
        if self.attempts < usize::MAX {
            self.attempts = self.attempts + 1;
        }
        if fail {
            Err(SimFault)
        } else {
            self.log.push(l);
            Ok(())
        }
    }
}

impl OutputPin for SimPin {
    type Error = SimFault;

    open spec fn history(&self) -> Seq<Level> {
        self.log@
    }

    fn set_high(&mut self) -> (r: Result<(), SimFault>) {
        self.drive(Level::High)
    }

    fn set_low(&mut self) -> (r: Result<(), SimFault>) {
        self.drive(Level::Low)
    }
}

/// A recording data bus.  Every nibble successfully written lands in
/// `written`; reads serve the low nibbles of `script` in order and fail
/// once the script is exhausted.
pub struct SimBus {
    pub written: Vec<u8>,
    pub script: Vec<u8>,
    pub served: usize,
}

impl SimBus {
    /// The nibble a script entry serves.
    pub open spec fn masked(v: u8) -> u8 {
        v & 0x0F
    }

    /// A bus whose reads will serve the low nibbles of `script`.
    pub fn new(script: Vec<u8>) -> (r: SimBus)
        ensures
            r.written@ == Seq::<u8>::empty(),
            r.script@ == script@,
            r.served == 0,
    {
        SimBus { written: Vec::new(), script, served: 0 }
    }
}

impl DataBus for SimBus {
    type Error = SimFault;

    open spec fn writes(&self) -> Seq<u8> {
        self.written@
    }

    open spec fn reads(&self) -> Seq<u8> {
        self.script@.take(self.served as int).map(|i: int, v: u8| SimBus::masked(v))
    }

    fn write_pins_now(&mut self, levels: LineLevels) -> (r: Result<(), SimFault>) {
        self.written.push(levels.nibble());
        Ok(())
    }

    fn read_pins_now(&mut self) -> (r: Result<LineLevels, SimFault>) {
        if self.served < self.script.len() {
            let raw = self.script[self.served];
            let v = raw & 0x0F;
            proof {
                assert(raw & 0x0F < 16) by (bit_vector);
            }
            let l = LineLevels::for_nibble(v);
            self.served = self.served + 1;
            proof {
                assert(self.reads() =~= old(self).reads().push(l.value()));
            }
            Ok(l)
        } else {
            Err(SimFault)
        }
    }
}

/// A delay source that only counts: `slept` accumulates the
/// microseconds requested (saturating).
pub struct SimDelay {
    pub slept: u64,
}

impl SimDelay {
    /// A delay source with nothing counted yet.
    pub fn new() -> (r: SimDelay)
        ensures
            r.slept == 0,
    {
        SimDelay { slept: 0 }
    }
}

impl DelayMicros for SimDelay {
    fn delay_us(&mut self, us: u8) {
        if self.slept <= u64::MAX - us as u64 {
            self.slept = self.slept + us as u64;
        } else {
            self.slept = u64::MAX;
        }
    }
}

} // verus!
