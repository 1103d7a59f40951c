//! Logic levels, nibble arithmetic and the decoded status register.
//!
//! The controller talks over four data lines; a byte travels as two
//! 4-bit transfers, low nibble first.  Everything here is the pure
//! arithmetic of that wire format: logic levels, nibble values, the
//! low-first assembly of a byte, and the busy/address decoding of the
//! status register.

use vstd::prelude::*;

verus! {

/// One of the two logic levels a digital line can hold.
#[derive(Debug, Clone, Copy, PartialEq, Eq, Structural)]
pub enum Level {
    Low,
    High,
}

/// The bit contributed by one data line: 1 when the line is high.
pub open spec fn bit_of(l: Level) -> u8 {
    match l {
        Level::Low => 0,
        Level::High => 1,
    }
}

/// The levels of the four data lines DB4..DB7, DB4 carrying the least
/// significant bit of the nibble on the wire.
#[derive(Debug, Clone, Copy, PartialEq, Eq, Structural)]
pub struct LineLevels {
    pub db4: Level,
    pub db5: Level,
    pub db6: Level,
    pub db7: Level,
}

impl LineLevels {
    /// The nibble value the four lines encode.
    pub open spec fn value(self) -> u8 {
        (bit_of(self.db4) + 2 * bit_of(self.db5) + 4 * bit_of(self.db6) + 8 * bit_of(
            self.db7,
        )) as u8
    }

    /// Drive pattern for a nibble value: bit i of `v` decides line DB(4+i).
    pub fn for_nibble(v: u8) -> (r: LineLevels)
        requires
            v < 16,
        ensures
            r.value() == v,
    {
        let r = LineLevels {
            db4: if v & 1 != 0 {
                Level::High
            } else {
                Level::Low
            },
            db5: if v & 2 != 0 {
                Level::High
            } else {
                Level::Low
            },
            db6: if v & 4 != 0 {
                Level::High
            } else {
                Level::Low
            },
            db7: if v & 8 != 0 {
                Level::High
            } else {
                Level::Low
            },
        };
        proof {
            let b0 = v & 1 != 0;
            let b1 = v & 2 != 0;
            let b2 = v & 4 != 0;
            let b3 = v & 8 != 0;
            assert((if b0 {
                1u8
            } else {
                0u8
            }) + 2 * (if b1 {
                1u8
            } else {
                0u8
            }) + 4 * (if b2 {
                1u8
            } else {
                0u8
            }) + 8 * (if b3 {
                1u8
            } else {
                0u8
            }) == v) by (bit_vector)
                requires
                    b0 == (v & 1 != 0),
                    b1 == (v & 2 != 0),
                    b2 == (v & 4 != 0),
                    b3 == (v & 8 != 0),
                    v < 16,
            ;
        }
        r
    }

    /// Read the nibble value back off the four lines.
    pub fn nibble(&self) -> (r: u8)
        ensures
            r == self.value(),
            r < 16,
    {
        let mut v: u8 = 0;
        if self.db4 == Level::High {
            v = v + 1;
        }
        if self.db5 == Level::High {
            v = v + 2;
        }
        if self.db6 == Level::High {
            v = v + 4;
        }
        if self.db7 == Level::High {
            v = v + 8;
        }
        v
    }
}

/// Bits 0..3 of a byte: the half that goes onto the wire first.
pub open spec fn low_nibble(b: u8) -> u8 {
    b & 0x0F
}

/// Bits 4..7 of a byte: the half that goes onto the wire second.
pub open spec fn high_nibble(b: u8) -> u8 {
    b >> 4
}

/// A byte reassembled from its two nibbles, low nibble in bits 0..3.
pub open spec fn assemble(lo: u8, hi: u8) -> u8
    recommends
        lo < 16,
        hi < 16,
{
    (lo + hi * 16) as u8
}

/// Splitting a byte into nibbles and reassembling them low-then-high
/// reproduces the byte exactly.
pub proof fn lemma_nibble_round_trip(b: u8)
    ensures
        low_nibble(b) < 16,
        high_nibble(b) < 16,
        assemble(low_nibble(b), high_nibble(b)) == b,
{
    assert(b & 0x0F < 16) by (bit_vector);
    assert(b >> 4 < 16) by (bit_vector);
    assert(((b & 0x0F) + (b >> 4) * 16) as u8 == b) by (bit_vector);
}

/// Assembling two nibbles and splitting the result gives the two
/// nibbles back.
pub proof fn lemma_assemble_split(lo: u8, hi: u8)
    requires
        lo < 16,
        hi < 16,
    ensures
        low_nibble(assemble(lo, hi)) == lo,
        high_nibble(assemble(lo, hi)) == hi,
{
    assert(((lo + hi * 16) as u8) & 0x0F == lo) by (bit_vector)
        requires
            lo < 16,
            hi < 16,
    ;
    assert(((lo + hi * 16) as u8) >> 4 == hi) by (bit_vector)
        requires
            lo < 16,
            hi < 16,
    ;
}

/// Split a byte into (low nibble, high nibble).
pub fn split_byte(b: u8) -> (r: (u8, u8))
    ensures
        r.0 == low_nibble(b),
        r.1 == high_nibble(b),
        r.0 < 16,
        r.1 < 16,
        assemble(r.0, r.1) == b,
{
    proof {
        lemma_nibble_round_trip(b);
    }
    (b & 0x0F, b >> 4)
}

/// Reassemble a byte from its two nibbles, low nibble first.
pub fn assemble_byte(lo: u8, hi: u8) -> (r: u8)
    requires
        lo < 16,
        hi < 16,
    ensures
        r == assemble(lo, hi),
{
    let r = lo | (hi << 4);
    proof {
        assert((lo | (hi << 4)) == (lo + hi * 16) as u8) by (bit_vector)
            requires
                lo < 16,
                hi < 16,
        ;
    }
    r
}

/// The nibble sequence a byte stream puts on the wire: for each byte
/// in order, its low nibble then its high nibble.
pub open spec fn nibble_stream(bytes: Seq<u8>) -> Seq<u8>
    decreases bytes.len(),
{
    if bytes.len() == 0 {
        Seq::empty()
    } else {
        seq![low_nibble(bytes[0]), high_nibble(bytes[0])] + nibble_stream(bytes.skip(1))
    }
}

/// Appending a byte to a stream appends its two nibbles, low first, to
/// the nibble sequence.
pub proof fn lemma_nibble_stream_push(bytes: Seq<u8>, b: u8)
    ensures
        nibble_stream(bytes.push(b)) =~= nibble_stream(bytes) + seq![low_nibble(b), high_nibble(b)],
    decreases bytes.len(),
{
    if bytes.len() == 0 {
        assert(bytes =~= Seq::<u8>::empty());
        assert(bytes.push(b)[0] == b);
        assert(bytes.push(b).skip(1) =~= bytes);
        assert(nibble_stream(bytes) =~= Seq::<u8>::empty());
    } else {
        assert(bytes.push(b)[0] == bytes[0]);
        assert(bytes.push(b).skip(1) =~= bytes.skip(1).push(b));
        lemma_nibble_stream_push(bytes.skip(1), b);
    }
}

/// Whether a raw status byte has the busy flag (bit 7) set.
pub open spec fn busy_flag(v: u8) -> bool {
    v >= 0x80
}

/// The 7-bit address counter held in bits 0..6 of a raw status byte.
pub open spec fn address_bits(v: u8) -> u8 {
    v & 0x7F
}

/// The status register of the controller, decoded from the raw byte
/// read over the bus: bit 7 is the busy flag, bits 0..6 the address
/// counter.
#[derive(Debug, Clone, Copy, PartialEq, Eq, Structural)]
pub struct State(pub u8);

impl State {
    /// True while the controller is still executing the previous
    /// command and cannot accept new input.
    pub fn busy(&self) -> (r: bool)
        ensures
            r == busy_flag(self.0),
            r == (self.0 >= 0x80),
    {
        let v = self.0;
        proof {
            assert(((v >> 7) > 0) == (v >= 0x80)) by (bit_vector);
        }
        (v >> 7) > 0
    }

    /// The current address counter.
    pub fn addr(&self) -> (r: u8)
        ensures
            r == address_bits(self.0),
            r == (self.0 & 0x7F),
    {
        self.0 & 0x7F
    }
}

/// A microsecond-granularity blocking sleep, supplied by the platform.
pub trait DelayMicros {
    /// Block the calling thread for at least `us` microseconds.
    fn delay_us(&mut self, us: u8);
}

} // verus!
