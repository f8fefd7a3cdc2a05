//! A bit-banging implementation of SPI on GPIO pins: one clock pulse and one
//! sample per written bit, most significant bit first, with simultaneous
//! read/write semantics per byte.

use vstd::prelude::*;
use crate::bits;
use crate::pin;
use crate::pin::{PinState, Output, Input, drive_post};

verus! {

/// A SPI device: one self-contained byte transfer at a time.
///
/// An implementor chooses a readiness condition `ready` that every transfer
/// assumes and preserves, and a relation `write_post` that says all that one
/// byte transfer promises about the value before, the value after, the byte
/// written and the byte read back.
pub trait Serial: Sized {
    /// The condition under which a transfer may run; established by the
    /// implementor's constructor and preserved by every transfer.
    spec fn ready(&self) -> bool;

    /// What one byte transfer promises.
    spec fn write_post(pre: Self, post: Self, data: u8, r: u8) -> bool;

    /// Simultaneously write and read one byte.
    ///
    /// No error is raised: once a transfer begins it always runs to
    /// completion, and data corruption due to timing is a physical-layer
    /// concern outside this contract.
    fn write(&mut self, data: u8) -> (r: u8)
        requires
            old(self).ready(),
        ensures
            final(self).ready(),
            Self::write_post(*old(self), *final(self), data, r),
    ;
}

/// Dummy SPI device.
pub struct DummySerial;

impl Serial for DummySerial {
    open spec fn ready(&self) -> bool {
        true
    }

    open spec fn write_post(pre: Self, post: Self, data: u8, r: u8) -> bool {
        post == pre && r == 0
    }

    /// Ignores input and always returns `0`.
    fn write(&mut self, data: u8) -> (r: u8) {
        0
    }
}

/// A bit-banging implementation of SPI on GPIO pins.
pub struct BitBangingSerial<SCK, MOSI, MISO> where SCK: Output, MOSI: Output, MISO: Input {
    pub sck: SCK,
    pub mosi: MOSI,
    pub miso: MISO,
}

impl<SCK, MOSI, MISO> BitBangingSerial<SCK, MOSI, MISO> where
    SCK: Output,
    MOSI: Output,
    MISO: Input,
 {
    /// All pins of the engine may be driven or sampled.
    pub open spec fn pins_ready(&self) -> bool {
        self.sck.drivable() && self.mosi.drivable() && self.miso.readable()
    }

    /// One bit cycle: the clock pulses low then high, the data-out pin is
    /// driven to `out`, and the data-in pin is sampled as `inb`, all within
    /// the same cycle.
    #[verifier::opaque]
    pub open spec fn cycle_post(pre: Self, post: Self, out: PinState, inb: PinState) -> bool {
        &&& (exists|mid: SCK| SCK::low_post(pre.sck, mid) && SCK::high_post(mid, post.sck))
        &&& drive_post(pre.mosi, post.mosi, out)
        &&& MISO::read_post(pre.miso, post.miso, inb)
    }

    /// A whole transfer of `outs.len()` bit cycles in order: the first cycle
    /// drives `outs[0]` and samples `ins[0]`, and each later cycle starts
    /// from the state the previous one left, including any side effect.
    #[verifier::opaque]
    pub open spec fn transfer_post(
        pre: Self,
        post: Self,
        outs: Seq<PinState>,
        ins: Seq<PinState>,
    ) -> bool
        decreases outs.len(),
    {
        if outs.len() == 0 {
            post == pre && ins.len() == 0
        } else {
            &&& ins.len() == outs.len()
            &&& exists|mid: Self|
                #[trigger] Self::cycle_post(pre, mid, outs[0], ins[0]) && Self::transfer_post(
                    mid,
                    post,
                    outs.drop_first(),
                    ins.drop_first(),
                )
        }
    }

    /// A transfer extends by one cycle at its end.
    proof fn lemma_transfer_snoc(
        pre: Self,
        mid: Self,
        post: Self,
        outs: Seq<PinState>,
        ins: Seq<PinState>,
        out: PinState,
        inb: PinState,
    )
        requires
            Self::transfer_post(pre, mid, outs, ins),
            Self::cycle_post(mid, post, out, inb),
        ensures
            Self::transfer_post(pre, post, outs.push(out), ins.push(inb)),
        decreases outs.len(),
    {
        reveal(BitBangingSerial::transfer_post);
        if outs.len() == 0 {
            assert(outs.push(out).drop_first() =~= Seq::<PinState>::empty());
            assert(ins.push(inb).drop_first() =~= Seq::<PinState>::empty());
            assert(Self::cycle_post(pre, post, outs.push(out)[0], ins.push(inb)[0]));
            assert(Self::transfer_post(
                post,
                post,
                outs.push(out).drop_first(),
                ins.push(inb).drop_first(),
            ));
        } else {
            let step = choose|m: Self|
                #[trigger] Self::cycle_post(pre, m, outs[0], ins[0]) && Self::transfer_post(
                    m,
                    mid,
                    outs.drop_first(),
                    ins.drop_first(),
                );
            Self::lemma_transfer_snoc(
                step,
                mid,
                post,
                outs.drop_first(),
                ins.drop_first(),
                out,
                inb,
            );
            assert(outs.push(out).drop_first() =~= outs.drop_first().push(out));
            assert(ins.push(inb).drop_first() =~= ins.drop_first().push(inb));
            assert(Self::cycle_post(pre, step, outs.push(out)[0], ins.push(inb)[0]));
        }
    }

    /// Creates a bit-banging SPI device using the given pins.
    ///
    /// * `mosi`: Master Out, Slave In
    /// * `miso`: Master In, Slave Out
    pub fn new(sck: SCK, mosi: MOSI, miso: MISO) -> (r: Self)
        ensures
            r.sck == sck,
            r.mosi == mosi,
            r.miso == miso,
    {
        BitBangingSerial { sck, mosi, miso }
    }

    /// One SPI bit cycle: drives the clock low, the data-out pin to the given
    /// bit, the clock back high, and samples the data-in pin.
    pub fn write_bit(&mut self, bit: bool) -> (r: PinState)
        requires
            old(self).pins_ready(),
        ensures
            final(self).pins_ready(),
            Self::cycle_post(*old(self), *final(self), pin::level_of_bool(bit), r),
    {
        self.sck.low();
        let ghost sck_mid = self.sck;
        self.mosi.write(PinState::from(bit));
        self.sck.high();
        let r = self.miso.read();
        proof {
            reveal(BitBangingSerial::cycle_post);
            assert(SCK::low_post(old(self).sck, sck_mid) && SCK::high_post(sck_mid, self.sck));
        }
        r
    }
}

impl<SCK, MOSI, MISO> Serial for BitBangingSerial<SCK, MOSI, MISO> where
    SCK: Output,
    MOSI: Output,
    MISO: Input,
 {
    open spec fn ready(&self) -> bool {
        self.pins_ready()
    }

    /// Eight bit cycles, most significant bit first: each output bit of
    /// `data` is driven and one input bit is sampled in the same cycle, and
    /// the sampled bits, most significant first, recompose into `r`.
    open spec fn write_post(pre: Self, post: Self, data: u8, r: u8) -> bool {
        exists|ins: Seq<PinState>|
            #[trigger] Self::transfer_post(pre, post, bits::bits_msb(data), ins) && r
                == bits::byte_of_msb(ins)
    }

    #[verifier::rlimit(100)]
    fn write(&mut self, data: u8) -> (r: u8) {
        let ghost s0 = *self;
        let ghost mut outs: Seq<PinState> = Seq::empty();
        let ghost mut ins: Seq<PinState> = Seq::empty();
        proof {
            assert(Self::transfer_post(s0, s0, outs, ins)) by {
                reveal(BitBangingSerial::transfer_post);
            }
        }

        let b7 = self.write_bit((data & 0b1000_0000) != 0);
        proof {
            let ghost prev = *self;
            Self::lemma_transfer_snoc(
                s0,
                s0,
                *self,
                outs,
                ins,
                pin::level_of_bool((data & 0b1000_0000) != 0),
                b7,
            );
            outs = outs.push(pin::level_of_bool((data & 0b1000_0000) != 0));
            ins = ins.push(b7);
        }
        let ghost s1 = *self;

        let b6 = self.write_bit((data & 0b0100_0000) != 0);
        proof {
            Self::lemma_transfer_snoc(
                s0,
                s1,
                *self,
                outs,
                ins,
                pin::level_of_bool((data & 0b0100_0000) != 0),
                b6,
            );
            outs = outs.push(pin::level_of_bool((data & 0b0100_0000) != 0));
            ins = ins.push(b6);
        }
        let ghost s2 = *self;

        let b5 = self.write_bit((data & 0b0010_0000) != 0);
        proof {
            Self::lemma_transfer_snoc(
                s0,
                s2,
                *self,
                outs,
                ins,
                pin::level_of_bool((data & 0b0010_0000) != 0),
                b5,
            );
            outs = outs.push(pin::level_of_bool((data & 0b0010_0000) != 0));
            ins = ins.push(b5);
        }
        let ghost s3 = *self;

        let b4 = self.write_bit((data & 0b0001_0000) != 0);
        proof {
            Self::lemma_transfer_snoc(
                s0,
                s3,
                *self,
                outs,
                ins,
                pin::level_of_bool((data & 0b0001_0000) != 0),
                b4,
            );
            outs = outs.push(pin::level_of_bool((data & 0b0001_0000) != 0));
            ins = ins.push(b4);
        }
        let ghost s4 = *self;

        let b3 = self.write_bit((data & 0b0000_1000) != 0);
        proof {
            Self::lemma_transfer_snoc(
                s0,
                s4,
                *self,
                outs,
                ins,
                pin::level_of_bool((data & 0b0000_1000) != 0),
                b3,
            );
            outs = outs.push(pin::level_of_bool((data & 0b0000_1000) != 0));
            ins = ins.push(b3);
        }
        let ghost s5 = *self;

        let b2 = self.write_bit((data & 0b0000_0100) != 0);
        proof {
            Self::lemma_transfer_snoc(
                s0,
                s5,
                *self,
                outs,
                ins,
                pin::level_of_bool((data & 0b0000_0100) != 0),
                b2,
            );
            outs = outs.push(pin::level_of_bool((data & 0b0000_0100) != 0));
            ins = ins.push(b2);
        }
        let ghost s6 = *self;

        let b1 = self.write_bit((data & 0b0000_0010) != 0);
        proof {
            Self::lemma_transfer_snoc(
                s0,
                s6,
                *self,
                outs,
                ins,
                pin::level_of_bool((data & 0b0000_0010) != 0),
                b1,
            );
            outs = outs.push(pin::level_of_bool((data & 0b0000_0010) != 0));
            ins = ins.push(b1);
        }
        let ghost s7 = *self;

        let b0 = self.write_bit((data & 0b0000_0001) != 0);
        proof {
            Self::lemma_transfer_snoc(
                s0,
                s7,
                *self,
                outs,
                ins,
                pin::level_of_bool((data & 0b0000_0001) != 0),
                b0,
            );
            outs = outs.push(pin::level_of_bool((data & 0b0000_0001) != 0));
            ins = ins.push(b0);
        }

        let result = (b7.bit() << 7) | (b6.bit() << 6) | (b5.bit() << 5) | (b4.bit() << 4) | (
        b3.bit() << 3) | (b2.bit() << 2) | (b1.bit() << 1) | b0.bit();

        proof {
            bits::lemma_bits_msb_levels(data);
            assert(outs == bits::bits_msb(data));
            bits::lemma_byte_of_msb_levels(b7, b6, b5, b4, b3, b2, b1, b0);
            assert(result == bits::byte_of_msb(ins));
            assert(Self::transfer_post(s0, *self, bits::bits_msb(data), ins));
        }
        result
    }
}

/// Brackets every byte transfer of an inner serial engine with a
/// slave-select line: the line is driven low once at the start of the full
/// byte transfer and high once at the end, so the select signal is asserted
/// for the duration of exactly one byte.
pub struct SelectSerial<S, SS> where S: Serial, SS: Output {
    pub serial: S,
    pub ss: SS,
}

impl<S: Serial, SS: Output> SelectSerial<S, SS> {
    /// Creates a serial engine whose byte transfers are bracketed by the
    /// given slave-select line.
    pub fn new(serial: S, ss: SS) -> (r: Self)
        ensures
            r.serial == serial,
            r.ss == ss,
    {
        SelectSerial { serial, ss }
    }
}

impl<S: Serial, SS: Output> Serial for SelectSerial<S, SS> {
    open spec fn ready(&self) -> bool {
        self.serial.ready() && self.ss.drivable()
    }

    /// The select line is driven low exactly once, the whole inner byte
    /// transfer runs, then the line is driven high exactly once.
    open spec fn write_post(pre: Self, post: Self, data: u8, r: u8) -> bool {
        &&& (exists|mid: SS| SS::low_post(pre.ss, mid) && SS::high_post(mid, post.ss))
        &&& S::write_post(pre.serial, post.serial, data, r)
    }

    fn write(&mut self, data: u8) -> (r: u8) {
        self.ss.low();
        let ghost ss_mid = self.ss;
        let r = self.serial.write(data);
        self.ss.high();
        proof {
            assert(SS::low_post(old(self).ss, ss_mid) && SS::high_post(ss_mid, self.ss));
        }
        r
    }
}

/// SPI select bracketing: one byte transfer of an engine with a select line
/// drives the select line low exactly once, before the inner eight-cycle
/// transfer, and high exactly once, after it — never shorter or longer than
/// one byte.
pub proof fn lemma_select_bracketing<S: Serial, SS: Output>(
    pre: SelectSerial<S, SS>,
    post: SelectSerial<S, SS>,
    data: u8,
    r: u8,
)
    requires
        SelectSerial::<S, SS>::write_post(pre, post, data, r),
    ensures
        exists|mid: SS| SS::low_post(pre.ss, mid) && SS::high_post(mid, post.ss),
        S::write_post(pre.serial, post.serial, data, r),
{
}

/// SPI full-duplex fidelity: when the engine is wired so that data-out loops
/// directly back to data-in — every cycle samples exactly the level it drove,
/// so the sampled bits equal the driven bits — a transfer returns the very
/// byte it wrote, for every byte.
pub proof fn lemma_loopback_fidelity<SCK: Output, MOSI: Output, MISO: Input>(
    pre: BitBangingSerial<SCK, MOSI, MISO>,
    post: BitBangingSerial<SCK, MOSI, MISO>,
    data: u8,
    r: u8,
    ins: Seq<PinState>,
)
    requires
        BitBangingSerial::<SCK, MOSI, MISO>::transfer_post(pre, post, bits::bits_msb(data), ins),
        ins == bits::bits_msb(data),
        r == bits::byte_of_msb(ins),
    ensures
        r == data,
{
    bits::lemma_msb_round_trip(data);
}

} // verus!
