//! 1-Wire Dallas protocol: a bit-banging master on a single shared line,
//! with a reset/presence handshake and timing-encoded bit read/write cycles.
//!
//! Every delay is delegated to an injected timing source: the engine never
//! busy-waits itself, and correctness of the protocol on a real bus depends
//! on that collaborator honouring the durations it is handed.

use vstd::prelude::*;
use crate::pin::{PinState, Output, Input, bidirectional};

verus! {

/// Duration, in microseconds, of the short timing class.
pub const DELAY_SHORT_US: u32 = 10;

/// Duration, in microseconds, of the medium timing class.
pub const DELAY_MID_US: u32 = 30;

/// Duration, in microseconds, of the long timing class.
pub const DELAY_LONG_US: u32 = 60;

/// Duration, in microseconds, of the reset window.
pub const DELAY_RESET_US: u32 = 500;

/// A timing source: blocks for at least the duration it is handed, in
/// microseconds. How the wait is realised — blocking, spinning, deferring to
/// a scheduler — is entirely the implementor's concern and invisible here.
pub trait Delay: Sized {
    /// The condition under which the source may be queried; established by
    /// the implementor's constructor and preserved by every wait.
    spec fn can_delay(&self) -> bool;

    /// What one wait promises: how the value after relates to the value
    /// before and the duration handed over.
    spec fn delay_post(pre: Self, post: Self, us: u32) -> bool;

    /// Waits for at least `us` microseconds.
    fn delay_us(&mut self, us: u32)
        requires
            old(self).can_delay(),
        ensures
            final(self).can_delay(),
            Self::delay_post(*old(self), *final(self), us),
    ;
}

/// Adapts a callable into a timing source.
pub struct DelayFn<F>(pub F) where F: Fn(u32);

impl<F: Fn(u32)> Delay for DelayFn<F> {
    open spec fn can_delay(&self) -> bool {
        forall|us: u32| call_requires(self.0, (us,))
    }

    open spec fn delay_post(pre: Self, post: Self, us: u32) -> bool {
        post.0 == pre.0 && call_ensures(pre.0, (us,), ())
    }

    fn delay_us(&mut self, us: u32) {
        (self.0)(us);
    }
}

/// The duration class that encodes a written bit: the line is held low for
/// the short class to write a `Low`, for the long class to write a `High`.
/// This asymmetric timing-as-data encoding is the defining trick of the
/// protocol.
pub open spec fn write_bit_delay(bit: PinState) -> u32 {
    match bit {
        PinState::Low => DELAY_SHORT_US,
        PinState::High => DELAY_LONG_US,
    }
}

/// A 1-Wire bus master.
///
/// An implementor chooses a readiness condition `ready` that every operation
/// assumes and preserves, and one relation per operation that says all the
/// operation promises about the value before, the value after, and what came
/// back from the bus.
pub trait Master: Sized {
    /// The condition under which the bus may be driven; established by the
    /// implementor's constructor and preserved by every operation.
    spec fn ready(&self) -> bool;

    /// What one reset pulse promises.
    spec fn reset_post(pre: Self, post: Self, present: bool) -> bool;

    /// What writing one bit promises.
    spec fn write_bit_post(pre: Self, post: Self, bit: PinState) -> bool;

    /// What reading one bit promises.
    spec fn read_bit_post(pre: Self, post: Self, r: PinState) -> bool;

    /// Issues a reset pulse and samples for a presence pulse.
    ///
    /// Returns `true` iff a device pulled the line low in response. `false`
    /// signals "no device present": a normal, expected outcome, not an
    /// error, and no retry is built into the engine.
    fn reset(&mut self) -> (present: bool)
        requires
            old(self).ready(),
        ensures
            final(self).ready(),
            Self::reset_post(*old(self), *final(self), present),
    ;

    /// Writes one bit, encoding its value in how long the line is held low.
    fn write_bit(&mut self, bit: PinState)
        requires
            old(self).ready(),
        ensures
            final(self).ready(),
            Self::write_bit_post(*old(self), *final(self), bit),
    ;

    /// Reads one bit: pulls the line low briefly, releases it, waits a short
    /// window, then samples the line.
    fn read_bit(&mut self) -> (r: PinState)
        requires
            old(self).ready(),
        ensures
            final(self).ready(),
            Self::read_bit_post(*old(self), *final(self), r),
    ;
}

/// A bit-banging 1-Wire master on one bidirectional pin, with every delay
/// delegated to an injected timing source.
pub struct BitBanging<W, D> where W: Output + Input, D: Delay {
    pub w: W,
    pub sleep: D,
}

/// Context for device enumeration (search) on a shared bus, holding the last
/// discovered identifier between rounds.
///
/// The collision-resolution algorithm that walks the bus bit-by-bit is an
/// explicitly unimplemented extension point: only the search command and
/// this context are named here.
pub struct Enumeration {
    pub last_id: u8,
}

/// A named 1-Wire bus command.
pub enum Command {
    Search,
}

impl Command {
    /// The command's code byte on the bus.
    pub fn code(&self) -> (r: u8)
        ensures
            r == 0xF0u8,
    {
        match *self {
            Command::Search => 0xF0,
        }
    }
}

impl<W, D> BitBanging<W, D> where W: Output + Input, D: Delay {
    /// Creates a bit-banging 1-Wire master from the given line and timing
    /// source.
    pub fn new(w: W, sleep: D) -> (r: Self)
        ensures
            r.w == w,
            r.sleep == sleep,
    {
        BitBanging { w, sleep }
    }

    /// The line may be driven and sampled, stays so through drives and
    /// samples, and the timing source may be queried.
    pub open spec fn bus_ready(&self) -> bool {
        &&& self.w.drivable()
        &&& self.w.readable()
        &&& bidirectional::<W>()
        &&& self.sleep.can_delay()
    }
}

impl<W, D> Master for BitBanging<W, D> where W: Output + Input, D: Delay {
    open spec fn ready(&self) -> bool {
        self.bus_ready()
    }

    /// The line is pulled low for the reset window, released high, the
    /// response window passes, and the line is sampled: presence is reported
    /// iff the sample is `Low`.
    open spec fn reset_post(pre: Self, post: Self, present: bool) -> bool {
        exists|w1: W, w2: W, d1: D, lvl: PinState|
            {
                &&& #[trigger] W::low_post(pre.w, w1)
                &&& #[trigger] D::delay_post(pre.sleep, d1, DELAY_RESET_US)
                &&& #[trigger] W::high_post(w1, w2)
                &&& D::delay_post(d1, post.sleep, DELAY_MID_US)
                &&& #[trigger] W::read_post(w2, post.w, lvl)
                &&& present == (lvl is Low)
            }
    }

    /// The line is pulled low, held low for the duration class encoding the
    /// bit, then released high.
    open spec fn write_bit_post(pre: Self, post: Self, bit: PinState) -> bool {
        exists|w1: W|
            {
                &&& #[trigger] W::low_post(pre.w, w1)
                &&& D::delay_post(pre.sleep, post.sleep, write_bit_delay(bit))
                &&& W::high_post(w1, post.w)
            }
    }

    /// The line is pulled low briefly, released high, a short window passes,
    /// and the line is sampled as the received bit.
    open spec fn read_bit_post(pre: Self, post: Self, r: PinState) -> bool {
        exists|w1: W, w2: W, d1: D|
            {
                &&& #[trigger] W::low_post(pre.w, w1)
                &&& #[trigger] D::delay_post(pre.sleep, d1, DELAY_SHORT_US)
                &&& #[trigger] W::high_post(w1, w2)
                &&& D::delay_post(d1, post.sleep, DELAY_MID_US)
                &&& W::read_post(w2, post.w, r)
            }
    }

    fn reset(&mut self) -> (present: bool) {
        self.w.low();
        let ghost w1 = self.w;
        self.sleep.delay_us(DELAY_RESET_US);
        let ghost d1 = self.sleep;
        self.w.high();
        let ghost w2 = self.w;
        self.sleep.delay_us(DELAY_MID_US);
        let lvl = self.w.read();
        let present = lvl.is_low();
        proof {
            assert(W::low_post(old(self).w, w1) && W::high_post(w1, w2) && W::read_post(
                w2,
                self.w,
                lvl,
            ));
        }
        present
    }

    fn write_bit(&mut self, bit: PinState) {
        self.w.low();
        let ghost w1 = self.w;
        self.sleep.delay_us(
            match bit {
                PinState::Low => DELAY_SHORT_US,
                PinState::High => DELAY_LONG_US,
            },
        );
        self.w.high();
        proof {
            assert(W::low_post(old(self).w, w1) && W::high_post(w1, self.w));
        }
    }

    fn read_bit(&mut self) -> (r: PinState) {
        self.w.low();
        let ghost w1 = self.w;
        self.sleep.delay_us(DELAY_SHORT_US);
        let ghost d1 = self.sleep;
        self.w.high();
        let ghost w2 = self.w;
        self.sleep.delay_us(DELAY_MID_US);
        let r = self.w.read();
        proof {
            assert(W::low_post(old(self).w, w1) && W::high_post(w1, w2) && W::read_post(
                w2,
                self.w,
                r,
            ));
        }
        r
    }
}

/// 1-Wire reset presence detection, positive half: when every sample of the
/// line during the response window reports `Low` — a device pulling the line
/// down — a reset reports presence.
pub proof fn lemma_reset_presence<W: Output + Input, D: Delay>(
    pre: BitBanging<W, D>,
    post: BitBanging<W, D>,
    present: bool,
)
    requires
        BitBanging::<W, D>::reset_post(pre, post, present),
        forall|w0: W, w1: W, lvl: PinState| #[trigger] W::read_post(w0, w1, lvl) ==> lvl is Low,
    ensures
        present,
{
}

/// 1-Wire reset presence detection, negative half: when every sample of the
/// line during the response window reports `High` — an idle, pulled-up line —
/// a reset reports absence.
pub proof fn lemma_reset_absence<W: Output + Input, D: Delay>(
    pre: BitBanging<W, D>,
    post: BitBanging<W, D>,
    present: bool,
)
    requires
        BitBanging::<W, D>::reset_post(pre, post, present),
        forall|w0: W, w1: W, lvl: PinState| #[trigger] W::read_post(w0, w1, lvl) ==> lvl is High,
    ensures
        !present,
{
}

/// 1-Wire bit write timing distinction: writing `High` and writing `Low`
/// hand the timing source two different duration classes.
pub proof fn lemma_write_bit_timing()
    ensures
        write_bit_delay(PinState::High) != write_bit_delay(PinState::Low),
        write_bit_delay(PinState::High) == DELAY_LONG_US,
        write_bit_delay(PinState::Low) == DELAY_SHORT_US,
{
}

} // verus!
