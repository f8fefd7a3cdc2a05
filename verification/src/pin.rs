//! The pin-capability model: logical levels, the output and input
//! capabilities a digital line must satisfy, and composable wrappers
//! (inversion, function-backed adapters, constant sources).

use vstd::prelude::*;

verus! {

/// Possible state for a pin: one of the two logical levels.
#[derive(Clone, Copy, PartialEq, Eq, Structural, Debug)]
pub enum PinState {
    Low,
    High,
}

impl PinState {
    /// The complementary level.
    pub open spec fn flip(self) -> PinState {
        match self {
            PinState::Low => PinState::High,
            PinState::High => PinState::Low,
        }
    }

    /// The bit a level stands for: `1` for `High`, `0` for `Low`.
    pub open spec fn as_bit(self) -> u8 {
        match self {
            PinState::Low => 0,
            PinState::High => 1,
        }
    }

    pub fn is_high(&self) -> (r: bool)
        ensures
            r == (*self is High),
    {
        match *self {
            PinState::High => true,
            PinState::Low => false,
        }
    }

    pub fn is_low(&self) -> (r: bool)
        ensures
            r == (*self is Low),
    {
        match *self {
            PinState::High => false,
            PinState::Low => true,
        }
    }

    pub fn not(&self) -> (r: PinState)
        ensures
            r == self.flip(),
    {
        match *self {
            PinState::High => PinState::Low,
            PinState::Low => PinState::High,
        }
    }

    /// The bit a level stands for, as a value: `1` for `High`, `0` for `Low`.
    pub fn bit(&self) -> (r: u8)
        ensures
            r == self.as_bit(),
    {
        match *self {
            PinState::High => 1,
            PinState::Low => 0,
        }
    }
}

/// The level a byte stands for: `Low` for `0`, `High` for anything else.
pub open spec fn level_of_byte(bit: u8) -> PinState {
    if bit != 0 {
        PinState::High
    } else {
        PinState::Low
    }
}

/// The level a boolean stands for: `High` for `true`, `Low` for `false`.
pub open spec fn level_of_bool(bit: bool) -> PinState {
    if bit {
        PinState::High
    } else {
        PinState::Low
    }
}

impl From<u8> for PinState {
    fn from(bit: u8) -> (r: PinState) {
        if bit != 0 {
            PinState::High
        } else {
            PinState::Low
        }
    }
}

impl vstd::std_specs::convert::FromSpecImpl<u8> for PinState {
    open spec fn obeys_from_spec() -> bool {
        true
    }

    open spec fn from_spec(bit: u8) -> PinState {
        level_of_byte(bit)
    }
}

impl From<bool> for PinState {
    fn from(bit: bool) -> (r: PinState) {
        if bit {
            PinState::High
        } else {
            PinState::Low
        }
    }
}

impl vstd::std_specs::convert::FromSpecImpl<bool> for PinState {
    open spec fn obeys_from_spec() -> bool {
        true
    }

    open spec fn from_spec(bit: bool) -> PinState {
        level_of_bool(bit)
    }
}

/// Flipping a level twice gives the level back.
pub proof fn lemma_flip_involution(s: PinState)
    ensures
        s.flip().flip() == s,
{
}

/// An output GPIO pin: something that can be driven to `High` or `Low`.
///
/// An implementor chooses a well-formedness condition `drivable` that every
/// drive assumes and preserves, and two relations `high_post` / `low_post`
/// that say all that its `high` / `low` promise to do to the value. Driving
/// is assumed infallible at this abstraction layer; the underlying electrical
/// state is owned by whatever implements the capability.
pub trait Output: Sized {
    /// The condition under which the pin may be driven; established by the
    /// implementor's constructor and preserved by every drive.
    spec fn drivable(&self) -> bool;

    /// What `high` promises: how the value after the drive relates to the
    /// value before it.
    spec fn high_post(pre: Self, post: Self) -> bool;

    /// What `low` promises.
    spec fn low_post(pre: Self, post: Self) -> bool;

    /// Unconditionally drive the pin high.
    fn high(&mut self)
        requires
            old(self).drivable(),
        ensures
            final(self).drivable(),
            Self::high_post(*old(self), *final(self)),
    ;

    /// Unconditionally drive the pin low.
    fn low(&mut self)
        requires
            old(self).drivable(),
        ensures
            final(self).drivable(),
            Self::low_post(*old(self), *final(self)),
    ;

    /// Drive the pin to the given level.
    ///
    /// A convenience operation derived purely from `high` and `low`: any
    /// implementor of those two primitives gets `write` for free.
    fn write(&mut self, bit: PinState)
        requires
            old(self).drivable(),
        ensures
            final(self).drivable(),
            bit is High ==> Self::high_post(*old(self), *final(self)),
            bit is Low ==> Self::low_post(*old(self), *final(self)),
    {
        if bit.is_high() {
            self.high();
        } else {
            self.low();
        }
    }
}

/// What driving a pin to a given level promises: the pin's `high_post` when
/// the level is `High`, its `low_post` when the level is `Low`.
pub open spec fn drive_post<O: Output>(pre: O, post: O, bit: PinState) -> bool {
    match bit {
        PinState::High => O::high_post(pre, post),
        PinState::Low => O::low_post(pre, post),
    }
}

/// An input GPIO pin: something that can be sampled to yield a current
/// logical level.
///
/// Sampling is a side-effecting read that may reflect external,
/// asynchronously changing state; it is not cached. The relation `read_post`
/// says all that a sample promises about the value before, the value after,
/// and the level returned.
pub trait Input: Sized {
    /// The condition under which the pin may be sampled; established by the
    /// implementor's constructor and preserved by every sample.
    spec fn readable(&self) -> bool;

    /// What `read` promises: how the sampled level and the value after the
    /// sample relate to the value before it.
    spec fn read_post(pre: Self, post: Self, r: PinState) -> bool;

    /// Sample and return the current logical level.
    fn read(&mut self) -> (r: PinState)
        requires
            old(self).readable(),
        ensures
            final(self).readable(),
            Self::read_post(*old(self), *final(self), r),
    ;
}

/// Inverts every input or output crossing into the wrapped pin.
pub struct Not<P>(pub P);

impl<O: Output> Output for Not<O> {
    open spec fn drivable(&self) -> bool {
        self.0.drivable()
    }

    open spec fn high_post(pre: Self, post: Self) -> bool {
        O::low_post(pre.0, post.0)
    }

    open spec fn low_post(pre: Self, post: Self) -> bool {
        O::high_post(pre.0, post.0)
    }

    fn high(&mut self) {
        self.0.low();
    }

    fn low(&mut self) {
        self.0.high();
    }
}

impl<I: Input> Input for Not<I> {
    open spec fn readable(&self) -> bool {
        self.0.readable()
    }

    open spec fn read_post(pre: Self, post: Self, r: PinState) -> bool {
        I::read_post(pre.0, post.0, r.flip())
    }

    fn read(&mut self) -> (r: PinState) {
        self.0.read().not()
    }
}

/// Uses an inner callable to read.
pub struct InputFn<F>(pub F) where F: Fn() -> PinState;

/// Uses an inner callable to write the state.
pub struct OutputFn<F>(pub F) where F: Fn(PinState);

impl<F: Fn() -> PinState> Input for InputFn<F> {
    open spec fn readable(&self) -> bool {
        call_requires(self.0, ())
    }

    open spec fn read_post(pre: Self, post: Self, r: PinState) -> bool {
        post.0 == pre.0 && call_ensures(pre.0, (), r)
    }

    fn read(&mut self) -> (r: PinState) {
        (self.0)()
    }
}

impl<F: Fn(PinState)> Output for OutputFn<F> {
    open spec fn drivable(&self) -> bool {
        forall|bit: PinState| call_requires(self.0, (bit,))
    }

    open spec fn high_post(pre: Self, post: Self) -> bool {
        post.0 == pre.0 && call_ensures(pre.0, (PinState::High,), ())
    }

    open spec fn low_post(pre: Self, post: Self) -> bool {
        post.0 == pre.0 && call_ensures(pre.0, (PinState::Low,), ())
    }

    fn high(&mut self) {
        (self.0)(PinState::High);
    }

    fn low(&mut self) {
        (self.0)(PinState::Low);
    }
}

/// A pin that stores the level last driven: the simplest model of an output.
impl Output for PinState {
    open spec fn drivable(&self) -> bool {
        true
    }

    open spec fn high_post(pre: Self, post: Self) -> bool {
        post is High
    }

    open spec fn low_post(pre: Self, post: Self) -> bool {
        post is Low
    }

    fn high(&mut self) {
        *self = PinState::High;
    }

    fn low(&mut self) {
        *self = PinState::Low;
    }
}

/// A boolean as an output pin: `true` stands for `High`.
impl Output for bool {
    open spec fn drivable(&self) -> bool {
        true
    }

    open spec fn high_post(pre: Self, post: Self) -> bool {
        post == true
    }

    open spec fn low_post(pre: Self, post: Self) -> bool {
        post == false
    }

    fn high(&mut self) {
        *self = true;
    }

    fn low(&mut self) {
        *self = false;
    }
}

/// Dummy pin, discarding every drive and reading `Low`.
pub struct Dummy;

/// A constant input that always reads `High`.
pub struct HighPin;

/// A constant input that always reads `Low`.
pub struct LowPin;

impl Output for Dummy {
    open spec fn drivable(&self) -> bool {
        true
    }

    open spec fn high_post(pre: Self, post: Self) -> bool {
        post == pre
    }

    open spec fn low_post(pre: Self, post: Self) -> bool {
        post == pre
    }

    fn high(&mut self) {
    }

    fn low(&mut self) {
    }
}

impl Input for Dummy {
    open spec fn readable(&self) -> bool {
        true
    }

    open spec fn read_post(pre: Self, post: Self, r: PinState) -> bool {
        post == pre && r is Low
    }

    /// Always returns `Low`.
    fn read(&mut self) -> (r: PinState) {
        PinState::Low
    }
}

impl Input for HighPin {
    open spec fn readable(&self) -> bool {
        true
    }

    open spec fn read_post(pre: Self, post: Self, r: PinState) -> bool {
        post == pre && r is High
    }

    fn read(&mut self) -> (r: PinState) {
        PinState::High
    }
}

impl Input for LowPin {
    open spec fn readable(&self) -> bool {
        true
    }

    open spec fn read_post(pre: Self, post: Self, r: PinState) -> bool {
        post == pre && r is Low
    }

    fn read(&mut self) -> (r: PinState) {
        PinState::Low
    }
}

/// A well-behaved bidirectional line: a type that is both an output and an
/// input capability, whose drives keep it sampleable and whose samples keep
/// it drivable.
pub open spec fn bidirectional<W: Output + Input>() -> bool {
    &&& forall|a: W, b: W| #[trigger] W::high_post(a, b) && a.readable() ==> b.readable()
    &&& forall|a: W, b: W| #[trigger] W::low_post(a, b) && a.readable() ==> b.readable()
    &&& forall|a: W, b: W, lvl: PinState|
        #[trigger] W::read_post(a, b, lvl) && a.drivable() ==> b.drivable()
}

/// Inversion is an involution on outputs: a pin wrapped in `Not` twice makes
/// exactly the promises of the unwrapped pin, drive for drive.
pub proof fn lemma_not_not_output<O: Output>(pre: Not<Not<O>>, post: Not<Not<O>>, bit: PinState)
    ensures
        Not::<Not<O>>::high_post(pre, post) == O::high_post(pre.0.0, post.0.0),
        Not::<Not<O>>::low_post(pre, post) == O::low_post(pre.0.0, post.0.0),
        drive_post(pre, post, bit) == drive_post(pre.0.0, post.0.0, bit),
        pre.drivable() == pre.0.0.drivable(),
{
}

/// Inversion is an involution on inputs: a pin wrapped in `Not` twice makes
/// exactly the promises of the unwrapped pin, sample for sample.
pub proof fn lemma_not_not_input<I: Input>(pre: Not<Not<I>>, post: Not<Not<I>>, r: PinState)
    ensures
        Not::<Not<I>>::read_post(pre, post, r) == I::read_post(pre.0.0, post.0.0, r),
        pre.readable() == pre.0.0.readable(),
{
    lemma_flip_involution(r);
}

/// Dummy and constant pins are inert: a drive of a `Dummy` output, at either
/// level, never changes it, and the constant inputs report their fixed level
/// whatever was driven anywhere before.
pub proof fn lemma_constant_pins_inert(
    d0: Dummy,
    d1: Dummy,
    h0: HighPin,
    h1: HighPin,
    l0: LowPin,
    l1: LowPin,
    bit: PinState,
    r: PinState,
)
    ensures
        drive_post(d0, d1, bit) ==> d1 == d0,
        HighPin::read_post(h0, h1, r) ==> r is High && h1 == h0,
        LowPin::read_post(l0, l1, r) ==> r is Low && l1 == l0,
        Dummy::read_post(d0, d1, r) ==> r is Low && d1 == d0,
{
}

} // verus!
