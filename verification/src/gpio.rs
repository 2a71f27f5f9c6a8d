//! GPIO driver.
//!
//! Each of the 32 pins of the GPIO peripheral is an independent bidirectional wire
//! bridged to a peer: the guest drives an output level through the `OUT` register and
//! observes the peer's level through `IN`. The pins share a single interrupt; the
//! handler fans it out to the pins whose interrupt fired.
//!
//! Every operation here is a function of register values: a query reads a value the
//! caller obtained from the hardware, and a change returns the value the caller writes
//! back. As the pins have no pull configuration, every operation is infallible.
use vstd::prelude::*;

use crate::pac::gpio::{in_, irq_en, irq_pend, irq_pol, irq_trig, out};

verus! {

/// Number of GPIO pins exposed by the peripheral.
pub const PIN_COUNT: usize = 32;

/// Digital level of a pin.
#[derive(Debug, Clone, Copy, PartialEq, Eq, Structural)]
pub enum Level {
    /// Logic low (0).
    Low,
    /// Logic high (1).
    High,
}

/// Level of a boolean: `true` is high.
pub open spec fn level_of(b: bool) -> Level {
    if b {
        Level::High
    } else {
        Level::Low
    }
}

/// Boolean of a level: high is `true`.
pub open spec fn is_high_level(l: Level) -> bool {
    l == Level::High
}

impl From<bool> for Level {
    fn from(b: bool) -> (l: Level) {
        if b {
            Level::High
        } else {
            Level::Low
        }
    }
}

impl vstd::std_specs::convert::FromSpecImpl<bool> for Level {
    open spec fn obeys_from_spec() -> bool {
        true
    }

    open spec fn from_spec(b: bool) -> Level {
        level_of(b)
    }
}

impl From<Level> for bool {
    fn from(l: Level) -> (b: bool) {
        match l {
            Level::High => true,
            Level::Low => false,
        }
    }
}

impl vstd::std_specs::convert::FromSpecImpl<Level> for bool {
    open spec fn obeys_from_spec() -> bool {
        true
    }

    open spec fn from_spec(l: Level) -> bool {
        is_high_level(l)
    }
}

/// Converting a boolean to a level and back gives the boolean, and converting a level
/// to a boolean and back gives the level.
pub proof fn lemma_level_round_trip(b: bool, l: Level)
    ensures
        is_high_level(level_of(b)) == b,
        level_of(is_high_level(l)) == l,
{
}

/// Blocking mode.
pub struct Blocking;

/// Async mode.
pub struct Async;

/// Driver mode.
pub trait Mode {}

impl Mode for Blocking {}

impl Mode for Async {}

/// GPIO pin instance: a peripheral that owns one pin.
pub trait Pin {
    /// Number of the pin.
    fn pin_number(&self) -> u8;
}

/// Mask with only bit `pin` set.
pub open spec fn pin_mask(pin: u8) -> u32 {
    1u32 << (pin as u32)
}

/// A flexible pin that can read its input level and drive its output level.
///
/// Because the underlying wire is bidirectional, a `Flex` pin is simultaneously an
/// input and an output: the `set_*` methods drive the level seen by the peer, while the
/// `is_*` methods report the level the peer is driving.
#[verifier::reject_recursive_types(M)]
pub struct Flex<M: Mode> {
    pin: u8,
    _phantom: core::marker::PhantomData<M>,
}

/// Bit facts behind the pin operations: testing the masked bit reads bit `p`, and
/// setting, clearing or flipping it changes bit `p` alone.
proof fn lemma_mask_ops(x: u32, p: u32)
    requires
        p < 32,
    ensures
        ((x & (1u32 << p)) != 0) == crate::pac::bit32(x, p),
        x | (1u32 << p) == crate::pac::with_bit32(x, p, true),
        x & !(1u32 << p) == crate::pac::with_bit32(x, p, false),
        x ^ (1u32 << p) == crate::pac::with_bit32(x, p, !crate::pac::bit32(x, p)),
{
    assert(((x & (1u32 << p)) != 0) == ((x >> p) & 1u32 == 1u32)) by (bit_vector)
        requires
            p < 32,
    ;
    if (x >> p) & 1u32 == 1u32 {
        assert((x >> p) & 1u32 == 1u32 ==> x ^ (1u32 << p) == x & !(1u32 << p)) by (bit_vector)
            requires
                p < 32,
        ;
    } else {
        assert((x >> p) & 1u32 != 1u32 ==> x ^ (1u32 << p) == x | (1u32 << p)) by (bit_vector)
            requires
                p < 32,
        ;
    }
}

impl<M: Mode> Flex<M> {
    /// The pin number is that of one of the peripheral's pins.
    #[verifier::type_invariant]
    closed spec fn valid_pin(self) -> bool {
        self.pin < 32
    }

    /// Number of the pin.
    pub closed spec fn pin(self) -> u8 {
        self.pin
    }

    fn new_inner(pin: u8) -> (f: Flex<M>)
        requires
            pin < PIN_COUNT,
        ensures
            f.pin() == pin,
    {
        Flex { pin, _phantom: core::marker::PhantomData }
    }

    /// Number of the pin.
    pub fn pin_number(&self) -> (p: u8)
        ensures
            p == self.pin(),
            p < PIN_COUNT,
    {
        proof {
            use_type_invariant(self);
        }
        self.pin
    }

    /// Mask selecting the pin's bit in every GPIO register.
    pub fn mask(&self) -> (m: u32)
        ensures
            m == pin_mask(self.pin()),
            self.pin() < 32,
    {
        proof {
            use_type_invariant(self);
        }
        1u32 << (self.pin as u32)
    }

    /// Whether the pin's input level is high, given the value of `IN`.
    pub fn is_high(&self, input: &in_::R) -> (b: bool)
        ensures
            b == crate::pac::bit32(input.bits, self.pin() as u32),
    {
        let m = self.mask();
        proof {
            lemma_mask_ops(input.bits, self.pin() as u32);
        }
        input.bits() & m != 0
    }

    /// Whether the pin's input level is low, given the value of `IN`.
    pub fn is_low(&self, input: &in_::R) -> (b: bool)
        ensures
            b == !crate::pac::bit32(input.bits, self.pin() as u32),
    {
        !self.is_high(input)
    }

    /// The pin's input level, given the value of `IN`.
    pub fn level(&self, input: &in_::R) -> (l: Level)
        ensures
            l == level_of(crate::pac::bit32(input.bits, self.pin() as u32)),
    {
        Level::from(self.is_high(input))
    }

    /// Value of `OUT` that drives the pin high, given its current value.
    pub fn set_high(&self, out: &out::R) -> (w: out::W)
        ensures
            w.bits == crate::pac::with_bit32(out.bits, self.pin() as u32, true),
    {
        let m = self.mask();
        proof {
            lemma_mask_ops(out.bits, self.pin() as u32);
        }
        out::W { bits: out.bits() | m }
    }

    /// Value of `OUT` that drives the pin low, given its current value.
    pub fn set_low(&self, out: &out::R) -> (w: out::W)
        ensures
            w.bits == crate::pac::with_bit32(out.bits, self.pin() as u32, false),
    {
        let m = self.mask();
        proof {
            lemma_mask_ops(out.bits, self.pin() as u32);
        }
        out::W { bits: out.bits() & !m }
    }

    /// Value of `OUT` that drives the pin to `level`, given its current value.
    pub fn set_level(&self, level: Level, out: &out::R) -> (w: out::W)
        ensures
            w.bits == crate::pac::with_bit32(out.bits, self.pin() as u32, is_high_level(level)),
    {
        match level {
            Level::High => self.set_high(out),
            Level::Low => self.set_low(out),
        }
    }

    /// Value of `OUT` that flips the pin's output level, given its current value.
    pub fn toggle(&self, out: &out::R) -> (w: out::W)
        ensures
            w.bits == crate::pac::with_bit32(
                out.bits,
                self.pin() as u32,
                !crate::pac::bit32(out.bits, self.pin() as u32),
            ),
    {
        let m = self.mask();
        proof {
            lemma_mask_ops(out.bits, self.pin() as u32);
        }
        out::W { bits: out.bits() ^ m }
    }

    /// Whether the pin's output is set high, given the value of `OUT`.
    pub fn is_set_high(&self, out: &out::R) -> (b: bool)
        ensures
            b == crate::pac::bit32(out.bits, self.pin() as u32),
    {
        let m = self.mask();
        proof {
            lemma_mask_ops(out.bits, self.pin() as u32);
        }
        out.bits() & m != 0
    }

    /// Whether the pin's output is set low, given the value of `OUT`.
    pub fn is_set_low(&self, out: &out::R) -> (b: bool)
        ensures
            b == !crate::pac::bit32(out.bits, self.pin() as u32),
    {
        !self.is_set_high(out)
    }

    /// The pin's driven output level, given the value of `OUT`.
    pub fn output_level(&self, out: &out::R) -> (l: Level)
        ensures
            l == level_of(crate::pac::bit32(out.bits, self.pin() as u32)),
    {
        Level::from(self.is_set_high(out))
    }

    /// Values of `IRQ_EN` and `IRQ_PEND` that disarm the pin's interrupt and clear its
    /// latched pending bit (done when the pin is released), given the value of `IRQ_EN`.
    pub fn disarm(&self, en: &irq_en::R) -> (r: (irq_en::W, irq_pend::W))
        ensures
            r.0.bits == crate::pac::with_bit32(en.bits, self.pin() as u32, false),
            r.1.bits == pin_mask(self.pin()),
    {
        let m = self.mask();
        proof {
            lemma_mask_ops(en.bits, self.pin() as u32);
        }
        (irq_en::W { bits: en.bits() & !m }, irq_pend::W { bits: m })
    }
}

impl Flex<Blocking> {
    /// A blocking flexible pin.
    pub fn new_blocking(pin: u8) -> (f: Flex<Blocking>)
        requires
            pin < PIN_COUNT,
        ensures
            f.pin() == pin,
    {
        Self::new_inner(pin)
    }
}

/// Interrupt configuration of the GPIO peripheral: trigger, polarity and enable bits.
#[derive(Debug, Clone, Copy, PartialEq, Eq)]
pub struct IrqConfig {
    /// Trigger type bits (0 = level, 1 = edge).
    pub trig: u32,
    /// Polarity bits (0 = low/falling, 1 = high/rising).
    pub pol: u32,
    /// Enable bits.
    pub en: u32,
}

/// How a wait for a level proceeds after one poll.
#[derive(Debug, Clone, Copy, PartialEq, Eq)]
pub enum LevelPoll {
    /// The input is at the wanted level: write this value to `IRQ_EN` (disarming the
    /// pin) and finish.
    Ready(irq_en::W),
    /// Not yet: write this configuration (level trigger, wanted polarity, enabled) and
    /// wait for the interrupt.
    Arm(IrqConfig),
}

/// Configuration that arms an edge wait, and the `IRQ_PEND` value that clears a stale
/// latched edge before enabling.
#[derive(Debug, Clone, Copy, PartialEq, Eq)]
pub struct EdgeArm {
    /// Trigger, polarity and enable bits to write.
    pub config: IrqConfig,
    /// Value for `IRQ_PEND` (write-1-to-clear).
    pub pend: irq_pend::W,
}

impl Flex<Async> {
    /// An async flexible pin.
    pub fn new_async(pin: u8) -> (f: Flex<Async>)
        requires
            pin < PIN_COUNT,
        ensures
            f.pin() == pin,
    {
        Self::new_inner(pin)
    }

    /// One poll of a wait until the input is at `level`, given the current register
    /// values: finish (disarming the pin) when the input already is at the level,
    /// otherwise arm a level-triggered interrupt with the wanted polarity.
    pub fn poll_level(&self, level: Level, input: &in_::R, config: IrqConfig) -> (p: LevelPoll)
        ensures
            crate::pac::bit32(input.bits, self.pin() as u32) == is_high_level(level) ==> p
                == LevelPoll::Ready(
                irq_en::W { bits: crate::pac::with_bit32(config.en, self.pin() as u32, false) },
            ),
            crate::pac::bit32(input.bits, self.pin() as u32) != is_high_level(level) ==> p
                == LevelPoll::Arm(
                IrqConfig {
                    trig: crate::pac::with_bit32(config.trig, self.pin() as u32, false),
                    pol: crate::pac::with_bit32(config.pol, self.pin() as u32, is_high_level(level)),
                    en: crate::pac::with_bit32(config.en, self.pin() as u32, true),
                },
            ),
    {
        let m = self.mask();
        let want_high: bool = bool::from(level);
        proof {
            lemma_mask_ops(input.bits, self.pin() as u32);
            lemma_mask_ops(config.trig, self.pin() as u32);
            lemma_mask_ops(config.pol, self.pin() as u32);
            lemma_mask_ops(config.en, self.pin() as u32);
        }
        if (input.bits() & m != 0) == want_high {
            return LevelPoll::Ready(irq_en::W { bits: config.en & !m });
        }
        let v = config.pol;
        LevelPoll::Arm(
            IrqConfig {
                trig: config.trig & !m,
                pol: if want_high {
                    v | m
                } else {
                    v & !m
                },
                en: config.en | m,
            },
        )
    }

    /// Arms a wait for one input edge, given the current register values. When both
    /// `rising` and `falling` are requested (any edge), the edge armed is the
    /// transition away from the input's current level.
    pub fn arm_edge(&self, rising: bool, falling: bool, input: &in_::R, config: IrqConfig) -> (a:
        EdgeArm)
        ensures
            a.config.trig == crate::pac::with_bit32(config.trig, self.pin() as u32, true),
            a.config.pol == crate::pac::with_bit32(
                config.pol,
                self.pin() as u32,
                if rising && falling {
                    !crate::pac::bit32(input.bits, self.pin() as u32)
                } else {
                    rising
                },
            ),
            a.config.en == crate::pac::with_bit32(config.en, self.pin() as u32, true),
            a.pend.bits == pin_mask(self.pin()),
    {
        let m = self.mask();
        proof {
            lemma_mask_ops(input.bits, self.pin() as u32);
            lemma_mask_ops(config.trig, self.pin() as u32);
            lemma_mask_ops(config.pol, self.pin() as u32);
            lemma_mask_ops(config.en, self.pin() as u32);
        }
        let want_rising = if rising && falling {
            input.bits() & m == 0
        } else {
            rising
        };
        let v = config.pol;
        EdgeArm {
            config: IrqConfig {
                trig: config.trig | m,
                pol: if want_rising {
                    v | m
                } else {
                    v & !m
                },
                en: config.en | m,
            },
            pend: irq_pend::W { bits: m },
        }
    }

    /// Whether an armed edge wait is over, given the value of `IRQ_EN`: the interrupt
    /// handler clears the pin's enable bit once the edge fired.
    pub fn edge_fired(&self, en: &irq_en::R) -> (b: bool)
        ensures
            b == !crate::pac::bit32(en.bits, self.pin() as u32),
    {
        let m = self.mask();
        proof {
            lemma_mask_ops(en.bits, self.pin() as u32);
        }
        en.bits() & m == 0
    }
}

/// An input-only pin.
#[verifier::reject_recursive_types(M)]
pub struct Input<M: Mode> {
    pin: Flex<M>,
}

impl Input<Blocking> {
    /// A blocking input pin.
    pub fn new_blocking(pin: u8) -> (i: Input<Blocking>)
        requires
            pin < PIN_COUNT,
        ensures
            i.pin() == pin,
    {
        Input { pin: Flex::new_blocking(pin) }
    }
}

impl Input<Async> {
    /// An async input pin.
    pub fn new_async(pin: u8) -> (i: Input<Async>)
        requires
            pin < PIN_COUNT,
        ensures
            i.pin() == pin,
    {
        Input { pin: Flex::new_async(pin) }
    }

    /// The underlying flexible pin, for waiting on its input.
    pub fn flex(&self) -> (f: &Flex<Async>)
        ensures
            f.pin() == self.pin(),
    {
        &self.pin
    }
}

impl<M: Mode> Input<M> {
    /// Number of the pin.
    pub closed spec fn pin(self) -> u8 {
        self.pin.pin()
    }

    /// Whether the pin's input level is high, given the value of `IN`.
    pub fn is_high(&self, input: &in_::R) -> (b: bool)
        ensures
            b == crate::pac::bit32(input.bits, self.pin() as u32),
    {
        self.pin.is_high(input)
    }

    /// Whether the pin's input level is low, given the value of `IN`.
    pub fn is_low(&self, input: &in_::R) -> (b: bool)
        ensures
            b == !crate::pac::bit32(input.bits, self.pin() as u32),
    {
        self.pin.is_low(input)
    }

    /// The pin's input level, given the value of `IN`.
    pub fn level(&self, input: &in_::R) -> (l: Level)
        ensures
            l == level_of(crate::pac::bit32(input.bits, self.pin() as u32)),
    {
        self.pin.level(input)
    }
}

/// An output-only pin.
pub struct Output {
    pin: Flex<Blocking>,
}

impl Output {
    /// Number of the pin.
    pub closed spec fn pin(self) -> u8 {
        self.pin.pin()
    }

    /// An output pin driving `initial_level`: returns the pin and the value of `OUT`
    /// that drives the level, given the current value of `OUT`.
    pub fn new(pin: u8, initial_level: Level, out: &out::R) -> (r: (Output, out::W))
        requires
            pin < PIN_COUNT,
        ensures
            r.0.pin() == pin,
            r.0.pin() < PIN_COUNT,
            r.1.bits == crate::pac::with_bit32(out.bits, pin as u32, is_high_level(initial_level)),
    {
        let pin = Flex::new_blocking(pin);
        let w = pin.set_level(initial_level, out);
        (Output { pin }, w)
    }

    /// Value of `OUT` that drives the pin high, given its current value.
    pub fn set_high(&self, out: &out::R) -> (w: out::W)
        ensures
            w.bits == crate::pac::with_bit32(out.bits, self.pin() as u32, true),
    {
        self.pin.set_high(out)
    }

    /// Value of `OUT` that drives the pin low, given its current value.
    pub fn set_low(&self, out: &out::R) -> (w: out::W)
        ensures
            w.bits == crate::pac::with_bit32(out.bits, self.pin() as u32, false),
    {
        self.pin.set_low(out)
    }

    /// Value of `OUT` that drives the pin to `level`, given its current value.
    pub fn set_level(&self, level: Level, out: &out::R) -> (w: out::W)
        ensures
            w.bits == crate::pac::with_bit32(out.bits, self.pin() as u32, is_high_level(level)),
    {
        self.pin.set_level(level, out)
    }

    /// Value of `OUT` that flips the pin's output level, given its current value.
    pub fn toggle(&self, out: &out::R) -> (w: out::W)
        ensures
            w.bits == crate::pac::with_bit32(
                out.bits,
                self.pin() as u32,
                !crate::pac::bit32(out.bits, self.pin() as u32),
            ),
    {
        self.pin.toggle(out)
    }

    /// Whether the pin's output is set high, given the value of `OUT`.
    pub fn is_set_high(&self, out: &out::R) -> (b: bool)
        ensures
            b == crate::pac::bit32(out.bits, self.pin() as u32),
    {
        self.pin.is_set_high(out)
    }

    /// Whether the pin's output is set low, given the value of `OUT`.
    pub fn is_set_low(&self, out: &out::R) -> (b: bool)
        ensures
            b == !crate::pac::bit32(out.bits, self.pin() as u32),
    {
        self.pin.is_set_low(out)
    }

    /// The pin's driven output level, given the value of `OUT`.
    pub fn output_level(&self, out: &out::R) -> (l: Level)
        ensures
            l == level_of(crate::pac::bit32(out.bits, self.pin() as u32)),
    {
        self.pin.output_level(out)
    }
}

/// Pins whose bit is set in `bits`, from pin `from` upwards, in increasing order.
pub open spec fn set_pins_from(bits: u32, from: nat) -> Seq<u8>
    decreases 32 - from,
{
    if from >= 32 {
        seq![]
    } else if crate::pac::bit32(bits, from as u32) {
        seq![from as u8] + set_pins_from(bits, from + 1)
    } else {
        set_pins_from(bits, from + 1)
    }
}

/// Pins whose bit is set in `bits`, in increasing order.
pub open spec fn set_pins(bits: u32) -> Seq<u8> {
    set_pins_from(bits, 0)
}

/// Two values that agree on every bit from `from` upwards list the same pins from there.
proof fn lemma_set_pins_from_agree(x: u32, y: u32, from: nat)
    requires
        forall|k: u32| from <= k < 32 ==> crate::pac::bit32(x, k) == crate::pac::bit32(y, k),
    ensures
        set_pins_from(x, from) == set_pins_from(y, from),
    decreases 32 - from,
{
    if from < 32 {
        assert(crate::pac::bit32(x, from as u32) == crate::pac::bit32(y, from as u32));
        lemma_set_pins_from_agree(x, y, from + 1);
    }
}

/// Bits below `to` that are clear do not add pins.
proof fn lemma_set_pins_from_skip(x: u32, from: nat, to: nat)
    requires
        from <= to <= 32,
        forall|k: u32| from <= k < to ==> !crate::pac::bit32(x, k),
    ensures
        set_pins_from(x, from) == set_pins_from(x, to),
    decreases to - from,
{
    if from < to {
        assert(!crate::pac::bit32(x, from as u32));
        lemma_set_pins_from_skip(x, from + 1, to);
    }
}

/// The pins of a non-zero value are its lowest set bit followed by the pins of the value
/// with that bit cleared.
proof fn lemma_set_pins_lowest(x: u32)
    requires
        x != 0,
    ensures
        x.trailing_zeros() < 32,
        set_pins(x) == seq![x.trailing_zeros() as u8] + set_pins(x & ((x - 1) as u32)),
{
    broadcast use vstd::std_specs::bits::axiom_u32_trailing_zeros;

    let t = x.trailing_zeros();
    assert(t < 32);
    assert forall|k: u32| 0 <= k < t implies !crate::pac::bit32(x, k) by {
        assert((x >> k) & 1u32 == 0u32);
    }
    let y = x & ((x - 1) as u32);
    assert(x << ((32 - t) as u32) == 0);
    assert((x >> t) & 1u32 == 1u32);
    assert forall|k: u32| k < 32 implies crate::pac::bit32(y, k) == (k != t && crate::pac::bit32(x, k))
        by {
        assert(((x & ((x - 1) as u32)) >> k) & 1u32 == 1u32 <==> (k != t && (x >> k) & 1u32 == 1u32))
            by (bit_vector)
            requires
                x != 0,
                t < 32,
                k < 32,
                (x >> t) & 1u32 == 1u32,
                x << ((32 - t) as u32) == 0,
        ;
    }
    lemma_set_pins_from_skip(x, 0, t as nat);
    lemma_set_pins_from_skip(y, 0, (t + 1) as nat);
    lemma_set_pins_from_agree(x, y, (t + 1) as nat);
}

/// GPIO interrupt handler.
pub struct InterruptHandler {
    _priv: (),
}

/// Register writes and wake-ups of one run of the GPIO interrupt handler.
#[derive(Debug, Clone, PartialEq, Eq)]
pub struct IrqService {
    /// Value for `IRQ_EN`: the firing pins are disarmed, which de-asserts the shared line.
    pub en: irq_en::W,
    /// Value for `IRQ_PEND` (write-1-to-clear): clears the firing pins' latched bits.
    pub pend: irq_pend::W,
    /// The firing pins, in increasing order; each one's waiter is woken.
    pub wake: Vec<u8>,
}

impl InterruptHandler {
    /// Services the shared interrupt, given the values of `IRQ_PEND` and `IRQ_EN`: the
    /// pins that are both pending and enabled are firing. Returns `None` when none is.
    pub fn on_interrupt(pend: &irq_pend::R, en: &irq_en::R) -> (r: Option<IrqService>)
        ensures
            (pend.bits & en.bits == 0) <==> r is None,
            r matches Some(s) ==> {
                &&& s.en.bits == en.bits & !(pend.bits & en.bits)
                &&& s.pend.bits == pend.bits & en.bits
                &&& s.wake@ == set_pins(pend.bits & en.bits)
            },
    {
        let active = pend.bits() & en.bits();
        if active == 0 {
            return None;
        }
        let mut wake: Vec<u8> = Vec::new();
        let mut bits = active;
        while bits != 0
            invariant
                wake@ + set_pins(bits) == set_pins(active),
            decreases bits,
        {
            let pin = bits.trailing_zeros();
            proof {
                lemma_set_pins_lowest(bits);
                assert(bits & ((bits - 1) as u32) < bits) by (bit_vector)
                    requires
                        bits != 0,
                ;
            }
            wake.push(pin as u8);
            assert(wake@ + set_pins(bits & ((bits - 1) as u32)) == set_pins(active)) by {
                assert(wake@ + set_pins(bits & ((bits - 1) as u32)) == wake@.drop_last() + (seq![
                    pin as u8,
                ] + set_pins(bits & ((bits - 1) as u32))));
            }
            bits = bits & (bits - 1);
        }
        assert(set_pins(0) == Seq::<u8>::empty()) by {
            assert forall|k: u32| 0 <= k < 32 implies !crate::pac::bit32(0, k) by {
                assert((0u32 >> k) & 1u32 == 0u32) by (bit_vector);
            }
            lemma_set_pins_from_skip(0, 0, 32);
        }
        assert(wake@ + Seq::<u8>::empty() == wake@);
        Some(IrqService { en: irq_en::W { bits: en.bits() & !active }, pend: irq_pend::W { bits: active }, wake })
    }
}

/// The pins listed from `from` upwards are exactly the set bits at or above `from`, in
/// strictly increasing order.
proof fn lemma_set_pins_from_members(bits: u32, from: nat)
    ensures
        forall|p: u8| #[trigger]
            set_pins_from(bits, from).contains(p) <==> (from <= p < 32 && crate::pac::bit32(
                bits,
                p as u32,
            )),
        forall|i: int, j: int|
            0 <= i < j < set_pins_from(bits, from).len() ==> set_pins_from(bits, from)[i]
                < set_pins_from(bits, from)[j],
        forall|i: int|
            0 <= i < set_pins_from(bits, from).len() ==> from <= #[trigger] set_pins_from(bits, from)[i],
    decreases 32 - from,
{
    if from < 32 {
        lemma_set_pins_from_members(bits, from + 1);
        let rest = set_pins_from(bits, from + 1);
        if crate::pac::bit32(bits, from as u32) {
            let all = seq![from as u8] + rest;
            assert forall|p: u8| #[trigger] all.contains(p) <==> (from <= p < 32 && crate::pac::bit32(
                bits,
                p as u32,
            )) by {
                if p == from as u8 {
                    assert(all[0] == p);
                }
                if rest.contains(p) {
                    let k = choose|k: int| 0 <= k < rest.len() && rest[k] == p;
                    assert(all[k + 1] == p);
                }
                if all.contains(p) && p != from as u8 {
                    let k = choose|k: int| 0 <= k < all.len() && all[k] == p;
                    assert(rest[k - 1] == p);
                }
            }
        }
    }
}

/// The pins listed for a value are exactly its set bits, in strictly increasing order.
pub proof fn lemma_set_pins_members(bits: u32)
    ensures
        forall|p: u8| #[trigger] set_pins(bits).contains(p) <==> (p < 32 && crate::pac::bit32(bits, p as u32)),
        forall|i: int, j: int| 0 <= i < j < set_pins(bits).len() ==> set_pins(bits)[i] < set_pins(bits)[j],
{
    lemma_set_pins_from_members(bits, 0);
}

/// Driving a pin to a level and reading the pin's output back gives that level, and
/// every other pin keeps its output.
pub proof fn lemma_output_write_read(out: u32, pin: u8, other: u8, level: Level)
    requires
        pin < 32,
        other < 32,
    ensures
        level_of(
            crate::pac::bit32(crate::pac::with_bit32(out, pin as u32, is_high_level(level)), pin as u32),
        ) == level,
        other != pin ==> crate::pac::bit32(
            crate::pac::with_bit32(out, pin as u32, is_high_level(level)),
            other as u32,
        ) == crate::pac::bit32(out, other as u32),
{
    crate::pac::lemma_bit32_write_read(out, pin as u32, pin as u32, is_high_level(level));
    crate::pac::lemma_bit32_write_read(out, pin as u32, other as u32, is_high_level(level));
}

/// Toggling a pin twice restores the output register.
pub proof fn lemma_toggle_twice(out: u32, pin: u8)
    requires
        pin < 32,
    ensures
        ({
            let once = crate::pac::with_bit32(out, pin as u32, !crate::pac::bit32(out, pin as u32));
            crate::pac::with_bit32(once, pin as u32, !crate::pac::bit32(once, pin as u32)) == out
        }),
{
    let p = pin as u32;
    assert(((out >> p) & 1u32 == 1u32 ==> (out & !(1u32 << p)) | (1u32 << p) == out) && ((out >> p)
        & 1u32 != 1u32 ==> (out | (1u32 << p)) & !(1u32 << p) == out)) by (bit_vector)
        requires
            p < 32,
    ;
    crate::pac::lemma_bit32_write_read(out, p, p, !crate::pac::bit32(out, p));
}

/// After the interrupt handler ran, exactly the pins that were enabled and not firing
/// remain enabled, and the pins woken are exactly the firing ones.
pub proof fn lemma_handler_disarms_firing(pend: u32, en: u32, pin: u8)
    requires
        pin < 32,
    ensures
        crate::pac::bit32(en & !(pend & en), pin as u32) == (crate::pac::bit32(en, pin as u32)
            && !crate::pac::bit32(pend, pin as u32)),
        set_pins(pend & en).contains(pin) <==> (crate::pac::bit32(pend, pin as u32)
            && crate::pac::bit32(en, pin as u32)),
{
    let p = pin as u32;
    assert(((en & !(pend & en)) >> p) & 1u32 == 1u32 <==> ((en >> p) & 1u32 == 1u32 && (pend >> p)
        & 1u32 != 1u32)) by (bit_vector)
        requires
            p < 32,
    ;
    assert(((pend & en) >> p) & 1u32 == 1u32 <==> ((pend >> p) & 1u32 == 1u32 && (en >> p) & 1u32
        == 1u32)) by (bit_vector)
        requires
            p < 32,
    ;
    lemma_set_pins_members(pend & en);
}

} // verus!
