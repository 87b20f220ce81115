//! Cyclic redundancy check (CRC).
//!
//! A hardware checksum generator. Seed it, feed it the data, read the result: each feed is a single
//! store and the engine keeps up with the bus.
//!
//! # Feed width is the width of the store
//!
//! The input register takes a byte, a half-word or a word depending on how it is written, and the
//! engine consumes exactly that much. [`Crc::feed_u8`], [`Crc::feed_u16`] and [`Crc::feed_u32`] are
//! the three, and they are not interchangeable: one word is not four bytes unless
//! [`Config::input_endianness`] matches the order the bytes are in.
//!
//! # What differs per device
//!
//! Three register blocks, and they differ in what they can compute rather than only in layout: see
//! [`Block`]. A checksum a device cannot compute is not accepted for it.

use crate::bus::Bus;
use core::marker::PhantomData;
use vstd::prelude::*;

verus! {

/// Which of the three register blocks a device has. Which one does not follow its family.
#[derive(Clone, Copy, PartialEq, Eq, Debug, Structural)]
pub enum Block {
    /// Computes CRC-16-CCITT and nothing else.
    Crc16,
    /// Adds CRC-32 ISO-3309.
    V1,
    /// Adds a polynomial of your own.
    P,
}

/// Which checksum the generator computes.
#[derive(Clone, Copy, PartialEq, Eq, Debug, Structural)]
pub enum Polynomial {
    /// CRC-16-CCITT, polynomial `0x1021`.
    Crc16Ccitt,
    /// CRC-32 ISO-3309, polynomial `0x04C11DB7`. Not on [`Block::Crc16`].
    Crc32,
    /// A 16-bit polynomial of your own. Only on [`Block::P`].
    Custom16(u16),
    /// A 32-bit polynomial of your own. Only on [`Block::P`].
    Custom32(u32),
}

/// `CTRL.POLYSIZE`.
#[derive(Clone, Copy, PartialEq, Eq, Debug, Structural)]
pub enum Polysize {
    /// A 16-bit polynomial.
    Crc16,
    /// A 32-bit polynomial.
    Crc32,
}

impl Polynomial {
    /// The default.
    pub const DEFAULT: Self = Self::Crc16Ccitt;

    /// Whether `block` can compute this.
    pub open spec fn on(self, block: Block) -> bool {
        match self {
            Polynomial::Crc16Ccitt => true,
            Polynomial::Crc32 => block != Block::Crc16,
            Polynomial::Custom16(_) | Polynomial::Custom32(_) => block == Block::P,
        }
    }

    /// Whether the result is 16 bits wide rather than 32.
    pub open spec fn is_16_bit_spec(self) -> bool {
        self is Crc16Ccitt || self is Custom16
    }

    /// The polynomial itself, without its leading term.
    pub open spec fn value_spec(self) -> u32 {
        match self {
            Polynomial::Crc16Ccitt => 0x1021,
            Polynomial::Crc32 => 0x04C1_1DB7,
            Polynomial::Custom16(poly) => poly as u32,
            Polynomial::Custom32(poly) => poly,
        }
    }

    /// Whether `block` can compute this.
    pub fn is_supported(self, block: Block) -> (supported: bool)
        ensures
            supported == self.on(block),
    {
        match self {
            Polynomial::Crc16Ccitt => true,
            Polynomial::Crc32 => !matches!(block, Block::Crc16),
            Polynomial::Custom16(_) | Polynomial::Custom32(_) => matches!(block, Block::P),
        }
    }

    /// The `POLYSIZE` this needs, where the block has that field.
    pub fn size(self) -> (size: Polysize)
        ensures
            size == (if self.is_16_bit_spec() {
                Polysize::Crc16
            } else {
                Polysize::Crc32
            }),
    {
        match self {
            Polynomial::Crc16Ccitt => Polysize::Crc16,
            Polynomial::Crc32 => Polysize::Crc32,
            Polynomial::Custom16(_) => Polysize::Crc16,
            Polynomial::Custom32(_) => Polysize::Crc32,
        }
    }

    /// The value for the `POLY` register, where the block has one.
    ///
    /// Written for the named checksums too, rather than trusting the register's reset value to be the
    /// standard polynomial.
    pub fn value(self) -> (value: u32)
        ensures
            value == self.value_spec(),
    {
        match self {
            Polynomial::Crc16Ccitt => 0x1021,
            Polynomial::Crc32 => 0x04C1_1DB7,
            Polynomial::Custom16(poly) => poly as u32,
            Polynomial::Custom32(poly) => poly,
        }
    }

    /// Whether the result is 16 bits wide rather than 32.
    pub fn is_16_bit(self) -> (narrow: bool)
        ensures
            narrow == self.is_16_bit_spec(),
    {
        match self {
            Polynomial::Crc16Ccitt => true,
            Polynomial::Crc32 => false,
            Polynomial::Custom16(_) => true,
            Polynomial::Custom32(_) => false,
        }
    }
}

impl Default for Polynomial {
    fn default() -> (polynomial: Self)
        ensures
            polynomial == Polynomial::Crc16Ccitt,
    {
        Self::DEFAULT
    }
}

/// A 16-bit checksum has a polynomial that fits 16 bits.
pub proof fn narrow_polynomial_is_narrow(polynomial: Polynomial)
    ensures
        polynomial.is_16_bit_spec() ==> polynomial.value_spec() <= 0xFFFF,
{
}

/// Which end of a multi-byte input the engine consumes first.
#[derive(Clone, Copy, PartialEq, Eq, Debug, Structural)]
pub enum Endianness {
    /// The least significant byte is at the lowest address and goes in first.
    ///
    /// This is what makes one [`Crc::feed_u32`] equal to its four bytes fed in address order on this
    /// core, which is little-endian.
    Little,
    /// The least significant byte is at the highest address and goes in last.
    Big,
}

impl Endianness {
    /// The default.
    pub const DEFAULT: Self = Self::Little;
}

impl Default for Endianness {
    fn default() -> (endianness: Self)
        ensures
            endianness == Endianness::Little,
    {
        Self::DEFAULT
    }
}

/// CRC configuration.
#[derive(Clone, Copy, PartialEq, Eq, Debug, Structural)]
pub struct Config {
    /// Which checksum to compute.
    pub polynomial: Polynomial,
    /// Feed each input bit-reversed, which several standard CRCs specify. Reflects the output as well.
    pub bit_reversed: bool,
    /// Which end of a multi-byte input goes in first.
    pub input_endianness: Endianness,
    /// Byte-swap the result as it is read.
    pub output_byteswap: bool,
}

impl Config {
    /// The default configuration.
    pub open spec fn default_spec() -> Config {
        Config {
            polynomial: Polynomial::Crc16Ccitt,
            bit_reversed: false,
            input_endianness: Endianness::Little,
            output_byteswap: false,
        }
    }

    /// The default configuration.
    pub fn new() -> (config: Self)
        ensures
            config == Self::default_spec(),
    {
        Config {
            polynomial: Polynomial::DEFAULT,
            bit_reversed: false,
            input_endianness: Endianness::DEFAULT,
            output_byteswap: false,
        }
    }
}

impl Default for Config {
    fn default() -> (config: Self)
        ensures
            config == Self::default_spec(),
    {
        Self::new()
    }
}

/// `CTRL`.
#[derive(Clone, Copy, PartialEq, Eq, Debug, Structural)]
pub struct Ctrl {
    /// Polynomial size, where the block has that field.
    pub polysize: Option<Polysize>,
    /// Bit reversal of input and output.
    pub bitreverse: bool,
    /// Order of the bytes of an input.
    pub input_endianness: Endianness,
    /// Byte swap of the output.
    pub output_byteswap: bool,
}

/// One access to the CRC generator.
#[derive(Clone, Copy, PartialEq, Eq, Debug, Structural)]
pub enum Access {
    /// Assert the reset and clear its sticky flag.
    Reset,
    /// Switch the power enable.
    Power(bool),
    /// Write `POLY`.
    Poly(u32),
    /// Write `CTRL`.
    Ctrl(Ctrl),
    /// Write `SEED`.
    Seed(u32),
    /// Byte-wide store to the input register.
    In8(u8),
    /// Half-word-wide store to the input register.
    In16(u16),
    /// Word-wide store to the input register.
    In32(u32),
}

/// A CRC instance.
pub trait Instance {
    /// The register block it has.
    const BLOCK: Block;
}

/// What bringing the generator up asks for.
pub open spec fn bring_up(block: Block, config: Config) -> Seq<Access> {
    let poly = if block == Block::P {
        seq![Access::Poly(config.polynomial.value_spec())]
    } else {
        Seq::empty()
    };
    let ctrl = Ctrl {
        polysize: if block == Block::Crc16 {
            None
        } else if config.polynomial.is_16_bit_spec() {
            Some(Polysize::Crc16)
        } else {
            Some(Polysize::Crc32)
        },
        bitreverse: config.bit_reversed,
        input_endianness: config.input_endianness,
        output_byteswap: config.output_byteswap,
    };

    seq![Access::Reset, Access::Power(true)] + poly + seq![Access::Ctrl(ctrl)]
}

/// The stores that feed bytes, in order.
pub open spec fn fed_bytes(data: Seq<u8>) -> Seq<Access> {
    data.map_values(|byte: u8| Access::In8(byte))
}

/// The stores that feed words, in order.
pub open spec fn fed_words(data: Seq<u32>) -> Seq<Access> {
    data.map_values(|word: u32| Access::In32(word))
}

/// CRC driver.
///
/// Powered on construction and off when given up. The generator holds no state between [`Crc::reset`]
/// calls beyond the running checksum.
pub struct Crc<T: Instance> {
    _peri: PhantomData<T>,
}

impl<T: Instance> Crc<T> {
    /// Reset the peripheral, power it up and apply `config`.
    ///
    /// The checksum is undefined until [`Crc::reset`] seeds it.
    pub fn new(config: Config, bus: &mut Bus<Access>) -> (crc: Self)
        requires
            config.polynomial.on(T::BLOCK),
        ensures
            final(bus)@ == old(bus)@ + bring_up(T::BLOCK, config),
    {
        bus.push(Access::Reset);
        bus.push(Access::Power(true));

        if matches!(T::BLOCK, Block::P) {
            bus.push(Access::Poly(config.polynomial.value()));
        }
        bus.push(
            Access::Ctrl(
                Ctrl {
                    polysize: if matches!(T::BLOCK, Block::Crc16) {
                        None
                    } else {
                        Some(config.polynomial.size())
                    },
                    bitreverse: config.bit_reversed,
                    input_endianness: config.input_endianness,
                    output_byteswap: config.output_byteswap,
                },
            ),
        );

        Crc { _peri: PhantomData }
    }

    /// Start a new checksum from `seed`.
    ///
    /// A 16-bit checksum ignores the upper half. Which seed a given standard wants is the caller's to
    /// know.
    pub fn reset(&mut self, seed: u32, bus: &mut Bus<Access>)
        ensures
            *final(self) == *old(self),
            final(bus)@ == old(bus)@.push(Access::Seed(seed)),
    {
        bus.push(Access::Seed(seed));
    }

    /// Feed one byte.
    pub fn feed_u8(&mut self, data: u8, bus: &mut Bus<Access>)
        ensures
            *final(self) == *old(self),
            final(bus)@ == old(bus)@.push(Access::In8(data)),
    {
        bus.push(Access::In8(data));
    }

    /// Feed one half-word, in the configured endianness.
    pub fn feed_u16(&mut self, data: u16, bus: &mut Bus<Access>)
        ensures
            *final(self) == *old(self),
            final(bus)@ == old(bus)@.push(Access::In16(data)),
    {
        bus.push(Access::In16(data));
    }

    /// Feed one word, in the configured endianness.
    pub fn feed_u32(&mut self, data: u32, bus: &mut Bus<Access>)
        ensures
            *final(self) == *old(self),
            final(bus)@ == old(bus)@.push(Access::In32(data)),
    {
        bus.push(Access::In32(data));
    }

    /// Feed every byte of `data`, in order.
    ///
    /// One store per byte. [`Crc::feed_words`] is about four times fewer for data that is already
    /// words.
    pub fn feed_bytes(&mut self, data: &[u8], bus: &mut Bus<Access>)
        ensures
            *final(self) == *old(self),
            final(bus)@ == old(bus)@ + fed_bytes(data@),
    {
        let mut next: usize = 0;

        assert(fed_bytes(data@.take(0)) =~= Seq::<Access>::empty());
        while next < data.len()
            invariant
                next <= data@.len(),
                *self == *old(self),
                bus@ == old(bus)@ + fed_bytes(data@.take(next as int)),
            decreases data.len() - next,
        {
            self.feed_u8(data[next], bus);
            next += 1;
            assert(fed_bytes(data@.take(next as int)) =~= fed_bytes(data@.take(next - 1)).push(
                Access::In8(data@[next - 1]),
            ));
        }
        assert(data@.take(next as int) =~= data@);
    }

    /// Feed every word of `data`, in order and in the configured endianness.
    pub fn feed_words(&mut self, data: &[u32], bus: &mut Bus<Access>)
        ensures
            *final(self) == *old(self),
            final(bus)@ == old(bus)@ + fed_words(data@),
    {
        let mut next: usize = 0;

        assert(fed_words(data@.take(0)) =~= Seq::<Access>::empty());
        while next < data.len()
            invariant
                next <= data@.len(),
                *self == *old(self),
                bus@ == old(bus)@ + fed_words(data@.take(next as int)),
            decreases data.len() - next,
        {
            self.feed_u32(data[next], bus);
            next += 1;
            assert(fed_words(data@.take(next as int)) =~= fed_words(data@.take(next - 1)).push(
                Access::In32(data@[next - 1]),
            ));
        }
        assert(data@.take(next as int) =~= data@);
    }

    /// The checksum of everything fed since the last [`Crc::reset`], in a reading of the output register.
    ///
    /// A 16-bit polynomial leaves the upper half zero. Reading does not disturb the running value.
    pub fn result(&self, out: u32) -> (result: u32)
        ensures
            result == out,
    {
        out
    }

    /// Give the driver up: the generator is powered down.
    pub fn release(self, bus: &mut Bus<Access>)
        ensures
            final(bus)@ == old(bus)@.push(Access::Power(false)),
    {
        bus.push(Access::Power(false));
    }
}

/// Feeding a buffer in two parts makes the same stores as feeding it whole.
pub proof fn feeding_in_parts_is_feeding_whole(first: Seq<u8>, second: Seq<u8>)
    ensures
        fed_bytes(first + second) == fed_bytes(first) + fed_bytes(second),
{
    assert(fed_bytes(first + second) =~= fed_bytes(first) + fed_bytes(second));
}

/// Every byte and every word of a buffer is fed once, in order, by a store of its own width.
pub proof fn buffers_are_fed_in_order(bytes: Seq<u8>, words: Seq<u32>)
    ensures
        fed_bytes(bytes).len() == bytes.len(),
        forall|i: int| 0 <= i < bytes.len() ==> #[trigger] fed_bytes(bytes)[i] == Access::In8(bytes[i]),
        fed_words(words).len() == words.len(),
        forall|i: int| 0 <= i < words.len() ==> #[trigger] fed_words(words)[i] == Access::In32(words[i]),
{
}

/// Whether an access sets up what a configuration asks of a block.
pub open spec fn sets_up(access: Access, block: Block, config: Config) -> bool {
    match access {
        Access::Reset => true,
        Access::Power(on) => on,
        Access::Poly(value) => block is P && {
            &&& config.polynomial is Crc16Ccitt ==> value == 0x1021
            &&& config.polynomial is Crc32 ==> value == 0x04C1_1DB7
            &&& config.polynomial matches Polynomial::Custom16(poly) ==> value == poly
            &&& config.polynomial matches Polynomial::Custom32(poly) ==> value == poly
        },
        Access::Ctrl(ctrl) => {
            &&& ctrl.polysize is None <==> block is Crc16
            &&& ctrl.polysize matches Some(size) ==> {
                &&& size is Crc16 <==> config.polynomial is Crc16Ccitt || config.polynomial is Custom16
                &&& size is Crc32 <==> config.polynomial is Crc32 || config.polynomial is Custom32
            }
            &&& ctrl.bitreverse == config.bit_reversed
            &&& ctrl.input_endianness is Little <==> config.input_endianness is Little
            &&& ctrl.input_endianness is Big <==> config.input_endianness is Big
            &&& ctrl.output_byteswap == config.output_byteswap
        },
        _ => false,
    }
}

/// The generator is set up for the checksum it was asked for: its polynomial, where the block takes one; its width,
/// where the block has more than one; and the order of bits and bytes. The reset and the power come first.
pub proof fn generator_is_set_up_as_asked(block: Block, config: Config)
    ensures
        ({
            let asked = bring_up(block, config);

            &&& forall|i: int| 0 <= i < asked.len() ==> sets_up(#[trigger] asked[i], block, config)
            &&& asked.len() == if block is P {
                4int
            } else {
                3
            }
            &&& asked[0] is Reset && asked[1] is Power
            &&& block is P ==> asked[2] is Poly
            &&& asked.last() is Ctrl
        }),
{
}

/// What each block can compute: CRC-16-CCITT everywhere, CRC-32 on all but the narrowest, a polynomial of one's own
/// only on the programmable one. A checksum is as wide as its polynomial.
pub proof fn blocks_compute_what_they_can(polynomial: Polynomial, block: Block)
    ensures
        polynomial is Crc16Ccitt ==> polynomial.on(block),
        polynomial is Crc32 ==> (polynomial.on(block) <==> block is V1 || block is P),
        polynomial is Custom16 || polynomial is Custom32 ==> (polynomial.on(block) <==> block is P),
        polynomial.is_16_bit_spec() <==> polynomial is Crc16Ccitt || polynomial is Custom16,
        polynomial is Crc16Ccitt ==> polynomial.value_spec() == 0x1021,
        polynomial is Crc32 ==> polynomial.value_spec() == 0x04C1_1DB7,
        polynomial matches Polynomial::Custom16(poly) ==> polynomial.value_spec() == poly,
        polynomial matches Polynomial::Custom32(poly) ==> polynomial.value_spec() == poly,
{
}

/// The default checksum is one every block computes, fed and read as it is.
pub proof fn default_is_on_every_block(block: Block)
    ensures
        Config::default_spec().polynomial is Crc16Ccitt,
        Config::default_spec().polynomial.on(block),
        !Config::default_spec().bit_reversed,
        Config::default_spec().input_endianness is Little,
        !Config::default_spec().output_byteswap,
{
}

} // verus!
