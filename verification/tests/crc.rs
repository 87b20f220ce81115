//! Checksum generator.

use embassy_mspm0::bus::Bus;
use embassy_mspm0::crc::{Access, Block, Config, Crc, Ctrl, Endianness, Instance, Polynomial, Polysize};

struct Narrow;
struct Wide;
struct Programmable;

impl Instance for Narrow {
    const BLOCK: Block = Block::Crc16;
}

impl Instance for Wide {
    const BLOCK: Block = Block::V1;
}

impl Instance for Programmable {
    const BLOCK: Block = Block::P;
}

#[test]
fn polynomials() {
    assert_eq!(Polynomial::default(), Polynomial::Crc16Ccitt);
    assert_eq!(Polynomial::Crc16Ccitt.value(), 0x1021);
    assert_eq!(Polynomial::Crc32.value(), 0x04C1_1DB7);
    assert_eq!(Polynomial::Custom16(0x8005).value(), 0x8005);
    assert_eq!(Polynomial::Custom32(0x1EDC_6F41).value(), 0x1EDC_6F41);
    assert!(Polynomial::Crc16Ccitt.is_16_bit());
    assert!(Polynomial::Custom16(1).is_16_bit());
    assert!(!Polynomial::Crc32.is_16_bit());
    assert!(!Polynomial::Custom32(1).is_16_bit());
    assert_eq!(Polynomial::Custom16(1).size(), Polysize::Crc16);
    assert_eq!(Polynomial::Custom32(1).size(), Polysize::Crc32);
}

#[test]
fn a_block_computes_what_it_can() {
    assert!(Polynomial::Crc16Ccitt.is_supported(Block::Crc16));
    assert!(!Polynomial::Crc32.is_supported(Block::Crc16));
    assert!(Polynomial::Crc32.is_supported(Block::V1));
    assert!(!Polynomial::Custom16(1).is_supported(Block::V1));
    assert!(Polynomial::Custom32(1).is_supported(Block::P));
}

#[test]
fn bringing_up_each_block() {
    let mut bus = Bus::new();
    let ctrl = Ctrl {
        polysize: None,
        bitreverse: false,
        input_endianness: Endianness::Little,
        output_byteswap: false,
    };

    Crc::<Narrow>::new(Config::new(), &mut bus);
    assert_eq!(bus.take(), vec![Access::Reset, Access::Power(true), Access::Ctrl(ctrl)]);

    let config = Config { polynomial: Polynomial::Crc32, bit_reversed: true, ..Config::default() };
    Crc::<Wide>::new(config, &mut bus);
    assert_eq!(
        bus.take(),
        vec![
            Access::Reset,
            Access::Power(true),
            Access::Ctrl(Ctrl { polysize: Some(Polysize::Crc32), bitreverse: true, ..ctrl }),
        ]
    );

    let config = Config {
        polynomial: Polynomial::Custom16(0x8005),
        input_endianness: Endianness::Big,
        output_byteswap: true,
        ..Config::default()
    };
    Crc::<Programmable>::new(config, &mut bus);
    assert_eq!(
        bus.take(),
        vec![
            Access::Reset,
            Access::Power(true),
            Access::Poly(0x8005),
            Access::Ctrl(Ctrl {
                polysize: Some(Polysize::Crc16),
                bitreverse: false,
                input_endianness: Endianness::Big,
                output_byteswap: true,
            }),
        ]
    );
}

#[test]
fn feeding() {
    let mut bus = Bus::new();
    let mut crc = Crc::<Wide>::new(Config::new(), &mut bus);

    bus.take();
    crc.reset(0xFFFF, &mut bus);
    crc.feed_u8(1, &mut bus);
    crc.feed_u16(2, &mut bus);
    crc.feed_u32(3, &mut bus);
    crc.feed_bytes(&[4, 5], &mut bus);
    crc.feed_words(&[6, 7], &mut bus);
    assert_eq!(crc.result(0x29B1), 0x29B1);
    crc.release(&mut bus);
    assert_eq!(
        bus.take(),
        vec![
            Access::Seed(0xFFFF),
            Access::In8(1),
            Access::In16(2),
            Access::In32(3),
            Access::In8(4),
            Access::In8(5),
            Access::In32(6),
            Access::In32(7),
            Access::Power(false),
        ]
    );
}

#[test]
fn feeding_in_parts_makes_the_same_stores() {
    let mut whole = Bus::new();
    let mut parts = Bus::new();
    let mut crc = Crc::<Narrow>::new(Config::new(), &mut whole);

    whole.take();
    crc.feed_bytes(b"123456789", &mut whole);
    crc.feed_bytes(b"1234", &mut parts);
    crc.feed_bytes(b"", &mut parts);
    crc.feed_bytes(b"56789", &mut parts);
    assert_eq!(whole.accesses(), parts.accesses());
}
