use embassy_mspm0::bus::Bus;
use embassy_mspm0::flash::{
    blankness, check_range, is_aligned, physical_sector, protecting_bit, third, word_of_bytes, word_of_halves,
    Access, Cmdtype, Command, CpuCaches, Error, ErrorKind, Flash, Geometry, Mainnumbanks, Protection, Sramflash,
    Statcmd, Sweep, READ_SIZE, SECTORS_PER_WEPROTB_BIT, WORD_SIZE,
};

const CACHES: CpuCaches = CpuCaches { prefetch: true, icache: true, liten: false };

const QUIET: Statcmd = Statcmd {
    pass: false,
    failweprot: false,
    faililladdr: false,
    failmode: false,
    failinvdata: false,
    failverify: false,
};

/// One bank of 64 kB with the first 32 sectors protected a bit each.
fn single() -> Geometry {
    Geometry {
        size: 0x1_0000,
        sector_size: 1024,
        has_ecc: false,
        weprota_bits: 32,
        weprotb_bits: 12,
        bank_swap: false,
        reads_go_wrong: false,
    }
}

fn banks(kilobytes: u16, mainnumbanks: Mainnumbanks) -> Sramflash {
    Sramflash { mainflash_sz: kilobytes, mainnumbanks }
}

/// Every command of a sweep with its address, each passing.
fn commands(mut sweep: Sweep) -> Vec<(u32, Command)> {
    let mut commands = Vec::new();

    while let Some(current) = sweep.current() {
        commands.push(current);
        assert_eq!(sweep.advance(Ok(())), Ok(()));
    }
    commands
}

/// Every address of a sweep, each command passing.
fn visited(sweep: Sweep) -> Vec<u32> {
    commands(sweep).into_iter().map(|(address, _command)| address).collect()
}

#[test]
fn granularities() {
    assert_eq!(WORD_SIZE, 8);
    assert_eq!(READ_SIZE, 1);
    assert_eq!(SECTORS_PER_WEPROTB_BIT, 8);
    assert_eq!(Flash::new(single()).capacity(), 0x1_0000);
}

#[test]
fn range_is_inside_main() {
    assert_eq!(check_range(0x1_0000, 0, 0x1_0000), Ok(()));
    assert_eq!(check_range(0x1_0000, 0x1_0000, 0), Ok(()));
    assert_eq!(check_range(0x1_0000, 0x1_0000, 1), Err(Error::OutOfBounds));
    assert_eq!(check_range(0x1_0000, 8, usize::MAX), Err(Error::OutOfBounds));
}

#[test]
fn alignment_is_a_remainder() {
    assert!(is_aligned(0x400, 1024));
    assert!(!is_aligned(0x404, 1024));
    assert!(is_aligned(0x408, 8));
}

#[test]
fn error_kinds() {
    assert_eq!(Error::OutOfBounds.kind(), ErrorKind::OutOfBounds);
    assert_eq!(Error::NotAligned.kind(), ErrorKind::NotAligned);
    for other in [Error::Protected, Error::Verify, Error::IllegalAddress, Error::Mode, Error::NotErased, Error::Other] {
        assert_eq!(other.kind(), ErrorKind::Other);
    }
}

#[test]
fn read_copies_from_the_offset() {
    let mut flash = Flash::new(Geometry { size: 16, sector_size: 64, ..single() });
    let main: Vec<u8> = (0..16).collect();
    let mut bytes = [0xEE; 4];

    assert_eq!(flash.blocking_read(5, &mut bytes, &main), Ok(()));
    assert_eq!(bytes, [5, 6, 7, 8]);
    assert_eq!(flash.blocking_read(13, &mut bytes, &main), Err(Error::OutOfBounds));
    assert_eq!(bytes, [5, 6, 7, 8]);
}

#[test]
fn erase_visits_each_sector_once() {
    let mut flash = Flash::new(single());

    let Ok(sweep) = flash.blocking_erase(0xF000, 0xFC00) else { panic!() };
    assert_eq!(
        commands(sweep),
        vec![(0xF000, Command::Erase), (0xF400, Command::Erase), (0xF800, Command::Erase)]
    );
    let Ok(nothing) = flash.blocking_erase(0xF000, 0xF000) else { panic!() };
    assert_eq!(nothing.current(), None);
    assert!(matches!(flash.blocking_erase(0xF400, 0xF000), Err(Error::OutOfBounds)));
    assert!(matches!(flash.blocking_erase(0xF000, 0x1_0400), Err(Error::OutOfBounds)));
    assert!(matches!(flash.blocking_erase(0xF008, 0xF400), Err(Error::NotAligned)));
    assert!(matches!(flash.blocking_erase(0xF000, 0xF408), Err(Error::NotAligned)));
}

#[test]
fn failure_part_way_ends_the_sweep() {
    let mut flash = Flash::new(single());
    let Ok(mut sweep) = flash.blocking_erase(0xF000, 0xFC00) else { panic!() };

    assert_eq!(sweep.advance(Ok(())), Ok(()));
    assert_eq!(sweep.current(), Some((0xF400, Command::Erase)));
    assert_eq!(sweep.advance(Err(Error::Protected)), Err(Error::Protected));
    assert_eq!(sweep.current(), None);
}

#[test]
fn words_are_programmed_in_pairs() {
    let mut flash = Flash::new(single());
    let words = [0x1111_1111, 0x2222_2222, 0x3333_3333, 0x4444_4444];

    let Ok(sweep) = flash.blocking_write_words(0xF000, &words) else { panic!() };
    assert_eq!(visited(sweep), vec![0xF000, 0xF008]);
    assert_eq!(word_of_halves(0xF000, &words, 0xF000), Command::Program(0x1111_1111, 0x2222_2222));
    assert_eq!(word_of_halves(0xF000, &words, 0xF008), Command::Program(0x3333_3333, 0x4444_4444));
    assert!(matches!(flash.blocking_write_words(0xF000, &words[..3]), Err(Error::NotAligned)));
    assert!(matches!(flash.blocking_write_words(0xF004, &words), Err(Error::NotAligned)));
    assert!(matches!(flash.blocking_write_words(0xFFF8, &words), Err(Error::OutOfBounds)));
}

#[test]
fn bytes_become_little_endian_words() {
    let mut flash = Flash::new(single());
    let bytes: Vec<u8> = (1..=16).collect();

    let Ok(sweep) = flash.write_bytes(0xF000, &bytes) else { panic!() };
    assert_eq!(visited(sweep), vec![0xF000, 0xF008]);
    assert_eq!(word_of_bytes(0xF000, &bytes, 0xF000), Command::Program(0x0403_0201, 0x0807_0605));
    assert_eq!(word_of_bytes(0xF000, &bytes, 0xF008), Command::Program(0x0C0B_0A09, 0x100F_0E0D));
    assert!(matches!(flash.write_bytes(0xF000, &bytes[..7]), Err(Error::NotAligned)));
    assert!(matches!(flash.write_bytes(0xF001, &bytes), Err(Error::NotAligned)));
    assert!(matches!(flash.write_bytes(0x1_0000, &bytes), Err(Error::OutOfBounds)));
}

#[test]
fn blank_check_asks_and_reads_the_answer() {
    let mut flash = Flash::new(single());

    assert_eq!(flash.blocking_is_blank(0xF000), Ok(Command::Blankverify));
    assert_eq!(flash.blocking_is_blank(0xF004), Err(Error::NotAligned));
    assert_eq!(flash.blocking_is_blank(0xFFFC), Err(Error::OutOfBounds));
    assert_eq!(blankness(Ok(())), Ok(true));
    assert_eq!(blankness(Err(Error::Verify)), Ok(false));
    assert_eq!(blankness(Err(Error::Mode)), Err(Error::Mode));
}

#[test]
fn command_sequence_of_a_program() {
    let mut flash = Flash::new(Geometry { has_ecc: true, reads_go_wrong: true, ..single() });
    let mut bus = Bus::new();

    flash.prepare(Command::Program(1, 2), 0x1008, CACHES, &mut bus);
    assert_eq!(
        bus.take(),
        vec![
            Access::Cmdctl { addrxlateovr: false, eccgenovr: false, dataveren: true },
            Access::Caches(CpuCaches { prefetch: false, icache: false, liten: false }),
            Access::Drain,
            Access::Barrier,
            Access::Cmdtype(Cmdtype::Clearstatus),
            Access::ExecuteStatus,
            Access::Cmdtype(Cmdtype::ProgramOneword),
            Access::Cmdbyten { data: 0xff, ecc: true },
            Access::Cmddata(0, 1),
            Access::Cmddata(1, 2),
            Access::Cmdaddr(0x1008),
        ]
    );
    flash.launch(0x1008, banks(64, Mainnumbanks::Onebank), false, &mut bus);
    assert_eq!(bus.take(), vec![Access::UnprotectA(4), Access::Acquire, Access::Execute, Access::Release]);
    assert_eq!(flash.finish(CACHES, Statcmd { pass: true, ..QUIET }, &mut bus), Ok(()));
    assert_eq!(bus.take(), vec![Access::Caches(CACHES)]);
}

#[test]
fn erase_and_blank_check_take_no_operands() {
    let mut flash = Flash::new(single());
    let mut bus = Bus::new();

    flash.prepare(Command::Erase, 0xF000, CACHES, &mut bus);
    let erase = bus.take();
    assert_eq!(erase[6..], [Access::Cmdtype(Cmdtype::EraseSector), Access::Cmdaddr(0xF000)]);
    flash.prepare(Command::Blankverify, 0xF008, CACHES, &mut bus);
    let check = bus.take();
    assert_eq!(check[6..], [Access::Cmdtype(Cmdtype::BlankverifyOneword), Access::Cmdaddr(0xF008)]);
    flash.launch(0xF000, banks(64, Mainnumbanks::Onebank), false, &mut bus);
    assert_eq!(bus.take(), vec![Access::UnprotectB(3), Access::Execute]);
}

#[test]
fn status_is_reported_in_its_order() {
    let mut flash = Flash::new(single());
    let mut bus = Bus::new();
    let all = Statcmd {
        pass: false,
        failweprot: true,
        faililladdr: true,
        failmode: true,
        failinvdata: true,
        failverify: true,
    };

    assert_eq!(flash.finish(CACHES, all, &mut bus), Err(Error::Protected));
    let all = Statcmd { failweprot: false, ..all };
    assert_eq!(flash.finish(CACHES, all, &mut bus), Err(Error::IllegalAddress));
    let all = Statcmd { faililladdr: false, ..all };
    assert_eq!(flash.finish(CACHES, all, &mut bus), Err(Error::Mode));
    let all = Statcmd { failmode: false, ..all };
    assert_eq!(flash.finish(CACHES, all, &mut bus), Err(Error::NotErased));
    let all = Statcmd { failinvdata: false, ..all };
    assert_eq!(flash.finish(CACHES, all, &mut bus), Err(Error::Verify));
    assert_eq!(flash.finish(CACHES, QUIET, &mut bus), Err(Error::Other));
}

#[test]
fn reciprocal_multiply_divides_by_three() {
    for sectors in [0, 1, 2, 3, 4, 95, 96, 65_519, 65_520, 98_303] {
        assert_eq!(third(sectors), sectors / 3);
    }
}

#[test]
fn swapped_sector_is_in_the_other_half() {
    assert_eq!(physical_sector(5, 64, false), 5);
    assert_eq!(physical_sector(5, 64, true), 37);
    assert_eq!(physical_sector(37, 64, true), 5);
}

#[test]
fn single_bank_is_protected_past_weprota() {
    let flash = banks(64, Mainnumbanks::Onebank);

    assert_eq!(protecting_bit(single(), flash, false, 0), Some(Protection::A(0)));
    assert_eq!(protecting_bit(single(), flash, false, 31 * 1024), Some(Protection::A(31)));
    assert_eq!(protecting_bit(single(), flash, false, 32 * 1024), Some(Protection::B(0)));
    assert_eq!(protecting_bit(single(), flash, false, 40 * 1024), Some(Protection::B(1)));
    assert_eq!(protecting_bit(single(), flash, false, 63 * 1024 + 1023), Some(Protection::B(3)));
}

#[test]
fn without_weprota_each_bank_starts_at_its_base() {
    let geometry = Geometry { weprota_bits: 0, weprotb_bits: 32, ..single() };
    let flash = banks(64, Mainnumbanks::Twobanks);

    assert_eq!(protecting_bit(geometry, flash, false, 0), Some(Protection::B(0)));
    assert_eq!(protecting_bit(geometry, flash, false, 31 * 1024), Some(Protection::B(3)));
    assert_eq!(protecting_bit(geometry, flash, false, 32 * 1024), Some(Protection::B(0)));
}

#[test]
fn multi_bank_weprotb_starts_at_each_bank() {
    let geometry = Geometry { size: 0x4_0000, bank_swap: true, weprotb_bits: 16, ..single() };
    let flash = banks(256, Mainnumbanks::Twobanks);

    assert_eq!(protecting_bit(geometry, flash, false, 3 * 1024), Some(Protection::A(3)));
    assert_eq!(protecting_bit(geometry, flash, false, 40 * 1024), Some(Protection::B(5)));
    assert_eq!(protecting_bit(geometry, flash, false, 131 * 1024), Some(Protection::B(0)));
    // Swapped, the sectors of physical bank 0 are named by the upper half of the addresses.
    assert_eq!(protecting_bit(geometry, flash, true, 131 * 1024), Some(Protection::A(3)));
    assert_eq!(protecting_bit(geometry, flash, true, 3 * 1024), Some(Protection::B(0)));
}

#[test]
fn banks_of_three_and_four() {
    let geometry = Geometry { size: 0x6_0000, weprota_bits: 0, weprotb_bits: 32, ..single() };

    assert_eq!(
        protecting_bit(geometry, banks(96, Mainnumbanks::Threebanks), false, 33 * 1024),
        Some(Protection::B(0))
    );
    assert_eq!(
        protecting_bit(geometry, banks(128, Mainnumbanks::Fourbanks), false, 41 * 1024),
        Some(Protection::B(1))
    );
}

#[test]
fn no_register_has_the_bit() {
    let geometry = Geometry { weprotb_bits: 2, ..single() };
    let flash = banks(64, Mainnumbanks::Onebank);

    assert_eq!(protecting_bit(geometry, flash, false, 48 * 1024), None);
    let mut driver = Flash::new(geometry);
    let mut bus = Bus::new();
    driver.launch(48 * 1024, flash, false, &mut bus);
    assert_eq!(bus.take(), vec![Access::Execute]);
}

/// MAIN once a program command at `address` has passed.
fn store(main: &mut [u8], address: u32, command: Command) {
    match command {
        Command::Program(low, high) => {
            let at = address as usize;
            main[at..at + 4].copy_from_slice(&low.to_le_bytes());
            main[at + 4..at + 8].copy_from_slice(&high.to_le_bytes());
        }
        _ => unreachable!("a write programs"),
    }
}

#[test]
fn read_gives_back_what_was_written() {
    let mut flash = Flash::new(single());
    let mut main = vec![0u8; 0x1_0000];
    let bytes: Vec<u8> = (1..=24).collect();
    let sweep = flash.write_bytes(0x1008, &bytes).ok().unwrap();

    for (address, command) in commands(sweep) {
        store(&mut main, address, command);
    }
    let mut read = [0u8; 26];
    assert_eq!(flash.blocking_read(0x1007, &mut read, &main), Ok(()));
    assert_eq!((read[0], &read[1..25], read[25]), (0, &bytes[..], 0));

    let words = [0x0403_0201, 0x0807_0605];
    let sweep = flash.blocking_write_words(0x2000, &words).ok().unwrap();
    for (address, command) in commands(sweep) {
        store(&mut main, address, command);
    }
    let mut read = [0u8; 8];
    assert_eq!(flash.blocking_read(0x2000, &mut read, &main), Ok(()));
    assert_eq!(read, [1, 2, 3, 4, 5, 6, 7, 8]);
}
