//! Flash memory controller (FLASHCTL).
//!
//! Erase and program the MAIN flash region, the same memory the application runs from.
//!
//! An offset is an address: MAIN starts at zero. Nothing here reserves a region, so a caller keeps its
//! data away from its code.
//!
//! # Erased flash does not read as `0xFF`
//!
//! An erased word returns nondeterministic data, so a checksum, a magic number or a run of `0xFF` cannot
//! tell "erased" from "written". [`Flash::blocking_is_blank`] asks the controller instead.
//!
//! # One program per word per erase, and the driver enforces it
//!
//! A flash word is eight bytes and can be programmed once between erases. Left to itself the controller
//! does not report a write it cannot perform. `CMDCTL.DATAVEREN` is what turns that into
//! [`Error::NotErased`], and this driver sets it.
//!
//! # Running a command
//!
//! A command takes three steps, because two readings are taken part way: [`Flash::prepare`] up to the
//! address, [`Flash::launch`] once the factory region has been read with the cache off, and
//! [`Flash::finish`] once the controller reports the command done.

use crate::bus::Bus;
use vstd::arithmetic::div_mod::{lemma_fundamental_div_mod, lemma_fundamental_div_mod_converse, lemma_small_mod};
use vstd::prelude::*;

verus! {

/// Program granularity, in bytes. A write covers whole flash words and starts on one.
pub const WORD_SIZE: u32 = 8;

/// Sectors covered by one `CMDWEPROTB` bit.
pub const SECTORS_PER_WEPROTB_BIT: u32 = 8;

/// Read granularity, in bytes.
pub const READ_SIZE: usize = 1;

/// What a device's metadata says of its flash.
#[derive(Debug, Copy, Clone, PartialEq, Eq, Structural)]
pub struct Geometry {
    /// Size of the MAIN flash region, in bytes.
    pub size: u32,
    /// Erase granularity, in bytes. An erase covers whole sectors and starts on one.
    pub sector_size: u32,
    /// Whether words carry an ECC byte.
    pub has_ecc: bool,
    /// Sectors covered by `CMDWEPROTA`, which protects them one bit each.
    pub weprota_bits: u32,
    /// Bits of `CMDWEPROTB`.
    pub weprotb_bits: u32,
    /// Whether the banks can be swapped.
    pub bank_swap: bool,
    /// Whether `FLASH_ERR_06` applies: a read taken while the controller owns the bank comes back wrong.
    pub reads_go_wrong: bool,
}

impl Geometry {
    /// Whether the figures describe a device: the sectors the factory region can count stay countable,
    /// and the protection registers are 32 bits at most.
    pub open spec fn valid(self) -> bool {
        &&& 64 <= self.sector_size
        &&& self.weprota_bits <= 32
        &&& self.weprotb_bits <= 32
    }
}

/// What went wrong.
#[derive(Debug, Copy, Clone, PartialEq, Eq, Structural)]
pub enum Error {
    /// The range is not inside the MAIN region.
    OutOfBounds,
    /// An offset or a length that is not a whole number of sectors, or of flash words.
    NotAligned,
    /// The sector is write protected, and not by anything this driver did.
    Protected,
    /// The controller could not finish within its pulse-count limit, so the word or sector did not
    /// reach the state asked for. From a blank check it means the word is not blank.
    Verify,
    /// The address is outside any region the command may touch.
    IllegalAddress,
    /// A bank was left in a mode other than read, so no program or erase can run.
    Mode,
    /// A program tried to return a stored zero to one, which only an erase can do.
    NotErased,
    /// The controller reported a failure it does not break down further.
    Other,
}

/// What kind of error a storage user sees.
#[derive(Debug, Copy, Clone, PartialEq, Eq, Structural)]
pub enum ErrorKind {
    /// The arguments are not properly aligned.
    NotAligned,
    /// The arguments are out of bounds.
    OutOfBounds,
    /// Something else.
    Other,
}

impl Error {
    /// What kind of error a storage user sees.
    pub open spec fn kind_spec(self) -> ErrorKind {
        match self {
            Error::OutOfBounds => ErrorKind::OutOfBounds,
            Error::NotAligned => ErrorKind::NotAligned,
            _ => ErrorKind::Other,
        }
    }

    /// What kind of error a storage user sees.
    pub fn kind(&self) -> (kind: ErrorKind)
        ensures
            kind == self.kind_spec(),
    {
        match self {
            Error::OutOfBounds => ErrorKind::OutOfBounds,
            Error::NotAligned => ErrorKind::NotAligned,
            _ => ErrorKind::Other,
        }
    }
}

/// What the CPU's `CPUSS.CTL` switches on.
#[derive(Debug, Copy, Clone, PartialEq, Eq, Structural)]
pub struct CpuCaches {
    /// Prefetcher.
    pub prefetch: bool,
    /// Instruction cache.
    pub icache: bool,
    /// Literal cache.
    pub liten: bool,
}

/// How many banks MAIN has.
#[derive(Debug, Copy, Clone, PartialEq, Eq, Structural)]
pub enum Mainnumbanks {
    /// One bank.
    Onebank,
    /// Two banks.
    Twobanks,
    /// Three banks.
    Threebanks,
    /// Four banks.
    Fourbanks,
}

impl Mainnumbanks {
    /// The count.
    pub open spec fn count(self) -> int {
        match self {
            Mainnumbanks::Onebank => 1,
            Mainnumbanks::Twobanks => 2,
            Mainnumbanks::Threebanks => 3,
            Mainnumbanks::Fourbanks => 4,
        }
    }
}

/// The device's own view of its flash, in the factory region.
#[derive(Debug, Copy, Clone, PartialEq, Eq, Structural)]
pub struct Sramflash {
    /// Size of MAIN in kilobytes: twelve bits.
    pub mainflash_sz: u16,
    /// Banks of MAIN.
    pub mainnumbanks: Mainnumbanks,
}

/// What a finished command reported.
#[derive(Debug, Copy, Clone, PartialEq, Eq, Structural)]
pub struct Statcmd {
    /// The command passed.
    pub pass: bool,
    /// Write protection failure.
    pub failweprot: bool,
    /// Illegal address failure.
    pub faililladdr: bool,
    /// Bank mode failure.
    pub failmode: bool,
    /// Invalid data failure.
    pub failinvdata: bool,
    /// Verify failure.
    pub failverify: bool,
}

/// A command of the controller, with its operands.
#[derive(Debug, Copy, Clone, PartialEq, Eq, Structural)]
pub enum Command {
    /// Erase the sector at an address.
    Erase,
    /// Program one flash word, given its low and its high half.
    Program(u32, u32),
    /// Ask whether one flash word is blank.
    Blankverify,
}

/// `CMDTYPE`.
#[derive(Debug, Copy, Clone, PartialEq, Eq, Structural)]
pub enum Cmdtype {
    /// Clear the status.
    Clearstatus,
    /// Erase one sector.
    EraseSector,
    /// Program one word.
    ProgramOneword,
    /// Blank-verify one word.
    BlankverifyOneword,
}

/// One access made while running a command.
#[derive(Debug, Copy, Clone, PartialEq, Eq, Structural)]
pub enum Access {
    /// Enter a critical section.
    Acquire,
    /// Leave the critical section.
    Release,
    /// Read-modify-write of `CMDCTL`.
    Cmdctl {
        /// `CMDADDR` is a bank offset rather than a system address.
        addrxlateovr: bool,
        /// The ECC byte is taken from `CMDDATAECC` rather than computed from the data.
        eccgenovr: bool,
        /// A program that would return a stored zero to one is refused.
        dataveren: bool,
    },
    /// Write `CPUSS.CTL`.
    Caches(CpuCaches),
    /// A read of another bus slave, which lets a pending flash access complete.
    Drain,
    /// Data and instruction barriers.
    Barrier,
    /// Write `CMDTYPE`.
    Cmdtype(Cmdtype),
    /// Write `CMDBYTEN`.
    Cmdbyten {
        /// Data bytes, one bit each.
        data: u8,
        /// The ECC byte.
        ecc: bool,
    },
    /// Write one `CMDDATA` register.
    Cmddata(u8, u32),
    /// Write `CMDADDR`.
    Cmdaddr(u32),
    /// Write `CMDEXEC`, and spin until the controller is no longer in progress.
    ExecuteStatus,
    /// From RAM: write `CMDEXEC`, and spin until the controller reports done.
    Execute,
    /// Read-modify-write of `CMDWEPROTA` that clears this bit.
    UnprotectA(u32),
    /// Read-modify-write of `CMDWEPROTB` that clears this bit.
    UnprotectB(u32),
}

/// Whether `len` bytes from `offset` are inside a region of `size` bytes.
pub open spec fn in_range(size: u32, offset: u32, len: int) -> bool {
    offset + len <= size
}

/// Whether `len` bytes from `offset` are inside MAIN.
pub fn check_range(size: u32, offset: u32, len: usize) -> (checked: Result<(), Error>)
    ensures
        checked == (if in_range(size, offset, len as int) {
            Ok(())
        } else {
            Err::<(), Error>(Error::OutOfBounds)
        }),
{
    match (offset as usize).checked_add(len) {
        Some(end) => if end <= size as usize {
            Ok(())
        } else {
            Err(Error::OutOfBounds)
        },
        None => Err(Error::OutOfBounds),
    }
}

/// Whether `offset` starts on a boundary of `granularity`.
pub fn is_aligned(offset: u32, granularity: u32) -> (aligned: bool)
    requires
        granularity > 0,
    ensures
        aligned == (offset as int % granularity as int == 0),
{
    offset % granularity == 0
}

/// Where a sector physically sits, which is where it sits logically unless the banks are swapped.
pub open spec fn physical(sector: int, sectors: int, swapped: bool) -> int {
    if !swapped {
        sector
    } else if sector >= sectors / 2 {
        sector - sectors / 2
    } else {
        sector + sectors / 2
    }
}

/// Where a sector physically sits, which is where it sits logically unless the banks are swapped.
///
/// `CMDWEPROTA` protects physical bank 0, so a swap moves which of its sectors an address reaches.
pub fn physical_sector(sector: u32, sectors: u32, swapped: bool) -> (at: u32)
    requires
        sector + sectors / 2 <= u32::MAX,
    ensures
        at == physical(sector as int, sectors as int, swapped),
{
    if !swapped {
        return sector;
    }
    let half: u32 = sectors / 2;

    if sector >= half {
        sector - half
    } else {
        sector + half
    }
}

/// Swapping the banks of a device twice puts every sector back where it was, and no two sectors change
/// places with the same one.
pub proof fn bank_swap_is_an_involution(sector: int, sectors: int)
    requires
        0 <= sector < sectors,
        sectors % 2 == 0,
    ensures
        0 <= physical(sector, sectors, true) < sectors,
        physical(physical(sector, sectors, true), sectors, true) == sector,
{
}

/// The bit that protects a sector.
#[derive(Debug, Copy, Clone, PartialEq, Eq, Structural)]
pub enum Protection {
    /// A bit of `CMDWEPROTA`.
    A(u32),
    /// A bit of `CMDWEPROTB`.
    B(u32),
}

/// Sectors of the whole of MAIN, as the factory region counts them.
pub open spec fn sectors_of(geometry: Geometry, flash: Sramflash) -> int {
    flash.mainflash_sz * 1024 / geometry.sector_size as int
}

/// Sectors of one bank.
pub open spec fn sectors_per_bank(geometry: Geometry, flash: Sramflash) -> int {
    sectors_of(geometry, flash) / flash.mainnumbanks.count()
}

/// Position of a sector within its bank.
pub open spec fn sector_in_bank(geometry: Geometry, flash: Sramflash, sector: int) -> int {
    let per_bank = sectors_per_bank(geometry, flash);

    if per_bank > 0 {
        sector % per_bank
    } else {
        sector
    }
}

/// The bit that protects the sector `address` is in, if a register has it.
///
/// Without `CMDWEPROTA`, `CMDWEPROTB` covers each bank from its first sector, eight to a bit. With it,
/// `CMDWEPROTA` protects physical bank 0 a sector at a time, and past it `CMDWEPROTB` takes over: on a
/// single-bank part above the sectors `CMDWEPROTA` covers, on a multi-bank part from each bank's base.
pub open spec fn protection_of(
    geometry: Geometry,
    flash: Sramflash,
    swapped: bool,
    address: u32,
) -> Option<Protection> {
    let sector = address as int / geometry.sector_size as int;
    let in_bank = sector_in_bank(geometry, flash, sector);
    let at = physical(sector, sectors_of(geometry, flash), geometry.bank_swap && swapped);

    if geometry.weprota_bits == 0 {
        register_b(geometry, in_bank / 8 % 32)
    } else if at < geometry.weprota_bits {
        Some(Protection::A(at as u32))
    } else if flash.mainnumbanks == Mainnumbanks::Onebank {
        if in_bank < geometry.weprota_bits {
            None
        } else {
            register_b(geometry, (in_bank - geometry.weprota_bits) / 8)
        }
    } else {
        register_b(geometry, in_bank / 8)
    }
}

/// A bit of `CMDWEPROTB`, if the register is that wide.
pub open spec fn register_b(geometry: Geometry, bit: int) -> Option<Protection> {
    if bit < geometry.weprotb_bits {
        Some(Protection::B(bit as u32))
    } else {
        None
    }
}

/// Multiplying by `0xAAAB` and shifting is dividing by three, for every sector count there is.
pub fn third(sectors: u32) -> (third: u32)
    requires
        sectors <= 98_303,
    ensures
        third == sectors as int / 3,
{
    let product: u32 = sectors * 0xAAAB;
    assert(product >> 17 == product / 0x2_0000) by (bit_vector);
    proof {
        let q = sectors as int / 3;
        let r = sectors as int % 3;
        assert(product == q * 0x2_0000 + (q + r * 0xAAAB));
        lemma_fundamental_div_mod_converse(product as int, 0x2_0000, q, q + r * 0xAAAB);
    }
    product >> 17
}

/// The bit that protects the sector `address` is in, if a register has it.
pub fn protecting_bit(
    geometry: Geometry,
    flash: Sramflash,
    swapped: bool,
    address: u32,
) -> (protection: Option<Protection>)
    requires
        geometry.valid(),
        flash.mainflash_sz <= 4095,
    ensures
        protection == protection_of(geometry, flash, swapped, address),
{
    let sector: u32 = address / geometry.sector_size;
    let sectors: u32 = flash.mainflash_sz as u32 * 1024 / geometry.sector_size;

    proof {
        assert(sectors <= 65_520 && sector <= 67_108_863) by (nonlinear_arith)
            requires
                sectors == flash.mainflash_sz * 1024 / geometry.sector_size as int,
                sector == address as int / geometry.sector_size as int,
                flash.mainflash_sz <= 4095,
                geometry.sector_size >= 64,
        ;
    }
    let per_bank: u32 = match flash.mainnumbanks {
        Mainnumbanks::Onebank => sectors,
        Mainnumbanks::Twobanks => sectors / 2,
        Mainnumbanks::Threebanks => third(sectors),
        Mainnumbanks::Fourbanks => sectors / 4,
    };
    let mut in_bank: u32 = sector;

    while per_bank > 0 && in_bank >= per_bank
        invariant
            per_bank > 0 ==> in_bank as int % per_bank as int == sector as int % per_bank as int,
            per_bank == 0 ==> in_bank == sector,
        decreases in_bank,
    {
        proof {
            vstd::arithmetic::div_mod::lemma_mod_sub_multiples_vanish(in_bank as int, per_bank as int);
        }
        in_bank -= per_bank;
    }
    proof {
        if per_bank > 0 {
            lemma_small_mod(in_bank as nat, per_bank as nat);
        }
        assert(in_bank == sector_in_bank(geometry, flash, sector as int));
    }
    if geometry.weprota_bits == 0 {
        return weprotb(geometry, in_bank / SECTORS_PER_WEPROTB_BIT % 32);
    }
    let at: u32 = physical_sector(sector, sectors, geometry.bank_swap && swapped);

    if at < geometry.weprota_bits {
        return Some(Protection::A(at));
    }
    if matches!(flash.mainnumbanks, Mainnumbanks::Onebank) {
        if in_bank < geometry.weprota_bits {
            return None;
        }
        return weprotb(geometry, (in_bank - geometry.weprota_bits) / SECTORS_PER_WEPROTB_BIT);
    }
    weprotb(geometry, in_bank / SECTORS_PER_WEPROTB_BIT)
}

fn weprotb(geometry: Geometry, bit: u32) -> (protection: Option<Protection>)
    ensures
        protection == register_b(geometry, bit as int),
{
    if bit < geometry.weprotb_bits {
        Some(Protection::B(bit))
    } else {
        None
    }
}

/// Clearing the bit of one sector unprotects little else: through `CMDWEPROTA` that physical sector alone,
/// and through `CMDWEPROTB` only sectors of the same group of eight, counted from the base of their banks or, on
/// a single bank that `CMDWEPROTA` covers the start of, from the first sector past that.
pub proof fn unprotecting_reaches_little_else(
    geometry: Geometry,
    flash: Sramflash,
    swapped: bool,
    address: u32,
    other: u32,
)
    requires
        geometry.valid(),
        protection_of(geometry, flash, swapped, address) is Some,
        protection_of(geometry, flash, swapped, address) == protection_of(geometry, flash, swapped, other),
        sectors_per_bank(geometry, flash) <= 256,
        sectors_per_bank(geometry, flash) > 0,
    ensures
        ({
            let sector = address as int / geometry.sector_size as int;
            let sector2 = other as int / geometry.sector_size as int;
            let sectors = sectors_of(geometry, flash);
            let swap = geometry.bank_swap && swapped;

            &&& protection_of(geometry, flash, swapped, address)->0 is A ==> physical(sector, sectors, swap)
                == physical(sector2, sectors, swap)
            &&& protection_of(geometry, flash, swapped, address)->0 is B && (geometry.weprota_bits == 0
                || flash.mainnumbanks != Mainnumbanks::Onebank) ==> sector_in_bank(geometry, flash, sector) / 8
                == sector_in_bank(geometry, flash, sector2) / 8
            &&& protection_of(geometry, flash, swapped, address)->0 is B && geometry.weprota_bits > 0
                && flash.mainnumbanks == Mainnumbanks::Onebank ==> (sector_in_bank(geometry, flash, sector)
                - geometry.weprota_bits) / 8 == (sector_in_bank(geometry, flash, sector2) - geometry.weprota_bits) / 8
        }),
{
    let sector = address as int / geometry.sector_size as int;
    let sector2 = other as int / geometry.sector_size as int;
    assert(sector >= 0 && sector2 >= 0) by (nonlinear_arith)
        requires
            sector == address as int / geometry.sector_size as int,
            sector2 == other as int / geometry.sector_size as int,
            geometry.sector_size >= 64,
    ;
    assert(0 <= sector_in_bank(geometry, flash, sector) < 256);
    assert(0 <= sector_in_bank(geometry, flash, sector2) < 256);
    let sectors = sectors_of(geometry, flash);
    let swap = geometry.bank_swap && swapped;
    assert(physical(sector, sectors, swap) >= 0);
    assert(physical(sector2, sectors, swap) >= 0);
}

/// What selecting a command and loading its operands asks for.
pub open spec fn operands(command: Command, has_ecc: bool) -> Seq<Access> {
    match command {
        Command::Erase => seq![Access::Cmdtype(Cmdtype::EraseSector)],
        Command::Program(low, high) => seq![
            Access::Cmdtype(Cmdtype::ProgramOneword),
            Access::Cmdbyten { data: 0xff, ecc: has_ecc },
            Access::Cmddata(0, low),
            Access::Cmddata(1, high),
        ],
        Command::Blankverify => seq![Access::Cmdtype(Cmdtype::BlankverifyOneword)],
    }
}

/// What a command asks for up to its address. Clearing the status also restores full write protection, so
/// the unprotect follows it.
pub open spec fn prepare_accesses(command: Command, address: u32, has_ecc: bool, saved: CpuCaches) -> Seq<Access> {
    seq![
        Access::Cmdctl { addrxlateovr: false, eccgenovr: false, dataveren: true },
        Access::Caches(CpuCaches { prefetch: false, icache: false, liten: false, ..saved }),
        Access::Drain,
        Access::Barrier,
        Access::Cmdtype(Cmdtype::Clearstatus),
        Access::ExecuteStatus,
    ] + operands(command, has_ecc) + seq![Access::Cmdaddr(address)]
}

/// What unprotecting a sector asks for.
pub open spec fn unprotect_accesses(protection: Option<Protection>) -> Seq<Access> {
    match protection {
        Some(Protection::A(bit)) => seq![Access::UnprotectA(bit)],
        Some(Protection::B(bit)) => seq![Access::UnprotectB(bit)],
        None => Seq::empty(),
    }
}

/// What executing a command asks for. Where a read during a command comes back wrong, nothing else may
/// run meanwhile.
pub open spec fn execute_accesses(reads_go_wrong: bool) -> Seq<Access> {
    if reads_go_wrong {
        seq![Access::Acquire, Access::Execute, Access::Release]
    } else {
        seq![Access::Execute]
    }
}

/// What a finished command comes to.
pub open spec fn outcome(status: Statcmd) -> Result<(), Error> {
    if status.pass {
        Ok(())
    } else if status.failweprot {
        Err(Error::Protected)
    } else if status.faililladdr {
        Err(Error::IllegalAddress)
    } else if status.failmode {
        Err(Error::Mode)
    } else if status.failinvdata {
        Err(Error::NotErased)
    } else if status.failverify {
        Err(Error::Verify)
    } else {
        Err(Error::Other)
    }
}

/// The addresses from `from`, `step` apart, below `to`.
pub open spec fn addresses(from: int, to: int, step: int) -> Seq<int>
    decreases
        (if from < to {
            to - from
        } else {
            0
        }),
{
    if step <= 0 || from >= to {
        Seq::empty()
    } else {
        seq![from] + addresses(from + step, to, step)
    }
}

/// What a multi-command operation does at each of its addresses.
#[derive(Clone, Copy)]
pub enum Job<'a> {
    /// Erase the sector there.
    Erase,
    /// Program the word there, of these bytes from this offset on.
    Bytes(u32, &'a [u8]),
    /// Program the word there, of these halves from this offset on.
    Words(u32, &'a [u32]),
}

impl<'a> Job<'a> {
    /// The command at an address.
    pub open spec fn command_at(self, address: int) -> Command {
        match self {
            Job::Erase => Command::Erase,
            Job::Bytes(offset, bytes) => word_command(bytes@, address - offset),
            Job::Words(offset, words) => pair_command(words@, address - offset),
        }
    }

    /// Whether there is a command at each address from `next` to `end`, `step` apart.
    spec fn covers(self, next: int, end: int, step: int) -> bool {
        match self {
            Job::Erase => true,
            Job::Bytes(offset, bytes) => {
                &&& step == 8
                &&& offset <= next
                &&& end == offset + bytes@.len()
            },
            Job::Words(offset, words) => {
                &&& step == 8
                &&& offset <= next
                &&& (next - offset) % 8 == 0
                &&& end == offset + words@.len() * 4
            },
        }
    }
}

/// The commands a multi-command operation still has to run, in order.
///
/// Run [`Sweep::current`], and report its result to [`Sweep::advance`], until either there is no current
/// command or one has failed.
pub struct Sweep<'a> {
    job: Job<'a>,
    next: u32,
    end: u32,
    step: u32,
}

impl<'a> Sweep<'a> {
    #[verifier::type_invariant]
    spec fn steps_forward(self) -> bool {
        &&& self.step > 0
        &&& self.next <= self.end
        &&& (self.end - self.next) % (self.step as int) == 0
        &&& self.next < self.end ==> self.job.covers(self.next as int, self.end as int, self.step as int)
    }

    /// What is done at each address.
    pub closed spec fn job(&self) -> Job<'a> {
        self.job
    }

    /// The addresses left, in order.
    pub closed spec fn pending(&self) -> Seq<int> {
        addresses(self.next as int, self.end as int, self.step as int)
    }

    fn new(job: Job<'a>, next: u32, end: u32, step: u32) -> (sweep: Self)
        requires
            step > 0,
            next <= end,
            (end - next) % (step as int) == 0,
            job.covers(next as int, end as int, step as int),
        ensures
            sweep.job() == job,
            sweep.pending() == addresses(next as int, end as int, step as int),
    {
        Sweep { job, next, end, step }
    }

    /// The address of the next command, and the command.
    pub fn current(&self) -> (current: Option<(u32, Command)>)
        ensures
            match current {
                Some((address, command)) => {
                    &&& self.pending().len() > 0
                    &&& self.pending()[0] == address
                    &&& command == self.job().command_at(address as int)
                },
                None => self.pending().len() == 0,
            },
    {
        proof {
            use_type_invariant(self);
        }
        if self.next < self.end {
            proof {
                lemma_step_fits((self.end - self.next) as int, self.step as int);
            }
            let command = match self.job {
                Job::Erase => Command::Erase,
                Job::Bytes(offset, bytes) => word_of_bytes(offset, bytes, self.next),
                Job::Words(offset, words) => word_of_halves(offset, words, self.next),
            };

            Some((self.next, command))
        } else {
            None
        }
    }

    /// Take the result of the current command.
    ///
    /// A failure ends the operation and is what it comes to: what ran before it stays done.
    pub fn advance(&mut self, result: Result<(), Error>) -> (carry_on: Result<(), Error>)
        requires
            old(self).pending().len() > 0,
        ensures
            carry_on == result,
            final(self).job() == old(self).job(),
            final(self).pending() == (if result is Ok {
                old(self).pending().drop_first()
            } else {
                Seq::<int>::empty()
            }),
    {
        proof {
            use_type_invariant(&*self);
        }
        if result.is_ok() {
            proof {
                let left = (self.end - self.next) as int;
                lemma_step_fits(left, self.step as int);
                assert(self.pending().drop_first() =~= addresses(
                    self.next + self.step,
                    self.end as int,
                    self.step as int,
                ));
            }
            self.next = self.next + self.step;
        } else {
            proof {
                lemma_small_mod(0, self.step as nat);
            }
            self.next = self.end;
        }
        result
    }
}

/// A positive multiple of a step is at least one step, and stays a multiple one step down.
proof fn lemma_step_fits(left: int, step: int)
    requires
        0 < left,
        0 < step,
        left % step == 0,
    ensures
        step <= left,
        (left - step) % step == 0,
{
    if left < step {
        lemma_small_mod(left as nat, step as nat);
    }
    vstd::arithmetic::div_mod::lemma_mod_sub_multiples_vanish(left, step);
}

/// A sweep visits every multiple of its step in its range exactly once, in ascending order.
pub proof fn sweep_covers_its_range(from: int, to: int, step: int)
    requires
        0 < step,
        from <= to,
        (to - from) % step == 0,
    ensures
        addresses(from, to, step).len() == (to - from) / step,
        forall|i: int|
            0 <= i < addresses(from, to, step).len() ==> #[trigger] addresses(from, to, step)[i] == from + i * step,
    decreases to - from,
{
    if from < to {
        lemma_step_fits(to - from, step);
        sweep_covers_its_range(from + step, to, step);
        let rest = addresses(from + step, to, step);
        let all = addresses(from, to, step);
        assert(all =~= seq![from] + rest);
        assert((to - from) / step == (to - from - step) / step + 1) by {
            lemma_fundamental_div_mod(to - from - step, step);
            let q = (to - from - step) / step;
            assert(to - from == (q + 1) * step + 0) by (nonlinear_arith)
                requires
                    to - from - step == step * q + (to - from - step) % step,
                    (to - from - step) % step == 0,
            ;
            lemma_fundamental_div_mod_converse(to - from, step, q + 1, 0);
        }
        assert forall|i: int| 0 <= i < all.len() implies #[trigger] all[i] == from + i * step by {
            if i > 0 {
                assert(all[i] == rest[i - 1]);
                assert(from + step + (i - 1) * step == from + i * step) by (nonlinear_arith);
            } else {
                assert(i * step == 0) by (nonlinear_arith)
                    requires
                        i == 0,
                ;
            }
        }
    } else {
        assert((to - from) / step == 0) by {
            lemma_fundamental_div_mod_converse(0, step, 0, 0);
        }
    }
}

/// Flash controller driver.
pub struct Flash {
    geometry: Geometry,
}

impl Flash {
    #[verifier::type_invariant]
    spec fn geometry_is_valid(self) -> bool {
        self.geometry.valid()
    }

    /// What the device's metadata says of its flash.
    pub closed spec fn geometry(&self) -> Geometry {
        self.geometry
    }

    /// Take the flash controller.
    ///
    /// Nothing is written and no protection is changed until an erase or a program asks for it.
    pub fn new(geometry: Geometry) -> (flash: Self)
        requires
            geometry.valid(),
        ensures
            flash.geometry() == geometry,
    {
        Flash { geometry }
    }

    /// Size of the MAIN flash region, in bytes.
    pub fn capacity(&self) -> (size: usize)
        ensures
            size == self.geometry().size,
    {
        self.geometry.size as usize
    }

    /// Read `bytes` from `offset` of `main`, the MAIN region.
    ///
    /// A plain memory read, with a bounds check. Reading a location that has been erased and not
    /// programmed gives nondeterministic data.
    pub fn blocking_read(&mut self, offset: u32, bytes: &mut [u8], main: &[u8]) -> (read: Result<(), Error>)
        requires
            main@.len() == old(self).geometry().size,
        ensures
            *final(self) == *old(self),
            final(bytes)@.len() == old(bytes)@.len(),
            match read {
                Ok(()) => {
                    &&& in_range(old(self).geometry().size, offset, old(bytes)@.len() as int)
                    &&& final(bytes)@ == main@.subrange(offset as int, offset + old(bytes)@.len())
                },
                Err(error) => {
                    &&& !in_range(old(self).geometry().size, offset, old(bytes)@.len() as int)
                    &&& error == Error::OutOfBounds
                    &&& final(bytes)@ == old(bytes)@
                },
            },
    {
        match check_range(self.geometry.size, offset, bytes.len()) {
            Ok(()) => {},
            Err(error) => {
                return Err(error);
            },
        }
        let len: usize = bytes.len();
        let size: usize = main.len();
        let mut next: usize = 0;

        while next < len
            invariant
                next <= len,
                len == bytes@.len(),
                size == main@.len(),
                offset + len <= size,
                forall|i: int| 0 <= i < next ==> bytes@[i] == main@[offset + i],
            decreases len - next,
        {
            bytes[next] = main[offset as usize + next];
            next += 1;
        }
        Ok(())
    }

    /// Why an erase of `from` up to `to` is refused, if it is.
    pub open spec fn erase_refusal(&self, from: u32, to: u32) -> Option<Error> {
        let sector = self.geometry().sector_size as int;

        if to < from || !in_range(self.geometry().size, from, to - from) {
            Some(Error::OutOfBounds)
        } else if from as int % sector != 0 || to as int % sector != 0 {
            Some(Error::NotAligned)
        } else {
            None
        }
    }

    /// Erase every sector from `from` up to `to`, by the commands of the sweep: a [`Command::Erase`] each.
    ///
    /// Both have to be sector boundaries. The sectors are erased one at a time, so a failure part
    /// way through leaves the earlier ones erased.
    pub fn blocking_erase(&mut self, from: u32, to: u32) -> (erase: Result<Sweep<'static>, Error>)
        ensures
            *final(self) == *old(self),
            match old(self).erase_refusal(from, to) {
                Some(error) => erase is Err && erase->Err_0 == error,
                None => erase is Ok && erase->Ok_0.job() == Job::Erase && erase->Ok_0.pending() == addresses(
                    from as int,
                    to as int,
                    old(self).geometry().sector_size as int,
                ),
            },
    {
        proof {
            use_type_invariant(&*self);
        }
        if to < from {
            return Err(Error::OutOfBounds);
        }
        match check_range(self.geometry.size, from, (to - from) as usize) {
            Ok(()) => {},
            Err(error) => {
                return Err(error);
            },
        }
        if !is_aligned(from, self.geometry.sector_size) || !is_aligned(to, self.geometry.sector_size) {
            return Err(Error::NotAligned);
        }
        proof {
            lemma_multiples_differ_by_one(from as int, to as int, self.geometry.sector_size as int);
        }
        Ok(Sweep::new(Job::Erase, from, to, self.geometry.sector_size))
    }

    /// Why a program of `len` bytes at `offset` is refused, if it is.
    pub open spec fn write_refusal(&self, offset: u32, len: int) -> Option<Error> {
        if !in_range(self.geometry().size, offset, len) {
            Some(Error::OutOfBounds)
        } else if offset % 8 != 0 || len % 8 != 0 {
            Some(Error::NotAligned)
        } else {
            None
        }
    }

    /// Program `bytes` at `offset`, by the commands of the sweep: the [`word_of_bytes`] at each address.
    pub fn write_bytes<'a>(&mut self, offset: u32, bytes: &'a [u8]) -> (write: Result<Sweep<'a>, Error>)
        ensures
            *final(self) == *old(self),
            match old(self).write_refusal(offset, bytes@.len() as int) {
                Some(error) => write is Err && write->Err_0 == error,
                None => write is Ok && write->Ok_0.job() == Job::Bytes(offset, bytes) && write->Ok_0.pending()
                    == addresses(offset as int, offset + bytes@.len(), 8),
            },
    {
        match check_range(self.geometry.size, offset, bytes.len()) {
            Ok(()) => {},
            Err(error) => {
                return Err(error);
            },
        }
        if !is_aligned(offset, WORD_SIZE) || bytes.len() % 8 != 0 {
            return Err(Error::NotAligned);
        }
        Ok(Sweep::new(Job::Bytes(offset, bytes), offset, offset + bytes.len() as u32, WORD_SIZE))
    }

    /// Program whole flash words at `offset`, by the commands of the sweep: the [`word_of_halves`] at each
    /// address.
    ///
    /// A flash word is [`WORD_SIZE`] bytes, so `words` is consumed in pairs and its length has to be
    /// even. The offset has to be word-aligned, and every word has to have been erased since it was
    /// last programmed.
    pub fn blocking_write_words<'a>(&mut self, offset: u32, words: &'a [u32]) -> (write: Result<Sweep<'a>, Error>)
        requires
            words@.len() * 4 <= usize::MAX,
        ensures
            *final(self) == *old(self),
            match old(self).write_refusal(offset, (words@.len() * 4) as int) {
                Some(error) => write is Err && write->Err_0 == error,
                None => write is Ok && write->Ok_0.job() == Job::Words(offset, words) && write->Ok_0.pending()
                    == addresses(offset as int, offset + words@.len() * 4, 8),
            },
    {
        match check_range(self.geometry.size, offset, words.len() * 4) {
            Ok(()) => {},
            Err(error) => {
                return Err(error);
            },
        }
        if !is_aligned(offset, WORD_SIZE) || words.len() % 2 != 0 {
            return Err(Error::NotAligned);
        }
        Ok(Sweep::new(Job::Words(offset, words), offset, offset + (words.len() * 4) as u32, WORD_SIZE))
    }

    /// Why a blank check at `offset` is refused, if it is.
    pub open spec fn blank_refusal(&self, offset: u32) -> Option<Error> {
        self.write_refusal(offset, 8)
    }

    /// Whether the flash word at `offset` may be asked about, by a [`Command::Blankverify`] there.
    ///
    /// The only way to ask. An erased word does not read as any particular value, so the answer
    /// cannot be had from [`Flash::blocking_read`]. [`blankness`] is what the command's result says.
    pub fn blocking_is_blank(&mut self, offset: u32) -> (check: Result<Command, Error>)
        ensures
            *final(self) == *old(self),
            check == (match old(self).blank_refusal(offset) {
                Some(error) => Err::<Command, Error>(error),
                None => Ok(Command::Blankverify),
            }),
    {
        match check_range(self.geometry.size, offset, WORD_SIZE as usize) {
            Ok(()) => {},
            Err(error) => {
                return Err(error);
            },
        }
        if !is_aligned(offset, WORD_SIZE) {
            return Err(Error::NotAligned);
        }
        Ok(Command::Blankverify)
    }

    /// Ready one command at `address`: select it and load its operands.
    ///
    /// `saved` is a reading of `CPUSS.CTL`. The prefetcher and the caches are off from here until
    /// [`Flash::finish`].
    pub fn prepare(&mut self, command: Command, address: u32, saved: CpuCaches, bus: &mut Bus<Access>)
        ensures
            *final(self) == *old(self),
            final(bus)@ == old(bus)@ + prepare_accesses(command, address, old(self).geometry().has_ecc, saved),
    {
        // Only the fields this command's correctness rests on, and read-modify-write rather than a
        // whole-register store: four bits of `CMDCTL` have no reset value that can be claimed.
        bus.push(Access::Cmdctl { addrxlateovr: false, eccgenovr: false, dataveren: true });

        let mut suspended = saved;
        suspended.prefetch = false;
        suspended.icache = false;
        suspended.liten = false;
        bus.push(Access::Caches(suspended));
        // The disable does not take effect while a flash access is pending, and what completes one is
        // a bus transaction to another slave rather than a barrier.
        bus.push(Access::Drain);
        bus.push(Access::Barrier);

        // Clear the previous command's status, which also re-protects every sector.
        bus.push(Access::Cmdtype(Cmdtype::Clearstatus));
        bus.push(Access::ExecuteStatus);

        match command {
            Command::Erase => {
                bus.push(Access::Cmdtype(Cmdtype::EraseSector));
            },
            Command::Program(low, high) => {
                bus.push(Access::Cmdtype(Cmdtype::ProgramOneword));
                // Every byte of the word, and the ECC byte alongside it where there is one.
                bus.push(Access::Cmdbyten { data: 0xff, ecc: self.geometry.has_ecc });
                // The low half at the lower address, which is what makes a word read back as the bytes
                // it was given.
                bus.push(Access::Cmddata(0, low));
                bus.push(Access::Cmddata(1, high));
            },
            Command::Blankverify => {
                bus.push(Access::Cmdtype(Cmdtype::BlankverifyOneword));
            },
        }
        bus.push(Access::Cmdaddr(address));
    }

    /// Unprotect the sector `address` is in, and only that, and execute the command.
    ///
    /// `flash` is a reading of the factory region and `swapped` one of `SECSTATUS.FLBANKSWP`. Where no
    /// register has a bit for the sector, nothing is unprotected and the command comes back as
    /// [`Error::Protected`].
    pub fn launch(&mut self, address: u32, flash: Sramflash, swapped: bool, bus: &mut Bus<Access>)
        requires
            flash.mainflash_sz <= 4095,
        ensures
            *final(self) == *old(self),
            final(bus)@ == old(bus)@ + unprotect_accesses(
                protection_of(old(self).geometry(), flash, swapped, address),
            ) + execute_accesses(old(self).geometry().reads_go_wrong),
    {
        proof {
            use_type_invariant(&*self);
        }
        match protecting_bit(self.geometry, flash, swapped, address) {
            Some(Protection::A(bit)) => {
                bus.push(Access::UnprotectA(bit));
            },
            Some(Protection::B(bit)) => {
                bus.push(Access::UnprotectB(bit));
            },
            None => {},
        }
        if self.geometry.reads_go_wrong {
            bus.push(Access::Acquire);
            bus.push(Access::Execute);
            bus.push(Access::Release);
        } else {
            bus.push(Access::Execute);
        }
    }

    /// Restore the caches, and say what the command came to.
    pub fn finish(&mut self, saved: CpuCaches, status: Statcmd, bus: &mut Bus<Access>) -> (result: Result<(), Error>)
        ensures
            *final(self) == *old(self),
            final(bus)@ == old(bus)@.push(Access::Caches(saved)),
            result == outcome(status),
    {
        bus.push(Access::Caches(saved));

        if status.pass {
            return Ok(());
        }
        Err(
            if status.failweprot {
                Error::Protected
            } else if status.faililladdr {
                Error::IllegalAddress
            } else if status.failmode {
                Error::Mode
            } else if status.failinvdata {
                Error::NotErased
            } else if status.failverify {
                Error::Verify
            } else {
                Error::Other
            },
        )
    }
}

/// Multiples of a granularity differ by a multiple of it.
proof fn lemma_multiples_differ_by_one(a: int, b: int, d: int)
    requires
        0 < d,
        a % d == 0,
        b % d == 0,
    ensures
        (b - a) % d == 0,
{
    vstd::arithmetic::div_mod::lemma_sub_mod_noop(b, a, d);
    lemma_small_mod(0, d as nat);
}

/// What the result of a [`Command::Blankverify`] says.
pub open spec fn blankness_spec(result: Result<(), Error>) -> Result<bool, Error> {
    match result {
        Ok(()) => Ok(true),
        Err(Error::Verify) => Ok(false),
        Err(error) => Err(error),
    }
}

/// What the result of a [`Command::Blankverify`] says: whether the word is still in its erased state.
///
/// A word programmed with all ones answers `true` as well, having nothing to distinguish it.
pub fn blankness(result: Result<(), Error>) -> (blank: Result<bool, Error>)
    ensures
        blank == blankness_spec(result),
{
    match result {
        Ok(()) => Ok(true),
        Err(Error::Verify) => Ok(false),
        Err(error) => Err(error),
    }
}

/// The command that programs the flash word `at` bytes into a write of `words`.
pub open spec fn pair_command(words: Seq<u32>, at: int) -> Command {
    Command::Program(words[at / 4], words[at / 4 + 1])
}

/// The command that programs the word at `address` of a write of `words` at `offset`.
pub fn word_of_halves(offset: u32, words: &[u32], address: u32) -> (command: Command)
    requires
        offset <= address,
        (address - offset) % 8 == 0,
        (address - offset) / 4 + 1 < words@.len(),
    ensures
        command == pair_command(words@, address - offset),
{
    let index: usize = ((address - offset) / 4) as usize;

    Command::Program(words[index], words[index + 1])
}

/// Four bytes as the word they are in memory, lowest address first.
pub open spec fn little_endian(bytes: Seq<u8>) -> int {
    bytes[0] + bytes[1] * 0x100 + bytes[2] * 0x1_0000 + bytes[3] * 0x100_0000
}

fn le_word(bytes: &[u8], at: usize) -> (word: u32)
    requires
        at + 4 <= bytes@.len(),
    ensures
        word == little_endian(bytes@.subrange(at as int, at + 4)),
{
    bytes[at] as u32 + bytes[at + 1] as u32 * 0x100 + bytes[at + 2] as u32 * 0x1_0000 + bytes[at + 3] as u32
        * 0x100_0000
}

/// The command that programs the flash word `at` bytes into a write of `bytes`.
pub open spec fn word_command(bytes: Seq<u8>, at: int) -> Command {
    Command::Program(
        little_endian(bytes.subrange(at, at + 4)) as u32,
        little_endian(bytes.subrange(at + 4, at + 8)) as u32,
    )
}

/// The command that programs the word at `address` of a write of `bytes` at `offset`.
pub fn word_of_bytes(offset: u32, bytes: &[u8], address: u32) -> (command: Command)
    requires
        offset <= address,
        address - offset + 8 <= bytes@.len(),
    ensures
        command == word_command(bytes@, address - offset),
{
    let at: usize = (address - offset) as usize;
    let end: usize = bytes.len();
    assert(at + 8 <= end);

    Command::Program(le_word(bytes, at), le_word(bytes, at + 4))
}

/// A word reads back as the bytes it was given: byte `i` of the word, counting from the lowest address, is
/// byte `i` of what was written.
pub proof fn word_reads_back_as_its_bytes(bytes: Seq<u8>)
    requires
        bytes.len() == 4,
    ensures
        0 <= little_endian(bytes) <= u32::MAX,
        little_endian(bytes) % 0x100 == bytes[0],
        little_endian(bytes) / 0x100 % 0x100 == bytes[1],
        little_endian(bytes) / 0x1_0000 % 0x100 == bytes[2],
        little_endian(bytes) / 0x100_0000 == bytes[3],
{
}

/// A write of halves programs each pair of them once, the pair `2 * i` and `2 * i + 1` at word `i`.
pub proof fn write_programs_each_pair_once(offset: u32, len: int, i: int)
    requires
        0 <= len,
        len % 2 == 0,
        0 <= i < len / 2,
    ensures
        addresses(offset as int, offset + len * 4, 8).len() == len / 2,
        addresses(offset as int, offset + len * 4, 8)[i] == offset + 8 * i,
        (addresses(offset as int, offset + len * 4, 8)[i] - offset) / 4 == 2 * i,
{
    sweep_covers_its_range(offset as int, offset + len * 4, 8);
}

/// Byte `i` of a word, counting from the lowest address.
pub open spec fn byte_of(word: u32, i: int) -> u8 {
    (if i == 0 {
        word % 0x100
    } else if i == 1 {
        word / 0x100 % 0x100
    } else if i == 2 {
        word / 0x1_0000 % 0x100
    } else {
        word / 0x100_0000
    }) as u8
}

/// MAIN once the erased flash word at `address` has been programmed, the low half at the lower address.
pub open spec fn programmed(main: Seq<u8>, address: int, command: Command) -> Seq<u8> {
    match command {
        Command::Program(low, high) => Seq::new(
            main.len(),
            |i: int|
                if address <= i < address + 4 {
                    byte_of(low, i - address)
                } else if address + 4 <= i < address + 8 {
                    byte_of(high, i - address - 4)
                } else {
                    main[i]
                },
        ),
        _ => main,
    }
}

/// MAIN once the program at every pending address has passed.
pub open spec fn swept(main: Seq<u8>, pending: Seq<int>, job: Job) -> Seq<u8>
    decreases pending.len(),
{
    if pending.len() == 0 {
        main
    } else {
        swept(programmed(main, pending[0], job.command_at(pending[0])), pending.drop_first(), job)
    }
}

/// A sweep of programs leaves alone what is outside its range, and each flash word inside holds what its own
/// command put there.
proof fn lemma_swept(main: Seq<u8>, from: int, to: int, job: Job, i: int)
    requires
        0 <= from <= to <= main.len(),
        (to - from) % 8 == 0,
        0 <= i < main.len(),
    ensures
        swept(main, addresses(from, to, 8), job).len() == main.len(),
        swept(main, addresses(from, to, 8), job)[i] == (if from <= i < to {
            programmed(main, i - (i - from) % 8, job.command_at(i - (i - from) % 8))[i]
        } else {
            main[i]
        }),
    decreases to - from,
{
    let pending = addresses(from, to, 8);

    if from < to {
        let next = programmed(main, from, job.command_at(from));
        assert(pending.drop_first() =~= addresses(from + 8, to, 8));
        lemma_swept(next, from + 8, to, job, i);
        assert((i - from - 8) % 8 == (i - from) % 8);
    }
}

/// A read gives back what a write of bytes wrote: once its sweep is through, MAIN holds those bytes at that
/// offset and is unchanged everywhere else.
pub proof fn written_bytes_read_back(main: Seq<u8>, offset: u32, bytes: &[u8])
    requires
        offset + bytes@.len() <= main.len(),
        bytes@.len() % 8 == 0,
    ensures
        swept(main, addresses(offset as int, offset + bytes@.len(), 8), Job::Bytes(offset, bytes)) == main.subrange(
            0,
            offset as int,
        ) + bytes@ + main.subrange(offset + bytes@.len(), main.len() as int),
{
    let from = offset as int;
    let to = from + bytes@.len();
    let job = Job::Bytes(offset, bytes);
    let all = swept(main, addresses(from, to, 8), job);
    let expected = main.subrange(0, from) + bytes@ + main.subrange(to, main.len() as int);
    assert(all.len() == main.len()) by {
        if main.len() > 0 {
            lemma_swept(main, from, to, job, 0);
        } else {
            assert(addresses(from, to, 8) =~= Seq::<int>::empty());
        }
    }
    assert forall|i: int| 0 <= i < main.len() implies all[i] == expected[i] by {
        lemma_swept(main, from, to, job, i);
        if from <= i < to {
            let at = i - (i - from) % 8 - from;
            assert(at % 8 == 0);
            word_reads_back_as_its_bytes(bytes@.subrange(at, at + 4));
            word_reads_back_as_its_bytes(bytes@.subrange(at + 4, at + 8));
        }
    }
    assert(all =~= expected);
}

/// A read gives back what a write of words wrote: once its sweep is through, the bytes at word `i` of the
/// write are those of `words[i]`, lowest first, and nothing outside the write has changed.
pub proof fn written_words_read_back(main: Seq<u8>, offset: u32, words: &[u32], i: int, byte: int, other: int)
    requires
        offset + words@.len() * 4 <= main.len(),
        words@.len() % 2 == 0,
        0 <= i < words@.len(),
        0 <= byte < 4,
        0 <= other < main.len(),
        other < offset || offset + words@.len() * 4 <= other,
    ensures
        ({
            let all = swept(
                main,
                addresses(offset as int, offset + words@.len() * 4, 8),
                Job::Words(offset, words),
            );

            &&& all[offset + i * 4 + byte] == byte_of(words@[i], byte)
            &&& all[other] == main[other]
        }),
{
    let to = offset + words@.len() * 4;
    let at = offset + i * 4 + byte;
    lemma_swept(main, offset as int, to, Job::Words(offset, words), at);
    lemma_swept(main, offset as int, to, Job::Words(offset, words), other);
}

/// An erase reaches every byte of its range and none outside: each byte is in exactly one of the sectors its
/// sweep visits.
pub proof fn erase_covers_exactly_its_range(from: int, to: int, sector_size: int, byte: int)
    requires
        0 < sector_size,
        from <= to,
        (to - from) % sector_size == 0,
    ensures
        from <= byte < to <==> exists|i: int|
            #![trigger addresses(from, to, sector_size)[i]]
            0 <= i < addresses(from, to, sector_size).len() && addresses(from, to, sector_size)[i] <= byte
                < addresses(from, to, sector_size)[i] + sector_size,
        forall|i: int, j: int|
            #![trigger addresses(from, to, sector_size)[i], addresses(from, to, sector_size)[j]]
            0 <= i < j < addresses(from, to, sector_size).len() ==> addresses(from, to, sector_size)[i] + sector_size
                <= addresses(from, to, sector_size)[j],
{
    let all = addresses(from, to, sector_size);
    let n = (to - from) / sector_size;
    sweep_covers_its_range(from, to, sector_size);
    lemma_fundamental_div_mod(to - from, sector_size);
    if from <= byte < to {
        let i = (byte - from) / sector_size;
        lemma_fundamental_div_mod(byte - from, sector_size);
        assert(0 <= i < n) by (nonlinear_arith)
            requires
                0 <= byte - from < to - from,
                to - from == sector_size * n,
                byte - from == sector_size * i + (byte - from) % sector_size,
                0 <= (byte - from) % sector_size < sector_size,
                0 < sector_size,
        ;
        assert(i * sector_size == sector_size * i) by (nonlinear_arith);
        assert(all[i] <= byte < all[i] + sector_size);
    }
    assert forall|i: int| 0 <= i < all.len() && (#[trigger] all[i]) <= byte < all[i] + sector_size implies from <= byte
        < to by {
        assert(0 <= i * sector_size && i * sector_size + sector_size <= sector_size * n) by (nonlinear_arith)
            requires
                0 <= i < n,
                0 < sector_size,
        ;
    }
    assert forall|i: int, j: int| 0 <= i < j < all.len() implies #[trigger] all[i] + sector_size
        <= #[trigger] all[j] by {
        assert(i * sector_size + sector_size <= j * sector_size) by (nonlinear_arith)
            requires
                i < j,
                0 < sector_size,
        ;
    }
}

/// A command is executed only after the status was cleared and then the sector unprotected: clearing the
/// status re-protects everything.
pub proof fn unprotect_follows_clear_status(
    command: Command,
    address: u32,
    has_ecc: bool,
    saved: CpuCaches,
    protection: Option<Protection>,
    reads_go_wrong: bool,
)
    ensures
        ({
            let all = prepare_accesses(command, address, has_ecc, saved) + unprotect_accesses(protection)
                + execute_accesses(reads_go_wrong);

            &&& all[5] == Access::ExecuteStatus
            &&& forall|i: int| 0 <= i < all.len() && i != 5 ==> #[trigger] all[i] != Access::ExecuteStatus
            &&& forall|i: int|
                0 <= i < all.len() && ((#[trigger] all[i]) is UnprotectA || all[i] is UnprotectB) ==> 5 < i < all.len()
                    - 1
            &&& exists|i: int| 0 <= i < all.len() && #[trigger] all[i] == Access::Execute
            &&& forall|i: int, j: int|
                0 <= i < j < all.len() && #[trigger] all[i] == Access::Execute ==> (#[trigger] all[j])
                    == Access::Release
            &&& all.contains(Access::Cmdaddr(address))
        }),
{
    let prepare = prepare_accesses(command, address, has_ecc, saved);
    let all = prepare + unprotect_accesses(protection) + execute_accesses(reads_go_wrong);
    let n = all.len() as int;
    assert(all[prepare.len() - 1] == Access::Cmdaddr(address));
    if reads_go_wrong {
        assert(all[n - 2] == Access::Execute);
    } else {
        assert(all[n - 1] == Access::Execute);
    }
}

/// Whether an access gets a command ready at an address.
pub open spec fn readies(access: Access, command: Command, address: u32, has_ecc: bool) -> bool {
    match access {
        Access::Cmdctl { addrxlateovr, eccgenovr, dataveren } => !addrxlateovr && !eccgenovr && dataveren,
        Access::Caches(caches) => !caches.prefetch && !caches.icache && !caches.liten,
        Access::Drain | Access::Barrier | Access::ExecuteStatus => true,
        Access::Cmdtype(kind) => {
            &&& kind is EraseSector ==> command is Erase
            &&& kind is ProgramOneword ==> command is Program
            &&& kind is BlankverifyOneword ==> command is Blankverify
        },
        Access::Cmdbyten { data, ecc } => command is Program && data == 0xff && ecc == has_ecc,
        Access::Cmddata(register, half) => command matches Command::Program(low, high) && {
            &&& register == 0 || register == 1
            &&& register == 0 ==> half == low
            &&& register == 1 ==> half == high
        },
        Access::Cmdaddr(at) => at == address,
        _ => false,
    }
}

/// A command is readied as it was given: with reads uncached, and a pending one drained before that is relied on; with
/// the old status cleared before the command is selected; with a program verified against what is stored, on every
/// byte of its word and its ECC byte where there is one, the low half at the lower address; and at its own address,
/// last.
pub proof fn command_is_readied_as_given(command: Command, address: u32, has_ecc: bool, saved: CpuCaches)
    ensures
        ({
            let asked = prepare_accesses(command, address, has_ecc, saved);
            let n = asked.len() as int;

            &&& forall|i: int| 0 <= i < n ==> readies(#[trigger] asked[i], command, address, has_ecc)
            &&& n >= 8
            &&& asked[0] is Cmdctl
            &&& asked[1] is Caches && asked[2] is Drain && asked[3] is Barrier
            &&& asked[4] matches Access::Cmdtype(kind) && kind is Clearstatus
            &&& asked[5] is ExecuteStatus
            &&& asked[6] matches Access::Cmdtype(kind) && {
                &&& command is Erase <==> kind is EraseSector
                &&& command is Program <==> kind is ProgramOneword
                &&& command is Blankverify <==> kind is BlankverifyOneword
            }
            &&& command is Program <==> n == 11
            &&& command is Program ==> asked[7] is Cmdbyten
            &&& command is Program ==> (asked[8] matches Access::Cmddata(register, _) && register == 0)
            &&& command is Program ==> (asked[9] matches Access::Cmddata(register, _) && register == 1)
            &&& asked[n - 1] is Cmdaddr
        }),
{
}

/// The error a command that did not pass is reported as: the first of these that holds, protection, address, mode,
/// data, verification; and otherwise one that says no more. One that passed is no error, whatever else it reports.
pub proof fn statuses_are_reported_by_rank(status: Statcmd)
    ensures
        outcome(status) is Ok <==> status.pass,
        outcome(status) == Err::<(), Error>(Error::Protected) <==> !status.pass && status.failweprot,
        outcome(status) == Err::<(), Error>(Error::IllegalAddress) <==> !status.pass && !status.failweprot
            && status.faililladdr,
        outcome(status) == Err::<(), Error>(Error::Mode) <==> !status.pass && !status.failweprot && !status.faililladdr
            && status.failmode,
        outcome(status) == Err::<(), Error>(Error::NotErased) <==> !status.pass && !status.failweprot
            && !status.faililladdr && !status.failmode && status.failinvdata,
        outcome(status) == Err::<(), Error>(Error::Verify) <==> !status.pass && !status.failweprot
            && !status.faililladdr && !status.failmode && !status.failinvdata && status.failverify,
        outcome(status) == Err::<(), Error>(Error::Other) <==> !status.pass && !status.failweprot && !status.faililladdr
            && !status.failmode && !status.failinvdata && !status.failverify,
{
}

/// One bit is unprotected, in the register that has it, or none where none has; and the command then runs, undisturbed
/// where a read meanwhile would come back wrong.
pub proof fn only_the_protecting_bit_is_cleared(protection: Option<Protection>, reads_go_wrong: bool)
    ensures
        protection is None ==> unprotect_accesses(protection).len() == 0,
        protection matches Some(Protection::A(bit)) ==> unprotect_accesses(protection).len() == 1 && (
        unprotect_accesses(protection)[0] matches Access::UnprotectA(cleared) && cleared == bit),
        protection matches Some(Protection::B(bit)) ==> unprotect_accesses(protection).len() == 1 && (
        unprotect_accesses(protection)[0] matches Access::UnprotectB(cleared) && cleared == bit),
        !reads_go_wrong ==> execute_accesses(reads_go_wrong).len() == 1 && execute_accesses(reads_go_wrong)[0]
            is Execute,
        reads_go_wrong ==> execute_accesses(reads_go_wrong).len() == 3 && execute_accesses(reads_go_wrong)[0] is Acquire
            && execute_accesses(reads_go_wrong)[1] is Execute && execute_accesses(reads_go_wrong)[2] is Release,
{
}

/// Which bit protects a sector. Where `CMDWEPROTA` covers its physical place, the bit of that place there. Otherwise
/// the bit of its group of eight in `CMDWEPROTB`, if the register is that wide: counted from the base of its bank, or
/// on a single bank from where `CMDWEPROTA` ends, and modulo 32 where there is no `CMDWEPROTA`.
pub proof fn protection_is_of_the_sector(geometry: Geometry, flash: Sramflash, swapped: bool, address: u32)
    requires
        geometry.valid(),
    ensures
        ({
            let sector = address as int / geometry.sector_size as int;
            let in_bank = sector_in_bank(geometry, flash, sector);
            let at = physical(sector, sectors_of(geometry, flash), geometry.bank_swap && swapped);
            let a = geometry.weprota_bits;
            let one = flash.mainnumbanks is Onebank;
            let protection = protection_of(geometry, flash, swapped, address);

            &&& protection matches Some(Protection::A(bit)) ==> bit == at && bit < a
            &&& 0 < a && at < a ==> protection is Some && protection->Some_0 is A
            &&& protection matches Some(Protection::B(bit)) ==> {
                &&& bit < geometry.weprotb_bits
                &&& a == 0 ==> bit == in_bank / 8 % 32
                &&& a > 0 ==> at >= a
                &&& a > 0 && !one ==> bit == in_bank / 8
                &&& a > 0 && one ==> in_bank >= a && bit == (in_bank - a) / 8
            }
            &&& a == 0 && in_bank / 8 % 32 < geometry.weprotb_bits ==> protection is Some
            &&& a > 0 && at >= a && !one && in_bank / 8 < geometry.weprotb_bits ==> protection is Some
            &&& a > 0 && at >= a && one && in_bank >= a && (in_bank - a) / 8 < geometry.weprotb_bits ==> protection
                is Some
        }),
{
    let sector = address as int / geometry.sector_size as int;
    assert(sector >= 0) by (nonlinear_arith)
        requires
            sector == address as int / geometry.sector_size as int,
            geometry.sector_size >= 64,
    ;
    let in_bank = sector_in_bank(geometry, flash, sector);
    assert(in_bank >= 0) by {
        let per_bank = sectors_per_bank(geometry, flash);
        if per_bank > 0 {
            lemma_fundamental_div_mod(sector, per_bank);
        }
    }
    let sectors = sectors_of(geometry, flash);
    assert(sectors >= 0) by (nonlinear_arith)
        requires
            sectors == flash.mainflash_sz * 1024 / geometry.sector_size as int,
            geometry.sector_size >= 64,
    ;
    let at = physical(sector, sectors, geometry.bank_swap && swapped);
    assert(at >= 0);
    let bit = in_bank / 8;
    assert(bit >= 0);
}

/// A swap of the banks moves every sector by half the device, and without one every sector is where it is.
pub proof fn swap_moves_by_half_the_device(sector: int, sectors: int)
    requires
        0 <= sector < sectors,
        sectors % 2 == 0,
    ensures
        physical(sector, sectors, false) == sector,
        physical(sector, sectors, true) - sector == sectors / 2 || sector - physical(sector, sectors, true) == sectors
            / 2,
{
}

/// MAIN is as many sectors as fit it whole, its banks share them evenly, and a sector's place in its bank is within the
/// bank and as far from it as whole banks are.
pub proof fn sectors_are_shared_between_banks(geometry: Geometry, flash: Sramflash, sector: int)
    requires
        geometry.valid(),
        0 <= sector,
    ensures
        ({
            let sectors = sectors_of(geometry, flash);
            let per_bank = sectors_per_bank(geometry, flash);
            let in_bank = sector_in_bank(geometry, flash, sector);
            let banks: int = match flash.mainnumbanks {
                Mainnumbanks::Onebank => 1,
                Mainnumbanks::Twobanks => 2,
                Mainnumbanks::Threebanks => 3,
                Mainnumbanks::Fourbanks => 4,
            };

            &&& sectors * geometry.sector_size <= flash.mainflash_sz * 1024 < (sectors + 1) * geometry.sector_size
            &&& per_bank * banks <= sectors < (per_bank + 1) * banks
            &&& per_bank > 0 ==> 0 <= in_bank < per_bank && (sector - in_bank) % per_bank == 0
            &&& per_bank == 0 ==> in_bank == sector
        }),
{
    let n = flash.mainflash_sz * 1024;
    let d = geometry.sector_size as int;
    let sectors = sectors_of(geometry, flash);
    lemma_fundamental_div_mod(n, d);
    assert(sectors * d == d * sectors && (sectors + 1) * d == d * sectors + d) by (nonlinear_arith);
    let banks = flash.mainnumbanks.count();
    let per_bank = sectors_per_bank(geometry, flash);
    lemma_fundamental_div_mod(sectors, banks);
    assert(per_bank * banks == banks * per_bank && (per_bank + 1) * banks == banks * per_bank + banks)
        by (nonlinear_arith);
    if per_bank > 0 {
        lemma_fundamental_div_mod(sector, per_bank);
        let in_bank = sector % per_bank;
        let q = sector / per_bank;
        assert(sector - in_bank == q * per_bank + 0) by (nonlinear_arith)
            requires
                sector == per_bank * q + in_bank,
        ;
        lemma_fundamental_div_mod_converse(sector - in_bank, per_bank, q, 0);
    }
}

/// What an erase, a write and a blank check are refused for: a range that is not inside MAIN first, and then one that
/// is not of whole sectors, or of whole flash words. Otherwise they are accepted.
pub proof fn ranges_are_refused_for_a_reason(flash: Flash, from: u32, to: u32, len: int)
    requires
        0 <= len,
        flash.geometry().sector_size > 0,
    ensures
        ({
            let size = flash.geometry().size;
            let sector = flash.geometry().sector_size as int;
            let whole = from as int % sector == 0 && to as int % sector == 0;

            &&& flash.erase_refusal(from, to) == Some(Error::OutOfBounds) <==> to < from || to > size
            &&& flash.erase_refusal(from, to) == Some(Error::NotAligned) <==> from <= to <= size && !whole
            &&& flash.erase_refusal(from, to) is None <==> from <= to <= size && whole
        }),
        ({
            let size = flash.geometry().size;
            let whole = from as int % 8 == 0 && len % 8 == 0;

            &&& flash.write_refusal(from, len) == Some(Error::OutOfBounds) <==> from + len > size
            &&& flash.write_refusal(from, len) == Some(Error::NotAligned) <==> from + len <= size && !whole
            &&& flash.write_refusal(from, len) is None <==> from + len <= size && whole
            &&& flash.blank_refusal(from) == Some(Error::OutOfBounds) <==> from + 8 > size
            &&& flash.blank_refusal(from) == Some(Error::NotAligned) <==> from + 8 <= size && from as int % 8 != 0
            &&& flash.blank_refusal(from) is None <==> from + 8 <= size && from as int % 8 == 0
        }),
{
}

/// A word is blank where its check passed and is not where its check failed to verify; any other failure is no answer.
/// What a storage user sees of an error is whether its arguments were wrong, and how.
pub proof fn blank_checks_answer_or_fail(result: Result<(), Error>, error: Error)
    ensures
        blankness_spec(result) == Ok::<bool, Error>(true) <==> result is Ok,
        blankness_spec(result) == Ok::<bool, Error>(false) <==> result == Err::<(), Error>(Error::Verify),
        !(error is Verify) ==> blankness_spec(Err(error)) == Err::<bool, Error>(error),
        error.kind_spec() is OutOfBounds <==> error is OutOfBounds,
        error.kind_spec() is NotAligned <==> error is NotAligned,
{
}

} // verus!
