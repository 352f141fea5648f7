//! Cartridge header, memory bank controllers, work RAM and high RAM.

use vstd::prelude::*;
use vstd::slice::slice_subrange;
use vstd::string::{StringExecFns, StringSliceAdditionalSpecFns};
use vstd::utf8::{decode_utf8, encode_utf8_decode_utf8, valid_utf8};

verus! {

/// Kind of memory bank controller named by the cartridge header.
#[derive(Clone, Copy, PartialEq, Eq, Structural, Debug)]
pub enum MBCType {
    NoMBC,
    MBC1,
    MBC2,
    MMM01,
    MBC3,
    MBC5,
    MBC6,
    MBC7,
    HuC3,
    HuC1,
}

impl MBCType {
    /// The controllers this core can drive.
    pub open spec fn supported(self) -> bool {
        self == MBCType::NoMBC || self == MBCType::MBC1 || self == MBCType::MBC3 || self
            == MBCType::MBC5
    }

    /// The controllers that switch banks.
    pub open spec fn banked(self) -> bool {
        self == MBCType::MBC1 || self == MBCType::MBC3 || self == MBCType::MBC5
    }

    pub fn is_supported(&self) -> (r: bool)
        ensures
            r == self.supported(),
    {
        match self {
            MBCType::NoMBC | MBCType::MBC1 | MBCType::MBC3 | MBCType::MBC5 => true,
            _ => false,
        }
    }
}

/// Length of the header window, which sits at 0x0100..0x0150 of the ROM.
pub const HEADER_LEN: usize = 0x50;

/// First ROM offset past the header.
pub const HEADER_END: usize = 0x150;

/// Size of one switchable ROM bank.
pub const ROM_BANK_SIZE: usize = 0x4000;

/// Size of one switchable cartridge RAM bank.
pub const RAM_BANK_SIZE: usize = 0x2000;

/// What the cartridge header says about the cartridge.
#[derive(Debug)]
pub struct CartridgeInfo {
    /// Kind of memory bank controller.
    pub mbc: MBCType,
    /// Whether the cartridge carries external RAM.
    pub has_ram: bool,
    /// Whether the external RAM is battery backed.
    pub has_battery: bool,
    /// Number of 16 KiB ROM banks.
    pub rom_banks: u16,
    /// Number of 8 KiB RAM banks.
    pub ram_banks: u16,
    /// Title of the cartridge.
    pub title: String,
}

/// `2^n`.
pub open spec fn two_pow(n: nat) -> nat
    decreases n,
{
    if n == 0 {
        1
    } else {
        2 * two_pow((n - 1) as nat)
    }
}

/// Controller kind for the type byte at header offset 0x47.
pub open spec fn header_mbc(code: u8) -> MBCType {
    if 0x01 <= code <= 0x03 {
        MBCType::MBC1
    } else if 0x05 <= code <= 0x06 {
        MBCType::MBC2
    } else if 0x0B <= code <= 0x0D {
        MBCType::MMM01
    } else if 0x0F <= code <= 0x13 {
        MBCType::MBC3
    } else if 0x19 <= code <= 0x1E {
        MBCType::MBC5
    } else if code == 0x20 {
        MBCType::MBC6
    } else if code == 0x22 {
        MBCType::MBC7
    } else if code == 0xFE {
        MBCType::HuC3
    } else if code == 0xFF {
        MBCType::HuC1
    } else {
        MBCType::NoMBC
    }
}

pub open spec fn header_has_ram(code: u8) -> bool {
    code == 0x02 || code == 0x03 || code == 0x0C || code == 0x0D || code == 0x10 || code == 0x12
        || code == 0x13 || code == 0x1A || code == 0x1B || code == 0x1D || code == 0x1E || code
        == 0x22
}

pub open spec fn header_has_battery(code: u8) -> bool {
    code == 0x03 || code == 0x06 || code == 0x0D || code == 0x0F || code == 0x10 || code == 0x13
        || code == 0x1B || code == 0x1E || code == 0x22
}

/// ROM bank count for the size byte at header offset 0x48: `2^(1 + size)`,
/// held at the largest 16-bit value once that no longer fits.
pub open spec fn header_rom_banks(size: u8) -> u16 {
    if size < 15 {
        two_pow((1 + size) as nat) as u16
    } else {
        0xFFFF
    }
}

/// RAM bank count for the type byte and the size byte at header offset 0x49.
pub open spec fn header_ram_banks(code: u8, size: u8) -> u16 {
    if !header_has_ram(code) {
        0
    } else if size == 0x02 {
        1
    } else if size == 0x03 {
        4
    } else if size == 0x04 {
        16
    } else if size == 0x05 {
        8
    } else {
        0
    }
}

/// The title bytes of a header window.
pub open spec fn header_title_bytes(header: Seq<u8>) -> Seq<u8> {
    header.subrange(0x34, 0x43)
}

/// The title: the title bytes read as UTF-8, or nothing when they are not
/// well formed.
pub open spec fn header_title(header: Seq<u8>) -> Seq<char> {
    if valid_utf8(header_title_bytes(header)) {
        decode_utf8(header_title_bytes(header))
    } else {
        Seq::empty()
    }
}

/// `core::str::from_utf8`: the bytes as a string slice when they are
/// well-formed UTF-8, and nothing when they are not.
#[verifier::external_body]
fn utf8_str(bytes: &[u8]) -> (r: Option<&str>)
    ensures
        r is Some <==> valid_utf8(bytes@),
        r is Some ==> r->0.spec_bytes() == bytes@,
{
    match core::str::from_utf8(bytes) {
        Ok(text) => Some(text),
        Err(_) => None,
    }
}

impl CartridgeInfo {
    /// Whether this is what the header window says.
    pub open spec fn describes(&self, header: Seq<u8>) -> bool {
        &&& self.mbc == header_mbc(header[0x47])
        &&& self.has_ram == header_has_ram(header[0x47])
        &&& self.has_battery == header_has_battery(header[0x47])
        &&& self.rom_banks == header_rom_banks(header[0x48])
        &&& self.ram_banks == header_ram_banks(header[0x47], header[0x49])
        &&& self.title@ == header_title(header)
    }

    /// A copy of what the header says.
    pub fn duplicate(&self) -> (copy: CartridgeInfo)
        ensures
            copy == *self,
    {
        CartridgeInfo {
            mbc: self.mbc,
            has_ram: self.has_ram,
            has_battery: self.has_battery,
            rom_banks: self.rom_banks,
            ram_banks: self.ram_banks,
            title: self.title.clone(),
        }
    }

    /// Reads the cartridge features from the header window (ROM offsets
    /// 0x0100..0x0150).
    pub fn from_header(header: &[u8]) -> (info: CartridgeInfo)
        requires
            header@.len() >= HEADER_LEN,
        ensures
            info.describes(header@),
    {
        let code: u8 = header[0x47];
        let mbc: MBCType = if 0x01 <= code && code <= 0x03 {
            MBCType::MBC1
        } else if 0x05 <= code && code <= 0x06 {
            MBCType::MBC2
        } else if 0x0B <= code && code <= 0x0D {
            MBCType::MMM01
        } else if 0x0F <= code && code <= 0x13 {
            MBCType::MBC3
        } else if 0x19 <= code && code <= 0x1E {
            MBCType::MBC5
        } else if code == 0x20 {
            MBCType::MBC6
        } else if code == 0x22 {
            MBCType::MBC7
        } else if code == 0xFE {
            MBCType::HuC3
        } else if code == 0xFF {
            MBCType::HuC1
        } else {
            MBCType::NoMBC
        };
        let has_ram: bool = code == 0x02 || code == 0x03 || code == 0x0C || code == 0x0D || code
            == 0x10 || code == 0x12 || code == 0x13 || code == 0x1A || code == 0x1B || code
            == 0x1D || code == 0x1E || code == 0x22;
        let has_battery: bool = code == 0x03 || code == 0x06 || code == 0x0D || code == 0x0F
            || code == 0x10 || code == 0x13 || code == 0x1B || code == 0x1E || code == 0x22;
        let rom_banks: u16 = rom_bank_count(header[0x48]);
        let size: u8 = header[0x49];
        let ram_banks: u16 = if !has_ram {
            0
        } else if size == 0x02 {
            1
        } else if size == 0x03 {
            4
        } else if size == 0x04 {
            16
        } else if size == 0x05 {
            8
        } else {
            0
        };
        let title: String = match utf8_str(slice_subrange(header, 0x34, 0x43)) {
            Some(text) => {
                proof {
                    encode_utf8_decode_utf8(text@);
                }
                text.to_owned()
            },
            None => String::new(),
        };
        CartridgeInfo { mbc, has_ram, has_battery, rom_banks, ram_banks, title }
    }
}

/// Number of ROM banks for a header size byte.
pub fn rom_bank_count(size: u8) -> (banks: u16)
    ensures
        banks == header_rom_banks(size),
{
    proof {
        reveal_with_fuel(two_pow, 17);
    }
    match size {
        0 => 2,
        1 => 4,
        2 => 8,
        3 => 16,
        4 => 32,
        5 => 64,
        6 => 128,
        7 => 256,
        8 => 512,
        9 => 1024,
        10 => 2048,
        11 => 4096,
        12 => 8192,
        13 => 16384,
        14 => 32768,
        _ => 0xFFFF,
    }
}

/// Why a ROM image was refused.
#[derive(Clone, Copy, PartialEq, Eq, Structural, Debug)]
pub enum MemoryInitializationErrorType {
    /// The image is too short to hold a header.
    NoHeader,
    /// The header names a controller this core does not drive.
    UnimplementedMBC(MBCType),
}

/// A refused ROM image.
#[derive(Clone, Copy, PartialEq, Eq, Structural, Debug)]
pub struct MemoryInitializationError {
    pub error_type: MemoryInitializationErrorType,
}

impl MBCType {
    /// The controller's name.
    pub open spec fn name_text(self) -> Seq<char> {
        match self {
            MBCType::NoMBC => "NoMBC"@,
            MBCType::MBC1 => "MBC1"@,
            MBCType::MBC2 => "MBC2"@,
            MBCType::MMM01 => "MMM01"@,
            MBCType::MBC3 => "MBC3"@,
            MBCType::MBC5 => "MBC5"@,
            MBCType::MBC6 => "MBC6"@,
            MBCType::MBC7 => "MBC7"@,
            MBCType::HuC3 => "HuC3"@,
            MBCType::HuC1 => "HuC1"@,
        }
    }

    pub fn name(&self) -> (r: &'static str)
        ensures
            r@ == self.name_text(),
    {
        match self {
            MBCType::NoMBC => "NoMBC",
            MBCType::MBC1 => "MBC1",
            MBCType::MBC2 => "MBC2",
            MBCType::MMM01 => "MMM01",
            MBCType::MBC3 => "MBC3",
            MBCType::MBC5 => "MBC5",
            MBCType::MBC6 => "MBC6",
            MBCType::MBC7 => "MBC7",
            MBCType::HuC3 => "HuC3",
            MBCType::HuC1 => "HuC1",
        }
    }
}

impl MemoryInitializationError {
    /// Why the image was refused, in words.
    pub open spec fn message_text(self) -> Seq<char> {
        match self.error_type {
            MemoryInitializationErrorType::NoHeader => "ROM doesn't contain header"@,
            MemoryInitializationErrorType::UnimplementedMBC(kind) => "MBC type "@
                + kind.name_text() + " isn't yet implemented. Sorry!"@,
        }
    }

    pub fn message(&self) -> (r: String)
        ensures
            r@ == self.message_text(),
    {
        match self.error_type {
            MemoryInitializationErrorType::NoHeader => "ROM doesn't contain header".to_owned(),
            MemoryInitializationErrorType::UnimplementedMBC(kind) => {
                let mut text: String = "MBC type ".to_owned();
                text.append(kind.name());
                text.append(" isn't yet implemented. Sorry!");
                text
            },
        }
    }
}

/// The smallest power of two that is at least `banks`, between 1 and 256:
/// a bank register keeps `ceil(log2(banks))` bits, eight at most.
pub open spec fn bank_modulus(banks: u16) -> int {
    if banks <= 1 {
        1
    } else if banks <= 2 {
        2
    } else if banks <= 4 {
        4
    } else if banks <= 8 {
        8
    } else if banks <= 16 {
        16
    } else if banks <= 32 {
        32
    } else if banks <= 64 {
        64
    } else if banks <= 128 {
        128
    } else {
        256
    }
}

/// A bank number as the register keeps it.
pub open spec fn masked_bank(number: u8, banks: u16) -> int {
    (number as int) % bank_modulus(banks)
}

/// Keeps of `number` the bits that a register for `banks` banks has.
pub fn mask_bank_number(number: u8, banks: u16) -> (r: u8)
    ensures
        r == masked_bank(number, banks),
{
    let modulus: u16 = if banks <= 1 {
        1
    } else if banks <= 2 {
        2
    } else if banks <= 4 {
        4
    } else if banks <= 8 {
        8
    } else if banks <= 16 {
        16
    } else if banks <= 32 {
        32
    } else if banks <= 64 {
        64
    } else if banks <= 128 {
        128
    } else {
        256
    };
    ((number as u16) % modulus) as u8
}

/// Where the bank count is a power of two that a register can hold, a
/// bank number at or past the count wraps to the number modulo the count.
pub proof fn lemma_mask_is_modulo(number: u8, banks: u16)
    requires
        banks == 1 || banks == 2 || banks == 4 || banks == 8 || banks == 16 || banks == 32
            || banks == 64 || banks == 128 || banks == 256,
    ensures
        masked_bank(number, banks) == (number as int) % (banks as int),
        masked_bank(number, banks) < banks,
{
}

/// The cartridge as the bus sees it: ROM, RAM and the banking registers.
pub struct MbcView {
    pub kind: MBCType,
    pub rom_banks: u16,
    pub ram_banks: u16,
    pub rom: Seq<u8>,
    pub ram: Seq<u8>,
    pub rom_bank: u16,
    pub ram_bank: u8,
    pub ram_enabled: bool,
    pub advanced_banking: bool,
}

/// Whether a write to the RAM gate opens it: the low nibble must be 0xA.
pub open spec fn opens_ram(value: u8) -> bool {
    value % 16 == 0x0A
}

impl MbcView {
    /// The cartridge right after power-on.
    pub open spec fn initial(rom: Seq<u8>, kind: MBCType, rom_banks: u16, ram_banks: u16) -> Self {
        MbcView {
            kind,
            rom_banks,
            ram_banks,
            rom,
            ram: Seq::new((RAM_BANK_SIZE * ram_banks) as nat, |i: int| 0u8),
            rom_bank: 1,
            ram_bank: 0,
            ram_enabled: false,
            advanced_banking: false,
        }
    }

    /// A ROM byte; reads past the end of the image give 0.
    pub open spec fn rom_at(self, offset: int) -> u8 {
        if 0 <= offset < self.rom.len() {
            self.rom[offset]
        } else {
            0
        }
    }

    /// A RAM byte; reads past the end of the RAM give 0.
    pub open spec fn ram_at(self, offset: int) -> u8 {
        if 0 <= offset < self.ram.len() {
            self.ram[offset]
        } else {
            0
        }
    }

    /// The RAM after a store; stores past the end are dropped.
    pub open spec fn store(self, offset: int, value: u8) -> Self {
        if 0 <= offset < self.ram.len() {
            MbcView { ram: self.ram.update(offset, value), ..self }
        } else {
            self
        }
    }

    /// The two-bit upper register of MBC1 as the ROM wiring sees it: one
    /// bit only on cartridges of 64 banks or fewer.
    pub open spec fn mbc1_high(self) -> int {
        if self.rom_banks <= 64 {
            ((self.ram_bank % 4) % 2) as int
        } else {
            (self.ram_bank % 4) as int
        }
    }

    /// The ROM bank that answers at `address` (0x0000..0x8000).
    pub open spec fn rom_bank_at(self, address: u16) -> int {
        match self.kind {
            MBCType::MBC1 => {
                let low: int = if address >= 0x4000 {
                    self.rom_bank as int
                } else {
                    0
                };
                if self.rom_banks > 32 && (address >= 0x4000 || self.advanced_banking) {
                    low + 0x20 * self.mbc1_high()
                } else {
                    low
                }
            },
            MBCType::MBC3 | MBCType::MBC5 => if address >= 0x4000 {
                self.rom_bank as int
            } else {
                0
            },
            _ => if address >= 0x4000 {
                1
            } else {
                0
            },
        }
    }

    /// Offset into the ROM image of `address` (0x0000..0x8000).
    pub open spec fn rom_offset(self, address: u16) -> int {
        self.rom_bank_at(address) * ROM_BANK_SIZE + address % 0x4000
    }

    /// The RAM bank that answers in 0xA000..0xC000.
    pub open spec fn ram_bank_now(self) -> int {
        match self.kind {
            MBCType::MBC1 => if self.advanced_banking {
                masked_bank(self.ram_bank, self.ram_banks)
            } else {
                0
            },
            MBCType::MBC3 | MBCType::MBC5 => self.ram_bank as int,
            _ => 0,
        }
    }

    /// Offset into the cartridge RAM of `address` (0xA000..0xC000).
    pub open spec fn ram_offset(self, address: u16) -> int {
        self.ram_bank_now() * RAM_BANK_SIZE + (address - 0xA000)
    }

    /// Whether the RAM answers: always without a controller, behind the
    /// gate with one.
    pub open spec fn ram_open(self) -> bool {
        !self.kind.banked() || self.ram_enabled
    }

    /// What a read of `address` returns.
    pub open spec fn read(self, address: u16) -> u8 {
        if address < 0x8000 {
            self.rom_at(self.rom_offset(address))
        } else if 0xA000 <= address < 0xC000 {
            if self.ram_open() {
                self.ram_at(self.ram_offset(address))
            } else {
                0xFF
            }
        } else {
            0xFF
        }
    }

    /// The ninth bit of the MBC5 bank number, given the bits above the low
    /// eight: a cartridge of 256 banks or fewer has no ninth bit, and a
    /// larger one has this one bit only.
    pub open spec fn mbc5_ninth_bit(self, high: u16) -> int {
        if self.rom_banks > 256 {
            (high % 2) as int
        } else {
            0
        }
    }

    /// The ROM bank register after a write of `value` to its address range.
    pub open spec fn select_rom_bank(self, address: u16, value: u8) -> u16 {
        match self.kind {
            MBCType::MBC1 => {
                let limit: u16 = if self.rom_banks < 32 {
                    self.rom_banks
                } else {
                    32
                };
                (masked_bank(value, limit) + (if value % 32 == 0 {
                    1int
                } else {
                    0
                })) as u16
            },
            MBCType::MBC3 => if masked_bank(value, self.rom_banks) == 0 {
                1
            } else {
                masked_bank(value, self.rom_banks) as u16
            },
            MBCType::MBC5 => if address < 0x3000 {
                (self.mbc5_ninth_bit(self.rom_bank / 256) * 256 + masked_bank(
                    value,
                    self.rom_banks,
                )) as u16
            } else {
                (self.rom_bank % 256 + 256 * self.mbc5_ninth_bit((value % 2) as u16)) as u16
            },
            _ => self.rom_bank,
        }
    }

    /// The RAM bank register after a write of `value` to 0x4000..0x6000.
    pub open spec fn select_ram_bank(self, value: u8) -> u8 {
        match self.kind {
            MBCType::MBC1 => value % 4,
            MBCType::MBC3 | MBCType::MBC5 => if self.ram_banks != 0 {
                masked_bank(value, self.ram_banks) as u8
            } else {
                self.ram_bank
            },
            _ => self.ram_bank,
        }
    }

    /// The cartridge after a write of `value` to `address`.
    pub open spec fn write(self, address: u16, value: u8) -> Self {
        if 0xA000 <= address < 0xC000 {
            if self.ram_open() {
                self.store(self.ram_offset(address), value)
            } else {
                self
            }
        } else if !self.kind.banked() || address >= 0x8000 {
            self
        } else if address < 0x2000 {
            MbcView { ram_enabled: opens_ram(value), ..self }
        } else if address < 0x4000 {
            MbcView { rom_bank: self.select_rom_bank(address, value), ..self }
        } else if address < 0x6000 {
            MbcView { ram_bank: self.select_ram_bank(value), ..self }
        } else if self.kind == MBCType::MBC1 {
            MbcView { advanced_banking: value % 2 == 1, ..self }
        } else {
            self
        }
    }

    /// A snapshot cut or zero-padded to the size of the cartridge RAM.
    pub open spec fn fitted(self, snapshot: Seq<u8>) -> Seq<u8> {
        Seq::new(
            (RAM_BANK_SIZE * self.ram_banks) as nat,
            |i: int|
                if i < snapshot.len() {
                    snapshot[i]
                } else {
                    0u8
                },
        )
    }
}

/// The memory bank controller with the ROM image and the cartridge RAM.
#[derive(Debug)]
pub struct MBC {
    pub rom: Vec<u8>,
    pub ram: Vec<u8>,
    pub rom_bank: u16,
    pub ram_bank: u8,
    pub ram_enabled: bool,
    pub kind: MBCType,
    pub rom_banks: u16,
    pub ram_banks: u16,
    /// Banking mode latch of MBC1.
    pub advanced_banking: bool,
}

impl View for MBC {
    type V = MbcView;

    open spec fn view(&self) -> MbcView {
        MbcView {
            kind: self.kind,
            rom_banks: self.rom_banks,
            ram_banks: self.ram_banks,
            rom: self.rom@,
            ram: self.ram@,
            rom_bank: self.rom_bank,
            ram_bank: self.ram_bank,
            ram_enabled: self.ram_enabled,
            advanced_banking: self.advanced_banking,
        }
    }
}

impl MBC {
    /// A cartridge at power-on: bank 1 selected, RAM zeroed and gated off.
    pub fn init(rom: Vec<u8>, info: &CartridgeInfo) -> (mbc: MBC)
        ensures
            mbc@ == MbcView::initial(rom@, info.mbc, info.rom_banks, info.ram_banks),
    {
        let size: usize = RAM_BANK_SIZE * (info.ram_banks as usize);
        let ram: Vec<u8> = vec![0u8; size];
        assert(ram@ =~= Seq::new((RAM_BANK_SIZE * info.ram_banks) as nat, |i: int| 0u8));
        MBC {
            rom,
            ram,
            rom_bank: 1,
            ram_bank: 0,
            ram_enabled: false,
            kind: info.mbc,
            rom_banks: info.rom_banks,
            ram_banks: info.ram_banks,
            advanced_banking: false,
        }
    }

    /// Replaces the ROM image.
    pub fn load_rom(&mut self, rom: Vec<u8>)
        ensures
            final(self)@ == (MbcView { rom: rom@, ..old(self)@ }),
    {
        self.rom = rom;
    }

    pub fn read_rom(&self, offset: usize) -> (r: u8)
        ensures
            r == self@.rom_at(offset as int),
    {
        if self.rom.len() <= offset {
            return 0;
        }
        self.rom[offset]
    }

    pub fn read_ram(&self, offset: usize) -> (r: u8)
        ensures
            r == self@.ram_at(offset as int),
    {
        if self.ram.len() <= offset {
            return 0;
        }
        self.ram[offset]
    }

    pub fn write_ram(&mut self, offset: usize, value: u8)
        ensures
            final(self)@ == old(self)@.store(offset as int, value),
    {
        if self.ram.len() <= offset {
            return ;
        }
        self.ram[offset] = value;
    }

    /// Reads a cartridge without a controller: 32 KiB of ROM and, where
    /// fitted, 8 KiB of RAM.
    fn read_nombc(&self, address: u16) -> (r: u8)
        requires
            !self.kind.banked(),
        ensures
            r == self@.read(address),
    {
        if address < 0x8000 {
            let bank: usize = if address >= 0x4000 {
                1
            } else {
                0
            };
            self.read_rom(bank * ROM_BANK_SIZE + (address % 0x4000) as usize)
        } else if 0xA000 <= address && address < 0xC000 {
            self.read_ram((address - 0xA000) as usize)
        } else {
            0xFF
        }
    }

    /// Writes a cartridge without a controller: only the RAM takes writes.
    fn write_nombc(&mut self, address: u16, value: u8)
        requires
            !old(self).kind.banked(),
        ensures
            final(self)@ == old(self)@.write(address, value),
    {
        if 0xA000 <= address && address < 0xC000 {
            self.write_ram((address - 0xA000) as usize, value);
        }
    }

    /// Reads an MBC1 cartridge. The bank register applies to
    /// 0x4000..0x8000; on cartridges of more than 32 banks the upper
    /// register adds its bits there, and in the advanced mode also to
    /// 0x0000..0x4000. RAM banks switch in the advanced mode only.
    fn read_mbc1(&self, address: u16) -> (r: u8)
        requires
            self.kind == MBCType::MBC1,
        ensures
            r == self@.read(address),
    {
        if address < 0x8000 {
            let switched: bool = address >= 0x4000;
            let mut bank: usize = if switched {
                self.rom_bank as usize
            } else {
                0
            };
            if self.rom_banks > 32 && (switched || self.advanced_banking) {
                let high: u8 = if self.rom_banks <= 64 {
                    (self.ram_bank % 4) % 2
                } else {
                    self.ram_bank % 4
                };
                bank = bank + 0x20 * (high as usize);
            }
            self.read_rom(bank * ROM_BANK_SIZE + (address % 0x4000) as usize)
        } else if 0xA000 <= address && address < 0xC000 {
            if !self.ram_enabled {
                return 0xFF;
            }
            let bank: usize = if self.advanced_banking {
                mask_bank_number(self.ram_bank, self.ram_banks) as usize
            } else {
                0
            };
            self.read_ram(bank * RAM_BANK_SIZE + (address - 0xA000) as usize)
        } else {
            0xFF
        }
    }

    /// Writes an MBC1 cartridge: the RAM gate, the five-bit bank register
    /// in which 0 counts as 1, the two-bit upper register, the mode latch,
    /// or the RAM.
    fn write_mbc1(&mut self, address: u16, value: u8)
        requires
            old(self).kind == MBCType::MBC1,
        ensures
            final(self)@ == old(self)@.write(address, value),
    {
        if address < 0x2000 {
            self.ram_enabled = value % 16 == 0x0A;
        } else if address < 0x4000 {
            let limit: u16 = if self.rom_banks < 32 {
                self.rom_banks
            } else {
                32
            };
            let mut masked: u16 = mask_bank_number(value, limit) as u16;
            if value % 32 == 0 {
                masked = masked + 1;
            }
            self.rom_bank = masked;
        } else if address < 0x6000 {
            self.ram_bank = value % 4;
        } else if address < 0x8000 {
            self.advanced_banking = value % 2 == 1;
        } else if 0xA000 <= address && address < 0xC000 {
            if !self.ram_enabled {
                return ;
            }
            let bank: usize = if self.advanced_banking {
                mask_bank_number(self.ram_bank, self.ram_banks) as usize
            } else {
                0
            };
            self.write_ram(bank * RAM_BANK_SIZE + (address - 0xA000) as usize, value);
        }
    }

    /// Reads an MBC3 cartridge.
    fn read_mbc3(&self, address: u16) -> (r: u8)
        requires
            self.kind == MBCType::MBC3,
        ensures
            r == self@.read(address),
    {
        if address < 0x4000 {
            self.read_rom(address as usize)
        } else if address < 0x8000 {
            self.read_rom((self.rom_bank as usize) * ROM_BANK_SIZE + (address - 0x4000) as usize)
        } else if 0xA000 <= address && address < 0xC000 {
            if !self.ram_enabled {
                return 0xFF;
            }
            self.read_ram((self.ram_bank as usize) * RAM_BANK_SIZE + (address - 0xA000) as usize)
        } else {
            0xFF
        }
    }

    /// Writes an MBC3 cartridge: the RAM gate, the bank register in which
    /// 0 counts as 1, the RAM bank register, or the RAM.
    fn write_mbc3(&mut self, address: u16, value: u8)
        requires
            old(self).kind == MBCType::MBC3,
        ensures
            final(self)@ == old(self)@.write(address, value),
    {
        if address < 0x2000 {
            self.ram_enabled = value % 16 == 0x0A;
        } else if address < 0x4000 {
            let mut masked: u16 = mask_bank_number(value, self.rom_banks) as u16;
            if masked == 0 {
                masked = 1;
            }
            self.rom_bank = masked;
        } else if address < 0x6000 {
            if self.ram_banks != 0 {
                self.ram_bank = mask_bank_number(value, self.ram_banks);
            }
        } else if 0xA000 <= address && address < 0xC000 {
            if !self.ram_enabled {
                return ;
            }
            self.write_ram(
                (self.ram_bank as usize) * RAM_BANK_SIZE + (address - 0xA000) as usize,
                value,
            );
        }
    }

    /// Reads an MBC5 cartridge.
    fn read_mbc5(&self, address: u16) -> (r: u8)
        requires
            self.kind == MBCType::MBC5,
        ensures
            r == self@.read(address),
    {
        if address < 0x4000 {
            self.read_rom(address as usize)
        } else if address < 0x8000 {
            self.read_rom((self.rom_bank as usize) * ROM_BANK_SIZE + (address - 0x4000) as usize)
        } else if 0xA000 <= address && address < 0xC000 {
            if !self.ram_enabled {
                return 0xFF;
            }
            self.read_ram((self.ram_bank as usize) * RAM_BANK_SIZE + (address - 0xA000) as usize)
        } else {
            0xFF
        }
    }

    /// Writes an MBC5 cartridge: the RAM gate, the low eight bits of the
    /// bank number, its ninth bit (which only cartridges of more than 256
    /// banks have), the RAM bank register, or the RAM.
    fn write_mbc5(&mut self, address: u16, value: u8)
        requires
            old(self).kind == MBCType::MBC5,
        ensures
            final(self)@ == old(self)@.write(address, value),
    {
        if address < 0x2000 {
            self.ram_enabled = value % 16 == 0x0A;
        } else if address < 0x3000 {
            let ninth: u16 = if self.rom_banks > 256 {
                (self.rom_bank / 256) % 2
            } else {
                0
            };
            self.rom_bank = ninth * 256 + mask_bank_number(value, self.rom_banks) as u16;
        } else if address < 0x4000 {
            let ninth: u16 = if self.rom_banks > 256 {
                ((value % 2) as u16) % 2
            } else {
                0
            };
            self.rom_bank = self.rom_bank % 256 + 256 * ninth;
        } else if address < 0x6000 {
            if self.ram_banks != 0 {
                self.ram_bank = mask_bank_number(value, self.ram_banks);
            }
        } else if 0xA000 <= address && address < 0xC000 {
            if !self.ram_enabled {
                return ;
            }
            self.write_ram(
                (self.ram_bank as usize) * RAM_BANK_SIZE + (address - 0xA000) as usize,
                value,
            );
        }
    }

    /// Reads the byte that the cartridge puts on the bus for `address`,
    /// which lies in 0x0000..0x8000 or in 0xA000..0xC000; any other
    /// address reads 0xFF.
    pub fn read(&self, address: u16) -> (r: u8)
        ensures
            r == self@.read(address),
    {
        match self.kind {
            MBCType::MBC1 => self.read_mbc1(address),
            MBCType::MBC3 => self.read_mbc3(address),
            MBCType::MBC5 => self.read_mbc5(address),
            _ => self.read_nombc(address),
        }
    }

    /// Writes to the cartridge: a banking register below 0x8000, the RAM in
    /// 0xA000..0xC000.
    pub fn write(&mut self, address: u16, value: u8)
        ensures
            final(self)@ == old(self)@.write(address, value),
    {
        match self.kind {
            MBCType::MBC1 => self.write_mbc1(address, value),
            MBCType::MBC3 => self.write_mbc3(address, value),
            MBCType::MBC5 => self.write_mbc5(address, value),
            _ => self.write_nombc(address, value),
        }
    }
}

/// A write of any value with the low five bits clear to the ROM bank
/// register of MBC1 selects bank 1 of the register, never bank 0.
pub proof fn lemma_mbc1_bank_zero_reads_as_one(cart: MbcView, address: u16)
    requires
        cart.kind == MBCType::MBC1,
        0x2000 <= address < 0x4000,
        cart.rom_banks >= 2,
    ensures
        cart.write(address, 0).rom_bank == 1,
        cart.write(address, 0x20).rom_bank == 1,
        cart.write(address, 0x40).rom_bank == 1,
        cart.write(address, 0x60).rom_bank == 1,
{
}

/// With 32 ROM banks or fewer, MBC1 always shows bank 0 in 0x0000..0x4000,
/// whatever the banking mode and the upper register hold.
pub proof fn lemma_mbc1_small_rom_keeps_bank_zero(cart: MbcView, address: u16)
    requires
        cart.kind == MBCType::MBC1,
        cart.rom_banks <= 32,
        address < 0x4000,
    ensures
        cart.rom_bank_at(address) == 0,
        cart.read(address) == cart.rom_at(address as int),
        cart.write(0x6000, 1).read(address) == cart.read(address),
{
}

/// On an MBC3 or MBC5 cartridge whose bank count is a power of two that
/// the bank register can count, selecting bank `number` makes the switched
/// area show bank `number` modulo the count, whatever the registers held
/// before (MBC3 shows bank 1 where that is 0): a bank number at or past
/// the count wraps.
pub proof fn lemma_selected_bank_wraps(cart: MbcView, register: u16, number: u8, address: u16)
    requires
        cart.kind == MBCType::MBC3 || cart.kind == MBCType::MBC5,
        cart.rom_banks == 2 || cart.rom_banks == 4 || cart.rom_banks == 8 || cart.rom_banks == 16
            || cart.rom_banks == 32 || cart.rom_banks == 64 || cart.rom_banks == 128
            || cart.rom_banks == 256,
        cart.rom.len() == cart.rom_banks * ROM_BANK_SIZE,
        0x2000 <= register < 0x3000,
        0x4000 <= address < 0x8000,
    ensures
        cart.kind == MBCType::MBC5 ==> cart.write(register, number).rom_bank_at(address) == (number
            as int) % (cart.rom_banks as int),
        cart.kind == MBCType::MBC3 ==> cart.write(register, number).rom_bank_at(address) == (if (
        number as int) % (cart.rom_banks as int) == 0 {
            1
        } else {
            (number as int) % (cart.rom_banks as int)
        }),
        cart.write(register, number).read(address) == cart.rom[cart.write(
            register,
            number,
        ).rom_bank_at(address) * ROM_BANK_SIZE + (address - 0x4000)],
{
    lemma_mask_is_modulo(number, cart.rom_banks);
}

/// On an MBC5 cartridge of 256 banks or fewer a write to the register of
/// the ninth bank bit changes nothing that is read.
pub proof fn lemma_mbc5_small_rom_has_no_ninth_bit(
    cart: MbcView,
    register: u16,
    value: u8,
    address: u16,
)
    requires
        cart.kind == MBCType::MBC5,
        cart.rom_banks <= 256,
        cart.rom_bank < 256,
        0x3000 <= register < 0x4000,
    ensures
        cart.write(register, value).rom_bank == cart.rom_bank,
        cart.write(register, value).read(address) == cart.read(address),
{
}

/// On an MBC1 cartridge of up to 32 banks, a power of two, selecting bank
/// `number` makes the switched area show bank `number` modulo the count,
/// and one bank further where the low five bits of `number` are clear.
pub proof fn lemma_mbc1_selected_bank_wraps(cart: MbcView, number: u8, address: u16)
    requires
        cart.kind == MBCType::MBC1,
        cart.rom_banks == 2 || cart.rom_banks == 4 || cart.rom_banks == 8 || cart.rom_banks == 16
            || cart.rom_banks == 32,
        0x4000 <= address < 0x8000,
    ensures
        cart.write(0x2000, number).rom_bank_at(address) == (number as int) % (
        cart.rom_banks as int) + (if number % 32 == 0 {
            1int
        } else {
            0
        }),
{
    lemma_mask_is_modulo(number, cart.rom_banks);
}

/// Everything the bus maps to plain memory: cartridge, work RAM, high RAM.
pub struct MemoryView {
    pub wram: Seq<u8>,
    pub hram: Seq<u8>,
    pub info: CartridgeInfo,
    pub mbc: MbcView,
}

impl MemoryView {
    pub open spec fn read(self, address: u16) -> u8 {
        if address < 0x8000 || 0xA000 <= address < 0xC000 {
            self.mbc.read(address)
        } else if 0xC000 <= address < 0xE000 {
            self.wram[address - 0xC000]
        } else if 0xE000 <= address < 0xFE00 {
            self.wram[address - 0xE000]
        } else if 0xFF80 <= address < 0xFFFF {
            self.hram[address - 0xFF80]
        } else {
            0
        }
    }

    pub open spec fn write(self, address: u16, value: u8) -> Self {
        if address < 0x8000 || 0xA000 <= address < 0xC000 {
            MemoryView { mbc: self.mbc.write(address, value), ..self }
        } else if 0xC000 <= address < 0xE000 {
            MemoryView { wram: self.wram.update(address - 0xC000, value), ..self }
        } else if 0xE000 <= address < 0xFE00 {
            MemoryView { wram: self.wram.update(address - 0xE000, value), ..self }
        } else if 0xFF80 <= address < 0xFFFF {
            MemoryView { hram: self.hram.update(address - 0xFF80, value), ..self }
        } else {
            self
        }
    }

    /// Memory at power-on for a ROM image whose header was accepted and
    /// read as `info`.
    pub open spec fn initial(rom: Seq<u8>, info: CartridgeInfo) -> Self {
        MemoryView {
            wram: Seq::new(0x2000, |i: int| 0u8),
            hram: Seq::new(0x7F, |i: int| 0u8),
            info,
            mbc: MbcView::initial(
                rom,
                header_mbc(rom[0x147]),
                header_rom_banks(rom[0x148]),
                header_ram_banks(rom[0x147], rom[0x149]),
            ),
        }
    }
}

/// Cartridge, work RAM and high RAM.
#[derive(Debug)]
pub struct Memory {
    pub wram: [u8; 0x2000],
    pub hram: [u8; 0x7F],
    pub info: CartridgeInfo,
    pub mbc: MBC,
}

impl View for Memory {
    type V = MemoryView;

    open spec fn view(&self) -> MemoryView {
        MemoryView { wram: self.wram@, hram: self.hram@, info: self.info, mbc: self.mbc@ }
    }
}

/// The error, if any, that refuses a ROM image.
pub open spec fn rom_refusal(rom: Seq<u8>) -> Option<MemoryInitializationErrorType> {
    if rom.len() < HEADER_END {
        Some(MemoryInitializationErrorType::NoHeader)
    } else if !header_mbc(rom[0x147]).supported() {
        Some(MemoryInitializationErrorType::UnimplementedMBC(header_mbc(rom[0x147])))
    } else {
        None
    }
}

impl Memory {
    /// Builds the memory for a ROM image, or says why the image is
    /// refused: it is shorter than 0x150 bytes, or its header names a
    /// controller other than none, MBC1, MBC3 and MBC5.
    pub fn new(rom: Vec<u8>) -> (r: Result<Memory, MemoryInitializationError>)
        ensures
            match r {
                Ok(memory) => {
                    &&& rom_refusal(rom@) is None
                    &&& memory@ == MemoryView::initial(rom@, memory.info)
                    &&& memory.info.describes(rom@.subrange(0x100, 0x150))
                },
                Err(error) => rom_refusal(rom@) == Some(error.error_type),
            },
    {
        if rom.len() < HEADER_END {
            return Err(
                MemoryInitializationError { error_type: MemoryInitializationErrorType::NoHeader },
            );
        }
        let info: CartridgeInfo = CartridgeInfo::from_header(
            slice_subrange(rom.as_slice(), 0x100, 0x150),
        );
        if !info.mbc.is_supported() {
            return Err(
                MemoryInitializationError {
                    error_type: MemoryInitializationErrorType::UnimplementedMBC(info.mbc),
                },
            );
        }
        let mbc: MBC = MBC::init(rom, &info);
        let memory = Memory { wram: [0u8;0x2000], hram: [0u8;0x7F], mbc, info };
        assert(memory.wram@ =~= Seq::new(0x2000, |i: int| 0u8));
        assert(memory.hram@ =~= Seq::new(0x7F, |i: int| 0u8));
        Ok(memory)
    }

    /// A copy of the memory with an empty cartridge slot: everything but
    /// the ROM image.
    pub fn without_rom(&self) -> (copy: Memory)
        ensures
            copy@ == (MemoryView {
                mbc: MbcView { rom: Seq::empty(), ..self@.mbc },
                ..self@
            }),
    {
        let ram: Vec<u8> = self.mbc.ram.clone();
        assert(ram@ =~= self.mbc.ram@);
        Memory {
            wram: self.wram,
            hram: self.hram,
            info: self.info.duplicate(),
            mbc: MBC {
                rom: Vec::new(),
                ram,
                rom_bank: self.mbc.rom_bank,
                ram_bank: self.mbc.ram_bank,
                ram_enabled: self.mbc.ram_enabled,
                kind: self.mbc.kind,
                rom_banks: self.mbc.rom_banks,
                ram_banks: self.mbc.ram_banks,
                advanced_banking: self.mbc.advanced_banking,
            },
        }
    }

    /// Replaces the cartridge ROM.
    pub fn set_rom(&mut self, rom: Vec<u8>)
        ensures
            final(self)@ == (MemoryView {
                mbc: MbcView { rom: rom@, ..old(self)@.mbc },
                ..old(self)@
            }),
    {
        self.mbc.load_rom(rom);
    }

    /// Restores the cartridge RAM from a snapshot, which is cut or
    /// zero-padded to the size of the cartridge RAM.
    pub fn set_ram(&mut self, ram: Vec<u8>)
        ensures
            final(self)@ == (MemoryView {
                mbc: MbcView { ram: old(self)@.mbc.fitted(ram@), ..old(self)@.mbc },
                ..old(self)@
            }),
    {
        let size: usize = RAM_BANK_SIZE * (self.mbc.ram_banks as usize);
        let mut fitted: Vec<u8> = ram;
        fitted.resize(size, 0u8);
        assert(fitted@ =~= old(self)@.mbc.fitted(ram@));
        self.mbc.ram = fitted;
    }

    /// A copy of the cartridge RAM.
    pub fn get_ram(&self) -> (ram: Vec<u8>)
        ensures
            ram@ == self@.mbc.ram,
    {
        let ram: Vec<u8> = self.mbc.ram.clone();
        assert(ram@ =~= self.mbc.ram@);
        ram
    }

    pub fn mem_read(&self, address: u16) -> (r: u8)
        ensures
            r == self@.read(address),
    {
        if address < 0x8000 || (0xA000 <= address && address < 0xC000) {
            self.mbc.read(address)
        } else if 0xC000 <= address && address < 0xE000 {
            self.wram[(address - 0xC000) as usize]
        } else if 0xE000 <= address && address < 0xFE00 {
            self.wram[(address - 0xE000) as usize]
        } else if 0xFF80 <= address && address < 0xFFFF {
            self.hram[(address - 0xFF80) as usize]
        } else {
            0
        }
    }

    pub fn mem_write(&mut self, address: u16, value: u8)
        ensures
            final(self)@ == old(self)@.write(address, value),
    {
        if address < 0x8000 || (0xA000 <= address && address < 0xC000) {
            self.mbc.write(address, value);
        } else if 0xC000 <= address && address < 0xE000 {
            self.wram[(address - 0xC000) as usize] = value;
        } else if 0xE000 <= address && address < 0xFE00 {
            self.wram[(address - 0xE000) as usize] = value;
        } else if 0xFF80 <= address && address < 0xFFFF {
            self.hram[(address - 0xFF80) as usize] = value;
        }
    }
}

/// A snapshot taken of the cartridge RAM and put back leaves the RAM as it
/// was, so a second snapshot equals the first.
pub proof fn lemma_ram_snapshot_round_trip(cart: MbcView)
    requires
        cart.ram.len() == RAM_BANK_SIZE * cart.ram_banks,
    ensures
        cart.fitted(cart.ram) == cart.ram,
        cart.fitted(cart.fitted(cart.ram)) == cart.fitted(cart.ram),
{
    assert(cart.fitted(cart.ram) =~= cart.ram);
}

} // verus!
