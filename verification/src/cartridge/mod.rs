//! The cartridge: ROM, optional RAM, and the banking state behind them.

use vstd::prelude::*;
use crate::cartridge::models::Mbc;
use crate::cartridge::models::Model;

pub mod models;

verus! {

/// Every ROM bank is 16 KiB.
pub const ROM_BANK_SIZE: i32 = 0x4000;

/// Every RAM bank is 8 KiB.
pub const RAM_BANK_SIZE: u32 = 0x2000;

/// Where the header names the cartridge type.
pub const TYPE: usize = 0x147;

/// Where the header names the RAM size.
pub const RAM_SIZE: usize = 0x149;

/// Why an image cannot be used as a cartridge.
#[derive(Debug, Copy, Clone, PartialEq, Eq, Structural)]
pub enum CartridgeError {
    /// The image is not 2, 4, 8, ... or 128 banks of 16 KiB.
    BadImage,
    /// The header names a cartridge type other than `0x00` and `0x01`.
    UnsupportedModel(u8),
}

/// What a cartridge is, as mathematics.
pub struct CartridgeView {
    /// The ROM image.
    pub rom: Seq<u8>,
    /// The RAM image; empty if the cartridge has none.
    pub ram: Seq<u8>,
    /// The number of ROM banks.
    pub rom_banks: u8,
    /// The bank selected for `0x4000..=0x7fff`.
    pub rom_bank: u8,
    /// What is added to an address in `0x4000..=0x7fff` to find its byte in
    /// the image.
    pub rom_offset: int,
    /// What is added to an offset into the RAM window to find its byte in
    /// the image.
    pub ram_offset: nat,
    /// Whether writes to RAM are dropped.
    pub ram_wp: bool,
    /// Whether the upper bank bits select a RAM bank rather than a ROM bank.
    pub bank_ram: bool,
    /// The bank controller.
    pub model: Model,
}

/// Whether `n` is a number of banks that an image can have.
pub open spec fn spec_valid_bank_count(n: int) -> bool {
    n == 2 || n == 4 || n == 8 || n == 16 || n == 32 || n == 64 || n == 128
}

/// Whether `len` is the length of a usable image.
pub open spec fn spec_valid_image_len(len: int) -> bool {
    len % 0x4000 == 0 && spec_valid_bank_count(len / 0x4000)
}

/// The RAM size that the header code names: 2, 8, 32, 128 and 64 KiB for
/// the codes 1 to 5, none for any other.
pub open spec fn spec_ram_len(code: u8) -> nat {
    if code == 1 {
        0x800
    } else if code == 2 {
        0x2000
    } else if code == 3 {
        0x8000
    } else if code == 4 {
        0x20000
    } else if code == 5 {
        0x10000
    } else {
        0
    }
}

/// The bank that a value of the bank register maps: a register whose low
/// five bits are zero maps the bank above, and the result wraps at the
/// number of banks.
pub open spec fn spec_effective_bank(bank: u8, rom_banks: u8) -> u8 {
    (if bank & 0x1f != 0 { bank } else { bank | 1 }) & ((rom_banks - 1) as u8)
}

impl CartridgeView {
    /// The invariant of a cartridge.
    pub open spec fn wf(self) -> bool {
        &&& spec_valid_bank_count(self.rom_banks as int)
        &&& self.rom.len() == self.rom_banks * 0x4000
        &&& -0x4000 <= self.rom_offset
        &&& self.rom_offset + 0x8000 <= self.rom.len()
        &&& self.ram_offset <= 255 * 0x2000
    }

    /// The byte that a read of ROM address `offset` yields: the first
    /// 16 KiB are bank 0, the second are the selected bank.
    pub open spec fn spec_read_rom(self, offset: u16) -> u8 {
        if offset < 0x4000 {
            self.rom[offset as int]
        } else {
            self.rom[self.rom_offset + offset]
        }
    }

    /// The byte that a read at `offset` of the RAM window yields; zero
    /// where the cartridge has no RAM.
    pub open spec fn spec_read_ram(self, offset: u16) -> u8 {
        let address = self.ram_offset + offset;
        if address < self.ram.len() {
            self.ram[address as int]
        } else {
            0
        }
    }

    /// The cartridge after a write at `offset` of the RAM window: dropped
    /// while RAM is write-protected and where there is no RAM.
    pub open spec fn spec_write_ram(self, offset: u16, value: u8) -> CartridgeView {
        let address = self.ram_offset + offset;
        if !self.ram_wp && address < self.ram.len() {
            CartridgeView { ram: self.ram.update(address as int, value), ..self }
        } else {
            self
        }
    }

    /// The cartridge after `bank` is selected for `0x4000..=0x7fff`: the
    /// offset becomes (effective bank - 1) times 16 KiB.
    pub open spec fn spec_select_rom_bank(self, bank: u8) -> CartridgeView {
        let stored = if bank & 0x1f != 0 { bank } else { bank | 1 };
        CartridgeView {
            rom_bank: stored,
            rom_offset: (spec_effective_bank(bank, self.rom_banks) - 1) * 0x4000,
            ..self
        }
    }

    /// The cartridge after a write of `value` to ROM address `offset`, as
    /// the bank controller takes it.
    pub open spec fn spec_write_rom(self, offset: u16, value: u8) -> CartridgeView {
        if offset < 0x2000 {
            CartridgeView { ram_wp: value & 0xf != 0xa, ..self }
        } else if offset < 0x4000 {
            self.spec_select_rom_bank((self.rom_bank & !0x1fu8) | (value & 0x1f))
        } else if offset < 0x6000 {
            if self.bank_ram {
                CartridgeView { ram_offset: ((value & 0x3) as nat) * 0x2000, ..self }
            } else {
                self.spec_select_rom_bank((self.rom_bank & !0x60u8) | ((value << 5) & 0x60))
            }
        } else {
            CartridgeView { bank_ram: value & 1 != 0, ..self }
        }
    }
}

/// A cartridge.
pub struct Cartridge {
    rom: Vec<u8>,
    ram: Vec<u8>,
    rom_banks: u8,
    rom_bank: u8,
    rom_offset: i32,
    ram_offset: u32,
    ram_wp: bool,
    bank_ram: bool,
    model: Model,
}

impl View for Cartridge {
    type V = CartridgeView;

    closed spec fn view(&self) -> CartridgeView {
        CartridgeView {
            rom: self.rom@,
            ram: self.ram@,
            rom_banks: self.rom_banks,
            rom_bank: self.rom_bank,
            rom_offset: self.rom_offset as int,
            ram_offset: self.ram_offset as nat,
            ram_wp: self.ram_wp,
            bank_ram: self.bank_ram,
            model: self.model,
        }
    }
}

/// The number of 16 KiB banks in an image of `len` bytes, if `len` is the
/// length of a usable image.
fn bank_count(len: usize) -> (r: Option<u8>)
    ensures
        r is Some <==> spec_valid_image_len(len as int),
        r is Some ==> r->0 * 0x4000 == len,
{
    if len % 0x4000 != 0 {
        return None;
    }
    let n = len / 0x4000;
    if n == 2 || n == 4 || n == 8 || n == 16 || n == 32 || n == 64 || n == 128 {
        Some(n as u8)
    } else {
        None
    }
}

/// The RAM size that the header code names.
fn ram_len(code: u8) -> (n: usize)
    ensures
        n == spec_ram_len(code),
{
    match code {
        1 => 0x800,
        2 => 0x2000,
        3 => 0x8000,
        4 => 0x20000,
        5 => 0x10000,
        _ => 0,
    }
}

impl Cartridge {
    /// The invariant of a cartridge; every constructor establishes it and
    /// every method keeps it.
    pub open spec fn wf(&self) -> bool {
        self@.wf()
    }

    /// Makes a cartridge of a ROM image.
    ///
    /// The image must be 2, 4, 8, ... or 128 banks of 16 KiB, else the
    /// result is `BadImage`. The byte at `0x147` must name a supported bank
    /// controller, else the result is `UnsupportedModel`. The cartridge
    /// starts with bank 1 selected, RAM write-protected and zeroed, its
    /// size taken from the byte at `0x149`.
    pub fn new(rom_buf: Vec<u8>) -> (r: Result<Cartridge, CartridgeError>)
        ensures
            !spec_valid_image_len(rom_buf@.len() as int) ==> r == Err::<Cartridge, CartridgeError>(
                CartridgeError::BadImage,
            ),
            spec_valid_image_len(rom_buf@.len() as int) && models::spec_from_id(rom_buf@[0x147])
                is Err ==> r == Err::<Cartridge, CartridgeError>(
                CartridgeError::UnsupportedModel(rom_buf@[0x147]),
            ),
            spec_valid_image_len(rom_buf@.len() as int) && models::spec_from_id(rom_buf@[0x147])
                is Ok ==> r is Ok && r->Ok_0.wf() && r->Ok_0@ == (CartridgeView {
                rom: rom_buf@,
                ram: Seq::new(spec_ram_len(rom_buf@[0x149]), |i: int| 0u8),
                rom_banks: (rom_buf@.len() / 0x4000) as u8,
                rom_bank: 1,
                rom_offset: 0,
                ram_offset: 0,
                ram_wp: true,
                bank_ram: false,
                model: models::spec_from_id(rom_buf@[0x147])->Ok_0,
            }),
    {
        let banks = match bank_count(rom_buf.len()) {
            Some(n) => n,
            None => {
                return Err(CartridgeError::BadImage);
            },
        };
        let model = match models::from_id(rom_buf[TYPE]) {
            Ok(m) => m,
            Err(e) => {
                return Err(e);
            },
        };
        let size = ram_len(rom_buf[RAM_SIZE]);
        let mut ram: Vec<u8> = Vec::new();
        let mut i: usize = 0;
        while i < size
            invariant
                i <= size,
                ram@.len() == i,
                forall|k: int| 0 <= k < i ==> ram@[k] == 0u8,
            decreases size - i,
        {
            ram.push(0);
            i += 1;
        }
        assert(ram@ =~= Seq::new(spec_ram_len(rom_buf@[0x149]), |i: int| 0u8));
        Ok(
            Cartridge {
                rom: rom_buf,
                ram,
                rom_banks: banks,
                rom_bank: 1,
                rom_offset: 0,
                ram_offset: 0,
                ram_wp: true,
                bank_ram: false,
                model,
            },
        )
    }

    /// Reads the ROM at `offset` of the ROM area.
    pub fn read_byte(&self, offset: u16) -> (v: u8)
        requires
            self.wf(),
            offset < 0x8000,
        ensures
            v == self@.spec_read_rom(offset),
    {
        let off = offset as i32;
        if off < ROM_BANK_SIZE {
            self.rom[off as usize]
        } else {
            self.rom[(self.rom_offset + off) as usize]
        }
    }

    /// Reads the RAM at `offset` of the RAM window.
    pub fn ram_byte(&self, offset: u16) -> (v: u8)
        requires
            self.wf(),
        ensures
            v == self@.spec_read_ram(offset),
    {
        let address = self.ram_offset + offset as u32;
        models::read_ram(self, address)
    }

    /// Writes the RAM at `offset` of the RAM window, unless RAM is
    /// write-protected.
    pub fn set_ram_byte(&mut self, offset: u16, value: u8)
        requires
            old(self).wf(),
        ensures
            final(self).wf(),
            final(self)@ == old(self)@.spec_write_ram(offset, value),
    {
        let address = self.ram_offset + offset as u32;
        models::write_ram(self, address, value);
    }

    /// The byte at `address` of the RAM image; zero past its end.
    pub fn ram_byte_absolute(&self, address: u32) -> (v: u8)
        ensures
            v == (if address < self@.ram.len() { self@.ram[address as int] } else { 0 }),
    {
        if (address as usize) < self.ram.len() {
            self.ram[address as usize]
        } else {
            0
        }
    }

    /// Stores `value` at `address` of the RAM image and reports whether
    /// `address` lies in it; past its end nothing is stored.
    pub fn ram_byte_absolute_mut(&mut self, address: u32, value: u8) -> (stored: bool)
        ensures
            old(self).wf() ==> final(self).wf(),
            stored == (address < old(self)@.ram.len()),
            final(self)@ == (if stored {
                CartridgeView { ram: old(self)@.ram.update(address as int, value), ..old(self)@ }
            } else {
                old(self)@
            }),
    {
        if (address as usize) < self.ram.len() {
            self.ram.set(address as usize, value);
            true
        } else {
            false
        }
    }

    /// The RAM image, for the host to persist.
    pub fn ram_image(&self) -> (image: &Vec<u8>)
        ensures
            image@ == self@.ram,
    {
        &self.ram
    }

    /// Whether RAM is write-protected.
    pub fn ram_wp(&self) -> (wp: bool)
        ensures
            wp == self@.ram_wp,
    {
        self.ram_wp
    }

    /// Switches the RAM write protection.
    pub fn set_ram_wp(&mut self, wp: bool)
        ensures
            old(self).wf() ==> final(self).wf(),
            final(self)@ == (CartridgeView { ram_wp: wp, ..old(self)@ }),
    {
        self.ram_wp = wp
    }

    /// Whether the upper bank bits select a RAM bank.
    pub fn bank_ram(&self) -> (v: bool)
        ensures
            v == self@.bank_ram,
    {
        self.bank_ram
    }

    /// Sets whether the upper bank bits select a RAM bank.
    pub fn set_bank_ram(&mut self, v: bool)
        ensures
            old(self).wf() ==> final(self).wf(),
            final(self)@ == (CartridgeView { bank_ram: v, ..old(self)@ }),
    {
        self.bank_ram = v
    }

    /// Selects the RAM bank `bank`. A bank that the cartridge does not
    /// have reads as zero and takes no write.
    pub fn set_ram_bank(&mut self, bank: u8)
        ensures
            old(self).wf() ==> final(self).wf(),
            final(self)@ == (CartridgeView { ram_offset: (bank as nat) * 0x2000, ..old(self)@ }),
    {
        self.ram_offset = bank as u32 * RAM_BANK_SIZE;
    }

    /// The number of ROM banks.
    pub fn rom_banks(&self) -> (n: u8)
        ensures
            n == self@.rom_banks,
    {
        self.rom_banks
    }

    /// The value of the ROM bank register.
    pub fn rom_bank(&self) -> (n: u8)
        ensures
            n == self@.rom_bank,
    {
        self.rom_bank
    }

    /// The bank controller.
    pub fn model(&self) -> (m: Model)
        ensures
            m == self@.model,
    {
        self.model
    }

    /// Stores `bank` in the ROM bank register. What is mapped does not
    /// change until the offset is set.
    pub fn set_rom_bank(&mut self, bank: u8)
        ensures
            old(self).wf() ==> final(self).wf(),
            final(self)@ == (CartridgeView { rom_bank: bank, ..old(self)@ }),
    {
        self.rom_bank = bank;
    }

    /// Sets what is added to an address in `0x4000..=0x7fff`. The window
    /// must stay inside the image.
    pub fn set_rom_offset(&mut self, offset: i32)
        requires
            -0x4000 <= offset,
            offset + 0x8000 <= old(self)@.rom.len(),
        ensures
            old(self).wf() ==> final(self).wf(),
            final(self)@ == (CartridgeView { rom_offset: offset as int, ..old(self)@ }),
    {
        self.rom_offset = offset;
    }

    /// Hands a write to ROM address `offset` to the bank controller. A
    /// cartridge without one takes no such write.
    pub fn set_rom_byte(&mut self, offset: u16, value: u8)
        requires
            old(self).wf(),
            offset < 0x8000,
            old(self)@.model.mbc != Mbc::Mbc0,
        ensures
            final(self).wf(),
            final(self)@ == old(self)@.spec_write_rom(offset, value),
    {
        models::mbc1::write_rom(self, offset, value);
    }
}

} // verus!
