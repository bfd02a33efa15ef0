//! The MBC1 bank controller.

use vstd::prelude::*;
use crate::cartridge::spec_effective_bank;
use crate::cartridge::Cartridge;
use crate::cartridge::CartridgeView;
use crate::cartridge::ROM_BANK_SIZE;

verus! {

/// A masked byte is at most the mask, and a bank register with a one
/// or-ed in is not zero in its low five bits.
pub proof fn lemma_bank_bits(bank: u8, mask: u8)
    by (bit_vector)
    ensures
        bank & mask <= mask,
        (bank | 1) & 0x1f != 0,
        (bank | 1) | 1 == bank | 1,
        bank & 0x1f == 0 ==> bank < 255 && (bank | 1) == bank + 1,
{
}

/// Replacing the low five bits of a bank register by those of `value`,
/// where they are zero, gives one less than replacing them by those of
/// `value + 1`.
pub proof fn lemma_low_bits_merge(register: u8, value: u8)
    by (bit_vector)
    requires
        value & 0x1f == 0,
    ensures
        value < 255,
        ((register & !0x1fu8) | (value & 0x1f)) & 0x1f == 0,
        (register & !0x1fu8) | (((value + 1) as u8) & 0x1f) == ((register & !0x1fu8) | (value
            & 0x1f)) + 1,
{
}

/// Takes a write of `value` to ROM address `offset`:
/// `0x0000..=0x1fff` lifts the RAM write protection if the low nibble is
/// `0xa` and sets it otherwise; `0x2000..=0x3fff` sets bits 4 to 0 of the
/// ROM bank; `0x4000..=0x5fff` sets the RAM bank, or bits 6 and 5 of the
/// ROM bank, as the banking mode says; `0x6000..=0x7fff` sets the banking
/// mode.
pub fn write_rom(cart: &mut Cartridge, offset: u16, value: u8)
    requires
        old(cart).wf(),
        offset < 0x8000,
    ensures
        final(cart).wf(),
        final(cart)@ == old(cart)@.spec_write_rom(offset, value),
{
    if offset < 0x2000 {
        cart.set_ram_wp(value & 0xf != 0xa);
    } else if offset < 0x4000 {
        let cur_bank = cart.rom_bank() & !0x1fu8;
        let bank = cur_bank | (value & 0x1f);
        set_rom_bank(cart, bank);
    } else if offset < 0x6000 {
        if cart.bank_ram() {
            cart.set_ram_bank(value & 0x3);
        } else {
            let cur_bank = cart.rom_bank() & !0x60u8;
            let bank = cur_bank | ((value << 5) & 0x60);
            set_rom_bank(cart, bank);
        }
    } else {
        cart.set_bank_ram(value & 1 != 0);
    }
}

/// Selects the ROM bank `bank` for `0x4000..=0x7fff`. A bank whose low
/// five bits are zero selects the bank above it; the bank wraps at the
/// number of banks in the image, a power of two.
pub fn set_rom_bank(cart: &mut Cartridge, bank: u8)
    requires
        old(cart).wf(),
    ensures
        final(cart).wf(),
        final(cart)@ == old(cart)@.spec_select_rom_bank(bank),
        final(cart)@.rom_offset == (spec_effective_bank(bank, old(cart)@.rom_banks) - 1) * 0x4000,
{
    let bank = if bank & 0x1f != 0 {
        bank
    } else {
        bank | 1
    };
    cart.set_rom_bank(bank);
    let banks = cart.rom_banks();
    let mask = banks - 1;
    let wrapped = bank & mask;
    proof {
        lemma_bank_bits(bank, mask);
    }
    let rom_offset = ROM_BANK_SIZE * (wrapped as i32 - 1);
    cart.set_rom_offset(rom_offset);
}

/// Selecting a bank whose low five bits are zero is selecting the bank
/// above it: the two cartridges are the same.
pub proof fn lemma_bank_zero_aliases(cart: CartridgeView, bank: u8)
    requires
        bank & 0x1f == 0,
    ensures
        cart.spec_select_rom_bank(bank) == cart.spec_select_rom_bank((bank + 1) as u8),
{
    lemma_bank_bits(bank, 0xff);
}

/// A write to `0x2000..=0x3fff` of a value whose low five bits are zero
/// leaves the cartridge as the write of that value plus one does: every
/// later read and write finds the same state.
pub proof fn lemma_write_bank_zero_aliases(cart: CartridgeView, offset: u16, value: u8)
    requires
        0x2000 <= offset < 0x4000,
        value & 0x1f == 0,
    ensures
        cart.spec_write_rom(offset, value) == cart.spec_write_rom(offset, (value + 1) as u8),
{
    lemma_low_bits_merge(cart.rom_bank, value);
    lemma_bank_zero_aliases(cart, (cart.rom_bank & !0x1fu8) | (value & 0x1f));
}

} // verus!
