//! What holds of the stack whatever the program does.

use vstd::prelude::*;
use crate::cpu::registers::flags_byte;
use crate::cpu::registers::flags_of;
use crate::cpu::registers::high_byte;
use crate::cpu::registers::lemma_af_round_trip;
use crate::cpu::registers::lemma_flags_byte_nibble;
use crate::cpu::registers::low_byte;
use crate::cpu::registers::Flags;
use crate::cpu::wrap16;
use crate::cpu::CpuView;
use crate::io::spec_region;
use crate::io::InterconnectView;
use crate::io::Region;

verus! {

/// Whether `address` lies in memory that takes what the processor writes
/// and gives it back: work RAM, its echo and high RAM always; video RAM
/// and the object attribute memory while the picture unit and no
/// transfer hold them; the RAM of the cartridge where it has some and
/// the write protection is off.
pub open spec fn spec_is_ram(bus: InterconnectView, address: u16) -> bool {
    match spec_region(address) {
        Region::WorkRam => true,
        Region::Echo => true,
        Region::HighRam => true,
        Region::CharacterRam => bus.gpu.spec_vram_open(),
        Region::TileMap1 => bus.gpu.spec_vram_open(),
        Region::TileMap2 => bus.gpu.spec_vram_open(),
        Region::Oam => bus.gpu.spec_oam_open() && !bus.spec_dma_active(),
        Region::CartridgeRam => !bus.cartridge.ram_wp && bus.cartridge.ram_offset + (address
            - 0xa000) < bus.cartridge.ram.len(),
        _ => false,
    }
}

/// Whether the two bytes below the stack pointer lie in such memory.
pub open spec fn spec_stack_in_ram(v: CpuView) -> bool {
    spec_is_ram(v.bus, wrap16(v.regs.sp - 1)) && spec_is_ram(v.bus, wrap16(v.regs.sp - 2))
}

/// The flags that `F` reads as are the flags that writing them back
/// selects.
pub proof fn lemma_flags_of_byte(flags: Flags)
    ensures
        flags_of(flags_byte(flags)) == flags,
{
    let v = flags_byte(flags);
    assert((v & 0x80 != 0) == (v >= 0x80) && (v & 0x40 != 0) == (v % 0x80 >= 0x40) && (v & 0x20
        != 0) == (v % 0x40 >= 0x20) && (v & 0x10 != 0) == (v % 0x20 >= 0x10)) by (bit_vector);
}

/// Two bytes written one after the other to neighbouring addresses in
/// RAM are read back as the word they form.
pub proof fn lemma_ram_word(bus: InterconnectView, low: u16, value: u16)
    requires
        bus.wf(),
        spec_is_ram(bus, low),
        spec_is_ram(bus, wrap16(low + 1)),
    ensures
        bus.spec_write(wrap16(low + 1), high_byte(value)).spec_write(
            low,
            low_byte(value),
        ).spec_read_word(low) == value,
{
    reveal(InterconnectView::spec_read);
    reveal(InterconnectView::spec_write);
}

/// A word pushed on a stack that lies in RAM is the word that a pop
/// yields, and the pop puts the stack pointer back.
pub proof fn lemma_push_pop(v: CpuView, value: u16)
    requires
        v.wf(),
        spec_stack_in_ram(v),
    ensures
        v.spec_push(value).spec_pop_value() == value,
        v.spec_push(value).spec_pop().regs.sp == v.regs.sp,
        v.spec_push(value).spec_pop().regs == v.regs,
{
    reveal(CpuView::spec_push);
    let sp = wrap16(v.regs.sp - 2);
    lemma_ram_word(v.bus, sp, value);
}

/// What an opcode from `0xc0` does whose low three bits are 5 and whose
/// bit 3 is clear is a push of the pair that bits 5 and 4 number.
pub proof fn lemma_push_decoded(v: CpuView, opcode: u8, pair: u8)
    requires
        opcode >= 0xc0,
        opcode % 8 == 5,
        (opcode / 8) % 8 == 2 * pair,
    ensures
        v.spec_execute(opcode).cpu == v.spec_push(v.spec_rp2(pair)),
        v.spec_execute(opcode).cycles == 4,
{
    reveal(CpuView::spec_execute);
    reveal(CpuView::spec_block3);
}

/// What the opcode `0xc5 + 16 * pair` does is a push of the pair.
pub proof fn lemma_push_opcode(v: CpuView, pair: u8)
    requires
        pair < 4,
    ensures
        v.spec_execute((0xc5 + 16 * pair) as u8).cpu == v.spec_push(v.spec_rp2(pair)),
        v.spec_execute((0xc5 + 16 * pair) as u8).cycles == 4,
{
    lemma_push_decoded(v, (0xc5 + 16 * pair) as u8, pair);
}

/// What the opcode `0xc1 + 16 * pair` does is a pop into the pair.
pub proof fn lemma_pop_opcode(v: CpuView, pair: u8)
    requires
        pair < 4,
    ensures
        v.spec_execute((0xc1 + 16 * pair) as u8).cpu == v.spec_pop().spec_set_rp2(
            pair,
            v.spec_pop_value(),
        ),
        v.spec_execute((0xc1 + 16 * pair) as u8).cycles == 3,
{
    lemma_pop_decoded(v, (0xc1 + 16 * pair) as u8, pair);
}

/// What an opcode from `0xc0` does whose low three bits are 1 and whose
/// bit 3 is clear is a pop into the pair that bits 5 and 4 number.
pub proof fn lemma_pop_decoded(v: CpuView, opcode: u8, pair: u8)
    requires
        opcode >= 0xc0,
        opcode % 8 == 1,
        (opcode / 8) % 8 == 2 * pair,
    ensures
        v.spec_execute(opcode).cpu == v.spec_pop().spec_set_rp2(pair, v.spec_pop_value()),
        v.spec_execute(opcode).cycles == 3,
{
    reveal(CpuView::spec_execute);
    reveal(CpuView::spec_block3);
    reveal(CpuView::spec_block3_pop);
}

/// Storing in a register pair the word that it holds changes no
/// register.
pub proof fn lemma_store_same(v: CpuView, pair: u8)
    requires
        pair < 4,
    ensures
        v.spec_set_rp2(pair, v.spec_rp2(pair)).regs == v.regs,
{
    reveal(CpuView::spec_rp2);
    reveal(CpuView::spec_set_rp2);
    reveal(CpuView::spec_r16);
    reveal(CpuView::spec_set_r16);
    lemma_flags_of_byte(v.regs.flags);
    lemma_flags_byte_nibble(v.regs.flags);
}

/// PUSH of a register pair followed by POP of the same pair, on a stack
/// that lies in RAM, leaves every register as it was, the pair and the
/// stack pointer among them. The pairs are numbered BC, DE, HL, AF; their
/// opcodes are `0xc5 + 16 * pair` and `0xc1 + 16 * pair`.
pub proof fn lemma_push_then_pop(v: CpuView, pair: u8)
    requires
        v.wf(),
        spec_stack_in_ram(v),
        pair < 4,
    ensures
        v.spec_execute((0xc5 + 16 * pair) as u8).cpu.spec_execute(
            (0xc1 + 16 * pair) as u8,
        ).cpu.regs == v.regs,
        v.spec_execute((0xc5 + 16 * pair) as u8).cycles == 4,
        v.spec_execute((0xc5 + 16 * pair) as u8).cpu.spec_execute((0xc1 + 16 * pair) as u8).cycles
            == 3,
{
    let value = v.spec_rp2(pair);
    let pushed = v.spec_push(value);
    lemma_push_opcode(v, pair);
    lemma_pop_opcode(pushed, pair);
    lemma_push_pop(v, value);
    let popped = pushed.spec_pop();
    lemma_rp2_reads_registers(popped, v, pair);
    lemma_store_same(popped, pair);
}

/// A register pair is read from the registers alone.
pub proof fn lemma_rp2_reads_registers(a: CpuView, b: CpuView, pair: u8)
    requires
        a.regs == b.regs,
    ensures
        a.spec_rp2(pair) == b.spec_rp2(pair),
{
    reveal(CpuView::spec_rp2);
    reveal(CpuView::spec_r16);
}

/// Whatever word lies on a stack in RAM, POP AF loads it without its low
/// nibble: AF reads as the word masked with `0xfff0`.
pub proof fn lemma_pop_af_masks(v: CpuView, value: u16)
    requires
        v.wf(),
        spec_stack_in_ram(v),
    ensures
        v.spec_push(value).spec_execute(0xf1).cpu.regs.spec_af() == value & 0xfff0,
        v.spec_push(value).spec_execute(0xf1).cpu.regs.sp == v.regs.sp,
{
    reveal(CpuView::spec_set_rp2);
    lemma_pop_opcode(v.spec_push(value), 3);
    lemma_push_pop(v, value);
    lemma_af_round_trip(v.spec_push(value).spec_pop().regs, value);
}

} // verus!
