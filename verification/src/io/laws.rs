//! What holds of the interconnect whatever the program does.

use vstd::prelude::*;
use crate::gpu::lemma_display_off_is_still;
use crate::gpu::lemma_run_moves_registers;
use crate::io::gpu::lemma_display_position;
use crate::io::gpu::spec_position;
use crate::io::gpu::Mode;
use crate::io::timer::lemma_internal_counts;
use crate::io::timer::spec_run;
use crate::io::timer::spec_tick;
use crate::io::timer::Timer;
use crate::io::InterconnectView;

verus! {

/// A byte written to the work RAM is read back from the same address,
/// and from the address `0x2000` above it as far as the echo reaches; a
/// byte written through the echo is read back from the work RAM.
pub proof fn lemma_work_ram_round_trip(v: InterconnectView, offset: u16, value: u8)
    requires
        v.wf(),
        offset < 0x2000,
    ensures
        v.spec_write((0xc000 + offset) as u16, value).spec_read((0xc000 + offset) as u16) == value,
        offset < 0x1e00 ==> v.spec_write((0xc000 + offset) as u16, value).spec_read(
            (0xe000 + offset) as u16,
        ) == value,
        offset < 0x1e00 ==> v.spec_write((0xe000 + offset) as u16, value).spec_read(
            (0xc000 + offset) as u16,
        ) == value,
        offset < 0x1e00 ==> v.spec_write((0xe000 + offset) as u16, value).spec_read(
            (0xe000 + offset) as u16,
        ) == value,
{
    reveal(InterconnectView::spec_read);
    reveal(InterconnectView::spec_write);
}

/// A byte written to the high RAM is read back from the same address.
pub proof fn lemma_high_ram_round_trip(v: InterconnectView, address: u16, value: u8)
    requires
        v.wf(),
        0xff80 <= address <= 0xfffe,
    ensures
        v.spec_write(address, value).spec_read(address) == value,
{
    reveal(InterconnectView::spec_read);
    reveal(InterconnectView::spec_write);
}

/// While the picture unit transfers pixels the processor reads `0xff`
/// from all of video RAM, and while it searches the objects or transfers
/// pixels the processor reads `0xff` from the object attribute memory.
pub proof fn lemma_forbidden_reads(v: InterconnectView, address: u16)
    requires
        v.wf(),
    ensures
        v.gpu.regs.mode == Mode::AccessVram && 0x8000 <= address <= 0x9fff ==> v.spec_read(address)
            == 0xff,
        (v.gpu.regs.mode == Mode::AccessVram || v.gpu.regs.mode == Mode::AccessOam) && 0xfe00
            <= address <= 0xfe9f ==> v.spec_read(address) == 0xff,
{
    reveal(InterconnectView::spec_read);
}

/// While the picture unit holds a memory, what the processor writes
/// there is dropped.
pub proof fn lemma_forbidden_writes(v: InterconnectView, address: u16, value: u8)
    requires
        v.wf(),
    ensures
        v.gpu.regs.mode == Mode::AccessVram && 0x8000 <= address <= 0x9fff ==> v.spec_write(
            address,
            value,
        ) == v,
        (v.gpu.regs.mode == Mode::AccessVram || v.gpu.regs.mode == Mode::AccessOam) && 0xfe00
            <= address <= 0xfe9f ==> v.spec_write(address, value) == v,
{
    reveal(InterconnectView::spec_write);
}

/// While a transfer into the object attribute memory is under way, the
/// processor reads `0xff` from all of it.
pub proof fn lemma_oam_reads_during_dma(v: InterconnectView, address: u16)
    requires
        v.spec_dma_active(),
        0xfe00 <= address <= 0xfe9f,
    ensures
        v.spec_read(address) == 0xff,
{
    reveal(InterconnectView::spec_read);
}

/// A write to `0xff46` starts a transfer of 160 bytes from the page that
/// the value names.
pub proof fn lemma_dma_register(v: InterconnectView, page: u8)
    ensures
        v.spec_write(0xff46, page) == v.spec_start_dma(page),
        v.spec_write(0xff46, page).spec_dma_active(),
        v.spec_write(0xff46, page).dma.src == page * 256,
{
    reveal(InterconnectView::spec_write);
    reveal(InterconnectView::spec_write_io);
}

/// Whether two interconnects hold the same bytes wherever a transfer can
/// read.
pub open spec fn spec_same_sources(a: InterconnectView, b: InterconnectView) -> bool {
    &&& a.cartridge == b.cartridge
    &&& a.bootrom == b.bootrom
    &&& a.bootrom_mapped == b.bootrom_mapped
    &&& a.iram == b.iram
    &&& a.gpu.mem.character_ram == b.gpu.mem.character_ram
    &&& a.gpu.mem.tile_map1 == b.gpu.mem.tile_map1
    &&& a.gpu.mem.tile_map2 == b.gpu.mem.tile_map2
}

/// What a transfer reads depends on nothing that a transfer writes.
pub proof fn lemma_sources_agree(a: InterconnectView, b: InterconnectView, address: u16)
    requires
        spec_same_sources(a, b),
    ensures
        a.spec_dma_source(address) == b.spec_dma_source(address),
{
    reveal(InterconnectView::spec_dma_source);
    reveal(InterconnectView::spec_read);
}

/// A transfer that has `len` bytes left and gets `n` machine cycles, no
/// more than it needs, copies the next `n` bytes of its source to the
/// next `n` places of the object attribute memory and changes no other.
pub proof fn lemma_dma_progress(v: InterconnectView, n: nat)
    requires
        v.wf(),
        n <= v.dma.len,
    ensures
        v.spec_dma_run(n).wf(),
        spec_same_sources(v, v.spec_dma_run(n)),
        v.spec_dma_run(n).dma.src == v.dma.src,
        v.spec_dma_run(n).dma.dst == v.dma.dst + n,
        v.spec_dma_run(n).dma.len == v.dma.len - n,
        v.spec_dma_run(n).gpu.regs == v.gpu.regs,
        v.spec_dma_run(n).irq == v.irq,
        v.spec_dma_run(n).timer == v.timer,
        forall|i: int|
            v.dma.dst <= i < v.dma.dst + n ==> #[trigger] v.spec_dma_run(n).gpu.mem.oam[i]
                == v.spec_dma_source((v.dma.src + i) as u16),
        forall|i: int|
            0 <= i < 160 && !(v.dma.dst <= i < v.dma.dst + n) ==> #[trigger] v.spec_dma_run(
                n,
            ).gpu.mem.oam[i] == v.gpu.mem.oam[i],
    decreases n,
{
    if n > 0 {
        let next = v.spec_dma_step();
        lemma_dma_progress(next, (n - 1) as nat);
        let done = next.spec_dma_run((n - 1) as nat);
        assert forall|i: int| v.dma.dst <= i < v.dma.dst + n implies #[trigger] done.gpu.mem.oam[i]
            == v.spec_dma_source((v.dma.src + i) as u16) by {
            if i > v.dma.dst {
                lemma_sources_agree(v, next, (v.dma.src + i) as u16);
            }
        }
    }
}

/// A transfer from page `page`, after `n` of its 160 machine cycles, has
/// copied the bytes at `page * 256 + i` to the places `i` of the object
/// attribute memory for every `i` below `n`, and left the places from
/// `n` on alone. Until the last byte is copied the transfer is under
/// way.
pub proof fn lemma_dma_copies(v: InterconnectView, page: u8, n: nat)
    requires
        v.wf(),
        n <= 160,
    ensures
        forall|i: int|
            0 <= i < n ==> #[trigger] v.spec_start_dma(page).spec_dma_run(n).gpu.mem.oam[i]
                == v.spec_dma_source((page * 256 + i) as u16),
        forall|i: int|
            n <= i < 160 ==> #[trigger] v.spec_start_dma(page).spec_dma_run(n).gpu.mem.oam[i]
                == v.gpu.mem.oam[i],
        v.spec_start_dma(page).spec_dma_run(n).spec_dma_active() <==> n < 160,
{
    let started = v.spec_start_dma(page);
    lemma_dma_progress(started, n);
    assert forall|i: int| 0 <= i < n implies #[trigger] started.spec_dma_run(n).gpu.mem.oam[i]
        == v.spec_dma_source((page * 256 + i) as u16) by {
        lemma_sources_agree(v, started, (page * 256 + i) as u16);
    }
}

/// The timer requests nothing but the timer interrupt.
pub proof fn lemma_timer_requests(t: Timer, n: nat)
    requires
        t.interrupt == 0 || t.interrupt == 4,
    ensures
        spec_run(t, n).interrupt == 0 || spec_run(t, n).interrupt == 4,
    decreases n,
{
    if n > 0 {
        assert(0u8 | 4u8 == 4u8 && 4u8 | 4u8 == 4u8) by (bit_vector);
        lemma_timer_requests(spec_tick(t), (n - 1) as nat);
    }
}

/// Latching the timer interrupt, or nothing, leaves the two lowest
/// request bits as they are.
pub proof fn lemma_latch_keeps_low_bits(flag: u8, mask: u8)
    by (bit_vector)
    requires
        mask == 0 || mask == 4,
    ensures
        ((flag | mask) & 0x1f) & 0x03 == flag & 0x03,
{
}

/// While the display is off, LY reads as zero, and a step of the
/// peripherals requests neither the vertical blank nor the LCD status
/// interrupt and leaves the display off at line zero.
pub proof fn lemma_display_off(v: InterconnectView, ticks: u32)
    requires
        v.wf(),
        !v.gpu.regs.spec_lcd_on(),
    ensures
        v.spec_read(0xff44) == 0,
        v.spec_step(ticks).gpu.regs == v.gpu.regs,
        v.spec_step(ticks).spec_read(0xff44) == 0,
        v.spec_step(ticks).irq.flag & 0x03 == v.irq.flag & 0x03,
{
    reveal(InterconnectView::spec_read);
    reveal(InterconnectView::spec_read_io);
    reveal(InterconnectView::spec_step);
    let timed = spec_run(v.timer, 4 * ticks as nat);
    lemma_timer_requests(v.timer, 4 * ticks as nat);
    lemma_latch_keeps_low_bits(v.irq.flag, timed.interrupt);
    let after_timer = (InterconnectView { timer: Timer { interrupt: 0, ..timed }, ..v }).spec_latch(
        timed.interrupt,
    );
    lemma_dma_some(after_timer, ticks as nat);
    let after_dma = after_timer.spec_dma_run(ticks as nat);
    lemma_display_off_is_still(after_dma.gpu, v.spec_gpu_ticks(ticks) as nat);
    lemma_latch_keeps_low_bits(after_dma.irq.flag, 0);
}

/// A step of the peripherals moves every clock by its share: the
/// free-running counter of the timer by four clock ticks for each
/// machine cycle, a running display by the machine cycles that the
/// picture unit gets; a display that is off stays where it is.
pub proof fn lemma_step_moves_clocks(v: InterconnectView, ticks: u32)
    requires
        v.wf(),
    ensures
        v.spec_step(ticks).timer.internal == (v.timer.internal + 4 * ticks) % 65536,
        v.spec_step(ticks).gpu.regs.spec_lcd_on() == v.gpu.regs.spec_lcd_on(),
        v.gpu.regs.spec_lcd_on() ==> spec_position(v.spec_step(ticks).gpu.regs) == (spec_position(
            v.gpu.regs,
        ) + v.spec_gpu_ticks(ticks)) % 17556,
        !v.gpu.regs.spec_lcd_on() ==> v.spec_step(ticks).gpu.regs == v.gpu.regs,
{
    reveal(InterconnectView::spec_step);
    let timed = spec_run(v.timer, 4 * ticks as nat);
    lemma_internal_counts(v.timer, 4 * ticks as nat);
    let after_timer = (InterconnectView { timer: Timer { interrupt: 0, ..timed }, ..v }).spec_latch(
        timed.interrupt,
    );
    lemma_dma_some(after_timer, ticks as nat);
    let after_dma = after_timer.spec_dma_run(ticks as nat);
    let share = v.spec_gpu_ticks(ticks) as nat;
    lemma_run_moves_registers(after_dma.gpu, share);
    if v.gpu.regs.spec_lcd_on() {
        lemma_display_position(after_dma.gpu.regs, share);
    } else {
        lemma_display_off_is_still(after_dma.gpu, share);
    }
}

/// However long a transfer runs, it touches nothing but the object
/// attribute memory and its own progress.
pub proof fn lemma_dma_some(v: InterconnectView, n: nat)
    requires
        v.wf(),
    ensures
        v.spec_dma_run(n).wf(),
        v.spec_dma_run(n).gpu.regs == v.gpu.regs,
        v.spec_dma_run(n).irq == v.irq,
        v.spec_dma_run(n).timer == v.timer,
    decreases n,
{
    if n > 0 && v.spec_dma_active() {
        lemma_dma_progress(v, 1);
        lemma_dma_some(v.spec_dma_step(), (n - 1) as nat);
    }
}

} // verus!
