//! The cadence of the display: where the scanline state machine stands
//! after any number of dots, how often a frame requests the VBlank
//! interrupt, and how those requests reach `IF` on the bus.
use vstd::prelude::*;
use crate::gpu::{GpuView, LcdRegisters, Mode};
use crate::memory::MemoryView;
use crate::timer::Timer;

verus! {

/// The dots of one frame: 154 lines of 456 dots.
pub const FRAME_DOTS: u32 = 70224;

/// The dot of the frame after which line 144 begins.
pub const LAST_VISIBLE_DOT: u32 = 65663;

/// The position within the frame: the dots since line 0 began.
pub open spec fn position(regs: LcdRegisters) -> int {
    regs.ly as int * 456 + regs.clock as int
}

/// The position `n` dots after position `p`, for `n` up to one frame.
pub open spec fn advance(p: int, n: int) -> int {
    if p + n >= FRAME_DOTS {
        p + n - FRAME_DOTS
    } else {
        p + n
    }
}

/// How often the `n` dots that follow position `p` begin line 144, for
/// `n` up to one frame.
pub open spec fn crossings(p: int, n: int) -> nat {
    if p <= LAST_VISIBLE_DOT {
        if p + n > LAST_VISIBLE_DOT {
            1
        } else {
            0
        }
    } else if p + n > LAST_VISIBLE_DOT + FRAME_DOTS {
        1
    } else {
        0
    }
}

/// How many of the next `n` dots request the VBlank interrupt.
pub open spec fn vblank_requests(g: GpuView, n: nat) -> nat
    decreases n,
{
    if n == 0 {
        0
    } else {
        (if g.regs.enters_vblank() {
            1nat
        } else {
            0nat
        }) + vblank_requests(g.tick(), (n - 1) as nat)
    }
}

/// Whether bit 0 is set among interrupt requests once further requests
/// are merged into them.
pub proof fn lemma_request_bits(interrupt: u8, vblank: bool, stat: bool)
    by (bit_vector)
    ensures
        ((interrupt | ((if vblank {
            1u8
        } else {
            0u8
        }) | (if stat {
            2u8
        } else {
            0u8
        }))) & 1 != 0) == (interrupt & 1 != 0 || vblank),
        ((interrupt | 2) & 1 != 0) == (interrupt & 1 != 0),
{
}

/// One dot keeps the registers valid, leaves every register that software
/// writes as it was, and moves the position by one. The dot that begins
/// line 144 brings mode 1 and requests the VBlank interrupt; no other dot
/// requests it.
pub proof fn lemma_tick(g: GpuView)
    requires
        g.regs.wf(),
    ensures
        g.tick().regs.wf(),
        g.tick().regs.lcdc == g.regs.lcdc,
        g.tick().regs.stat == g.regs.stat,
        g.tick().regs.lyc == g.regs.lyc,
        g.tick().vram == g.vram,
        g.tick().oam == g.oam,
        g.regs.lcd_on() ==> position(g.tick().regs) == advance(position(g.regs), 1),
        !g.regs.lcd_on() ==> g.tick() == g,
        g.regs.enters_vblank() ==> g.tick().regs.ly == 144 && g.tick().regs.spec_mode()
            == Mode::VBlank,
        (g.tick().regs.interrupt & 1 != 0) == (g.regs.interrupt & 1 != 0
            || g.regs.enters_vblank()),
        g.tick().regs.spec_mode().spec_bits() <= 3,
{
    let ly: u8 = if g.regs.ly >= 153 {
        0
    } else {
        (g.regs.ly + 1) as u8
    };
    lemma_request_bits(
        g.regs.interrupt,
        ly == 144,
        (ly == 144 && g.regs.stat & 0x10 != 0) || (ly < 144 && g.regs.stat & 0x20 != 0) || (ly
            == g.regs.lyc && g.regs.stat & 0x40 != 0),
    );
}

/// While the display is on, `n` dots (up to one frame) move the position
/// by `n` around the frame, and request the VBlank interrupt once for
/// each time that line 144 begins.
pub proof fn lemma_ticks(g: GpuView, n: nat)
    requires
        g.regs.wf(),
        g.regs.lcd_on(),
        n <= FRAME_DOTS,
    ensures
        g.ticks(n).regs.wf(),
        g.ticks(n).regs.lcd_on(),
        position(g.ticks(n).regs) == advance(position(g.regs), n as int),
        vblank_requests(g, n) == crossings(position(g.regs), n as int),
    decreases n,
{
    if n > 0 {
        lemma_tick(g);
        lemma_ticks(g.tick(), (n - 1) as nat);
    }
}

/// A frame is 70224 dots: after them the display stands in the same line
/// at the same dot, in the same mode, and the VBlank interrupt has been
/// requested exactly once.
pub proof fn lemma_frame(g: GpuView)
    requires
        g.regs.wf(),
        g.regs.lcd_on(),
    ensures
        g.ticks(70224).regs.ly == g.regs.ly,
        g.ticks(70224).regs.clock == g.regs.clock,
        g.ticks(70224).regs.spec_mode() == g.regs.spec_mode(),
        vblank_requests(g, 70224) == 1,
{
    lemma_ticks(g, 70224);
}

/// The position after any number of dots is valid: the line is at most
/// 153 and the dot within the line below 456.
pub proof fn lemma_ticks_keep_valid(g: GpuView, n: nat)
    requires
        g.regs.wf(),
    ensures
        g.ticks(n).regs.wf(),
        g.ticks(n).regs.ly <= 153,
        g.ticks(n).regs.clock < 456,
    decreases n,
{
    if n > 0 {
        lemma_tick(g);
        lemma_ticks_keep_valid(g.tick(), (n - 1) as nat);
    }
}

/// Bit 0 of the display's request line after `n` dots: set if it was set
/// or if one of the dots began line 144.
pub proof fn lemma_ticks_request(g: GpuView, n: nat)
    requires
        g.regs.wf(),
    ensures
        (g.ticks(n).regs.interrupt & 1 != 0) == (g.regs.interrupt & 1 != 0 || vblank_requests(g, n)
            > 0),
    decreases n,
{
    if n > 0 {
        lemma_tick(g);
        lemma_ticks_request(g.tick(), (n - 1) as nat);
    }
}

/// The timer never touches bit 0 of its request line.
pub proof fn lemma_timer_leaves_vblank_bit(t: Timer, n: nat)
    ensures
        t.spec_ticks(n).interrupt & 1 == t.interrupt & 1,
    decreases n,
{
    if n > 0 {
        let i = t.interrupt;
        assert((i | 0x04) & 1 == i & 1) by (bit_vector);
        lemma_timer_leaves_vblank_bit(t.spec_tick(), (n - 1) as nat);
    }
}

/// What merging three request lines into `IF` does: no bit of `IF` is
/// cleared, and bit 0 is set afterwards if it was set in any of the four.
pub proof fn lemma_merged_requests(flags: u8, a: u8, b: u8, c: u8)
    by (bit_vector)
    ensures
        (flags | a | b | c) & flags == flags,
        ((flags | a | b | c) & 1 != 0) == (flags & 1 != 0 || a & 1 != 0 || b & 1 != 0 || c & 1
            != 0),
        (flags & 0xfe) & 1 == 0,
        0u8 & 1 == 0,
{
}

/// A step of the bus clears no bit of `IF` and leaves every device's
/// request line at rest. With the display on, the display stands where
/// the dots of the step have brought it.
pub proof fn lemma_bus_step(m: MemoryView, cycles: u8)
    requires
        m.gpu.regs.wf(),
    ensures
        m.step(cycles).interrupt_flags & m.interrupt_flags == m.interrupt_flags,
        m.step(cycles).keypad.interrupt == 0,
        m.step(cycles).gpu.regs.interrupt == 0,
        m.step(cycles).timer.interrupt == 0,
        m.step(cycles).gpu.regs.wf(),
        m.step(cycles).gpu.regs.lcdc == m.gpu.regs.lcdc,
        m.step(cycles).gpu.regs.ly == m.gpu.ticks(cycles as nat).regs.ly,
        m.step(cycles).gpu.regs.clock == m.gpu.ticks(cycles as nat).regs.clock,
        m.step(cycles).gpu.regs.spec_mode() == m.gpu.ticks(cycles as nat).regs.spec_mode(),
{
    reveal(MemoryView::step);
    lemma_ticks_keep_valid(m.gpu, cycles as nat);
    lemma_ticks_keep_control(m.gpu, cycles as nat);
    lemma_merged_requests(
        m.interrupt_flags,
        m.keypad.interrupt,
        m.gpu.ticks(cycles as nat).regs.interrupt,
        m.timer.spec_ticks(cycles as nat).interrupt,
    );
}

/// Dots leave `LCDC` as it is.
pub proof fn lemma_ticks_keep_control(g: GpuView, n: nat)
    requires
        g.regs.wf(),
    ensures
        g.ticks(n).regs.lcdc == g.regs.lcdc,
    decreases n,
{
    if n > 0 {
        lemma_tick(g);
        lemma_ticks_keep_control(g.tick(), (n - 1) as nat);
    }
}

/// Whether no device holds a VBlank request back: bit 0 of every request
/// line is clear, as it is after every step of the bus.
pub open spec fn lines_at_rest(m: MemoryView) -> bool {
    &&& m.keypad.interrupt & 1 == 0
    &&& m.gpu.regs.interrupt & 1 == 0
    &&& m.timer.interrupt & 1 == 0
}

/// With the display on, a step of the bus sets bit 0 of `IF` exactly when
/// one of its dots begins line 144, unless the bit was set before. After
/// such a step the display stands in line 144, in mode 1.
pub proof fn lemma_bus_step_vblank(m: MemoryView, cycles: u8)
    requires
        m.gpu.regs.wf(),
        m.gpu.regs.lcd_on(),
        lines_at_rest(m),
    ensures
        (m.step(cycles).interrupt_flags & 1 != 0) == (m.interrupt_flags & 1 != 0
            || vblank_requests(m.gpu, cycles as nat) > 0),
        vblank_requests(m.gpu, cycles as nat) == crossings(position(m.gpu.regs), cycles as int),
        vblank_requests(m.gpu, cycles as nat) <= 1,
        position(m.step(cycles).gpu.regs) == advance(position(m.gpu.regs), cycles as int),
        vblank_requests(m.gpu, cycles as nat) > 0 ==> m.step(cycles).gpu.regs.ly == 144
            && m.step(cycles).gpu.regs.spec_mode() == Mode::VBlank && m.step(
            cycles,
        ).interrupt_flags & 1 != 0,
        lines_at_rest(m.step(cycles)),
        m.step(cycles).gpu.regs.wf(),
        m.step(cycles).gpu.regs.lcd_on(),
{
    reveal(MemoryView::step);
    let n = cycles as nat;
    lemma_bus_step(m, cycles);
    lemma_ticks(m.gpu, n);
    lemma_ticks_request(m.gpu, n);
    lemma_timer_leaves_vblank_bit(m.timer, n);
    lemma_merged_requests(
        m.interrupt_flags,
        m.keypad.interrupt,
        m.gpu.ticks(n).regs.interrupt,
        m.timer.spec_ticks(n).interrupt,
    );
}

/// The clock cycles of a run of steps.
pub open spec fn total_cycles(steps: Seq<u8>) -> int
    decreases steps.len(),
{
    if steps.len() == 0 {
        0
    } else {
        steps[0] as int + total_cycles(steps.drop_first())
    }
}

/// How often bit 0 of `IF` rises over a run of steps of the bus, where
/// the caller clears the bit after each step.
pub open spec fn vblank_rises(m: MemoryView, steps: Seq<u8>) -> nat
    decreases steps.len(),
{
    if steps.len() == 0 {
        0
    } else {
        let next = m.step(steps[0]);
        (if next.interrupt_flags & 1 != 0 {
            1nat
        } else {
            0nat
        }) + vblank_rises(
            MemoryView { interrupt_flags: next.interrupt_flags & 0xfe, ..next },
            steps.drop_first(),
        )
    }
}

/// With the display on, bit 0 of `IF` rises over a run of steps as often
/// as line 144 begins in their clock cycles, for runs of up to one frame.
pub proof fn lemma_bus_rises(m: MemoryView, steps: Seq<u8>)
    requires
        m.gpu.regs.wf(),
        m.gpu.regs.lcd_on(),
        lines_at_rest(m),
        m.interrupt_flags & 1 == 0,
        total_cycles(steps) <= FRAME_DOTS,
    ensures
        vblank_rises(m, steps) == crossings(position(m.gpu.regs), total_cycles(steps)),
    decreases steps.len(),
{
    if steps.len() > 0 {
        let next = m.step(steps[0]);
        let cleared = MemoryView { interrupt_flags: next.interrupt_flags & 0xfe, ..next };
        lemma_total_cycles_positive(steps.drop_first());
        lemma_bus_step_vblank(m, steps[0]);
        lemma_merged_requests(next.interrupt_flags, 0, 0, 0);
        lemma_bus_rises(cleared, steps.drop_first());
    }
}

/// A run of steps takes no negative time.
pub proof fn lemma_total_cycles_positive(steps: Seq<u8>)
    ensures
        total_cycles(steps) >= 0,
    decreases steps.len(),
{
    if steps.len() > 0 {
        lemma_total_cycles_positive(steps.drop_first());
    }
}

/// Over the steps of one frame, 70224 clock cycles in all, with the
/// display on and bit 0 of `IF` cleared by the caller after each rise,
/// the bit rises exactly once.
pub proof fn lemma_bus_frame(m: MemoryView, steps: Seq<u8>)
    requires
        m.gpu.regs.wf(),
        m.gpu.regs.lcd_on(),
        lines_at_rest(m),
        m.interrupt_flags & 1 == 0,
        total_cycles(steps) == FRAME_DOTS,
    ensures
        vblank_rises(m, steps) == 1,
{
    lemma_bus_rises(m, steps);
}

} // verus!
