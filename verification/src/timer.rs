//! The divider and timer unit (DIV, TIMA, TMA, TAC).
use vstd::prelude::*;

verus! {

/// The mask of the bit of the internal counter that the low two bits of
/// `TAC` select: bit 9, 3, 5 or 7.
pub open spec fn spec_selected_bit(tac: u8) -> u16 {
    if tac & 3 == 0 {
        0x0200
    } else if tac & 3 == 1 {
        0x0008
    } else if tac & 3 == 2 {
        0x0020
    } else {
        0x0080
    }
}

#[verifier::when_used_as_spec(spec_selected_bit)]
pub fn selected_bit(tac: u8) -> (m: u16)
    ensures
        m == spec_selected_bit(tac),
{
    let sel = tac & 3;
    if sel == 0 {
        0x0200
    } else if sel == 1 {
        0x0008
    } else if sel == 2 {
        0x0020
    } else {
        0x0080
    }
}

/// The line whose falling edge advances `TIMA`: the selected bit of the
/// internal counter, gated by the enable bit of `TAC`.
pub open spec fn spec_signal(sys: u16, tac: u8) -> bool {
    tac & 4 != 0 && sys & spec_selected_bit(tac) != 0
}

#[verifier::when_used_as_spec(spec_signal)]
pub fn signal(sys: u16, tac: u8) -> (s: bool)
    ensures
        s == spec_signal(sys, tac),
{
    tac & 4 != 0 && sys & selected_bit(tac) != 0
}

/// The timer unit.
#[derive(Debug, Copy, Clone)]
pub struct Timer {
    /// The 16-bit internal counter; `DIV` is its upper byte.
    pub sys: u16,
    pub tima: u8,
    pub tma: u8,
    /// The low three bits of `TAC`.
    pub tac: u8,
    /// `TIMA` has overflowed and is reloaded from `TMA` on the next cycle.
    pub reload_pending: bool,
    /// Interrupt request bits raised since the bus last collected them.
    pub interrupt: u8,
}

impl Timer {
    pub open spec fn power_on() -> Timer {
        Timer { sys: 0, tima: 0, tma: 0, tac: 0, reload_pending: false, interrupt: 0 }
    }

    pub fn new() -> (t: Timer)
        ensures
            t == Timer::power_on(),
    {
        Timer { sys: 0, tima: 0, tma: 0, tac: 0, reload_pending: false, interrupt: 0 }
    }

    /// `TIMA` advanced by one; an overflow leaves zero and schedules the reload.
    pub open spec fn spec_increment(self) -> Timer {
        if self.tima == 0xff {
            Timer { tima: 0, reload_pending: true, ..self }
        } else {
            Timer { tima: (self.tima + 1) as u8, ..self }
        }
    }

    /// The timer after one clock cycle.
    pub open spec fn spec_tick(self) -> Timer {
        let reloaded = if self.reload_pending {
            Timer {
                tima: self.tma,
                interrupt: self.interrupt | 0x04,
                reload_pending: false,
                ..self
            }
        } else {
            self
        };
        let sys = if self.sys == 0xffff {
            0u16
        } else {
            (self.sys + 1) as u16
        };
        let counted = Timer { sys, ..reloaded };
        if spec_signal(self.sys, self.tac) && !spec_signal(sys, self.tac) {
            counted.spec_increment()
        } else {
            counted
        }
    }

    /// The timer after `n` clock cycles.
    pub open spec fn spec_ticks(self, n: nat) -> Timer
        decreases n,
    {
        if n == 0 {
            self
        } else {
            self.spec_tick().spec_ticks((n - 1) as nat)
        }
    }

    /// The byte read at a timer address.
    pub open spec fn spec_read(self, address: u16) -> u8 {
        if address == 0xff04 {
            (self.sys >> 8) as u8
        } else if address == 0xff05 {
            self.tima
        } else if address == 0xff06 {
            self.tma
        } else {
            0xf8 | self.tac
        }
    }

    /// The timer after a write to a timer address. A write to `DIV` clears
    /// the whole internal counter; a write to `TIMA` cancels a scheduled
    /// reload; a write to `DIV` or `TAC` that makes the watched line fall
    /// advances `TIMA`.
    pub open spec fn spec_write(self, address: u16, value: u8) -> Timer {
        if address == 0xff04 {
            let cleared = Timer { sys: 0, ..self };
            if spec_signal(self.sys, self.tac) {
                cleared.spec_increment()
            } else {
                cleared
            }
        } else if address == 0xff05 {
            Timer { tima: value, reload_pending: false, ..self }
        } else if address == 0xff06 {
            Timer { tma: value, ..self }
        } else {
            let set = Timer { tac: value & 7, ..self };
            if spec_signal(self.sys, self.tac) && !spec_signal(self.sys, value & 7) {
                set.spec_increment()
            } else {
                set
            }
        }
    }

    pub fn read(&self, address: u16) -> (r: u8)
        requires
            0xff04 <= address <= 0xff07,
        ensures
            r == self.spec_read(address),
    {
        if address == 0xff04 {
            (self.sys >> 8) as u8
        } else if address == 0xff05 {
            self.tima
        } else if address == 0xff06 {
            self.tma
        } else {
            0xf8 | self.tac
        }
    }

    fn increment(&mut self)
        ensures
            *final(self) == old(self).spec_increment(),
    {
        if self.tima == 0xff {
            self.tima = 0;
            self.reload_pending = true;
        } else {
            self.tima = self.tima + 1;
        }
    }

    pub fn write(&mut self, address: u16, value: u8)
        requires
            0xff04 <= address <= 0xff07,
        ensures
            *final(self) == old(self).spec_write(address, value),
            address == 0xff04 ==> final(self).sys == 0 && final(self).spec_read(0xff04) == 0,
    {
        if address == 0xff04 {
            let was = signal(self.sys, self.tac);
            self.sys = 0;
            if was {
                self.increment();
            }
            assert((0u16 >> 8) as u8 == 0) by (bit_vector);
        } else if address == 0xff05 {
            self.tima = value;
            self.reload_pending = false;
        } else if address == 0xff06 {
            self.tma = value;
        } else {
            let was = signal(self.sys, self.tac);
            self.tac = value & 7;
            if was && !signal(self.sys, self.tac) {
                self.increment();
            }
        }
    }

    /// Advances the timer by one clock cycle.
    pub fn tick(&mut self)
        ensures
            *final(self) == old(self).spec_tick(),
    {
        let was = signal(self.sys, self.tac);
        if self.reload_pending {
            self.tima = self.tma;
            self.interrupt = self.interrupt | 0x04;
            self.reload_pending = false;
        }
        self.sys = self.sys.wrapping_add(1);
        if was && !signal(self.sys, self.tac) {
            self.increment();
        }
    }

    /// Advances the timer by `cycles` clock cycles.
    pub fn step(&mut self, cycles: u8)
        ensures
            *final(self) == old(self).spec_ticks(cycles as nat),
    {
        let mut i: u8 = 0;
        while i < cycles
            invariant
                i <= cycles,
                self.spec_ticks((cycles - i) as nat) == old(self).spec_ticks(cycles as nat),
            decreases cycles - i,
        {
            self.tick();
            i = i + 1;
        }
    }
}

/// While the enable bit of `TAC` is clear and no reload is scheduled, the
/// passing of time leaves `TIMA` as it is.
pub proof fn lemma_disabled_timer_keeps_tima(t: Timer, n: nat)
    requires
        t.tac & 4 == 0,
        !t.reload_pending,
    ensures
        t.spec_ticks(n).tima == t.tima,
        t.spec_ticks(n).tac == t.tac,
        !t.spec_ticks(n).reload_pending,
        t.spec_ticks(n).interrupt == t.interrupt,
    decreases n,
{
    if n > 0 {
        lemma_disabled_timer_keeps_tima(t.spec_tick(), (n - 1) as nat);
    }
}

} // verus!
