//! The joypad latch at `FF00`.
use vstd::prelude::*;

verus! {

pub const ROW0_FLAG: u8 = 0x10;

pub const ROW1_FLAG: u8 = 0x20;

/// The eight keys.
#[derive(Clone, Copy, Debug)]
pub enum Key {
    A,
    B,
    Select,
    Start,
    Right,
    Left,
    Up,
    Down,
}

/// What the host reports of a key.
#[derive(Clone, Copy, Debug)]
pub enum KeyEvent {
    Press(Key),
    Release(Key),
}

impl Key {
    /// Whether the key sits on the direction row (the other row holds the
    /// action keys).
    pub open spec fn spec_is_direction(self) -> bool {
        match self {
            Key::Right | Key::Left | Key::Up | Key::Down => true,
            _ => false,
        }
    }

    /// The line of its row that the key pulls low.
    pub open spec fn spec_line(self) -> u8 {
        match self {
            Key::Right | Key::A => 0x01,
            Key::Left | Key::B => 0x02,
            Key::Up | Key::Select => 0x04,
            Key::Down | Key::Start => 0x08,
        }
    }

    #[verifier::when_used_as_spec(spec_is_direction)]
    pub fn is_direction(self) -> (r: bool)
        ensures
            r == self.spec_is_direction(),
    {
        match self {
            Key::Right | Key::Left | Key::Up | Key::Down => true,
            _ => false,
        }
    }

    #[verifier::when_used_as_spec(spec_line)]
    pub fn line(self) -> (r: u8)
        ensures
            r == self.spec_line(),
    {
        match self {
            Key::Right | Key::A => 0x01,
            Key::Left | Key::B => 0x02,
            Key::Up | Key::Select => 0x04,
            Key::Down | Key::Start => 0x08,
        }
    }
}

/// The two rows of keys and the register that shows them.
#[derive(Clone, Copy, Debug)]
pub struct Keypad {
    /// The register as software reads it: row-select bits and input lines.
    pub data: u8,
    /// The direction row, active low.
    pub row0: u8,
    /// The action row, active low.
    pub row1: u8,
    /// Interrupt request bits raised since the bus last collected them.
    pub interrupt: u8,
}

impl Keypad {
    pub open spec fn power_on() -> Keypad {
        Keypad { data: 0xff, row0: 0x0f, row1: 0x0f, interrupt: 0x00 }
    }

    pub fn new() -> (k: Keypad)
        ensures
            k == Keypad::power_on(),
            k.wf(),
    {
        assert(0xffu8 & 0x0f == 0x0f && 0xffu8 & 0x10 != 0 && 0xffu8 & 0x20 != 0 && 0x0fu8 & 0x0f
            == 0x0f) by (bit_vector);
        Keypad { data: 0xff, row0: 0x0f, row1: 0x0f, interrupt: 0x00 }
    }

    /// The four input lines as the selected rows drive them: the bitwise AND
    /// of every row whose select bit is low, all high when none is selected.
    pub open spec fn spec_lines(self) -> u8 {
        (if self.data & ROW0_FLAG == 0 {
            self.row0 & 0x0f
        } else {
            0x0fu8
        }) & (if self.data & ROW1_FLAG == 0 {
            self.row1 & 0x0f
        } else {
            0x0fu8
        })
    }

    /// The latch shows the lines: the low nibble of the register is what
    /// the selected rows drive.
    pub open spec fn wf(self) -> bool {
        self.data & 0x0f == self.spec_lines()
    }

    /// Whether the row of a key is selected: its select bit is low.
    pub open spec fn spec_row_selected(self, key: Key) -> bool {
        if key.spec_is_direction() {
            self.data & ROW0_FLAG == 0
        } else {
            self.data & ROW1_FLAG == 0
        }
    }

    /// The latch after the input lines settle: the low nibble shows the
    /// lines, and a line that went from high to low requests the joypad
    /// interrupt.
    pub open spec fn spec_update(self) -> Keypad {
        let before = self.data & 0x0f;
        let after = self.spec_lines();
        Keypad {
            data: (self.data & 0xf0) | after,
            interrupt: if before & !after & 0x0f != 0 {
                self.interrupt | 0x10
            } else {
                self.interrupt
            },
            ..self
        }
    }

    pub open spec fn spec_write(self, value: u8) -> Keypad {
        (Keypad {
            data: (self.data & !(ROW0_FLAG | ROW1_FLAG)) | (value & (ROW0_FLAG | ROW1_FLAG)),
            ..self
        }).spec_update()
    }

    pub open spec fn spec_is_pressed(&self, key: Key) -> bool {
        if key.spec_is_direction() {
            self.row0 & key.spec_line() == 0
        } else {
            self.row1 & key.spec_line() == 0
        }
    }

    pub open spec fn spec_press(self, key: Key) -> Keypad {
        (if key.spec_is_direction() {
            Keypad { row0: self.row0 & !key.spec_line(), ..self }
        } else {
            Keypad { row1: self.row1 & !key.spec_line(), ..self }
        }).spec_update()
    }

    pub open spec fn spec_release(self, key: Key) -> Keypad {
        (if key.spec_is_direction() {
            Keypad { row0: self.row0 | key.spec_line(), ..self }
        } else {
            Keypad { row1: self.row1 | key.spec_line(), ..self }
        }).spec_update()
    }

    pub fn read(&self) -> (r: u8)
        ensures
            r == self.data,
    {
        self.data
    }

    pub fn write(&mut self, value: u8)
        ensures
            *final(self) == old(self).spec_write(value),
            final(self).wf(),
    {
        let mask = ROW0_FLAG | ROW1_FLAG;
        self.data = (self.data & !mask) | (value & mask);
        self.update();
    }

    pub fn update(&mut self)
        ensures
            *final(self) == old(self).spec_update(),
            final(self).wf(),
    {
        proof {
            lemma_update_settles(*self);
        }
        let before = self.data & 0x0f;
        let mut after: u8 = 0x0f;
        if self.data & ROW0_FLAG == 0 {
            after = self.row0 & 0x0f;
        }
        if self.data & ROW1_FLAG == 0 {
            after = after & (self.row1 & 0x0f);
        } else {
            after = after & 0x0f;
        }
        assert(after == self.spec_lines()) by {
            let r0 = self.row0;
            assert((r0 & 0x0f) & 0x0f == r0 & 0x0f) by (bit_vector);
            assert(0x0fu8 & 0x0f == 0x0f) by (bit_vector);
        }
        if before & !after & 0x0f != 0 {
            self.interrupt = self.interrupt | 0x10;
        }
        self.data = (self.data & 0xf0) | after;
    }

    #[verifier::when_used_as_spec(spec_is_pressed)]
    pub fn is_pressed(&self, key: Key) -> (r: bool)
        ensures
            r == self.spec_is_pressed(key),
    {
        if key.is_direction() {
            self.row0 & key.line() == 0
        } else {
            self.row1 & key.line() == 0
        }
    }

    pub fn press(&mut self, key: Key)
        ensures
            *final(self) == old(self).spec_press(key),
            final(self).is_pressed(key),
            final(self).wf(),
    {
        proof {
            lemma_press(self.row0, key.line(), key.line());
            lemma_press(self.row1, key.line(), key.line());
        }
        if key.is_direction() {
            self.row0 = self.row0 & !key.line();
        } else {
            self.row1 = self.row1 & !key.line();
        }
        self.update();
    }

    pub fn release(&mut self, key: Key)
        ensures
            *final(self) == old(self).spec_release(key),
            !final(self).is_pressed(key),
            final(self).wf(),
    {
        proof {
            lemma_press(self.row0, key.line(), key.line());
            lemma_press(self.row1, key.line(), key.line());
        }
        if key.is_direction() {
            self.row0 = self.row0 | key.line();
        } else {
            self.row1 = self.row1 | key.line();
        }
        self.update();
    }

    /// Applies a key event from the host.
    pub fn handle(&mut self, event: KeyEvent)
        ensures
            *final(self) == (match event {
                KeyEvent::Press(key) => old(self).spec_press(key),
                KeyEvent::Release(key) => old(self).spec_release(key),
            }),
            final(self).wf(),
    {
        match event {
            KeyEvent::Press(key) => self.press(key),
            KeyEvent::Release(key) => self.release(key),
        }
    }
}

/// Pulling one line of a row low or letting it go leaves the other lines of
/// the row as they were.
pub proof fn lemma_press(row: u8, line: u8, other: u8)
    by (bit_vector)
    requires
        line == 1 || line == 2 || line == 4 || line == 8,
        other == 1 || other == 2 || other == 4 || other == 8,
    ensures
        ((row & !line) & other == 0) == (other == line || row & other == 0),
        ((row | line) & other == 0) == (other != line && row & other == 0),
{
}

/// Pressing a key shows it as pressed and changes no other key; releasing
/// it shows it as released and changes no other key.
pub proof fn lemma_press_release(k: Keypad, key: Key, other: Key)
    ensures
        k.spec_press(key).spec_is_pressed(other) == (other == key || k.spec_is_pressed(other)),
        k.spec_release(key).spec_is_pressed(other) == (other != key && k.spec_is_pressed(other)),
{
    lemma_press(k.row0, key.spec_line(), other.spec_line());
    lemma_press(k.row1, key.spec_line(), other.spec_line());
}

/// The lines that rows drive lie in the low nibble.
pub proof fn lemma_lines_low(a: u8, b: u8)
    by (bit_vector)
    ensures
        ((a & 0x0f) & (b & 0x0f)) & 0xf0 == 0,
        ((a & 0x0f) & 0x0f) & 0xf0 == 0,
        (0x0f & (b & 0x0f)) & 0xf0 == 0,
        (0x0fu8 & 0x0f) & 0xf0 == 0,
{
}

/// Putting lines into the low nibble of the register shows them there and
/// leaves the high nibble, with the two select bits, as it was.
pub proof fn lemma_latch(data: u8, lines: u8)
    by (bit_vector)
    requires
        lines & 0xf0 == 0,
    ensures
        ((data & 0xf0) | lines) & 0x0f == lines,
        ((data & 0xf0) | lines) & 0x10 == data & 0x10,
        ((data & 0xf0) | lines) & 0x20 == data & 0x20,
        ((data & 0xf0) | lines) & 0xf0 == data & 0xf0,
        (data & 0xf0) | (data & 0x0f) == data,
{
}

/// What pulling one line of a row low, or letting it go, does to the
/// lines that the row drives together with another row.
pub proof fn lemma_row_moves(row: u8, other: u8, line: u8)
    by (bit_vector)
    requires
        line == 1 || line == 2 || line == 4 || line == 8,
    ensures
        ((row & !line) & 0x0f) & other == ((row & 0x0f) & other) & !line,
        other & ((row & !line) & 0x0f) == (other & (row & 0x0f)) & !line,
        ((row | line) & 0x0f) & other == ((row & 0x0f) & other) | (line & other),
        other & ((row | line) & 0x0f) == (other & (row & 0x0f)) | (line & other),
        row & line != 0 ==> (row & !line) | line == row,
{
}

/// Which lines fall: from lines to the same lines with one pulled low,
/// that one if it was high; from lines to the same lines and more, none.
pub proof fn lemma_falling_lines(before: u8, more: u8, line: u8)
    by (bit_vector)
    requires
        line == 1 || line == 2 || line == 4 || line == 8,
    ensures
        (before & !(before & !line) & 0x0f != 0) == (before & line != 0),
        before & !(before | more) & 0x0f == 0,
        before & !before & 0x0f == 0,
        (before & !line) & line == 0,
{
}

/// Once the input lines have settled the latch shows them; the select
/// bits and the rows are as before.
pub proof fn lemma_update_settles(k: Keypad)
    ensures
        k.spec_update().wf(),
        k.spec_update().spec_lines() == k.spec_lines(),
        k.spec_update().data & 0xf0 == k.data & 0xf0,
        k.wf() ==> k.spec_update() == k,
{
    lemma_lines_low(k.row0, k.row1);
    lemma_latch(k.data, k.spec_lines());
    lemma_falling_lines(k.spec_lines(), 0, 1);
}

/// Every way to the latch leaves it showing the lines: power-on, a write
/// of the register, a press and a release.
pub proof fn lemma_latch_shows_lines(k: Keypad, value: u8, key: Key)
    ensures
        Keypad::power_on().wf(),
        k.spec_write(value).wf(),
        k.spec_press(key).wf(),
        k.spec_release(key).wf(),
{
    assert(0xffu8 & 0x0f == 0x0f && 0xffu8 & 0x10 != 0 && 0xffu8 & 0x20 != 0 && 0x0fu8 & 0x0f
        == 0x0f) by (bit_vector);
    lemma_update_settles(
        Keypad {
            data: (k.data & !(ROW0_FLAG | ROW1_FLAG)) | (value & (ROW0_FLAG | ROW1_FLAG)),
            ..k
        },
    );
    lemma_update_settles(Keypad { row0: k.row0 & !key.spec_line(), ..k });
    lemma_update_settles(Keypad { row1: k.row1 & !key.spec_line(), ..k });
    lemma_update_settles(Keypad { row0: k.row0 | key.spec_line(), ..k });
    lemma_update_settles(Keypad { row1: k.row1 | key.spec_line(), ..k });
}

/// A press pulls the key's line low if the key's row is selected, and
/// moves no other line. It requests the joypad interrupt exactly when the
/// row is selected and the line was high: a line that the other selected
/// row already holds low does not fall.
pub proof fn lemma_press_requests(k: Keypad, key: Key)
    requires
        k.wf(),
    ensures
        k.spec_press(key).spec_lines() == if k.spec_row_selected(key) {
            k.spec_lines() & !key.spec_line()
        } else {
            k.spec_lines()
        },
        k.spec_press(key).interrupt == if k.spec_row_selected(key) && k.data & key.spec_line()
            != 0 {
            k.interrupt | 0x10
        } else {
            k.interrupt
        },
        k.spec_press(key).data & 0xf0 == k.data & 0xf0,
{
    let line = key.spec_line();
    let first: u8 = if k.data & ROW0_FLAG == 0 {
        k.row0 & 0x0f
    } else {
        0x0f
    };
    let second: u8 = if k.data & ROW1_FLAG == 0 {
        k.row1 & 0x0f
    } else {
        0x0f
    };
    lemma_row_moves(k.row0, second, line);
    lemma_row_moves(k.row1, first, line);
    lemma_falling_lines(k.spec_lines(), 0, line);
    lemma_update_settles(Keypad { row0: k.row0 & !line, ..k });
    lemma_update_settles(Keypad { row1: k.row1 & !line, ..k });
    assert(k.data & line != 0 <==> k.spec_lines() & line != 0) by {
        let d = k.data;
        assert((d & 0x0f) & line == d & line) by (bit_vector)
            requires
                line == 1 || line == 2 || line == 4 || line == 8,
        ;
    }
}

/// A release lets no line fall: it requests nothing.
pub proof fn lemma_release_requests_nothing(k: Keypad, key: Key)
    requires
        k.wf(),
    ensures
        k.spec_release(key).interrupt == k.interrupt,
        k.spec_release(key).data & 0xf0 == k.data & 0xf0,
{
    let line = key.spec_line();
    let first: u8 = if k.data & ROW0_FLAG == 0 {
        k.row0 & 0x0f
    } else {
        0x0f
    };
    let second: u8 = if k.data & ROW1_FLAG == 0 {
        k.row1 & 0x0f
    } else {
        0x0f
    };
    lemma_row_moves(k.row0, second, line);
    lemma_row_moves(k.row1, first, line);
    lemma_falling_lines(k.spec_lines(), line & second, line);
    lemma_falling_lines(k.spec_lines(), line & first, line);
    lemma_falling_lines(k.spec_lines(), 0, line);
    lemma_update_settles(Keypad { row0: k.row0 | line, ..k });
    lemma_update_settles(Keypad { row1: k.row1 | line, ..k });
}

/// A press followed by the release of the same key, which was not held
/// before, leaves the rows and the register as they were; what stays is
/// the request that the press made.
pub proof fn lemma_press_then_release(k: Keypad, key: Key)
    requires
        k.wf(),
        !k.spec_is_pressed(key),
    ensures
        k.spec_press(key).spec_release(key) == (Keypad {
            interrupt: k.spec_press(key).interrupt,
            ..k
        }),
{
    let line = key.spec_line();
    let pressed = k.spec_press(key);
    lemma_latch_shows_lines(k, 0, key);
    lemma_press_requests(k, key);
    lemma_release_requests_nothing(pressed, key);
    lemma_row_moves(k.row0, 0, line);
    lemma_row_moves(k.row1, 0, line);
    let restored = if key.spec_is_direction() {
        Keypad { row0: pressed.row0 | line, ..pressed }
    } else {
        Keypad { row1: pressed.row1 | line, ..pressed }
    };
    assert(restored.row0 == k.row0 && restored.row1 == k.row1);
    lemma_update_settles(restored);
    lemma_lines_low(k.row0, k.row1);
    lemma_latch(pressed.data, k.spec_lines());
    lemma_latch(k.data, k.spec_lines());
    assert(restored.spec_lines() == k.spec_lines()) by {
        let d = k.data;
        let e = pressed.data;
        assert(e & 0xf0 == d & 0xf0 ==> (e & 0x10 == d & 0x10 && e & 0x20 == d & 0x20))
            by (bit_vector);
    }
    assert(pressed.spec_release(key).data == k.data) by {
        let d = k.data;
        let e = pressed.data;
        assert(e & 0xf0 == d & 0xf0 ==> (e & 0xf0) | (d & 0x0f) == d) by (bit_vector);
    }
}

} // verus!
