//! The joypad: eight keys read through the register at 0xFF00, a row at a time.
use vstd::prelude::*;

verus! {

#[derive(Copy, Clone, PartialEq, Eq, Debug, Structural)]
pub enum GameBoyKey {
    START,
    SELECT,
    B,
    A,
    DOWN,
    UP,
    LEFT,
    RIGHT,
}

#[derive(Copy, Clone, PartialEq, Eq, Debug, Structural)]
pub struct Keypad {
    pub action_buttons: bool,
    pub direction_buttons: bool,
    // action buttons
    pub start: bool,
    pub select: bool,
    pub b: bool,
    pub a: bool,
    // direction buttons
    pub down: bool,
    pub up: bool,
    pub left: bool,
    pub right: bool,
}

/// A key reads as 0 while pressed.
pub open spec fn released_bit(pressed: bool) -> u8 {
    if pressed {
        0
    } else {
        1
    }
}

impl Keypad {
    /// The byte that a read of the register gives while one row is selected: bits 5 and 4
    /// tell the selected row (0 = selected), bits 3-0 the keys of that row (0 = pressed).
    pub open spec fn reading(self) -> u8 {
        if self.action_buttons && !self.direction_buttons {
            (0x10 + 8 * released_bit(self.start) + 4 * released_bit(self.select) + 2
                * released_bit(self.b) + released_bit(self.a)) as u8
        } else if !self.action_buttons && self.direction_buttons {
            (0x20 + 8 * released_bit(self.down) + 4 * released_bit(self.up) + 2
                * released_bit(self.left) + released_bit(self.right)) as u8
        } else {
            0
        }
    }

    pub open spec fn with_key(self, key: GameBoyKey, value: bool) -> Keypad {
        match key {
            GameBoyKey::START => Keypad { start: value, ..self },
            GameBoyKey::SELECT => Keypad { select: value, ..self },
            GameBoyKey::B => Keypad { b: value, ..self },
            GameBoyKey::A => Keypad { a: value, ..self },
            GameBoyKey::DOWN => Keypad { down: value, ..self },
            GameBoyKey::UP => Keypad { up: value, ..self },
            GameBoyKey::LEFT => Keypad { left: value, ..self },
            GameBoyKey::RIGHT => Keypad { right: value, ..self },
        }
    }

    /// The keypad after a write of `data` to the register: bit 5 clear selects the
    /// action keys, bit 4 clear the direction keys.
    pub open spec fn with_selection(self, data: u8) -> Keypad {
        Keypad { action_buttons: (data / 32) % 2 == 0, direction_buttons: (data / 16) % 2 == 0, ..self }
    }

    pub fn new() -> (keypad: Keypad)
        ensures
            keypad == (Keypad {
                action_buttons: false,
                direction_buttons: false,
                start: false,
                select: false,
                b: false,
                a: false,
                down: false,
                up: false,
                left: false,
                right: false,
            }),
    {
        Keypad {
            action_buttons: false,
            direction_buttons: false,
            start: false,
            select: false,
            b: false,
            a: false,
            down: false,
            up: false,
            left: false,
            right: false,
        }
    }

    /// Selects the rows to read: bit 5 clear selects the action keys, bit 4 clear the
    /// direction keys.
    pub fn control(&mut self, data: u8)
        ensures
            *final(self) == old(self).with_selection(data),
    {
        self.action_buttons = (data / 32) % 2 == 0;
        self.direction_buttons = (data / 16) % 2 == 0;
    }

    /// Reads the selected row. Both rows at once cannot be read.
    pub fn get(&self) -> (data: u8)
        requires
            !(self.action_buttons && self.direction_buttons),
        ensures
            data == self.reading(),
    {
        if self.action_buttons && !self.direction_buttons {
            0x10 + 8 * (!self.start as u8) + 4 * (!self.select as u8) + 2 * (!self.b as u8) + (!self.a as u8)
        } else if !self.action_buttons && self.direction_buttons {
            0x20 + 8 * (!self.down as u8) + 4 * (!self.up as u8) + 2 * (!self.left as u8) + (!self.right as u8)
        } else {
            0x00
        }
    }

    pub fn set(&mut self, key: GameBoyKey, value: bool)
        ensures
            *final(self) == old(self).with_key(key, value),
    {
        match key {
            GameBoyKey::START => self.start = value,
            GameBoyKey::SELECT => self.select = value,
            GameBoyKey::B => self.b = value,
            GameBoyKey::A => self.a = value,
            GameBoyKey::DOWN => self.down = value,
            GameBoyKey::UP => self.up = value,
            GameBoyKey::LEFT => self.left = value,
            GameBoyKey::RIGHT => self.right = value,
        }
    }
}

/// Whether a key belongs to the action row (START, SELECT, B, A) rather than the
/// direction row.
pub open spec fn is_action_key(key: GameBoyKey) -> bool {
    match key {
        GameBoyKey::START | GameBoyKey::SELECT | GameBoyKey::B | GameBoyKey::A => true,
        _ => false,
    }
}

/// The weight of the bit that a key drives in the reading of its row: START and DOWN
/// bit 3, SELECT and UP bit 2, B and LEFT bit 1, A and RIGHT bit 0.
pub open spec fn key_weight(key: GameBoyKey) -> int {
    match key {
        GameBoyKey::START | GameBoyKey::DOWN => 8,
        GameBoyKey::SELECT | GameBoyKey::UP => 4,
        GameBoyKey::B | GameBoyKey::LEFT => 2,
        GameBoyKey::A | GameBoyKey::RIGHT => 1,
    }
}

/// Selecting a row: after a write to the register, the action row is selected exactly
/// when bit 5 of the byte is clear and the direction row exactly when bit 4 is clear; the
/// keys do not move. So 0x10 selects the action keys, 0x20 the directions.
pub proof fn lemma_row_selection(keypad: Keypad, data: u8)
    ensures
        keypad.with_selection(data).action_buttons == (data & 0x20 == 0),
        keypad.with_selection(data).direction_buttons == (data & 0x10 == 0),
        keypad.with_selection(data).with_selection(data) == keypad.with_selection(data),
        ({
            let k = keypad.with_selection(data);
            k.start == keypad.start && k.select == keypad.select && k.b == keypad.b && k.a == keypad.a
                && k.down == keypad.down && k.up == keypad.up && k.left == keypad.left && k.right
                == keypad.right
        }),
{
    assert(((data / 32) % 2 == 0) == (data & 0x20 == 0) && ((data / 16) % 2 == 0) == (data & 0x10
        == 0)) by (bit_vector);
}

/// The bits of a row reading `base + 8 x + 4 y + 2 z + w`.
proof fn lemma_row_bits(base: u8, x: u8, y: u8, z: u8, w: u8)
    requires
        base == 0x10 || base == 0x20,
        x <= 1,
        y <= 1,
        z <= 1,
        w <= 1,
    ensures
        ({
            let r = (base + 8 * x + 4 * y + 2 * z + w) as u8 as int;
            &&& (r / 8) % 2 == x
            &&& (r / 4) % 2 == y
            &&& (r / 2) % 2 == z
            &&& r % 2 == w
            &&& r / 16 == base / 16
        }),
{
    assert({
        let r = (base + 8 * x + 4 * y + 2 * z + w) as u8;
        &&& (r / 8) % 2 == x
        &&& (r / 4) % 2 == y
        &&& (r / 2) % 2 == z
        &&& r % 2 == w
        &&& r / 16 == base / 16
    }) by (bit_vector)
        requires
            base == 0x10 || base == 0x20,
            x <= 1,
            y <= 1,
            z <= 1,
            w <= 1,
    ;
}

/// Reading a row: with one row selected, the key's own bit reads 0 exactly while it is
/// pressed, pressing or releasing it moves no other bit, and the high nibble tells the
/// selected row (0x1 for the action keys, 0x2 for the directions).
pub proof fn lemma_row_reading(keypad: Keypad, key: GameBoyKey, value: bool)
    requires
        keypad.action_buttons != keypad.direction_buttons,
        is_action_key(key) == keypad.action_buttons,
    ensures
        ({
            let r = keypad.with_key(key, value).reading() as int;
            let r0 = keypad.reading() as int;
            &&& (r / 8) % 2 == if key_weight(key) == 8 { released_bit(value) as int } else { (r0 / 8) % 2 }
            &&& (r / 4) % 2 == if key_weight(key) == 4 { released_bit(value) as int } else { (r0 / 4) % 2 }
            &&& (r / 2) % 2 == if key_weight(key) == 2 { released_bit(value) as int } else { (r0 / 2) % 2 }
            &&& r % 2 == if key_weight(key) == 1 { released_bit(value) as int } else { r0 % 2 }
            &&& r / 16 == if keypad.action_buttons { 1int } else { 2int }
        }),
{
    let k = keypad.with_key(key, value);
    let r0 = keypad.reading() as int;
    let r = k.reading() as int;
    assert(k.action_buttons == keypad.action_buttons && k.direction_buttons == keypad.direction_buttons);
    if keypad.action_buttons {
        lemma_row_bits(0x10, released_bit(keypad.start), released_bit(keypad.select), released_bit(keypad.b), released_bit(keypad.a));
        lemma_row_bits(0x10, released_bit(k.start), released_bit(k.select), released_bit(k.b), released_bit(k.a));
        assert((r / 8) % 2 == released_bit(k.start) && (r / 4) % 2 == released_bit(k.select)
            && (r / 2) % 2 == released_bit(k.b) && r % 2 == released_bit(k.a) && r / 16 == 1);
        assert((r0 / 8) % 2 == released_bit(keypad.start) && (r0 / 4) % 2 == released_bit(keypad.select)
            && (r0 / 2) % 2 == released_bit(keypad.b) && r0 % 2 == released_bit(keypad.a));
    } else {
        lemma_row_bits(0x20, released_bit(keypad.down), released_bit(keypad.up), released_bit(keypad.left), released_bit(keypad.right));
        lemma_row_bits(0x20, released_bit(k.down), released_bit(k.up), released_bit(k.left), released_bit(k.right));
        assert((r / 8) % 2 == released_bit(k.down) && (r / 4) % 2 == released_bit(k.up)
            && (r / 2) % 2 == released_bit(k.left) && r % 2 == released_bit(k.right) && r / 16 == 2);
        assert((r0 / 8) % 2 == released_bit(keypad.down) && (r0 / 4) % 2 == released_bit(keypad.up)
            && (r0 / 2) % 2 == released_bit(keypad.left) && r0 % 2 == released_bit(keypad.right));
    }
}

/// With the action row selected, pressing START clears bit 3 of the reading and
/// releasing it sets that bit; the other bits do not move.
pub proof fn lemma_pressed_key_reads_zero(keypad: Keypad, value: bool)
    requires
        keypad.action_buttons,
        !keypad.direction_buttons,
    ensures
        (keypad.with_key(GameBoyKey::START, value).reading() / 8) % 2 == released_bit(value),
        keypad.with_key(GameBoyKey::START, value).reading() % 8 == keypad.reading() % 8,
{
}

} // verus!
