use vstd::prelude::*;

verus! {

/// I/O port of the keyboard controller's data register.
pub const PS2_DATA_PORT: u16 = 0x60;

/// I/O port of the keyboard controller's status register.
pub const PS2_STATUS_PORT: u16 = 0x64;

/// Status bit set while a byte waits in the data register.
pub const PS2_OUTPUT_BUFFER_STATUS_BIT: u8 = 1;

/// A key as decoded from the keyboard.
#[derive(Debug, Clone, Copy, PartialEq, Eq, Structural)]
pub enum Key {
    /// A printable byte.
    Char(u8),
    Backspace,
    Enter,
    ArrowLeft,
    ArrowRight,
    ArrowUp,
    ArrowDown,
    Tab,
}

/// Whether the status byte `status` says a byte waits in the data register.
pub fn buffer_full(status: u8) -> (r: bool)
    ensures
        r == (status % 2 == 1),
{
    assert(status & 1 == status % 2) by (bit_vector);
    status & PS2_OUTPUT_BUFFER_STATUS_BIT != 0
}

/// The key of a make code of scancode set 1 (US layout, unshifted), for the
/// keys this kernel handles.
pub open spec fn key_of(code: u8) -> Option<Key> {
    match code {
        2 => Some(Key::Char(49)),
        3 => Some(Key::Char(50)),
        4 => Some(Key::Char(51)),
        5 => Some(Key::Char(52)),
        6 => Some(Key::Char(53)),
        7 => Some(Key::Char(54)),
        8 => Some(Key::Char(55)),
        9 => Some(Key::Char(56)),
        10 => Some(Key::Char(57)),
        11 => Some(Key::Char(48)),
        12 => Some(Key::Char(45)),
        13 => Some(Key::Char(61)),
        14 => Some(Key::Backspace),
        15 => Some(Key::Tab),
        16 => Some(Key::Char(113)),
        17 => Some(Key::Char(119)),
        18 => Some(Key::Char(101)),
        19 => Some(Key::Char(114)),
        20 => Some(Key::Char(116)),
        21 => Some(Key::Char(121)),
        22 => Some(Key::Char(117)),
        23 => Some(Key::Char(105)),
        24 => Some(Key::Char(111)),
        25 => Some(Key::Char(112)),
        26 => Some(Key::Char(91)),
        27 => Some(Key::Char(93)),
        28 => Some(Key::Enter),
        30 => Some(Key::Char(97)),
        31 => Some(Key::Char(115)),
        32 => Some(Key::Char(100)),
        33 => Some(Key::Char(102)),
        34 => Some(Key::Char(103)),
        35 => Some(Key::Char(104)),
        36 => Some(Key::Char(106)),
        37 => Some(Key::Char(107)),
        38 => Some(Key::Char(108)),
        39 => Some(Key::Char(59)),
        40 => Some(Key::Char(39)),
        41 => Some(Key::Char(96)),
        43 => Some(Key::Char(92)),
        44 => Some(Key::Char(122)),
        45 => Some(Key::Char(120)),
        46 => Some(Key::Char(99)),
        47 => Some(Key::Char(118)),
        48 => Some(Key::Char(98)),
        49 => Some(Key::Char(110)),
        50 => Some(Key::Char(109)),
        51 => Some(Key::Char(44)),
        52 => Some(Key::Char(46)),
        53 => Some(Key::Char(47)),
        55 => Some(Key::Char(42)),
        57 => Some(Key::Char(32)),
        72 => Some(Key::ArrowUp),
        75 => Some(Key::ArrowLeft),
        77 => Some(Key::ArrowRight),
        80 => Some(Key::ArrowDown),
        _ => None,
    }
}

/// Decodes a make code of scancode set 1 (see `key_of`); other codes,
/// releases among them, give `None`.
pub fn scancode_to_key(code: u8) -> (r: Option<Key>)
    ensures
        r == key_of(code),
{
    match code {
        2 => Some(Key::Char(49)),
        3 => Some(Key::Char(50)),
        4 => Some(Key::Char(51)),
        5 => Some(Key::Char(52)),
        6 => Some(Key::Char(53)),
        7 => Some(Key::Char(54)),
        8 => Some(Key::Char(55)),
        9 => Some(Key::Char(56)),
        10 => Some(Key::Char(57)),
        11 => Some(Key::Char(48)),
        12 => Some(Key::Char(45)),
        13 => Some(Key::Char(61)),
        14 => Some(Key::Backspace),
        15 => Some(Key::Tab),
        16 => Some(Key::Char(113)),
        17 => Some(Key::Char(119)),
        18 => Some(Key::Char(101)),
        19 => Some(Key::Char(114)),
        20 => Some(Key::Char(116)),
        21 => Some(Key::Char(121)),
        22 => Some(Key::Char(117)),
        23 => Some(Key::Char(105)),
        24 => Some(Key::Char(111)),
        25 => Some(Key::Char(112)),
        26 => Some(Key::Char(91)),
        27 => Some(Key::Char(93)),
        28 => Some(Key::Enter),
        30 => Some(Key::Char(97)),
        31 => Some(Key::Char(115)),
        32 => Some(Key::Char(100)),
        33 => Some(Key::Char(102)),
        34 => Some(Key::Char(103)),
        35 => Some(Key::Char(104)),
        36 => Some(Key::Char(106)),
        37 => Some(Key::Char(107)),
        38 => Some(Key::Char(108)),
        39 => Some(Key::Char(59)),
        40 => Some(Key::Char(39)),
        41 => Some(Key::Char(96)),
        43 => Some(Key::Char(92)),
        44 => Some(Key::Char(122)),
        45 => Some(Key::Char(120)),
        46 => Some(Key::Char(99)),
        47 => Some(Key::Char(118)),
        48 => Some(Key::Char(98)),
        49 => Some(Key::Char(110)),
        50 => Some(Key::Char(109)),
        51 => Some(Key::Char(44)),
        52 => Some(Key::Char(46)),
        53 => Some(Key::Char(47)),
        55 => Some(Key::Char(42)),
        57 => Some(Key::Char(32)),
        72 => Some(Key::ArrowUp),
        75 => Some(Key::ArrowLeft),
        77 => Some(Key::ArrowRight),
        80 => Some(Key::ArrowDown),
        _ => None,
    }
}

} // verus!
