//! What the drivers of the screen work out before they touch the hardware:
//! addresses and character codes of the liquid crystal display, the
//! characters of the terminal that stands in for it, the temperature from
//! what the sensor reads, and the address of the device among those of its
//! network interfaces.

use vstd::prelude::*;

use crate::geometry::CursorPosition;
use crate::{Temperature, TemperatureSource};

verus! {

/// Number of characters in one line of the liquid crystal display.
pub const NUM_CHARACTERS_PER_LINE: u8 = 20;

/// Address of the first character of the second line in the memory of the
/// liquid crystal display.
pub const ROW_OFFSET: u8 = 0x40;

/// The address at which a row starts in the memory of the liquid crystal
/// display. The display has four rows but, electrically, two lines: the
/// third row follows the first, and the fourth the second.
pub open spec fn lcd_line_start(row: u8) -> int {
    if row == 0 {
        0
    } else if row == 1 {
        ROW_OFFSET as int
    } else if row == 2 {
        NUM_CHARACTERS_PER_LINE as int
    } else {
        ROW_OFFSET + NUM_CHARACTERS_PER_LINE
    }
}

/// The address at which a row starts in the memory of the liquid crystal
/// display.
fn line_start(row: u8) -> (r: u8)
    ensures
        r == lcd_line_start(row),
{
    match row {
        0 => 0,
        1 => ROW_OFFSET,
        2 => NUM_CHARACTERS_PER_LINE,
        _ => ROW_OFFSET + NUM_CHARACTERS_PER_LINE,
    }
}

/// The address of a cell in the memory of the liquid crystal display.
pub fn lcd_address(position: CursorPosition) -> (r: u8)
    requires
        lcd_line_start(position.row) + position.column <= u8::MAX,
    ensures
        r == lcd_line_start(position.row) + position.column,
{
    line_start(position.row) + position.column
}

/// The address of a cell in the memory of the liquid crystal display, or
/// `None` where the column lies so far out that the address does not fit a
/// `u8`.
pub fn lcd_address_of(position: CursorPosition) -> (r: Option<u8>)
    ensures
        r == if lcd_line_start(position.row) + position.column <= u8::MAX {
            Some((lcd_line_start(position.row) + position.column) as u8)
        } else {
            None
        },
{
    if position.column > u8::MAX - line_start(position.row) {
        None
    } else {
        Some(lcd_address(position))
    }
}

/// The code of a character in the character set of the liquid crystal
/// display. The private characters from U+E000 to U+E004 and three accented
/// letters are the eight patterns that the driver defines itself; a few more
/// letters have codes in the upper half of the set; the tilde has a
/// look-alike; the other characters of ASCII stand for themselves; and
/// whatever else there is shows as a full block.
pub open spec fn lcd_code(c: char) -> u8 {
    if c == '\u{E000}' {
        0
    } else if c == '\u{E001}' {
        1
    } else if c == '\u{E002}' {
        2
    } else if c == '\u{E003}' {
        3
    } else if c == '\u{E004}' {
        4
    } else if c == '\u{E9}' {
        5
    } else if c == '\u{E8}' {
        6
    } else if c == '\u{E0}' {
        7
    } else if c == '\u{E4}' {
        0xE1
    } else if c == '\u{F1}' {
        0xEE
    } else if c == '\u{F6}' {
        0xEF
    } else if c == '\u{FC}' {
        0xF5
    } else if c == '\u{3C0}' {
        0xE4
    } else if c == '\u{B5}' {
        0xF7
    } else if c == '~' {
        0xF3
    } else if c as u32 <= 0x7F {
        c as u8
    } else {
        0xFF
    }
}

/// The code of a character in the character set of the liquid crystal
/// display.
pub fn lcd_character_code(c: char) -> (r: u8)
    ensures
        r == lcd_code(c),
{
    match c {
        '\u{E000}' => 0,
        '\u{E001}' => 1,
        '\u{E002}' => 2,
        '\u{E003}' => 3,
        '\u{E004}' => 4,
        '\u{E9}' => 5,
        '\u{E8}' => 6,
        '\u{E0}' => 7,
        '\u{E4}' => 0xE1,
        '\u{F1}' => 0xEE,
        '\u{F6}' => 0xEF,
        '\u{FC}' => 0xF5,
        '\u{3C0}' => 0xE4,
        '\u{B5}' => 0xF7,
        '~' => 0xF3,
        '\u{E080}' => 0xFF,
        _ => if c as u32 <= 0x7F {
            c as u8
        } else {
            0xFF
        },
    }
}

/// The character that a terminal shows for a character of the screen: the
/// private characters from U+E000 to U+E004 are drawn with blocks and bars,
/// and every other character is itself.
pub open spec fn terminal_glyph(c: char) -> char {
    if c == '\u{E000}' {
        '\u{258C}'
    } else if c == '\u{E001}' {
        '\u{258F}'
    } else if c == '\u{E002}' {
        '|'
    } else if c == '\u{E003}' {
        '\u{2595}'
    } else if c == '\u{E004}' {
        '\u{2590}'
    } else {
        c
    }
}

/// The character that a terminal shows for a character of the screen.
pub fn terminal_character(c: char) -> (r: char)
    ensures
        r == terminal_glyph(c),
{
    match c {
        '\u{E000}' => '\u{258C}',
        '\u{E001}' => '\u{258F}',
        '\u{E002}' => '|',
        '\u{E003}' => '\u{2595}',
        '\u{E004}' => '\u{2590}',
        _ => c,
    }
}

/// The temperature that a reading of the sensor stands for: the reading is
/// in thousandths of a degree. `None` where the degrees do not fit a `u8`.
pub fn temperature_of_reading(millidegrees: u32) -> (r: Option<Temperature>)
    ensures
        r == if millidegrees / 1000 <= u8::MAX {
            Some(Temperature((millidegrees / 1000) as u8))
        } else {
            None
        },
{
    let degrees = millidegrees / 1000;
    if degrees <= 255 {
        Some(Temperature(degrees as u8))
    } else {
        None
    }
}

/// A source of temperatures for trying the screen out: each reading is one
/// degree above the one before, and after 255 comes 0.
pub struct MockTemperatureSource(pub u8);

impl TemperatureSource for MockTemperatureSource {
    fn get_temperature(&mut self) -> (r: Temperature)
        ensures
            r.0 == if old(self).0 == u8::MAX {
                0
            } else {
                old(self).0 + 1
            },
            final(self).0 == r.0,
    {
        self.0 = self.0.wrapping_add(1);
        Temperature(self.0)
    }
}

/// An address of a network interface.
pub enum InterfaceAddress {
    /// An address of version 4, as it is written.
    V4(String),
    /// An address of version 6.
    V6,
}

/// A network interface, as far as the choice of an address looks at it.
pub struct NetworkInterface {
    pub is_up: bool,
    pub is_loopback: bool,
    pub ips: Vec<InterfaceAddress>,
}

impl NetworkInterface {
    /// Whether the addresses of the interface count: it is up and is not the
    /// loopback.
    pub open spec fn counts(&self) -> bool {
        self.is_up && !self.is_loopback
    }
}

/// The last address of version 4 among `ips`, or `found` if there is none.
pub open spec fn last_v4_of(ips: Seq<InterfaceAddress>, found: Option<String>) -> Option<String>
    decreases ips.len(),
{
    if ips.len() == 0 {
        found
    } else {
        match ips.last() {
            InterfaceAddress::V4(address) => Some(address),
            InterfaceAddress::V6 => last_v4_of(ips.drop_last(), found),
        }
    }
}

/// The last address of version 4 of the last interface that counts and has
/// one.
pub open spec fn last_v4(interfaces: Seq<NetworkInterface>) -> Option<String>
    decreases interfaces.len(),
{
    if interfaces.len() == 0 {
        None
    } else {
        let before = last_v4(interfaces.drop_last());
        if interfaces.last().counts() {
            last_v4_of(interfaces.last().ips@, before)
        } else {
            before
        }
    }
}

/// The address under which the device is known: the last address of version
/// 4 of the interfaces that are up and are not the loopback, or the words
/// `No IP Address`.
pub fn local_ip_address(interfaces: &Vec<NetworkInterface>) -> (r: String)
    ensures
        r@ == match last_v4(interfaces@) {
            Some(address) => address@,
            None => "No IP Address"@,
        },
{
    let mut found: Option<String> = None;
    let mut i: usize = 0;
    while i < interfaces.len()
        invariant
            i <= interfaces.len(),
            found == last_v4(interfaces@.take(i as int)),
        decreases interfaces.len() - i,
    {
        proof {
            assert(interfaces@.take(i + 1).drop_last() =~= interfaces@.take(i as int));
        }
        let interface = &interfaces[i];
        if interface.is_up && !interface.is_loopback {
            let ghost before = found;
            let mut j: usize = 0;
            while j < interface.ips.len()
                invariant
                    j <= interface.ips.len(),
                    found == last_v4_of(interface.ips@.take(j as int), before),
                decreases interface.ips.len() - j,
            {
                proof {
                    assert(interface.ips@.take(j + 1).drop_last() =~= interface.ips@.take(
                        j as int,
                    ));
                }
                match &interface.ips[j] {
                    InterfaceAddress::V4(address) => {
                        found = Some(address.clone());
                    },
                    InterfaceAddress::V6 => {},
                }
                j += 1;
            }
            assert(interface.ips@.take(j as int) =~= interface.ips@);
        }
        i += 1;
    }
    assert(interfaces@.take(i as int) =~= interfaces@);
    match found {
        Some(address) => address,
        None => "No IP Address".to_owned(),
    }
}

} // verus!
