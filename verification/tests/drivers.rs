use radio_screen::drivers::{
    lcd_address, lcd_address_of, lcd_character_code, local_ip_address, temperature_of_reading,
    terminal_character, InterfaceAddress, MockTemperatureSource, NetworkInterface,
};
use radio_screen::geometry::CursorPosition;
use radio_screen::{Temperature, TemperatureSource};

fn interface(is_up: bool, is_loopback: bool, ips: Vec<InterfaceAddress>) -> NetworkInterface {
    NetworkInterface { is_up, is_loopback, ips }
}

fn v4(address: &str) -> InterfaceAddress {
    InterfaceAddress::V4(String::from(address))
}

#[test]
fn addresses_of_the_liquid_crystal_display() {
    assert_eq!(lcd_address(CursorPosition { row: 0, column: 0 }), 0x00);
    assert_eq!(lcd_address(CursorPosition { row: 0, column: 19 }), 0x13);
    assert_eq!(lcd_address(CursorPosition { row: 1, column: 0 }), 0x40);
    assert_eq!(lcd_address(CursorPosition { row: 1, column: 5 }), 0x45);
    assert_eq!(lcd_address(CursorPosition { row: 2, column: 0 }), 0x14);
    assert_eq!(lcd_address(CursorPosition { row: 2, column: 19 }), 0x27);
    assert_eq!(lcd_address(CursorPosition { row: 3, column: 0 }), 0x54);
    assert_eq!(lcd_address(CursorPosition { row: 3, column: 19 }), 0x67);
    assert_eq!(lcd_address(CursorPosition { row: 7, column: 1 }), 0x55);
}

#[test]
fn codes_of_the_liquid_crystal_display() {
    assert_eq!(lcd_character_code('\u{E000}'), 0);
    assert_eq!(lcd_character_code('\u{E001}'), 1);
    assert_eq!(lcd_character_code('\u{E002}'), 2);
    assert_eq!(lcd_character_code('\u{E003}'), 3);
    assert_eq!(lcd_character_code('\u{E004}'), 4);
    assert_eq!(lcd_character_code('\u{e9}'), 5);
    assert_eq!(lcd_character_code('\u{e8}'), 6);
    assert_eq!(lcd_character_code('\u{e0}'), 7);
    assert_eq!(lcd_character_code('\u{e4}'), 0xE1);
    assert_eq!(lcd_character_code('\u{f1}'), 0xEE);
    assert_eq!(lcd_character_code('\u{f6}'), 0xEF);
    assert_eq!(lcd_character_code('\u{fc}'), 0xF5);
    assert_eq!(lcd_character_code('\u{3c0}'), 0xE4);
    assert_eq!(lcd_character_code('\u{b5}'), 0xF7);
    assert_eq!(lcd_character_code('~'), 0xF3);
    assert_eq!(lcd_character_code('\u{E080}'), 0xFF);
    assert_eq!(lcd_character_code('A'), 0x41);
    assert_eq!(lcd_character_code(' '), 0x20);
    assert_eq!(lcd_character_code('\u{0}'), 0);
    assert_eq!(lcd_character_code('\u{7f}'), 0x7F);
    assert_eq!(lcd_character_code('\u{80}'), 0xFF);
    assert_eq!(lcd_character_code('\u{20ac}'), 0xFF);
}

#[test]
fn characters_of_the_terminal() {
    assert_eq!(terminal_character('\u{E000}'), '\u{258C}');
    assert_eq!(terminal_character('\u{E001}'), '\u{258F}');
    assert_eq!(terminal_character('\u{E002}'), '|');
    assert_eq!(terminal_character('\u{E003}'), '\u{2595}');
    assert_eq!(terminal_character('\u{E004}'), '\u{2590}');
    assert_eq!(terminal_character('a'), 'a');
    assert_eq!(terminal_character('\u{e9}'), '\u{e9}');
}

#[test]
fn temperature_from_a_reading() {
    assert_eq!(temperature_of_reading(0), Some(Temperature(0)));
    assert_eq!(temperature_of_reading(48_312), Some(Temperature(48)));
    assert_eq!(temperature_of_reading(48_999), Some(Temperature(48)));
    assert_eq!(temperature_of_reading(255_999), Some(Temperature(255)));
    assert_eq!(temperature_of_reading(256_000), None);
    assert_eq!(temperature_of_reading(u32::MAX), None);
}

#[test]
fn mock_temperatures_count_up() {
    let mut source = MockTemperatureSource(0);
    assert_eq!(source.get_temperature(), Temperature(1));
    assert_eq!(source.get_temperature(), Temperature(2));
    let mut source = MockTemperatureSource(255);
    assert_eq!(source.get_temperature(), Temperature(0));
}

#[test]
fn address_of_the_last_interface_that_counts() {
    let interfaces = vec![
        interface(true, true, vec![v4("127.0.0.1")]),
        interface(true, false, vec![v4("192.168.0.7"), InterfaceAddress::V6]),
        interface(true, false, vec![InterfaceAddress::V6, v4("10.0.0.1"), v4("10.0.0.2")]),
        interface(true, false, vec![InterfaceAddress::V6]),
        interface(true, false, vec![]),
        interface(false, false, vec![v4("172.16.0.1")]),
    ];
    assert_eq!(local_ip_address(&interfaces), "10.0.0.2");
}

#[test]
fn no_address_where_no_interface_counts() {
    assert_eq!(local_ip_address(&vec![]), "No IP Address");
    let interfaces = vec![
        interface(true, true, vec![v4("127.0.0.1")]),
        interface(false, false, vec![v4("192.168.0.7")]),
        interface(true, false, vec![InterfaceAddress::V6]),
    ];
    assert_eq!(local_ip_address(&interfaces), "No IP Address");
}

#[test]
fn addresses_that_do_not_fit() {
    assert_eq!(lcd_address_of(CursorPosition { row: 0, column: 19 }), Some(0x13));
    assert_eq!(lcd_address_of(CursorPosition { row: 3, column: 19 }), Some(0x67));
    assert_eq!(lcd_address_of(CursorPosition { row: 0, column: 255 }), Some(255));
    assert_eq!(lcd_address_of(CursorPosition { row: 1, column: 191 }), Some(255));
    assert_eq!(lcd_address_of(CursorPosition { row: 1, column: 192 }), None);
    assert_eq!(lcd_address_of(CursorPosition { row: 2, column: 236 }), None);
    assert_eq!(lcd_address_of(CursorPosition { row: 3, column: 172 }), None);
    assert_eq!(lcd_address_of(CursorPosition { row: 9, column: 171 }), Some(255));
}
