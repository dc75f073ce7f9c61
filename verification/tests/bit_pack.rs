use modbus_core::bit_pack::{bytes_needed, pack_coils, unpack_coils};
use modbus_core::Coil::{Off, On};

#[test]
fn bytes_needed_works() {
    assert_eq!(bytes_needed(0), 0);
    assert_eq!(bytes_needed(1), 1);
    assert_eq!(bytes_needed(2), 1);
    assert_eq!(bytes_needed(3), 1);
    assert_eq!(bytes_needed(4), 1);
    assert_eq!(bytes_needed(5), 1);
    assert_eq!(bytes_needed(6), 1);
    assert_eq!(bytes_needed(7), 1);
    assert_eq!(bytes_needed(8), 1);
    assert_eq!(bytes_needed(9), 2);
    assert_eq!(bytes_needed(10), 2);
    assert_eq!(bytes_needed(11), 2);
    assert_eq!(bytes_needed(12), 2);
    assert_eq!(bytes_needed(13), 2);
    assert_eq!(bytes_needed(14), 2);
    assert_eq!(bytes_needed(15), 2);
    assert_eq!(bytes_needed(16), 2);
    assert_eq!(bytes_needed(17), 3);
}

#[test]
fn pack_coils_works() {
    let single_byte = &mut [0xAA];
    let three_bytes = &mut [0xAA, 0xAA, 0xAA];

    pack_coils(&[], single_byte);
    assert_eq!(single_byte, &[0xAA]);

    pack_coils(&[On], single_byte);
    assert_eq!(single_byte, &[0b0000000_1]);

    pack_coils(&[Off], single_byte);
    assert_eq!(single_byte, &[0b0000000_0]);

    pack_coils(&[On, Off, On, Off, Off, On, Off, On], single_byte);
    assert_eq!(single_byte, &[0b10100101]);

    pack_coils(&[On, On, On, On, Off, Off, Off, Off], three_bytes);
    assert_eq!(three_bytes, &[0b00001111, 0xAA, 0xAA]);

    pack_coils(
        &[On, On, Off, Off, Off, On, Off, On, Off, Off, On],
        three_bytes,
    );
    assert_eq!(three_bytes, &[0b10100011, 0b00000_100, 0xAA]);
}

#[test]
fn unpack_coils_works() {
    let single_coil = &mut [On];
    unpack_coils(&[0], single_coil);
    assert_eq!(single_coil, &[Off]);

    unpack_coils(&[1], single_coil);
    assert_eq!(single_coil, &[On]);

    let eight_coils = &mut [On, On, On, On, Off, Off, Off, Off];
    unpack_coils(&[0b01110010], eight_coils);
    assert_eq!(eight_coils, &[Off, On, Off, Off, On, On, On, Off]);

    unpack_coils(&[0b11110000], eight_coils);
    assert_eq!(eight_coils, &[Off, Off, Off, Off, On, On, On, On]);

    let twelve_coils = &mut [Off, Off, Off, Off, Off, Off, Off, Off, Off, Off, Off, Off];
    unpack_coils(&[0b10011100, 0b0000_1001], twelve_coils);
    assert_eq!(
        twelve_coils,
        &[Off, Off, On, On, On, Off, Off, On, On, Off, Off, On]
    );
}

#[test]
fn pack_then_unpack_round_trips() {
    let coils = [On, On, Off, Off, Off, On, Off, On, Off, Off, On];
    let bytes = &mut [0xFF, 0xFF];

    pack_coils(&coils, bytes);

    let out = &mut [Off; 11];
    unpack_coils(bytes, out);

    assert_eq!(out, &coils);
}

#[test]
fn pack_clears_trailing_bits() {
    // Bits past the last coil within the written byte come out cleared, not
    // stale
    let bytes = &mut [0xFF, 0xFF];
    pack_coils(&[On, On, On], bytes);
    assert_eq!(bytes, &[0b00000111, 0xFF]);
}
