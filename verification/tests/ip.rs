use cch24::ip::add_ipv4_octets;
use cch24::ip::subtract_ipv4_octets;
use cch24::ip::xor_ipv6;
use cch24::ip::IPParam;
use cch24::ip::KeyParam;

#[test]
fn add_octets_wraps_per_lane() {
    assert_eq!(add_ipv4_octets([10, 0, 0, 0], [1, 2, 3, 255]), [11, 2, 3, 255]);
    assert_eq!(add_ipv4_octets([255, 255, 255, 255], [1, 2, 3, 4]), [0, 1, 2, 3]);
}

#[test]
fn subtract_octets_recovers_the_key() {
    let from: [u8; 4] = [10, 0, 0, 0];
    let key: [u8; 4] = [1, 2, 3, 255];
    let to = add_ipv4_octets(from, key);
    assert_eq!(subtract_ipv4_octets(to, from), key);
    assert_eq!(subtract_ipv4_octets([0, 0, 0, 0], [1, 1, 1, 1]), [255, 255, 255, 255]);
}

#[test]
fn xor_is_its_own_inverse() {
    let from: [u8; 16] = [0xfe, 0x80, 0, 0, 0, 0, 0, 0, 0, 0, 0, 0, 0, 0, 0, 0x2a];
    let key: [u8; 16] = [0x5f, 0x21, 0xa0, 1, 2, 3, 4, 5, 6, 7, 8, 9, 10, 11, 12, 13];
    let to = xor_ipv6(from, key);
    assert_eq!(xor_ipv6(to, key), from);
    assert_eq!(xor_ipv6(to, from), key);
}

#[test]
fn param_structs_carry_their_fields() {
    let encrypt = IPParam { from: [10u8, 0, 0, 0], key: [1u8, 2, 3, 255] };
    assert_eq!(add_ipv4_octets(encrypt.from, encrypt.key), [11, 2, 3, 255]);

    let recover = KeyParam { from: [10u8, 0, 0, 0], to: [11u8, 2, 3, 255] };
    assert_eq!(subtract_ipv4_octets(recover.to, recover.from), [1, 2, 3, 255]);
}
