use ble_bled::characteristic::{
    classify, CharacteristicDescriptor, CharacteristicRole, ClassifiedCharacteristics,
    PROPERTY_NOTIFY, PROPERTY_READ, PROPERTY_WRITE_WITHOUT_RESPONSE,
};
use uuid::Uuid;

fn characteristic(n: u128, properties: u8) -> CharacteristicDescriptor {
    CharacteristicDescriptor {
        uuid: Uuid::from_u128(n),
        service_uuid: Uuid::from_u128(0xFFF0),
        properties,
    }
}

#[test]
fn property_bits_are_those_of_the_attribute_protocol() {
    assert_eq!(PROPERTY_READ, 0x02);
    assert_eq!(PROPERTY_WRITE_WITHOUT_RESPONSE, 0x04);
    assert_eq!(PROPERTY_NOTIFY, 0x10);
    assert_eq!(CharacteristicRole::Readable.mask(), 0x02);
    assert_eq!(CharacteristicRole::WritableNoResponse.mask(), 0x04);
    assert_eq!(CharacteristicRole::Notifying.mask(), 0x10);
}

#[test]
fn a_role_is_held_exactly_if_its_bit_is_set() {
    let mut properties: u8 = 0;
    loop {
        let c: CharacteristicDescriptor = characteristic(1, properties);
        assert_eq!(c.has_role(CharacteristicRole::Readable), properties & 0x02 != 0);
        assert_eq!(c.has_role(CharacteristicRole::WritableNoResponse), properties & 0x04 != 0);
        assert_eq!(c.has_role(CharacteristicRole::Notifying), properties & 0x10 != 0);
        if properties == 255 {
            break;
        }
        properties += 1;
    }
}

#[test]
fn write_with_response_is_no_command_target() {
    let c: CharacteristicDescriptor = characteristic(1, 0x08);
    assert!(!c.has_role(CharacteristicRole::WritableNoResponse));
    let out: ClassifiedCharacteristics = classify(&vec![c]);
    assert!(out.writable.is_empty());
    assert!(out.readable.is_empty());
    assert!(out.notifying.is_empty());
}

#[test]
fn classification_of_nothing_is_empty() {
    let out: ClassifiedCharacteristics = classify(&Vec::new());
    assert!(out.readable.is_empty());
    assert!(out.writable.is_empty());
    assert!(out.notifying.is_empty());
    assert_eq!(out, ClassifiedCharacteristics::empty());
}

#[test]
fn each_list_keeps_the_order_of_the_input() {
    let reader: CharacteristicDescriptor = characteristic(1, 0x02);
    let writer: CharacteristicDescriptor = characteristic(2, 0x04);
    let notifier: CharacteristicDescriptor = characteristic(3, 0x10);
    let all: CharacteristicDescriptor = characteristic(4, 0x02 | 0x04 | 0x10);
    let none: CharacteristicDescriptor = characteristic(5, 0x01 | 0x08 | 0x20 | 0x40 | 0x80);
    let read_write: CharacteristicDescriptor = characteristic(6, 0x02 | 0x04 | 0x08);
    let input: Vec<CharacteristicDescriptor> =
        vec![all, none, notifier, writer, reader, read_write];
    let out: ClassifiedCharacteristics = classify(&input);
    assert_eq!(out.readable, vec![all, reader, read_write]);
    assert_eq!(out.writable, vec![all, writer, read_write]);
    assert_eq!(out.notifying, vec![all, notifier]);
}

#[test]
fn a_characteristic_is_listed_exactly_under_its_roles() {
    let mut input: Vec<CharacteristicDescriptor> = Vec::new();
    let mut properties: u8 = 0;
    loop {
        input.push(characteristic(properties as u128, properties));
        if properties == 255 {
            break;
        }
        properties += 1;
    }
    let out: ClassifiedCharacteristics = classify(&input);
    for c in &input {
        assert_eq!(out.readable.contains(c), c.properties & 0x02 != 0);
        assert_eq!(out.writable.contains(c), c.properties & 0x04 != 0);
        assert_eq!(out.notifying.contains(c), c.properties & 0x10 != 0);
    }
    for c in out.readable.iter().chain(out.writable.iter()).chain(out.notifying.iter()) {
        assert!(input.contains(c));
    }
    assert_eq!(out.readable.len(), 128);
    assert_eq!(out.writable.len(), 128);
    assert_eq!(out.notifying.len(), 128);
}

#[test]
fn a_characteristic_given_twice_is_listed_twice() {
    let writer: CharacteristicDescriptor = characteristic(2, 0x04);
    let out: ClassifiedCharacteristics = classify(&vec![writer, writer]);
    assert_eq!(out.writable, vec![writer, writer]);
    assert!(out.readable.is_empty());
}
