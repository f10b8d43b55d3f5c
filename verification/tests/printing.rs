use cairo_lang_runner::short_string::as_cairo_short_string;
use cheatnet::execution::contract_execution_syscall_handler::{as_printable_short_string, print};
use cheatnet::felt::{Felt252, FIELD_HIGH};

fn felt(value: u128) -> Felt252 {
    Felt252::from_u128(value)
}

fn text(value: &str) -> Option<String> {
    Some(String::from(value))
}

#[test]
fn a_value_that_spells_a_short_string_is_printable() {
    assert_eq!(as_printable_short_string(&felt(0x6869)), text("hi"));
    assert_eq!(as_printable_short_string(&felt(0x61)), text("a"));
    assert_eq!(as_printable_short_string(&felt(0x612062)), text("a b"));
    assert_eq!(as_printable_short_string(&felt(0x217e)), text("!~"));
    assert_eq!(as_printable_short_string(&felt(0x20)), text(" "));
}

#[test]
fn a_value_with_a_control_byte_is_not_printable() {
    assert_eq!(as_printable_short_string(&felt(0x6801)), None);
    assert_eq!(as_printable_short_string(&felt(0x610962)), None);
    assert_eq!(as_printable_short_string(&felt(0x610a)), None);
    assert_eq!(as_printable_short_string(&felt(0x617f)), None);
    assert_eq!(as_printable_short_string(&felt(0x1f)), None);
}

#[test]
fn a_value_with_a_zero_byte_is_not_printable() {
    assert_eq!(as_printable_short_string(&felt(0)), None);
    assert_eq!(as_printable_short_string(&felt(0x6100)), None);
    assert_eq!(as_printable_short_string(&felt(0x610062)), None);
}

#[test]
fn a_value_with_a_byte_outside_ascii_is_not_printable() {
    assert_eq!(as_printable_short_string(&felt(0x80)), None);
    assert_eq!(as_printable_short_string(&felt(0x61ff)), None);
    assert_eq!(as_printable_short_string(&felt(0xc3a9)), None);
}

#[test]
fn a_short_string_may_reach_into_the_upper_half() {
    // "abcdefghijklmnopqrstuvwxyz01234", the 31 bytes that a field element can hold
    let high = 0x0061_6263_6465_6667_6869_6a6b_6c6d_6e6f_u128;
    let low = 0x7071_7273_7475_7677_7879_7a30_3132_3334_u128;
    let value = Felt252::new(high, low).unwrap();
    assert_eq!(as_printable_short_string(&value), text("abcdefghijklmnopqrstuvwxyz01234"));
    let seventeen = Felt252::new(0x41, 0x4242_4242_4242_4242_4242_4242_4242_4242).unwrap();
    assert_eq!(as_printable_short_string(&seventeen), text("ABBBBBBBBBBBBBBBB"));
    let with_gap = Felt252::new(0x41, 0x42).unwrap();
    assert_eq!(as_printable_short_string(&with_gap), None);
}

#[test]
fn print_writes_the_value_and_the_string_that_it_spells() {
    assert_eq!(
        print(vec![felt(0x6869)]),
        vec![String::from("original value: [26729], converted to a string: [hi]")]
    );
}

#[test]
fn print_writes_only_the_value_where_it_has_a_control_byte() {
    assert_eq!(print(vec![felt(0x6801)]), vec![String::from("original value: [26625]")]);
    assert_eq!(print(vec![felt(0)]), vec![String::from("original value: [0]")]);
    assert_eq!(print(vec![felt(7)]), vec![String::from("original value: [7]")]);
}

#[test]
fn print_writes_one_line_per_value_in_order() {
    assert_eq!(
        print(vec![felt(0x61), felt(10), felt(0x4f4b), felt(255)]),
        vec![
            String::from("original value: [97], converted to a string: [a]"),
            String::from("original value: [10]"),
            String::from("original value: [20299], converted to a string: [OK]"),
            String::from("original value: [255]"),
        ]
    );
}

#[test]
fn print_of_no_values_writes_nothing() {
    assert_eq!(print(vec![]), Vec::<String>::new());
}

#[test]
fn print_writes_large_values_in_decimal() {
    assert_eq!(
        print(vec![Felt252::new(1, 0).unwrap()]),
        vec![String::from("original value: [340282366920938463463374607431768211456]")]
    );
    assert_eq!(
        print(vec![felt(u128::MAX)]),
        vec![String::from("original value: [340282366920938463463374607431768211455]")]
    );
    assert_eq!(
        print(vec![Felt252::new(FIELD_HIGH, 0).unwrap()]),
        vec![String::from(
            "original value: [3618502788666131213697322783095070105623107215331596699973092056135872020480]"
        )]
    );
}

#[test]
fn print_agrees_with_the_field_element_of_the_virtual_machine() {
    let high = 0x0000_0000_0000_0000_0000_0000_0000_4865_u128;
    let low = 0x6c6c_6f2c_2068_6172_6e65_7373_2121_2121_u128;
    let value = Felt252::new(high, low).unwrap();
    let bytes = [high.to_be_bytes(), low.to_be_bytes()].concat();
    let outside = cairo_felt::Felt252::from_bytes_be(&bytes);
    let spelled = String::from_utf8(outside.to_bytes_be()).unwrap();
    assert_eq!(spelled, "Hello, harness!!!!");
    assert_eq!(
        print(vec![value]),
        vec![format!("original value: [{}], converted to a string: [{}]", outside, spelled)]
    );
}

fn shortest_bytes(value: u128) -> Vec<u8> {
    let bytes = value.to_be_bytes();
    let zeros = bytes.iter().take_while(|byte| **byte == 0).count();
    if zeros == bytes.len() {
        vec![0]
    } else {
        bytes[zeros..].to_vec()
    }
}

#[test]
fn printable_values_are_those_whose_bytes_are_visible_or_spaces() {
    let mut value: u128 = 0;
    let mut printable = 0;
    while value < 70_000 {
        let bytes = shortest_bytes(value);
        let expected = if bytes.iter().all(|byte| (32..=126).contains(byte)) {
            printable += 1;
            Some(bytes.iter().map(|byte| char::from(*byte)).collect::<String>())
        } else {
            None
        };
        assert_eq!(as_printable_short_string(&felt(value)), expected);
        value += 1;
    }
    assert_eq!(printable, 95 + 95 * 95);
}

#[test]
fn the_bytes_of_a_field_element_are_the_shortest_ones() {
    assert_eq!(cairo_felt::Felt252::from(0u8).to_bytes_be(), vec![0]);
    assert_eq!(cairo_felt::Felt252::from(0x6869u32).to_bytes_be(), vec![0x68, 0x69]);
    assert_eq!(cairo_felt::Felt252::from(0x01_0000u32).to_bytes_be(), vec![1, 0, 0]);
    assert_eq!(cairo_felt::Felt252::from(u128::MAX).to_bytes_be(), vec![0xff; 16]);
}

#[test]
fn the_short_string_of_the_runner_ends_at_the_first_zero_byte() {
    assert_eq!(as_cairo_short_string(&cairo_vm::Felt252::from(0)), text(""));
    assert_eq!(as_cairo_short_string(&cairo_vm::Felt252::from(0x61)), text("a"));
    assert_eq!(as_cairo_short_string(&cairo_vm::Felt252::from(0x6100)), text("a"));
    assert_eq!(as_cairo_short_string(&cairo_vm::Felt252::from(0x61_0000)), text("a"));
    assert_eq!(as_cairo_short_string(&cairo_vm::Felt252::from(0x61_0062)), None);
    assert_eq!(as_cairo_short_string(&cairo_vm::Felt252::from(0x61_0962)), text("a\tb"));
    assert_eq!(as_cairo_short_string(&cairo_vm::Felt252::from(0x61_0b62)), None);
    assert_eq!(as_cairo_short_string(&cairo_vm::Felt252::from(0x61_7f62)), None);
    assert_eq!(as_cairo_short_string(&cairo_vm::Felt252::from(0x80)), None);
}
