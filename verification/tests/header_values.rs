use messaging::publisher::{signed_text, unsigned_text, HeaderValues};

fn text(v: HeaderValues) -> String {
    String::from(v)
}

#[test]
fn negative_int_renders_with_its_sign() {
    assert_eq!(text(HeaderValues::Int(-5)), "-5");
}

#[test]
fn long_uint_renders_in_decimal() {
    assert_eq!(text(HeaderValues::LongUint(42)), "42");
}

#[test]
fn short_string_is_kept_as_it_is() {
    assert_eq!(text(HeaderValues::ShortString("abc".to_string())), "abc");
    assert_eq!(text(HeaderValues::ShortString(String::new())), "");
}

#[test]
fn long_string_is_kept_as_it_is() {
    assert_eq!(
        text(HeaderValues::LongString("a longer value, with spaces".to_string())),
        "a longer value, with spaces"
    );
    assert_eq!(text(HeaderValues::LongString("-007".to_string())), "-007");
}

#[test]
fn zero_is_a_single_digit_in_every_numeric_variant() {
    assert_eq!(text(HeaderValues::Int(0)), "0");
    assert_eq!(text(HeaderValues::LongInt(0)), "0");
    assert_eq!(text(HeaderValues::LongLongInt(0)), "0");
    assert_eq!(text(HeaderValues::Uint(0)), "0");
    assert_eq!(text(HeaderValues::LongUint(0)), "0");
    assert_eq!(text(HeaderValues::LongLongUint(0)), "0");
}

#[test]
fn signed_extremes_render_exactly() {
    assert_eq!(text(HeaderValues::Int(i8::MIN)), "-128");
    assert_eq!(text(HeaderValues::Int(i8::MAX)), "127");
    assert_eq!(text(HeaderValues::LongInt(i32::MIN)), "-2147483648");
    assert_eq!(text(HeaderValues::LongInt(i32::MAX)), "2147483647");
    assert_eq!(text(HeaderValues::LongLongInt(i64::MIN)), "-9223372036854775808");
    assert_eq!(text(HeaderValues::LongLongInt(i64::MAX)), "9223372036854775807");
}

#[test]
fn unsigned_extremes_render_exactly() {
    assert_eq!(text(HeaderValues::Uint(u8::MAX)), "255");
    assert_eq!(text(HeaderValues::LongUint(u32::MAX)), "4294967295");
    assert_eq!(text(HeaderValues::LongLongUint(u64::MAX)), "18446744073709551615");
}

#[test]
fn powers_of_ten_keep_their_zeros() {
    assert_eq!(unsigned_text(9), "9");
    assert_eq!(unsigned_text(10), "10");
    assert_eq!(unsigned_text(99), "99");
    assert_eq!(unsigned_text(100), "100");
    assert_eq!(unsigned_text(1_000_000), "1000000");
    assert_eq!(unsigned_text(10_000_000_000_000_000_000), "10000000000000000000");
    assert_eq!(signed_text(-10), "-10");
    assert_eq!(signed_text(-1), "-1");
    assert_eq!(signed_text(1), "1");
    assert_eq!(signed_text(-1_000_000_000_000), "-1000000000000");
}

#[test]
fn every_digit_renders_as_itself() {
    assert_eq!(unsigned_text(1234567890), "1234567890");
    assert_eq!(signed_text(-9876543210), "-9876543210");
}

#[test]
fn every_eight_bit_value_renders_as_the_standard_library_does() {
    let mut i: i16 = -128;
    while i <= 127 {
        let v: i8 = i as i8;
        assert_eq!(text(HeaderValues::Int(v)), v.to_string());
        i += 1;
    }
    let mut u: u16 = 0;
    while u <= 255 {
        let v: u8 = u as u8;
        assert_eq!(text(HeaderValues::Uint(v)), v.to_string());
        u += 1;
    }
}

#[test]
fn wide_values_render_as_the_standard_library_does() {
    let mut v: u64 = 1;
    let mut steps: u32 = 0;
    while steps < 64 {
        assert_eq!(text(HeaderValues::LongLongUint(v)), v.to_string());
        let w: u64 = v.wrapping_sub(1);
        assert_eq!(text(HeaderValues::LongLongUint(w)), w.to_string());
        let s: i64 = (v >> 1) as i64;
        assert_eq!(text(HeaderValues::LongLongInt(s)), s.to_string());
        assert_eq!(text(HeaderValues::LongLongInt(-s)), (-s).to_string());
        assert_eq!(text(HeaderValues::LongInt(s as i32)), (s as i32).to_string());
        assert_eq!(text(HeaderValues::LongUint(v as u32)), (v as u32).to_string());
        v = v.wrapping_mul(3).wrapping_add(7);
        steps += 1;
    }
}

#[test]
fn converting_twice_gives_the_same_text() {
    let v = HeaderValues::LongLongInt(-1234567);
    let first = text(v.clone());
    let second = text(v);
    assert_eq!(first, second);
    assert_eq!(first, "-1234567");
}

#[test]
fn different_numbers_have_different_texts() {
    assert_ne!(text(HeaderValues::Int(-1)), text(HeaderValues::Int(1)));
    assert_ne!(text(HeaderValues::LongInt(10)), text(HeaderValues::LongInt(100)));
    assert_ne!(text(HeaderValues::Uint(12)), text(HeaderValues::Uint(21)));
}

#[test]
fn a_cloned_header_value_is_the_same_value() {
    let texts = [
        HeaderValues::ShortString("s".to_string()),
        HeaderValues::LongString("long".to_string()),
        HeaderValues::Int(-7),
        HeaderValues::LongInt(70_000),
        HeaderValues::LongLongInt(-7_000_000_000),
        HeaderValues::Uint(7),
        HeaderValues::LongUint(3_000_000_000),
        HeaderValues::LongLongUint(9_000_000_000_000_000_000),
    ];
    let expected = [
        "s",
        "long",
        "-7",
        "70000",
        "-7000000000",
        "7",
        "3000000000",
        "9000000000000000000",
    ];
    for (value, want) in texts.iter().zip(expected.iter()) {
        assert_eq!(text(value.clone()), *want);
    }
}
