use mem_manager::digits::{push_decimal, push_hex};

#[test]
fn each_digit_has_its_character() {
    let mut hexadecimal = String::new();
    push_hex(0x0123_4567_89ab_cdef, 16, &mut hexadecimal);
    assert_eq!(hexadecimal, "0123456789abcdef");
    let mut decimal = String::new();
    push_decimal(1234567890, &mut decimal);
    assert_eq!(decimal, "1234567890");
}

#[test]
fn decimal_has_no_leading_zero() {
    let mut text = String::new();
    push_decimal(0, &mut text);
    assert_eq!(text, "0");
    push_decimal(7, &mut text);
    assert_eq!(text, "07");
    push_decimal(10, &mut text);
    assert_eq!(text, "0710");
    push_decimal(9001, &mut text);
    assert_eq!(text, "07109001");
}

#[test]
fn decimal_matches_the_usual_notation() {
    for &n in [0usize, 9, 10, 99, 100, 12345, 1_000_000, usize::MAX].iter() {
        let mut text = String::from("n=");
        push_decimal(n, &mut text);
        assert_eq!(text, format!("n={}", n));
    }
}

#[test]
fn hexadecimal_is_padded_to_the_width() {
    let mut text = String::new();
    push_hex(0xab, 4, &mut text);
    assert_eq!(text, "00ab");
    push_hex(0, 2, &mut text);
    assert_eq!(text, "00ab00");
    push_hex(0xffff_8000_0000_0000, 16, &mut text);
    assert_eq!(text, "00ab00ffff800000000000");
}

#[test]
fn hexadecimal_keeps_the_lowest_digits_only() {
    let mut text = String::new();
    push_hex(0x1234, 2, &mut text);
    assert_eq!(text, "34");
    push_hex(0x1234, 0, &mut text);
    assert_eq!(text, "34");
    push_hex(u64::MAX, 20, &mut text);
    assert_eq!(text, "340000ffffffffffffffff");
}
