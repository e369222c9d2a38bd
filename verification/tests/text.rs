use cpbar::text::{digit, push_decimal, push_run};

fn decimal(n: usize) -> String {
    let mut out = String::new();
    push_decimal(&mut out, n);
    out
}

#[test]
fn digits_are_the_ten_numerals() {
    let numerals: Vec<char> = (0..10u8).map(digit).collect();
    assert_eq!(numerals, vec!['0', '1', '2', '3', '4', '5', '6', '7', '8', '9']);
}

#[test]
fn decimal_of_small_numbers() {
    assert_eq!(decimal(0), "0");
    assert_eq!(decimal(7), "7");
    assert_eq!(decimal(9), "9");
    assert_eq!(decimal(10), "10");
    assert_eq!(decimal(90), "90");
    assert_eq!(decimal(100), "100");
    assert_eq!(decimal(103), "103");
    assert_eq!(decimal(12345), "12345");
}

#[test]
fn decimal_of_the_largest_number() {
    assert_eq!(decimal(usize::MAX), usize::MAX.to_string());
}

#[test]
fn decimal_agrees_with_the_standard_rendering() {
    let mut n: usize = 1;
    while n < usize::MAX / 7 {
        assert_eq!(decimal(n), n.to_string());
        assert_eq!(decimal(n - 1), (n - 1).to_string());
        n *= 7;
    }
}

#[test]
fn decimal_is_appended_to_what_is_there() {
    let mut out = String::from("n = ");
    push_decimal(&mut out, 42);
    assert_eq!(out, "n = 42");
}

#[test]
fn run_repeats_the_glyph() {
    let mut out = String::from(">");
    push_run(&mut out, '▓', 3);
    push_run(&mut out, '░', 2);
    push_run(&mut out, 'x', 0);
    assert_eq!(out, ">▓▓▓░░");
}

#[test]
fn run_of_none_changes_nothing() {
    let mut out = String::new();
    push_run(&mut out, '▓', 0);
    assert_eq!(out, "");
}
