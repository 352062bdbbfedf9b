use bank_statements::validation::{check_code, check_otp, check_pin, classify, CodeCheck};

#[test]
fn pin_examples() {
    assert_eq!(check_pin("12a4"), CodeCheck::NotNumeric);
    assert_eq!(check_pin("123"), CodeCheck::WrongLength);
    assert_eq!(check_pin("1234"), CodeCheck::Valid);
}

#[test]
fn pin_edge_cases() {
    assert_eq!(check_pin(""), CodeCheck::WrongLength);
    assert_eq!(check_pin("12345"), CodeCheck::WrongLength);
    assert_eq!(check_pin("12 4"), CodeCheck::NotNumeric);
    assert_eq!(check_pin("0000"), CodeCheck::Valid);
    assert_eq!(check_pin("abc"), CodeCheck::WrongLength);
}

#[test]
fn otp_examples() {
    assert_eq!(check_otp("123456"), CodeCheck::Valid);
    assert_eq!(check_otp("12345"), CodeCheck::WrongLength);
    assert_eq!(check_otp("1234567"), CodeCheck::WrongLength);
    assert_eq!(check_otp("12345x"), CodeCheck::NotNumeric);
    assert_eq!(check_otp("x23456"), CodeCheck::NotNumeric);
    assert_eq!(check_otp(""), CodeCheck::WrongLength);
}

#[test]
fn length_counts_characters() {
    // Four Arabic-Indic digits are four numeric characters.
    assert_eq!(check_pin("\u{0661}\u{0662}\u{0663}\u{0664}"), CodeCheck::Valid);
    assert_eq!(check_code("", 0), CodeCheck::Valid);
}

#[test]
fn classify_numeric_flags() {
    assert_eq!(classify(&vec![true, true, true, true], 4), CodeCheck::Valid);
    assert_eq!(classify(&vec![true, false, true, true], 4), CodeCheck::NotNumeric);
    assert_eq!(classify(&vec![true, true, true], 4), CodeCheck::WrongLength);
    assert_eq!(classify(&vec![false, false, false], 4), CodeCheck::WrongLength);
    assert_eq!(classify(&vec![], 0), CodeCheck::Valid);
}
