use candle_kernels::text::{
    char_is_digit, char_is_whitespace, char_to_lower, char_to_upper, chars_of, copy_all,
    first_line_of, is_all_digits, join_all, opt_str, remove_char, split_whitespace, to_lower,
    to_upper,
};

fn strings(items: &[&str]) -> Vec<String> {
    items.iter().map(|s| s.to_string()).collect()
}

#[test]
fn whitespace_is_what_the_standard_library_says() {
    let mut c = 0u32;
    while c <= 0x10FFFF {
        if let Some(ch) = char::from_u32(c) {
            assert_eq!(char_is_whitespace(ch), ch.is_whitespace(), "U+{:04X}", c);
        }
        c += 1;
    }
}

#[test]
fn letters_change_case_as_in_ascii() {
    let mut c = 0u32;
    while c <= 0x10FFFF {
        if let Some(ch) = char::from_u32(c) {
            assert_eq!(char_to_upper(ch), ch.to_ascii_uppercase());
            assert_eq!(char_to_lower(ch), ch.to_ascii_lowercase());
            assert_eq!(char_is_digit(ch), ch.is_ascii_digit());
        }
        c += 1;
    }
}

#[test]
fn upper_and_lower_case() {
    assert_eq!(to_upper("affine"), "AFFINE");
    assert_eq!(to_upper("binary_op2"), "BINARY_OP2");
    assert_eq!(to_upper(""), "");
    assert_eq!(to_upper("stra\u{df}e"), "STRA\u{df}E");
    assert_eq!(to_lower("CuBin"), "cubin");
    assert_eq!(to_lower("PTX"), "ptx");
    assert_eq!(to_lower("\u{212a}"), "\u{212a}");
}

#[test]
fn chars_come_in_order() {
    assert_eq!(chars_of("a\u{e9}z"), vec!['a', '\u{e9}', 'z']);
    assert!(chars_of("").is_empty());
}

#[test]
fn split_gives_the_words() {
    assert_eq!(split_whitespace("-DFOO -DBAR"), strings(&["-DFOO", "-DBAR"]));
    assert_eq!(split_whitespace("  -O2\t\t-g \n"), strings(&["-O2", "-g"]));
    assert_eq!(split_whitespace("one"), strings(&["one"]));
    assert_eq!(split_whitespace("a\u{a0}b\u{3000}c"), strings(&["a", "b", "c"]));
    assert!(split_whitespace("").is_empty());
    assert!(split_whitespace(" \t\r\n").is_empty());
}

#[test]
fn split_agrees_with_the_standard_library() {
    for s in ["", " ", "a", " a", "a ", "a b", "  a  b  ", "-Xcompiler -fPIC\t-lineinfo", "x\u{2003}y"]
    {
        let expected: Vec<String> = s.split_whitespace().map(|w| w.to_string()).collect();
        assert_eq!(split_whitespace(s), expected, "{:?}", s);
    }
}

#[test]
fn join_puts_the_separator_between() {
    assert_eq!(join_all(&strings(&["affine", "binary"]), ", "), "affine, binary");
    assert_eq!(join_all(&strings(&["nvcc"]), " "), "nvcc");
    assert_eq!(join_all(&strings(&[]), " "), "");
    assert_eq!(join_all(&strings(&["", "", ""]), "-"), "--");
    assert_eq!(join_all(&strings(&["a", "b", "c"]), ""), "abc");
}

#[test]
fn first_line_stops_at_the_line_feed() {
    assert_eq!(first_line_of("8.6\n7.5\n"), "8.6");
    assert_eq!(first_line_of("8.6\r\n7.5\r\n"), "8.6");
    assert_eq!(first_line_of("8.6"), "8.6");
    assert_eq!(first_line_of("8.6\r"), "8.6\r");
    assert_eq!(first_line_of("\n8.6"), "");
    assert_eq!(first_line_of("\r\n8.6"), "");
    assert_eq!(first_line_of(""), "");
    for s in ["8.6\n7.5\n", "8.6\r\n", "a\rb\nc", "x", "\n", "\r\n", "\r"] {
        assert_eq!(first_line_of(s), s.lines().next().unwrap_or(""), "{:?}", s);
    }
}

#[test]
fn remove_char_removes_each_occurrence() {
    assert_eq!(remove_char("8.6", '.'), "86");
    assert_eq!(remove_char("..1.0..", '.'), "10");
    assert_eq!(remove_char("86", '.'), "86");
    assert_eq!(remove_char("", '.'), "");
}

#[test]
fn digits_only() {
    assert!(is_all_digits("86"));
    assert!(is_all_digits("0123456789"));
    assert!(is_all_digits(""));
    assert!(!is_all_digits("8.6"));
    assert!(!is_all_digits("sm_86"));
    assert!(!is_all_digits("86 "));
    assert!(!is_all_digits("\u{0663}"));
}

#[test]
fn copies_and_slices() {
    let v = strings(&["a", "", "bc"]);
    assert_eq!(copy_all(&v), v);
    assert_eq!(opt_str(&Some("x".to_string())), Some("x"));
    assert_eq!(opt_str(&None), None);
}
