use workspace_labels::format::{
    encode_base_10_number, format_icon_list, DIGITS, SUBSCRIPT, SUPERSCRIPT,
};
use workspace_labels::{IconListFormat, Settings};

fn settings(format: IconListFormat) -> Settings {
    Settings { icon_list_format: format, renumber_workspaces: false }
}

fn icons(list: &[&str]) -> Vec<String> {
    list.iter().map(|s| s.to_string()).collect()
}

#[test]
fn format_of_nothing_is_empty() {
    assert_eq!(format_icon_list(icons(&[]), &settings(IconListFormat::Digits)), "");
}

#[test]
fn format_of_one_icon_is_the_icon() {
    assert_eq!(format_icon_list(icons(&["*"]), &settings(IconListFormat::Digits)), "*");
}

#[test]
fn format_of_three_equal_icons_counts_them() {
    assert_eq!(format_icon_list(icons(&["*", "*", "*"]), &settings(IconListFormat::Digits)), "*3");
}

#[test]
fn format_keeps_the_order_of_first_appearance() {
    let list = icons(&["b", "a", "b", "c", "a", "b"]);
    assert_eq!(format_icon_list(list, &settings(IconListFormat::Digits)), "b3 a2 c");
}

#[test]
fn format_in_superscript_and_subscript() {
    let list = icons(&["x", "y", "x"]);
    assert_eq!(format_icon_list(list.clone(), &settings(IconListFormat::Superscript)), "x² y");
    assert_eq!(format_icon_list(list, &settings(IconListFormat::Subscript)), "x₂ y");
}

#[test]
fn format_counts_beyond_nine() {
    let list = icons(&["i"; 12]);
    assert_eq!(format_icon_list(list.clone(), &settings(IconListFormat::Digits)), "i12");
    assert_eq!(format_icon_list(list, &settings(IconListFormat::Superscript)), "i¹²");
}

#[test]
fn format_tells_icons_apart_that_share_a_prefix() {
    let list = icons(&["ab", "a", "ab"]);
    assert_eq!(format_icon_list(list, &settings(IconListFormat::Digits)), "ab2 a");
}

#[test]
fn encode_writes_each_decimal_digit() {
    assert_eq!(encode_base_10_number(0, &DIGITS), "0");
    assert_eq!(encode_base_10_number(7, &DIGITS), "7");
    assert_eq!(encode_base_10_number(10, &DIGITS), "10");
    assert_eq!(encode_base_10_number(1203, &DIGITS), "1203");
    assert_eq!(encode_base_10_number(1203, &SUPERSCRIPT), "¹²⁰³");
    assert_eq!(encode_base_10_number(4567, &SUBSCRIPT), "₄₅₆₇");
    assert_eq!(encode_base_10_number(89, &SUPERSCRIPT), "⁸⁹");
}

#[test]
fn encode_of_the_largest_number_agrees_with_std() {
    assert_eq!(encode_base_10_number(usize::MAX, &DIGITS), usize::MAX.to_string());
}
