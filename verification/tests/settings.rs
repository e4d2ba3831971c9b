use std::str::FromStr;

use workspace_labels::{IconListFormat, Settings};

#[test]
fn format_names_are_read_in_any_case() {
    assert_eq!(IconListFormat::from_str("superscript"), Ok(IconListFormat::Superscript));
    assert_eq!(IconListFormat::from_str("subscript"), Ok(IconListFormat::Subscript));
    assert_eq!(IconListFormat::from_str("digits"), Ok(IconListFormat::Digits));
    assert_eq!(IconListFormat::from_str("Digits"), Ok(IconListFormat::Digits));
    assert_eq!(IconListFormat::from_str("SUPERSCRIPT"), Ok(IconListFormat::Superscript));
    assert_eq!(IconListFormat::parse("SubScript"), Ok(IconListFormat::Subscript));
    assert_eq!("subscript".parse::<IconListFormat>(), Ok(IconListFormat::Subscript));
}

#[test]
fn other_format_names_are_refused() {
    assert_eq!(IconListFormat::from_str(""), Err(()));
    assert_eq!(IconListFormat::from_str("digit"), Err(()));
    assert_eq!(IconListFormat::from_str(" digits"), Err(()));
    assert_eq!(IconListFormat::parse("roman"), Err(()));
}

#[test]
fn lower_case_names_are_taken_as_they_are() {
    assert_eq!(IconListFormat::from_lowercase("digits"), Some(IconListFormat::Digits));
    assert_eq!(IconListFormat::from_lowercase("Digits"), None);
}

#[test]
fn default_settings_are_digits_without_renumbering() {
    let settings = Settings::default();
    assert_eq!(settings.icon_list_format, IconListFormat::Digits);
    assert!(!settings.renumber_workspaces);
}
