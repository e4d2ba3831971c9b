//! The configuration of a renaming pass.

use std::str::FromStr;

use vstd::prelude::*;

use crate::text::str_eq;

verus! {

/// How a repeat count behind an icon is written.
#[derive(Debug, Clone, Copy, PartialEq, Eq, Structural)]
pub enum IconListFormat {
    Superscript,
    Subscript,
    Digits,
}

/// What a renaming pass is configured with.
#[derive(Debug, Clone, Copy)]
pub struct Settings {
    pub icon_list_format: IconListFormat,
    pub renumber_workspaces: bool,
}

/// The lower-case form of a string, as `str::to_lowercase` gives it.
pub uninterp spec fn lowercase_of(s: Seq<char>) -> Seq<char>;

/// `str::to_lowercase` returns the lower-case form of the string, by the
/// rules of Unicode. It depends on the string alone.
pub assume_specification[ str::to_lowercase ](s: &str) -> (r: String)
    ensures
        r@ == lowercase_of(s@),
;

/// The format that a name in lower case stands for.
pub open spec fn format_named(name: Seq<char>) -> Option<IconListFormat> {
    if name == "superscript"@ {
        Some(IconListFormat::Superscript)
    } else if name == "subscript"@ {
        Some(IconListFormat::Subscript)
    } else if name == "digits"@ {
        Some(IconListFormat::Digits)
    } else {
        None
    }
}

impl IconListFormat {
    /// The format that `name` stands for, if it is the lower-case name of one.
    pub fn from_lowercase(name: &str) -> (r: Option<IconListFormat>)
        ensures
            r == format_named(name@),
    {
        if str_eq(name, "superscript") {
            Some(IconListFormat::Superscript)
        } else if str_eq(name, "subscript") {
            Some(IconListFormat::Subscript)
        } else if str_eq(name, "digits") {
            Some(IconListFormat::Digits)
        } else {
            None
        }
    }

    /// The format that `s` names, in whatever case it is written.
    pub fn parse(s: &str) -> (r: Result<IconListFormat, ()>)
        ensures
            r == match format_named(lowercase_of(s@)) {
                Some(format) => Ok::<IconListFormat, ()>(format),
                None => Err(()),
            },
    {
        let lower = s.to_lowercase();
        match IconListFormat::from_lowercase(lower.as_str()) {
            Some(format) => Ok(format),
            None => Err(()),
        }
    }
}

impl FromStr for IconListFormat {
    type Err = ();

    /// The format that `s` names, in whatever case it is written; an error
    /// where it names none.
    fn from_str(s: &str) -> (r: Result<IconListFormat, ()>)
        ensures
            r == match format_named(lowercase_of(s@)) {
                Some(format) => Ok::<IconListFormat, ()>(format),
                None => Err(()),
            },
    {
        IconListFormat::parse(s)
    }
}

impl Default for Settings {
    /// Counts in plain digits, and no renumbering.
    fn default() -> (r: Settings)
        ensures
            r.icon_list_format == IconListFormat::Digits,
            !r.renumber_workspaces,
    {
        Settings { icon_list_format: IconListFormat::Digits, renumber_workspaces: false }
    }
}

} // verus!
