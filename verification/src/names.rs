//! The structured workspace name: a number, an optional short label and an
//! optional icon segment, written as `<number>:<label> <icons>`.

use regex::Regex;
use vstd::prelude::*;
use vstd::string::*;

use crate::text::{chars_of, substring};

verus! {

/// The parts of a workspace name.
#[derive(Debug, Clone)]
pub struct NameParts {
    pub num: Option<String>,
    pub shortname: Option<String>,
    pub icons: Option<String>,
}

/// The parts of a workspace name as sequences of characters.
pub struct NamePartsView {
    pub num: Option<Seq<char>>,
    pub shortname: Option<Seq<char>>,
    pub icons: Option<Seq<char>>,
}

/// The characters of an optional string.
pub open spec fn opt_view(s: Option<String>) -> Option<Seq<char>> {
    match s {
        Some(s) => Some(s@),
        None => None,
    }
}

impl View for NameParts {
    type V = NamePartsView;

    open spec fn view(&self) -> NamePartsView {
        NamePartsView {
            num: opt_view(self.num),
            shortname: opt_view(self.shortname),
            icons: opt_view(self.icons),
        }
    }
}

/// The classes of characters that the name pattern scans over.
#[derive(Debug, Clone, Copy)]
pub enum CharClass {
    /// A decimal digit.
    Digit,
    /// Anything but a line feed.
    SameLine,
}

/// Whether the text that holds `c` and nothing else has a match of
/// `pattern`, as the `regex` crate finds it. It has none where `pattern` is
/// no pattern.
pub uninterp spec fn char_matches(pattern: Seq<char>, c: char) -> bool;

/// Tests one character against a pattern.
///
/// Calls `Regex::new` on the pattern and `Regex::is_match` on the text that
/// holds `c` alone. A pattern that `Regex::new` refuses gives `false`. The
/// answer depends on the pattern and the character alone.
#[verifier::external_body]
fn matches_char(pattern: &str, c: char) -> (r: bool)
    ensures
        r == char_matches(pattern@, c),
{
    match Regex::new(pattern) {
        Ok(re) => re.is_match(c.encode_utf8(&mut [0; 4])),
        Err(_) => false,
    }
}

/// A decimal digit: among the ASCII characters `0` to `9`; beyond ASCII,
/// what the pattern `\d` takes for one.
pub open spec fn is_digit(c: char) -> bool {
    if c <= '\u{7f}' {
        '0' <= c && c <= '9'
    } else {
        char_matches("^\\d$"@, c)
    }
}

/// Tests for a decimal digit.
pub fn test_digit(c: char) -> (r: bool)
    ensures
        r == is_digit(c),
{
    if c <= '\u{7f}' {
        '0' <= c && c <= '9'
    } else {
        matches_char("^\\d$", c)
    }
}

/// An ASCII letter, an ASCII digit or an underscore.
pub open spec fn is_word(c: char) -> bool {
    ('a' <= c && c <= 'z') || ('A' <= c && c <= 'Z') || ('0' <= c && c <= '9') || c == '_'
}

impl CharClass {
    /// Whether `c` belongs to the class.
    pub open spec fn holds(self, c: char) -> bool {
        match self {
            CharClass::Digit => is_digit(c),
            CharClass::SameLine => c != '\n',
        }
    }

    /// Tests whether `c` belongs to the class.
    pub fn test(self, c: char) -> (r: bool)
        ensures
            r == self.holds(c),
    {
        match self {
            CharClass::Digit => test_digit(c),
            CharClass::SameLine => c != '\n',
        }
    }
}

/// Where the longest run of characters of `class` that begins at `from` ends:
/// the first position at or after `from` whose character is not of the class,
/// or the length of `s`.
pub open spec fn run_end(s: Seq<char>, from: int, class: CharClass) -> int
    decreases s.len() - from,
{
    if 0 <= from < s.len() && class.holds(s[from]) {
        run_end(s, from + 1, class)
    } else {
        from
    }
}

/// Whether the short label `-u:` and one word character stand at `at`.
pub open spec fn short_label_at(s: Seq<char>, at: int) -> bool {
    &&& 0 <= at
    &&& at + 4 <= s.len()
    &&& s[at] == '-'
    &&& s[at + 1] == 'u'
    &&& s[at + 2] == ':'
    &&& is_word(s[at + 3])
}

/// What a name parses to.
///
/// The number is the run of digits with which the name begins; a name that
/// does not begin with a digit has no parts. Behind the number may stand a
/// colon, then a short label, then one space. The icon segment is what is
/// left of that line, if anything.
pub open spec fn parsed_name(s: Seq<char>) -> Option<NamePartsView> {
    if s.len() == 0 || !is_digit(s[0]) {
        None
    } else {
        let num_end = run_end(s, 0, CharClass::Digit);
        let label_start = if num_end < s.len() && s[num_end] == ':' {
            num_end + 1
        } else {
            num_end
        };
        let label_end = if short_label_at(s, label_start) {
            label_start + 4
        } else {
            label_start
        };
        let icons_start = if label_end < s.len() && s[label_end] == ' ' {
            label_end + 1
        } else {
            label_end
        };
        let icons_end = run_end(s, icons_start, CharClass::SameLine);
        Some(
            NamePartsView {
                num: Some(s.subrange(0, num_end)),
                shortname: if label_end > label_start {
                    Some(s.subrange(label_start, label_end))
                } else {
                    None
                },
                icons: if icons_end > icons_start {
                    Some(s.subrange(icons_start, icons_end))
                } else {
                    None
                },
            },
        )
    }
}

/// The characters of an optional part, none if it is absent.
pub open spec fn or_empty(part: Option<Seq<char>>) -> Seq<char> {
    match part {
        Some(s) => s,
        None => Seq::empty(),
    }
}

/// What follows the colon in a name built from `parts`: one space where there
/// is neither label nor icons, the label alone where there are no icons, else
/// the label (or nothing), one space and the icons.
pub open spec fn constructed_tail(parts: NamePartsView) -> Seq<char> {
    if parts.icons is Some {
        or_empty(parts.shortname) + seq![' '] + parts.icons->0
    } else if parts.shortname is Some {
        parts.shortname->0
    } else {
        seq![' ']
    }
}

/// The name built from `parts`, which must hold a number.
pub open spec fn constructed_name(parts: NamePartsView) -> Seq<char>
    recommends
        parts.num is Some,
{
    parts.num->0 + seq![':'] + constructed_tail(parts)
}

/// A number as a name carries it: one digit or more, and nothing else.
pub open spec fn is_number(s: Seq<char>) -> bool {
    s.len() > 0 && forall|i: int| 0 <= i < s.len() ==> is_digit(#[trigger] s[i])
}

/// A short label as the pattern knows it: `-u:` and one word character.
pub open spec fn is_short_label(s: Seq<char>) -> bool {
    s.len() == 4 && short_label_at(s, 0)
}

/// An icon segment that a name can carry: not empty, and on one line.
pub open spec fn is_icon_segment(s: Seq<char>) -> bool {
    s.len() > 0 && forall|i: int| 0 <= i < s.len() ==> #[trigger] s[i] != '\n'
}

/// Parts that a name can carry without loss.
pub open spec fn well_formed(parts: NamePartsView) -> bool {
    &&& parts.num is Some && is_number(parts.num->0)
    &&& parts.shortname is Some ==> is_short_label(parts.shortname->0)
    &&& parts.icons is Some ==> is_icon_segment(parts.icons->0)
}

/// Scans the run of characters of `class` that begins at `from`.
fn scan(chars: &Vec<char>, from: usize, class: CharClass) -> (r: usize)
    requires
        from <= chars@.len(),
    ensures
        r == run_end(chars@, from as int, class),
        from <= r <= chars@.len(),
{
    let mut i: usize = from;
    while i < chars.len() && class.test(chars[i])
        invariant
            from <= i <= chars@.len(),
            run_end(chars@, from as int, class) == run_end(chars@, i as int, class),
        decreases chars@.len() - i,
    {
        i += 1;
    }
    i
}

/// Tests for a word character.
fn test_word(c: char) -> (r: bool)
    ensures
        r == is_word(c),
{
    ('a' <= c && c <= 'z') || ('A' <= c && c <= 'Z') || ('0' <= c && c <= '9') || c == '_'
}

/// Tests for the short label at `at`.
fn test_short_label(chars: &Vec<char>, at: usize) -> (r: bool)
    requires
        at <= chars@.len(),
    ensures
        r == short_label_at(chars@, at as int),
{
    chars.len() - at >= 4 && chars[at] == '-' && chars[at + 1] == 'u' && chars[at + 2] == ':'
        && test_word(chars[at + 3])
}

/// Takes a workspace name apart.
///
/// Returns `None` exactly when the name does not begin with a digit.
pub fn parse_workspace_name(name: &str) -> (r: Option<NameParts>)
    ensures
        r is Some <==> parsed_name(name@) is Some,
        r is Some ==> r->0@ == parsed_name(name@)->0,
        r is None <==> (name@.len() == 0 || !is_digit(name@[0])),
{
    let chars = chars_of(name);
    let len = chars.len();
    if len == 0 || !test_digit(chars[0]) {
        return None;
    }
    let num_end = scan(&chars, 0, CharClass::Digit);
    let label_start = if num_end < len && chars[num_end] == ':' {
        num_end + 1
    } else {
        num_end
    };
    let label_end = if test_short_label(&chars, label_start) {
        label_start + 4
    } else {
        label_start
    };
    let icons_start = if label_end < len && chars[label_end] == ' ' {
        label_end + 1
    } else {
        label_end
    };
    let icons_end = scan(&chars, icons_start, CharClass::SameLine);
    let shortname = if label_end > label_start {
        Some(substring(name, label_start, label_end))
    } else {
        None
    };
    let icons = if icons_end > icons_start {
        Some(substring(name, icons_start, icons_end))
    } else {
        None
    };
    Some(NameParts { num: Some(substring(name, 0, num_end)), shortname, icons })
}

/// Builds a workspace name from its parts.
pub fn construct_workspace_name(np: &NameParts) -> (r: String)
    requires
        np.num is Some,
    ensures
        r@ == constructed_name(np@),
{
    let mut name = String::new();
    match &np.num {
        Some(num) => name.append(num.as_str()),
        None => {},
    }
    name.append(":");
    proof {
        reveal_strlit(":");
        reveal_strlit(" ");
        assert(name@ =~= np@.num->0 + seq![':']);
    }
    match &np.icons {
        Some(icons) => {
            match &np.shortname {
                Some(shortname) => name.append(shortname.as_str()),
                None => {},
            }
            name.append(" ");
            name.append(icons.as_str());
            assert(name@ =~= constructed_name(np@));
        },
        None => {
            match &np.shortname {
                Some(shortname) => name.append(shortname.as_str()),
                None => name.append(" "),
            }
            assert(name@ =~= constructed_name(np@));
        },
    }
    name
}

/// A run that is known to hold the class up to `to`, and to stop there, ends at `to`.
pub proof fn lemma_run_end_is(s: Seq<char>, from: int, to: int, class: CharClass)
    requires
        0 <= from <= to <= s.len(),
        forall|i: int| from <= i < to ==> class.holds(#[trigger] s[i]),
        to < s.len() ==> !class.holds(s[to]),
    ensures
        run_end(s, from, class) == to,
    decreases to - from,
{
    if from < to {
        lemma_run_end_is(s, from + 1, to, class);
    }
}

/// A name built from well-formed parts parses back to the same parts: the
/// number, the short label and the icon segment all survive the round trip.
pub proof fn lemma_parse_construct(parts: NamePartsView)
    requires
        well_formed(parts),
    ensures
        parsed_name(constructed_name(parts)) == Some(parts),
{
    let num = parts.num->0;
    let tail = constructed_tail(parts);
    let s = constructed_name(parts);
    let n = num.len() as int;
    assert(s.len() == n + 1 + tail.len());
    assert(forall|i: int| 0 <= i < n ==> s[i] == num[i]);
    assert(s[n] == ':');
    assert(forall|i: int| 0 <= i < tail.len() ==> s[n + 1 + i] == tail[i]);
    assert(is_digit(s[0]));
    lemma_run_end_is(s, 0, n, CharClass::Digit);
    assert(s.subrange(0, n) =~= num);
    let label_start = n + 1;
    if parts.shortname is Some {
        let label = parts.shortname->0;
        assert(forall|i: int| 0 <= i < 4 ==> s[label_start + i] == label[i]);
        assert(short_label_at(s, label_start));
        assert(s.subrange(label_start, label_start + 4) =~= label);
        if parts.icons is Some {
            let icons = parts.icons->0;
            let icons_start = label_start + 5;
            assert(tail =~= label + seq![' '] + icons);
            assert(s[label_start + 4] == ' ');
            assert(forall|i: int| 0 <= i < icons.len() ==> s[icons_start + i] == icons[i]);
            lemma_run_end_is(s, icons_start, s.len() as int, CharClass::SameLine);
            assert(s.subrange(icons_start, s.len() as int) =~= icons);
        } else {
            lemma_run_end_is(s, label_start + 4, s.len() as int, CharClass::SameLine);
        }
    } else {
        assert(s[label_start] == ' ');
        assert(!short_label_at(s, label_start));
        let icons_start = label_start + 1;
        if parts.icons is Some {
            let icons = parts.icons->0;
            assert(tail =~= seq![' '] + icons);
            assert(forall|i: int| 0 <= i < icons.len() ==> s[icons_start + i] == icons[i]);
            lemma_run_end_is(s, icons_start, s.len() as int, CharClass::SameLine);
            assert(s.subrange(icons_start, s.len() as int) =~= icons);
        } else {
            lemma_run_end_is(s, icons_start, s.len() as int, CharClass::SameLine);
        }
    }
}

} // verus!
