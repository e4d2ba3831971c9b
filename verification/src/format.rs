//! Writing a list of icons as one string: each icon once, in the order in
//! which the icons first appear, with a count behind an icon that repeats.

use vstd::prelude::*;
use vstd::string::*;

use crate::settings::{IconListFormat, Settings};
use crate::tally::{count_all, count_of};
use crate::text::{join, joined, str_eq, views_of};

verus! {

pub const SUPERSCRIPT: [&'static str; 10] = ["⁰", "¹", "²", "³", "⁴", "⁵", "⁶", "⁷", "⁸", "⁹"];

pub const SUBSCRIPT: [&'static str; 10] = ["₀", "₁", "₂", "₃", "₄", "₅", "₆", "₇", "₈", "₉"];

pub const DIGITS: [&'static str; 10] = ["0", "1", "2", "3", "4", "5", "6", "7", "8", "9"];

/// The characters of each symbol of an alphabet.
pub open spec fn symbol_views(symbols: Seq<&str>) -> Seq<Seq<char>> {
    symbols.map_values(|s: &str| s@)
}

/// The number `n` in base ten, each digit written as the symbol that the
/// alphabet has for it, the most significant digit first.
pub open spec fn encoded(n: nat, symbols: Seq<Seq<char>>) -> Seq<char>
    decreases n,
{
    if n < 10 {
        symbols[n as int]
    } else {
        encoded(n / 10, symbols) + symbols[(n % 10) as int]
    }
}

/// Writes `n` in base ten with the symbols of an alphabet.
pub fn encode_base_10_number(n: usize, symbols: &[&str; 10]) -> (r: String)
    ensures
        r@ == encoded(n as nat, symbol_views(symbols@)),
    decreases n,
{
    if n < 10 {
        String::from_str(symbols[n])
    } else {
        let mut s = encode_base_10_number(n / 10, symbols);
        s.append(symbols[n % 10]);
        s
    }
}

/// The symbols in which `format` writes the ten digits.
pub open spec fn alphabet(format: IconListFormat) -> Seq<Seq<char>> {
    match format {
        IconListFormat::Superscript => symbol_views(SUPERSCRIPT@),
        IconListFormat::Subscript => symbol_views(SUBSCRIPT@),
        IconListFormat::Digits => symbol_views(DIGITS@),
    }
}

/// Whether the icon at `i` occurs nowhere before `i`.
pub open spec fn first_seen(icons: Seq<Seq<char>>, i: int) -> bool {
    forall|j: int| 0 <= j < i ==> #[trigger] icons[j] != icons[i]
}

/// How an icon that occurs `count` times is written: alone where it occurs
/// once, else with the count behind it.
pub open spec fn token(icon: Seq<char>, count: nat, symbols: Seq<Seq<char>>) -> Seq<char> {
    if count > 1 {
        icon + encoded(count, symbols)
    } else {
        icon
    }
}

/// The tokens of the icons that first appear among the first `n` of `icons`,
/// in the order in which they appear, each counted over all of `icons`.
pub open spec fn tokens_of_first(icons: Seq<Seq<char>>, n: nat, symbols: Seq<Seq<char>>) -> Seq<
    Seq<char>,
>
    decreases n,
{
    if n == 0 || n > icons.len() {
        Seq::empty()
    } else {
        let before = tokens_of_first(icons, (n - 1) as nat, symbols);
        let icon = icons[n - 1];
        if first_seen(icons, n - 1) {
            before.push(token(icon, icons.to_multiset().count(icon), symbols))
        } else {
            before
        }
    }
}

/// The icon list as one string: the tokens of all icons, one space between
/// each two.
pub open spec fn formatted(icons: Seq<Seq<char>>, symbols: Seq<Seq<char>>) -> Seq<char> {
    joined(tokens_of_first(icons, icons.len(), symbols), seq![' '])
}

/// Whether the icon at `i` occurs before `i`.
fn seen_before(icons: &Vec<String>, i: usize) -> (r: bool)
    requires
        i < icons@.len(),
    ensures
        r == !first_seen(views_of(icons@), i as int),
{
    let mut j: usize = 0;
    while j < i
        invariant
            j <= i < icons@.len(),
            forall|k: int| 0 <= k < j ==> #[trigger] views_of(icons@)[k] != views_of(icons@)[i as int],
        decreases i - j,
    {
        if str_eq(icons[j].as_str(), icons[i].as_str()) {
            assert(views_of(icons@)[j as int] == views_of(icons@)[i as int]);
            return true;
        }
        j += 1;
    }
    false
}

/// Writes the icons of a workspace as one string.
///
/// Each distinct icon stands once, where it first appears. One that occurs
/// more than once is followed by its count in the symbols of the configured
/// format. The tokens are separated by single spaces.
pub fn format_icon_list(icons: Vec<String>, settings: &Settings) -> (r: String)
    ensures
        r@ == formatted(views_of(icons@), alphabet(settings.icon_list_format)),
{
    let symbols = match settings.icon_list_format {
        IconListFormat::Superscript => SUPERSCRIPT,
        IconListFormat::Subscript => SUBSCRIPT,
        IconListFormat::Digits => DIGITS,
    };
    let icon_count = count_all(&icons);
    let mut new_list: Vec<String> = Vec::new();
    let mut i: usize = 0;
    while i < icons.len()
        invariant
            i <= icons@.len(),
            symbol_views(symbols@) == alphabet(settings.icon_list_format),
            crate::tally::tallied(icon_count) == views_of(icons@).to_multiset(),
            views_of(new_list@) == tokens_of_first(
                views_of(icons@),
                i as nat,
                alphabet(settings.icon_list_format),
            ),
        decreases icons@.len() - i,
    {
        let ghost before = views_of(new_list@);
        if !seen_before(&icons, i) {
            let count = count_of(&icon_count, &icons[i]);
            let mut entry = icons[i].clone();
            if count > 1 {
                let encode_number = encode_base_10_number(count, &symbols);
                entry.append(encode_number.as_str());
            }
            new_list.push(entry);
            assert(views_of(new_list@) =~= before.push(entry@));
        }
        i += 1;
    }
    proof {
        reveal_strlit(" ");
        assert(" "@ =~= seq![' ']);
    }
    join(&new_list, " ")
}

} // verus!
