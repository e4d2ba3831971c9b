//! Picking an icon for a window from the application classes that the
//! windowing system reports for it.

use vstd::prelude::*;
use vstd::string::*;

use crate::text::{str_eq, views_of};
use crate::tree::LayoutNode;

verus! {

/// The table of icons: an application class in lower case, and the icon that
/// stands for it. No class occurs twice.
pub open spec fn icon_table() -> Seq<(Seq<char>, Seq<char>)> {
    seq![
        ("alacritty"@, "\u{f120}"@),
        ("atom"@, "\u{f121}"@),
        ("banshee"@, "\u{f04b}"@),
        ("blender"@, "\u{f1b2}"@),
        ("chromium"@, "\u{f268}"@),
        ("cura"@, "\u{f1b2}"@),
        ("darktable"@, "\u{f03e}"@),
        ("discord"@, "\u{f075}"@),
        ("eclipse"@, "\u{f121}"@),
        ("emacs"@, "\u{f121}"@),
        ("eog"@, "\u{f03e}"@),
        ("evince"@, "\u{f1c1}"@),
        ("evolution"@, "\u{f0e0}"@),
        ("feh"@, "\u{f03e}"@),
        ("file-roller"@, "\u{f066}"@),
        ("filezilla"@, "\u{f233}"@),
        ("firefox"@, "\u{f269}"@),
        ("firefox-esr"@, "\u{f269}"@),
        ("gimp-2.8"@, "\u{f03e}"@),
        ("git-gui"@, "\u{f1d3}"@),
        ("gitk"@, "\u{f1d3}"@),
        ("gnome-control-center"@, "\u{f205}"@),
        ("gnome-terminal-server"@, "\u{f120}"@),
        ("google-chrome"@, "\u{f268}"@),
        ("gpick"@, "\u{f1fb}"@),
        ("gvim"@, "\u{f121}"@),
        ("imv"@, "\u{f03e}"@),
        ("java"@, "\u{f121}"@),
        ("jetbrains-idea"@, "\u{f121}"@),
        ("jetbrains-studio"@, "\u{f121}"@),
        ("keepassxc"@, "\u{f084}"@),
        ("keybase"@, "\u{f084}"@),
        ("kicad"@, "\u{f2db}"@),
        ("kitty"@, "\u{f120}"@),
        ("libreoffice"@, "\u{f15c}"@),
        ("lua5.1"@, "\u{f186}"@),
        ("mpv"@, "\u{f26c}"@),
        ("mupdf"@, "\u{f1c1}"@),
        ("mysql-workbench-bin"@, "\u{f1c0}"@),
        ("nautilus"@, "\u{f0c5}"@),
        ("nemo"@, "\u{f0c5}"@),
        ("neovimgtk"@, "\u{f121}"@),
        ("openscad"@, "\u{f1b2}"@),
        ("pavucontrol"@, "\u{f028}"@),
        ("pidgin"@, "\u{f075}"@),
        ("postman"@, "\u{f197}"@),
        ("rhythmbox"@, "\u{f04b}"@),
        ("robo3t"@, "\u{f1c0}"@),
        ("sakura"@, "\u{f120}"@),
        ("slack"@, "\u{f198}"@),
        ("slic3r.pl"@, "\u{f1b2}"@),
        ("spacefm"@, "\u{f0c5}"@),
        ("spotify"@, "\u{f001}"@),
        ("steam"@, "\u{f1b6}"@),
        ("subl"@, "\u{f15c}"@),
        ("subl3"@, "\u{f15c}"@),
        ("sublime_text"@, "\u{f15c}"@),
        ("thunar"@, "\u{f0c5}"@),
        ("thunderbird"@, "\u{f0e0}"@),
        ("totem"@, "\u{f04b}"@),
        ("urxvt"@, "\u{f120}"@),
        ("vim"@, "\u{f121}"@),
        ("xfce4-terminal"@, "\u{f120}"@),
        ("xournal"@, "\u{f15c}"@),
        ("yelp"@, "\u{f121}"@),
        ("zenity"@, "\u{f2d0}"@),
        ("zoom"@, "\u{f075}"@),
    ]
}

/// The icon of a window whose classes the table does not know.
pub open spec fn wildcard() -> Seq<char> {
    "*"@
}

/// The characters of the entries of a table.
pub open spec fn entry_views(entries: Seq<(&'static str, &'static str)>) -> Seq<
    (Seq<char>, Seq<char>),
> {
    entries.map_values(|e: (&'static str, &'static str)| (e.0@, e.1@))
}

/// The table of icons.
pub fn window_icons() -> (r: Vec<(&'static str, &'static str)>)
    ensures
        entry_views(r@) == icon_table(),
{
    let table = vec![
        ("alacritty", "\u{f120}"),
        ("atom", "\u{f121}"),
        ("banshee", "\u{f04b}"),
        ("blender", "\u{f1b2}"),
        ("chromium", "\u{f268}"),
        ("cura", "\u{f1b2}"),
        ("darktable", "\u{f03e}"),
        ("discord", "\u{f075}"),
        ("eclipse", "\u{f121}"),
        ("emacs", "\u{f121}"),
        ("eog", "\u{f03e}"),
        ("evince", "\u{f1c1}"),
        ("evolution", "\u{f0e0}"),
        ("feh", "\u{f03e}"),
        ("file-roller", "\u{f066}"),
        ("filezilla", "\u{f233}"),
        ("firefox", "\u{f269}"),
        ("firefox-esr", "\u{f269}"),
        ("gimp-2.8", "\u{f03e}"),
        ("git-gui", "\u{f1d3}"),
        ("gitk", "\u{f1d3}"),
        ("gnome-control-center", "\u{f205}"),
        ("gnome-terminal-server", "\u{f120}"),
        ("google-chrome", "\u{f268}"),
        ("gpick", "\u{f1fb}"),
        ("gvim", "\u{f121}"),
        ("imv", "\u{f03e}"),
        ("java", "\u{f121}"),
        ("jetbrains-idea", "\u{f121}"),
        ("jetbrains-studio", "\u{f121}"),
        ("keepassxc", "\u{f084}"),
        ("keybase", "\u{f084}"),
        ("kicad", "\u{f2db}"),
        ("kitty", "\u{f120}"),
        ("libreoffice", "\u{f15c}"),
        ("lua5.1", "\u{f186}"),
        ("mpv", "\u{f26c}"),
        ("mupdf", "\u{f1c1}"),
        ("mysql-workbench-bin", "\u{f1c0}"),
        ("nautilus", "\u{f0c5}"),
        ("nemo", "\u{f0c5}"),
        ("neovimgtk", "\u{f121}"),
        ("openscad", "\u{f1b2}"),
        ("pavucontrol", "\u{f028}"),
        ("pidgin", "\u{f075}"),
        ("postman", "\u{f197}"),
        ("rhythmbox", "\u{f04b}"),
        ("robo3t", "\u{f1c0}"),
        ("sakura", "\u{f120}"),
        ("slack", "\u{f198}"),
        ("slic3r.pl", "\u{f1b2}"),
        ("spacefm", "\u{f0c5}"),
        ("spotify", "\u{f001}"),
        ("steam", "\u{f1b6}"),
        ("subl", "\u{f15c}"),
        ("subl3", "\u{f15c}"),
        ("sublime_text", "\u{f15c}"),
        ("thunar", "\u{f0c5}"),
        ("thunderbird", "\u{f0e0}"),
        ("totem", "\u{f04b}"),
        ("urxvt", "\u{f120}"),
        ("vim", "\u{f121}"),
        ("xfce4-terminal", "\u{f120}"),
        ("xournal", "\u{f15c}"),
        ("yelp", "\u{f121}"),
        ("zenity", "\u{f2d0}"),
        ("zoom", "\u{f075}"),
    ];
    assert(entry_views(table@) =~= icon_table());
    table
}

/// The lower-case form of an ASCII capital letter; any other character as it is.
pub open spec fn lower(c: char) -> char {
    if 'A' <= c && c <= 'Z' {
        ((c as u8) + 32) as char
    } else {
        c
    }
}

/// A string with its ASCII capital letters in lower case.
pub open spec fn lowercased(s: Seq<char>) -> Seq<char> {
    s.map_values(|c: char| lower(c))
}

/// `str::to_ascii_lowercase` returns a copy of the string in which each of the
/// ASCII letters `A` to `Z` is replaced by its lower-case form, and every
/// other character is kept.
pub assume_specification[ str::to_ascii_lowercase ](s: &str) -> (r: String)
    ensures
        r@ == lowercased(s@),
;

/// The icon of the first entry of `table` at or after `from` whose class is
/// `class`, if there is one.
pub open spec fn icon_in(table: Seq<(Seq<char>, Seq<char>)>, class: Seq<char>, from: int) -> Option<
    Seq<char>,
>
    decreases table.len() - from,
{
    if 0 <= from < table.len() {
        if table[from].0 == class {
            Some(table[from].1)
        } else {
            icon_in(table, class, from + 1)
        }
    } else {
        None
    }
}

/// The icon that the table has for a class, whatever the case of its ASCII
/// letters.
pub open spec fn icon_of(class: Seq<char>) -> Option<Seq<char>> {
    icon_in(icon_table(), lowercased(class), 0)
}

/// The icon of the first of `classes` at or after `from` that the table
/// knows, or the wildcard.
pub open spec fn resolved_from(classes: Seq<Seq<char>>, from: int) -> Seq<char>
    decreases classes.len() - from,
{
    if 0 <= from < classes.len() {
        match icon_of(classes[from]) {
            Some(icon) => icon,
            None => resolved_from(classes, from + 1),
        }
    } else {
        wildcard()
    }
}

/// The icon for a window with these classes: that of the first class that
/// the table knows, or the wildcard where it knows none of them.
pub open spec fn resolved(classes: Seq<Seq<char>>) -> Seq<char> {
    resolved_from(classes, 0)
}

/// The application classes that the windowing system reports for a window.
#[derive(Debug, Clone)]
pub struct WindowClasses {
    pub window: i32,
    pub classes: Vec<String>,
}

/// The classes of the first of `windows` at or after `from` that speaks of
/// `window`; none where no entry does.
pub open spec fn classes_of(windows: Seq<WindowClasses>, window: i32, from: int) -> Seq<Seq<char>>
    decreases windows.len() - from,
{
    if 0 <= from < windows.len() {
        if windows[from].window == window {
            views_of(windows[from].classes@)
        } else {
            classes_of(windows, window, from + 1)
        }
    } else {
        Seq::empty()
    }
}

/// The icon of a node of the layout tree: the wildcard for a node that shows
/// no window, else the icon for the classes of its window.
pub open spec fn window_icon(node: LayoutNode, windows: Seq<WindowClasses>) -> Seq<char> {
    match node.window {
        Some(window) => resolved(classes_of(windows, window, 0)),
        None => wildcard(),
    }
}

/// Looks a class in lower case up in the table.
fn lookup(table: &Vec<(&'static str, &'static str)>, class: &str) -> (r: Option<&'static str>)
    ensures
        r is Some <==> icon_in(entry_views(table@), class@, 0) is Some,
        r is Some ==> r->0@ == icon_in(entry_views(table@), class@, 0)->0,
{
    let mut i: usize = 0;
    while i < table.len()
        invariant
            i <= table@.len(),
            icon_in(entry_views(table@), class@, 0) == icon_in(
                entry_views(table@),
                class@,
                i as int,
            ),
        decreases table@.len() - i,
    {
        if str_eq(table[i].0, class) {
            return Some(table[i].1);
        }
        i += 1;
    }
    None
}

/// Picks the icon for classes out of `table`, which holds the table of icons.
fn resolve_in(table: &Vec<(&'static str, &'static str)>, classes: &Vec<String>) -> (r: String)
    requires
        entry_views(table@) == icon_table(),
    ensures
        r@ == resolved(views_of(classes@)),
{
    let mut i: usize = 0;
    while i < classes.len()
        invariant
            i <= classes@.len(),
            entry_views(table@) == icon_table(),
            resolved(views_of(classes@)) == resolved_from(views_of(classes@), i as int),
        decreases classes@.len() - i,
    {
        let class = classes[i].as_str().to_ascii_lowercase();
        match lookup(table, class.as_str()) {
            Some(icon) => {
                return String::from_str(icon);
            },
            None => {},
        }
        i += 1;
    }
    String::from_str("*")
}

/// Picks the icon for a window from its application classes.
///
/// The classes are tried in order, each compared in lower case with the
/// classes of the table. The first one that the table knows decides. Where
/// there are no classes, or the table knows none of them, the icon is `*`.
pub fn icon_for_classes(classes: &Vec<String>) -> (r: String)
    ensures
        r@ == resolved(views_of(classes@)),
{
    let table = window_icons();
    resolve_in(&table, classes)
}

/// Looks up the classes that `windows` reports for a window.
fn find_classes(windows: &Vec<WindowClasses>, window: i32) -> (r: Option<usize>)
    ensures
        match r {
            Some(at) => at < windows@.len() && views_of(windows@[at as int].classes@) == classes_of(
                windows@,
                window,
                0,
            ),
            None => classes_of(windows@, window, 0) == Seq::<Seq<char>>::empty(),
        },
{
    let mut i: usize = 0;
    while i < windows.len()
        invariant
            i <= windows@.len(),
            classes_of(windows@, window, 0) == classes_of(windows@, window, i as int),
        decreases windows@.len() - i,
    {
        if windows[i].window == window {
            return Some(i);
        }
        i += 1;
    }
    None
}

/// Picks the icon for a node of the layout tree.
///
/// A node that shows no window gets `*`. For one that shows a window, the
/// classes are those of the first entry of `windows` for that window; a
/// window that `windows` does not speak of has no classes.
pub fn icon_for_window(node: &LayoutNode, windows: &Vec<WindowClasses>) -> (r: String)
    ensures
        r@ == window_icon(*node, windows@),
{
    let table = window_icons();
    icon_with(&table, node, windows)
}

/// Picks the icon for a node out of `table`, which holds the table of icons.
pub(crate) fn icon_with(
    table: &Vec<(&'static str, &'static str)>,
    node: &LayoutNode,
    windows: &Vec<WindowClasses>,
) -> (r: String)
    requires
        entry_views(table@) == icon_table(),
    ensures
        r@ == window_icon(*node, windows@),
{
    match node.window {
        Some(window) => match find_classes(windows, window) {
            Some(at) => resolve_in(table, &windows[at].classes),
            None => {
                let none: Vec<String> = Vec::new();
                assert(views_of(none@) =~= Seq::<Seq<char>>::empty());
                resolve_in(table, &none)
            },
        },
        None => String::from_str("*"),
    }
}

/// The icon does not depend on the case of the ASCII letters in the classes:
/// two lists of classes that are equal in lower case, class by class, get the
/// same icon.
pub proof fn lemma_resolve_ignores_case(a: Seq<Seq<char>>, b: Seq<Seq<char>>)
    requires
        a.len() == b.len(),
        forall|i: int| 0 <= i < a.len() ==> lowercased(#[trigger] a[i]) == lowercased(b[i]),
    ensures
        resolved(a) == resolved(b),
{
    lemma_resolve_from_ignores_case(a, b, 0);
}

/// The same, from position `from` on.
pub proof fn lemma_resolve_from_ignores_case(a: Seq<Seq<char>>, b: Seq<Seq<char>>, from: int)
    requires
        a.len() == b.len(),
        forall|i: int| 0 <= i < a.len() ==> lowercased(#[trigger] a[i]) == lowercased(b[i]),
    ensures
        resolved_from(a, from) == resolved_from(b, from),
    decreases a.len() - from,
{
    if 0 <= from < a.len() {
        assert(lowercased(a[from]) == lowercased(b[from]));
        lemma_resolve_from_ignores_case(a, b, from + 1);
    }
}

/// Lower case is a fixed point: a class in lower case gets the icon of the
/// class as it was written.
pub proof fn lemma_lowercased_twice(s: Seq<char>)
    ensures
        lowercased(lowercased(s)) == lowercased(s),
        icon_of(lowercased(s)) == icon_of(s),
{
    assert(lowercased(lowercased(s)) =~= lowercased(s)) by {
        assert forall|i: int| 0 <= i < s.len() implies lower(lower(s[i])) == lower(s[i]) by {
            lemma_lower_twice(s[i]);
        }
    }
}

/// The lower-case form of a character has itself as its lower-case form.
pub proof fn lemma_lower_twice(c: char)
    ensures
        lower(lower(c)) == lower(c),
{
}

} // verus!
