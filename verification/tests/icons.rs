use workspace_labels::icons::{icon_for_classes, icon_for_window, window_icons, WindowClasses};
use workspace_labels::tree::{LayoutNode, NodeKind};

fn classes(list: &[&str]) -> Vec<String> {
    list.iter().map(|s| s.to_string()).collect()
}

fn window(id: i64, window: Option<i32>) -> LayoutNode {
    LayoutNode {
        id,
        kind: NodeKind::Window,
        name: None,
        window,
        focused: false,
        nodes: Vec::new(),
        focus: Vec::new(),
    }
}

#[test]
fn resolve_ignores_case() {
    assert_eq!(icon_for_classes(&classes(&["Firefox"])), icon_for_classes(&classes(&["firefox"])));
    assert_eq!(icon_for_classes(&classes(&["Firefox"])), "\u{f269}");
    assert_eq!(icon_for_classes(&classes(&["FIREFOX"])), "\u{f269}");
}

#[test]
fn resolve_unknown_class_is_wildcard() {
    assert_eq!(icon_for_classes(&classes(&["unknown-app-xyz"])), "*");
}

#[test]
fn resolve_no_classes_is_wildcard() {
    assert_eq!(icon_for_classes(&classes(&[])), "*");
}

#[test]
fn resolve_takes_the_first_class_that_is_known() {
    assert_eq!(icon_for_classes(&classes(&["navigator", "Firefox", "vim"])), "\u{f269}");
    assert_eq!(icon_for_classes(&classes(&["gvim", "Firefox"])), "\u{f121}");
    assert_eq!(icon_for_classes(&classes(&["", "Alacritty", ""])), "\u{f120}");
}

#[test]
fn resolve_lowers_ascii_letters_only() {
    assert_eq!(icon_for_classes(&classes(&["ＦＩＲＥＦＯＸ"])), "*");
    assert_eq!(icon_for_classes(&classes(&["NeovimGtk"])), "\u{f121}");
}

#[test]
fn table_holds_each_class_once_in_lower_case() {
    let table = window_icons();
    assert_eq!(table.len(), 67);
    for (i, (class, icon)) in table.iter().enumerate() {
        assert_eq!(*class, class.to_ascii_lowercase());
        assert_eq!(icon.chars().count(), 1);
        assert!(table[..i].iter().all(|(other, _)| other != class));
        assert_eq!(icon_for_classes(&classes(&[class])), *icon);
    }
}

#[test]
fn icon_for_window_reads_the_classes_of_its_window() {
    let windows = vec![
        WindowClasses { window: 7, classes: classes(&["spotify", "Spotify", ""]) },
        WindowClasses { window: 9, classes: classes(&["Navigator", "Firefox", ""]) },
        WindowClasses { window: 9, classes: classes(&["vim"]) },
    ];
    assert_eq!(icon_for_window(&window(1, Some(9)), &windows), "\u{f269}");
    assert_eq!(icon_for_window(&window(2, Some(7)), &windows), "\u{f001}");
    assert_eq!(icon_for_window(&window(3, Some(8)), &windows), "*");
    assert_eq!(icon_for_window(&window(4, None), &windows), "*");
}
