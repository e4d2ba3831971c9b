use workspace_labels::icons::WindowClasses;
use workspace_labels::rename::{on_exit, on_init, rename_workspaces, RenameRequest, WorkspaceInfo};
use workspace_labels::tree::{LayoutNode, NodeKind};
use workspace_labels::{IconListFormat, Settings};

const FIREFOX: &str = "\u{f269}";
const TERMINAL: &str = "\u{f120}";

fn window(id: i64, window: i32) -> LayoutNode {
    LayoutNode {
        id,
        kind: NodeKind::Window,
        name: None,
        window: Some(window),
        focused: false,
        nodes: Vec::new(),
        focus: Vec::new(),
    }
}

fn workspace(id: i64, name: Option<&str>, nodes: Vec<LayoutNode>) -> LayoutNode {
    LayoutNode {
        id,
        kind: NodeKind::Workspace,
        name: name.map(|s| s.to_string()),
        window: None,
        focused: false,
        focus: nodes.iter().map(|n| n.id).collect(),
        nodes,
    }
}

fn root(nodes: Vec<LayoutNode>) -> LayoutNode {
    LayoutNode {
        id: 1,
        kind: NodeKind::Other,
        name: Some("root".to_string()),
        window: None,
        focused: false,
        focus: nodes.iter().map(|n| n.id).collect(),
        nodes,
    }
}

fn info(name: &str, output: &str) -> WorkspaceInfo {
    WorkspaceInfo { name: name.to_string(), output: output.to_string() }
}

fn classes(window: i32, class: &str) -> WindowClasses {
    WindowClasses { window, classes: vec![class.to_lowercase(), class.to_string(), String::new()] }
}

fn settings(renumber: bool) -> Settings {
    Settings { icon_list_format: IconListFormat::Digits, renumber_workspaces: renumber }
}

fn pairs(requests: &[RenameRequest]) -> Vec<(String, String)> {
    requests.iter().map(|r| (r.from.clone(), r.to.clone())).collect()
}

fn pair(from: &str, to: &str) -> (String, String) {
    (from.to_string(), to.to_string())
}

#[test]
fn pass_over_one_workspace_with_two_equal_windows() {
    let tree = root(vec![workspace(2, Some("1: "), vec![window(3, 30), window(4, 40)])]);
    let infos = vec![info("1: ", "eDP-1")];
    let windows = vec![classes(30, "Firefox"), classes(40, "Firefox")];
    let requests = rename_workspaces(&tree, &infos, &windows, &settings(false));
    assert_eq!(requests.len(), 1);
    assert_eq!(pairs(&requests), vec![pair("1: ", &format!("1: {}2", FIREFOX))]);
    assert_eq!(
        requests[0].command(),
        format!("rename workspace \"1: \" to \"1: {}2\"", FIREFOX)
    );
}

#[test]
fn pass_renumbers_with_one_more_for_a_new_output() {
    let tree = root(vec![
        workspace(2, Some("1: "), vec![window(3, 30), window(4, 40)]),
        workspace(5, Some("1: "), vec![window(6, 60), window(7, 70)]),
        workspace(8, Some("9"), vec![window(9, 90)]),
    ]);
    let infos = vec![info("1: ", "eDP-1"), info("1: ", "HDMI-1"), info("9", "HDMI-1")];
    let windows = vec![
        classes(30, "Firefox"),
        classes(40, "Firefox"),
        classes(60, "Firefox"),
        classes(70, "Firefox"),
        classes(90, "kitty"),
    ];
    let requests = rename_workspaces(&tree, &infos, &windows, &settings(true));
    assert_eq!(
        pairs(&requests),
        vec![
            pair("1: ", &format!("1: {}2", FIREFOX)),
            pair("1: ", &format!("3: {}2", FIREFOX)),
            pair("9", &format!("4: {}", TERMINAL)),
        ]
    );
}

#[test]
fn pass_keeps_numbers_where_renumbering_is_off() {
    let tree = root(vec![
        workspace(2, Some("7:-u:m old"), vec![window(3, 30), window(4, 40)]),
        workspace(5, Some("mail"), vec![window(6, 60)]),
        workspace(8, Some("web"), Vec::new()),
    ]);
    let infos = vec![info("7:-u:m old", "a"), info("mail", "b"), info("web", "b")];
    let windows = vec![classes(30, "kitty"), classes(40, "Firefox"), classes(60, "nothing")];
    let requests = rename_workspaces(&tree, &infos, &windows, &settings(false));
    assert_eq!(
        pairs(&requests),
        vec![
            pair("7:-u:m old", &format!("7:-u:m {} {}", TERMINAL, FIREFOX)),
            pair("mail", "2: *"),
            pair("web", "4: "),
        ]
    );
}

#[test]
fn pass_gives_the_running_counter_to_a_name_whose_digits_do_not_lead() {
    let tree = root(vec![
        workspace(2, Some("5"), Vec::new()),
        workspace(3, Some("web 2"), vec![window(4, 40)]),
    ]);
    let infos = vec![info("5", "a"), info("web 2", "a")];
    let windows = vec![classes(40, "firefox")];
    let requests = rename_workspaces(&tree, &infos, &windows, &settings(false));
    assert_eq!(
        pairs(&requests),
        vec![pair("5", "5: "), pair("web 2", &format!("2: {}", FIREFOX))]
    );
}

#[test]
fn pass_asks_nothing_for_a_name_that_is_right() {
    let name = format!("1: {}", FIREFOX);
    let tree = root(vec![workspace(2, Some(&name), vec![window(3, 30)])]);
    let infos = vec![info(&name, "eDP-1")];
    let windows = vec![classes(30, "firefox")];
    assert!(rename_workspaces(&tree, &infos, &windows, &settings(false)).is_empty());
}

#[test]
fn pass_ends_where_the_reports_run_out() {
    let tree = root(vec![
        workspace(2, Some("1"), Vec::new()),
        workspace(3, Some("2"), Vec::new()),
        workspace(4, Some("3"), Vec::new()),
    ]);
    let infos = vec![info("1", "a"), info("2", "a")];
    let requests = rename_workspaces(&tree, &infos, &Vec::new(), &settings(false));
    assert_eq!(pairs(&requests), vec![pair("1", "1: "), pair("2", "2: ")]);
    assert!(rename_workspaces(&tree, &Vec::new(), &Vec::new(), &settings(false)).is_empty());
}

#[test]
fn pass_skips_the_hidden_workspace_and_one_without_a_name() {
    let tree = root(vec![
        workspace(2, Some("__i3_scratch"), vec![window(3, 30)]),
        workspace(4, None, vec![window(5, 50)]),
        workspace(6, Some("2"), vec![window(7, 70)]),
    ]);
    let infos = vec![info("?", "a"), info("2", "a")];
    let windows = vec![classes(30, "vim"), classes(50, "vim"), classes(70, "vim")];
    let requests = rename_workspaces(&tree, &infos, &windows, &settings(true));
    assert_eq!(pairs(&requests), vec![pair("2", "2: \u{f121}")]);
}

#[test]
fn init_clears_label_and_icons_of_the_focused_workspace() {
    let mut focused = workspace(2, Some("4:-u:w a b"), vec![window(3, 30)]);
    focused.focused = true;
    let other = workspace(5, Some("5: x"), Vec::new());
    let mut tree = root(vec![other, focused]);
    tree.focus = vec![2, 5];
    let request = on_init(&tree).unwrap();
    assert_eq!((request.from.as_str(), request.to.as_str()), ("4:-u:w a b", "4: "));
    assert_eq!(request.command(), "rename workspace \"4:-u:w a b\" to \"4: \"");
}

#[test]
fn init_has_nothing_to_ask_without_a_focused_numbered_workspace() {
    let tree = root(vec![workspace(2, Some("4"), Vec::new())]);
    assert!(on_init(&tree).is_none());
    let mut unnamed = workspace(2, None, Vec::new());
    unnamed.focused = true;
    assert!(on_init(&root(vec![unnamed])).is_none());
    let mut wordy = workspace(2, Some("mail"), Vec::new());
    wordy.focused = true;
    assert!(on_init(&root(vec![wordy])).is_none());
    let mut late = workspace(2, Some("web 2"), Vec::new());
    late.focused = true;
    assert!(on_init(&root(vec![late])).is_none());
}

#[test]
fn exit_builds_each_name_anew_and_asks_for_those_that_change() {
    let infos = vec![
        info("1: a", "x"),
        info("2", "x"),
        info("mail", "y"),
        info("4:-u:w", "y"),
        info("5: ", "y"),
        info("ws 7 b", "y"),
    ];
    assert_eq!(
        pairs(&on_exit(&infos)),
        vec![pair("2", "2: "), pair("mail", "3: "), pair("ws 7 b", "6: ")]
    );
    assert!(on_exit(&Vec::new()).is_empty());
}
