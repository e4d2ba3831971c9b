//! Planning the rename requests: one pass over all workspaces, the clean
//! slate for a workspace that was just made, and the last pass before the
//! program ends.

use vstd::prelude::*;
use vstd::string::*;

use crate::format::{alphabet, encode_base_10_number, encoded, format_icon_list, formatted, symbol_views, DIGITS};
use crate::icons::{entry_views, icon_table, icon_with, window_icon, window_icons, WindowClasses};
use crate::names::{
    construct_workspace_name, constructed_name, parse_workspace_name, parsed_name, NameParts,
    NamePartsView,
};
use crate::settings::Settings;
use crate::text::{str_eq, views_of};
use crate::tree::{
    find_focused_workspace, find_workspaces, focused_workspace, leaves, leaves_of, nodes_of,
    workspaces_of, LayoutNode,
};

verus! {

/// What the window manager reports of a workspace: its name, and the output
/// that shows it.
#[derive(Debug, Clone)]
pub struct WorkspaceInfo {
    pub name: String,
    pub output: String,
}

/// A request to give the workspace named `from` the name `to`.
#[derive(Debug, Clone)]
pub struct RenameRequest {
    pub from: String,
    pub to: String,
}

/// A rename request as sequences of characters.
pub struct RenameRequestView {
    pub from: Seq<char>,
    pub to: Seq<char>,
}

impl View for RenameRequest {
    type V = RenameRequestView;

    open spec fn view(&self) -> RenameRequestView {
        RenameRequestView { from: self.from@, to: self.to@ }
    }
}

/// The views of a sequence of requests.
pub open spec fn request_views(requests: Seq<RenameRequest>) -> Seq<RenameRequestView> {
    requests.map_values(|r: RenameRequest| r@)
}

/// The command that asks the window manager for a rename.
pub open spec fn command_text(request: RenameRequestView) -> Seq<char> {
    "rename workspace \""@ + request.from + "\" to \""@ + request.to + "\""@
}

impl RenameRequest {
    /// The command that asks the window manager for this rename.
    pub fn command(&self) -> (r: String)
        ensures
            r@ == command_text(self@),
    {
        let mut text = String::from_str("rename workspace \"");
        text.append(self.from.as_str());
        text.append("\" to \"");
        text.append(self.to.as_str());
        text.append("\"");
        text
    }
}

/// A number in plain decimal digits.
pub open spec fn decimal(n: nat) -> Seq<char> {
    encoded(n, symbol_views(DIGITS@))
}

/// The parts of a name that holds a number and nothing else.
pub open spec fn number_only(n: nat) -> NamePartsView {
    NamePartsView { num: Some(decimal(n)), shortname: None, icons: None }
}

/// The parts of a workspace's name; where it has no name, or one that does
/// not parse, the number `fallback` and nothing else.
pub open spec fn parts_or(name: Option<Seq<char>>, fallback: nat) -> NamePartsView {
    match name {
        Some(n) => match parsed_name(n) {
            Some(parts) => parts,
            None => number_only(fallback),
        },
        None => number_only(fallback),
    }
}

/// Whether the workspace at `k` is shown on another output than the one
/// before it.
pub open spec fn output_changes(infos: Seq<WorkspaceInfo>, k: int) -> bool {
    1 <= k < infos.len() && infos[k].output@ != infos[k - 1].output@
}

/// The running counter when the pass reaches the workspace at `k`: it starts
/// at one, and each workspace before `k` has added one, and one more if its
/// output differed from that of the workspace before it.
pub open spec fn counter_at(infos: Seq<WorkspaceInfo>, k: nat) -> nat
    decreases k,
{
    if k == 0 {
        1
    } else {
        counter_at(infos, (k - 1) as nat) + 1 + if output_changes(infos, k - 1) {
            1nat
        } else {
            0nat
        }
    }
}

/// The number that renumbering gives the workspace at `k`: the running
/// counter, after the one more for a change of output at `k`.
pub open spec fn number_at(infos: Seq<WorkspaceInfo>, k: nat) -> nat {
    counter_at(infos, k) + if output_changes(infos, k as int) {
        1nat
    } else {
        0nat
    }
}

/// The icons of nodes, in their order.
pub open spec fn icons_of(nodes: Seq<LayoutNode>, windows: Seq<WindowClasses>) -> Seq<Seq<char>> {
    nodes.map_values(|n: LayoutNode| window_icon(n, windows))
}

/// The characters of an optional name.
pub open spec fn name_view(name: Option<String>) -> Option<Seq<char>> {
    match name {
        Some(n) => Some(n@),
        None => None,
    }
}

/// The name that a pass wants for the workspace at `k`.
///
/// Its number is the one that renumbering gives it, or else the one of its
/// present name (the running counter where that has none). Its short label
/// is that of its present name. Its icon segment lists the icons of its
/// leaves.
pub open spec fn target_name(
    workspace: LayoutNode,
    infos: Seq<WorkspaceInfo>,
    k: nat,
    windows: Seq<WindowClasses>,
    settings: Settings,
) -> Seq<char> {
    let parts = parts_or(name_view(workspace.name), counter_at(infos, k));
    let icons = formatted(
        icons_of(leaves_of(workspace), windows),
        alphabet(settings.icon_list_format),
    );
    let num = if settings.renumber_workspaces {
        Some(decimal(number_at(infos, k)))
    } else {
        parts.num
    };
    constructed_name(NamePartsView { num, shortname: parts.shortname, icons: Some(icons) })
}

/// The request that a pass makes for the workspace at `k`: none where the
/// workspace has no name, or has the wanted name already.
pub open spec fn request_for(
    workspace: LayoutNode,
    infos: Seq<WorkspaceInfo>,
    k: nat,
    windows: Seq<WindowClasses>,
    settings: Settings,
) -> Option<RenameRequestView> {
    let target = target_name(workspace, infos, k, windows, settings);
    match workspace.name {
        Some(name) => if target != name@ {
            Some(RenameRequestView { from: name@, to: target })
        } else {
            None
        },
        None => None,
    }
}

/// The requests for the first `n` workspaces, in their order.
pub open spec fn requests_first(
    workspaces: Seq<LayoutNode>,
    infos: Seq<WorkspaceInfo>,
    n: nat,
    windows: Seq<WindowClasses>,
    settings: Settings,
) -> Seq<RenameRequestView>
    decreases n,
{
    if n == 0 || n > workspaces.len() || n > infos.len() {
        Seq::empty()
    } else {
        let before = requests_first(workspaces, infos, (n - 1) as nat, windows, settings);
        match request_for(workspaces[n - 1], infos, (n - 1) as nat, windows, settings) {
            Some(request) => before.push(request),
            None => before,
        }
    }
}

/// How many workspaces a pass visits: each workspace of the tree that has a
/// report at its position.
pub open spec fn visited(workspaces: Seq<LayoutNode>, infos: Seq<WorkspaceInfo>) -> nat {
    if workspaces.len() <= infos.len() {
        workspaces.len()
    } else {
        infos.len()
    }
}

/// The requests of one pass over the tree.
pub open spec fn planned_renames(
    tree: LayoutNode,
    infos: Seq<WorkspaceInfo>,
    windows: Seq<WindowClasses>,
    settings: Settings,
) -> Seq<RenameRequestView> {
    requests_first(
        workspaces_of(tree),
        infos,
        visited(workspaces_of(tree), infos),
        windows,
        settings,
    )
}

/// The request of the last pass for the workspace at `k`, whose name is
/// `name`: the name as its own parts build it, or as the number `k + 1`
/// builds it where it does not parse. None where that is the name it has.
pub open spec fn exit_request_for(name: Seq<char>, k: nat) -> Option<RenameRequestView> {
    let target = constructed_name(parts_or(Some(name), k + 1));
    if target != name {
        Some(RenameRequestView { from: name, to: target })
    } else {
        None
    }
}

/// The requests of the last pass for the first `n` workspaces.
pub open spec fn exit_requests_first(infos: Seq<WorkspaceInfo>, n: nat) -> Seq<RenameRequestView>
    decreases n,
{
    if n == 0 || n > infos.len() {
        Seq::empty()
    } else {
        let before = exit_requests_first(infos, (n - 1) as nat);
        match exit_request_for(infos[n - 1].name@, (n - 1) as nat) {
            Some(request) => before.push(request),
            None => before,
        }
    }
}

/// The request that gives the focused workspace a clean slate: its number,
/// and neither label nor icons. None where no workspace holds the focus, or
/// the one that does has no name, or a name that begins with no number.
pub open spec fn init_request(tree: LayoutNode) -> Option<RenameRequestView> {
    match focused_workspace(tree) {
        Some(workspace) => match workspace.name {
            Some(name) => match parsed_name(name@) {
                Some(parts) => Some(
                    RenameRequestView {
                        from: name@,
                        to: constructed_name(
                            NamePartsView { num: parts.num, shortname: None, icons: None },
                        ),
                    },
                ),
                None => None,
            },
            None => None,
        },
        None => None,
    }
}

/// The parts of `name`, or the number `fallback` alone.
fn parts_or_number(name: Option<&str>, fallback: usize) -> (r: NameParts)
    ensures
        r@ == parts_or(
            match name {
                Some(n) => Some(n@),
                None => None,
            },
            fallback as nat,
        ),
        r.num is Some,
{
    let parsed = match name {
        Some(n) => parse_workspace_name(n),
        None => None,
    };
    match parsed {
        Some(parts) => parts,
        None => NameParts {
            num: Some(encode_base_10_number(fallback, &DIGITS)),
            shortname: None,
            icons: None,
        },
    }
}

/// Plans the clean slate for the workspace that holds the focus.
pub fn on_init(tree: &LayoutNode) -> (r: Option<RenameRequest>)
    ensures
        r is Some <==> init_request(*tree) is Some,
        r is Some ==> r->0@ == init_request(*tree)->0,
{
    let ws = match find_focused_workspace(tree) {
        Some(ws) => ws,
        None => {
            return None;
        },
    };
    let name = match &ws.name {
        Some(name) => name,
        None => {
            return None;
        },
    };
    let name_parts = match parse_workspace_name(name.as_str()) {
        Some(parts) => parts,
        None => {
            return None;
        },
    };
    let new_name = construct_workspace_name(
        &NameParts { num: name_parts.num, shortname: None, icons: None },
    );
    Some(RenameRequest { from: name.clone(), to: new_name })
}

/// Plans the last pass, over the workspaces as the window manager reports
/// them.
///
/// Each name is built anew from its own parts. A name that begins with no
/// number gets
/// the position of its workspace, counted from one. Only names that change
/// are requested.
pub fn on_exit(ws: &Vec<WorkspaceInfo>) -> (r: Vec<RenameRequest>)
    ensures
        request_views(r@) == exit_requests_first(ws@, ws@.len()),
{
    let mut requests: Vec<RenameRequest> = Vec::new();
    let mut i: usize = 0;
    assert(request_views(requests@) =~= exit_requests_first(ws@, 0));
    while i < ws.len()
        invariant
            i <= ws@.len(),
            request_views(requests@) == exit_requests_first(ws@, i as nat),
        decreases ws@.len() - i,
    {
        let workspace = &ws[i];
        let name_parts = parts_or_number(Some(workspace.name.as_str()), i + 1);
        let new_name = construct_workspace_name(&name_parts);
        let ghost before = request_views(requests@);
        if !str_eq(workspace.name.as_str(), new_name.as_str()) {
            let request = RenameRequest { from: workspace.name.clone(), to: new_name };
            requests.push(request);
            assert(request_views(requests@) =~= before.push(request@));
        }
        i += 1;
    }
    requests
}

/// The icons of the leaves below a workspace.
fn icons_below(
    table: &Vec<(&'static str, &'static str)>,
    workspace: &LayoutNode,
    windows: &Vec<WindowClasses>,
) -> (r: Vec<String>)
    requires
        entry_views(table@) == icon_table(),
    ensures
        views_of(r@) == icons_of(leaves_of(*workspace), windows@),
{
    let below = leaves(workspace);
    let mut icon_list: Vec<String> = Vec::new();
    let mut j: usize = 0;
    while j < below.len()
        invariant
            j <= below@.len(),
            entry_views(table@) == icon_table(),
            nodes_of(below@) == leaves_of(*workspace),
            views_of(icon_list@) == icons_of(nodes_of(below@), windows@).take(j as int),
        decreases below@.len() - j,
    {
        let ghost before = views_of(icon_list@);
        let icon = icon_with(table, below[j], windows);
        icon_list.push(icon);
        assert(views_of(icon_list@) =~= before.push(icon@));
        j += 1;
        assert(views_of(icon_list@) =~= icons_of(nodes_of(below@), windows@).take(j as int));
    }
    assert(views_of(icon_list@) =~= icons_of(nodes_of(below@), windows@));
    icon_list
}

/// Plans one pass over all workspaces of the tree.
///
/// The workspaces are taken in the order of the tree, each with the report at
/// its position in `ws_infos`; the pass ends where either runs out. For each
/// workspace the wanted name is built from its number, or the running counter
/// where the settings ask for renumbering, the short label of its present
/// name, and the icons of its leaves. A request is made where the workspace
/// has a name and the wanted name differs from it.
pub fn rename_workspaces(
    tree: &LayoutNode,
    ws_infos: &Vec<WorkspaceInfo>,
    windows: &Vec<WindowClasses>,
    settings: &Settings,
) -> (r: Vec<RenameRequest>)
    requires
        2 * ws_infos@.len() < usize::MAX,
    ensures
        request_views(r@) == planned_renames(*tree, ws_infos@, windows@, *settings),
{
    let table = window_icons();
    let workspaces = find_workspaces(tree);
    let mut requests: Vec<RenameRequest> = Vec::new();
    let mut n: usize = 1;
    let mut ws_index: usize = 0;
    assert(request_views(requests@) =~= requests_first(
        nodes_of(workspaces@),
        ws_infos@,
        0,
        windows@,
        *settings,
    ));
    while ws_index < workspaces.len() && ws_index < ws_infos.len()
        invariant
            ws_index <= workspaces@.len(),
            ws_index <= ws_infos@.len(),
            2 * ws_infos@.len() < usize::MAX,
            entry_views(table@) == icon_table(),
            n == counter_at(ws_infos@, ws_index as nat),
            n <= 1 + 2 * ws_index,
            request_views(requests@) == requests_first(
                nodes_of(workspaces@),
                ws_infos@,
                ws_index as nat,
                windows@,
                *settings,
            ),
        decreases workspaces@.len() - ws_index,
    {
        let workspace = workspaces[ws_index];
        assert(*workspace == nodes_of(workspaces@)[ws_index as int]);
        let name = match &workspace.name {
            Some(name) => Some(name.as_str()),
            None => None,
        };
        let name_parts = parts_or_number(name, n);
        let icon_list = icons_below(&table, workspace, windows);
        let new_icons = format_icon_list(icon_list, settings);
        if ws_index > 0 && !str_eq(
            ws_infos[ws_index].output.as_str(),
            ws_infos[ws_index - 1].output.as_str(),
        ) {
            n += 1;
        }
        let new_num = if settings.renumber_workspaces {
            Some(encode_base_10_number(n, &DIGITS))
        } else {
            name_parts.num
        };
        n += 1;
        let new_name = construct_workspace_name(
            &NameParts { num: new_num, shortname: name_parts.shortname, icons: Some(new_icons) },
        );
        let ghost before = request_views(requests@);
        match name {
            Some(name) => {
                if !str_eq(name, new_name.as_str()) {
                    let request = RenameRequest { from: String::from_str(name), to: new_name };
                    requests.push(request);
                    assert(request_views(requests@) =~= before.push(request@));
                }
            },
            None => {},
        }
        ws_index += 1;
    }
    requests
}

} // verus!
