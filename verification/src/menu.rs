//! The application's menu bar as an immutable, order-significant descriptor.
//!
//! A [`MenuDescriptor`] is an ordered sequence of [`MenuGroup`]s; each group
//! is a labelled, ordered sequence of [`MenuEntry`]s, where an entry is
//! either a command item or a purely visual separator. Every item carries a
//! stable command identifier that is unique across the whole descriptor,
//! a display label, and an optional platform-neutral keyboard accelerator.
//!
//! [`create_menu`] builds the one menu this application declares, group by
//! group, in the fixed order: application-level, File, Edit, View, MLOps,
//! Window, Help. Its result is pinned exactly by [`spec_menu`], and
//! [`lemma_menu_ids_unique`] proves the identifier-uniqueness invariant.

use vstd::prelude::*;

verus! {

/// A selectable menu item: a stable command identifier, a display label,
/// and an optional platform-neutral accelerator such as `CmdOrCtrl+S`.
pub struct MenuItem {
    pub id: String,
    pub label: String,
    pub accelerator: Option<String>,
}

/// One entry of a menu group: a command item or a visual separator.
pub enum MenuEntry {
    Item(MenuItem),
    Separator,
}

/// A labelled, top-to-bottom ordered sequence of entries.
pub struct MenuGroup {
    pub label: String,
    pub entries: Vec<MenuEntry>,
}

/// The whole menu bar: top-level groups in left-to-right order.
pub struct MenuDescriptor {
    pub groups: Vec<MenuGroup>,
}

/// Mathematical model of a [`MenuItem`].
#[verifier::ext_equal]
pub struct MenuItemView {
    pub id: Seq<char>,
    pub label: Seq<char>,
    pub accelerator: Option<Seq<char>>,
}

/// Mathematical model of a [`MenuEntry`].
#[verifier::ext_equal]
pub enum MenuEntryView {
    Item(MenuItemView),
    Separator,
}

/// Mathematical model of a [`MenuGroup`].
#[verifier::ext_equal]
pub struct MenuGroupView {
    pub label: Seq<char>,
    pub entries: Seq<MenuEntryView>,
}

/// Mathematical model of a [`MenuDescriptor`].
#[verifier::ext_equal]
pub struct MenuDescriptorView {
    pub groups: Seq<MenuGroupView>,
}

impl View for MenuItem {
    type V = MenuItemView;

    open spec fn view(&self) -> MenuItemView {
        MenuItemView {
            id: self.id@,
            label: self.label@,
            accelerator: match self.accelerator {
                Some(a) => Some(a@),
                None => None,
            },
        }
    }
}

impl View for MenuEntry {
    type V = MenuEntryView;

    open spec fn view(&self) -> MenuEntryView {
        match self {
            MenuEntry::Item(item) => MenuEntryView::Item(item@),
            MenuEntry::Separator => MenuEntryView::Separator,
        }
    }
}

impl View for MenuGroup {
    type V = MenuGroupView;

    open spec fn view(&self) -> MenuGroupView {
        MenuGroupView {
            label: self.label@,
            entries: self.entries@.map_values(|e: MenuEntry| e@),
        }
    }
}

impl View for MenuDescriptor {
    type V = MenuDescriptorView;

    open spec fn view(&self) -> MenuDescriptorView {
        MenuDescriptorView { groups: self.groups@.map_values(|g: MenuGroup| g@) }
    }
}

/// Model of an optional accelerator argument.
pub open spec fn accel_view(accelerator: Option<&str>) -> Option<Seq<char>> {
    match accelerator {
        Some(a) => Some(a@),
        None => None,
    }
}

/// Builds one command item.
pub fn menu_item(id: &str, label: &str, accelerator: Option<&str>) -> (e: MenuEntry)
    ensures
        e@ == MenuEntryView::Item(
            MenuItemView { id: id@, label: label@, accelerator: accel_view(accelerator) },
        ),
{
    MenuEntry::Item(
        MenuItem {
            id: id.to_owned(),
            label: label.to_owned(),
            accelerator: match accelerator {
                Some(a) => Some(a.to_owned()),
                None => None,
            },
        },
    )
}

/// Builds one separator entry.
pub fn separator() -> (e: MenuEntry)
    ensures
        e@ == MenuEntryView::Separator,
{
    MenuEntry::Separator
}

/// The application-level group: preferences and quit.
pub open spec fn spec_app_group() -> MenuGroupView {
    MenuGroupView {
        label: "Metagate"@,
        entries: seq![
            MenuEntryView::Item(
                MenuItemView {
                    id: "preferences"@,
                    label: "Preferences..."@,
                    accelerator: Some("CmdOrCtrl+,"@),
                },
            ),
            MenuEntryView::Separator,
            MenuEntryView::Item(
                MenuItemView { id: "quit"@, label: "Quit"@, accelerator: Some("CmdOrCtrl+Q"@) },
            ),
        ],
    }
}

/// Builds the application-level group.
pub fn app_group() -> (g: MenuGroup)
    ensures
        g@ == spec_app_group(),
{
    let mut entries: Vec<MenuEntry> = Vec::new();
    entries.push(menu_item("preferences", "Preferences...", Some("CmdOrCtrl+,")));
    entries.push(separator());
    entries.push(menu_item("quit", "Quit", Some("CmdOrCtrl+Q")));
    let g = MenuGroup { label: "Metagate".to_owned(), entries };
    proof {
        assert(g@ =~~= spec_app_group());
    }
    g
}

/// The File group: project lifecycle, model import/export, close.
pub open spec fn spec_file_group() -> MenuGroupView {
    MenuGroupView {
        label: "File"@,
        entries: seq![
            MenuEntryView::Item(
                MenuItemView {
                    id: "new_project"@,
                    label: "New Project"@,
                    accelerator: Some("CmdOrCtrl+N"@),
                },
            ),
            MenuEntryView::Item(
                MenuItemView {
                    id: "open_project"@,
                    label: "Open Project..."@,
                    accelerator: Some("CmdOrCtrl+O"@),
                },
            ),
            MenuEntryView::Item(
                MenuItemView {
                    id: "save_project"@,
                    label: "Save Project"@,
                    accelerator: Some("CmdOrCtrl+S"@),
                },
            ),
            MenuEntryView::Separator,
            MenuEntryView::Item(
                MenuItemView { id: "import_model"@, label: "Import Model..."@, accelerator: None },
            ),
            MenuEntryView::Item(
                MenuItemView { id: "export_model"@, label: "Export Model..."@, accelerator: None },
            ),
            MenuEntryView::Separator,
            MenuEntryView::Item(
                MenuItemView {
                    id: "close_window"@,
                    label: "Close Window"@,
                    accelerator: Some("CmdOrCtrl+W"@),
                },
            ),
        ],
    }
}

/// Builds the File group.
pub fn file_group() -> (g: MenuGroup)
    ensures
        g@ == spec_file_group(),
{
    let mut entries: Vec<MenuEntry> = Vec::new();
    entries.push(menu_item("new_project", "New Project", Some("CmdOrCtrl+N")));
    entries.push(menu_item("open_project", "Open Project...", Some("CmdOrCtrl+O")));
    entries.push(menu_item("save_project", "Save Project", Some("CmdOrCtrl+S")));
    entries.push(separator());
    entries.push(menu_item("import_model", "Import Model...", None));
    entries.push(menu_item("export_model", "Export Model...", None));
    entries.push(separator());
    entries.push(menu_item("close_window", "Close Window", Some("CmdOrCtrl+W")));
    let g = MenuGroup { label: "File".to_owned(), entries };
    proof {
        assert(g@ =~~= spec_file_group());
    }
    g
}

/// The Edit group: undo/redo and clipboard actions.
pub open spec fn spec_edit_group() -> MenuGroupView {
    MenuGroupView {
        label: "Edit"@,
        entries: seq![
            MenuEntryView::Item(
                MenuItemView { id: "undo"@, label: "Undo"@, accelerator: Some("CmdOrCtrl+Z"@) },
            ),
            MenuEntryView::Item(
                MenuItemView {
                    id: "redo"@,
                    label: "Redo"@,
                    accelerator: Some("CmdOrCtrl+Shift+Z"@),
                },
            ),
            MenuEntryView::Separator,
            MenuEntryView::Item(
                MenuItemView { id: "cut"@, label: "Cut"@, accelerator: Some("CmdOrCtrl+X"@) },
            ),
            MenuEntryView::Item(
                MenuItemView { id: "copy"@, label: "Copy"@, accelerator: Some("CmdOrCtrl+C"@) },
            ),
            MenuEntryView::Item(
                MenuItemView { id: "paste"@, label: "Paste"@, accelerator: Some("CmdOrCtrl+V"@) },
            ),
            MenuEntryView::Item(
                MenuItemView {
                    id: "select_all"@,
                    label: "Select All"@,
                    accelerator: Some("CmdOrCtrl+A"@),
                },
            ),
        ],
    }
}

/// Builds the Edit group.
pub fn edit_group() -> (g: MenuGroup)
    ensures
        g@ == spec_edit_group(),
{
    let mut entries: Vec<MenuEntry> = Vec::new();
    entries.push(menu_item("undo", "Undo", Some("CmdOrCtrl+Z")));
    entries.push(menu_item("redo", "Redo", Some("CmdOrCtrl+Shift+Z")));
    entries.push(separator());
    entries.push(menu_item("cut", "Cut", Some("CmdOrCtrl+X")));
    entries.push(menu_item("copy", "Copy", Some("CmdOrCtrl+C")));
    entries.push(menu_item("paste", "Paste", Some("CmdOrCtrl+V")));
    entries.push(menu_item("select_all", "Select All", Some("CmdOrCtrl+A")));
    let g = MenuGroup { label: "Edit".to_owned(), entries };
    proof {
        assert(g@ =~~= spec_edit_group());
    }
    g
}

/// The View group: main screens and display toggles.
pub open spec fn spec_view_group() -> MenuGroupView {
    MenuGroupView {
        label: "View"@,
        entries: seq![
            MenuEntryView::Item(
                MenuItemView {
                    id: "dashboard"@,
                    label: "Dashboard"@,
                    accelerator: Some("CmdOrCtrl+1"@),
                },
            ),
            MenuEntryView::Item(
                MenuItemView { id: "models"@, label: "Models"@, accelerator: Some("CmdOrCtrl+2"@) },
            ),
            MenuEntryView::Item(
                MenuItemView {
                    id: "datasets"@,
                    label: "Datasets"@,
                    accelerator: Some("CmdOrCtrl+3"@),
                },
            ),
            MenuEntryView::Item(
                MenuItemView {
                    id: "pipelines"@,
                    label: "Pipelines"@,
                    accelerator: Some("CmdOrCtrl+4"@),
                },
            ),
            MenuEntryView::Item(
                MenuItemView {
                    id: "monitoring"@,
                    label: "Monitoring"@,
                    accelerator: Some("CmdOrCtrl+5"@),
                },
            ),
            MenuEntryView::Separator,
            MenuEntryView::Item(
                MenuItemView {
                    id: "toggle_sidebar"@,
                    label: "Toggle Sidebar"@,
                    accelerator: Some("CmdOrCtrl+B"@),
                },
            ),
            MenuEntryView::Item(
                MenuItemView {
                    id: "full_screen"@,
                    label: "Enter Full Screen"@,
                    accelerator: Some("Ctrl+Cmd+F"@),
                },
            ),
        ],
    }
}

/// Builds the View group.
pub fn view_group() -> (g: MenuGroup)
    ensures
        g@ == spec_view_group(),
{
    let mut entries: Vec<MenuEntry> = Vec::new();
    entries.push(menu_item("dashboard", "Dashboard", Some("CmdOrCtrl+1")));
    entries.push(menu_item("models", "Models", Some("CmdOrCtrl+2")));
    entries.push(menu_item("datasets", "Datasets", Some("CmdOrCtrl+3")));
    entries.push(menu_item("pipelines", "Pipelines", Some("CmdOrCtrl+4")));
    entries.push(menu_item("monitoring", "Monitoring", Some("CmdOrCtrl+5")));
    entries.push(separator());
    entries.push(menu_item("toggle_sidebar", "Toggle Sidebar", Some("CmdOrCtrl+B")));
    entries.push(menu_item("full_screen", "Enter Full Screen", Some("Ctrl+Cmd+F")));
    let g = MenuGroup { label: "View".to_owned(), entries };
    proof {
        assert(g@ =~~= spec_view_group());
    }
    g
}

/// The MLOps group: model lifecycle and pipeline commands.
pub open spec fn spec_mlops_group() -> MenuGroupView {
    MenuGroupView {
        label: "MLOps"@,
        entries: seq![
            MenuEntryView::Item(
                MenuItemView {
                    id: "train_model"@,
                    label: "Train Model"@,
                    accelerator: Some("CmdOrCtrl+T"@),
                },
            ),
            MenuEntryView::Item(
                MenuItemView {
                    id: "deploy_model"@,
                    label: "Deploy Model"@,
                    accelerator: Some("CmdOrCtrl+D"@),
                },
            ),
            MenuEntryView::Separator,
            MenuEntryView::Item(
                MenuItemView {
                    id: "run_pipeline"@,
                    label: "Run Pipeline"@,
                    accelerator: Some("CmdOrCtrl+R"@),
                },
            ),
            MenuEntryView::Item(
                MenuItemView {
                    id: "stop_pipeline"@,
                    label: "Stop Pipeline"@,
                    accelerator: Some("CmdOrCtrl+."@),
                },
            ),
            MenuEntryView::Separator,
            MenuEntryView::Item(
                MenuItemView {
                    id: "view_logs"@,
                    label: "View Logs"@,
                    accelerator: Some("CmdOrCtrl+L"@),
                },
            ),
        ],
    }
}

/// Builds the MLOps group.
pub fn mlops_group() -> (g: MenuGroup)
    ensures
        g@ == spec_mlops_group(),
{
    let mut entries: Vec<MenuEntry> = Vec::new();
    entries.push(menu_item("train_model", "Train Model", Some("CmdOrCtrl+T")));
    entries.push(menu_item("deploy_model", "Deploy Model", Some("CmdOrCtrl+D")));
    entries.push(separator());
    entries.push(menu_item("run_pipeline", "Run Pipeline", Some("CmdOrCtrl+R")));
    entries.push(menu_item("stop_pipeline", "Stop Pipeline", Some("CmdOrCtrl+.")));
    entries.push(separator());
    entries.push(menu_item("view_logs", "View Logs", Some("CmdOrCtrl+L")));
    let g = MenuGroup { label: "MLOps".to_owned(), entries };
    proof {
        assert(g@ =~~= spec_mlops_group());
    }
    g
}

/// The Window group: window management commands.
pub open spec fn spec_window_group() -> MenuGroupView {
    MenuGroupView {
        label: "Window"@,
        entries: seq![
            MenuEntryView::Item(
                MenuItemView {
                    id: "minimize"@,
                    label: "Minimize"@,
                    accelerator: Some("CmdOrCtrl+M"@),
                },
            ),
            MenuEntryView::Item(
                MenuItemView { id: "zoom"@, label: "Zoom"@, accelerator: None },
            ),
            MenuEntryView::Separator,
            MenuEntryView::Item(
                MenuItemView {
                    id: "bring_to_front"@,
                    label: "Bring All to Front"@,
                    accelerator: None,
                },
            ),
        ],
    }
}

/// Builds the Window group.
pub fn window_group() -> (g: MenuGroup)
    ensures
        g@ == spec_window_group(),
{
    let mut entries: Vec<MenuEntry> = Vec::new();
    entries.push(menu_item("minimize", "Minimize", Some("CmdOrCtrl+M")));
    entries.push(menu_item("zoom", "Zoom", None));
    entries.push(separator());
    entries.push(menu_item("bring_to_front", "Bring All to Front", None));
    let g = MenuGroup { label: "Window".to_owned(), entries };
    proof {
        assert(g@ =~~= spec_window_group());
    }
    g
}

/// The Help group: documentation and support commands.
pub open spec fn spec_help_group() -> MenuGroupView {
    MenuGroupView {
        label: "Help"@,
        entries: seq![
            MenuEntryView::Item(
                MenuItemView { id: "documentation"@, label: "Documentation"@, accelerator: None },
            ),
            MenuEntryView::Item(
                MenuItemView { id: "shortcuts"@, label: "Keyboard Shortcuts"@, accelerator: None },
            ),
            MenuEntryView::Separator,
            MenuEntryView::Item(
                MenuItemView { id: "report_issue"@, label: "Report Issue"@, accelerator: None },
            ),
            MenuEntryView::Item(
                MenuItemView {
                    id: "check_updates"@,
                    label: "Check for Updates"@,
                    accelerator: None,
                },
            ),
        ],
    }
}

/// Builds the Help group.
pub fn help_group() -> (g: MenuGroup)
    ensures
        g@ == spec_help_group(),
{
    let mut entries: Vec<MenuEntry> = Vec::new();
    entries.push(menu_item("documentation", "Documentation", None));
    entries.push(menu_item("shortcuts", "Keyboard Shortcuts", None));
    entries.push(separator());
    entries.push(menu_item("report_issue", "Report Issue", None));
    entries.push(menu_item("check_updates", "Check for Updates", None));
    let g = MenuGroup { label: "Help".to_owned(), entries };
    proof {
        assert(g@ =~~= spec_help_group());
    }
    g
}

/// The whole menu bar, groups in left-to-right order: application-level,
/// File, Edit, View, MLOps, Window, Help.
pub open spec fn spec_menu() -> MenuDescriptorView {
    MenuDescriptorView {
        groups: seq![
            spec_app_group(),
            spec_file_group(),
            spec_edit_group(),
            spec_view_group(),
            spec_mlops_group(),
            spec_window_group(),
            spec_help_group(),
        ],
    }
}

/// Builds the full menu descriptor of this application.
///
/// The result is exactly [`spec_menu`]: seven groups in the fixed
/// left-to-right order, each with its entries in declared order, and the
/// command identifiers across all items are duplicate-free.
pub fn create_menu() -> (d: MenuDescriptor)
    ensures
        d@ == spec_menu(),
        ids_unique(d@),
{
    let mut groups: Vec<MenuGroup> = Vec::new();
    groups.push(app_group());
    groups.push(file_group());
    groups.push(edit_group());
    groups.push(view_group());
    groups.push(mlops_group());
    groups.push(window_group());
    groups.push(help_group());
    let d = MenuDescriptor { groups };
    proof {
        assert(d@ =~~= spec_menu());
        lemma_menu_ids_unique();
    }
    d
}

/// The command identifiers declared by one entry: one for an item, none for
/// a separator.
pub open spec fn entry_ids(e: MenuEntryView) -> Seq<Seq<char>> {
    match e {
        MenuEntryView::Item(item) => seq![item.id],
        MenuEntryView::Separator => Seq::empty(),
    }
}

/// The command identifiers of a sequence of entries, in declared order.
pub open spec fn entries_ids(entries: Seq<MenuEntryView>) -> Seq<Seq<char>>
    decreases entries.len(),
{
    if entries.len() == 0 {
        Seq::empty()
    } else {
        entries_ids(entries.drop_last()) + entry_ids(entries.last())
    }
}

/// The command identifiers of one group, in declared order.
pub open spec fn group_ids(g: MenuGroupView) -> Seq<Seq<char>> {
    entries_ids(g.entries)
}

/// The command identifiers of a sequence of groups, in declared order.
pub open spec fn groups_ids(groups: Seq<MenuGroupView>) -> Seq<Seq<char>>
    decreases groups.len(),
{
    if groups.len() == 0 {
        Seq::empty()
    } else {
        groups_ids(groups.drop_last()) + group_ids(groups.last())
    }
}

/// All command identifiers of a descriptor, across every group, in
/// left-to-right, top-to-bottom order.
pub open spec fn menu_ids(d: MenuDescriptorView) -> Seq<Seq<char>> {
    groups_ids(d.groups)
}

/// The identifier-uniqueness invariant: no two items anywhere in the
/// descriptor share a command identifier.
pub open spec fn ids_unique(d: MenuDescriptorView) -> bool {
    menu_ids(d).no_duplicates()
}

/// Appending one entry appends that entry's identifiers.
proof fn lemma_entries_ids_push(entries: Seq<MenuEntryView>, e: MenuEntryView)
    ensures
        entries_ids(entries.push(e)) == entries_ids(entries) + entry_ids(e),
{
    assert(entries.push(e).drop_last() =~= entries);
    assert(entries.push(e).last() == e);
}

/// Appending one group appends that group's identifiers.
proof fn lemma_groups_ids_push(groups: Seq<MenuGroupView>, g: MenuGroupView)
    ensures
        groups_ids(groups.push(g)) == groups_ids(groups) + group_ids(g),
{
    assert(groups.push(g).drop_last() =~= groups);
    assert(groups.push(g).last() == g);
}

/// The full closed set of command identifiers this menu declares, flattened
/// in menu order.
pub open spec fn all_command_ids() -> Seq<Seq<char>> {
    seq![
        "preferences"@,
        "quit"@,
        "new_project"@,
        "open_project"@,
        "save_project"@,
        "import_model"@,
        "export_model"@,
        "close_window"@,
        "undo"@,
        "redo"@,
        "cut"@,
        "copy"@,
        "paste"@,
        "select_all"@,
        "dashboard"@,
        "models"@,
        "datasets"@,
        "pipelines"@,
        "monitoring"@,
        "toggle_sidebar"@,
        "full_screen"@,
        "train_model"@,
        "deploy_model"@,
        "run_pipeline"@,
        "stop_pipeline"@,
        "view_logs"@,
        "minimize"@,
        "zoom"@,
        "bring_to_front"@,
        "documentation"@,
        "shortcuts"@,
        "report_issue"@,
        "check_updates"@,
    ]
}

/// Evaluates [`group_ids`] on the app group.
proof fn lemma_app_group_ids()
    ensures
        group_ids(spec_app_group()) =~= seq!["preferences"@, "quit"@],
{
    let es = spec_app_group().entries;
    assert(seq![es[0], es[1], es[2]] =~= seq![es[0], es[1]].push(es[2]));
    lemma_entries_ids_push(seq![es[0], es[1]], es[2]);
    assert(seq![es[0], es[1]] =~= seq![es[0]].push(es[1]));
    lemma_entries_ids_push(seq![es[0]], es[1]);
    assert(seq![es[0]] =~= Seq::<MenuEntryView>::empty().push(es[0]));
    lemma_entries_ids_push(Seq::<MenuEntryView>::empty(), es[0]);
    assert(es =~= seq![es[0], es[1], es[2]]);
    assert(group_ids(spec_app_group()) =~= seq!["preferences"@, "quit"@]);
}

/// Evaluates [`group_ids`] on the file group.
proof fn lemma_file_group_ids()
    ensures
        group_ids(spec_file_group()) =~= seq!["new_project"@, "open_project"@, "save_project"@, "import_model"@, "export_model"@, "close_window"@],
{
    let es = spec_file_group().entries;
    assert(seq![es[0], es[1], es[2], es[3], es[4], es[5], es[6], es[7]] =~= seq![es[0], es[1], es[2], es[3], es[4], es[5], es[6]].push(es[7]));
    lemma_entries_ids_push(seq![es[0], es[1], es[2], es[3], es[4], es[5], es[6]], es[7]);
    assert(seq![es[0], es[1], es[2], es[3], es[4], es[5], es[6]] =~= seq![es[0], es[1], es[2], es[3], es[4], es[5]].push(es[6]));
    lemma_entries_ids_push(seq![es[0], es[1], es[2], es[3], es[4], es[5]], es[6]);
    assert(seq![es[0], es[1], es[2], es[3], es[4], es[5]] =~= seq![es[0], es[1], es[2], es[3], es[4]].push(es[5]));
    lemma_entries_ids_push(seq![es[0], es[1], es[2], es[3], es[4]], es[5]);
    assert(seq![es[0], es[1], es[2], es[3], es[4]] =~= seq![es[0], es[1], es[2], es[3]].push(es[4]));
    lemma_entries_ids_push(seq![es[0], es[1], es[2], es[3]], es[4]);
    assert(seq![es[0], es[1], es[2], es[3]] =~= seq![es[0], es[1], es[2]].push(es[3]));
    lemma_entries_ids_push(seq![es[0], es[1], es[2]], es[3]);
    assert(seq![es[0], es[1], es[2]] =~= seq![es[0], es[1]].push(es[2]));
    lemma_entries_ids_push(seq![es[0], es[1]], es[2]);
    assert(seq![es[0], es[1]] =~= seq![es[0]].push(es[1]));
    lemma_entries_ids_push(seq![es[0]], es[1]);
    assert(seq![es[0]] =~= Seq::<MenuEntryView>::empty().push(es[0]));
    lemma_entries_ids_push(Seq::<MenuEntryView>::empty(), es[0]);
    assert(es =~= seq![es[0], es[1], es[2], es[3], es[4], es[5], es[6], es[7]]);
    assert(group_ids(spec_file_group()) =~= seq!["new_project"@, "open_project"@, "save_project"@, "import_model"@, "export_model"@, "close_window"@]);
}

/// Evaluates [`group_ids`] on the edit group.
proof fn lemma_edit_group_ids()
    ensures
        group_ids(spec_edit_group()) =~= seq!["undo"@, "redo"@, "cut"@, "copy"@, "paste"@, "select_all"@],
{
    let es = spec_edit_group().entries;
    assert(seq![es[0], es[1], es[2], es[3], es[4], es[5], es[6]] =~= seq![es[0], es[1], es[2], es[3], es[4], es[5]].push(es[6]));
    lemma_entries_ids_push(seq![es[0], es[1], es[2], es[3], es[4], es[5]], es[6]);
    assert(seq![es[0], es[1], es[2], es[3], es[4], es[5]] =~= seq![es[0], es[1], es[2], es[3], es[4]].push(es[5]));
    lemma_entries_ids_push(seq![es[0], es[1], es[2], es[3], es[4]], es[5]);
    assert(seq![es[0], es[1], es[2], es[3], es[4]] =~= seq![es[0], es[1], es[2], es[3]].push(es[4]));
    lemma_entries_ids_push(seq![es[0], es[1], es[2], es[3]], es[4]);
    assert(seq![es[0], es[1], es[2], es[3]] =~= seq![es[0], es[1], es[2]].push(es[3]));
    lemma_entries_ids_push(seq![es[0], es[1], es[2]], es[3]);
    assert(seq![es[0], es[1], es[2]] =~= seq![es[0], es[1]].push(es[2]));
    lemma_entries_ids_push(seq![es[0], es[1]], es[2]);
    assert(seq![es[0], es[1]] =~= seq![es[0]].push(es[1]));
    lemma_entries_ids_push(seq![es[0]], es[1]);
    assert(seq![es[0]] =~= Seq::<MenuEntryView>::empty().push(es[0]));
    lemma_entries_ids_push(Seq::<MenuEntryView>::empty(), es[0]);
    assert(es =~= seq![es[0], es[1], es[2], es[3], es[4], es[5], es[6]]);
    assert(group_ids(spec_edit_group()) =~= seq!["undo"@, "redo"@, "cut"@, "copy"@, "paste"@, "select_all"@]);
}

/// Evaluates [`group_ids`] on the view group.
proof fn lemma_view_group_ids()
    ensures
        group_ids(spec_view_group()) =~= seq!["dashboard"@, "models"@, "datasets"@, "pipelines"@, "monitoring"@, "toggle_sidebar"@, "full_screen"@],
{
    let es = spec_view_group().entries;
    assert(seq![es[0], es[1], es[2], es[3], es[4], es[5], es[6], es[7]] =~= seq![es[0], es[1], es[2], es[3], es[4], es[5], es[6]].push(es[7]));
    lemma_entries_ids_push(seq![es[0], es[1], es[2], es[3], es[4], es[5], es[6]], es[7]);
    assert(seq![es[0], es[1], es[2], es[3], es[4], es[5], es[6]] =~= seq![es[0], es[1], es[2], es[3], es[4], es[5]].push(es[6]));
    lemma_entries_ids_push(seq![es[0], es[1], es[2], es[3], es[4], es[5]], es[6]);
    assert(seq![es[0], es[1], es[2], es[3], es[4], es[5]] =~= seq![es[0], es[1], es[2], es[3], es[4]].push(es[5]));
    lemma_entries_ids_push(seq![es[0], es[1], es[2], es[3], es[4]], es[5]);
    assert(seq![es[0], es[1], es[2], es[3], es[4]] =~= seq![es[0], es[1], es[2], es[3]].push(es[4]));
    lemma_entries_ids_push(seq![es[0], es[1], es[2], es[3]], es[4]);
    assert(seq![es[0], es[1], es[2], es[3]] =~= seq![es[0], es[1], es[2]].push(es[3]));
    lemma_entries_ids_push(seq![es[0], es[1], es[2]], es[3]);
    assert(seq![es[0], es[1], es[2]] =~= seq![es[0], es[1]].push(es[2]));
    lemma_entries_ids_push(seq![es[0], es[1]], es[2]);
    assert(seq![es[0], es[1]] =~= seq![es[0]].push(es[1]));
    lemma_entries_ids_push(seq![es[0]], es[1]);
    assert(seq![es[0]] =~= Seq::<MenuEntryView>::empty().push(es[0]));
    lemma_entries_ids_push(Seq::<MenuEntryView>::empty(), es[0]);
    assert(es =~= seq![es[0], es[1], es[2], es[3], es[4], es[5], es[6], es[7]]);
    assert(group_ids(spec_view_group()) =~= seq!["dashboard"@, "models"@, "datasets"@, "pipelines"@, "monitoring"@, "toggle_sidebar"@, "full_screen"@]);
}

/// Evaluates [`group_ids`] on the mlops group.
proof fn lemma_mlops_group_ids()
    ensures
        group_ids(spec_mlops_group()) =~= seq!["train_model"@, "deploy_model"@, "run_pipeline"@, "stop_pipeline"@, "view_logs"@],
{
    let es = spec_mlops_group().entries;
    assert(seq![es[0], es[1], es[2], es[3], es[4], es[5], es[6]] =~= seq![es[0], es[1], es[2], es[3], es[4], es[5]].push(es[6]));
    lemma_entries_ids_push(seq![es[0], es[1], es[2], es[3], es[4], es[5]], es[6]);
    assert(seq![es[0], es[1], es[2], es[3], es[4], es[5]] =~= seq![es[0], es[1], es[2], es[3], es[4]].push(es[5]));
    lemma_entries_ids_push(seq![es[0], es[1], es[2], es[3], es[4]], es[5]);
    assert(seq![es[0], es[1], es[2], es[3], es[4]] =~= seq![es[0], es[1], es[2], es[3]].push(es[4]));
    lemma_entries_ids_push(seq![es[0], es[1], es[2], es[3]], es[4]);
    assert(seq![es[0], es[1], es[2], es[3]] =~= seq![es[0], es[1], es[2]].push(es[3]));
    lemma_entries_ids_push(seq![es[0], es[1], es[2]], es[3]);
    assert(seq![es[0], es[1], es[2]] =~= seq![es[0], es[1]].push(es[2]));
    lemma_entries_ids_push(seq![es[0], es[1]], es[2]);
    assert(seq![es[0], es[1]] =~= seq![es[0]].push(es[1]));
    lemma_entries_ids_push(seq![es[0]], es[1]);
    assert(seq![es[0]] =~= Seq::<MenuEntryView>::empty().push(es[0]));
    lemma_entries_ids_push(Seq::<MenuEntryView>::empty(), es[0]);
    assert(es =~= seq![es[0], es[1], es[2], es[3], es[4], es[5], es[6]]);
    assert(group_ids(spec_mlops_group()) =~= seq!["train_model"@, "deploy_model"@, "run_pipeline"@, "stop_pipeline"@, "view_logs"@]);
}

/// Evaluates [`group_ids`] on the window group.
proof fn lemma_window_group_ids()
    ensures
        group_ids(spec_window_group()) =~= seq!["minimize"@, "zoom"@, "bring_to_front"@],
{
    let es = spec_window_group().entries;
    assert(seq![es[0], es[1], es[2], es[3]] =~= seq![es[0], es[1], es[2]].push(es[3]));
    lemma_entries_ids_push(seq![es[0], es[1], es[2]], es[3]);
    assert(seq![es[0], es[1], es[2]] =~= seq![es[0], es[1]].push(es[2]));
    lemma_entries_ids_push(seq![es[0], es[1]], es[2]);
    assert(seq![es[0], es[1]] =~= seq![es[0]].push(es[1]));
    lemma_entries_ids_push(seq![es[0]], es[1]);
    assert(seq![es[0]] =~= Seq::<MenuEntryView>::empty().push(es[0]));
    lemma_entries_ids_push(Seq::<MenuEntryView>::empty(), es[0]);
    assert(es =~= seq![es[0], es[1], es[2], es[3]]);
    assert(group_ids(spec_window_group()) =~= seq!["minimize"@, "zoom"@, "bring_to_front"@]);
}

/// Evaluates [`group_ids`] on the help group.
proof fn lemma_help_group_ids()
    ensures
        group_ids(spec_help_group()) =~= seq!["documentation"@, "shortcuts"@, "report_issue"@, "check_updates"@],
{
    let es = spec_help_group().entries;
    assert(seq![es[0], es[1], es[2], es[3], es[4]] =~= seq![es[0], es[1], es[2], es[3]].push(es[4]));
    lemma_entries_ids_push(seq![es[0], es[1], es[2], es[3]], es[4]);
    assert(seq![es[0], es[1], es[2], es[3]] =~= seq![es[0], es[1], es[2]].push(es[3]));
    lemma_entries_ids_push(seq![es[0], es[1], es[2]], es[3]);
    assert(seq![es[0], es[1], es[2]] =~= seq![es[0], es[1]].push(es[2]));
    lemma_entries_ids_push(seq![es[0], es[1]], es[2]);
    assert(seq![es[0], es[1]] =~= seq![es[0]].push(es[1]));
    lemma_entries_ids_push(seq![es[0]], es[1]);
    assert(seq![es[0]] =~= Seq::<MenuEntryView>::empty().push(es[0]));
    lemma_entries_ids_push(Seq::<MenuEntryView>::empty(), es[0]);
    assert(es =~= seq![es[0], es[1], es[2], es[3], es[4]]);
    assert(group_ids(spec_help_group()) =~= seq!["documentation"@, "shortcuts"@, "report_issue"@, "check_updates"@]);
}

/// Flattening the declared menu yields exactly the closed identifier list.
pub proof fn lemma_menu_ids()
    ensures
        menu_ids(spec_menu()) =~= all_command_ids(),
{
    lemma_app_group_ids();
    lemma_file_group_ids();
    lemma_edit_group_ids();
    lemma_view_group_ids();
    lemma_mlops_group_ids();
    lemma_window_group_ids();
    lemma_help_group_ids();
    let gs = spec_menu().groups;
    assert(seq![gs[0], gs[1], gs[2], gs[3], gs[4], gs[5], gs[6]] =~= seq![gs[0], gs[1], gs[2], gs[3], gs[4], gs[5]].push(gs[6]));
    lemma_groups_ids_push(seq![gs[0], gs[1], gs[2], gs[3], gs[4], gs[5]], gs[6]);
    assert(seq![gs[0], gs[1], gs[2], gs[3], gs[4], gs[5]] =~= seq![gs[0], gs[1], gs[2], gs[3], gs[4]].push(gs[5]));
    lemma_groups_ids_push(seq![gs[0], gs[1], gs[2], gs[3], gs[4]], gs[5]);
    assert(seq![gs[0], gs[1], gs[2], gs[3], gs[4]] =~= seq![gs[0], gs[1], gs[2], gs[3]].push(gs[4]));
    lemma_groups_ids_push(seq![gs[0], gs[1], gs[2], gs[3]], gs[4]);
    assert(seq![gs[0], gs[1], gs[2], gs[3]] =~= seq![gs[0], gs[1], gs[2]].push(gs[3]));
    lemma_groups_ids_push(seq![gs[0], gs[1], gs[2]], gs[3]);
    assert(seq![gs[0], gs[1], gs[2]] =~= seq![gs[0], gs[1]].push(gs[2]));
    lemma_groups_ids_push(seq![gs[0], gs[1]], gs[2]);
    assert(seq![gs[0], gs[1]] =~= seq![gs[0]].push(gs[1]));
    lemma_groups_ids_push(seq![gs[0]], gs[1]);
    assert(seq![gs[0]] =~= Seq::<MenuGroupView>::empty().push(gs[0]));
    lemma_groups_ids_push(Seq::<MenuGroupView>::empty(), gs[0]);
    assert(gs =~= seq![gs[0], gs[1], gs[2], gs[3], gs[4], gs[5], gs[6]]);
    assert(menu_ids(spec_menu()) =~= all_command_ids());
}

/// The closed identifier list is duplicate-free.
#[verifier::rlimit(100)]
pub proof fn lemma_all_command_ids_no_dup()
    ensures
        all_command_ids().no_duplicates(),
{
    reveal_strlit("preferences");
    reveal_strlit("quit");
    reveal_strlit("new_project");
    reveal_strlit("open_project");
    reveal_strlit("save_project");
    reveal_strlit("import_model");
    reveal_strlit("export_model");
    reveal_strlit("close_window");
    reveal_strlit("undo");
    reveal_strlit("redo");
    reveal_strlit("cut");
    reveal_strlit("copy");
    reveal_strlit("paste");
    reveal_strlit("select_all");
    reveal_strlit("dashboard");
    reveal_strlit("models");
    reveal_strlit("datasets");
    reveal_strlit("pipelines");
    reveal_strlit("monitoring");
    reveal_strlit("toggle_sidebar");
    reveal_strlit("full_screen");
    reveal_strlit("train_model");
    reveal_strlit("deploy_model");
    reveal_strlit("run_pipeline");
    reveal_strlit("stop_pipeline");
    reveal_strlit("view_logs");
    reveal_strlit("minimize");
    reveal_strlit("zoom");
    reveal_strlit("bring_to_front");
    reveal_strlit("documentation");
    reveal_strlit("shortcuts");
    reveal_strlit("report_issue");
    reveal_strlit("check_updates");
    assert("preferences"@.len() == 11 && "preferences"@[0] == 'p');
    assert("quit"@.len() == 4 && "quit"@[0] == 'q');
    assert("new_project"@.len() == 11 && "new_project"@[0] == 'n');
    assert("open_project"@.len() == 12 && "open_project"@[0] == 'o');
    assert("save_project"@.len() == 12 && "save_project"@[0] == 's');
    assert("import_model"@.len() == 12 && "import_model"@[0] == 'i');
    assert("export_model"@.len() == 12 && "export_model"@[0] == 'e');
    assert("close_window"@.len() == 12 && "close_window"@[0] == 'c');
    assert("undo"@.len() == 4 && "undo"@[0] == 'u');
    assert("redo"@.len() == 4 && "redo"@[0] == 'r');
    assert("cut"@.len() == 3 && "cut"@[0] == 'c');
    assert("copy"@.len() == 4 && "copy"@[0] == 'c');
    assert("paste"@.len() == 5 && "paste"@[0] == 'p');
    assert("select_all"@.len() == 10 && "select_all"@[0] == 's');
    assert("dashboard"@.len() == 9 && "dashboard"@[0] == 'd');
    assert("models"@.len() == 6 && "models"@[0] == 'm');
    assert("datasets"@.len() == 8 && "datasets"@[0] == 'd');
    assert("pipelines"@.len() == 9 && "pipelines"@[0] == 'p');
    assert("monitoring"@.len() == 10 && "monitoring"@[0] == 'm');
    assert("toggle_sidebar"@.len() == 14 && "toggle_sidebar"@[0] == 't');
    assert("full_screen"@.len() == 11 && "full_screen"@[0] == 'f');
    assert("train_model"@.len() == 11 && "train_model"@[0] == 't');
    assert("deploy_model"@.len() == 12 && "deploy_model"@[0] == 'd');
    assert("run_pipeline"@.len() == 12 && "run_pipeline"@[0] == 'r' && "run_pipeline"@[1] == 'u');
    assert("stop_pipeline"@.len() == 13 && "stop_pipeline"@[0] == 's');
    assert("view_logs"@.len() == 9 && "view_logs"@[0] == 'v');
    assert("minimize"@.len() == 8 && "minimize"@[0] == 'm');
    assert("zoom"@.len() == 4 && "zoom"@[0] == 'z');
    assert("bring_to_front"@.len() == 14 && "bring_to_front"@[0] == 'b');
    assert("documentation"@.len() == 13 && "documentation"@[0] == 'd');
    assert("shortcuts"@.len() == 9 && "shortcuts"@[0] == 's');
    assert("report_issue"@.len() == 12 && "report_issue"@[0] == 'r' && "report_issue"@[1] == 'e');
    assert("check_updates"@.len() == 13 && "check_updates"@[0] == 'c');
    assert forall|i: int, j: int|
        0 <= i < j < all_command_ids().len() implies all_command_ids()[i]
        != all_command_ids()[j] by {
        assert(all_command_ids().len() == 33);
    }
}

/// Law: the set of command identifiers across every item of the declared
/// menu is duplicate-free; equivalently, the cardinality of that set equals
/// the count of items.
pub proof fn lemma_menu_ids_unique()
    ensures
        ids_unique(spec_menu()),
        menu_ids(spec_menu()).to_set().len() == menu_ids(spec_menu()).len(),
{
    lemma_menu_ids();
    lemma_all_command_ids_no_dup();
    menu_ids(spec_menu()).unique_seq_to_set();
}


/// Appending the identifiers of the next entry extends the flattened prefix.
proof fn lemma_entries_ids_take_succ(entries: Seq<MenuEntryView>, i: int)
    requires
        0 <= i < entries.len(),
    ensures
        entries_ids(entries.take(i + 1)) == entries_ids(entries.take(i)) + entry_ids(entries[i]),
{
    assert(entries.take(i + 1).drop_last() =~= entries.take(i));
    assert(entries.take(i + 1).last() == entries[i]);
}

/// Appending the identifiers of the next group extends the flattened prefix.
proof fn lemma_groups_ids_take_succ(groups: Seq<MenuGroupView>, i: int)
    requires
        0 <= i < groups.len(),
    ensures
        groups_ids(groups.take(i + 1)) == groups_ids(groups.take(i)) + group_ids(groups[i]),
{
    assert(groups.take(i + 1).drop_last() =~= groups.take(i));
    assert(groups.take(i + 1).last() == groups[i]);
}

impl MenuDescriptor {
    /// Collects every command identifier of the descriptor, across all
    /// groups, in left-to-right, top-to-bottom declared order.
    pub fn command_ids(&self) -> (ids: Vec<String>)
        ensures
            ids@.map_values(|s: String| s@) == menu_ids(self@),
    {
        let mut ids: Vec<String> = Vec::new();
        let mut gi: usize = 0;
        while gi < self.groups.len()
            invariant
                gi <= self.groups.len(),
                ids@.map_values(|s: String| s@) =~= groups_ids(self@.groups.take(gi as int)),
            decreases self.groups.len() - gi,
        {
            let group = &self.groups[gi];
            proof {
                assert(self@.groups[gi as int] == group@);
            }
            let mut ei: usize = 0;
            while ei < group.entries.len()
                invariant
                    ei <= group.entries.len(),
                    gi < self.groups.len(),
                    *group == self.groups@[gi as int],
                    self@.groups[gi as int] == group@,
                    ids@.map_values(|s: String| s@) =~= groups_ids(self@.groups.take(gi as int))
                        + entries_ids(group@.entries.take(ei as int)),
                decreases group.entries.len() - ei,
            {
                let ghost prev = ids@;
                proof {
                    lemma_entries_ids_take_succ(group@.entries, ei as int);
                    assert(group@.entries[ei as int] == group.entries@[ei as int]@);
                }
                match &group.entries[ei] {
                    MenuEntry::Item(item) => {
                        ids.push(item.id.clone());
                        proof {
                            assert(entry_ids(group@.entries[ei as int]) =~= seq![item.id@]);
                            assert(ids@.map_values(|s: String| s@) =~= prev.map_values(
                                |s: String| s@,
                            ).push(item.id@));
                            assert(ids@.map_values(|s: String| s@) =~= groups_ids(
                                self@.groups.take(gi as int),
                            ) + entries_ids(group@.entries.take(ei as int + 1)));
                        }
                    },
                    MenuEntry::Separator => {
                        proof {
                            assert(entry_ids(group@.entries[ei as int])
                                =~= Seq::<Seq<char>>::empty());
                            assert(ids@.map_values(|s: String| s@) =~= groups_ids(
                                self@.groups.take(gi as int),
                            ) + entries_ids(group@.entries.take(ei as int + 1)));
                        }
                    },
                }
                ei += 1;
            }
            proof {
                assert(group@.entries.take(group.entries@.len() as int) =~= group@.entries);
                lemma_groups_ids_take_succ(self@.groups, gi as int);
            }
            gi += 1;
        }
        proof {
            assert(self@.groups.take(self.groups@.len() as int) =~= self@.groups);
        }
        ids
    }

    /// The number of top-level groups.
    pub fn group_count(&self) -> (n: usize)
        ensures
            n == self@.groups.len(),
    {
        self.groups.len()
    }
}

} // verus!
