//! The menus of the program, and what their items do.
use crate::script::{
    a_script_that_goes_through_reaches_its_goal, attempt, may, steps_model, Goal, Script, Step,
    StepModel,
};
use crate::text::{optional_text, texts};
use crate::windows::{doing, idle, stopping_steps, ShellScript, ShellTask, TrayEvent};
use vstd::prelude::*;

verus! {

/// An entry of a menu: one of the program, or one that the system knows.
#[derive(Debug, PartialEq, Eq)]
pub enum MenuEntry {
    Item { id: String, label: String, accelerator: Option<String> },
    About,
    Separator,
    Services,
    Hide,
    HideOthers,
    Quit,
    Minimize,
    Maximize,
    CloseWindow,
    Undo,
    Redo,
    Cut,
    Copy,
    Paste,
    SelectAll,
    Fullscreen,
}

/// What a [`MenuEntry`] says.
pub enum EntryModel {
    Item { id: Seq<char>, label: Seq<char>, accelerator: Option<Seq<char>> },
    About,
    Separator,
    Services,
    Hide,
    HideOthers,
    Quit,
    Minimize,
    Maximize,
    CloseWindow,
    Undo,
    Redo,
    Cut,
    Copy,
    Paste,
    SelectAll,
    Fullscreen,
}

impl View for MenuEntry {
    type V = EntryModel;

    open spec fn view(&self) -> EntryModel {
        match self {
            MenuEntry::Item { id, label, accelerator } => EntryModel::Item {
                id: id@,
                label: label@,
                accelerator: optional_text(*accelerator),
            },
            MenuEntry::About => EntryModel::About,
            MenuEntry::Separator => EntryModel::Separator,
            MenuEntry::Services => EntryModel::Services,
            MenuEntry::Hide => EntryModel::Hide,
            MenuEntry::HideOthers => EntryModel::HideOthers,
            MenuEntry::Quit => EntryModel::Quit,
            MenuEntry::Minimize => EntryModel::Minimize,
            MenuEntry::Maximize => EntryModel::Maximize,
            MenuEntry::CloseWindow => EntryModel::CloseWindow,
            MenuEntry::Undo => EntryModel::Undo,
            MenuEntry::Redo => EntryModel::Redo,
            MenuEntry::Cut => EntryModel::Cut,
            MenuEntry::Copy => EntryModel::Copy,
            MenuEntry::Paste => EntryModel::Paste,
            MenuEntry::SelectAll => EntryModel::SelectAll,
            MenuEntry::Fullscreen => EntryModel::Fullscreen,
        }
    }
}

/// What a submenu is to the system.
#[derive(Clone, Copy, Debug, PartialEq, Eq, Structural)]
pub enum SubmenuRole {
    Plain,
    Window,
    Help,
}

/// A submenu in the menu bar.
#[derive(Debug, PartialEq, Eq)]
pub struct SubmenuSpec {
    pub role: SubmenuRole,
    pub title: String,
    pub entries: Vec<MenuEntry>,
}

/// What a [`SubmenuSpec`] says.
pub struct SubmenuModel {
    pub role: SubmenuRole,
    pub title: Seq<char>,
    pub entries: Seq<EntryModel>,
}

/// What the entries of a menu say.
pub open spec fn entries_model(entries: Seq<MenuEntry>) -> Seq<EntryModel> {
    entries.map_values(|e: MenuEntry| e@)
}

impl View for SubmenuSpec {
    type V = SubmenuModel;

    open spec fn view(&self) -> SubmenuModel {
        SubmenuModel {
            role: self.role,
            title: self.title@,
            entries: entries_model(self.entries@),
        }
    }
}

/// What the submenus of a menu bar say.
pub open spec fn bar_model(bar: Seq<SubmenuSpec>) -> Seq<SubmenuModel> {
    bar.map_values(|s: SubmenuSpec| s@)
}

/// A submenu that the system has no role for.
pub open spec fn plain(title: Seq<char>, entries: Seq<EntryModel>) -> SubmenuModel {
    SubmenuModel { role: SubmenuRole::Plain, title, entries }
}

/// The submenu that bears the name of the program.
pub open spec fn program_menu(app_name: Seq<char>) -> SubmenuModel {
    plain(
        app_name,
        seq![
            EntryModel::About,
            EntryModel::Separator,
            EntryModel::Item {
                id: "app_settings"@,
                label: "Settings"@,
                accelerator: Some("CmdOrCtrl+,"@),
            },
            EntryModel::Separator,
            EntryModel::Services,
            EntryModel::Separator,
            EntryModel::Hide,
            EntryModel::HideOthers,
            EntryModel::Separator,
            EntryModel::Quit,
        ],
    )
}

/// The submenu for editing text.
pub open spec fn edit_menu() -> SubmenuModel {
    plain(
        "Edit"@,
        seq![
            EntryModel::Undo,
            EntryModel::Redo,
            EntryModel::Separator,
            EntryModel::Cut,
            EntryModel::Copy,
            EntryModel::Paste,
            EntryModel::SelectAll,
        ],
    )
}

/// The submenu for the windows.
pub open spec fn window_menu() -> SubmenuModel {
    SubmenuModel {
        role: SubmenuRole::Window,
        title: "Window"@,
        entries: seq![
            EntryModel::Minimize,
            EntryModel::Maximize,
            EntryModel::Separator,
            EntryModel::CloseWindow,
        ],
    }
}

/// The menu bar on macOS.
pub open spec fn menu_bar(app_name: Seq<char>) -> Seq<SubmenuModel> {
    seq![
        program_menu(app_name),
        plain("File"@, seq![EntryModel::CloseWindow]),
        edit_menu(),
        plain("View"@, seq![EntryModel::Fullscreen]),
        window_menu(),
        SubmenuModel { role: SubmenuRole::Help, title: "Help"@, entries: Seq::empty() },
    ]
}

fn item(id: &str, label: &str) -> (r: MenuEntry)
    ensures
        r@ == (EntryModel::Item { id: id@, label: label@, accelerator: None }),
{
    MenuEntry::Item { id: id.to_owned(), label: label.to_owned(), accelerator: None }
}

fn program_submenu(app_name: &str) -> (r: SubmenuSpec)
    ensures
        r@ == program_menu(app_name@),
{
    let mut entries: Vec<MenuEntry> = Vec::new();
    entries.push(MenuEntry::About);
    entries.push(MenuEntry::Separator);
    entries.push(
        MenuEntry::Item {
            id: "app_settings".to_owned(),
            label: "Settings".to_owned(),
            accelerator: Some("CmdOrCtrl+,".to_owned()),
        },
    );
    entries.push(MenuEntry::Separator);
    entries.push(MenuEntry::Services);
    entries.push(MenuEntry::Separator);
    entries.push(MenuEntry::Hide);
    entries.push(MenuEntry::HideOthers);
    entries.push(MenuEntry::Separator);
    entries.push(MenuEntry::Quit);
    assert(entries_model(entries@) =~= program_menu(app_name@).entries);
    SubmenuSpec { role: SubmenuRole::Plain, title: app_name.to_owned(), entries }
}

fn single_entry_submenu(title: &str, entry: MenuEntry) -> (r: SubmenuSpec)
    ensures
        r@ == plain(title@, seq![entry@]),
{
    let mut entries: Vec<MenuEntry> = Vec::new();
    entries.push(entry);
    assert(entries_model(entries@) =~= seq![entry@]);
    SubmenuSpec { role: SubmenuRole::Plain, title: title.to_owned(), entries }
}

fn edit_submenu() -> (r: SubmenuSpec)
    ensures
        r@ == edit_menu(),
{
    let mut entries: Vec<MenuEntry> = Vec::new();
    entries.push(MenuEntry::Undo);
    entries.push(MenuEntry::Redo);
    entries.push(MenuEntry::Separator);
    entries.push(MenuEntry::Cut);
    entries.push(MenuEntry::Copy);
    entries.push(MenuEntry::Paste);
    entries.push(MenuEntry::SelectAll);
    assert(entries_model(entries@) =~= edit_menu().entries);
    SubmenuSpec { role: SubmenuRole::Plain, title: "Edit".to_owned(), entries }
}

fn window_submenu() -> (r: SubmenuSpec)
    ensures
        r@ == window_menu(),
{
    let mut entries: Vec<MenuEntry> = Vec::new();
    entries.push(MenuEntry::Minimize);
    entries.push(MenuEntry::Maximize);
    entries.push(MenuEntry::Separator);
    entries.push(MenuEntry::CloseWindow);
    assert(entries_model(entries@) =~= window_menu().entries);
    SubmenuSpec { role: SubmenuRole::Window, title: "Window".to_owned(), entries }
}

/// Builds the menu bar on macOS for a program of that name.
pub fn build_macos_app_menu(app_name: &str) -> (r: Vec<SubmenuSpec>)
    ensures
        bar_model(r@) == menu_bar(app_name@),
{
    let none: Vec<MenuEntry> = Vec::new();
    assert(entries_model(none@) =~= Seq::<EntryModel>::empty());
    let help = SubmenuSpec { role: SubmenuRole::Help, title: "Help".to_owned(), entries: none };
    let mut bar: Vec<SubmenuSpec> = Vec::new();
    bar.push(program_submenu(app_name));
    bar.push(single_entry_submenu("File", MenuEntry::CloseWindow));
    bar.push(edit_submenu());
    bar.push(single_entry_submenu("View", MenuEntry::Fullscreen));
    bar.push(window_submenu());
    bar.push(help);
    assert(bar_model(bar@) =~= menu_bar(app_name@));
    bar
}

/// What the program says of itself.
#[derive(Debug, PartialEq, Eq)]
pub struct AboutInfo {
    pub name: String,
    pub version: String,
    pub copyright: Option<String>,
    pub authors: Option<Vec<String>>,
}

/// What the program says of itself: its publisher is its only author.
pub fn about_metadata(
    name: String,
    version: String,
    copyright: Option<String>,
    publisher: Option<String>,
) -> (r: AboutInfo)
    ensures
        r.name == name,
        r.version == version,
        r.copyright == copyright,
        match (publisher, r.authors) {
            (Some(p), Some(a)) => texts(a@) == seq![p@],
            (None, None) => true,
            _ => false,
        },
{
    let authors = match publisher {
        Some(p) => {
            let mut authors: Vec<String> = Vec::new();
            authors.push(p);
            assert(texts(authors@) =~= seq![p@]);
            Some(authors)
        },
        None => None,
    };
    AboutInfo { name, version, copyright, authors }
}

/// An item of the tray menu.
pub open spec fn tray_item(id: Seq<char>, label: Seq<char>) -> EntryModel {
    EntryModel::Item { id, label, accelerator: None }
}

/// The menu of the tray icon.
pub open spec fn tray_entries() -> Seq<EntryModel> {
    seq![
        tray_item("open"@, "Open BigEcho"@),
        tray_item("recorder"@, "Recorder"@),
        tray_item("toggle"@, "Show/Hide BigEcho"@),
        tray_item("start"@, "Start Recording"@),
        tray_item("stop"@, "Stop Recording"@),
        tray_item("settings"@, "Settings"@),
        tray_item("quit"@, "Quit"@),
    ]
}

/// Builds the menu of the tray icon.
pub fn build_tray_menu() -> (r: Vec<MenuEntry>)
    ensures
        entries_model(r@) == tray_entries(),
{
    let mut entries: Vec<MenuEntry> = Vec::new();
    entries.push(item("open", "Open BigEcho"));
    entries.push(item("recorder", "Recorder"));
    entries.push(item("toggle", "Show/Hide BigEcho"));
    entries.push(item("start", "Start Recording"));
    entries.push(item("stop", "Stop Recording"));
    entries.push(item("settings", "Settings"));
    entries.push(item("quit", "Quit"));
    assert(entries_model(entries@) =~= tray_entries());
    entries
}

/// What the item of the tray menu with an identifier does.
pub open spec fn tray_menu_steps(id: Seq<char>) -> Seq<StepModel<ShellTask>> {
    if id == "open"@ {
        seq![may(ShellTask::FocusMain)]
    } else if id == "toggle"@ {
        seq![may(ShellTask::ToggleMain)]
    } else if id == "recorder"@ {
        seq![may(ShellTask::OpenTray)]
    } else if id == "start"@ {
        seq![may(ShellTask::FocusMain), may(ShellTask::Emit(TrayEvent::Start))]
    } else if id == "stop"@ {
        stopping_steps()
    } else if id == "settings"@ {
        seq![may(ShellTask::OpenSettings)]
    } else if id == "quit"@ {
        seq![may(ShellTask::Exit)]
    } else {
        Seq::empty()
    }
}

/// What follows on a click on an item of the tray menu.
pub fn on_tray_menu(id: &str) -> (r: ShellScript)
    ensures
        r@ == doing(tray_menu_steps(id@)),
{
    let mut steps: Vec<Step<ShellTask>> = Vec::new();
    if *id == *"open" {
        attempt(&mut steps, ShellTask::FocusMain);
    } else if *id == *"toggle" {
        attempt(&mut steps, ShellTask::ToggleMain);
    } else if *id == *"recorder" {
        attempt(&mut steps, ShellTask::OpenTray);
    } else if *id == *"start" {
        attempt(&mut steps, ShellTask::FocusMain);
        attempt(&mut steps, ShellTask::Emit(TrayEvent::Start));
    } else if *id == *"stop" {
        attempt(&mut steps, ShellTask::Emit(TrayEvent::Stop));
        attempt(&mut steps, ShellTask::StopActiveRecording);
    } else if *id == *"settings" {
        attempt(&mut steps, ShellTask::OpenSettings);
    } else if *id == *"quit" {
        attempt(&mut steps, ShellTask::Exit);
    }
    assert(steps_model(steps@) =~= tray_menu_steps(id@));
    Script { steps, goal: Goal::Finish(Ok(())) }
}

/// What follows on a click on an item of the menu bar.
pub fn on_app_menu(id: &str) -> (r: ShellScript)
    ensures
        r@ == if id@ == "app_settings"@ {
            doing(seq![may(ShellTask::OpenSettings)])
        } else {
            idle()
        },
{
    let mut steps: Vec<Step<ShellTask>> = Vec::new();
    if *id == *"app_settings" {
        attempt(&mut steps, ShellTask::OpenSettings);
        assert(steps_model(steps@) =~= seq![may(ShellTask::OpenSettings)]);
    } else {
        assert(steps_model(steps@) =~= Seq::<StepModel<ShellTask>>::empty());
    }
    Script { steps, goal: Goal::Finish(Ok(())) }
}

/// Every item of the tray menu does something, and no two of them have the same identifier.
pub proof fn every_tray_item_does_something_of_its_own(i: int, j: int)
    requires
        0 <= i < tray_entries().len(),
        0 <= j < tray_entries().len(),
        i != j,
    ensures
        tray_entries()[i] is Item,
        tray_menu_steps(tray_entries()[i]->id).len() > 0,
        tray_entries()[i]->id != tray_entries()[j]->id,
{
    reveal_strlit("open");
    reveal_strlit("recorder");
    reveal_strlit("toggle");
    reveal_strlit("start");
    reveal_strlit("stop");
    reveal_strlit("settings");
    reveal_strlit("quit");
    assert("start"@[2] != "stop"@[2]);
    assert("open"@[0] != "stop"@[0]);
    assert("open"@[0] != "quit"@[0]);
    assert("stop"@[0] != "quit"@[0]);
    assert("recorder"@[0] != "settings"@[0]);
}

/// What an item of the tray menu does goes by its identifier, and nothing that comes of it keeps the
/// rest from being done. An identifier that no item has does nothing.
pub proof fn every_tray_item_does_what_it_says(
    id: Seq<char>,
    answer: spec_fn(ShellTask) -> Result<(), Seq<char>>,
)
    ensures
        ({
            let done = doing(tray_menu_steps(id)).attempted(answer);
            &&& id == "open"@ ==> done == seq![ShellTask::FocusMain]
            &&& id == "toggle"@ ==> done == seq![ShellTask::ToggleMain]
            &&& id == "recorder"@ ==> done == seq![ShellTask::OpenTray]
            &&& id == "start"@ ==> done == seq![
                ShellTask::FocusMain,
                ShellTask::Emit(TrayEvent::Start),
            ]
            &&& id == "stop"@ ==> done == seq![
                ShellTask::Emit(TrayEvent::Stop),
                ShellTask::StopActiveRecording,
            ]
            &&& id == "settings"@ ==> done == seq![ShellTask::OpenSettings]
            &&& id == "quit"@ ==> done == seq![ShellTask::Exit]
            &&& id != "open"@ && id != "toggle"@ && id != "recorder"@ && id != "start"@ && id
                != "stop"@ && id != "settings"@ && id != "quit"@ ==> done == Seq::<
                ShellTask,
            >::empty()
            &&& doing(tray_menu_steps(id)).carried_out(answer).is_over(Ok(()))
        }),
{
    reveal_strlit("open");
    reveal_strlit("recorder");
    reveal_strlit("toggle");
    reveal_strlit("start");
    reveal_strlit("stop");
    reveal_strlit("settings");
    reveal_strlit("quit");
    assert("start"@[2] != "stop"@[2]);
    assert("open"@[0] != "stop"@[0]);
    assert("open"@[0] != "quit"@[0]);
    assert("stop"@[0] != "quit"@[0]);
    assert("recorder"@[0] != "settings"@[0]);
    let script = doing(tray_menu_steps(id));
    a_script_that_goes_through_reaches_its_goal(script, answer);
    let tasks = script.tasks();
    if id == "open"@ {
        assert(tasks =~= seq![ShellTask::FocusMain]);
    } else if id == "toggle"@ {
        assert(tasks =~= seq![ShellTask::ToggleMain]);
    } else if id == "recorder"@ {
        assert(tasks =~= seq![ShellTask::OpenTray]);
    } else if id == "start"@ {
        assert(tasks =~= seq![ShellTask::FocusMain, ShellTask::Emit(TrayEvent::Start)]);
    } else if id == "stop"@ {
        assert(tasks =~= seq![ShellTask::Emit(TrayEvent::Stop), ShellTask::StopActiveRecording]);
    } else if id == "settings"@ {
        assert(tasks =~= seq![ShellTask::OpenSettings]);
    } else if id == "quit"@ {
        assert(tasks =~= seq![ShellTask::Exit]);
    } else {
        assert(tasks =~= Seq::<ShellTask>::empty());
    }
}

/// The tray menu offers seven items, in their order, none of them with keys of its own.
pub proof fn the_tray_menu_has_its_items()
    ensures
        ({
            let item = |id: Seq<char>, label: Seq<char>|
                EntryModel::Item { id, label, accelerator: None };
            tray_entries() == seq![
                item("open"@, "Open BigEcho"@),
                item("recorder"@, "Recorder"@),
                item("toggle"@, "Show/Hide BigEcho"@),
                item("start"@, "Start Recording"@),
                item("stop"@, "Stop Recording"@),
                item("settings"@, "Settings"@),
                item("quit"@, "Quit"@),
            ]
        }),
{
    let item = |id: Seq<char>, label: Seq<char>| EntryModel::Item { id, label, accelerator: None };
    assert(tray_entries() =~= seq![
        item("open"@, "Open BigEcho"@),
        item("recorder"@, "Recorder"@),
        item("toggle"@, "Show/Hide BigEcho"@),
        item("start"@, "Start Recording"@),
        item("stop"@, "Stop Recording"@),
        item("settings"@, "Settings"@),
        item("quit"@, "Quit"@),
    ]);
}

/// The menu bar has six submenus, whose titles, but for the name of the program on the first, do not
/// depend on the program, nor do their entries; the last two have a role of their own.
pub proof fn the_menu_bar_has_its_submenus(app_name: Seq<char>)
    ensures
        menu_bar(app_name).map_values(|m: SubmenuModel| m.title) == seq![
            app_name,
            "File"@,
            "Edit"@,
            "View"@,
            "Window"@,
            "Help"@,
        ],
        menu_bar(app_name).map_values(|m: SubmenuModel| m.role) == seq![
            SubmenuRole::Plain,
            SubmenuRole::Plain,
            SubmenuRole::Plain,
            SubmenuRole::Plain,
            SubmenuRole::Window,
            SubmenuRole::Help,
        ],
        menu_bar(app_name).map_values(|m: SubmenuModel| m.entries) == seq![
            seq![
                EntryModel::About,
                EntryModel::Separator,
                EntryModel::Item {
                    id: "app_settings"@,
                    label: "Settings"@,
                    accelerator: Some("CmdOrCtrl+,"@),
                },
                EntryModel::Separator,
                EntryModel::Services,
                EntryModel::Separator,
                EntryModel::Hide,
                EntryModel::HideOthers,
                EntryModel::Separator,
                EntryModel::Quit,
            ],
            seq![EntryModel::CloseWindow],
            seq![
                EntryModel::Undo,
                EntryModel::Redo,
                EntryModel::Separator,
                EntryModel::Cut,
                EntryModel::Copy,
                EntryModel::Paste,
                EntryModel::SelectAll,
            ],
            seq![EntryModel::Fullscreen],
            seq![
                EntryModel::Minimize,
                EntryModel::Maximize,
                EntryModel::Separator,
                EntryModel::CloseWindow,
            ],
            Seq::<EntryModel>::empty(),
        ],
{
    let bar = menu_bar(app_name);
    assert(bar.map_values(|m: SubmenuModel| m.title) =~= seq![
        app_name,
        "File"@,
        "Edit"@,
        "View"@,
        "Window"@,
        "Help"@,
    ]);
    assert(bar.map_values(|m: SubmenuModel| m.role) =~= seq![
        SubmenuRole::Plain,
        SubmenuRole::Plain,
        SubmenuRole::Plain,
        SubmenuRole::Plain,
        SubmenuRole::Window,
        SubmenuRole::Help,
    ]);
    assert(bar.map_values(|m: SubmenuModel| m.entries) =~= seq![
        seq![
            EntryModel::About,
            EntryModel::Separator,
            EntryModel::Item {
                id: "app_settings"@,
                label: "Settings"@,
                accelerator: Some("CmdOrCtrl+,"@),
            },
            EntryModel::Separator,
            EntryModel::Services,
            EntryModel::Separator,
            EntryModel::Hide,
            EntryModel::HideOthers,
            EntryModel::Separator,
            EntryModel::Quit,
        ],
        seq![EntryModel::CloseWindow],
        seq![
            EntryModel::Undo,
            EntryModel::Redo,
            EntryModel::Separator,
            EntryModel::Cut,
            EntryModel::Copy,
            EntryModel::Paste,
            EntryModel::SelectAll,
        ],
        seq![EntryModel::Fullscreen],
        seq![
            EntryModel::Minimize,
            EntryModel::Maximize,
            EntryModel::Separator,
            EntryModel::CloseWindow,
        ],
        Seq::<EntryModel>::empty(),
    ]);
}

} // verus!
