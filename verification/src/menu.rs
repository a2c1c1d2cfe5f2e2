use vstd::prelude::*;
use vstd::string::StringExecFns;

verus! {

/// One entry of a menu: a predefined item supplied by the host window
/// manager, a separator, or an application item with its own identifier.
#[derive(Debug)]
pub enum MenuEntry {
    About,
    Services,
    HideApp,
    HideOthers,
    ShowAll,
    Quit,
    Minimize,
    CloseWindow,
    Separator,
    Custom { id: String, label: String, enabled: bool, accelerator: Option<String> },
}

/// A titled submenu and its entries, in order.
#[derive(Debug)]
pub struct SubmenuModel {
    pub title: String,
    pub enabled: bool,
    pub entries: Vec<MenuEntry>,
}

/// The application's whole menu bar: its submenus, in order.
#[derive(Debug)]
pub struct MenuModel {
    pub submenus: Vec<SubmenuModel>,
}

/// The identifiers under which application menu items are dispatched.
pub open spec fn menu_id_open_info() -> Seq<char> {
    "open_hc3_info"@
}

pub open spec fn menu_id_check_updates() -> Seq<char> {
    "check_for_updates"@
}

pub open spec fn menu_id_toggle_devtools() -> Seq<char> {
    "toggle_devtools"@
}

/// An enabled application item with the given identifier and label, and
/// the given accelerator or none.
pub open spec fn is_custom_entry(
    e: MenuEntry,
    id: Seq<char>,
    label: Seq<char>,
    accel: Option<Seq<char>>,
) -> bool {
    &&& e matches MenuEntry::Custom { id: i, label: l, enabled, accelerator: a }
    &&& i@ == id
    &&& l@ == label
    &&& enabled
    &&& match accel {
        Some(keys) => a matches Some(held) && held@ == keys,
        None => a is None,
    }
}

/// The Window submenu: the informational-window item, the
/// developer-tools toggle with its shortcut, then the predefined window
/// controls.
pub open spec fn window_submenu_wf(s: SubmenuModel) -> bool {
    &&& s.title@ == "Window"@
    &&& s.enabled
    &&& s.entries@.len() == 5
    &&& is_custom_entry(s.entries@[0], menu_id_open_info(), "HC3 System Info"@, None)
    &&& is_custom_entry(
        s.entries@[1],
        menu_id_toggle_devtools(),
        "Toggle Developer Tools"@,
        Some("CmdOrCtrl+Shift+I"@),
    )
    &&& s.entries@[2] is Separator
    &&& s.entries@[3] is Minimize
    &&& s.entries@[4] is CloseWindow
}

/// The application submenu: about, the update-check item, then the
/// predefined services / hide / quit block.
pub open spec fn app_submenu_wf(s: SubmenuModel) -> bool {
    &&& s.title@ == "HC3 Event Logger"@
    &&& s.enabled
    &&& s.entries@.len() == 10
    &&& s.entries@[0] is About
    &&& is_custom_entry(s.entries@[1], menu_id_check_updates(), "Check for Updates..."@, None)
    &&& s.entries@[2] is Separator
    &&& s.entries@[3] is Services
    &&& s.entries@[4] is Separator
    &&& s.entries@[5] is HideApp
    &&& s.entries@[6] is HideOthers
    &&& s.entries@[7] is ShowAll
    &&& s.entries@[8] is Separator
    &&& s.entries@[9] is Quit
}

/// The whole menu bar: the application submenu, then the Window submenu.
pub open spec fn main_menu_wf(m: MenuModel) -> bool {
    &&& m.submenus@.len() == 2
    &&& app_submenu_wf(m.submenus@[0])
    &&& window_submenu_wf(m.submenus@[1])
}

fn custom_entry(id: &str, label: &str, accelerator: Option<String>) -> (e: MenuEntry)
    ensures
        is_custom_entry(
            e,
            id@,
            label@,
            match accelerator {
                Some(keys) => Some(keys@),
                None => None,
            },
        ),
{
    MenuEntry::Custom {
        id: String::from_str(id),
        label: String::from_str(label),
        enabled: true,
        accelerator,
    }
}

/// Builds the Window submenu.
pub fn build_window_submenu() -> (s: SubmenuModel)
    ensures
        window_submenu_wf(s),
{
    let mut entries: Vec<MenuEntry> = Vec::new();
    entries.push(custom_entry("open_hc3_info", "HC3 System Info", None));
    entries.push(
        custom_entry(
            "toggle_devtools",
            "Toggle Developer Tools",
            Some(String::from_str("CmdOrCtrl+Shift+I")),
        ),
    );
    entries.push(MenuEntry::Separator);
    entries.push(MenuEntry::Minimize);
    entries.push(MenuEntry::CloseWindow);
    SubmenuModel { title: String::from_str("Window"), enabled: true, entries }
}

/// Builds the application submenu.
pub fn build_app_submenu() -> (s: SubmenuModel)
    ensures
        app_submenu_wf(s),
{
    let mut entries: Vec<MenuEntry> = Vec::new();
    entries.push(MenuEntry::About);
    entries.push(custom_entry("check_for_updates", "Check for Updates...", None));
    entries.push(MenuEntry::Separator);
    entries.push(MenuEntry::Services);
    entries.push(MenuEntry::Separator);
    entries.push(MenuEntry::HideApp);
    entries.push(MenuEntry::HideOthers);
    entries.push(MenuEntry::ShowAll);
    entries.push(MenuEntry::Separator);
    entries.push(MenuEntry::Quit);
    SubmenuModel { title: String::from_str("HC3 Event Logger"), enabled: true, entries }
}

/// Builds the menu bar registered at startup: a static, declarative
/// tree, assembled once.
pub fn build_main_menu() -> (m: MenuModel)
    ensures
        main_menu_wf(m),
{
    let mut submenus: Vec<SubmenuModel> = Vec::new();
    submenus.push(build_app_submenu());
    submenus.push(build_window_submenu());
    MenuModel { submenus }
}

} // verus!
