//! Declarative description of the session's fixed menu tree.
//!
//! The menu is built once at startup and never rebuilt: an
//! application-identity submenu, a File submenu, an Edit submenu and a View
//! submenu. Platform-native default actions (about, hide, quit, undo, …)
//! are described by [`NativeItem`] and handled by the host; each custom
//! actionable leaf carries a stable identifier — the join key the dispatcher
//! uses — and, where applicable, a keyboard accelerator. The host-facing
//! realization of this description (actual widgets) lives outside the crate.

use vstd::prelude::*;
use crate::dispatch::is_dispatched_id;

verus! {

/// A platform-native default menu action, rendered and handled by the host;
/// its activation never reaches the dispatcher.
#[derive(Clone, Copy, Debug, PartialEq, Eq, Structural)]
pub enum NativeItem {
    About,
    Hide,
    HideOthers,
    ShowAll,
    Quit,
    CloseWindow,
    Undo,
    Redo,
    Cut,
    Copy,
    Paste,
    SelectAll,
}

/// One entry of a submenu: a custom actionable leaf, a separator, or a
/// platform-native default item.
pub enum MenuEntry {
    Action { identifier: String, label: String, accelerator: Option<String> },
    Separator,
    Native(NativeItem),
}

/// Abstract value of a [`MenuEntry`].
#[verifier::ext_equal]
pub enum MenuEntryView {
    Action { identifier: Seq<char>, label: Seq<char>, accelerator: Option<Seq<char>> },
    Separator,
    Native(NativeItem),
}

impl View for MenuEntry {
    type V = MenuEntryView;

    open spec fn view(&self) -> MenuEntryView {
        match self {
            MenuEntry::Action { identifier, label, accelerator } => MenuEntryView::Action {
                identifier: identifier@,
                label: label@,
                accelerator: match accelerator {
                    Some(a) => Some(a@),
                    None => None,
                },
            },
            MenuEntry::Separator => MenuEntryView::Separator,
            MenuEntry::Native(item) => MenuEntryView::Native(*item),
        }
    }
}

/// One titled submenu of the menu bar.
pub struct Submenu {
    pub title: String,
    pub entries: Vec<MenuEntry>,
}

/// Abstract value of a [`Submenu`].
#[verifier::ext_equal]
pub struct SubmenuView {
    pub title: Seq<char>,
    pub entries: Seq<MenuEntryView>,
}

impl View for Submenu {
    type V = SubmenuView;

    open spec fn view(&self) -> SubmenuView {
        SubmenuView {
            title: self.title@,
            entries: self.entries@.map_values(|e: MenuEntry| e@),
        }
    }
}

/// The whole menu bar: the session's submenus in display order.
pub struct MenuSpec {
    pub submenus: Vec<Submenu>,
}

/// Abstract value of a [`MenuSpec`].
#[verifier::ext_equal]
pub struct MenuSpecView {
    pub submenus: Seq<SubmenuView>,
}

impl View for MenuSpec {
    type V = MenuSpecView;

    open spec fn view(&self) -> MenuSpecView {
        MenuSpecView { submenus: self.submenus@.map_values(|s: Submenu| s@) }
    }
}

/// The application-identity submenu (on hosts where the first submenu
/// becomes the application menu).
pub open spec fn app_submenu_view() -> SubmenuView {
    SubmenuView {
        title: "md-viewer"@,
        entries: seq![
            MenuEntryView::Native(NativeItem::About),
            MenuEntryView::Separator,
            MenuEntryView::Native(NativeItem::Hide),
            MenuEntryView::Native(NativeItem::HideOthers),
            MenuEntryView::Native(NativeItem::ShowAll),
            MenuEntryView::Separator,
            MenuEntryView::Native(NativeItem::Quit),
        ],
    }
}

/// The File submenu: the Open… action and the native close-window item.
pub open spec fn file_submenu_view() -> SubmenuView {
    SubmenuView {
        title: "File"@,
        entries: seq![
            (MenuEntryView::Action {
                identifier: "open-file"@,
                label: "Open…"@,
                accelerator: Some("CmdOrCtrl+O"@),
            }),
            MenuEntryView::Separator,
            MenuEntryView::Native(NativeItem::CloseWindow),
        ],
    }
}

/// The Edit submenu: standard text-editing actions, delegated to the host's
/// native text handling.
pub open spec fn edit_submenu_view() -> SubmenuView {
    SubmenuView {
        title: "Edit"@,
        entries: seq![
            MenuEntryView::Native(NativeItem::Undo),
            MenuEntryView::Native(NativeItem::Redo),
            MenuEntryView::Separator,
            MenuEntryView::Native(NativeItem::Cut),
            MenuEntryView::Native(NativeItem::Copy),
            MenuEntryView::Native(NativeItem::Paste),
            MenuEntryView::Native(NativeItem::SelectAll),
        ],
    }
}

/// The View submenu: zoom actions and the theme toggle.
pub open spec fn view_submenu_view() -> SubmenuView {
    SubmenuView {
        title: "View"@,
        entries: seq![
            (MenuEntryView::Action {
                identifier: "zoom-in"@,
                label: "Zoom In"@,
                accelerator: Some("CmdOrCtrl+="@),
            }),
            (MenuEntryView::Action {
                identifier: "zoom-out"@,
                label: "Zoom Out"@,
                accelerator: Some("CmdOrCtrl+-"@),
            }),
            (MenuEntryView::Action {
                identifier: "zoom-reset"@,
                label: "Actual Size"@,
                accelerator: Some("CmdOrCtrl+0"@),
            }),
            MenuEntryView::Separator,
            (MenuEntryView::Action {
                identifier: "toggle-theme"@,
                label: "Toggle Dark Mode"@,
                accelerator: Some("CmdOrCtrl+Shift+T"@),
            }),
        ],
    }
}

/// The whole session menu.
pub open spec fn menu_spec_view() -> MenuSpecView {
    MenuSpecView {
        submenus: seq![
            app_submenu_view(),
            file_submenu_view(),
            edit_submenu_view(),
            view_submenu_view(),
        ],
    }
}

/// Builds one custom actionable leaf.
fn action_entry(identifier: &str, label: &str, accelerator: Option<&str>) -> (e: MenuEntry)
    ensures
        e@ == (MenuEntryView::Action {
            identifier: identifier@,
            label: label@,
            accelerator: match accelerator {
                Some(a) => Some(a@),
                None => None,
            },
        }),
{
    MenuEntry::Action {
        identifier: identifier.to_owned(),
        label: label.to_owned(),
        accelerator: match accelerator {
            Some(a) => Some(a.to_owned()),
            None => None,
        },
    }
}

/// Builds the application-identity submenu.
pub fn app_submenu() -> (s: Submenu)
    ensures
        s@ == app_submenu_view(),
{
    let mut entries: Vec<MenuEntry> = Vec::new();
    entries.push(MenuEntry::Native(NativeItem::About));
    entries.push(MenuEntry::Separator);
    entries.push(MenuEntry::Native(NativeItem::Hide));
    entries.push(MenuEntry::Native(NativeItem::HideOthers));
    entries.push(MenuEntry::Native(NativeItem::ShowAll));
    entries.push(MenuEntry::Separator);
    entries.push(MenuEntry::Native(NativeItem::Quit));
    let s = Submenu { title: "md-viewer".to_owned(), entries };
    proof {
        assert(s@ =~= app_submenu_view());
    }
    s
}

/// Builds the File submenu.
pub fn file_submenu() -> (s: Submenu)
    ensures
        s@ == file_submenu_view(),
{
    let mut entries: Vec<MenuEntry> = Vec::new();
    entries.push(action_entry("open-file", "Open…", Some("CmdOrCtrl+O")));
    entries.push(MenuEntry::Separator);
    entries.push(MenuEntry::Native(NativeItem::CloseWindow));
    let s = Submenu { title: "File".to_owned(), entries };
    proof {
        assert(s@ =~= file_submenu_view());
    }
    s
}

/// Builds the Edit submenu.
pub fn edit_submenu() -> (s: Submenu)
    ensures
        s@ == edit_submenu_view(),
{
    let mut entries: Vec<MenuEntry> = Vec::new();
    entries.push(MenuEntry::Native(NativeItem::Undo));
    entries.push(MenuEntry::Native(NativeItem::Redo));
    entries.push(MenuEntry::Separator);
    entries.push(MenuEntry::Native(NativeItem::Cut));
    entries.push(MenuEntry::Native(NativeItem::Copy));
    entries.push(MenuEntry::Native(NativeItem::Paste));
    entries.push(MenuEntry::Native(NativeItem::SelectAll));
    let s = Submenu { title: "Edit".to_owned(), entries };
    proof {
        assert(s@ =~= edit_submenu_view());
    }
    s
}

/// Builds the View submenu.
pub fn view_submenu() -> (s: Submenu)
    ensures
        s@ == view_submenu_view(),
{
    let mut entries: Vec<MenuEntry> = Vec::new();
    entries.push(action_entry("zoom-in", "Zoom In", Some("CmdOrCtrl+=")));
    entries.push(action_entry("zoom-out", "Zoom Out", Some("CmdOrCtrl+-")));
    entries.push(action_entry("zoom-reset", "Actual Size", Some("CmdOrCtrl+0")));
    entries.push(MenuEntry::Separator);
    entries.push(action_entry("toggle-theme", "Toggle Dark Mode", Some("CmdOrCtrl+Shift+T")));
    let s = Submenu { title: "View".to_owned(), entries };
    proof {
        assert(s@ =~= view_submenu_view());
    }
    s
}

/// Builds the session's whole menu tree. Construction cannot fail; a host
/// that cannot bind the result treats that as a fatal startup error, since
/// on some platforms the menu is the only way to trigger "Open".
pub fn build_menu_spec() -> (m: MenuSpec)
    ensures
        m@ == menu_spec_view(),
{
    let mut submenus: Vec<Submenu> = Vec::new();
    submenus.push(app_submenu());
    submenus.push(file_submenu());
    submenus.push(edit_submenu());
    submenus.push(view_submenu());
    let m = MenuSpec { submenus };
    proof {
        assert(m@ =~= menu_spec_view());
    }
    m
}

/// True when `e` is an actionable leaf bearing `id`.
pub open spec fn entry_has_id(e: MenuEntryView, id: Seq<char>) -> bool {
    match e {
        MenuEntryView::Action { identifier, .. } => identifier == id,
        _ => false,
    }
}

/// How many entries of `es` are actionable leaves bearing `id`.
pub open spec fn count_in_entries(es: Seq<MenuEntryView>, id: Seq<char>) -> nat
    decreases es.len(),
{
    if es.len() == 0 {
        0
    } else {
        count_in_entries(es.drop_last(), id) + (if entry_has_id(es.last(), id) {
            1nat
        } else {
            0nat
        })
    }
}

/// How many actionable leaves across `ss` bear `id`.
pub open spec fn count_in_submenus(ss: Seq<SubmenuView>, id: Seq<char>) -> nat
    decreases ss.len(),
{
    if ss.len() == 0 {
        0
    } else {
        count_in_submenus(ss.drop_last(), id) + count_in_entries(ss.last().entries, id)
    }
}

/// How many actionable leaves of the menu bear `id`.
pub open spec fn count_in_menu(m: MenuSpecView, id: Seq<char>) -> nat {
    count_in_submenus(m.submenus, id)
}

/// Every identifier the dispatcher owns names exactly one actionable leaf of
/// the session menu: the join between menu and dispatcher is total and
/// unambiguous.
pub proof fn lemma_dispatched_ids_unique_in_menu(id: Seq<char>)
    requires
        is_dispatched_id(id),
    ensures
        count_in_menu(menu_spec_view(), id) == 1,
{
    reveal_strlit("open-file");
    reveal_strlit("zoom-in");
    reveal_strlit("zoom-out");
    reveal_strlit("zoom-reset");
    reveal_strlit("toggle-theme");
    assert("open-file"@.len() == 9);
    assert("zoom-in"@.len() == 7);
    assert("zoom-out"@.len() == 8);
    assert("zoom-reset"@.len() == 10);
    assert("toggle-theme"@.len() == 12);
    reveal_with_fuel(count_in_entries, 9);
    reveal_with_fuel(count_in_submenus, 6);
    assert(count_in_entries(app_submenu_view().entries, id) == 0);
    assert(count_in_entries(edit_submenu_view().entries, id) == 0);
    if id == "open-file"@ {
        assert(count_in_entries(file_submenu_view().entries, id) == 1);
        assert(count_in_entries(view_submenu_view().entries, id) == 0);
    } else {
        assert(count_in_entries(file_submenu_view().entries, id) == 0);
        assert(count_in_entries(view_submenu_view().entries, id) == 1);
    }
}

} // verus!
