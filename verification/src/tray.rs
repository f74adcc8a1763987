//! The tray menu: which entries it shows, and what a click on one means.

use crate::bridge::Issue;
use crate::display::{
    format_issue_label, format_running_label, issue_label_of, issue_menu_id, running_label_of,
    ISSUE_MENU_PREFIX,
};
use crate::text::{
    append_str, chars_of, decimal_of, opt_text, push_decimal, slice_chars, starts_with,
    starts_with_chars, str_eq, string_of,
};
use crate::timer::TimerState;
use vstd::prelude::*;

verus! {

/// Id of the tray icon.
pub const TRAY_ID: &'static str = "YTracker";

/// Id of the entry that stops the timer.
pub const MENU_STOP_ID: &'static str = "tray_stop_timer";

/// Id of the entry that fetches the issues again.
pub const MENU_REFRESH_ID: &'static str = "tray_refresh";

/// Id of the label of a running timer.
pub const MENU_RUNNING_LABEL_ID: &'static str = "tray_running_label";

/// Id of the label of an idle timer.
pub const MENU_IDLE_LABEL_ID: &'static str = "tray_idle_label";

/// Id of the entry shown where there are no issues.
pub const MENU_NO_ISSUES_ID: &'static str = "tray_no_issues";

/// Id of the entry that tells how many issues are not shown.
pub const MENU_MORE_ISSUES_ID: &'static str = "tray_more_issues";

/// Id of the submenu that starts the timer.
pub const MENU_START_SUBMENU_ID: &'static str = "tray_start_submenu";

/// Id of the entry that shows the window.
pub const MENU_SHOW_ID: &'static str = "show";

/// Id of the entry that quits.
pub const MENU_QUIT_ID: &'static str = "quit";

/// Most issues shown in the submenu.
pub const MAX_TRAY_ISSUES: usize = 12;

/// An entry that can be clicked, or a label.
#[derive(Debug)]
pub struct TrayItem {
    pub id: String,
    pub label: String,
    pub enabled: bool,
}

/// An entry of the tray menu.
#[derive(Debug)]
pub enum TrayEntry {
    Item(TrayItem),
    Separator,
    Submenu { id: String, label: String, items: Vec<TrayItem> },
}

/// The content of an entry that can be clicked, or of a label.
pub struct ItemModel {
    pub id: Seq<char>,
    pub label: Seq<char>,
    pub enabled: bool,
}

/// The content of an entry of the tray menu.
pub enum EntryModel {
    Item(ItemModel),
    Separator,
    Submenu { id: Seq<char>, label: Seq<char>, items: Seq<ItemModel> },
}

impl View for TrayItem {
    type V = ItemModel;

    open spec fn view(&self) -> ItemModel {
        ItemModel { id: self.id@, label: self.label@, enabled: self.enabled }
    }
}

/// The contents of a sequence of items.
pub open spec fn items_of(items: Seq<TrayItem>) -> Seq<ItemModel> {
    Seq::new(items.len(), |i: int| items[i]@)
}

impl View for TrayEntry {
    type V = EntryModel;

    open spec fn view(&self) -> EntryModel {
        match self {
            TrayEntry::Item(item) => EntryModel::Item(item@),
            TrayEntry::Separator => EntryModel::Separator,
            TrayEntry::Submenu { id, label, items } => EntryModel::Submenu {
                id: id@,
                label: label@,
                items: items_of(items@),
            },
        }
    }
}

/// The contents of a sequence of entries.
pub open spec fn entries_of(entries: Seq<TrayEntry>) -> Seq<EntryModel> {
    Seq::new(entries.len(), |i: int| entries[i]@)
}

/// An item with the given content.
pub open spec fn item_of(id: Seq<char>, label: Seq<char>, enabled: bool) -> EntryModel {
    EntryModel::Item(ItemModel { id, label, enabled })
}

/// The entry that starts the timer for an issue. It is disabled for the
/// issue that the timer tracks.
pub open spec fn issue_item_of(issue: Issue, state: TimerState) -> ItemModel {
    ItemModel {
        id: ISSUE_MENU_PREFIX@ + issue.key@,
        label: issue_label_of(issue.key@, issue.summary@),
        enabled: opt_text(state.issue_key) != Some(issue.key@),
    }
}

/// The label that tells how many issues are not shown.
pub open spec fn more_label_of(extra: nat) -> Seq<char> {
    "+"@ + decimal_of(extra) + " more issues…"@
}

/// The entries of the submenu: one for each of the first 12 issues, and one
/// that tells how many issues are left where there are more.
pub open spec fn issue_items_of(issues: Seq<Issue>, state: TimerState) -> Seq<ItemModel> {
    let shown = if issues.len() > 12 {
        12
    } else {
        issues.len() as int
    };
    let items = Seq::new(shown as nat, |i: int| issue_item_of(issues[i], state));
    if issues.len() > 12 {
        items.push(
            ItemModel {
                id: MENU_MORE_ISSUES_ID@,
                label: more_label_of((issues.len() - 12) as nat),
                enabled: false,
            },
        )
    } else {
        items
    }
}

/// The tray menu: the state of the timer, with an entry that stops a running
/// timer; the issues to start the timer for; and the entries that refresh,
/// show and quit.
pub open spec fn tray_menu_of(issues: Seq<Issue>, state: TimerState) -> Seq<EntryModel> {
    let head = if state.active {
        seq![
            item_of(MENU_RUNNING_LABEL_ID@, running_label_of(state), false),
            item_of(MENU_STOP_ID@, "Stop Timer"@, true),
        ]
    } else {
        seq![item_of(MENU_IDLE_LABEL_ID@, "Timer idle"@, false)]
    };
    let middle = if issues.len() == 0 {
        item_of(MENU_NO_ISSUES_ID@, "No issues found"@, false)
    } else {
        EntryModel::Submenu {
            id: MENU_START_SUBMENU_ID@,
            label: "Start Timer"@,
            items: issue_items_of(issues, state),
        }
    };
    head + seq![
        EntryModel::Separator,
        middle,
        item_of(MENU_REFRESH_ID@, "Refresh Issues"@, true),
        EntryModel::Separator,
        item_of(MENU_SHOW_ID@, "Show"@, true),
        item_of(MENU_QUIT_ID@, "Quit"@, true),
    ]
}

/// An item with the given content.
fn item(id: &str, label: &str, enabled: bool) -> (entry: TrayEntry)
    ensures
        entry@ == item_of(id@, label@, enabled),
{
    TrayEntry::Item(TrayItem { id: id.to_owned(), label: label.to_owned(), enabled })
}

/// The entries of the submenu.
fn issue_items(issues: &Vec<Issue>, state: &TimerState) -> (items: Vec<TrayItem>)
    ensures
        items_of(items@) == issue_items_of(issues@, *state),
{
    let shown: usize = if issues.len() > MAX_TRAY_ISSUES {
        MAX_TRAY_ISSUES
    } else {
        issues.len()
    };
    let mut items: Vec<TrayItem> = Vec::new();
    let mut i: usize = 0;
    while i < shown
        invariant
            i <= shown <= issues.len(),
            items.len() == i,
            forall|k: int| 0 <= k < i ==> (#[trigger] items@[k])@ == issue_item_of(issues@[k], *state),
        decreases shown - i,
    {
        let issue = &issues[i];
        let enabled = match &state.issue_key {
            Some(key) => !str_eq(key.as_str(), issue.key.as_str()),
            None => true,
        };
        items.push(
            TrayItem {
                id: issue_menu_id(issue.key.as_str()),
                label: format_issue_label(issue),
                enabled,
            },
        );
        i += 1;
    }
    if issues.len() > MAX_TRAY_ISSUES {
        let mut label = chars_of("+");
        push_decimal(&mut label, (issues.len() - MAX_TRAY_ISSUES) as u64);
        append_str(&mut label, " more issues…");
        items.push(
            TrayItem { id: MENU_MORE_ISSUES_ID.to_owned(), label: string_of(&label), enabled: false },
        );
    }
    assert(items_of(items@) =~= issue_items_of(issues@, *state));
    items
}

/// The tray menu for the given issues and timer state.
pub fn build_tray_menu(issues: &Vec<Issue>, timer_state: &TimerState) -> (menu: Vec<TrayEntry>)
    ensures
        entries_of(menu@) == tray_menu_of(issues@, *timer_state),
{
    let mut menu: Vec<TrayEntry> = Vec::new();
    if timer_state.active {
        let label = format_running_label(timer_state);
        menu.push(item(MENU_RUNNING_LABEL_ID, label.as_str(), false));
        menu.push(item(MENU_STOP_ID, "Stop Timer", true));
    } else {
        menu.push(item(MENU_IDLE_LABEL_ID, "Timer idle", false));
    }
    menu.push(TrayEntry::Separator);
    if issues.len() == 0 {
        menu.push(item(MENU_NO_ISSUES_ID, "No issues found", false));
    } else {
        menu.push(
            TrayEntry::Submenu {
                id: MENU_START_SUBMENU_ID.to_owned(),
                label: "Start Timer".to_owned(),
                items: issue_items(issues, timer_state),
            },
        );
    }
    menu.push(item(MENU_REFRESH_ID, "Refresh Issues", true));
    menu.push(TrayEntry::Separator);
    menu.push(item(MENU_SHOW_ID, "Show", true));
    menu.push(item(MENU_QUIT_ID, "Quit", true));
    assert(entries_of(menu@) =~= tray_menu_of(issues@, *timer_state));
    menu
}

/// What a click on a menu entry asks for.
#[derive(Debug)]
pub enum TrayAction {
    Quit,
    Show,
    Refresh,
    Stop,
    /// Start the timer for the issue with this key.
    Start(String),
    /// Nothing: the entry is unknown, or it names the issue that the timer
    /// runs for already.
    Ignore,
}

/// What a click asks for, as a mathematical value.
pub enum ActionModel {
    Quit,
    Show,
    Refresh,
    Stop,
    Start(Seq<char>),
    Ignore,
}

impl View for TrayAction {
    type V = ActionModel;

    open spec fn view(&self) -> ActionModel {
        match self {
            TrayAction::Quit => ActionModel::Quit,
            TrayAction::Show => ActionModel::Show,
            TrayAction::Refresh => ActionModel::Refresh,
            TrayAction::Stop => ActionModel::Stop,
            TrayAction::Start(key) => ActionModel::Start(key@),
            TrayAction::Ignore => ActionModel::Ignore,
        }
    }
}

/// What a click on the entry with the given id asks for, given the key of
/// the issue that the timer runs for. The fixed entries come first; an entry
/// of an issue starts the timer for it unless the timer runs for it already;
/// anything else is ignored.
pub open spec fn tray_action_of(id: Seq<char>, running: Option<Seq<char>>) -> ActionModel {
    if id == MENU_QUIT_ID@ {
        ActionModel::Quit
    } else if id == MENU_SHOW_ID@ {
        ActionModel::Show
    } else if id == MENU_REFRESH_ID@ {
        ActionModel::Refresh
    } else if id == MENU_STOP_ID@ {
        ActionModel::Stop
    } else if starts_with(id, ISSUE_MENU_PREFIX@) {
        let key = id.skip(ISSUE_MENU_PREFIX@.len() as int);
        if running == Some(key) {
            ActionModel::Ignore
        } else {
            ActionModel::Start(key)
        }
    } else {
        ActionModel::Ignore
    }
}

/// What a click on the entry with the given id asks for.
pub fn tray_action(id: &str, running: Option<&str>) -> (action: TrayAction)
    ensures
        action@ == tray_action_of(id@, crate::request::opt_str(running)),
{
    if str_eq(id, MENU_QUIT_ID) {
        return TrayAction::Quit;
    }
    if str_eq(id, MENU_SHOW_ID) {
        return TrayAction::Show;
    }
    if str_eq(id, MENU_REFRESH_ID) {
        return TrayAction::Refresh;
    }
    if str_eq(id, MENU_STOP_ID) {
        return TrayAction::Stop;
    }
    let chars = chars_of(id);
    let prefix = chars_of(ISSUE_MENU_PREFIX);
    if !starts_with_chars(&chars, &prefix) {
        return TrayAction::Ignore;
    }
    let key = slice_chars(&chars, prefix.len(), chars.len());
    assert(key@ =~= id@.skip(ISSUE_MENU_PREFIX@.len() as int));
    let same = match running {
        Some(current) => {
            let current_chars = chars_of(current);
            crate::text::chars_eq(&current_chars, &key)
        },
        None => false,
    };
    if same {
        TrayAction::Ignore
    } else {
        TrayAction::Start(string_of(&key))
    }
}

} // verus!
