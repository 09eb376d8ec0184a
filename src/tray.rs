use vstd::prelude::*;
use vstd::string::*;

use crate::os_text::opt_view;

verus! {

/// What a tray-menu item does.
#[derive(Debug, Clone, Copy, PartialEq, Eq, Structural)]
pub enum TrayAction {
    ToggleVisibility,
    OpenSettings,
    ToggleLock,
    ToggleKeyboard,
    Quit,
}

/// The action behind a stored action name; `None` for an unknown name.
pub open spec fn tray_action_named(name: Seq<char>) -> Option<TrayAction> {
    if name == "toggle_visibility"@ {
        Some(TrayAction::ToggleVisibility)
    } else if name == "open_settings"@ {
        Some(TrayAction::OpenSettings)
    } else if name == "toggle_lock"@ {
        Some(TrayAction::ToggleLock)
    } else if name == "toggle_keyboard"@ {
        Some(TrayAction::ToggleKeyboard)
    } else if name == "quit"@ {
        Some(TrayAction::Quit)
    } else {
        None
    }
}

/// The name under which an action is stored and announced.
pub open spec fn tray_action_name(a: TrayAction) -> Seq<char> {
    match a {
        TrayAction::ToggleVisibility => "toggle_visibility"@,
        TrayAction::OpenSettings => "open_settings"@,
        TrayAction::ToggleLock => "toggle_lock"@,
        TrayAction::ToggleKeyboard => "toggle_keyboard"@,
        TrayAction::Quit => "quit"@,
    }
}

/// The texts of the tray menu's five items (camera, settings, lock, keys,
/// quit) in the given locale: Simplified Chinese for "zh-CN", else English.
pub open spec fn tray_labels(locale: Seq<char>) -> (Seq<char>, Seq<char>, Seq<char>, Seq<char>, Seq<char>) {
    if locale == "zh-CN"@ {
        ("显示/隐藏摄像头窗"@, "打开设置"@, "锁定/解锁拖拽"@, "显示/隐藏按键"@, "退出"@)
    } else {
        ("Show/Hide Camera"@, "Open Settings"@, "Lock/Unlock Drag"@, "Show/Hide Keys"@, "Quit"@)
    }
}

/// Whether some entry before index `end` carries the item id `id`.
pub open spec fn id_before(entries: Seq<(String, Option<String>)>, id: Seq<char>, end: int) -> bool {
    exists|j: int| 0 <= j < end && opt_view(#[trigger] entries[j].1) == Some(id)
}

/// The action of the first entry whose item id is `id`; `None` when no entry
/// carries it or its action name is unknown.
pub open spec fn resolved_tray_action(entries: Seq<(String, Option<String>)>, id: Seq<char>) -> Option<
    TrayAction,
> {
    if id_before(entries, id, entries.len() as int) {
        let i = choose|i: int|
            0 <= i < entries.len() && opt_view(entries[i].1) == Some(id) && !id_before(entries, id, i);
        tray_action_named(entries[i].0@)
    } else {
        None
    }
}

/// Whether two texts are equal, character by character.
pub fn text_eq(a: &str, b: &str) -> (r: bool)
    ensures
        r == (a@ == b@),
{
    let n = a.unicode_len();
    if n != b.unicode_len() {
        return false;
    }
    let mut i: usize = 0;
    while i < n
        invariant
            n == a@.len(),
            n == b@.len(),
            i <= n,
            a@.subrange(0, i as int) == b@.subrange(0, i as int),
        decreases n - i,
    {
        if a.get_char(i) != b.get_char(i) {
            assert(a@[i as int] != b@[i as int]);
            return false;
        }
        assert(a@.subrange(0, i + 1) == a@.subrange(0, i as int).push(a@[i as int]));
        assert(b@.subrange(0, i + 1) == b@.subrange(0, i as int).push(b@[i as int]));
        i = i + 1;
    }
    assert(a@ == a@.subrange(0, n as int));
    assert(b@ == b@.subrange(0, n as int));
    true
}

impl TrayAction {
    /// The action named `name`, as stored with the menu's item ids.
    pub fn from_name(name: &str) -> (r: Option<TrayAction>)
        ensures
            r == tray_action_named(name@),
    {
        if text_eq(name, "toggle_visibility") {
            Some(TrayAction::ToggleVisibility)
        } else if text_eq(name, "open_settings") {
            Some(TrayAction::OpenSettings)
        } else if text_eq(name, "toggle_lock") {
            Some(TrayAction::ToggleLock)
        } else if text_eq(name, "toggle_keyboard") {
            Some(TrayAction::ToggleKeyboard)
        } else if text_eq(name, "quit") {
            Some(TrayAction::Quit)
        } else {
            None
        }
    }

    /// The name under which the action is stored and announced.
    pub fn name(&self) -> (r: &'static str)
        ensures
            r@ == tray_action_name(*self),
    {
        match self {
            TrayAction::ToggleVisibility => "toggle_visibility",
            TrayAction::OpenSettings => "open_settings",
            TrayAction::ToggleLock => "toggle_lock",
            TrayAction::ToggleKeyboard => "toggle_keyboard",
            TrayAction::Quit => "quit",
        }
    }
}

/// The texts of the tray menu's items in `locale`.
pub fn tray_text(locale: &str) -> (r: (&'static str, &'static str, &'static str, &'static str, &'static str))
    ensures
        (r.0@, r.1@, r.2@, r.3@, r.4@) == tray_labels(locale@),
{
    if text_eq(locale, "zh-CN") {
        ("显示/隐藏摄像头窗", "打开设置", "锁定/解锁拖拽", "显示/隐藏按键", "退出")
    } else {
        ("Show/Hide Camera", "Open Settings", "Lock/Unlock Drag", "Show/Hide Keys", "Quit")
    }
}

/// The action of the tray item with id `event_id`. `entries` are the stored
/// pairs of action name and item id (absent where the stored id is not
/// text), in their stored order; the first pair with that id decides.
pub fn resolve_tray_action(entries: &Vec<(String, Option<String>)>, event_id: &str) -> (r: Option<
    TrayAction,
>)
    ensures
        r == resolved_tray_action(entries@, event_id@),
{
    let mut i: usize = 0;
    while i < entries.len()
        invariant
            i <= entries.len(),
            !id_before(entries@, event_id@, i as int),
        decreases entries.len() - i,
    {
        let matched = match &entries[i].1 {
            Some(id) => text_eq(id.as_str(), event_id),
            None => false,
        };
        if matched {
            let ghost k = choose|k: int|
                0 <= k < entries@.len() && opt_view(entries@[k].1) == Some(event_id@) && !id_before(
                    entries@,
                    event_id@,
                    k,
                );
            assert(opt_view(entries@[i as int].1) == Some(event_id@));
            assert(id_before(entries@, event_id@, entries@.len() as int));
            assert(k == i) by {
                if k < i {
                    assert(id_before(entries@, event_id@, i as int));
                } else if k > i {
                    assert(id_before(entries@, event_id@, k));
                }
            }
            return TrayAction::from_name(entries[i].0.as_str());
        }
        assert(opt_view(entries@[i as int].1) != Some(event_id@));
        assert forall|j: int| 0 <= j < i + 1 implies opt_view(#[trigger] entries@[j].1) != Some(event_id@) by {
            if j < i {
                assert(!id_before(entries@, event_id@, i as int));
            }
        }
        i = i + 1;
    }
    None
}

} // verus!
