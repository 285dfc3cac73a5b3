//! The user's settings, and how a keyed update changes them.

use vstd::prelude::*;
use crate::text::same_text;

verus! {

/// The user's settings.
#[derive(Debug, PartialEq, Eq)]
pub struct Settings {
    /// Where the window appears: `"cursor"`, `"center"`, or anything else for
    /// where it last was.
    pub position: String,
    pub grouping: String,
    /// Percent.
    pub zoom: i32,
    pub theme: String,
    /// `None` stands for the system's language.
    pub language: Option<String>,
    pub use_internal_shortcut: bool,
}

/// The mathematical value of [`Settings`].
pub struct SettingsView {
    pub position: Seq<char>,
    pub grouping: Seq<char>,
    pub zoom: i32,
    pub theme: Seq<char>,
    pub language: Option<Seq<char>>,
    pub use_internal_shortcut: bool,
}

/// A value offered for a setting, as far as the settings can tell values
/// apart.
#[derive(Debug, PartialEq, Eq)]
pub enum SettingValue {
    Null,
    Bool(bool),
    /// A number that is an integer and fits 64 signed bits.
    Integer(i64),
    Text(String),
    /// Anything else: another number, a list, a map.
    Other,
}

/// The mathematical value of a [`SettingValue`].
pub enum SettingValueView {
    Null,
    Bool(bool),
    Integer(i64),
    Text(Seq<char>),
    Other,
}

impl View for SettingValue {
    type V = SettingValueView;

    open spec fn view(&self) -> SettingValueView {
        match self {
            SettingValue::Null => SettingValueView::Null,
            SettingValue::Bool(b) => SettingValueView::Bool(*b),
            SettingValue::Integer(n) => SettingValueView::Integer(*n),
            SettingValue::Text(s) => SettingValueView::Text(s@),
            SettingValue::Other => SettingValueView::Other,
        }
    }
}

impl View for Settings {
    type V = SettingsView;

    open spec fn view(&self) -> SettingsView {
        SettingsView {
            position: self.position@,
            grouping: self.grouping@,
            zoom: self.zoom,
            theme: self.theme@,
            language: match self.language {
                Some(l) => Some(l@),
                None => None,
            },
            use_internal_shortcut: self.use_internal_shortcut,
        }
    }
}

/// `key` names one of the settings.
pub open spec fn is_setting_key(key: Seq<char>) -> bool {
    key == "zoom"@ || key == "position"@ || key == "grouping"@ || key == "theme"@ || key
        == "language"@ || key == "useInternalShortcut"@
}

/// The settings after `value` was offered under `key`. A key that names no
/// setting, and a value of another type than the setting's, change nothing;
/// an integer that does not fit the 32 bits of the zoom is such a value. The
/// language takes a text or, with `Null`, goes back to the system's.
pub open spec fn updated(s: SettingsView, key: Seq<char>, value: SettingValueView) -> SettingsView {
    if key == "zoom"@ {
        match value {
            SettingValueView::Integer(n) => if i32::MIN <= n <= i32::MAX {
                SettingsView { zoom: n as i32, ..s }
            } else {
                s
            },
            _ => s,
        }
    } else if key == "position"@ {
        match value {
            SettingValueView::Text(t) => SettingsView { position: t, ..s },
            _ => s,
        }
    } else if key == "grouping"@ {
        match value {
            SettingValueView::Text(t) => SettingsView { grouping: t, ..s },
            _ => s,
        }
    } else if key == "theme"@ {
        match value {
            SettingValueView::Text(t) => SettingsView { theme: t, ..s },
            _ => s,
        }
    } else if key == "language"@ {
        match value {
            SettingValueView::Text(t) => SettingsView { language: Some(t), ..s },
            SettingValueView::Null => SettingsView { language: None, ..s },
            _ => s,
        }
    } else if key == "useInternalShortcut"@ {
        match value {
            SettingValueView::Bool(b) => SettingsView { use_internal_shortcut: b, ..s },
            _ => s,
        }
    } else {
        s
    }
}

/// Where the window is put when it is shown.
#[derive(Clone, Copy, Debug, PartialEq, Eq, Structural)]
pub enum Placement {
    AtCursor,
    Centered,
    /// Where it was.
    Unchanged,
}

/// What becomes of the application's own hotkey after an update.
#[derive(Clone, Copy, Debug, PartialEq, Eq, Structural)]
pub enum ShortcutAction {
    Register,
    Unregister,
    Nothing,
}

/// The placement that a `position` setting asks for.
pub open spec fn placement_of(position: Seq<char>) -> Placement {
    if position == "cursor"@ {
        Placement::AtCursor
    } else if position == "center"@ {
        Placement::Centered
    } else {
        Placement::Unchanged
    }
}

/// What an update does to the application's own hotkey: a truth value
/// under `useInternalShortcut` registers or unregisters it, anything else
/// leaves it.
pub open spec fn shortcut_action_of(key: Seq<char>, value: SettingValueView) -> ShortcutAction {
    if key == "useInternalShortcut"@ {
        match value {
            SettingValueView::Bool(true) => ShortcutAction::Register,
            SettingValueView::Bool(false) => ShortcutAction::Unregister,
            _ => ShortcutAction::Nothing,
        }
    } else {
        ShortcutAction::Nothing
    }
}

/// What the update of `key` with `value` does to the application's own
/// hotkey.
pub fn shortcut_action(key: &str, value: &SettingValue) -> (action: ShortcutAction)
    ensures
        action == shortcut_action_of(key@, value@),
{
    if same_text(key, "useInternalShortcut") {
        match value {
            SettingValue::Bool(enabled) => {
                if *enabled {
                    ShortcutAction::Register
                } else {
                    ShortcutAction::Unregister
                }
            },
            _ => ShortcutAction::Nothing,
        }
    } else {
        ShortcutAction::Nothing
    }
}

impl Default for Settings {
    fn default() -> (settings: Self)
        ensures
            settings@ == Settings::default_view(),
    {
        Settings {
            position: "cursor".to_owned(),
            grouping: "categorized".to_owned(),
            zoom: 100,
            theme: "dark".to_owned(),
            language: None,
            use_internal_shortcut: false,
        }
    }
}

impl Clone for Settings {
    fn clone(&self) -> (copy: Self)
        ensures
            copy@ == self@,
    {
        Settings {
            position: self.position.clone(),
            grouping: self.grouping.clone(),
            zoom: self.zoom,
            theme: self.theme.clone(),
            language: match &self.language {
                Some(l) => Some(l.clone()),
                None => None,
            },
            use_internal_shortcut: self.use_internal_shortcut,
        }
    }
}

impl Settings {
    /// The settings of a first start.
    pub open spec fn default_view() -> SettingsView {
        SettingsView {
            position: "cursor"@,
            grouping: "categorized"@,
            zoom: 100,
            theme: "dark"@,
            language: None,
            use_internal_shortcut: false,
        }
    }

    /// Where the window is put when it is shown.
    pub fn placement(&self) -> (placement: Placement)
        ensures
            placement == placement_of(self@.position),
    {
        if same_text(self.position.as_str(), "cursor") {
            Placement::AtCursor
        } else if same_text(self.position.as_str(), "center") {
            Placement::Centered
        } else {
            Placement::Unchanged
        }
    }

    /// Offers `value` under `key`. Nothing is reported: a key that names no
    /// setting, and a value of the wrong type, leave the settings as they are.
    pub fn update(&mut self, key: &str, value: SettingValue)
        ensures
            final(self)@ == updated(old(self)@, key@, value@),
            !is_setting_key(key@) ==> final(self)@ == old(self)@,
    {
        if same_text(key, "zoom") {
            if let SettingValue::Integer(n) = value {
                if -2147483648 <= n && n <= 2147483647 {
                    self.zoom = n as i32;
                }
            }
        } else if same_text(key, "position") {
            if let SettingValue::Text(t) = value {
                self.position = t;
            }
        } else if same_text(key, "grouping") {
            if let SettingValue::Text(t) = value {
                self.grouping = t;
            }
        } else if same_text(key, "theme") {
            if let SettingValue::Text(t) = value {
                self.theme = t;
            }
        } else if same_text(key, "language") {
            match value {
                SettingValue::Text(t) => {
                    self.language = Some(t);
                },
                SettingValue::Null => {
                    self.language = None;
                },
                _ => {},
            }
        } else if same_text(key, "useInternalShortcut") {
            if let SettingValue::Bool(b) = value {
                self.use_internal_shortcut = b;
            }
        }
    }
}

} // verus!
