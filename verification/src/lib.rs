//! A clipboard history: a capped, deduplicated, ordered store of text and image
//! entries with user settings, the decisions of the watcher that fills it, and
//! the decisions of pasting an entry back into the focused application.

pub mod text;
pub mod item;
pub mod settings;
pub mod history;
pub mod ids;
pub mod db;
pub mod codec;
pub mod watcher;
pub mod paste;

pub use crate::codec::RawImage;
pub use crate::db::{Database, DbState};
pub use crate::item::{ClipboardItem, ItemKind};
pub use crate::settings::{SettingValue, Settings};
pub use crate::watcher::Watcher;
