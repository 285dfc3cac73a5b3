//! One recorded clipboard snapshot.

use vstd::prelude::*;
use crate::text::same_text;

verus! {

/// What an entry holds: plain text, or a raster image in its portable encoding.
#[derive(Clone, Copy, Debug, PartialEq, Eq, Structural)]
pub enum ItemKind {
    Text,
    Image,
}

/// The name under which a kind is written in a stored document.
pub open spec fn kind_name(kind: ItemKind) -> Seq<char> {
    match kind {
        ItemKind::Text => "text"@,
        ItemKind::Image => "image"@,
    }
}

/// The kind that a name in a stored document stands for, if any.
pub open spec fn kind_named(name: Seq<char>) -> Option<ItemKind> {
    if name == "text"@ {
        Some(ItemKind::Text)
    } else if name == "image"@ {
        Some(ItemKind::Image)
    } else {
        None
    }
}

/// Each kind is read back from its own name.
pub proof fn lemma_kind_name_round_trip(kind: ItemKind)
    ensures
        kind_named(kind_name(kind)) == Some(kind),
{
    reveal_strlit("text");
    reveal_strlit("image");
    assert("text"@.len() != "image"@.len());
}

impl ItemKind {
    /// The name under which the kind is written in a stored document.
    pub fn name(self) -> (name: &'static str)
        ensures
            name@ == kind_name(self),
    {
        match self {
            ItemKind::Text => "text",
            ItemKind::Image => "image",
        }
    }

    /// The kind that a name in a stored document stands for; `None` for any
    /// other text.
    pub fn from_name(name: &str) -> (kind: Option<ItemKind>)
        ensures
            kind == kind_named(name@),
    {
        if same_text(name, "text") {
            Some(ItemKind::Text)
        } else if same_text(name, "image") {
            Some(ItemKind::Image)
        } else {
            None
        }
    }
}

/// One entry of the history.
#[derive(Debug, PartialEq, Eq)]
pub struct ClipboardItem {
    /// Identifier given at creation; never changed afterwards.
    pub id: String,
    pub kind: ItemKind,
    /// The text itself, or the base64 text of the PNG encoding of the image.
    pub content: String,
    /// Milliseconds since the Unix epoch at which the entry was recorded.
    pub timestamp: i64,
    pub is_pinned: bool,
}

/// The mathematical value of a [`ClipboardItem`].
pub struct ItemView {
    pub id: Seq<char>,
    pub kind: ItemKind,
    pub content: Seq<char>,
    pub timestamp: i64,
    pub is_pinned: bool,
}

impl View for ClipboardItem {
    type V = ItemView;

    open spec fn view(&self) -> ItemView {
        ItemView {
            id: self.id@,
            kind: self.kind,
            content: self.content@,
            timestamp: self.timestamp,
            is_pinned: self.is_pinned,
        }
    }
}

impl Clone for ClipboardItem {
    fn clone(&self) -> (copy: Self)
        ensures
            copy@ == self@,
    {
        ClipboardItem {
            id: self.id.clone(),
            kind: self.kind,
            content: self.content.clone(),
            timestamp: self.timestamp,
            is_pinned: self.is_pinned,
        }
    }
}

impl ClipboardItem {
    /// A fresh, unpinned entry.
    pub fn new(id: String, kind: ItemKind, content: String, timestamp: i64) -> (item: Self)
        ensures
            item@ == (ItemView {
                id: id@,
                kind,
                content: content@,
                timestamp,
                is_pinned: false,
            }),
    {
        ClipboardItem { id, kind, content, timestamp, is_pinned: false }
    }

    /// Whether `self` and `other` record the same clipboard content: the same
    /// kind and the same content, whatever their ids, times and pins.
    pub fn same_content(&self, other: &ClipboardItem) -> (same: bool)
        ensures
            same == same_content(self@, other@),
    {
        self.kind == other.kind && self.content == other.content
    }
}

/// Two entries record the same clipboard content.
pub open spec fn same_content(a: ItemView, b: ItemView) -> bool {
    a.kind == b.kind && a.content == b.content
}

/// The values of a run of entries, in order.
pub open spec fn views(items: Seq<ClipboardItem>) -> Seq<ItemView> {
    items.map_values(|item: ClipboardItem| item@)
}

} // verus!
