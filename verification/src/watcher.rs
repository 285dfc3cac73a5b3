//! The decisions of the clipboard watcher: what it remembers of the last
//! poll, and when a reading becomes a new entry of the history.

use vstd::prelude::*;
use crate::codec::{encode_image, portable, text_view, RawImage, RawImageView};
use crate::item::{ClipboardItem, ItemKind, ItemView};

verus! {

/// The time between two polls of the clipboard, in milliseconds.
pub const POLL_INTERVAL_MS: u64 = 1000;

/// What the watcher saw last, of each kind. Lives as long as the watcher
/// and is never stored.
#[derive(Debug, PartialEq, Eq)]
pub struct Watcher {
    pub last_text: String,
    /// The portable text of the last image.
    pub last_image: String,
}

/// The mathematical value of a [`Watcher`].
pub struct WatcherView {
    pub last_text: Seq<char>,
    pub last_image: Seq<char>,
}

impl View for Watcher {
    type V = WatcherView;

    open spec fn view(&self) -> WatcherView {
        WatcherView { last_text: self.last_text@, last_image: self.last_image@ }
    }
}

/// A reading is news where there is one, it is not empty, and it differs
/// from what was seen last.
pub open spec fn is_news(last: Seq<char>, reading: Option<Seq<char>>) -> bool {
    reading matches Some(r) && r.len() > 0 && r != last
}

/// The entry that a reading of the given kind becomes.
pub open spec fn entry_for(
    kind: ItemKind,
    content: Seq<char>,
    id: Seq<char>,
    timestamp: i64,
) -> ItemView {
    ItemView { id, kind, content, timestamp, is_pinned: false }
}

/// The value of an entry that may be missing.
pub open spec fn entry_view(entry: Option<ClipboardItem>) -> Option<ItemView> {
    match entry {
        Some(e) => Some(e@),
        None => None,
    }
}

/// The watcher and the new entry after a reading of text.
pub open spec fn text_step(
    w: WatcherView,
    reading: Option<Seq<char>>,
    id: Seq<char>,
    timestamp: i64,
) -> (WatcherView, Option<ItemView>) {
    if is_news(w.last_text, reading) {
        (
            WatcherView { last_text: reading->0, ..w },
            Some(entry_for(ItemKind::Text, reading->0, id, timestamp)),
        )
    } else {
        (w, None)
    }
}

/// The watcher and the new entry after a reading of an image, given as
/// its portable text.
pub open spec fn image_step(
    w: WatcherView,
    reading: Option<Seq<char>>,
    id: Seq<char>,
    timestamp: i64,
) -> (WatcherView, Option<ItemView>) {
    if is_news(w.last_image, reading) {
        (
            WatcherView { last_image: reading->0, ..w },
            Some(entry_for(ItemKind::Image, reading->0, id, timestamp)),
        )
    } else {
        (w, None)
    }
}

/// The value of an image that was read, if one was.
pub open spec fn reading_view(reading: Option<&RawImage>) -> Option<RawImageView> {
    match reading {
        Some(i) => Some(i@),
        None => None,
    }
}

/// The portable text of an image that was read, if one was.
pub open spec fn portable_reading(image: Option<RawImageView>) -> Option<Seq<char>> {
    match image {
        Some(i) => portable(i),
        None => None,
    }
}

/// Whether a reading is news after what was seen last.
pub fn is_new(last: &String, reading: &Option<String>) -> (news: bool)
    ensures
        news == is_news(last@, text_view(*reading)),
{
    match reading {
        Some(text) => *text != *last && !text.as_str().is_empty(),
        None => false,
    }
}

/// `uuid::Uuid::new_v4`, written out in the hyphenated form. Nothing is
/// claimed of the text. The call fails where the system has no source of
/// random numbers.
#[verifier::external_body]
fn fresh_id() -> (id: String) {
    uuid::Uuid::new_v4().to_string()
}

/// `chrono::Utc::now` as `DateTime::timestamp_millis` gives it. Nothing is
/// claimed of the number. The call fails where the system clock stands
/// before 1970.
#[verifier::external_body]
fn now_millis() -> (millis: i64) {
    chrono::Utc::now().timestamp_millis()
}

impl Watcher {
    /// A watcher that has seen nothing yet.
    pub fn new() -> (watcher: Self)
        ensures
            watcher@.last_text.len() == 0,
            watcher@.last_image.len() == 0,
    {
        Watcher { last_text: String::new(), last_image: String::new() }
    }

    /// Takes a reading of the clipboard's text, `None` where reading failed.
    /// A reading that is not empty and differs from the last one is
    /// remembered and returned as a new text entry with the given id and
    /// time; any other changes nothing.
    pub fn observe_text(&mut self, reading: Option<String>, id: String, timestamp: i64) -> (entry:
        Option<ClipboardItem>)
        ensures
            (final(self)@, entry_view(entry)) == text_step(
                old(self)@,
                text_view(reading),
                id@,
                timestamp,
            ),
    {
        match reading {
            Some(text) => {
                if text != self.last_text && !text.as_str().is_empty() {
                    self.last_text = text.clone();
                    Some(ClipboardItem::new(id, ItemKind::Text, text, timestamp))
                } else {
                    None
                }
            },
            None => None,
        }
    }

    /// Takes a reading of the clipboard's image in its portable text, `None`
    /// where there was no image or it could not be encoded. A reading that
    /// is not empty and differs from the last one is remembered and returned
    /// as a new image entry with the given id and time; any other changes
    /// nothing.
    pub fn observe_encoded_image(
        &mut self,
        reading: Option<String>,
        id: String,
        timestamp: i64,
    ) -> (entry: Option<ClipboardItem>)
        ensures
            (final(self)@, entry_view(entry)) == image_step(
                old(self)@,
                text_view(reading),
                id@,
                timestamp,
            ),
    {
        match reading {
            Some(text) => {
                if text != self.last_image && !text.as_str().is_empty() {
                    self.last_image = text.clone();
                    Some(ClipboardItem::new(id, ItemKind::Image, text, timestamp))
                } else {
                    None
                }
            },
            None => None,
        }
    }

    /// Takes a reading of the clipboard's image, `None` where there was
    /// none: encodes it to its portable text and goes on as
    /// [`Watcher::observe_encoded_image`] does.
    pub fn observe_image(&mut self, reading: Option<&RawImage>, id: String, timestamp: i64) -> (entry:
        Option<ClipboardItem>)
        ensures
            (final(self)@, entry_view(entry)) == image_step(
                old(self)@,
                portable_reading(
                    reading_view(reading),
                ),
                id@,
                timestamp,
            ),
    {
        let encoded = match reading {
            Some(image) => encode_image(image),
            None => None,
        };
        self.observe_encoded_image(encoded, id, timestamp)
    }

    /// One poll of the text: a reading that is news becomes an entry with a
    /// fresh id and the time of the call, as by [`Watcher::observe_text`];
    /// any other changes nothing. The entry is then to be offered to the
    /// store, the store saved and its history announced.
    pub fn poll_text(&mut self, reading: Option<String>) -> (entry: Option<ClipboardItem>)
        ensures
            entry is Some <==> is_news(old(self)@.last_text, text_view(reading)),
            exists|id: Seq<char>, timestamp: i64|
                (final(self)@, entry_view(entry)) == #[trigger] text_step(
                    old(self)@,
                    text_view(reading),
                    id,
                    timestamp,
                ),
    {
        if is_new(&self.last_text, &reading) {
            let id = fresh_id();
            let timestamp = now_millis();
            self.observe_text(reading, id, timestamp)
        } else {
            assert((self@, entry_view(None)) == text_step(
                old(self)@,
                text_view(reading),
                Seq::<char>::empty(),
                0i64,
            ));
            None
        }
    }

    /// One poll of the image: the reading is encoded to its portable text,
    /// and one that is news becomes an entry with a fresh id and the time
    /// of the call, as by [`Watcher::observe_image`]; any other changes
    /// nothing. The entry is then to be offered to the store, the store
    /// saved and its history announced.
    pub fn poll_image(&mut self, reading: Option<&RawImage>) -> (entry: Option<ClipboardItem>)
        ensures
            entry is Some <==> is_news(
                old(self)@.last_image,
                portable_reading(reading_view(reading)),
            ),
            exists|id: Seq<char>, timestamp: i64|
                (final(self)@, entry_view(entry)) == #[trigger] image_step(
                    old(self)@,
                    portable_reading(reading_view(reading)),
                    id,
                    timestamp,
                ),
    {
        let encoded = match reading {
            Some(image) => encode_image(image),
            None => None,
        };
        if is_new(&self.last_image, &encoded) {
            let id = fresh_id();
            let timestamp = now_millis();
            self.observe_encoded_image(encoded, id, timestamp)
        } else {
            assert((self@, entry_view(None)) == image_step(
                old(self)@,
                portable_reading(reading_view(reading)),
                Seq::<char>::empty(),
                0i64,
            ));
            None
        }
    }
}

} // verus!
