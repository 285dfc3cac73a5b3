//! Pasting an entry back: what is written to the system clipboard, and which
//! keystroke then pastes it into the application that has the focus.

use vstd::prelude::*;
use crate::codec::{decode_image, restored, RawImage, RawImageView};
use crate::db::{position_of, DbState};
use crate::history::{index_of, lemma_index_of};
use crate::item::{ClipboardItem, ItemKind, ItemView};
use crate::text::{contains_text, from_utf8_lossy, has_part, lowercased, to_lowercase, utf8_lossy};

verus! {

/// The time to wait, after the window was hidden, for the focus to settle
/// on the application that had it before, in milliseconds.
pub const FOCUS_SETTLE_MS: u64 = 100;

/// What is written to the system clipboard.
#[derive(Debug, PartialEq, Eq)]
pub enum Payload {
    Text(String),
    Image(RawImage),
}

/// The mathematical value of a [`Payload`].
pub enum PayloadView {
    Text(Seq<char>),
    Image(RawImageView),
}

impl View for Payload {
    type V = PayloadView;

    open spec fn view(&self) -> PayloadView {
        match self {
            Payload::Text(t) => PayloadView::Text(t@),
            Payload::Image(i) => PayloadView::Image(i@),
        }
    }
}

/// The value of a payload that may be missing.
pub open spec fn payload_view(payload: Option<Payload>) -> Option<PayloadView> {
    match payload {
        Some(p) => Some(p@),
        None => None,
    }
}

/// What pasting an entry writes: a text as it is, an image restored from
/// its portable text; nothing where the image cannot be restored.
pub open spec fn payload_of(entry: ItemView) -> Option<PayloadView> {
    match entry.kind {
        ItemKind::Text => Some(PayloadView::Text(entry.content)),
        ItemKind::Image => match restored(entry.content) {
            Some(image) => Some(PayloadView::Image(image)),
            None => None,
        },
    }
}

/// What pasting the entry `id` of a history writes; nothing where no entry
/// has that id.
pub open spec fn pasted(h: Seq<ItemView>, id: Seq<char>) -> Option<PayloadView> {
    match index_of(h, id) {
        Some(i) => payload_of(h[i]),
        None => None,
    }
}

/// What pasting `entry` writes to the system clipboard.
pub fn payload(entry: &ClipboardItem) -> (written: Option<Payload>)
    ensures
        payload_view(written) == payload_of(entry@),
{
    match entry.kind {
        ItemKind::Text => Some(Payload::Text(entry.content.clone())),
        ItemKind::Image => match decode_image(entry.content.as_str()) {
            Some(image) => Some(Payload::Image(image)),
            None => None,
        },
    }
}

/// What pasting the entry `id` writes to the system clipboard. `None` where
/// no entry has that id, or where its image cannot be restored: nothing is
/// pasted after that.
pub fn paste_item(state: &DbState, id: &str) -> (written: Option<Payload>)
    ensures
        payload_view(written) == pasted(state@.history, id@),
{
    match position_of(&state.db.history, id) {
        Some(index) => {
            proof {
                lemma_index_of(state@.history, id@);
            }
            payload(&state.db.history[index])
        },
        None => None,
    }
}

/// What pasting a text that is in no history writes: the text as it is.
pub fn paste_content(content: String) -> (written: Payload)
    ensures
        written@ == PayloadView::Text(content@),
{
    Payload::Text(content)
}

/// What the query for the class of the focused window brought: whether the
/// helper ended well, and what it printed.
#[derive(Debug, PartialEq, Eq)]
pub struct WindowQuery {
    pub success: bool,
    pub stdout: Vec<u8>,
}

/// The mathematical value of a [`WindowQuery`].
pub struct WindowQueryView {
    pub success: bool,
    pub stdout: Seq<u8>,
}

impl View for WindowQuery {
    type V = WindowQueryView;

    open spec fn view(&self) -> WindowQueryView {
        WindowQueryView { success: self.success, stdout: self.stdout@ }
    }
}

/// The class of application that has the focus, as far as pasting cares.
#[derive(Clone, Copy, Debug, PartialEq, Eq, Structural)]
pub enum FocusClass {
    Terminal,
    Standard,
}

/// A window class name, in lower case, is that of a terminal emulator.
pub open spec fn is_terminal_name(lower: Seq<char>) -> bool {
    has_part(lower, "term"@) || has_part(lower, "alacritty"@) || has_part(lower, "kitty"@)
        || has_part(lower, "konsole"@)
}

/// The value of a query that may have failed.
pub open spec fn query_view(query: Option<&WindowQuery>) -> Option<WindowQueryView> {
    match query {
        Some(q) => Some(q@),
        None => None,
    }
}

/// The class that a query's outcome stands for: a terminal where the helper
/// ended well and printed a terminal's class name, in whatever case;
/// standard in every other case, a failed query among them.
pub open spec fn focus_class(query: Option<WindowQueryView>) -> FocusClass {
    match query {
        Some(q) => if q.success && is_terminal_name(lowercased(utf8_lossy(q.stdout))) {
            FocusClass::Terminal
        } else {
            FocusClass::Standard
        },
        None => FocusClass::Standard,
    }
}

/// Whether a window class name, in lower case, is that of a terminal
/// emulator.
pub fn is_terminal_text(lower: &str) -> (terminal: bool)
    ensures
        terminal == is_terminal_name(lower@),
{
    contains_text(lower, "term") || contains_text(lower, "alacritty") || contains_text(
        lower,
        "kitty",
    ) || contains_text(lower, "konsole")
}

/// Classifies the focused window from the outcome of the query, `None`
/// where the query itself failed.
pub fn classify_focused_window(query: Option<&WindowQuery>) -> (class: FocusClass)
    ensures
        class == focus_class(query_view(query)),
        query is None ==> class == FocusClass::Standard,
        query matches Some(q) && !q.success ==> class == FocusClass::Standard,
        query matches Some(q) && !is_terminal_name(lowercased(utf8_lossy(q.stdout@))) ==> class
            == FocusClass::Standard,
{
    match query {
        Some(q) => {
            if q.success {
                let name = from_utf8_lossy(q.stdout.as_slice());
                let lower = to_lowercase(name.as_str());
                if is_terminal_text(lower.as_str()) {
                    FocusClass::Terminal
                } else {
                    FocusClass::Standard
                }
            } else {
                FocusClass::Standard
            }
        },
        None => FocusClass::Standard,
    }
}

/// The key combination that pastes into an application of the given class.
pub fn paste_keystroke(class: FocusClass) -> (keys: &'static str)
    ensures
        keys@ == match class {
            FocusClass::Terminal => "ctrl+shift+v"@,
            FocusClass::Standard => "ctrl+v"@,
        },
{
    match class {
        FocusClass::Terminal => "ctrl+shift+v",
        FocusClass::Standard => "ctrl+v",
    }
}

/// How far a paste has come.
#[derive(Clone, Copy, Debug, PartialEq, Eq, Structural)]
pub enum PasteStage {
    /// The payload was handed to the system clipboard.
    Written,
    /// The window was hidden.
    Hidden,
    /// The focus had its time to settle.
    Settled,
    /// The class of the focused window was asked for.
    Asked,
    /// Nothing is left to do.
    Finished,
}

/// What the shell is to do next. None of these is waited on for success: a
/// step that fails is passed over and the paste goes on.
#[derive(Clone, Copy, Debug, PartialEq, Eq, Structural)]
pub enum PasteAction {
    HideWindow,
    /// Wait for so many milliseconds.
    Wait(u64),
    /// Ask the helper for the class name of the focused window.
    QueryFocus,
    /// Send the keystroke that pastes into an application of this class.
    SendKeys(FocusClass),
    Stop,
}

/// Where a paste starts: with a payload, after it was written; without
/// one, at its end, so that nothing follows.
pub open spec fn first_stage(has_payload: bool) -> PasteStage {
    if has_payload {
        PasteStage::Written
    } else {
        PasteStage::Finished
    }
}

/// The next stage and what is to be done to reach it. `query` is the outcome
/// of the query, which counts after it was asked for.
pub open spec fn next_step(stage: PasteStage, query: Option<WindowQueryView>) -> (
    PasteStage,
    PasteAction,
) {
    match stage {
        PasteStage::Written => (PasteStage::Hidden, PasteAction::HideWindow),
        PasteStage::Hidden => (PasteStage::Settled, PasteAction::Wait(FOCUS_SETTLE_MS)),
        PasteStage::Settled => (PasteStage::Asked, PasteAction::QueryFocus),
        PasteStage::Asked => (PasteStage::Finished, PasteAction::SendKeys(focus_class(query))),
        PasteStage::Finished => (PasteStage::Finished, PasteAction::Stop),
    }
}

/// Where the paste of what was found starts: nothing follows where nothing
/// was found to write.
pub fn paste_begin(written: &Option<Payload>) -> (stage: PasteStage)
    ensures
        stage == first_stage(written is Some),
{
    match written {
        Some(_) => PasteStage::Written,
        None => PasteStage::Finished,
    }
}

/// The next stage of a paste and what the shell is to do to reach it.
/// `query` is the outcome of the last query, `None` where none was made yet
/// or it failed.
pub fn paste_step(stage: PasteStage, query: Option<&WindowQuery>) -> (next: (
    PasteStage,
    PasteAction,
))
    ensures
        next == next_step(stage, query_view(query)),
{
    match stage {
        PasteStage::Written => (PasteStage::Hidden, PasteAction::HideWindow),
        PasteStage::Hidden => (PasteStage::Settled, PasteAction::Wait(FOCUS_SETTLE_MS)),
        PasteStage::Settled => (PasteStage::Asked, PasteAction::QueryFocus),
        PasteStage::Asked => (
            PasteStage::Finished,
            PasteAction::SendKeys(classify_focused_window(query)),
        ),
        PasteStage::Finished => (PasteStage::Finished, PasteAction::Stop),
    }
}

/// A paste with a payload runs through four actions in this order and
/// stops: the window is hidden, the focus is given its time, the focused
/// window is asked for, and the keystroke for its class is sent, which is
/// the standard one unless the query succeeded and named a terminal. A paste
/// without a payload stops at once.
pub proof fn lemma_paste_run(query: Option<WindowQueryView>)
    ensures
        ({
            let a = next_step(first_stage(true), query);
            let b = next_step(a.0, query);
            let c = next_step(b.0, query);
            let d = next_step(c.0, query);
            let e = next_step(d.0, query);
            &&& a.1 == PasteAction::HideWindow
            &&& b.1 == PasteAction::Wait(FOCUS_SETTLE_MS)
            &&& c.1 == PasteAction::QueryFocus
            &&& d.1 == PasteAction::SendKeys(focus_class(query))
            &&& e.1 == PasteAction::Stop
            &&& e.0 == PasteStage::Finished
        }),
        next_step(first_stage(false), query).1 == PasteAction::Stop,
        !(query matches Some(q) && q.success && is_terminal_name(
            lowercased(utf8_lossy(q.stdout)),
        )) ==> focus_class(query) == FocusClass::Standard,
{
}

} // verus!
