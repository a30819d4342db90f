use vstd::prelude::*;
use crate::geom::{LinearDir, Point, Rectangle};

verus! {

/// How the display refreshes a region.
#[derive(Clone, Copy, Debug, PartialEq, Eq, Structural)]
pub enum UpdateMode {
    Full,
    Partial,
    GhostFree,
    Gui,
}

/// A semantic key.
#[derive(Clone, Copy, Debug, PartialEq, Eq, Structural)]
pub enum KeyKind {
    Shift,
    Combine,
    Alternate,
    Return,
    Move(LinearDir),
    Delete(LinearDir),
    Output(char),
}

/// Identifies an overlay among the children of a view.
#[derive(Clone, Copy, Debug, PartialEq, Eq, Structural)]
pub enum ViewId {
    Frontlight,
    Notification(u64),
    Menu(u64),
}

/// A menu entry.
#[derive(Clone, Copy, Debug, PartialEq, Eq, Structural)]
pub enum EntryId {
    ToggleInverted,
    ToggleMonochrome,
    TakeScreenshot,
    Quit,
    Other(u64),
}

/// What the dispatcher knows of a document: the place it is stored.
#[derive(Clone, Debug, PartialEq, Eq)]
pub struct DocumentInfo {
    pub path: String,
}

/// An event of the application, handled by the dispatcher in arrival order.
#[derive(Clone, Debug, PartialEq, Eq)]
pub enum Event {
    Render(Rectangle, UpdateMode),
    RenderNoWait(Rectangle, UpdateMode),
    Expose(Rectangle),
    Open(DocumentInfo),
    Back,
    Show(ViewId),
    Close(ViewId),
    Select(EntryId),
    Key(KeyKind),
    ClockTick,
    Invalid(DocumentInfo),
}

/// A raw key of the platform, as far as the key table tells keys apart.
/// `Other` carries the key's printable name.
#[derive(Clone, Debug, PartialEq, Eq)]
pub enum RawKey {
    LShift,
    RShift,
    LAlt,
    RAlt,
    Return,
    Left,
    Right,
    Backspace,
    Delete,
    Escape,
    Other(String),
}

/// What a raw key press leads to.
#[derive(Clone, Copy, Debug, PartialEq, Eq, Structural)]
pub enum KeyAction {
    /// Leave the run loop at once, without going through the queue.
    Quit,
    /// Queue `Event::Key` with this key.
    Send(KeyKind),
    /// Drop the key.
    Ignore,
}

/// The first character of a character's lower-case form, as the standard
/// library computes it.
pub uninterp spec fn lower_glyph(c: char) -> char;

/// Relies on `char::to_lowercase`, which always yields at least one character;
/// its first one is kept.
#[verifier::external_body]
fn lowercase_glyph(c: char) -> (r: char)
    ensures
        r == lower_glyph(c),
{
    c.to_lowercase().next().unwrap_or(c)
}

/// The key table: raw key to what the run loop does with it.
pub open spec fn key_action(k: RawKey) -> KeyAction {
    match k {
        RawKey::LShift | RawKey::RShift => KeyAction::Send(KeyKind::Shift),
        RawKey::LAlt => KeyAction::Send(KeyKind::Combine),
        RawKey::RAlt => KeyAction::Send(KeyKind::Alternate),
        RawKey::Return => KeyAction::Send(KeyKind::Return),
        RawKey::Left => KeyAction::Send(KeyKind::Move(LinearDir::Backward)),
        RawKey::Right => KeyAction::Send(KeyKind::Move(LinearDir::Forward)),
        RawKey::Backspace => KeyAction::Send(KeyKind::Delete(LinearDir::Backward)),
        RawKey::Delete => KeyAction::Send(KeyKind::Delete(LinearDir::Forward)),
        RawKey::Escape => KeyAction::Quit,
        RawKey::Other(name) => if name@.len() == 1 {
            KeyAction::Send(KeyKind::Output(lower_glyph(name@[0])))
        } else {
            KeyAction::Ignore
        },
    }
}

/// Maps a raw key press to its semantic key.
pub fn map_key(key: &RawKey) -> (r: KeyAction)
    ensures
        r == key_action(*key),
{
    match key {
        RawKey::LShift | RawKey::RShift => KeyAction::Send(KeyKind::Shift),
        RawKey::LAlt => KeyAction::Send(KeyKind::Combine),
        RawKey::RAlt => KeyAction::Send(KeyKind::Alternate),
        RawKey::Return => KeyAction::Send(KeyKind::Return),
        RawKey::Left => KeyAction::Send(KeyKind::Move(LinearDir::Backward)),
        RawKey::Right => KeyAction::Send(KeyKind::Move(LinearDir::Forward)),
        RawKey::Backspace => KeyAction::Send(KeyKind::Delete(LinearDir::Backward)),
        RawKey::Delete => KeyAction::Send(KeyKind::Delete(LinearDir::Forward)),
        RawKey::Escape => KeyAction::Quit,
        RawKey::Other(name) => {
            let s = name.as_str();
            if s.unicode_len() == 1 {
                let c = s.get_char(0);
                KeyAction::Send(KeyKind::Output(lowercase_glyph(c)))
            } else {
                KeyAction::Ignore
            }
        },
    }
}

/// The key table is a function of the raw key alone, and a key outside the table
/// (a name that is not a single glyph) is never translated.
pub proof fn lemma_key_table_is_pure(a: RawKey, b: RawKey)
    ensures
        a == b ==> key_action(a) == key_action(b),
        forall|name: String|
            name@.len() != 1 ==> #[trigger] key_action(RawKey::Other(name)) == KeyAction::Ignore,
{
}

/// Contact state of a finger.
#[derive(Clone, Copy, Debug, PartialEq, Eq, Structural)]
pub enum FingerStatus {
    Down,
    Motion,
    Up,
}

/// Raw pointer input. `time_ms` is milliseconds since the session started.
#[derive(Clone, Copy, Debug, PartialEq, Eq, Structural)]
pub enum DeviceEvent {
    Finger { id: i32, status: FingerStatus, position: Point, time_ms: u32 },
}

/// A platform event as far as pointer input is concerned.
#[derive(Clone, Copy, Debug, PartialEq, Eq, Structural)]
pub enum PointerInput {
    ButtonDown { timestamp: u32, x: i32, y: i32 },
    ButtonUp { timestamp: u32, x: i32, y: i32 },
    Motion { timestamp: u32, x: i32, y: i32 },
    Other,
}

pub open spec fn finger(status: FingerStatus, timestamp: u32, x: i32, y: i32) -> DeviceEvent {
    DeviceEvent::Finger { id: 0, status, position: Point { x, y }, time_ms: timestamp }
}

/// Turns mouse input into the single finger `0`; anything else is no pointer input.
pub fn device_event(event: PointerInput) -> (r: Option<DeviceEvent>)
    ensures
        r == match event {
            PointerInput::ButtonDown { timestamp, x, y } => Some(
                finger(FingerStatus::Down, timestamp, x, y),
            ),
            PointerInput::ButtonUp { timestamp, x, y } => Some(
                finger(FingerStatus::Up, timestamp, x, y),
            ),
            PointerInput::Motion { timestamp, x, y } => Some(
                finger(FingerStatus::Motion, timestamp, x, y),
            ),
            PointerInput::Other => None,
        },
{
    match event {
        PointerInput::ButtonDown { timestamp, x, y } => Some(
            DeviceEvent::Finger {
                id: 0,
                status: FingerStatus::Down,
                position: Point { x, y },
                time_ms: timestamp,
            },
        ),
        PointerInput::ButtonUp { timestamp, x, y } => Some(
            DeviceEvent::Finger {
                id: 0,
                status: FingerStatus::Up,
                position: Point { x, y },
                time_ms: timestamp,
            },
        ),
        PointerInput::Motion { timestamp, x, y } => Some(
            DeviceEvent::Finger {
                id: 0,
                status: FingerStatus::Motion,
                position: Point { x, y },
                time_ms: timestamp,
            },
        ),
        PointerInput::Other => None,
    }
}

} // verus!
