//! The virtual keyboard: what it is made of, and the events that make up a
//! click. A click is a key going down and the same key going up, handed out
//! together so that the two are written to the device in one piece.

use crate::translate::{Click, InputReport, KeyMapping};
use vstd::prelude::*;

verus! {

/// Code of the left arrow key.
pub const KEY_LEFT: u16 = 105;

/// Code of the right arrow key.
pub const KEY_RIGHT: u16 = 106;

/// Value of the event of a key that goes up.
pub const RELEASED: i32 = 0;

/// Value of the event of a key that goes down.
pub const PRESSED: i32 = 1;

/// An event of a key of the virtual keyboard.
#[derive(Clone, Copy, Debug, PartialEq, Eq, Structural)]
pub struct KeyEvent {
    pub code: u16,
    pub value: i32,
}

/// The events of one click of the key `code`: down, then up.
pub open spec fn click_of(code: u16) -> Seq<KeyEvent> {
    seq![KeyEvent { code, value: PRESSED }, KeyEvent { code, value: RELEASED }]
}

/// The key of the virtual keyboard that a click is made on.
pub open spec fn key_of(click: Click) -> u16 {
    match click {
        Click::Left => KEY_LEFT,
        Click::Right => KEY_RIGHT,
    }
}

/// The events that one report of the controller is worth on the virtual
/// keyboard under `mapping`.
pub open spec fn events_of(mapping: KeyMapping, report: InputReport) -> Seq<KeyEvent> {
    match mapping.spec_click(report) {
        Some(click) => click_of(key_of(click)),
        None => Seq::empty(),
    }
}

/// Why the virtual keyboard could not be created.
#[derive(Clone, Copy, Debug, PartialEq, Eq, Structural)]
pub enum CreationFailure {
    /// The process may not open the device that creates keyboards.
    PermissionDenied,
    /// Anything else.
    Other,
}

/// The virtual keyboard, known by the descriptor under which it was created.
#[derive(Clone, Copy, Debug, PartialEq, Eq, Structural)]
pub struct Clicker {
    device_fd: i32,
}

impl Clicker {
    /// The descriptor of the keyboard.
    pub closed spec fn fd(&self) -> i32 {
        self.device_fd
    }

    /// The keyboard that was created under the descriptor `device_fd`.
    pub fn new(device_fd: i32) -> (clicker: Clicker)
        ensures
            clicker.fd() == device_fd,
    {
        Clicker { device_fd }
    }

    /// The name under which the keyboard is registered.
    pub fn name() -> (name: &'static str)
        ensures
            name@ == "Joycon2click virtual keyboard"@,
    {
        "Joycon2click virtual keyboard"
    }

    /// The keys that the keyboard is registered with: the two arrows.
    pub fn keys() -> (keys: [u16; 2])
        ensures
            keys@ == seq![KEY_LEFT, KEY_RIGHT],
    {
        [KEY_LEFT, KEY_RIGHT]
    }

    /// What to tell the user where the keyboard could not be created: how to
    /// mend it, where that is known.
    pub fn remediation(failure: CreationFailure) -> (hint: Option<&'static str>)
        ensures
            failure == CreationFailure::PermissionDenied ==> hint is Some && hint->0@
                == "Permission error on /dev/uinput. Check the documentation for various workarounds."@,
            failure == CreationFailure::Other ==> hint is None,
    {
        match failure {
            CreationFailure::PermissionDenied => Some(
                "Permission error on /dev/uinput. Check the documentation for various workarounds.",
            ),
            CreationFailure::Other => None,
        }
    }

    /// The events of a click of the key `code`: the key goes down, then up.
    pub fn press_key(&self, code: u16) -> (events: [KeyEvent; 2])
        ensures
            events@ == click_of(code),
    {
        [KeyEvent { code, value: PRESSED }, KeyEvent { code, value: RELEASED }]
    }

    /// The events that one report of the controller is worth under
    /// `mapping`: those of one click where the report is a mapped button
    /// going down, and none for any other report.
    pub fn events_for(&self, mapping: &KeyMapping, report: &InputReport) -> (events: Vec<KeyEvent>)
        ensures
            events@ == events_of(*mapping, *report),
            !report.is_key_down() ==> events@ == Seq::<KeyEvent>::empty(),
    {
        let mut events: Vec<KeyEvent> = Vec::new();
        match mapping.click(report) {
            Some(click) => {
                let pair = self.press(click);
                events.push(pair[0]);
                events.push(pair[1]);
                assert(events@ =~= click_of(key_of(click)));
            },
            None => {},
        }
        events
    }

    /// The events of a click of the left arrow.
    pub fn press_left(&self) -> (events: [KeyEvent; 2])
        ensures
            events@ == click_of(KEY_LEFT),
    {
        self.press_key(KEY_LEFT)
    }

    /// The events of a click of the right arrow.
    pub fn press_right(&self) -> (events: [KeyEvent; 2])
        ensures
            events@ == click_of(KEY_RIGHT),
    {
        self.press_key(KEY_RIGHT)
    }

    /// The events of `click`.
    pub fn press(&self, click: Click) -> (events: [KeyEvent; 2])
        ensures
            events@ == click_of(key_of(click)),
    {
        match click {
            Click::Left => self.press_left(),
            Click::Right => self.press_right(),
        }
    }

    /// The descriptor of the keyboard.
    pub fn get_device_fd(&self) -> (fd: i32)
        ensures
            fd == self.fd(),
    {
        self.device_fd
    }
}

/// A report that is not a key going down is worth no event, whatever the
/// mapping: not a release, not a repeat, not a report of another kind.
pub proof fn lemma_only_key_down_clicks(mapping: KeyMapping, report: InputReport)
    requires
        report.value != 1 || report.event_type != crate::translate::EV_KEY,
    ensures
        mapping.spec_click(report) is None,
        events_of(mapping, report) == Seq::<KeyEvent>::empty(),
        mapping.spec_clicks(seq![report]) == Seq::<Click>::empty(),
{
    lemma_clicks_of_one(mapping, report);
}

/// A batch of reports of which none is a key going down is worth no click.
pub proof fn lemma_no_click_without_key_down(mapping: KeyMapping, reports: Seq<InputReport>)
    requires
        forall|i: int| 0 <= i < reports.len() ==> !(#[trigger] reports[i]).is_key_down(),
    ensures
        mapping.spec_clicks(reports) == Seq::<Click>::empty(),
    decreases reports.len(),
{
    if reports.len() > 0 {
        lemma_no_click_without_key_down(mapping, reports.drop_last());
    }
}

/// A button of the left set that goes down is worth one click of the left
/// arrow, and so one event of the key going down followed by one of it going
/// up, and nothing else.
pub proof fn lemma_left_button_clicks_left(mapping: KeyMapping, report: InputReport)
    requires
        report.is_key_down(),
        mapping.left@.contains(report.code),
    ensures
        mapping.spec_clicks(seq![report]) == seq![Click::Left],
        events_of(mapping, report) == seq![
            KeyEvent { code: KEY_LEFT, value: 1 },
            KeyEvent { code: KEY_LEFT, value: 0 },
        ],
{
    lemma_clicks_of_one(mapping, report);
}

/// A button of the right set, and not of the left, that goes down is worth
/// one click of the right arrow: down, then up.
pub proof fn lemma_right_button_clicks_right(mapping: KeyMapping, report: InputReport)
    requires
        report.is_key_down(),
        mapping.right@.contains(report.code),
        !mapping.left@.contains(report.code),
    ensures
        mapping.spec_clicks(seq![report]) == seq![Click::Right],
        events_of(mapping, report) == seq![
            KeyEvent { code: KEY_RIGHT, value: 1 },
            KeyEvent { code: KEY_RIGHT, value: 0 },
        ],
{
    lemma_clicks_of_one(mapping, report);
}

/// The clicks of a batch of one report are the click of that report.
proof fn lemma_clicks_of_one(mapping: KeyMapping, report: InputReport)
    ensures
        mapping.spec_clicks(seq![report]) == match mapping.spec_click(report) {
            Some(click) => seq![click],
            None => Seq::<Click>::empty(),
        },
{
    let one = seq![report];
    assert(one.drop_last() =~= Seq::<InputReport>::empty());
    assert(one.last() == report);
    let f = |r: InputReport| mapping.spec_click(r);
    assert(one.drop_last().filter_map(f) =~= Seq::<Click>::empty());
    assert(one.filter_map(f) =~= match f(report) {
        Some(click) => seq![click],
        None => Seq::<Click>::empty(),
    });
}

} // verus!
