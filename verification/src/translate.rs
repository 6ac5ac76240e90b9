//! From the reports of the controller to clicks: only a key that goes down
//! counts, and the mapping says which click it is worth.

use vstd::prelude::*;

verus! {

/// Type of the reports that speak of a key or a button.
pub const EV_KEY: u16 = 1;

/// Value of a report that says a key went down. A release has 0, a repeat 2.
pub const KEY_DOWN: i32 = 1;

pub const BTN_EAST: u16 = 0x131;

pub const BTN_WEST: u16 = 0x134;

pub const BTN_TL: u16 = 0x136;

pub const BTN_TR: u16 = 0x137;

pub const BTN_TL2: u16 = 0x138;

pub const BTN_TR2: u16 = 0x139;

pub const BTN_DPAD_LEFT: u16 = 0x222;

pub const BTN_DPAD_RIGHT: u16 = 0x223;

/// One report read from the controller.
#[derive(Clone, Copy, Debug, PartialEq, Eq, Structural)]
pub struct InputReport {
    pub event_type: u16,
    pub code: u16,
    pub value: i32,
}

/// A click of the virtual keyboard.
#[derive(Clone, Copy, Debug, PartialEq, Eq, Structural)]
pub enum Click {
    Left,
    Right,
}

/// What a button of the controller is worth.
#[derive(Clone, Copy, Debug, PartialEq, Eq, Structural)]
pub enum ButtonAction {
    PressLeft,
    PressRight,
    Ignore,
}

/// The buttons that click left and those that click right. A button that
/// stands in both clicks left.
#[derive(Clone, Debug)]
pub struct KeyMapping {
    pub left: Vec<u16>,
    pub right: Vec<u16>,
}

/// What the button `code` is worth where `left` and `right` hold the buttons
/// of each side.
pub open spec fn action_of(left: Seq<u16>, right: Seq<u16>, code: u16) -> ButtonAction {
    if left.contains(code) {
        ButtonAction::PressLeft
    } else if right.contains(code) {
        ButtonAction::PressRight
    } else {
        ButtonAction::Ignore
    }
}

/// Whether `code` stands in `codes`.
fn holds(codes: &Vec<u16>, code: u16) -> (yes: bool)
    ensures
        yes == codes@.contains(code),
{
    let mut at: usize = 0;
    while at < codes.len()
        invariant
            at <= codes.len(),
            forall|j: int| 0 <= j < at ==> codes[j] != code,
        decreases codes.len() - at,
    {
        if codes[at] == code {
            return true;
        }
        at += 1;
    }
    false
}

impl KeyMapping {
    /// What the button `code` is worth.
    pub open spec fn spec_action(&self, code: u16) -> ButtonAction {
        action_of(self.left@, self.right@, code)
    }

    /// The mapping of the controllers: the left arrow of the pad and the
    /// west button click left; the shoulder buttons, the triggers, the right
    /// arrow of the pad and the east button click right.
    pub fn joycon() -> (mapping: KeyMapping)
        ensures
            mapping.left@ == seq![BTN_DPAD_LEFT, BTN_WEST],
            mapping.right@ == seq![BTN_TR, BTN_TL, BTN_TR2, BTN_TL2, BTN_DPAD_RIGHT, BTN_EAST],
    {
        KeyMapping {
            left: vec![BTN_DPAD_LEFT, BTN_WEST],
            right: vec![BTN_TR, BTN_TL, BTN_TR2, BTN_TL2, BTN_DPAD_RIGHT, BTN_EAST],
        }
    }

    /// What the button `code` is worth.
    pub fn action(&self, code: u16) -> (action: ButtonAction)
        ensures
            action == self.spec_action(code),
    {
        if holds(&self.left, code) {
            ButtonAction::PressLeft
        } else if holds(&self.right, code) {
            ButtonAction::PressRight
        } else {
            ButtonAction::Ignore
        }
    }

    /// The click that `report` is worth, if it is worth one.
    pub open spec fn spec_click(&self, report: InputReport) -> Option<Click> {
        if report.is_key_down() {
            match self.spec_action(report.code) {
                ButtonAction::PressLeft => Some(Click::Left),
                ButtonAction::PressRight => Some(Click::Right),
                ButtonAction::Ignore => None,
            }
        } else {
            None
        }
    }

    /// The click that `report` is worth, if it is worth one: a report that
    /// is not a key going down is worth none, whatever its code.
    pub fn click(&self, report: &InputReport) -> (click: Option<Click>)
        ensures
            click == self.spec_click(*report),
            !report.is_key_down() ==> click is None,
            report.is_key_down() && self.left@.contains(report.code) ==> click == Some(Click::Left),
    {
        if report.key_down() {
            match self.action(report.code) {
                ButtonAction::PressLeft => Some(Click::Left),
                ButtonAction::PressRight => Some(Click::Right),
                ButtonAction::Ignore => None,
            }
        } else {
            None
        }
    }

    /// The clicks that a batch of reports is worth, in the order of the
    /// reports.
    pub open spec fn spec_clicks(&self, reports: Seq<InputReport>) -> Seq<Click> {
        reports.filter_map(|r: InputReport| self.spec_click(r))
    }

    /// The clicks that a batch of reports is worth, in the order of the
    /// reports.
    pub fn clicks(&self, reports: &Vec<InputReport>) -> (clicks: Vec<Click>)
        ensures
            clicks@ == self.spec_clicks(reports@),
    {
        let mut clicks: Vec<Click> = Vec::new();
        let mut at: usize = 0;
        while at < reports.len()
            invariant
                at <= reports.len(),
                clicks@ == self.spec_clicks(reports@.take(at as int)),
            decreases reports.len() - at,
        {
            proof {
                let next = reports@.take(at as int + 1);
                assert(next.drop_last() =~= reports@.take(at as int));
                assert(next.last() == reports[at as int]);
            }
            match self.click(&reports[at]) {
                Some(click) => {
                    clicks.push(click);
                },
                None => {},
            }
            at += 1;
        }
        assert(reports@.take(at as int) =~= reports@);
        clicks
    }
}

impl InputReport {
    /// Whether the report says that a key went down: not a release, not a
    /// repeat, and nothing but a key.
    pub open spec fn is_key_down(self) -> bool {
        self.event_type == EV_KEY && self.value == KEY_DOWN
    }

    /// Whether the report says that a key went down.
    pub fn key_down(&self) -> (yes: bool)
        ensures
            yes == self.is_key_down(),
    {
        self.event_type == EV_KEY && self.value == KEY_DOWN
    }
}

} // verus!
