//! Finding the controller: which of the devices that are present is one, and
//! which event of the kernel announces that one has been bound to its driver.

use kobject_uevent::{ActionType, UEvent};
use vstd::prelude::*;

verus! {

/// Vendor id of the controllers.
pub const VID_NINTENDO: u16 = 1406;

/// Product id of the left controller.
pub const PID_JOYCON_LEFT: u16 = 8198;

/// Product id of the right controller.
pub const PID_JOYCON_RIGHT: u16 = 8199;

/// The identity under which an input device presents itself.
#[derive(Clone, Copy, Debug, PartialEq, Eq, Structural)]
pub struct DeviceIdentity {
    pub vendor_id: u16,
    pub product_id: u16,
}

impl DeviceIdentity {
    /// Whether this is the identity of a controller, left or right.
    pub open spec fn spec_is_joycon(self) -> bool {
        self.vendor_id == VID_NINTENDO && (self.product_id == PID_JOYCON_LEFT || self.product_id
            == PID_JOYCON_RIGHT)
    }

    /// Whether this is the identity of a controller, left or right.
    pub fn is_joycon(&self) -> (yes: bool)
        ensures
            yes == self.spec_is_joycon(),
    {
        (self.product_id == PID_JOYCON_RIGHT || self.product_id == PID_JOYCON_LEFT)
            && self.vendor_id == VID_NINTENDO
    }
}

/// Picks the controller among the devices that are present, given in the
/// order in which they were found: the first that is one. That there is none
/// is an ordinary answer.
pub fn get_joycon(devices: &Vec<DeviceIdentity>) -> (found: Option<usize>)
    ensures
        match found {
            Some(at) => {
                &&& at < devices.len()
                &&& devices[at as int].spec_is_joycon()
                &&& forall|j: int| 0 <= j < at ==> !(#[trigger] devices[j]).spec_is_joycon()
            },
            None => forall|j: int| 0 <= j < devices.len() ==> !(#[trigger] devices[j]).spec_is_joycon(),
        },
{
    let mut at: usize = 0;
    while at < devices.len()
        invariant
            at <= devices.len(),
            forall|j: int| 0 <= j < at ==> !(#[trigger] devices[j]).spec_is_joycon(),
        decreases devices.len() - at,
    {
        if devices[at].is_joycon() {
            return Some(at);
        }
        at += 1;
    }
    None
}

/// What happened to the kernel object of an event.
#[derive(Clone, Copy, Debug, PartialEq, Eq, Structural)]
pub enum HotplugAction {
    /// A device was bound to a driver.
    Bind,
    /// Anything else.
    Other,
}

/// An event of the kernel about one of its objects.
#[derive(Clone, Debug)]
pub struct HotplugEvent {
    pub action: HotplugAction,
    /// The subsystem that the event comes from.
    pub subsystem: String,
    /// The attributes of the event, as pairs of a key and its value. Where a
    /// key stands twice, its first value counts.
    pub attributes: Vec<(String, String)>,
}

/// What a `HotplugEvent` holds.
pub struct EventView {
    pub action: HotplugAction,
    pub subsystem: Seq<char>,
    pub attributes: Map<Seq<char>, Seq<char>>,
}

/// Whether `at` is the first place in `attributes` at which `key` stands.
pub open spec fn first_at(attributes: Seq<(String, String)>, key: Seq<char>, at: int) -> bool {
    &&& 0 <= at < attributes.len()
    &&& attributes[at].0@ == key
    &&& forall|j: int| 0 <= j < at ==> (#[trigger] attributes[j]).0@ != key
}

/// The attributes as a map from each key to its first value.
pub open spec fn attribute_map(attributes: Seq<(String, String)>) -> Map<Seq<char>, Seq<char>> {
    Map::new(
        |key: Seq<char>| exists|at: int| first_at(attributes, key, at),
        |key: Seq<char>| attributes[choose|at: int| first_at(attributes, key, at)].1@,
    )
}

impl View for HotplugEvent {
    type V = EventView;

    open spec fn view(&self) -> EventView {
        EventView {
            action: self.action,
            subsystem: self.subsystem@,
            attributes: attribute_map(self.attributes@),
        }
    }
}

/// The subsystem whose events are of interest.
pub open spec fn spec_subsystem() -> Seq<char> {
    "hid"@
}

/// The attribute that names the driver.
pub open spec fn spec_driver_key() -> Seq<char> {
    "DRIVER"@
}

/// The driver of the controllers.
pub open spec fn spec_driver() -> Seq<char> {
    "nintendo"@
}

/// Whether an event says that a controller was bound to its driver: a bind,
/// from the subsystem `hid`, whose attribute `DRIVER` is `nintendo`.
pub open spec fn announces_joycon(event: EventView) -> bool {
    &&& event.action == HotplugAction::Bind
    &&& event.subsystem == spec_subsystem()
    &&& event.attributes.contains_key(spec_driver_key())
    &&& event.attributes[spec_driver_key()] == spec_driver()
}

impl HotplugEvent {
    /// The value of the attribute `key`, if the event has it.
    pub fn attribute(&self, key: &str) -> (value: Option<&String>)
        ensures
            match value {
                Some(v) => self@.attributes.contains_key(key@) && self@.attributes[key@] == v@,
                None => !self@.attributes.contains_key(key@),
            },
    {
        let wanted = key.to_owned();
        let mut at: usize = 0;
        while at < self.attributes.len()
            invariant
                at <= self.attributes.len(),
                wanted@ == key@,
                forall|j: int| 0 <= j < at ==> (#[trigger] self.attributes[j]).0@ != key@,
            decreases self.attributes.len() - at,
        {
            if self.attributes[at].0 == wanted {
                proof {
                    assert(first_at(self.attributes@, key@, at as int));
                    let chosen = choose|c: int| first_at(self.attributes@, key@, c);
                    assert(chosen == at);
                }
                return Some(&self.attributes[at].1);
            }
            at += 1;
        }
        proof {
            assert forall|c: int| !first_at(self.attributes@, key@, c) by {
                if 0 <= c < self.attributes.len() {
                    assert(self.attributes[c].0@ != key@);
                }
            }
        }
        None
    }

    /// Whether the event says that a controller was bound to its driver.
    pub fn is_joycon_bind(&self) -> (yes: bool)
        ensures
            yes == announces_joycon(self@),
    {
        let subsystem = "hid".to_owned();
        let driver = "nintendo".to_owned();
        match self.action {
            HotplugAction::Bind => {
                if self.subsystem == subsystem {
                    match self.attribute("DRIVER") {
                        Some(name) => *name == driver,
                        None => false,
                    }
                } else {
                    false
                }
            },
            HotplugAction::Other => false,
        }
    }
}

/// The event that `kobject_uevent` reads from a packet of the kernel, or
/// `None` where it reads none.
pub uninterp spec fn uevent_of(packet: Seq<u8>) -> Option<EventView>;

/// `UEvent::from_netlink_packet` of `kobject_uevent`, which reads an event
/// from a packet. What it reads depends on the packet alone. Of the event it
/// keeps whether the action is a bind, the subsystem, and the environment,
/// in which no key stands twice, so that the order of the pairs does not
/// matter.
#[verifier::external_body]
fn parse_uevent(packet: &[u8]) -> (event: Option<HotplugEvent>)
    ensures
        match event {
            Some(e) => uevent_of(packet@) == Some(e@),
            None => uevent_of(packet@) is None,
        },
{
    let UEvent { action, subsystem, env, .. } = UEvent::from_netlink_packet(packet).ok()?;
    let action = match action {
        ActionType::Add => HotplugAction::Other,
        ActionType::Remove => HotplugAction::Other,
        ActionType::Change => HotplugAction::Other,
        ActionType::Move => HotplugAction::Other,
        ActionType::Online => HotplugAction::Other,
        ActionType::Offline => HotplugAction::Other,
        ActionType::Bind => HotplugAction::Bind,
        ActionType::Unbind => HotplugAction::Other,
    };
    Some(HotplugEvent { action, subsystem, attributes: env.into_iter().collect() })
}

/// What `packet_announces_joycon` answers for the event read from a packet.
pub open spec fn announcement_of(event: Option<EventView>) -> Option<bool> {
    match event {
        Some(e) => Some(announces_joycon(e)),
        None => None,
    }
}

/// Reads the event that a packet of the kernel holds; `None` where it holds
/// none that can be read.
pub fn read_event(packet: &[u8]) -> (event: Option<HotplugEvent>)
    ensures
        match event {
            Some(e) => uevent_of(packet@) == Some(e@),
            None => uevent_of(packet@) is None,
        },
{
    parse_uevent(packet)
}

/// Whether a packet of the kernel says that a controller was bound to its
/// driver; `None` where the packet holds no event.
pub fn packet_announces_joycon(packet: &[u8]) -> (answer: Option<bool>)
    ensures
        answer == announcement_of(uevent_of(packet@)),
{
    match read_event(packet) {
        Some(event) => Some(event.is_joycon_bind()),
        None => None,
    }
}

} // verus!
