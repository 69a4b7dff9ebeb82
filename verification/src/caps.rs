use vstd::prelude::*;
use crate::comms::{DaemonCommand, DaemonResponse};
use crate::device::{tags_contain, tags_include, SupportedDevice, DEFAULT_FAN_MAX, DEFAULT_FAN_MIN};
use crate::text::str_eq;

verus! {

/// Static device capabilities, fetched once at startup — kept separate from
/// the per-poll sensor readings so the poll loop preserves them as one unit.
#[derive(Clone, Copy, PartialEq, Eq, Debug, Structural)]
pub struct DeviceCaps {
    pub fan_min: i32,
    pub fan_max: i32,
    pub has_logo: bool,
}

/// The capabilities assumed for a device nothing is known about.
pub open spec fn default_caps() -> DeviceCaps {
    DeviceCaps { fan_min: DEFAULT_FAN_MIN, fan_max: DEFAULT_FAN_MAX, has_logo: false }
}

impl Default for DeviceCaps {
    fn default() -> (c: Self)
        ensures
            c == default_caps(),
    {
        DeviceCaps { fan_min: DEFAULT_FAN_MIN, fan_max: DEFAULT_FAN_MAX, has_logo: false }
    }
}

/// Capabilities from a device entry's feature tags and fan range: the first
/// fan value is the minimum, the second the maximum, each defaulting when
/// absent; the logo can be driven when a `logo` tag is present.
pub open spec fn spec_caps_from_parts(features: Seq<String>, fan: Seq<u16>) -> DeviceCaps {
    DeviceCaps {
        fan_min: if fan.len() >= 1 { fan[0] as i32 } else { DEFAULT_FAN_MIN },
        fan_max: if fan.len() >= 2 { fan[1] as i32 } else { DEFAULT_FAN_MAX },
        has_logo: tags_contain(features, "logo"@),
    }
}

pub fn caps_from_parts(features: &[String], fan: &[u16]) -> (c: DeviceCaps)
    ensures
        c == spec_caps_from_parts(features@, fan@),
{
    let fan_min = if fan.len() >= 1 { fan[0] as i32 } else { DEFAULT_FAN_MIN };
    let fan_max = if fan.len() >= 2 { fan[1] as i32 } else { DEFAULT_FAN_MAX };
    DeviceCaps { fan_min, fan_max, has_logo: tags_include(features, "logo") }
}

/// `i` is the position of the first entry named `name`.
pub open spec fn first_named(devices: Seq<SupportedDevice>, name: Seq<char>, i: int) -> bool {
    &&& 0 <= i < devices.len()
    &&& devices[i].name@ == name
    &&& forall|j: int| 0 <= j < i ==> #[trigger] devices[j].name@ != name
}

/// No entry is named `name`.
pub open spec fn none_named(devices: Seq<SupportedDevice>, name: Seq<char>) -> bool {
    forall|j: int| 0 <= j < devices.len() ==> #[trigger] devices[j].name@ != name
}

/// Fan range and logo capability for `name` from the parsed device list:
/// those of the first entry with that name, `None` when the device is not
/// in the list (the caller decides the fallback and logs the miss).
pub fn device_info(devices: &[SupportedDevice], name: &str) -> (r: Option<DeviceCaps>)
    ensures
        r is None <==> none_named(devices@, name@),
        r matches Some(c) ==> exists|i: int|
            first_named(devices@, name@, i) && c == spec_caps_from_parts(
                #[trigger] devices@[i].features@,
                devices@[i].fan@,
            ),
{
    let n = devices.len();
    let mut i: usize = 0;
    while i < n
        invariant
            n == devices@.len(),
            i <= n,
            forall|j: int| 0 <= j < i ==> #[trigger] devices@[j].name@ != name@,
        decreases n - i,
    {
        let d = &devices[i];
        if str_eq(d.name.as_str(), name) {
            let c = caps_from_parts(d.features.as_slice(), d.fan.as_slice());
            assert(first_named(devices@, name@, i as int));
            return Some(c);
        }
        i = i + 1;
    }
    None
}

/// Like `device_info`, with the default capabilities for an unknown device;
/// the flag says whether the device was found (so the miss can be logged).
pub fn device_caps_or_default(devices: &[SupportedDevice], name: &str) -> (r: (DeviceCaps, bool))
    ensures
        r.1 <==> !none_named(devices@, name@),
        !r.1 ==> r.0 == default_caps(),
        r.1 ==> exists|i: int|
            first_named(devices@, name@, i) && r.0 == spec_caps_from_parts(
                #[trigger] devices@[i].features@,
                devices@[i].fan@,
            ),
{
    match device_info(devices, name) {
        Some(c) => (c, true),
        None => (DeviceCaps::default(), false),
    }
}

/// Capabilities carried by the daemon's answer to `GetDeviceCapabilities`;
/// `None` for any other answer or no answer (older daemons).
pub open spec fn spec_caps_from_response(resp: Option<DaemonResponse>) -> Option<DeviceCaps> {
    match resp {
        Some(DaemonResponse::GetDeviceCapabilities { name, features, fan }) => Some(
            spec_caps_from_parts(features@, fan@),
        ),
        _ => None,
    }
}

pub fn caps_from_response(resp: Option<DaemonResponse>) -> (r: Option<DeviceCaps>)
    ensures
        r == spec_caps_from_response(resp),
{
    match resp {
        Some(DaemonResponse::GetDeviceCapabilities { name, features, fan }) => Some(
            caps_from_parts(features.as_slice(), fan.as_slice()),
        ),
        _ => None,
    }
}

/// The device name carried by the daemon's answer to `GetDeviceName`.
pub open spec fn spec_device_name(resp: Option<DaemonResponse>) -> Option<Seq<char>> {
    match resp {
        Some(DaemonResponse::GetDeviceName { name }) => Some(name@),
        _ => None,
    }
}

pub fn device_name_from_response(resp: Option<DaemonResponse>) -> (r: Option<String>)
    ensures
        match r {
            Some(n) => spec_device_name(resp) == Some(n@),
            None => spec_device_name(resp) is None,
        },
{
    match resp {
        Some(DaemonResponse::GetDeviceName { name }) => Some(name),
        _ => None,
    }
}

/// Where the startup lookup of the device capabilities stands. The daemon is
/// asked for its own parsed device entry first, so the tray cannot drift
/// from the daemon's view; a daemon too old to answer that is asked for the
/// device name, which is then looked up in the local device list.
#[derive(Clone, Debug)]
pub enum CapsLookup {
    /// Ask the daemon for its device capabilities.
    AskCapabilities,
    /// Ask the daemon for the device name.
    AskName,
    /// Look `name` up in the local device list.
    ReadList { name: String },
    /// Finished: the capabilities, `None` when the daemon did not tell
    /// the device or the device list could not be read.
    Done { caps: Option<DeviceCaps> },
}

/// What the caller does next for a lookup.
#[derive(Debug)]
pub enum CapsAction {
    /// Send this command to the daemon and hand its answer to `answer`.
    Ask(DaemonCommand),
    /// Read the device list and hand it to `read_list`; the name is the
    /// device to look up.
    ReadList(String),
    /// The lookup is over.
    Finish(Option<DeviceCaps>),
}

/// The action a lookup asks for.
pub open spec fn spec_caps_action(l: CapsLookup) -> CapsAction {
    match l {
        CapsLookup::AskCapabilities => CapsAction::Ask(DaemonCommand::GetDeviceCapabilities),
        CapsLookup::AskName => CapsAction::Ask(DaemonCommand::GetDeviceName),
        CapsLookup::ReadList { name } => CapsAction::ReadList(name),
        CapsLookup::Done { caps } => CapsAction::Finish(caps),
    }
}

/// The lookup after the daemon's answer `resp` (`None`: no answer) to the
/// pending question: a capabilities answer finishes it, anything else
/// falls back to asking for the name; a name answer moves on to the device
/// list, anything else ends the lookup without capabilities.
pub open spec fn spec_caps_answer(l: CapsLookup, resp: Option<DaemonResponse>) -> CapsLookup {
    match l {
        CapsLookup::AskCapabilities => match spec_caps_from_response(resp) {
            Some(c) => CapsLookup::Done { caps: Some(c) },
            None => CapsLookup::AskName,
        },
        CapsLookup::AskName => match resp {
            Some(DaemonResponse::GetDeviceName { name }) => CapsLookup::ReadList { name },
            _ => CapsLookup::Done { caps: None },
        },
        _ => l,
    }
}

impl CapsLookup {
    pub fn start() -> (l: CapsLookup)
        ensures
            l == CapsLookup::AskCapabilities,
    {
        CapsLookup::AskCapabilities
    }

    pub fn next_action(&self) -> (a: CapsAction)
        ensures
            a == spec_caps_action(*self),
    {
        match self {
            CapsLookup::AskCapabilities => CapsAction::Ask(DaemonCommand::GetDeviceCapabilities),
            CapsLookup::AskName => CapsAction::Ask(DaemonCommand::GetDeviceName),
            CapsLookup::ReadList { name } => CapsAction::ReadList(name.clone()),
            CapsLookup::Done { caps } => CapsAction::Finish(*caps),
        }
    }

    pub fn answer(self, resp: Option<DaemonResponse>) -> (l: CapsLookup)
        ensures
            l == spec_caps_answer(self, resp),
    {
        match self {
            CapsLookup::AskCapabilities => match caps_from_response(resp) {
                Some(c) => CapsLookup::Done { caps: Some(c) },
                None => CapsLookup::AskName,
            },
            CapsLookup::AskName => match resp {
                Some(DaemonResponse::GetDeviceName { name }) => CapsLookup::ReadList { name },
                _ => CapsLookup::Done { caps: None },
            },
            other => other,
        }
    }

    /// Finishes a lookup that waits for the device list (`None`: the list
    /// could not be read): the capabilities of the first entry with the
    /// name, or the defaults for a device the list does not know. The flag
    /// is true exactly when the list was read and lacks the device, so the
    /// caller can report the miss. Other lookups are left as they are.
    pub fn read_list(self, devices: Option<&[SupportedDevice]>) -> (r: (CapsLookup, bool))
        ensures
            match self {
                CapsLookup::ReadList { name } => match devices {
                    None => r.0 == (CapsLookup::Done { caps: None }) && !r.1,
                    Some(ds) => {
                        &&& r.1 == none_named(ds@, name@)
                        &&& r.0 matches CapsLookup::Done { caps: Some(c) }
                        &&& r.1 ==> c == default_caps()
                        &&& !r.1 ==> exists|i: int|
                            first_named(ds@, name@, i) && c == spec_caps_from_parts(
                                #[trigger] ds@[i].features@,
                                ds@[i].fan@,
                            )
                    },
                },
                _ => r.0 == self && !r.1,
            },
    {
        match self {
            CapsLookup::ReadList { name } => match devices {
                None => (CapsLookup::Done { caps: None }, false),
                Some(ds) => {
                    let (c, known) = device_caps_or_default(ds, name.as_str());
                    (CapsLookup::Done { caps: Some(c) }, !known)
                },
            },
            other => (other, false),
        }
    }
}

/// Two answers from the daemon leave a lookup either finished or waiting
/// for the device list, whatever the answers are.
pub proof fn lemma_lookup_asks_at_most_twice(r1: Option<DaemonResponse>, r2: Option<DaemonResponse>)
    ensures
        ({
            let l = spec_caps_answer(spec_caps_answer(CapsLookup::AskCapabilities, r1), r2);
            l is Done || l is ReadList
        }),
{
}

/// The fan range comes from the first two fan values of a device entry
/// (further values are ignored), 3500 and 5000 RPM standing in for missing
/// ones; the logo can be driven exactly when a feature tag reads "logo".
pub proof fn lemma_caps_from_entry(features: Seq<String>, a: u16, b: u16, rest: Seq<u16>)
    ensures
        spec_caps_from_parts(features, seq![a, b] + rest).fan_min == a,
        spec_caps_from_parts(features, seq![a, b] + rest).fan_max == b,
        spec_caps_from_parts(features, seq![a]).fan_min == a,
        spec_caps_from_parts(features, seq![a]).fan_max == 5000,
        spec_caps_from_parts(features, Seq::empty()).fan_min == 3500,
        spec_caps_from_parts(features, Seq::empty()).fan_max == 5000,
        spec_caps_from_parts(features, rest).has_logo <==> exists|i: int|
            0 <= i < features.len() && #[trigger] features[i]@ == "logo"@,
        default_caps() == (DeviceCaps { fan_min: 3500, fan_max: 5000, has_logo: false }),
{
    assert((seq![a, b] + rest)[0] == a);
    assert((seq![a, b] + rest)[1] == b);
}

/// The lookup asks the daemon for its own entry first and finishes with
/// that entry's fan range when it answers; any other answer (or none)
/// makes it ask for the device name, whose answer sends it to the device
/// list for that very name, while no name ends it without capabilities.
pub proof fn lemma_lookup_order(
    name: String,
    features: Vec<String>,
    fan: Vec<u16>,
    other: Option<DaemonResponse>,
)
    ensures
        spec_caps_action(CapsLookup::AskCapabilities) == CapsAction::Ask(
            DaemonCommand::GetDeviceCapabilities,
        ),
        spec_caps_action(CapsLookup::AskName) == CapsAction::Ask(DaemonCommand::GetDeviceName),
        fan@.len() >= 2 ==> (spec_caps_answer(
            CapsLookup::AskCapabilities,
            Some(DaemonResponse::GetDeviceCapabilities { name, features, fan }),
        ) matches CapsLookup::Done { caps: Some(c) } && c.fan_min == fan@[0] && c.fan_max
            == fan@[1]),
        !(other matches Some(DaemonResponse::GetDeviceCapabilities { .. })) ==> spec_caps_answer(
            CapsLookup::AskCapabilities,
            other,
        ) == CapsLookup::AskName,
        spec_caps_answer(CapsLookup::AskName, Some(DaemonResponse::GetDeviceName { name }))
            == (CapsLookup::ReadList { name }),
        spec_caps_action(CapsLookup::ReadList { name }) == CapsAction::ReadList(name),
        !(other matches Some(DaemonResponse::GetDeviceName { .. })) ==> spec_caps_answer(
            CapsLookup::AskName,
            other,
        ) == (CapsLookup::Done { caps: None }),
{
}

} // verus!
