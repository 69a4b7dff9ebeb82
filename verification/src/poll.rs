use vstd::prelude::*;
use crate::caps::{default_caps, DeviceCaps};
use crate::comms::{set_acknowledged, spec_set_acknowledged, DaemonCommand, DaemonResponse};

verus! {

/// The power profile a command addresses: 1 on mains power (also when the
/// power source is unknown), 0 on battery.
pub open spec fn spec_ac_index(on_ac: Option<bool>) -> usize {
    match on_ac {
        Some(false) => 0,
        _ => 1,
    }
}

pub fn ac_index(on_ac: Option<bool>) -> (ac: usize)
    ensures
        ac == spec_ac_index(on_ac),
{
    match on_ac {
        Some(false) => 0,
        _ => 1,
    }
}

/// The command a click on a fan preset sends: the preset's RPM for the
/// profile that is active at click time.
pub fn fan_click_command(on_ac: Option<bool>, rpm: i32) -> (c: DaemonCommand)
    ensures
        c == (DaemonCommand::SetFanSpeed { ac: spec_ac_index(on_ac), rpm }),
{
    DaemonCommand::SetFanSpeed { ac: ac_index(on_ac), rpm }
}

/// The command a click on a logo mode sends, for the active profile.
pub fn logo_click_command(on_ac: Option<bool>, mode: u8) -> (c: DaemonCommand)
    ensures
        c == (DaemonCommand::SetLogoLedState { ac: spec_ac_index(on_ac), logo_state: mode }),
{
    DaemonCommand::SetLogoLedState { ac: ac_index(on_ac), logo_state: mode }
}

/// Whether the daemon's answer (`None`: no answer) acknowledges a Set.
pub open spec fn acknowledged(resp: Option<DaemonResponse>) -> bool {
    match resp {
        Some(r) => spec_set_acknowledged(r),
        None => false,
    }
}

/// The fan speed the tray holds after a click on preset `rpm`: the new RPM
/// once the daemon acknowledged it, the old value otherwise (no optimistic
/// update on failure).
pub fn fan_speed_after_click(current: Option<i32>, rpm: i32, resp: &Option<DaemonResponse>) -> (r:
    Option<i32>)
    ensures
        r == if acknowledged(*resp) {
            Some(rpm)
        } else {
            current
        },
{
    match resp {
        Some(x) => if set_acknowledged(x) {
            Some(rpm)
        } else {
            current
        },
        None => current,
    }
}

/// The logo state the tray holds after a click on mode `mode`.
pub fn logo_state_after_click(current: Option<u8>, mode: u8, resp: &Option<DaemonResponse>) -> (r:
    Option<u8>)
    ensures
        r == if acknowledged(*resp) {
            Some(mode)
        } else {
            current
        },
{
    match resp {
        Some(x) => if set_acknowledged(x) {
            Some(mode)
        } else {
            current
        },
        None => current,
    }
}

/// Which daemon answer a poll round waits for.
#[derive(Clone, Copy, PartialEq, Eq, Debug, Structural)]
pub enum PollStage {
    /// The combined fan-speed-and-logo query (one round-trip).
    Combined,
    /// The legacy fan speed query, for daemons older than the combined one.
    FanSpeed,
    /// The legacy logo state query (devices with a logo only).
    LogoState,
    /// Nothing more to ask.
    Done,
}

/// One poll of the daemon for the fan speed and the logo state. The
/// socket protocol carries one command per connection, so the round asks
/// its questions one at a time: the combined query first and, when that
/// gets no fitting answer (an older daemon), the per-value queries.
#[derive(Clone, Copy, PartialEq, Eq, Debug, Structural)]
pub struct PollRound {
    pub ac: usize,
    pub has_logo: bool,
    pub stage: PollStage,
    pub fan_speed: Option<i32>,
    pub logo_state: Option<u8>,
}

/// The round that starts a poll cycle.
pub open spec fn spec_start_round(on_ac: Option<bool>, has_logo: bool) -> PollRound {
    PollRound {
        ac: spec_ac_index(on_ac),
        has_logo,
        stage: PollStage::Combined,
        fan_speed: None,
        logo_state: None,
    }
}

/// The command the round sends next, `None` once it is done.
pub open spec fn spec_next_request(p: PollRound) -> Option<DaemonCommand> {
    match p.stage {
        PollStage::Combined => Some(DaemonCommand::GetFanSpeedAndLogo { ac: p.ac }),
        PollStage::FanSpeed => Some(DaemonCommand::GetFanSpeed { ac: p.ac }),
        PollStage::LogoState => Some(DaemonCommand::GetLogoLedState { ac: p.ac }),
        PollStage::Done => None,
    }
}

/// The round after the answer `resp` (`None`: no answer) to its pending
/// command. The combined answer settles both values (the logo state only
/// counts on devices with a logo); otherwise the fan speed is asked for,
/// then, on devices with a logo, the logo state. An unfitting answer leaves
/// the value unknown.
pub open spec fn spec_receive(p: PollRound, resp: Option<DaemonResponse>) -> PollRound {
    match p.stage {
        PollStage::Combined => match resp {
            Some(DaemonResponse::GetFanSpeedAndLogo { rpm, logo_state }) => PollRound {
                stage: PollStage::Done,
                fan_speed: Some(rpm),
                logo_state: if p.has_logo {
                    Some(logo_state)
                } else {
                    None
                },
                ..p
            },
            _ => PollRound { stage: PollStage::FanSpeed, ..p },
        },
        PollStage::FanSpeed => PollRound {
            stage: if p.has_logo {
                PollStage::LogoState
            } else {
                PollStage::Done
            },
            fan_speed: match resp {
                Some(DaemonResponse::GetFanSpeed { rpm }) => Some(rpm),
                _ => None,
            },
            ..p
        },
        PollStage::LogoState => PollRound {
            stage: PollStage::Done,
            logo_state: match resp {
                Some(DaemonResponse::GetLogoLedState { logo_state }) => Some(logo_state),
                _ => None,
            },
            ..p
        },
        PollStage::Done => p,
    }
}

impl PollRound {
    pub fn start(on_ac: Option<bool>, has_logo: bool) -> (p: PollRound)
        ensures
            p == spec_start_round(on_ac, has_logo),
    {
        PollRound {
            ac: ac_index(on_ac),
            has_logo,
            stage: PollStage::Combined,
            fan_speed: None,
            logo_state: None,
        }
    }

    pub fn next_request(&self) -> (c: Option<DaemonCommand>)
        ensures
            c == spec_next_request(*self),
    {
        match self.stage {
            PollStage::Combined => Some(DaemonCommand::GetFanSpeedAndLogo { ac: self.ac }),
            PollStage::FanSpeed => Some(DaemonCommand::GetFanSpeed { ac: self.ac }),
            PollStage::LogoState => Some(DaemonCommand::GetLogoLedState { ac: self.ac }),
            PollStage::Done => None,
        }
    }

    pub fn receive(&mut self, resp: Option<DaemonResponse>)
        ensures
            *final(self) == spec_receive(*old(self), resp),
    {
        match self.stage {
            PollStage::Combined => {
                match resp {
                    Some(DaemonResponse::GetFanSpeedAndLogo { rpm, logo_state }) => {
                        self.stage = PollStage::Done;
                        self.fan_speed = Some(rpm);
                        self.logo_state = if self.has_logo {
                            Some(logo_state)
                        } else {
                            None
                        };
                    },
                    _ => {
                        self.stage = PollStage::FanSpeed;
                    },
                }
            },
            PollStage::FanSpeed => {
                self.fan_speed = match resp {
                    Some(DaemonResponse::GetFanSpeed { rpm }) => Some(rpm),
                    _ => None,
                };
                self.stage = if self.has_logo {
                    PollStage::LogoState
                } else {
                    PollStage::Done
                };
            },
            PollStage::LogoState => {
                self.logo_state = match resp {
                    Some(DaemonResponse::GetLogoLedState { logo_state }) => Some(logo_state),
                    _ => None,
                };
                self.stage = PollStage::Done;
            },
            PollStage::Done => {},
        }
    }
}

/// The values the tray last announced to the tray host.
#[derive(Clone, Copy, PartialEq, Eq, Debug, Structural)]
pub struct UpdateTracker {
    pub fan_speed: Option<i32>,
    pub logo_state: Option<u8>,
    pub on_ac: Option<bool>,
}

/// Whether a poll's interactive values differ from the announced ones.
pub open spec fn spec_changed(
    t: UpdateTracker,
    fan_speed: Option<i32>,
    logo_state: Option<u8>,
    on_ac: Option<bool>,
) -> bool {
    fan_speed != t.fan_speed || logo_state != t.logo_state || on_ac != t.on_ac
}

impl UpdateTracker {
    /// Nothing announced yet.
    pub fn new() -> (t: UpdateTracker)
        ensures
            t == (UpdateTracker { fan_speed: None, logo_state: None, on_ac: None }),
    {
        UpdateTracker { fan_speed: None, logo_state: None, on_ac: None }
    }

    /// Records one poll's interactive values; true when any differs from
    /// the last ones, i.e. when the tray host must rebuild the menu. Updating
    /// every cycle would make the host close the submenu the user is in; AC
    /// transitions count, as the fan and logo values belong to the active
    /// power profile.
    pub fn observe(&mut self, fan_speed: Option<i32>, logo_state: Option<u8>, on_ac: Option<bool>) -> (changed: bool)
        ensures
            changed == spec_changed(*old(self), fan_speed, logo_state, on_ac),
            *final(self) == (UpdateTracker { fan_speed, logo_state, on_ac }),
    {
        let changed = fan_speed != self.fan_speed || logo_state != self.logo_state || on_ac
            != self.on_ac;
        self.fan_speed = fan_speed;
        self.logo_state = logo_state;
        self.on_ac = on_ac;
        changed
    }
}

/// Every round ends: whatever the daemon answers (or fails to answer),
/// three answers leave nothing more to ask.
pub proof fn lemma_round_ends(
    on_ac: Option<bool>,
    has_logo: bool,
    r1: Option<DaemonResponse>,
    r2: Option<DaemonResponse>,
    r3: Option<DaemonResponse>,
)
    ensures
        spec_receive(spec_receive(spec_receive(spec_start_round(on_ac, has_logo), r1), r2), r3).stage
            == PollStage::Done,
        spec_next_request(
            spec_receive(spec_receive(spec_receive(spec_start_round(on_ac, has_logo), r1), r2), r3),
        ) is None,
{
}

/// A round asks something exactly while it is not done, and every question
/// addresses the profile the round started for.
pub proof fn lemma_requests_follow_stage(p: PollRound)
    ensures
        spec_next_request(p) is None <==> p.stage == PollStage::Done,
        spec_next_request(p) matches Some(c) ==> match c {
            DaemonCommand::GetFanSpeedAndLogo { ac } => ac == p.ac,
            DaemonCommand::GetFanSpeed { ac } => ac == p.ac,
            DaemonCommand::GetLogoLedState { ac } => ac == p.ac,
            _ => false,
        },
{
}

/// What holds of every round of a device without a logo: it never asks
/// for the logo state and has none.
pub open spec fn logo_free(p: PollRound) -> bool {
    &&& !p.has_logo
    &&& p.stage != PollStage::LogoState
    &&& p.logo_state is None
}

/// A device without a logo never gets a logo state, whatever the answers:
/// rounds start logo-free and every answer keeps them so.
pub proof fn lemma_no_logo_state_without_logo(
    on_ac: Option<bool>,
    p: PollRound,
    resp: Option<DaemonResponse>,
)
    ensures
        logo_free(spec_start_round(on_ac, false)),
        logo_free(p) ==> logo_free(spec_receive(p, resp)),
{
}

/// A daemon that answers the combined query settles the round at once.
pub proof fn lemma_combined_answer_settles(
    on_ac: Option<bool>,
    has_logo: bool,
    rpm: i32,
    logo_state: u8,
)
    ensures
        spec_receive(
            spec_start_round(on_ac, has_logo),
            Some(DaemonResponse::GetFanSpeedAndLogo { rpm, logo_state }),
        ) == (PollRound {
            ac: spec_ac_index(on_ac),
            has_logo,
            stage: PollStage::Done,
            fan_speed: Some(rpm),
            logo_state: if has_logo {
                Some(logo_state)
            } else {
                None
            },
        }),
{
}

/// A poll that reads back what was last announced does not disturb the
/// tray host, and after any poll the same values read again are quiet.
pub proof fn lemma_repeat_poll_is_quiet(
    t: UpdateTracker,
    fan_speed: Option<i32>,
    logo_state: Option<u8>,
    on_ac: Option<bool>,
)
    ensures
        !spec_changed(t, t.fan_speed, t.logo_state, t.on_ac),
        !spec_changed(UpdateTracker { fan_speed, logo_state, on_ac }, fan_speed, logo_state, on_ac),
{
}

/// The fallback reads the same values as the combined query: a daemon that
/// does not answer the combined query (`first` is no combined answer) but
/// answers the legacy queries with `rpm` and `logo_state` leaves the round
/// done with exactly the values the combined answer would have given.
pub proof fn lemma_fallback_matches_combined(
    on_ac: Option<bool>,
    has_logo: bool,
    first: Option<DaemonResponse>,
    rpm: i32,
    logo_state: u8,
)
    requires
        !(first matches Some(DaemonResponse::GetFanSpeedAndLogo { .. })),
    ensures
        ({
            let start = spec_start_round(on_ac, has_logo);
            let combined = spec_receive(
                start,
                Some(DaemonResponse::GetFanSpeedAndLogo { rpm, logo_state }),
            );
            let fan = spec_receive(
                spec_receive(start, first),
                Some(DaemonResponse::GetFanSpeed { rpm }),
            );
            let legacy = if has_logo {
                spec_receive(fan, Some(DaemonResponse::GetLogoLedState { logo_state }))
            } else {
                fan
            };
            legacy == combined
        }),
{
}

/// The daemon-side part of the tray's shared state: the device
/// capabilities, fetched once at startup, and the fan speed and logo state
/// the last poll (or an acknowledged click) reported.
#[derive(Clone, Copy, PartialEq, Eq, Debug, Structural)]
pub struct DaemonState {
    pub caps: DeviceCaps,
    pub fan_speed: Option<i32>,
    pub logo_state: Option<u8>,
}

impl Default for DaemonState {
    fn default() -> (d: Self)
        ensures
            d == (DaemonState { caps: default_caps(), fan_speed: None, logo_state: None }),
    {
        DaemonState { caps: DeviceCaps::default(), fan_speed: None, logo_state: None }
    }
}

/// The state after taking the fan speed and logo state of a poll round.
pub open spec fn spec_apply_round(d: DaemonState, p: PollRound) -> DaemonState {
    DaemonState { fan_speed: p.fan_speed, logo_state: p.logo_state, ..d }
}

impl DaemonState {
    /// Takes the values of a poll round. The capabilities are kept as one
    /// unit whatever the round holds: a poll never loses or alters them.
    pub fn apply_round(&mut self, round: &PollRound)
        ensures
            *final(self) == spec_apply_round(*old(self), *round),
            final(self).caps == old(self).caps,
            final(self).fan_speed == round.fan_speed,
            final(self).logo_state == round.logo_state,
    {
        self.fan_speed = round.fan_speed;
        self.logo_state = round.logo_state;
    }
}

/// Any run of poll rounds leaves the capabilities as they were.
pub proof fn lemma_caps_survive_polls(d: DaemonState, rounds: Seq<PollRound>)
    ensures
        rounds.fold_left(d, |s: DaemonState, p: PollRound| spec_apply_round(s, p)).caps == d.caps,
    decreases rounds.len(),
{
    if rounds.len() > 0 {
        lemma_caps_survive_polls(d, rounds.drop_last());
    }
}

/// A poll asks for a menu rebuild exactly when it differs from what was last
/// announced: any change of the fan speed (also from one RPM to another),
/// of the logo state or of the power source counts, and a poll that reads
/// back the announced values is quiet.
pub proof fn lemma_rebuild_exactly_on_change(
    t: UpdateTracker,
    fan_speed: Option<i32>,
    logo_state: Option<u8>,
    on_ac: Option<bool>,
)
    ensures
        spec_changed(t, fan_speed, logo_state, on_ac) <==> t != (UpdateTracker {
            fan_speed,
            logo_state,
            on_ac,
        }),
        (t.fan_speed matches Some(a) && fan_speed matches Some(b) && a != b) ==> spec_changed(
            t,
            fan_speed,
            logo_state,
            on_ac,
        ),
{
}

/// A round asks the combined question first, for the profile of the power
/// source (0 on battery, 1 on mains power or when unknown); after any other
/// answer it asks for the fan speed, taking the RPM of a fan speed answer
/// and nothing else, and then, on a logo device only, for the logo state.
pub proof fn lemma_round_question_order(
    on_ac: Option<bool>,
    has_logo: bool,
    first: Option<DaemonResponse>,
    second: Option<DaemonResponse>,
    third: Option<DaemonResponse>,
)
    requires
        !(first matches Some(DaemonResponse::GetFanSpeedAndLogo { .. })),
    ensures
        ({
            let ac: usize = if on_ac == Some(false) {
                0
            } else {
                1
            };
            let p0 = spec_start_round(on_ac, has_logo);
            let p1 = spec_receive(p0, first);
            let p2 = spec_receive(p1, second);
            let p3 = spec_receive(p2, third);
            &&& spec_next_request(p0) == Some(DaemonCommand::GetFanSpeedAndLogo { ac })
            &&& p0.fan_speed is None && p0.logo_state is None
            &&& spec_next_request(p1) == Some(DaemonCommand::GetFanSpeed { ac })
            &&& p2.fan_speed == match second {
                Some(DaemonResponse::GetFanSpeed { rpm }) => Some(rpm),
                _ => None,
            }
            &&& has_logo ==> spec_next_request(p2) == Some(DaemonCommand::GetLogoLedState { ac })
            &&& has_logo ==> p3.logo_state == match third {
                Some(DaemonResponse::GetLogoLedState { logo_state }) => Some(logo_state),
                _ => None,
            }
            &&& has_logo ==> p3.fan_speed == p2.fan_speed
            &&& !has_logo ==> spec_next_request(p2) is None && p2.logo_state is None
        }),
{
}

/// Only a Set answer with a true result acknowledges a click; a refusal,
/// any other answer, or no answer leaves the tray state as it was.
pub proof fn lemma_only_true_results_acknowledge(b: bool, other: DaemonResponse)
    ensures
        acknowledged(Some(DaemonResponse::SetFanSpeed { result: b })) == b,
        acknowledged(Some(DaemonResponse::SetLogoLedState { result: b })) == b,
        !acknowledged(None),
        !(other is SetFanSpeed) && !(other is SetLogoLedState) ==> !acknowledged(Some(other)),
{
}

} // verus!
