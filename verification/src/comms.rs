use vstd::prelude::*;

verus! {

/// Socket file name inside the runtime directory.
pub const SOCKET_NAME: &'static str = "/razercontrol-socket";

/// Socket path used when no runtime directory is known.
pub const SOCKET_FALLBACK: &'static str = "/tmp/razercontrol-socket";

/// One GPU as the daemon reports it.
#[derive(Debug, Clone, PartialEq)]
pub struct GpuInfo {
    pub name: String,
    pub pci_slot: String,
    pub driver: String,
    pub gpu_type: String,
    pub runtime_status: String,
}

/// Represents data sent TO the daemon.
///
/// New variants must be appended at the END — the wire encoding carries the
/// variant index, so inserting in the middle breaks every client/daemon pair
/// that is not updated in lockstep.
#[derive(Debug, PartialEq)]
pub enum DaemonCommand {
    SetFanSpeed { ac: usize, rpm: i32 },
    GetFanSpeed { ac: usize },
    SetPowerMode { ac: usize, pwr: u8, cpu: u8, gpu: u8 },
    GetPwrLevel { ac: usize },
    GetCPUBoost { ac: usize },
    GetGPUBoost { ac: usize },
    SetLogoLedState { ac: usize, logo_state: u8 },
    GetLogoLedState { ac: usize },
    GetKeyboardRGB { layer: i32 },
    SetEffect { name: String, params: Vec<u8> },
    SetStandardEffect { name: String, params: Vec<u8> },
    SetBrightness { ac: usize, val: u8 },
    SetIdle { ac: usize, val: u32 },
    GetBrightness { ac: usize },
    SetSync { sync: bool },
    GetSync(),
    SetBatteryHealthOptimizer { is_on: bool, threshold: u8 },
    GetBatteryHealthOptimizer(),
    GetDeviceName,
    GetActualFanRpm,
    GetStandardEffect,
    GetGpuStatus,
    SetDgpuRuntimePM { enabled: bool },
    SetGpuMode { mode: String },
    ProbeBatteryHealthOptimizer,
    GetFanSpeedAndLogo { ac: usize },
    GetDeviceCapabilities,
}

/// Represents data sent back from the daemon after it receives a command.
/// New variants must be appended at the END (see `DaemonCommand`).
#[derive(Debug, PartialEq)]
pub enum DaemonResponse {
    SetFanSpeed { result: bool },
    GetFanSpeed { rpm: i32 },
    SetPowerMode { result: bool },
    GetPwrLevel { pwr: u8 },
    GetCPUBoost { cpu: u8 },
    GetGPUBoost { gpu: u8 },
    SetLogoLedState { result: bool },
    GetLogoLedState { logo_state: u8 },
    GetKeyboardRGB { layer: i32, rgbdata: Vec<u8> },
    SetEffect { result: bool },
    SetStandardEffect { result: bool },
    SetBrightness { result: bool },
    SetIdle { result: bool },
    GetBrightness { result: u8 },
    SetSync { result: bool },
    GetSync { sync: bool },
    SetBatteryHealthOptimizer { result: bool },
    GetBatteryHealthOptimizer { is_on: bool, threshold: u8 },
    GetDeviceName { name: String },
    GetActualFanRpm { rpm: i32 },
    GetStandardEffect { effect: u8, params: Vec<u8> },
    GetGpuStatus {
        gpus: Vec<GpuInfo>,
        dgpu_runtime_pm: bool,
        envycontrol_mode: String,
        envycontrol_available: bool,
    },
    SetDgpuRuntimePM { result: bool },
    SetGpuMode { result: bool, message: String },
    Unsupported { feature: String, device: String },
    ProbeBatteryHealthOptimizer {
        device: String,
        responded: bool,
        status: u8,
        raw_value: u8,
        is_on: bool,
        threshold: u8,
    },
    GetFanSpeedAndLogo { rpm: i32, logo_state: u8 },
    GetDeviceCapabilities { name: String, features: Vec<String>, fan: Vec<u16> },
}

/// The daemon socket path for a session whose runtime directory is
/// `runtime_dir` (`None` when `XDG_RUNTIME_DIR` is unset or not Unicode).
pub open spec fn spec_socket_path(runtime_dir: Option<String>) -> Seq<char> {
    match runtime_dir {
        Some(dir) => dir@ + SOCKET_NAME@,
        None => SOCKET_FALLBACK@,
    }
}

/// Prefers the session runtime directory, which persists for the session;
/// falls back to `/tmp` where there is none (AppImage and similar).
pub fn socket_path_from(runtime_dir: Option<String>) -> (path: String)
    ensures
        path@ == spec_socket_path(runtime_dir),
{
    match runtime_dir {
        Some(dir) => {
            let mut path = dir;
            path.append(SOCKET_NAME);
            path
        },
        None => SOCKET_FALLBACK.to_owned(),
    }
}

/// What the daemon does about the socket path before it listens on it.
#[derive(Debug, Clone, Copy, PartialEq, Eq, Structural)]
pub enum SocketSetup {
    /// Nothing is at the path: bind a fresh socket.
    Bind,
    /// A socket file is left over from a crashed daemon: remove it, then bind.
    RemoveStaleThenBind,
    /// Another daemon answers on the path: do not start.
    Refuse,
}

/// Decides how to claim the socket path, from whether a file exists there
/// and whether a daemon answers a connection on it.
pub fn socket_setup(socket_file_exists: bool, daemon_answers: bool) -> (s: SocketSetup)
    ensures
        !socket_file_exists ==> s == SocketSetup::Bind,
        socket_file_exists && daemon_answers ==> s == SocketSetup::Refuse,
        socket_file_exists && !daemon_answers ==> s == SocketSetup::RemoveStaleThenBind,
{
    if !socket_file_exists {
        SocketSetup::Bind
    } else if daemon_answers {
        SocketSetup::Refuse
    } else {
        SocketSetup::RemoveStaleThenBind
    }
}

/// True when the daemon acknowledged a Set command — the tray must not
/// update its local state optimistically on failure.
pub open spec fn spec_set_acknowledged(resp: DaemonResponse) -> bool {
    ||| resp matches DaemonResponse::SetFanSpeed { result: true }
    ||| resp matches DaemonResponse::SetLogoLedState { result: true }
}

pub fn set_acknowledged(resp: &DaemonResponse) -> (r: bool)
    ensures
        r == spec_set_acknowledged(*resp),
{
    match resp {
        DaemonResponse::SetFanSpeed { result } => *result,
        DaemonResponse::SetLogoLedState { result } => *result,
        _ => false,
    }
}

/// The socket lives in the session runtime directory when there is one and
/// in `/tmp` otherwise.
pub proof fn lemma_socket_path_place(dir: String)
    ensures
        spec_socket_path(Some(dir)) == dir@ + "/razercontrol-socket"@,
        spec_socket_path(None) == "/tmp/razercontrol-socket"@,
{
}

} // verus!
