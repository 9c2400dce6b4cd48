//! The launch/exit state machine.
//!
//! A launch attempt walks `Idle -> Validating -> Preparing -> Spawned ->
//! Running -> Exited`; validation and preparation failures fall straight
//! back to `Idle` without a process ever being spawned. The machine is
//! pure: each step consumes the current state and one event and returns
//! the next state together with the actions the surrounding driver must
//! perform — checking for the marker file, writing the generated launch
//! configuration, spawning the executable, hiding or showing the host
//! window, and notifying the UI. The driver performs each action and
//! feeds the outcome back in as the next event.

use vstd::prelude::*;
use crate::profile::artifact_path;
use crate::profile::artifact_path_spec;
use crate::profile::game_dir;
use crate::profile::game_dir_spec;
use crate::settings::Settings;
use crate::strutil::escape_backslashes;
use crate::strutil::escape_backslashes_spec;
use crate::strutil::join_path;
use vstd::string::StringExecFns;

verus! {

/// A notification for the UI layer.
pub enum UiEvent {
    /// Profiles or settings changed; the UI should re-read them.
    DataRefreshed,
    /// A launch attempt was rejected before a process was spawned.
    LaunchError { reason: String },
    /// Something else went wrong.
    GenericError { reason: String },
    /// The game is running for this profile.
    ProcessStarted { profile_id: i16 },
    /// The game exited with this code while this profile was active.
    ProcessStopped { exit_code: i32, profile_id: i16 },
    /// A download reported this (uncapped) percentage.
    DownloadProgress { percent: u128 },
    /// A download ran to completion.
    DownloadComplete,
}

/// Work the machine asks its driver to perform.
pub enum LaunchAction {
    /// Deliver a notification to the UI.
    Notify { event: UiEvent },
    /// Report whether the marker file at `path` exists, as the next
    /// `MarkerChecked` event.
    CheckMarker { path: String },
    /// Create the profile's working directory if it is absent
    /// (best-effort; a later failure will surface on its own).
    EnsureGameDir { path: String },
    /// Overwrite the file at `path` with the generated configuration.
    WriteConfig { path: String, contents: String },
    /// Start `executable` (or `fallback` when the primary does not
    /// exist) with the given environment variable set, and report the
    /// outcome as the next `SpawnResult` event.
    Spawn { executable: String, fallback: String, env_name: String, env_value: String },
    /// Hide the host window while the game runs.
    HideWindow,
    /// Show the host window again.
    ShowWindow,
    /// Persist `profile_id` as the active profile again and refresh the
    /// UI's data, exactly as an explicit profile selection would.
    ReapplyProfile { profile_id: i16 },
    /// Block until the child exits and report the exit code, if one
    /// could be obtained, as the next `WaitResult` event.
    WaitChild,
    /// The launch cannot be reconciled; abort instead of leaving the UI
    /// believing a launch is still in progress.
    Fatal { reason: String },
}

/// Where a launch attempt currently stands.
pub enum LaunchState {
    /// No launch in progress.
    Idle,
    /// The configuration was read; the marker file is being checked.
    Validating { install_path: String, profile_id: i16, data_dir: String, minimize: bool },
    /// Validation passed; the launch environment is being prepared.
    Preparing { install_path: String, profile_id: i16, data_dir: String, minimize: bool },
    /// The executable is being started.
    Spawned { profile_id: i16, minimize: bool },
    /// The child process is running.
    Running { profile_id: i16 },
    /// The child process terminated with this exit code.
    Exited { profile_id: i16, exit_code: i32 },
}

/// What the driver reports back into the machine.
pub enum LaunchEvent {
    /// The user asked for a launch; the current settings and the
    /// launcher's data directory come along.
    Invoke { settings: Settings, data_dir: String },
    /// Whether the marker file exists under the install path.
    MarkerChecked { exists: bool },
    /// Preparation (directory and configuration writes) was carried out.
    Prepared,
    /// Whether the child process could be started.
    SpawnResult { ok: bool },
    /// The exit code of the child, or `None` when waiting failed.
    WaitResult { exit_code: Option<i32> },
}

/// The window is hidden during the launch unless the settings disable it
/// explicitly; an unset flag means yes.
pub open spec fn minimize_wanted(s: Settings) -> bool {
    s.minimize_on_launch != Some(false)
}

/// `a` notifies the UI of a rejected launch with this reason.
pub open spec fn is_launch_error(a: LaunchAction, msg: Seq<char>) -> bool {
    a matches LaunchAction::Notify { event: UiEvent::LaunchError { reason } } && reason@ == msg
}

/// `a` notifies the UI of a generic error with this reason.
pub open spec fn is_generic_error(a: LaunchAction, msg: Seq<char>) -> bool {
    a matches LaunchAction::Notify { event: UiEvent::GenericError { reason } } && reason@ == msg
}

/// The configuration payload written into the install directory before a
/// launch: the artifact's path (its backslashes doubled to survive the
/// format's escaping), the fixed entry-point class, the fixed secure
/// protocol list and the fixed runtime flags.
pub open spec fn launch_config_spec(jar_path: Seq<char>) -> Seq<char> {
    "{\n            \"jrePath\": \"jre\",\n            \"classPath\": [\n              \""@
        + escape_backslashes_spec(jar_path)
        + "\"\n            ],\n            \"mainClass\": \"mindustry.desktop.DesktopLauncher\",\n            \"useZgcIfSupportedOs\": false,\n            \"vmArgs\": [\n              \"-Dhttps.protocols=TLSv1.2,TLSv1.1,TLSv1\",\n              \"-XX:+ShowCodeDetailsInExceptionMessages\"\n            ]\n          }"@
}

/// Builds the launch configuration payload for this artifact path.
pub fn launch_config_payload(jar_path: &str) -> (r: String)
    ensures
        r@ == launch_config_spec(jar_path@),
{
    let s =
        "{\n            \"jrePath\": \"jre\",\n            \"classPath\": [\n              \"".to_owned();
    let esc = escape_backslashes(jar_path);
    let s = s.concat(esc.as_str());
    let r = s.concat(
        "\"\n            ],\n            \"mainClass\": \"mindustry.desktop.DesktopLauncher\",\n            \"useZgcIfSupportedOs\": false,\n            \"vmArgs\": [\n              \"-Dhttps.protocols=TLSv1.2,TLSv1.1,TLSv1\",\n              \"-XX:+ShowCodeDetailsInExceptionMessages\"\n            ]\n          }",
    );
    proof {
        assert(r@ =~= launch_config_spec(jar_path@));
    }
    r
}

/// States carry only non-negative profile ids (profile ids are assigned
/// non-negative).
pub open spec fn state_wf(s: LaunchState) -> bool {
    match s {
        LaunchState::Validating { profile_id, .. } => profile_id >= 0,
        LaunchState::Preparing { profile_id, .. } => profile_id >= 0,
        _ => true,
    }
}

/// Events carry only non-negative profile ids.
pub open spec fn event_wf(e: LaunchEvent) -> bool {
    match e {
        LaunchEvent::Invoke { settings, .. } => settings.current_profile >= 0,
        _ => true,
    }
}

/// The transition table: what the next state and the emitted actions are
/// for each state and event. An event that does not belong to the state
/// changes nothing and emits nothing.
pub open spec fn step_rel(
    s: LaunchState,
    e: LaunchEvent,
    s2: LaunchState,
    acts: Seq<LaunchAction>,
) -> bool {
    match (s, e) {
        (LaunchState::Idle, LaunchEvent::Invoke { settings, data_dir }) => match settings
            .install_path {
            None => {
                &&& s2 is Idle
                &&& acts.len() == 1
                &&& is_launch_error(acts[0], "install path not defined"@)
            },
            Some(path) => {
                &&& (s2 matches LaunchState::Validating {
                    install_path,
                    profile_id,
                    data_dir: dd,
                    minimize,
                } && install_path@ == path@ && profile_id == settings.current_profile && dd@
                    == data_dir@ && minimize == minimize_wanted(settings))
                &&& acts.len() == 1
                &&& (acts[0] matches LaunchAction::CheckMarker { path: p } && p@ == path@
                    + seq!['/'] + "Mindustry.json"@)
            },
        },
        (
            LaunchState::Validating { install_path, profile_id, data_dir, minimize },
            LaunchEvent::MarkerChecked { exists },
        ) => {
            if !exists {
                &&& s2 is Idle
                &&& acts.len() == 1
                &&& is_launch_error(acts[0], "invalid install location"@)
            } else {
                &&& (s2 matches LaunchState::Preparing {
                    install_path: ip2,
                    profile_id: id2,
                    data_dir: dd2,
                    minimize: m2,
                } && ip2@ == install_path@ && id2 == profile_id && dd2@ == data_dir@ && m2
                    == minimize)
                &&& acts.len() == 2
                &&& (acts[0] matches LaunchAction::EnsureGameDir { path } && path@
                    == game_dir_spec(data_dir@, profile_id as int))
                &&& (acts[1] matches LaunchAction::WriteConfig { path, contents } && path@
                    == install_path@ + seq!['/'] + "Mindustry.json"@ && contents@
                    == launch_config_spec(artifact_path_spec(data_dir@, profile_id as int)))
            }
        },
        (
            LaunchState::Preparing { install_path, profile_id, data_dir, minimize },
            LaunchEvent::Prepared,
        ) => {
            &&& (s2 matches LaunchState::Spawned { profile_id: id2, minimize: m2 } && id2
                == profile_id && m2 == minimize)
            &&& acts.len() == 1
            &&& (acts[0] matches LaunchAction::Spawn { executable, fallback, env_name, env_value }
                && executable@ == install_path@ + seq!['/'] + "Mindustry.exe"@ && fallback@
                == install_path@ + seq!['/'] + "Mindustry"@ && env_name@ == "MINDUSTRY_DATA_DIR"@
                && env_value@ == game_dir_spec(data_dir@, profile_id as int))
        },
        (LaunchState::Spawned { profile_id, minimize }, LaunchEvent::SpawnResult { ok }) => {
            if !ok {
                &&& s2 is Idle
                &&& acts.len() == 1
                &&& is_generic_error(acts[0], "Failed to launch process"@)
            } else {
                &&& (s2 matches LaunchState::Running { profile_id: id2 } && id2 == profile_id)
                &&& acts.len() == (if minimize {
                    3int
                } else {
                    2int
                })
                &&& (acts[0] matches LaunchAction::Notify { event } && event
                    matches UiEvent::ProcessStarted { profile_id: p } && p == profile_id)
                &&& (if minimize {
                    acts[1] is HideWindow && acts[2] is WaitChild
                } else {
                    acts[1] is WaitChild
                })
            }
        },
        (LaunchState::Running { profile_id }, LaunchEvent::WaitResult { exit_code }) => match
            exit_code {
            Some(code) => {
                &&& (s2 matches LaunchState::Exited { profile_id: id2, exit_code: c2 } && id2
                    == profile_id && c2 == code)
                &&& acts.len() == 3
                &&& acts[0] is ShowWindow
                &&& (acts[1] matches LaunchAction::ReapplyProfile { profile_id: p } && p
                    == profile_id)
                &&& (acts[2] matches LaunchAction::Notify { event } && event
                    matches UiEvent::ProcessStopped { exit_code: c, profile_id: p } && c == code
                    && p == profile_id)
            },
            None => {
                &&& s2 is Idle
                &&& acts.len() == 1
                &&& (acts[0] matches LaunchAction::Fatal { reason } && reason@
                    == "failed to wait on child process"@)
            },
        },
        _ => {
            &&& s2 == s
            &&& acts.len() == 0
        },
    }
}

/// A launch-rejection notification for the UI.
fn launch_error(reason: &str) -> (r: LaunchAction)
    ensures
        is_launch_error(r, reason@),
{
    LaunchAction::Notify { event: UiEvent::LaunchError { reason: reason.to_owned() } }
}

/// A generic error notification for the UI.
fn generic_error(reason: &str) -> (r: LaunchAction)
    ensures
        is_generic_error(r, reason@),
{
    LaunchAction::Notify { event: UiEvent::GenericError { reason: reason.to_owned() } }
}

/// One step of the launch state machine, exactly as `step_rel` says.
pub fn launch_step(state: LaunchState, event: LaunchEvent) -> (r: (LaunchState, Vec<LaunchAction>))
    requires
        state_wf(state),
        event_wf(event),
    ensures
        step_rel(state, event, r.0, r.1@),
        state_wf(r.0),
{
    match (state, event) {
        (LaunchState::Idle, LaunchEvent::Invoke { settings, data_dir }) => {
            let Settings {
                install_path,
                current_profile,
                download_sources,
                minimize_on_launch,
                minimize_on_close,
            } = settings;
            match install_path {
                None => (LaunchState::Idle, vec![launch_error("install path not defined")]),
                Some(path) => {
                    let marker = join_path(path.as_str(), "Mindustry.json");
                    let minimize = match minimize_on_launch {
                        None => true,
                        Some(b) => b,
                    };
                    (
                        LaunchState::Validating {
                            install_path: path,
                            profile_id: current_profile,
                            data_dir,
                            minimize,
                        },
                        vec![LaunchAction::CheckMarker { path: marker }],
                    )
                },
            }
        },
        (
            LaunchState::Validating { install_path, profile_id, data_dir, minimize },
            LaunchEvent::MarkerChecked { exists },
        ) => {
            if exists {
                let game = game_dir(data_dir.as_str(), profile_id);
                let jar = artifact_path(data_dir.as_str(), profile_id);
                let payload = launch_config_payload(jar.as_str());
                let config = join_path(install_path.as_str(), "Mindustry.json");
                (
                    LaunchState::Preparing { install_path, profile_id, data_dir, minimize },
                    vec![
                        LaunchAction::EnsureGameDir { path: game },
                        LaunchAction::WriteConfig { path: config, contents: payload },
                    ],
                )
            } else {
                (LaunchState::Idle, vec![launch_error("invalid install location")])
            }
        },
        (
            LaunchState::Preparing { install_path, profile_id, data_dir, minimize },
            LaunchEvent::Prepared,
        ) => {
            let executable = join_path(install_path.as_str(), "Mindustry.exe");
            let fallback = join_path(install_path.as_str(), "Mindustry");
            let env_value = game_dir(data_dir.as_str(), profile_id);
            (
                LaunchState::Spawned { profile_id, minimize },
                vec![
                    LaunchAction::Spawn {
                        executable,
                        fallback,
                        env_name: "MINDUSTRY_DATA_DIR".to_owned(),
                        env_value,
                    },
                ],
            )
        },
        (LaunchState::Spawned { profile_id, minimize }, LaunchEvent::SpawnResult { ok }) => {
            if ok {
                let mut acts: Vec<LaunchAction> = Vec::new();
                acts.push(LaunchAction::Notify { event: UiEvent::ProcessStarted { profile_id } });
                if minimize {
                    acts.push(LaunchAction::HideWindow);
                }
                acts.push(LaunchAction::WaitChild);
                (LaunchState::Running { profile_id }, acts)
            } else {
                (LaunchState::Idle, vec![generic_error("Failed to launch process")])
            }
        },
        (LaunchState::Running { profile_id }, LaunchEvent::WaitResult { exit_code }) => {
            match exit_code {
                Some(code) => (
                    LaunchState::Exited { profile_id, exit_code: code },
                    vec![
                        LaunchAction::ShowWindow,
                        LaunchAction::ReapplyProfile { profile_id },
                        LaunchAction::Notify {
                            event: UiEvent::ProcessStopped { exit_code: code, profile_id },
                        },
                    ],
                ),
                None => (
                    LaunchState::Idle,
                    vec![
                        LaunchAction::Fatal {
                            reason: "failed to wait on child process".to_owned(),
                        },
                    ],
                ),
            }
        },
        (st, _) => (st, Vec::new()),
    }
}

/// With no install path configured, invoking a launch emits exactly one
/// launch-error notification, reading "install path not defined", spawns
/// nothing, and leaves the machine idle.
pub proof fn lemma_missing_install_path(
    s: LaunchState,
    e: LaunchEvent,
    s2: LaunchState,
    acts: Seq<LaunchAction>,
)
    requires
        s is Idle,
        e matches LaunchEvent::Invoke { settings, .. } && settings.install_path is None,
        step_rel(s, e, s2, acts),
    ensures
        s2 is Idle,
        acts.len() == 1,
        is_launch_error(acts[0], "install path not defined"@),
        forall|i: int| 0 <= i < acts.len() ==> !((#[trigger] acts[i]) is Spawn),
{
}

/// After the child exits with a code, the machine shows the window
/// again, re-applies the active profile selection, and reports the exit
/// code together with the very profile id the launch was for.
pub proof fn lemma_exit_reconciliation(
    s: LaunchState,
    e: LaunchEvent,
    s2: LaunchState,
    acts: Seq<LaunchAction>,
    id: i16,
    code: i32,
)
    requires
        s matches LaunchState::Running { profile_id } && profile_id == id,
        e matches LaunchEvent::WaitResult { exit_code } && exit_code == Some(code),
        step_rel(s, e, s2, acts),
    ensures
        s2 matches LaunchState::Exited { profile_id, exit_code } && profile_id == id && exit_code
            == code,
        acts.len() == 3,
        acts[0] is ShowWindow,
        acts[1] matches LaunchAction::ReapplyProfile { profile_id } && profile_id == id,
        acts[2] matches LaunchAction::Notify { event } && event
            matches UiEvent::ProcessStopped { exit_code, profile_id } && exit_code == code
            && profile_id == id,
{
}

} // verus!
