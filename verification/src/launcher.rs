//! The launch orchestrator's decisions. One launch runs through validation,
//! strategy selection and spawning; validation and selection are pure and
//! live here, while the spawn itself — and the probe for the compositor
//! binary on the search path — are outside work the caller performs with the
//! built `CommandSpec`, handing the outcome back as plain values. A failed
//! validation means nothing was ever spawned; a spawn failure is terminal
//! for that call, with no fallback from compositor mode to plain mode.

use vstd::prelude::*;
use vstd::string::*;
use crate::command::{CommandSpec, build_gamescope_command, build_plain_command, is_gamescope_command, is_plain_command};
use crate::config::{GameLaunchConfig, spec_validate};
use crate::error::{AppError, AppResult};
use crate::text::{dec_rep, u32_string};

verus! {

/// The result of one successful launch: the child's process id. The child is
/// disowned at spawn; nothing is tracked afterwards.
#[derive(Debug)]
pub struct LaunchSummary {
    /// The spawned process's id.
    pub pid: u32,
}

/// The message reported for a successful launch of process `pid`.
pub open spec fn spec_launch_message(pid: u32) -> Seq<char> {
    "Game started (PID: "@ + dec_rep(pid as int) + ")"@
}

impl LaunchSummary {
    /// The human-readable report of a successful launch.
    pub fn into_user_message(self) -> (r: String)
        ensures
            r@ == spec_launch_message(self.pid),
    {
        let mut r = String::from_str("Game started (PID: ");
        let n = u32_string(self.pid);
        r.append(n.as_str());
        r.append(")");
        r
    }
}

/// Whether a launch of `config` goes through the compositor: compositor
/// settings present, enabled, and the compositor binary available.
pub open spec fn spec_uses_compositor(config: &GameLaunchConfig, compositor_available: bool) -> bool {
    match config.gamescope {
        Some(g) => g.enabled && compositor_available,
        None => false,
    }
}

/// The launch orchestrator.
pub struct ProtonLauncher;

impl ProtonLauncher {
    /// Decides one launch attempt: validates the configuration, then — as a
    /// one-shot decision — selects the compositor-wrapped command when
    /// compositor settings are present, enabled and the compositor binary is
    /// available, and the plain command otherwise. On a validation failure
    /// nothing is built and the error names the reason.
    pub fn plan(config: &GameLaunchConfig, compositor_available: bool) -> (r: AppResult<
        CommandSpec,
    >)
        ensures
            match r {
                Ok(cmd) => {
                    &&& spec_validate(config) is Ok
                    &&& spec_uses_compositor(config, compositor_available)
                        ==> (config.gamescope matches Some(g) && is_gamescope_command(
                        cmd,
                        *config,
                        g,
                    ))
                    &&& !spec_uses_compositor(config, compositor_available) ==> is_plain_command(
                        cmd,
                        *config,
                    )
                },
                Err(e) => {
                    &&& spec_validate(config) matches Err(v)
                    &&& e == AppError::Validation(v)
                },
            },
    {
        if let Err(v) = config.validate() {
            return Err(AppError::Validation(v));
        }
        match &config.gamescope {
            Some(g) => {
                if g.enabled && compositor_available {
                    Ok(build_gamescope_command(config, g))
                } else {
                    Ok(build_plain_command(config))
                }
            },
            None => Ok(build_plain_command(config)),
        }
    }

    /// Folds the outcome of the caller's spawn attempt into the launch
    /// result: a process id becomes a `LaunchSummary`, and the OS error text
    /// of a refused spawn is surfaced verbatim inside the spawn error.
    pub fn launch_outcome(spawn: Result<u32, String>) -> (r: AppResult<LaunchSummary>)
        ensures
            match spawn {
                Ok(pid) => r matches Ok(s) && s.pid == pid,
                Err(m) => r matches Err(e) && (e matches AppError::Spawn(t) && t@
                    == "Failed to launch game: "@ + m@),
            },
    {
        match spawn {
            Ok(pid) => Ok(LaunchSummary { pid }),
            Err(m) => {
                let mut t = String::from_str("Failed to launch game: ");
                t.append(m.as_str());
                Err(AppError::Spawn(t))
            },
        }
    }
}

} // verus!
