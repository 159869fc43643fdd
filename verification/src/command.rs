//! Launch command construction. A `CommandSpec` only describes a future
//! spawn: the program, its argument list, the working directory (the parent
//! of the game executable) and a fixed environment overlay that the caller
//! merges over the inherited environment, explicit entries taking precedence
//! on key collision. Building a command has no side effect.

use vstd::prelude::*;
use vstd::string::*;
use crate::config::{GameLaunchConfig, GamescopeConfig, spec_validate};
use crate::path::{parent_of, spec_parent};
use crate::text::{dec_rep, str_eq, u32_string};

verus! {

/// A description of one process invocation: program, argument list, working
/// directory, and the environment entries laid over the inherited
/// environment.
#[derive(Debug)]
pub struct CommandSpec {
    /// The program to invoke.
    pub program: String,
    /// The working directory of the new process.
    pub working_dir: String,
    /// The argument list, in order.
    pub args: Vec<String>,
    /// Environment entries merged over the inherited environment; an
    /// explicit entry wins on key collision.
    pub env: Vec<(String, String)>,
}

/// The fixed environment overlay of every launch: the compatibility-data
/// path and client root, the prefix, the locale, input-method variables for
/// two IME frameworks, and Wayland session variables.
pub open spec fn launch_env_pairs(prefix: Seq<char>) -> Seq<(Seq<char>, Seq<char>)> {
    seq![
        ("STEAM_COMPAT_DATA_PATH"@, prefix),
        ("STEAM_COMPAT_CLIENT_INSTALL_PATH"@, "~/.steam/root"@),
        ("WINEPREFIX"@, prefix),
        ("LC_ALL"@, "zh_CN.UTF-8"@),
        ("GTK_IM_MODULE"@, "fcitx"@),
        ("QT_IM_MODULE"@, "fcitx"@),
        ("XMODIFIERS"@, "@im=fcitx"@),
        ("SDL_IM_MODULE"@, "fcitx"@),
        ("GLFW_IM_MODULE"@, "ibus"@),
        ("WAYLAND_DISPLAY"@, "wayland-0"@),
        ("XDG_SESSION_TYPE"@, "wayland"@),
        ("DBUS_SESSION_BUS_ADDRESS"@, "unix:path=/run/user/1000/bus"@),
    ]
}

/// The resolution arguments: emitted only when width and height are both
/// present; either alone has no effect.
pub open spec fn resolution_args(w: Option<u32>, h: Option<u32>) -> Seq<Seq<char>> {
    match (w, h) {
        (Some(wv), Some(hv)) => seq!["-W"@, dec_rep(wv as int), "-H"@, dec_rep(hv as int)],
        _ => Seq::<Seq<char>>::empty(),
    }
}

/// One flag, emitted when its toggle is set.
pub open spec fn flag_if(b: bool, f: Seq<char>) -> Seq<Seq<char>> {
    if b {
        seq![f]
    } else {
        Seq::<Seq<char>>::empty()
    }
}

/// The frame-rate cap arguments, when a cap is present.
pub open spec fn fps_args(l: Option<u32>) -> Seq<Seq<char>> {
    match l {
        Some(v) => seq!["-r"@, dec_rep(v as int)],
        None => Seq::<Seq<char>>::empty(),
    }
}

/// The view of the optional upscaler mode.
pub open spec fn mode_view(m: Option<String>) -> Option<Seq<char>> {
    match m {
        Some(s) => Some(s@),
        None => None,
    }
}

/// The upscaler mode flag: one of four versioned flags, defaulting to the
/// first version when the mode is absent or unrecognized.
pub open spec fn fsr_mode_flag(m: Option<Seq<char>>) -> Seq<char> {
    if m == Some("fsr2"@) {
        "--fsr2"@
    } else if m == Some("fsr3"@) {
        "--fsr3"@
    } else if m == Some("fsr4"@) {
        "--fsr4"@
    } else {
        "--fsr"@
    }
}

/// The sharpness arguments, when a sharpness is present.
pub open spec fn sharpness_args(s: Option<u32>) -> Seq<Seq<char>> {
    match s {
        Some(v) => seq!["--sharpness"@, dec_rep(v as int)],
        None => Seq::<Seq<char>>::empty(),
    }
}

/// The upscaler arguments: the mode flag, then the sharpness immediately
/// after it; nothing when the upscaler is off.
pub open spec fn fsr_args(use_fsr: bool, m: Option<Seq<char>>, s: Option<u32>) -> Seq<Seq<char>> {
    if use_fsr {
        seq![fsr_mode_flag(m)] + sharpness_args(s)
    } else {
        Seq::<Seq<char>>::empty()
    }
}

/// The full compositor argument list, in the fixed order: resolution,
/// fullscreen, borderless, vsync, frame cap, upscaler, then the separator
/// and the inner command (compat layer, `"run"`, executable).
pub open spec fn gamescope_args(g: GamescopeConfig, proton: Seq<char>, game: Seq<char>) -> Seq<
    Seq<char>,
> {
    resolution_args(g.width, g.height) + flag_if(g.fullscreen, "-f"@) + flag_if(
        g.borderless,
        "-b"@,
    ) + flag_if(g.vsync, "-o"@) + fps_args(g.fps_limit) + fsr_args(
        g.use_fsr,
        mode_view(g.fsr_mode),
        g.fsr_sharpness,
    ) + seq!["--"@, proton, "run"@, game]
}

/// What the plain launch command looks like for a validated configuration.
pub open spec fn is_plain_command(cmd: CommandSpec, c: GameLaunchConfig) -> bool {
    &&& cmd.program@ == c.proton@
    &&& Some(cmd.working_dir@) == spec_parent(c.game@)
    &&& cmd.args.deep_view() == seq!["run"@, c.game@]
    &&& cmd.env.deep_view() == launch_env_pairs(c.prefix@)
}

/// What the compositor-wrapped launch command looks like for a validated
/// configuration.
pub open spec fn is_gamescope_command(cmd: CommandSpec, c: GameLaunchConfig, g: GamescopeConfig) -> bool {
    &&& cmd.program@ == "gamescope"@
    &&& Some(cmd.working_dir@) == spec_parent(c.game@)
    &&& cmd.args.deep_view() == gamescope_args(g, c.proton@, c.game@)
    &&& cmd.env.deep_view() == launch_env_pairs(c.prefix@)
}

/// Builds the fixed environment overlay for a launch with this prefix.
fn build_env(prefix: &str) -> (r: Vec<(String, String)>)
    ensures
        r.deep_view() == launch_env_pairs(prefix@),
{
    let mut env: Vec<(String, String)> = Vec::new();
    env.push((String::from_str("STEAM_COMPAT_DATA_PATH"), String::from_str(prefix)));
    env.push((String::from_str("STEAM_COMPAT_CLIENT_INSTALL_PATH"), String::from_str("~/.steam/root")));
    env.push((String::from_str("WINEPREFIX"), String::from_str(prefix)));
    env.push((String::from_str("LC_ALL"), String::from_str("zh_CN.UTF-8")));
    env.push((String::from_str("GTK_IM_MODULE"), String::from_str("fcitx")));
    env.push((String::from_str("QT_IM_MODULE"), String::from_str("fcitx")));
    env.push((String::from_str("XMODIFIERS"), String::from_str("@im=fcitx")));
    env.push((String::from_str("SDL_IM_MODULE"), String::from_str("fcitx")));
    env.push((String::from_str("GLFW_IM_MODULE"), String::from_str("ibus")));
    env.push((String::from_str("WAYLAND_DISPLAY"), String::from_str("wayland-0")));
    env.push((String::from_str("XDG_SESSION_TYPE"), String::from_str("wayland")));
    env.push((String::from_str("DBUS_SESSION_BUS_ADDRESS"), String::from_str("unix:path=/run/user/1000/bus")));
    proof {
        assert(env.deep_view() =~~= launch_env_pairs(prefix@));
    }
    env
}

/// Builds the plain (compositor-less) launch command: the compat layer runs
/// the executable from the executable's own directory, under the fixed
/// environment overlay. Deterministic, no side effects.
pub fn build_plain_command(config: &GameLaunchConfig) -> (r: CommandSpec)
    requires
        spec_validate(config) is Ok,
    ensures
        is_plain_command(r, *config),
{
    let working_dir = match parent_of(config.game.as_str()) {
        Some(d) => d,
        None => vstd::pervasive::unreached(),
    };
    let mut args: Vec<String> = Vec::new();
    args.push(String::from_str("run"));
    args.push(String::from_str(config.game.as_str()));
    proof {
        assert(args.deep_view() =~~= seq!["run"@, config.game@]);
    }
    let env = build_env(config.prefix.as_str());
    CommandSpec { program: String::from_str(config.proton.as_str()), working_dir, args, env }
}

/// Assembles the compositor argument list for a validated configuration, in
/// the fixed order `gamescope_args` gives.
#[verifier::rlimit(100)]
fn build_gamescope_args(config: &GameLaunchConfig, g: &GamescopeConfig) -> (args: Vec<String>)
    ensures
        args.deep_view() == gamescope_args(*g, config.proton@, config.game@),
{
    let mut args: Vec<String> = Vec::new();

    if g.width.is_some() && g.height.is_some() {
        let w = match g.width {
            Some(w) => w,
            None => vstd::pervasive::unreached(),
        };
        let h = match g.height {
            Some(h) => h,
            None => vstd::pervasive::unreached(),
        };
        args.push(String::from_str("-W"));
        args.push(u32_string(w));
        args.push(String::from_str("-H"));
        args.push(u32_string(h));
    }
    proof {
        assert(args.deep_view() =~~= resolution_args(g.width, g.height));
    }
    let ghost seg1 = resolution_args(g.width, g.height);

    if g.fullscreen {
        args.push(String::from_str("-f"));
    }
    proof {
        assert(args.deep_view() =~~= seg1 + flag_if(g.fullscreen, "-f"@));
    }
    let ghost seg2 = seg1 + flag_if(g.fullscreen, "-f"@);

    if g.borderless {
        args.push(String::from_str("-b"));
    }
    proof {
        assert(args.deep_view() =~~= seg2 + flag_if(g.borderless, "-b"@));
    }
    let ghost seg3 = seg2 + flag_if(g.borderless, "-b"@);

    if g.vsync {
        args.push(String::from_str("-o"));
    }
    proof {
        assert(args.deep_view() =~~= seg3 + flag_if(g.vsync, "-o"@));
    }
    let ghost seg4 = seg3 + flag_if(g.vsync, "-o"@);

    if let Some(l) = g.fps_limit {
        args.push(String::from_str("-r"));
        args.push(u32_string(l));
    }
    proof {
        assert(args.deep_view() =~~= seg4 + fps_args(g.fps_limit));
    }
    let ghost seg5 = seg4 + fps_args(g.fps_limit);

    if g.use_fsr {
        let mode_flag = match &g.fsr_mode {
            Some(m) => {
                if str_eq(m.as_str(), "fsr2") {
                    String::from_str("--fsr2")
                } else if str_eq(m.as_str(), "fsr3") {
                    String::from_str("--fsr3")
                } else if str_eq(m.as_str(), "fsr4") {
                    String::from_str("--fsr4")
                } else {
                    String::from_str("--fsr")
                }
            },
            None => String::from_str("--fsr"),
        };
        args.push(mode_flag);
        if let Some(s) = g.fsr_sharpness {
            args.push(String::from_str("--sharpness"));
            args.push(u32_string(s));
        }
    }
    proof {
        assert(args.deep_view() =~~= seg5 + fsr_args(
            g.use_fsr,
            mode_view(g.fsr_mode),
            g.fsr_sharpness,
        ));
    }
    let ghost seg6 = seg5 + fsr_args(g.use_fsr, mode_view(g.fsr_mode), g.fsr_sharpness);

    args.push(String::from_str("--"));
    args.push(String::from_str(config.proton.as_str()));
    args.push(String::from_str("run"));
    args.push(String::from_str(config.game.as_str()));
    proof {
        assert(args.deep_view() =~~= gamescope_args(*g, config.proton@, config.game@));
    }
    args
}

/// Builds the compositor-wrapped launch command: the compositor binary runs
/// the compat layer as its inner command, with the same working directory
/// and environment overlay as the plain command. Deterministic, no side
/// effects.
pub fn build_gamescope_command(config: &GameLaunchConfig, g: &GamescopeConfig) -> (r: CommandSpec)
    requires
        spec_validate(config) is Ok,
    ensures
        is_gamescope_command(r, *config, *g),
{
    let working_dir = match parent_of(config.game.as_str()) {
        Some(d) => d,
        None => vstd::pervasive::unreached(),
    };
    let args = build_gamescope_args(config, g);
    let env = build_env(config.prefix.as_str());
    CommandSpec { program: String::from_str("gamescope"), working_dir, args, env }
}

/// Plain command construction is deterministic: two commands built for the
/// same configuration agree on program, working directory, argument list and
/// environment overlay.
pub proof fn lemma_plain_command_deterministic(a: CommandSpec, b: CommandSpec, c: GameLaunchConfig)
    requires
        is_plain_command(a, c),
        is_plain_command(b, c),
    ensures
        a.program@ == b.program@,
        a.working_dir@ == b.working_dir@,
        a.args.deep_view() == b.args.deep_view(),
        a.env.deep_view() == b.env.deep_view(),
{
}

/// A lone width without a height (or the reverse) has no effect: the
/// argument list is the one built with both dimensions absent.
pub proof fn lemma_partial_resolution_ignored(g: GamescopeConfig, proton: Seq<char>, game: Seq<char>)
    requires
        (g.width is Some) != (g.height is Some),
    ensures
        gamescope_args(g, proton, game) == gamescope_args(
            GamescopeConfig { width: None, height: None, ..g },
            proton,
            game,
        ),
{
    let g2 = GamescopeConfig { width: None, height: None, ..g };
    assert(resolution_args(g.width, g.height) =~= resolution_args(g2.width, g2.height));
}

} // verus!
