//! The process classifier behind the forced-termination sweep: a pure,
//! ordered rule list over lowercased process names. A name is first held
//! against the system-process exclusion rules; only a name that is not
//! excluded and matches one of the game-like patterns is a termination
//! candidate.

use vstd::prelude::*;
use vstd::string::*;
use crate::text::{contains_seq, contains_str, ends_with_seq, ends_with_str, find_first, prefix_eq};

verus! {

/// The index of the first `'-'` in `name` at or after `i`, or `name.len()`
/// when there is none.
pub open spec fn hyphen_ix(name: Seq<char>, i: int) -> int
    recommends
        0 <= i <= name.len(),
    decreases name.len() - i when 0 <= i <= name.len()
{
    if i >= name.len() {
        i
    } else if name[i] == '-' {
        i
    } else {
        hyphen_ix(name, i + 1)
    }
}

/// The first hyphen-delimited token of `name`: everything before the first
/// `'-'`, or the whole name when it has none.
pub open spec fn first_token(name: Seq<char>) -> Seq<char> {
    name.subrange(0, hyphen_ix(name, 0))
}

proof fn lemma_hyphen_ix(name: Seq<char>, j: int, i: int)
    requires
        0 <= j <= i <= name.len(),
        forall|t: int| j <= t < i ==> name[t] != '-',
        i == name.len() || name[i] == '-',
    ensures
        hyphen_ix(name, j) == i,
    decreases i - j,
{
    if j < i {
        lemma_hyphen_ix(name, j + 1, i);
    }
}

/// The system-process exclusion rule: the first hyphen-delimited token of the
/// lowercase name matches a fixed denylist, or the full name contains one of
/// four substrings. The substring rule subsumes the token rule for those four
/// terms; the token rule is kept for the others.
pub open spec fn spec_is_system(name: Seq<char>) -> bool {
    let tok = first_token(name);
    tok == "systemd"@ || tok == "dbus"@ || tok == "pulseaudio"@ || tok == "xorg"@
        || tok == "gnome"@ || tok == "kde"@ || tok == "easy-proton"@ || tok == "tauri"@
        || tok == "thread"@ || tok == "kworker"@ || contains_seq(name, "gnome"@)
        || contains_seq(name, "kde"@) || contains_seq(name, "easy-proton"@)
        || contains_seq(name, "tauri"@)
}

/// The game-like inclusion rule over a lowercase name: a Windows executable
/// suffix, Wine or Proton runtime names (but never the Wine server), Steam
/// game processes, a few well-known title fragments, or a `64`/`32` suffix on
/// a name longer than two characters.
pub open spec fn spec_is_game(name: Seq<char>) -> bool {
    ends_with_seq(name, ".exe"@) || (contains_seq(name, "wine"@) && !contains_seq(
        name,
        "wineserver"@,
    )) || contains_seq(name, "proton"@) || (contains_seq(name, "steam"@) && contains_seq(
        name,
        "game"@,
    )) || contains_seq(name, "game"@) || contains_seq(name, "hl2"@) || contains_seq(
        name,
        "dota"@,
    ) || contains_seq(name, "csgo"@) || contains_seq(name, "tf2"@) || (ends_with_seq(name, "64"@)
        && name.len() > 2) || (ends_with_seq(name, "32"@) && name.len() > 2)
}

/// A lowercase name is a termination candidate when it is not excluded as a
/// system process and matches a game-like pattern.
pub open spec fn spec_should_terminate(name: Seq<char>) -> bool {
    !spec_is_system(name) && spec_is_game(name)
}

/// Whether the lowercase process name `name` is excluded as a system process.
pub fn is_system_process(name: &str) -> (b: bool)
    ensures
        b == spec_is_system(name@),
{
    let k = match find_first(name, '-') {
        Some(i) => i,
        None => name.unicode_len(),
    };
    proof {
        lemma_hyphen_ix(name@, 0, k as int);
    }
    prefix_eq(name, k, "systemd") || prefix_eq(name, k, "dbus") || prefix_eq(name, k, "pulseaudio")
        || prefix_eq(name, k, "xorg") || prefix_eq(name, k, "gnome") || prefix_eq(name, k, "kde")
        || prefix_eq(name, k, "easy-proton") || prefix_eq(name, k, "tauri") || prefix_eq(
        name,
        k,
        "thread",
    ) || prefix_eq(name, k, "kworker") || contains_str(name, "gnome") || contains_str(name, "kde")
        || contains_str(name, "easy-proton") || contains_str(name, "tauri")
}

/// Whether the lowercase process name `name` matches a game-like pattern.
pub fn is_game_process(name: &str) -> (b: bool)
    ensures
        b == spec_is_game(name@),
{
    let long_enough = name.unicode_len() > 2;
    ends_with_str(name, ".exe") || (contains_str(name, "wine") && !contains_str(
        name,
        "wineserver",
    )) || contains_str(name, "proton") || (contains_str(name, "steam") && contains_str(
        name,
        "game",
    )) || contains_str(name, "game") || contains_str(name, "hl2") || contains_str(name, "dota")
        || contains_str(name, "csgo") || contains_str(name, "tf2") || (ends_with_str(name, "64")
        && long_enough) || (ends_with_str(name, "32") && long_enough)
}

/// Whether the lowercase process name `name` is a termination candidate:
/// not excluded as a system process, and game-like.
pub fn should_terminate(name: &str) -> (b: bool)
    ensures
        b == spec_should_terminate(name@),
{
    !is_system_process(name) && is_game_process(name)
}

} // verus!
