//! The trusted boundary to the OS process table, through the `sysinfo`
//! crate, and the lowercase folding the classifier needs. Everything here is
//! believed, not verified: each item's contract states only what the
//! underlying call's documentation gives. Snapshot contents, kill outcomes
//! and the current process id depend on the machine, so nothing is promised
//! of them; the sweep's logic is verified for every value they may take.

use vstd::prelude::*;

verus! {

/// One row of a process-table snapshot: a process id and the name the OS
/// reports for it.
#[derive(Debug, Clone)]
pub struct ProcEntry {
    /// The process id.
    pub pid: u32,
    /// The process name; arbitrary text owned by the OS.
    pub name: String,
}

#[verifier::external_type_specification]
#[verifier::external_body]
pub struct ExSystem(sysinfo::System);

/// Relies on `sysinfo::System::new_all`: takes a snapshot of the OS state
/// with everything loaded, including the process table.
#[verifier::external_body]
pub fn system_snapshot() -> sysinfo::System {
    sysinfo::System::new_all()
}

/// Relies on `sysinfo::System::processes` and `sysinfo::Process::name`:
/// lists the snapshot's processes as plain id/name rows. What the table
/// holds depends on the machine, so nothing is promised of the result.
#[verifier::external_body]
pub fn process_entries(sys: &sysinfo::System) -> Vec<ProcEntry> {
    sys.processes().iter().map(
        |entry: (&sysinfo::Pid, &sysinfo::Process)|
            ProcEntry {
                pid: entry.0.as_u32(),
                name: entry.1.name().to_string_lossy().into_owned(),
            },
    ).collect()
}

/// Relies on `sysinfo::System::process` and `sysinfo::Process::kill`: sends
/// the kill signal to the process with this id and reports whether the
/// signal was sent. An id no longer in the snapshot yields `false`; a
/// process may also be unkillable, so nothing is promised of the outcome.
#[verifier::external_body]
pub fn kill_process(sys: &sysinfo::System, pid: u32) -> bool {
    match sys.process(sysinfo::Pid::from_u32(pid)) {
        Some(p) => p.kill(),
        None => false,
    }
}

/// Relies on `sysinfo::get_current_pid`: the id of the calling process, or
/// nothing on a platform that cannot report it.
#[verifier::external_body]
pub fn current_pid() -> Option<u32> {
    match sysinfo::get_current_pid() {
        Ok(p) => Some(p.as_u32()),
        Err(_) => None,
    }
}

/// The lowercase folding of a character sequence; a function of the
/// characters alone.
pub uninterp spec fn lower_of(s: Seq<char>) -> Seq<char>;

/// Relies on `str::to_lowercase`: the lowercase equivalent of the input,
/// which depends on the input's characters alone.
#[verifier::external_body]
pub fn to_lower(s: &str) -> (r: String)
    ensures
        r@ == lower_of(s@),
{
    s.to_lowercase()
}

} // verus!
