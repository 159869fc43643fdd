//! The forced-termination sweep: snapshot the process table, classify each
//! entry with the pure rules of `classify`, kill the candidates one by one,
//! and report every outcome. Candidate selection, the shape of the per-kill
//! outcome list, and the success count are verified; each kill itself is
//! best-effort and an individual failure never aborts the sweep. The
//! caller's own process is never a candidate.

use vstd::prelude::*;
use vstd::string::*;
use crate::classify::{should_terminate, spec_is_game, spec_should_terminate};
use crate::error::{AppError, AppResult};
use crate::sys::{ProcEntry, current_pid, kill_process, lower_of, process_entries, system_snapshot, to_lower};
use crate::text::{dec_rep, usize_string};

verus! {

/// The result of one termination sweep: how many processes were actually
/// terminated. Zero is a valid, non-error outcome.
#[derive(Debug)]
pub struct CloseSummary {
    /// The number of successfully terminated processes.
    pub closed: usize,
}

/// What happened to one termination candidate: its id, its name as the OS
/// reported it, and whether the kill signal was delivered. One row per
/// attempt, so the caller can report each success and each failure
/// distinctly.
#[derive(Debug)]
pub struct KillOutcome {
    /// The process id the kill was aimed at.
    pub pid: u32,
    /// The process name from the snapshot.
    pub name: String,
    /// Whether the kill signal was sent successfully.
    pub killed: bool,
}

/// Everything one sweep produced: the per-candidate outcomes in snapshot
/// order, and the summary whose count is exactly the number of successful
/// outcomes.
#[derive(Debug)]
pub struct SweepReport {
    /// One outcome per termination attempt.
    pub outcomes: Vec<KillOutcome>,
    /// The verified count of successful terminations.
    pub summary: CloseSummary,
}

/// The message a sweep reports for `n` terminated processes.
pub open spec fn spec_close_message(n: int) -> Seq<char> {
    if n > 0 {
        "Closed "@ + dec_rep(n) + " game process(es)"@
    } else {
        "No game processes found to close"@
    }
}

impl CloseSummary {
    /// The human-readable report of the sweep: a count when anything was
    /// closed, and a plain "nothing to close" note otherwise — both success.
    pub fn into_user_message(self) -> (r: String)
        ensures
            r@ == spec_close_message(self.closed as int),
    {
        if self.closed > 0 {
            let mut r = String::from_str("Closed ");
            let n = usize_string(self.closed);
            r.append(n.as_str());
            r.append(" game process(es)");
            r
        } else {
            String::from_str("No game processes found to close")
        }
    }
}

/// Whether one snapshot entry is a termination candidate for a sweep run by
/// process `me`: never the caller's own process, and otherwise decided by
/// the classifier over the lowercased name.
pub fn is_termination_candidate(e: &ProcEntry, me: u32) -> (b: bool)
    ensures
        b == (e.pid != me && spec_should_terminate(lower_of(e.name@))),
{
    if e.pid == me {
        return false;
    }
    let lowered = to_lower(e.name.as_str());
    should_terminate(lowered.as_str())
}

/// The (pid, name) rows a sweep over `entries` attempts to terminate, given
/// the caller's own id `me`: in snapshot order, every entry other than `me`
/// whose lowercased name is a termination candidate.
pub open spec fn spec_candidates(entries: Seq<ProcEntry>, me: u32) -> Seq<(u32, Seq<char>)>
    decreases entries.len(),
{
    if entries.len() == 0 {
        Seq::<(u32, Seq<char>)>::empty()
    } else {
        let e = entries[0];
        let rest = spec_candidates(entries.drop_first(), me);
        if e.pid != me && spec_should_terminate(lower_of(e.name@)) {
            seq![(e.pid, e.name@)] + rest
        } else {
            rest
        }
    }
}

/// Selects the termination candidates from a snapshot: every entry except
/// the caller's own process whose lowercased name is game-like and not
/// excluded as a system process, in snapshot order, with its name kept for
/// reporting.
pub fn close_candidates(entries: &Vec<ProcEntry>, me: u32) -> (r: Vec<ProcEntry>)
    ensures
        r@.len() == spec_candidates(entries@, me).len(),
        forall|k: int|
            0 <= k < r@.len() ==> ((#[trigger] r@[k]).pid, r@[k].name@) == spec_candidates(
                entries@,
                me,
            )[k],
{
    let n = entries.len();
    let mut r: Vec<ProcEntry> = Vec::new();
    let ghost mut done: Seq<(u32, Seq<char>)> = Seq::empty();
    let mut i: usize = 0;
    proof {
        assert(entries@.subrange(0, n as int) =~= entries@);
        assert(done + spec_candidates(entries@, me) =~= spec_candidates(entries@, me));
    }
    while i < n
        invariant
            n == entries@.len(),
            i <= n,
            spec_candidates(entries@, me) == done + spec_candidates(
                entries@.subrange(i as int, n as int),
                me,
            ),
            r@.len() == done.len(),
            forall|k: int| 0 <= k < r@.len() ==> ((#[trigger] r@[k]).pid, r@[k].name@) == done[k],
        decreases n - i,
    {
        let e = &entries[i];
        let ghost pre = entries@.subrange(i as int, n as int);
        proof {
            assert(pre[0] == entries@[i as int]);
            assert(pre.drop_first() =~= entries@.subrange(i as int + 1, n as int));
        }
        if is_termination_candidate(e, me) {
            let ghost pair = (e.pid, e.name@);
            r.push(ProcEntry { pid: e.pid, name: String::from_str(e.name.as_str()) });
            proof {
                assert(done + (seq![pair] + spec_candidates(pre.drop_first(), me)) =~= (done
                    + seq![pair]) + spec_candidates(pre.drop_first(), me));
                done = done + seq![pair];
            }
        }
        i = i + 1;
    }
    proof {
        assert(spec_candidates(entries@.subrange(n as int, n as int), me) =~= Seq::<
            (u32, Seq<char>),
        >::empty());
        assert(done + Seq::<(u32, Seq<char>)>::empty() =~= done);
    }
    r
}

/// A sweep never targets the caller's own process: its id is not among the
/// candidates, whatever its name.
pub proof fn lemma_sweep_skips_self(entries: Seq<ProcEntry>, me: u32)
    ensures
        forall|i: int|
            0 <= i < spec_candidates(entries, me).len() ==> spec_candidates(entries, me)[i].0
                != me,
    decreases entries.len(),
{
    if entries.len() > 0 {
        lemma_sweep_skips_self(entries.drop_first(), me);
        let e = entries[0];
        let rest = spec_candidates(entries.drop_first(), me);
        if e.pid != me && spec_should_terminate(lower_of(e.name@)) {
            assert forall|i: int|
                0 <= i < spec_candidates(entries, me).len() implies spec_candidates(entries, me)[i].0
                != me by {
                assert(spec_candidates(entries, me) == seq![(e.pid, e.name@)] + rest);
                if i > 0 {
                    assert((seq![(e.pid, e.name@)] + rest)[i] == rest[i - 1]);
                }
            }
        }
    }
}

/// A snapshot with no game-like process yields no candidates: the sweep
/// closes nothing and is still a success.
pub proof fn lemma_no_game_processes_no_candidates(entries: Seq<ProcEntry>, me: u32)
    requires
        forall|i: int|
            0 <= i < entries.len() ==> !spec_is_game(lower_of(#[trigger] entries[i].name@)),
    ensures
        spec_candidates(entries, me) == Seq::<(u32, Seq<char>)>::empty(),
    decreases entries.len(),
{
    if entries.len() > 0 {
        assert(forall|i: int|
            0 <= i < entries.drop_first().len() ==> !spec_is_game(
                lower_of(#[trigger] entries.drop_first()[i].name@),
            )) by {
            assert(forall|i: int|
                0 <= i < entries.drop_first().len() ==> entries.drop_first()[i] == entries[i + 1]);
        }
        lemma_no_game_processes_no_candidates(entries.drop_first(), me);
    }
}

/// How many of the recorded outcomes were successful kills.
pub open spec fn count_killed(s: Seq<KillOutcome>) -> int
    decreases s.len(),
{
    if s.len() == 0 {
        0
    } else {
        count_killed(s.drop_last()) + (if s.last().killed {
            1int
        } else {
            0int
        })
    }
}

/// Sends the kill signal to each candidate in order and records one outcome
/// per candidate, keeping its id and name. A failed kill is recorded and
/// never stops the rest.
fn kill_candidates(sys: &sysinfo::System, cands: &Vec<ProcEntry>) -> (r: Vec<KillOutcome>)
    ensures
        r@.len() == cands@.len(),
        forall|k: int|
            0 <= k < r@.len() ==> ((#[trigger] r@[k]).pid, r@[k].name@) == (
                cands@[k].pid,
                cands@[k].name@,
            ),
{
    let mut r: Vec<KillOutcome> = Vec::new();
    let mut i: usize = 0;
    while i < cands.len()
        invariant
            i <= cands@.len(),
            r@.len() == i,
            forall|k: int|
                0 <= k < r@.len() ==> ((#[trigger] r@[k]).pid, r@[k].name@) == (
                    cands@[k].pid,
                    cands@[k].name@,
                ),
        decreases cands@.len() - i,
    {
        let e = &cands[i];
        let killed = kill_process(sys, e.pid);
        r.push(KillOutcome { pid: e.pid, name: String::from_str(e.name.as_str()), killed });
        i = i + 1;
    }
    r
}

/// Counts the successful kills among the recorded outcomes.
pub fn summarize_kills(outcomes: &Vec<KillOutcome>) -> (s: CloseSummary)
    ensures
        s.closed as int == count_killed(outcomes@),
{
    let mut closed: usize = 0;
    let mut i: usize = 0;
    while i < outcomes.len()
        invariant
            i <= outcomes@.len(),
            closed <= i,
            closed as int == count_killed(outcomes@.subrange(0, i as int)),
        decreases outcomes@.len() - i,
    {
        proof {
            assert(outcomes@.subrange(0, (i + 1) as int).drop_last() =~= outcomes@.subrange(
                0,
                i as int,
            ));
            assert(outcomes@.subrange(0, (i + 1) as int).last() == outcomes@[i as int]);
        }
        if outcomes[i].killed {
            closed = closed + 1;
        }
        i = i + 1;
    }
    proof {
        assert(outcomes@.subrange(0, outcomes@.len() as int) =~= outcomes@);
    }
    CloseSummary { closed }
}

/// The termination sweep.
pub struct ProcessManager;

impl ProcessManager {
    /// Takes one snapshot of the OS process table, selects the termination
    /// candidates (never the calling process itself), sends each one the
    /// kill signal, and reports every outcome with its id and name, so each
    /// success and each failure can be reported distinctly. The summary
    /// counts exactly the successful terminations among the outcomes; a
    /// single failed kill never fails the sweep, and a sweep that finds
    /// nothing to close succeeds with a count of zero.
    pub fn force_close_games() -> (r: AppResult<SweepReport>)
        ensures
            r matches Ok(rep) ==> rep.summary.closed as int == count_killed(rep.outcomes@),
            r matches Err(e) ==> e is Process,
    {
        let sys = system_snapshot();
        let entries = process_entries(&sys);
        let me = match current_pid() {
            Some(p) => p,
            None => {
                return Err(
                    AppError::Process(String::from_str("cannot determine the current process id")),
                );
            },
        };
        let cands = close_candidates(&entries, me);
        let outcomes = kill_candidates(&sys, &cands);
        let summary = summarize_kills(&outcomes);
        Ok(SweepReport { outcomes, summary })
    }
}

} // verus!
