//! What holds of whole runs of the orchestrator: the sampling loop survives
//! failed reads and keeps its cadence, the address frame is rendered exactly
//! once, a halted machine stays silent, and the panel always shows the
//! version line over a known status line.

use vstd::prelude::*;
use crate::net::{NetAddress, ip_line};
use crate::orchestrator::{
    Action, Event, LogEntry, Model, SAMPLE_INTERVAL_MS, connecting_line, inv,
    lemma_step_preserves_inv, no_sampling_entries, spec_step,
};

verus! {

/// The state after the machine has taken the events of `es` in order.
pub open spec fn run(m: Model, es: Seq<Event>) -> Model
    decreases es.len(),
{
    if es.len() == 0 {
        m
    } else {
        run(spec_step(m, es[0]).0, es.drop_first())
    }
}

/// The actions the machine answers along the events of `es`.
pub open spec fn run_actions(m: Model, es: Seq<Event>) -> Seq<Action>
    decreases es.len(),
{
    if es.len() == 0 {
        Seq::empty()
    } else {
        seq![spec_step(m, es[0]).1] + run_actions(spec_step(m, es[0]).0, es.drop_first())
    }
}

/// The invariant holds along every run.
pub proof fn lemma_run_preserves_inv(m: Model, es: Seq<Event>)
    requires
        inv(m),
    ensures
        inv(run(m, es)),
    decreases es.len(),
{
    if es.len() > 0 {
        lemma_step_preserves_inv(m, es[0]);
        lemma_run_preserves_inv(spec_step(m, es[0]).0, es.drop_first());
    }
}

/// Running two event sequences in a row is running their concatenation.
pub proof fn lemma_run_append(m: Model, es1: Seq<Event>, es2: Seq<Event>)
    ensures
        run(m, es1 + es2) == run(run(m, es1), es2),
        run_actions(m, es1 + es2) == run_actions(m, es1) + run_actions(run(m, es1), es2),
    decreases es1.len(),
{
    if es1.len() == 0 {
        assert(es1 + es2 =~= es2);
        assert(run_actions(m, es1) + run_actions(run(m, es1), es2) =~= run_actions(m, es2));
    } else {
        let m1 = spec_step(m, es1[0]).0;
        assert((es1 + es2)[0] == es1[0]);
        assert((es1 + es2).drop_first() =~= es1.drop_first() + es2);
        lemma_run_append(m1, es1.drop_first(), es2);
        assert(seq![spec_step(m, es1[0]).1] + (run_actions(m1, es1.drop_first()) + run_actions(
            run(m, es1),
            es2,
        )) =~= run_actions(m, es1) + run_actions(run(m, es1), es2));
    }
}

/// A halted machine never changes again and answers nothing but `Halt`:
/// a fatal bring-up error leaves no further display updates and no further
/// log lines.
pub proof fn lemma_halted_absorbs(m: Model, es: Seq<Event>)
    requires
        m.phase is Halted,
    ensures
        run(m, es) == m,
        run_actions(m, es) == Seq::new(es.len(), |i: int| Action::Halt),
    decreases es.len(),
{
    if es.len() == 0 {
        assert(run_actions(m, es) =~= Seq::new(es.len(), |i: int| Action::Halt));
    } else {
        lemma_halted_absorbs(m, es.drop_first());
        assert(run_actions(m, es) =~= Seq::new(es.len(), |i: int| Action::Halt));
    }
}

/// An outcome the sampling loop can receive for one read attempt.
pub open spec fn is_sample_outcome(e: Event) -> bool {
    e is SampleOk || e is SampleFailed
}

/// The log line one read outcome produces.
pub open spec fn outcome_entry(e: Event) -> LogEntry {
    match e {
        Event::SampleOk(s) => LogEntry::Sample(s),
        _ => LogEntry::ReadError,
    }
}

/// One loop round per outcome: the read's outcome, then the timer elapsing.
pub open spec fn rounds_of(outcomes: Seq<Event>) -> Seq<Event>
    decreases outcomes.len(),
{
    if outcomes.len() == 0 {
        Seq::empty()
    } else {
        seq![outcomes[0], Event::TimerElapsed] + rounds_of(outcomes.drop_first())
    }
}

/// The actions of `n` loop rounds: one fixed-interval sleep, then the next
/// read attempt, over and over.
pub open spec fn loop_actions(n: nat) -> Seq<Action>
    decreases n,
{
    if n == 0 {
        Seq::empty()
    } else {
        seq![Action::SleepMs(SAMPLE_INTERVAL_MS), Action::ReadSample] + loop_actions((n - 1) as nat)
    }
}

/// The steady state: whatever mixture of successes and failures the reads
/// produce, the loop stays in the sampling phases, writes exactly one log
/// line per round, issues the next read attempt after exactly one sleep
/// interval per round, and never touches the display again.
pub proof fn lemma_sampling_loop_keeps_cadence(m: Model, outcomes: Seq<Event>)
    requires
        m.phase is Sampling,
        forall|i: int| 0 <= i < outcomes.len() ==> is_sample_outcome(#[trigger] outcomes[i]),
    ensures
        ({
            let m2 = run(m, rounds_of(outcomes));
            &&& m2.phase is Sampling
            &&& m2.log == m.log + outcomes.map_values(|e: Event| outcome_entry(e))
            &&& m2.row0 == m.row0
            &&& m2.row1 == m.row1
            &&& m2.shown0 == m.shown0
            &&& m2.shown1 == m.shown1
            &&& m2.ver == m.ver
            &&& m2.net_renders == m.net_renders
            &&& m2.freq_khz == m.freq_khz
            &&& run_actions(m, rounds_of(outcomes)) == loop_actions(outcomes.len())
        }),
    decreases outcomes.len(),
{
    if outcomes.len() == 0 {
        assert(m.log + outcomes.map_values(|e: Event| outcome_entry(e)) =~= m.log);
    } else {
        let e0 = outcomes[0];
        let rest = outcomes.drop_first();
        assert(is_sample_outcome(e0));
        let round = seq![e0, Event::TimerElapsed];
        assert(rounds_of(outcomes) == round + rounds_of(rest));
        let ma = spec_step(m, e0).0;
        let mb = spec_step(ma, Event::TimerElapsed).0;
        reveal_with_fuel(run, 3);
        reveal_with_fuel(run_actions, 3);
        assert(round[0] == e0);
        assert(round.drop_first() =~= seq![Event::TimerElapsed]);
        assert(seq![Event::TimerElapsed].drop_first() =~= Seq::<Event>::empty());
        assert(run(m, round) == mb);
        assert(run_actions(m, round) =~= seq![
            Action::SleepMs(SAMPLE_INTERVAL_MS),
            Action::ReadSample,
        ]);
        assert(mb.phase is Sampling);
        assert(mb.log == m.log.push(outcome_entry(e0)));
        lemma_run_append(m, round, rounds_of(rest));
        assert(forall|i: int| 0 <= i < rest.len() ==> is_sample_outcome(#[trigger] rest[i])) by {
            assert(forall|i: int| 0 <= i < rest.len() ==> rest[i] == outcomes[i + 1]);
        }
        lemma_sampling_loop_keeps_cadence(mb, rest);
        let m2 = run(m, rounds_of(outcomes));
        assert(m2 == run(mb, rounds_of(rest)));
        assert(m2.log =~= m.log + outcomes.map_values(|e: Event| outcome_entry(e))) by {
            assert(rest.map_values(|e: Event| outcome_entry(e)) =~= outcomes.map_values(
                |e: Event| outcome_entry(e),
            ).drop_first());
            assert(outcomes.map_values(|e: Event| outcome_entry(e))[0] == outcome_entry(e0));
        }
        assert(run_actions(m, rounds_of(outcomes)) =~= loop_actions(outcomes.len()));
    }
}

/// A failed read never halts the loop: after `n` consecutive failures the
/// machine is still sampling, has logged exactly `n` read errors, and has
/// issued the next read attempt after each of the `n` sleep intervals.
pub proof fn lemma_failed_reads_never_halt(m: Model, n: nat)
    requires
        m.phase is Sampling,
    ensures
        ({
            let es = rounds_of(Seq::new(n, |i: int| Event::SampleFailed));
            &&& run(m, es).phase is Sampling
            &&& run(m, es).log == m.log + Seq::new(n, |i: int| LogEntry::ReadError)
            &&& run(m, es).shown0 == m.shown0
            &&& run(m, es).shown1 == m.shown1
            &&& run_actions(m, es) == loop_actions(n)
        }),
{
    let fails = Seq::new(n, |i: int| Event::SampleFailed);
    lemma_sampling_loop_keeps_cadence(m, fails);
    assert(fails.map_values(|e: Event| outcome_entry(e)) =~= Seq::new(
        n,
        |i: int| LogEntry::ReadError,
    ));
}

/// When the network resolves without an address, nothing is redrawn: the
/// loop runs with one log line and one sleep interval per round while the
/// panel stays frozen on the version line over `Connecting...`.
pub proof fn lemma_no_address_keeps_display_frozen(m: Model, outcomes: Seq<Event>)
    requires
        inv(m),
        m.phase is NetWait,
        forall|i: int| 0 <= i < outcomes.len() ==> is_sample_outcome(#[trigger] outcomes[i]),
    ensures
        ({
            let m1 = spec_step(m, Event::NetConfigured(None)).0;
            let m2 = run(m1, rounds_of(outcomes));
            &&& spec_step(m, Event::NetConfigured(None)).1 is ReadSample
            &&& m2.phase is Sampling
            &&& m2.shown0 == m.ver
            &&& m2.shown1 == connecting_line()
            &&& m2.net_renders == 0
            &&& m2.log == m.log + outcomes.map_values(|e: Event| outcome_entry(e))
            &&& run_actions(m1, rounds_of(outcomes)) == loop_actions(outcomes.len())
        }),
{
    let m1 = spec_step(m, Event::NetConfigured(None)).0;
    lemma_sampling_loop_keeps_cadence(m1, outcomes);
}

/// The assigned address is rendered at once: the frame is cleared and
/// redrawn as the version line over the address text, logged, and shown on
/// the panel as soon as the flush succeeds.
pub proof fn lemma_address_rendered_at_once(m: Model, a: NetAddress)
    requires
        inv(m),
        m.phase is NetWait,
    ensures
        ({
            let m1 = spec_step(m, Event::NetConfigured(Some(a))).0;
            let m2 = spec_step(m1, Event::FlushOk).0;
            &&& spec_step(m, Event::NetConfigured(Some(a))).1 is FlushFrame
            &&& m1.row0 == m.ver
            &&& m1.row1 == ip_line(a)
            &&& m1.net_renders == 1
            &&& m1.log == m.log.push(LogEntry::IpAssigned(a))
            &&& spec_step(m1, Event::FlushOk).1 is ReadSample
            &&& m2.phase is Sampling
            &&& m2.shown0 == m.ver
            &&& m2.shown1 == ip_line(a)
        }),
{
}

/// Once the address frame has been rendered it never is again: the render
/// count stays at one along every continuation.
pub proof fn lemma_address_rendered_never_again(m: Model, es: Seq<Event>)
    requires
        inv(m),
        m.net_renders == 1,
    ensures
        run(m, es).net_renders == 1,
    decreases es.len(),
{
    if es.len() > 0 {
        lemma_step_preserves_inv(m, es[0]);
        lemma_address_rendered_never_again(spec_step(m, es[0]).0, es.drop_first());
    }
}

/// A failed IMU bring-up halts the machine before the network wait: no
/// sampling log line is ever produced, and the panel keeps the content it
/// had, whatever happens afterwards.
pub proof fn lemma_imu_failure_halts_silently(m: Model, es: Seq<Event>)
    requires
        inv(m),
        m.phase is ImuInit,
    ensures
        ({
            let h = spec_step(m, Event::ImuInitFailed).0;
            &&& spec_step(m, Event::ImuInitFailed).1 is Halt
            &&& h.phase is Halted
            &&& run(h, es) == h
            &&& run(h, es).log == m.log
            &&& no_sampling_entries(run(h, es).log)
            &&& run(h, es).shown0 == m.shown0
            &&& run(h, es).shown1 == m.shown1
        }),
{
    let h = spec_step(m, Event::ImuInitFailed).0;
    lemma_halted_absorbs(h, es);
}

/// In the steady state the panel holds exactly two known lines: the version
/// text on top, and below it either `Connecting...` or the text of an
/// assigned address — never anything left over from an earlier frame.
pub proof fn lemma_display_shows_version_and_status(m: Model)
    requires
        inv(m),
        m.phase is Sampling || m.phase is Sleeping,
    ensures
        m.shown0 == m.ver,
        m.shown1 == connecting_line() || (exists|a: NetAddress| m.shown1 == ip_line(a)),
        m.row0 == m.shown0,
        m.row1 == m.shown1,
{
}

} // verus!
