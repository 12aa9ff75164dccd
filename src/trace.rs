use vstd::prelude::*;

use crate::supervisor::{
    accepts, deadline_after, is_terminal, next, Action, Event, Phase, Wait, READY_TIMEOUT_MS,
};

verus! {

/// Whether every event of `evs`, fed in order from phase `p`, is taken.
pub open spec fn valid_run(p: Phase, evs: Seq<Event>) -> bool
    decreases evs.len(),
{
    evs.len() == 0 || (accepts(p, evs[0]) && valid_run(next(p, evs[0]).0, evs.drop_first()))
}

/// The phase reached after feeding `evs` in order from phase `p`.
pub open spec fn end_phase(p: Phase, evs: Seq<Event>) -> Phase
    decreases evs.len(),
{
    if evs.len() == 0 {
        p
    } else {
        end_phase(next(p, evs[0]).0, evs.drop_first())
    }
}

/// The actions asked for while feeding `evs` in order from phase `p`, one per event.
pub open spec fn actions(p: Phase, evs: Seq<Event>) -> Seq<Action>
    decreases evs.len(),
{
    if evs.len() == 0 {
        Seq::empty()
    } else {
        seq![next(p, evs[0]).1] + actions(next(p, evs[0]).0, evs.drop_first())
    }
}

/// How many of `acts` ask for a spawn.
pub open spec fn spawn_count(acts: Seq<Action>) -> nat
    decreases acts.len(),
{
    if acts.len() == 0 {
        0
    } else {
        (if acts[0] is Spawn {
            1nat
        } else {
            0nat
        }) + spawn_count(acts.drop_first())
    }
}

/// Whether every probe reported in `evs` had the outcome `reachable`.
pub open spec fn probes_all(evs: Seq<Event>, reachable: bool) -> bool {
    forall|i: int|
        0 <= i < evs.len() ==> match #[trigger] evs[i] {
            Event::Probed { reachable: r } => r == reachable,
            _ => true,
        }
}

/// Whether phase `p` lies before any spawn could have been asked for.
pub open spec fn before_spawn(p: Phase) -> bool {
    match p {
        Phase::Unchecked => true,
        Phase::Probing { wait, .. } => wait == Wait::Existing,
        Phase::Pausing { wait, .. } => wait == Wait::Existing,
        _ => false,
    }
}

/// Whether phase `p` waits, with deadline `d`, for the backend that was spawned.
pub open spec fn awaiting_spawned(p: Phase, d: u64) -> bool {
    p == (Phase::Probing { wait: Wait::Spawned, deadline: d }) || p == (Phase::Pausing {
        wait: Wait::Spawned,
        deadline: d,
    })
}

proof fn lemma_count_prepend(a: Action, rest: Seq<Action>)
    ensures
        spawn_count(seq![a] + rest) == (if a is Spawn {
            1nat
        } else {
            0nat
        }) + spawn_count(rest),
{
    assert((seq![a] + rest).drop_first() =~= rest);
}

proof fn lemma_terminal_takes_nothing(p: Phase, evs: Seq<Event>)
    requires
        is_terminal(p),
        valid_run(p, evs),
    ensures
        evs.len() == 0,
{
}

proof fn lemma_spawn_bound(p: Phase, evs: Seq<Event>)
    requires
        valid_run(p, evs),
        is_terminal(p) || before_spawn(p) || p is Spawning || awaiting_spawned(
            p,
            match p {
                Phase::Probing { deadline, .. } => deadline,
                Phase::Pausing { deadline, .. } => deadline,
                _ => 0,
            },
        ),
    ensures
        spawn_count(actions(p, evs)) <= (if before_spawn(p) {
            1nat
        } else {
            0nat
        }),
    decreases evs.len(),
{
    if evs.len() > 0 {
        let (q, a) = next(p, evs[0]);
        lemma_spawn_bound(q, evs.drop_first());
        lemma_count_prepend(a, actions(q, evs.drop_first()));
    }
}

/// In one supervision, at most one spawn of the backend is asked for.
pub proof fn lemma_at_most_one_spawn(evs: Seq<Event>)
    requires
        valid_run(Phase::Unchecked, evs),
    ensures
        spawn_count(actions(Phase::Unchecked, evs)) <= 1,
{
    lemma_spawn_bound(Phase::Unchecked, evs);
}

/// Where every probe finds the port open, the supervision asks for no spawn, and once the
/// first probe is answered it is over: the running backend is reused and reported ready.
pub proof fn lemma_reuse_running_backend(evs: Seq<Event>)
    requires
        valid_run(Phase::Unchecked, evs),
        probes_all(evs, true),
    ensures
        spawn_count(actions(Phase::Unchecked, evs)) == 0,
        evs.len() <= 2,
        evs.len() == 2 ==> end_phase(Phase::Unchecked, evs) == Phase::Reused && actions(
            Phase::Unchecked,
            evs,
        ) == seq![Action::Probe, Action::Finish { ready: true }],
{
    if evs.len() > 0 {
        let p1 = next(Phase::Unchecked, evs[0]).0;
        let e1 = evs.drop_first();
        if e1.len() > 0 {
            assert(evs[1] == e1[0]);
            assert(p1 is Probing);
            assert(valid_run(p1, e1));
            assert(accepts(p1, e1[0]));
            assert(e1[0] == (Event::Probed { reachable: true }));
            let p2 = next(p1, e1[0]).0;
            let e2 = e1.drop_first();
            assert(p2 == Phase::Reused);
            lemma_terminal_takes_nothing(p2, e2);
            assert(end_phase(p2, e2) == p2);
            assert(end_phase(p1, e1) == p2);
            assert(actions(p2, e2) =~= Seq::<Action>::empty());
            assert(actions(p1, e1) =~= seq![Action::Finish { ready: true }]);
            assert(actions(Phase::Unchecked, evs) =~= seq![
                Action::Probe,
                Action::Finish { ready: true },
            ]);
            lemma_count_prepend(Action::Finish { ready: true }, Seq::empty());
            lemma_count_prepend(Action::Probe, seq![Action::Finish { ready: true }]);
        } else {
            assert(actions(p1, e1) =~= Seq::<Action>::empty());
            lemma_count_prepend(Action::Probe, Seq::empty());
        }
    }
}

/// Launching twice against a backend that the first launch left reachable spawns at most
/// one backend in all: the second launch finds the port open and spawns nothing.
pub proof fn lemma_second_launch_spawns_nothing(first: Seq<Event>, second: Seq<Event>)
    requires
        valid_run(Phase::Unchecked, first),
        end_phase(Phase::Unchecked, first) is Ready || end_phase(Phase::Unchecked, first) is Reused,
        valid_run(Phase::Unchecked, second),
        probes_all(second, true),
    ensures
        spawn_count(actions(Phase::Unchecked, second)) == 0,
        spawn_count(actions(Phase::Unchecked, first)) + spawn_count(
            actions(Phase::Unchecked, second),
        ) <= 1,
{
    lemma_at_most_one_spawn(first);
    lemma_reuse_running_backend(second);
}

proof fn lemma_open_port_gives_ready(p: Phase, d: u64, evs: Seq<Event>)
    requires
        awaiting_spawned(p, d),
        valid_run(p, evs),
        evs.len() > 0,
        evs.last() == (Event::Probed { reachable: true }),
    ensures
        end_phase(p, evs) == Phase::Ready,
        actions(p, evs).last() == (Action::Finish { ready: true }),
    decreases evs.len(),
{
    let (q, a) = next(p, evs[0]);
    let rest = evs.drop_first();
    if rest.len() == 0 {
        assert(evs[0] == evs.last());
        assert(end_phase(q, rest) == q);
        assert(actions(q, rest) =~= Seq::<Action>::empty());
        assert(actions(p, evs) =~= seq![a]);
    } else {
        assert(rest.last() == evs.last());
        if is_terminal(q) {
            lemma_terminal_takes_nothing(q, rest);
        }
        lemma_open_port_gives_ready(q, d, rest);
        let acts = actions(q, rest);
        assert(actions(p, evs) =~= seq![a] + acts);
        assert((seq![a] + acts).last() == acts.last());
    }
}

/// After a successful spawn, a probe that finds the port open ends the supervision: the
/// backend is ready and success is reported.
pub proof fn lemma_ready_once_port_opens(now: u64, evs: Seq<Event>)
    requires
        valid_run(Phase::Spawning, seq![Event::Spawned { ok: true, now }] + evs),
        evs.len() > 0,
        evs.last() == (Event::Probed { reachable: true }),
    ensures
        end_phase(Phase::Spawning, seq![Event::Spawned { ok: true, now }] + evs) == Phase::Ready,
        actions(Phase::Spawning, seq![Event::Spawned { ok: true, now }] + evs).last() == (
        Action::Finish { ready: true }),
{
    let all = seq![Event::Spawned { ok: true, now }] + evs;
    assert(all.drop_first() =~= evs);
    let q = next(Phase::Spawning, all[0]).0;
    let d = deadline_after(now, READY_TIMEOUT_MS);
    lemma_open_port_gives_ready(q, d, evs);
    let acts = actions(q, evs);
    assert(actions(Phase::Spawning, all) =~= seq![Action::Probe] + acts);
    assert((seq![Action::Probe] + acts).last() == acts.last());
}

proof fn lemma_closed_port_times_out(p: Phase, d: u64, evs: Seq<Event>)
    requires
        awaiting_spawned(p, d),
        valid_run(p, evs),
        probes_all(evs, false),
    ensures
        end_phase(p, evs) != Phase::Ready,
        end_phase(p, evs) == Phase::Failed ==> evs.len() > 0 && match evs.last() {
            Event::Slept { now } => now >= d,
            _ => false,
        },
        forall|i: int|
            0 <= i < evs.len() - 1 ==> match #[trigger] evs[i] {
                Event::Slept { now } => now < d,
                _ => true,
            },
    decreases evs.len(),
{
    if evs.len() > 0 {
        let (q, a) = next(p, evs[0]);
        let rest = evs.drop_first();
        assert(match evs[0] {
            Event::Probed { reachable: r } => r == false,
            _ => true,
        });
        assert forall|i: int| 0 <= i < rest.len() implies match #[trigger] rest[i] {
            Event::Probed { reachable: r } => r == false,
            _ => true,
        } by {
            assert(rest[i] == evs[i + 1]);
        }
        if is_terminal(q) {
            lemma_terminal_takes_nothing(q, rest);
            assert(evs.last() == evs[0]);
            assert(end_phase(q, rest) == q);
        } else {
            lemma_closed_port_times_out(q, d, rest);
            if rest.len() > 0 {
                assert(rest.last() == evs.last());
            }
            assert forall|i: int| 0 <= i < evs.len() - 1 implies match #[trigger] evs[i] {
                Event::Slept { now } => now < d,
                _ => true,
            } by {
                if i > 0 {
                    assert(evs[i] == rest[i - 1]);
                }
            }
        }
    }
}

/// After a successful spawn, while every probe finds the port closed, the supervision never
/// reports the backend ready; every pause that ends before the deadline leads to another
/// probe, and it fails only on a pause that ends at or after the deadline.
pub proof fn lemma_gives_up_at_deadline(now: u64, evs: Seq<Event>)
    requires
        valid_run(Phase::Spawning, seq![Event::Spawned { ok: true, now }] + evs),
        probes_all(evs, false),
    ensures
        end_phase(Phase::Spawning, seq![Event::Spawned { ok: true, now }] + evs) != Phase::Ready,
        end_phase(Phase::Spawning, seq![Event::Spawned { ok: true, now }] + evs) == Phase::Failed
            ==> evs.len() > 0 && match evs.last() {
            Event::Slept { now: t } => t >= deadline_after(now, READY_TIMEOUT_MS),
            _ => false,
        },
        forall|i: int|
            0 <= i < evs.len() - 1 ==> match #[trigger] evs[i] {
                Event::Slept { now: t } => t < deadline_after(now, READY_TIMEOUT_MS),
                _ => true,
            },
{
    let all = seq![Event::Spawned { ok: true, now }] + evs;
    assert(all.drop_first() =~= evs);
    let q = next(Phase::Spawning, all[0]).0;
    lemma_closed_port_times_out(q, deadline_after(now, READY_TIMEOUT_MS), evs);
}

/// A spawn that fails ends the supervision at once: no probe, no pause, failure reported.
pub proof fn lemma_failed_spawn_ends_at_once(now: u64, evs: Seq<Event>)
    requires
        valid_run(Phase::Spawning, seq![Event::Spawned { ok: false, now }] + evs),
    ensures
        evs.len() == 0,
        end_phase(Phase::Spawning, seq![Event::Spawned { ok: false, now }]) == Phase::Failed,
        actions(Phase::Spawning, seq![Event::Spawned { ok: false, now }]) == seq![
            Action::Finish { ready: false },
        ],
{
    let all = seq![Event::Spawned { ok: false, now }] + evs;
    assert(all.drop_first() =~= evs);
    lemma_terminal_takes_nothing(Phase::Failed, evs);
    let one = seq![Event::Spawned { ok: false, now }];
    assert(one.drop_first() =~= Seq::<Event>::empty());
    assert(one[0] == (Event::Spawned { ok: false, now }));
    assert(end_phase(Phase::Failed, one.drop_first()) == Phase::Failed);
    assert(actions(Phase::Failed, one.drop_first()) =~= Seq::<Action>::empty());
    assert(actions(Phase::Spawning, one) =~= seq![Action::Finish { ready: false }]);
}

} // verus!
