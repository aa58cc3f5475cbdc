//! The selector: scores every task of the population, ranks them best
//! first — strictly descending score, ties kept in input order — and keeps
//! only a bounded number of candidates.  Tasks that break the temporal-mode
//! invariant are skipped and reported, never silently dropped.

use vstd::prelude::*;

use crate::tasks::MAX_EPOCH_SECONDS;
use crate::tasks::Task;
use crate::weighting::Weight;
use crate::weighting::calculate_weight;
use crate::weighting::lemma_frac_order_trans;
use crate::weighting::lemma_weight_frac_wf;
use crate::weighting::weight_den;
use crate::weighting::weight_gt;
use crate::weighting::weight_num;

verus! {

/// Task `i` is ranked ahead of task `j` at time `now`: it scores strictly
/// higher, or it scores the same and stands earlier in the input.
pub open spec fn ranked_before(s: Seq<Task>, now: int, i: int, j: int) -> bool {
    let ni = weight_num(s[i], now);
    let di = weight_den(s[i], now);
    let nj = weight_num(s[j], now);
    let dj = weight_den(s[j], now);
    ni * dj > nj * di || (ni * dj == nj * di && i < j)
}

/// How many tasks of the population satisfy the temporal-mode invariant
/// and can therefore be scored.
pub open spec fn count_scorable(s: Seq<Task>) -> int
    decreases s.len(),
{
    if s.len() == 0 {
        0
    } else {
        count_scorable(s.drop_last()) + if s.last().mode_ok() { 1int } else { 0int }
    }
}

/// The ranking order chains: whoever outranks an outranker outranks.
proof fn lemma_ranked_before_trans(s: Seq<Task>, now: int, i: int, j: int, l: int)
    requires
        0 <= i < s.len(),
        0 <= j < s.len(),
        0 <= l < s.len(),
        s[i].in_bounds() && s[i].mode_ok(),
        s[j].in_bounds() && s[j].mode_ok(),
        s[l].in_bounds() && s[l].mode_ok(),
        1 <= now <= MAX_EPOCH_SECONDS,
        ranked_before(s, now, i, j),
        ranked_before(s, now, j, l),
    ensures
        ranked_before(s, now, i, l),
{
    lemma_weight_frac_wf(s[i], now);
    lemma_weight_frac_wf(s[j], now);
    lemma_weight_frac_wf(s[l], now);
    lemma_frac_order_trans(
        weight_num(s[i], now),
        weight_den(s[i], now),
        weight_num(s[j], now),
        weight_den(s[j], now),
        weight_num(s[l], now),
        weight_den(s[l], now),
    );
}

/// A scorable task's position in the input, paired with its score.
#[derive(Clone, Copy)]
struct Scored {
    idx: usize,
    w: Weight,
}

/// The entry stands for a scorable task below `bound` and carries exactly
/// that task's score.
spec fn entry_ok(s: Seq<Task>, now: int, e: Scored, bound: int) -> bool {
    &&& e.idx < bound
    &&& e.idx < s.len()
    &&& s[e.idx as int].mode_ok()
    &&& e.w.wf()
    &&& e.w.num == weight_num(s[e.idx as int], now)
    &&& e.w.den == weight_den(s[e.idx as int], now)
}

/// Where a new entry with score `w` belongs in a list sorted best first:
/// after every entry it does not strictly beat.
fn find_insert_position(scored: &Vec<Scored>, w: Weight) -> (p: usize)
    requires
        w.wf(),
        forall|a: int| 0 <= a < scored@.len() ==> (#[trigger] scored@[a]).w.wf(),
    ensures
        p <= scored@.len(),
        forall|a: int| 0 <= a < p ==> !weight_gt(w, (#[trigger] scored@[a]).w),
        p < scored@.len() ==> weight_gt(w, scored@[p as int].w),
{
    let mut p: usize = 0;
    loop
        invariant_except_break
            p <= scored@.len(),
            w.wf(),
            forall|a: int| 0 <= a < scored@.len() ==> (#[trigger] scored@[a]).w.wf(),
            forall|a: int| 0 <= a < p ==> !weight_gt(w, (#[trigger] scored@[a]).w),
        ensures
            p <= scored@.len(),
            forall|a: int| 0 <= a < p ==> !weight_gt(w, (#[trigger] scored@[a]).w),
            p < scored@.len() ==> weight_gt(w, scored@[p as int].w),
        decreases scored@.len() - p,
    {
        if p == scored.len() {
            break;
        }
        let entry = scored[p];
        if w.exceeds(entry.w) {
            break;
        }
        p = p + 1;
    }
    p
}

/// The outcome of ranking a population: the chosen candidate indices in
/// rank order, and the indices of the tasks that broke the mode invariant
/// and were skipped, for diagnostics.
pub struct Ranking {
    /// Indices of the top-ranked scorable tasks, best first.
    pub ranked: Vec<usize>,
    /// Indices of the tasks that could not be scored, in input order.
    pub rejected: Vec<usize>,
}

/// Rank the population at time `now` and keep at most `k` candidates.
///
/// The result lists distinct indices of scorable tasks, in strictly
/// descending score order with ties kept in input order; it holds exactly
/// `min(k, number of scorable tasks)` entries, and every scorable task left
/// out is outranked by each entry.  Mode-violating tasks are returned
/// separately, in input order.
pub fn rank_tasks(tasks: &Vec<Task>, now: i64, k: usize) -> (r: Ranking)
    requires
        1 <= now <= MAX_EPOCH_SECONDS,
        forall|i: int| 0 <= i < tasks@.len() ==> (#[trigger] tasks@[i]).in_bounds(),
    ensures
        forall|a: int| 0 <= a < r.ranked@.len() ==> (#[trigger] r.ranked@[a]) < tasks@.len()
            && tasks@[r.ranked@[a] as int].mode_ok(),
        forall|a: int, b: int| #![trigger r.ranked@[a], r.ranked@[b]]
            0 <= a < b < r.ranked@.len() ==> ranked_before(
                tasks@,
                now as int,
                r.ranked@[a] as int,
                r.ranked@[b] as int,
            ),
        r.ranked@.len() == if count_scorable(tasks@) <= k as int {
            count_scorable(tasks@)
        } else {
            k as int
        },
        forall|j: int| #![trigger tasks@[j]]
            0 <= j < tasks@.len() && tasks@[j].mode_ok() && !r.ranked@.contains(j as usize)
                ==> forall|a: int|
                0 <= a < r.ranked@.len() ==> ranked_before(
                    tasks@,
                    now as int,
                    (#[trigger] r.ranked@[a]) as int,
                    j,
                ),
        forall|a: int| 0 <= a < r.rejected@.len() ==> (#[trigger] r.rejected@[a]) < tasks@.len()
            && !tasks@[r.rejected@[a] as int].mode_ok(),
        forall|a: int, b: int|
            0 <= a < b < r.rejected@.len() ==> (#[trigger] r.rejected@[a]) < (
            #[trigger] r.rejected@[b]),
        forall|j: int| #![trigger tasks@[j]]
            0 <= j < tasks@.len() && !tasks@[j].mode_ok() ==> r.rejected@.contains(j as usize),
{
    let n = tasks.len();
    let mut scored: Vec<Scored> = Vec::new();
    let mut rejected: Vec<usize> = Vec::new();
    let mut i: usize = 0;
    while i < n
        invariant
            n == tasks@.len(),
            1 <= now <= MAX_EPOCH_SECONDS,
            forall|x: int| 0 <= x < tasks@.len() ==> (#[trigger] tasks@[x]).in_bounds(),
            i <= n,
            forall|a: int| 0 <= a < scored@.len() ==> entry_ok(
                tasks@,
                now as int,
                #[trigger] scored@[a],
                i as int,
            ),
            forall|a: int, b: int| #![trigger scored@[a], scored@[b]]
                0 <= a < b < scored@.len() ==> ranked_before(
                    tasks@,
                    now as int,
                    scored@[a].idx as int,
                    scored@[b].idx as int,
                ),
            scored@.len() == count_scorable(tasks@.take(i as int)),
            forall|j: int| #![trigger tasks@[j]]
                0 <= j < i && tasks@[j].mode_ok() ==> exists|a: int|
                    0 <= a < scored@.len() && (#[trigger] scored@[a]).idx == j,
            forall|a: int| 0 <= a < rejected@.len() ==> (#[trigger] rejected@[a]) < i
                && !tasks@[rejected@[a] as int].mode_ok(),
            forall|a: int, b: int|
                0 <= a < b < rejected@.len() ==> (#[trigger] rejected@[a]) < (
                #[trigger] rejected@[b]),
            forall|j: int| #![trigger tasks@[j]]
                0 <= j < i && !tasks@[j].mode_ok() ==> rejected@.contains(j as usize),
        decreases n - i,
    {
        proof {
            assert(tasks@.take(i as int + 1).drop_last() =~= tasks@.take(i as int));
            assert(tasks@.take(i as int + 1).last() == tasks@[i as int]);
        }
        let task = &tasks[i];
        match calculate_weight(task, now) {
            Ok(w) => {
                assert forall|a: int| 0 <= a < scored@.len() implies (
                #[trigger] scored@[a]).w.wf() by {
                    assert(entry_ok(tasks@, now as int, scored@[a], i as int));
                }
                let p = find_insert_position(&scored, w);
                let ghost os = scored@;
                let entry = Scored { idx: i, w };
                scored.insert(p, entry);
                proof {
                    os.insert_ensures(p as int, entry);
                    let ns = scored@;
                    let gnow = now as int;
                    assert forall|a: int| 0 <= a < ns.len() implies entry_ok(
                        tasks@,
                        gnow,
                        #[trigger] ns[a],
                        i as int + 1,
                    ) by {
                        if a < p {
                            assert(ns[a] == os[a]);
                        } else if a == p {
                            assert(ns[a] == entry);
                        } else {
                            assert(ns[a] == os[a - 1]);
                        }
                    }
                    assert forall|a: int, b: int| #![trigger ns[a], ns[b]]
                        0 <= a < b < ns.len() implies ranked_before(
                        tasks@,
                        gnow,
                        ns[a].idx as int,
                        ns[b].idx as int,
                    ) by {
                        if b < p {
                            assert(ns[a] == os[a] && ns[b] == os[b]);
                        } else if b == p {
                            // an existing entry keeps its place ahead of the
                            // new one: it was not strictly beaten, and on a
                            // tie its input position is smaller
                            assert(ns[a] == os[a]);
                            assert(!weight_gt(w, os[a].w));
                            assert(entry_ok(tasks@, gnow, os[a], i as int));
                        } else if a == p {
                            // the new entry strictly beats the entry it
                            // displaced, and by transitivity everything
                            // after it
                            assert(ns[b] == os[b - 1]);
                            assert(p < os.len());
                            assert(weight_gt(w, os[p as int].w));
                            assert(entry_ok(tasks@, gnow, os[p as int], i as int));
                            assert(entry_ok(tasks@, gnow, os[b - 1], i as int));
                            let ti = tasks@[i as int];
                            let tp = tasks@[os[p as int].idx as int];
                            let tb = tasks@[os[b - 1].idx as int];
                            lemma_weight_frac_wf(ti, gnow);
                            lemma_weight_frac_wf(tp, gnow);
                            lemma_weight_frac_wf(tb, gnow);
                            if b - 1 > p {
                                assert(ranked_before(
                                    tasks@,
                                    gnow,
                                    os[p as int].idx as int,
                                    os[b - 1].idx as int,
                                ));
                            }
                            lemma_frac_order_trans(
                                weight_num(ti, gnow),
                                weight_den(ti, gnow),
                                weight_num(tp, gnow),
                                weight_den(tp, gnow),
                                weight_num(tb, gnow),
                                weight_den(tb, gnow),
                            );
                        } else if a < p {
                            assert(ns[a] == os[a] && ns[b] == os[b - 1]);
                        } else {
                            assert(ns[a] == os[a - 1] && ns[b] == os[b - 1]);
                        }
                    }
                    assert forall|j: int| #![trigger tasks@[j]]
                        0 <= j < i + 1 && tasks@[j].mode_ok() implies exists|a: int|
                        0 <= a < ns.len() && (#[trigger] ns[a]).idx == j by {
                        if j == i {
                            assert(0 <= p < ns.len() && ns[p as int].idx == j);
                        } else {
                            let a = choose|a: int| 0 <= a < os.len() && (#[trigger] os[a]).idx
                                == j;
                            if a < p {
                                assert(ns[a].idx == j);
                            } else {
                                assert(ns[a + 1].idx == j);
                            }
                        }
                    }
                }
            },
            Err(_) => {
                let ghost old_rej = rejected@;
                rejected.push(i);
                proof {
                    assert forall|j: int| #![trigger tasks@[j]]
                        0 <= j < i + 1 && !tasks@[j].mode_ok() implies rejected@.contains(
                        j as usize,
                    ) by {
                        if j == i {
                            assert(rejected@[rejected@.len() - 1] == i);
                        } else {
                            let a = choose|a: int|
                                0 <= a < old_rej.len() && old_rej[a] == j as usize;
                            assert(rejected@[a] == j as usize);
                        }
                    }
                }
            },
        }
        i = i + 1;
    }
    proof {
        assert(tasks@.take(n as int) =~= tasks@);
    }
    let limit = if k < scored.len() {
        k
    } else {
        scored.len()
    };
    let mut ranked: Vec<usize> = Vec::new();
    let mut c: usize = 0;
    while c < limit
        invariant
            n == tasks@.len(),
            1 <= now <= MAX_EPOCH_SECONDS,
            forall|x: int| 0 <= x < tasks@.len() ==> (#[trigger] tasks@[x]).in_bounds(),
            limit <= scored@.len(),
            c <= limit,
            ranked@.len() == c as int,
            forall|x: int| 0 <= x < c ==> (#[trigger] ranked@[x]) == scored@[x].idx,
            forall|a: int| 0 <= a < scored@.len() ==> entry_ok(
                tasks@,
                now as int,
                #[trigger] scored@[a],
                n as int,
            ),
            forall|a: int, b: int| #![trigger scored@[a], scored@[b]]
                0 <= a < b < scored@.len() ==> ranked_before(
                    tasks@,
                    now as int,
                    scored@[a].idx as int,
                    scored@[b].idx as int,
                ),
            scored@.len() == count_scorable(tasks@),
            forall|j: int| #![trigger tasks@[j]]
                0 <= j < n && tasks@[j].mode_ok() ==> exists|a: int|
                    0 <= a < scored@.len() && (#[trigger] scored@[a]).idx == j,
        decreases limit - c,
    {
        let entry = scored[c];
        ranked.push(entry.idx);
        c = c + 1;
    }
    proof {
        let gnow = now as int;
        assert forall|j: int| #![trigger tasks@[j]]
            0 <= j < tasks@.len() && tasks@[j].mode_ok() && !ranked@.contains(j as usize)
            implies forall|a: int|
            0 <= a < ranked@.len() ==> ranked_before(
                tasks@,
                gnow,
                (#[trigger] ranked@[a]) as int,
                j,
            ) by {
            let a0 = choose|a0: int| 0 <= a0 < scored@.len() && (#[trigger] scored@[a0]).idx
                == j;
            if a0 < limit {
                assert(ranked@[a0] == scored@[a0].idx);
                assert(ranked@.contains(j as usize));
            }
            assert forall|a: int| 0 <= a < ranked@.len() implies ranked_before(
                tasks@,
                gnow,
                (#[trigger] ranked@[a]) as int,
                j,
            ) by {
                assert(ranked@[a] == scored@[a].idx);
                assert(ranked_before(
                    tasks@,
                    gnow,
                    scored@[a].idx as int,
                    scored@[a0].idx as int,
                ));
            }
        }
    }
    Ranking { ranked, rejected }
}

/// A task after one more presentation: the same task with its times-shown
/// counter advanced by one.
pub open spec fn with_times_shown_bumped(t: Task) -> Task {
    Task { times_shown: (t.times_shown + 1) as u32, ..t }
}

/// Record that the listed tasks were shown: each task named by `chosen` has
/// its times-shown counter advanced exactly once, and no other task
/// changes.  This is meant for the truncated candidate list only, never the
/// full population.
pub fn record_shown(tasks: &mut Vec<Task>, chosen: &Vec<usize>)
    requires
        forall|a: int| 0 <= a < chosen@.len() ==> (#[trigger] chosen@[a]) < old(tasks)@.len(),
        forall|a: int, b: int|
            0 <= a < b < chosen@.len() ==> (#[trigger] chosen@[a]) != (#[trigger] chosen@[b]),
        forall|a: int| 0 <= a < chosen@.len() ==> old(tasks)@[(#[trigger] chosen@[a]) as int]
            .times_shown < u32::MAX,
    ensures
        final(tasks)@.len() == old(tasks)@.len(),
        forall|j: int|
            0 <= j < old(tasks)@.len() && !chosen@.contains(j as usize) ==> final(tasks)@[j]
                == old(tasks)@[j],
        forall|a: int| 0 <= a < chosen@.len() ==> final(tasks)@[(#[trigger] chosen@[a]) as int]
            == with_times_shown_bumped(old(tasks)@[chosen@[a] as int]),
{
    let mut c: usize = 0;
    while c < chosen.len()
        invariant
            forall|a: int| 0 <= a < chosen@.len() ==> (#[trigger] chosen@[a]) < old(
                tasks,
            )@.len(),
            forall|a: int, b: int|
                0 <= a < b < chosen@.len() ==> (#[trigger] chosen@[a]) != (
                #[trigger] chosen@[b]),
            forall|a: int| 0 <= a < chosen@.len() ==> old(tasks)@[(#[trigger] chosen@[a]) as int]
                .times_shown < u32::MAX,
            c <= chosen@.len(),
            tasks@.len() == old(tasks)@.len(),
            forall|j: int|
                0 <= j < old(tasks)@.len() && !chosen@.take(c as int).contains(j as usize)
                    ==> tasks@[j] == old(tasks)@[j],
            forall|a: int| 0 <= a < c ==> tasks@[(#[trigger] chosen@[a]) as int]
                == with_times_shown_bumped(old(tasks)@[chosen@[a] as int]),
        decreases chosen@.len() - c,
    {
        let idx = chosen[c];
        proof {
            assert(!chosen@.take(c as int).contains(idx)) by {
                if chosen@.take(c as int).contains(idx) {
                    let a = choose|a: int| 0 <= a < c && chosen@.take(c as int)[a] == idx;
                    assert(chosen@[a] == chosen@[c as int]);
                }
            }
        }
        let ghost before = tasks@;
        let task = &mut tasks[idx];
        task.times_shown = task.times_shown + 1;
        proof {
            assert(before[idx as int] == old(tasks)@[idx as int]);
            assert(tasks@[idx as int] == with_times_shown_bumped(old(tasks)@[idx as int]));
            assert(chosen@.take(c as int + 1)[c as int] == idx);
            assert(chosen@.take(c as int + 1).contains(idx));
            assert forall|j: int|
                0 <= j < old(tasks)@.len() && !chosen@.take(c as int + 1).contains(j as usize)
                implies tasks@[j] == old(tasks)@[j] by {
                assert(j != idx);
                assert(!chosen@.take(c as int).contains(j as usize)) by {
                    if chosen@.take(c as int).contains(j as usize) {
                        let a = choose|a: int|
                            0 <= a < c && chosen@.take(c as int)[a] == j as usize;
                        assert(chosen@.take(c as int + 1)[a] == j as usize);
                    }
                }
                assert(before[j] == old(tasks)@[j]);
                assert(tasks@[j] == before[j]);
            }
            assert forall|a: int| 0 <= a < c + 1 implies tasks@[(#[trigger] chosen@[a]) as int]
                == with_times_shown_bumped(old(tasks)@[chosen@[a] as int]) by {
                if a < c {
                    assert(chosen@[a] != idx);
                    assert(tasks@[chosen@[a] as int] == before[chosen@[a] as int]);
                }
            }
        }
        c = c + 1;
    }
}

} // verus!
