//! What holds of every run of a generator: of any number of attempts, made
//! one after the other at any clock readings.

use crate::id::lemma_decode_encode;
use crate::id::lemma_pack_ordered;
use crate::id::unpack;
use crate::id::TIME_LIMIT;
use crate::sonyflake::Attempt;
use crate::sonyflake::Internals;
use crate::sonyflake::SonyflakeView;
use vstd::prelude::*;

verus! {

/// Whether the counter `a` stands before the counter `b`: at an earlier tick,
/// or at the same tick with a smaller sequence number.
pub open spec fn precedes(a: Internals, b: Internals) -> bool {
    a.elapsed_time < b.elapsed_time || (a.elapsed_time == b.elapsed_time && a.sequence
        < b.sequence)
}

impl SonyflakeView {
    /// The generator after one attempt at each instant of `clock`, in order.
    pub open spec fn after_all(self, clock: Seq<int>) -> SonyflakeView
        decreases clock.len(),
    {
        if clock.len() == 0 {
            self
        } else {
            self.after_all(clock.drop_last()).after(clock.last())
        }
    }

    /// What attempt number `i` of that run comes to.
    pub open spec fn attempt_in(self, clock: Seq<int>, i: int) -> Attempt {
        self.after_all(clock.take(i)).attempt(clock[i])
    }
}

/// One attempt never moves the counter back, and an attempt that gives an
/// identifier moves it forward and gives the identifier of the counter's new
/// tick and sequence number.
pub proof fn lemma_attempt_advances(g: SonyflakeView, now: int)
    ensures
        g.after(now).internals == g.internals || precedes(g.internals, g.after(now).internals),
        g.attempt(now) matches Attempt::Id(id) ==> {
            &&& precedes(g.internals, g.after(now).internals)
            &&& g.after(now).internals.elapsed_time < TIME_LIMIT
            &&& unpack(id as int).elapsed == g.after(now).internals.elapsed_time
            &&& unpack(id as int).sequence == g.after(now).internals.sequence
            &&& unpack(id as int).machine_id == g.machine_id
        },
        g.attempt(now) is Wait ==> g.after(now) == g,
        g.after(now).start_time == g.start_time,
        g.after(now).machine_id == g.machine_id,
{
    let next = g.after(now).internals;
    if next.elapsed_time < TIME_LIMIT {
        lemma_decode_encode(next.elapsed_time, next.sequence, g.machine_id);
    }
}

/// The run up to attempt `i + 1` is the run up to attempt `i`, then one more
/// attempt.
pub proof fn lemma_after_all_step(g: SonyflakeView, clock: Seq<int>, i: int)
    requires
        0 <= i < clock.len(),
    ensures
        g.after_all(clock.take(i + 1)) == g.after_all(clock.take(i)).after(clock[i]),
{
    assert(clock.take(i + 1).drop_last() =~= clock.take(i));
}

/// No run moves the counter back, or changes the start time or the machine
/// id.
pub proof fn lemma_run_advances(g: SonyflakeView, clock: Seq<int>, i: int, j: int)
    requires
        0 <= i <= j <= clock.len(),
    ensures
        g.after_all(clock.take(i)).internals == g.after_all(clock.take(j)).internals || precedes(
            g.after_all(clock.take(i)).internals,
            g.after_all(clock.take(j)).internals,
        ),
        g.after_all(clock.take(j)).start_time == g.start_time,
        g.after_all(clock.take(j)).machine_id == g.machine_id,
    decreases j,
{
    if j == 0 {
        assert(clock.take(0).len() == 0);
    } else if i == j {
        lemma_run_advances(g, clock, i - 1, j - 1);
        lemma_after_all_step(g, clock, j - 1);
        lemma_attempt_advances(g.after_all(clock.take(j - 1)), clock[j - 1]);
    } else {
        lemma_run_advances(g, clock, i, j - 1);
        lemma_after_all_step(g, clock, j - 1);
        lemma_attempt_advances(g.after_all(clock.take(j - 1)), clock[j - 1]);
    }
}

/// Identifiers grow: of two attempts of one run that both give an identifier,
/// the later one gives the greater. Its elapsed time is not less than that of
/// the earlier one, and where the two are equal its sequence number is
/// greater.
pub proof fn lemma_ids_increase(g: SonyflakeView, clock: Seq<int>, i: int, j: int)
    requires
        0 <= i < j < clock.len(),
        g.attempt_in(clock, i) is Id,
        g.attempt_in(clock, j) is Id,
    ensures
        g.attempt_in(clock, i)->Id_0 < g.attempt_in(clock, j)->Id_0,
        unpack(g.attempt_in(clock, i)->Id_0 as int).elapsed <= unpack(
            g.attempt_in(clock, j)->Id_0 as int,
        ).elapsed,
        unpack(g.attempt_in(clock, i)->Id_0 as int).elapsed == unpack(
            g.attempt_in(clock, j)->Id_0 as int,
        ).elapsed ==> unpack(g.attempt_in(clock, i)->Id_0 as int).sequence < unpack(
            g.attempt_in(clock, j)->Id_0 as int,
        ).sequence,
{
    let before_i = g.after_all(clock.take(i));
    let before_j = g.after_all(clock.take(j));
    lemma_attempt_advances(before_i, clock[i]);
    lemma_attempt_advances(before_j, clock[j]);
    lemma_after_all_step(g, clock, i);
    lemma_run_advances(g, clock, i + 1, j);
    lemma_run_advances(g, clock, 0, i);
    lemma_run_advances(g, clock, 0, j);
    let first = before_i.after(clock[i]).internals;
    let second = before_j.after(clock[j]).internals;
    assert(precedes(first, second));
    lemma_decode_encode(first.elapsed_time, first.sequence, g.machine_id);
    lemma_decode_encode(second.elapsed_time, second.sequence, g.machine_id);
    lemma_pack_ordered(
        first.elapsed_time,
        first.sequence,
        second.elapsed_time,
        second.sequence,
        g.machine_id,
    );
}

/// Identifiers are unique: no two attempts of one run give the same
/// identifier.
pub proof fn lemma_ids_distinct(g: SonyflakeView, clock: Seq<int>, i: int, j: int)
    requires
        0 <= i < clock.len(),
        0 <= j < clock.len(),
        i != j,
        g.attempt_in(clock, i) is Id,
        g.attempt_in(clock, j) is Id,
    ensures
        g.attempt_in(clock, i)->Id_0 != g.attempt_in(clock, j)->Id_0,
{
    if i < j {
        lemma_ids_increase(g, clock, i, j);
    } else {
        lemma_ids_increase(g, clock, j, i);
    }
}

/// Every identifier of a run holds the machine id of the generator.
pub proof fn lemma_machine_id_kept(g: SonyflakeView, clock: Seq<int>, i: int)
    requires
        0 <= i < clock.len(),
        g.attempt_in(clock, i) is Id,
    ensures
        unpack(g.attempt_in(clock, i)->Id_0 as int).machine_id == g.machine_id,
{
    lemma_run_advances(g, clock, 0, i);
    lemma_attempt_advances(g.after_all(clock.take(i)), clock[i]);
}

/// Once the time limit is passed it stays passed: after an attempt that came
/// to `OverTimeLimit`, every attempt comes to `OverTimeLimit`, whatever the
/// clock reads.
pub proof fn lemma_over_time_limit_stays(g: SonyflakeView, now: int, later: int)
    requires
        g.attempt(now) is OverTimeLimit,
    ensures
        g.after(now).attempt(later) is OverTimeLimit,
        g.after(now).after(later).internals.elapsed_time >= TIME_LIMIT,
{
}

/// A wait ends: the attempt made when the time that `Wait` names has passed
/// does not wait again.
pub proof fn lemma_wait_ends(g: SonyflakeView, now: int)
    requires
        g.attempt(now) is Wait,
        g.attempt(now)->Wait_0 < u64::MAX,
    ensures
        !(g.after(now).attempt(now + g.attempt(now)->Wait_0) is Wait),
        g.after(now).current(now + g.attempt(now)->Wait_0) == g.internals.elapsed_time + 1,
{
}

/// Whether the clock of `g` reads the same at every instant of `clock`: the
/// whole run is made within one tick.
pub open spec fn within_one_tick(g: SonyflakeView, clock: Seq<int>) -> bool {
    forall|k: int| 0 <= k < clock.len() ==> g.current(#[trigger] clock[k]) == g.current(clock[0])
}

/// A run within one tick leaves the counter at the later of its own tick and
/// the tick of the run, and after `n` attempts that each gave an identifier
/// the sequence number is `n - 1` or more.
pub proof fn lemma_one_tick_counts(g: SonyflakeView, clock: Seq<int>, n: int)
    requires
        0 <= n <= clock.len(),
        within_one_tick(g, clock),
        forall|i: int| 0 <= i < n ==> #[trigger] g.attempt_in(clock, i) is Id,
    ensures
        g.after_all(clock.take(n)).start_time == g.start_time,
        g.after_all(clock.take(n)).internals.elapsed_time == g.internals.elapsed_time
            || g.after_all(clock.take(n)).internals.elapsed_time == g.current(clock[0]),
        n >= 1 ==> g.after_all(clock.take(n)).internals.elapsed_time >= g.current(clock[0]),
        n >= 1 ==> g.after_all(clock.take(n)).internals.sequence >= n - 1,
    decreases n,
{
    if n == 0 {
        assert(clock.take(0).len() == 0);
    } else {
        lemma_one_tick_counts(g, clock, n - 1);
        lemma_after_all_step(g, clock, n - 1);
        let before = g.after_all(clock.take(n - 1));
        assert(before.current(clock[n - 1]) == g.current(clock[0]));
        assert(g.attempt_in(clock, n - 1) is Id);
        lemma_attempt_advances(before, clock[n - 1]);
    }
}

/// Before an attempt that gives no identifier there is a first such attempt.
pub proof fn lemma_first_without_id(g: SonyflakeView, clock: Seq<int>, i: int) -> (first: int)
    requires
        0 <= i < clock.len(),
        !(g.attempt_in(clock, i) is Id),
    ensures
        0 <= first <= i,
        !(g.attempt_in(clock, first) is Id),
        forall|k: int| 0 <= k < first ==> #[trigger] g.attempt_in(clock, k) is Id,
    decreases i,
{
    if exists|k: int| 0 <= k < i && !(#[trigger] g.attempt_in(clock, k) is Id) {
        let k = choose|k: int| 0 <= k < i && !(#[trigger] g.attempt_in(clock, k) is Id);
        lemma_first_without_id(g, clock, k)
    } else {
        i
    }
}

/// A tick runs out: of 257 attempts made one after the other within one
/// tick, at least one gives no identifier; and that one is told to wait,
/// unless the time limit is passed.
pub proof fn lemma_tick_runs_out(g: SonyflakeView, clock: Seq<int>)
    requires
        clock.len() > 256,
        within_one_tick(g, clock),
    ensures
        exists|i: int|
            {
                &&& 0 <= i <= 256
                &&& !(#[trigger] g.attempt_in(clock, i) is Id)
                &&& g.internals.elapsed_time < TIME_LIMIT && g.current(clock[0]) < TIME_LIMIT
                    ==> g.attempt_in(clock, i) is Wait
            },
{
    if forall|i: int| 0 <= i < 256 ==> #[trigger] g.attempt_in(clock, i) is Id {
        lemma_one_tick_counts(g, clock, 256);
        assert(g.after_all(clock.take(256)).current(clock[256]) == g.current(clock[0]));
        assert(!(g.attempt_in(clock, 256) is Id));
    } else {
        let i = choose|i: int| 0 <= i < 256 && !(#[trigger] g.attempt_in(clock, i) is Id);
        let first = lemma_first_without_id(g, clock, i);
        lemma_one_tick_counts(g, clock, first);
        assert(g.after_all(clock.take(first)).current(clock[first]) == g.current(clock[0]));
        assert(!(g.attempt_in(clock, first) is Id));
    }
}

} // verus!
