//! A name -> multi-subscriber callback registry, plus a queue of callbacks
//! scheduled at a future simulated time, fired in time order.
//!
//! Fakes and test code use the registry to trigger and react to interrupts
//! and trigger mechanisms within the MCU: e.g. a PWM's periodic trigger-out
//! edge may start an ADC conversion, whose completion fires once a
//! simulated conversion time has elapsed.
use vstd::prelude::*;
use crate::duration::{fits_i64, Duration};
use crate::fake_clock::{ticks_for, ClockProvider, FakeClockProvider};
use crate::duration_from_ticks::ticks_to_raw;
use crate::uptime::Uptime;

verus! {

/// Whether byte string `a` sorts strictly before `b` (lexicographically, a
/// proper prefix first): the order of `str`.
pub open spec fn lex_less(a: Seq<u8>, b: Seq<u8>) -> bool
    decreases a.len(),
{
    if a.len() == 0 {
        b.len() > 0
    } else if b.len() == 0 {
        false
    } else if a[0] != b[0] {
        a[0] < b[0]
    } else {
        lex_less(a.drop_first(), b.drop_first())
    }
}

/// No byte string sorts before itself.
pub proof fn lemma_lex_less_irreflexive(a: Seq<u8>)
    ensures
        !lex_less(a, a),
    decreases a.len(),
{
    if a.len() > 0 {
        lemma_lex_less_irreflexive(a.drop_first());
    }
}

/// The order on byte strings is transitive.
pub proof fn lemma_lex_less_transitive(a: Seq<u8>, b: Seq<u8>, c: Seq<u8>)
    requires
        lex_less(a, b),
        lex_less(b, c),
    ensures
        lex_less(a, c),
    decreases a.len(),
{
    if a.len() > 0 && a[0] == b[0] && b[0] == c[0] {
        lemma_lex_less_transitive(a.drop_first(), b.drop_first(), c.drop_first());
    }
}

/// Of two different byte strings, one sorts before the other.
pub proof fn lemma_lex_less_total(a: Seq<u8>, b: Seq<u8>)
    requires
        a != b,
    ensures
        lex_less(a, b) || lex_less(b, a),
    decreases a.len(),
{
    if a.len() > 0 && b.len() > 0 && a[0] == b[0] {
        if a.drop_first() == b.drop_first() {
            assert(a =~= seq![a[0]] + a.drop_first());
            assert(b =~= seq![b[0]] + b.drop_first());
        }
        lemma_lex_less_total(a.drop_first(), b.drop_first());
    } else if a.len() == 0 && b.len() == 0 {
        assert(a =~= b);
    }
}

/// Compares two byte strings in `str` order.
fn bytes_less(a: &[u8], b: &[u8]) -> (less: bool)
    ensures
        less == lex_less(a@, b@),
{
    let mut i: usize = 0;
    proof {
        assert(a@.skip(0) =~= a@);
        assert(b@.skip(0) =~= b@);
    }
    while i < a.len() && i < b.len()
        invariant
            i <= a@.len(),
            i <= b@.len(),
            lex_less(a@, b@) == lex_less(a@.skip(i as int), b@.skip(i as int)),
        decreases a@.len() - i,
    {
        if a[i] != b[i] {
            return a[i] < b[i];
        }
        proof {
            assert(a@.skip(i as int).drop_first() =~= a@.skip(i + 1));
            assert(b@.skip(i as int).drop_first() =~= b@.skip(i + 1));
        }
        i += 1;
    }
    i < b.len() && i == a.len()
}

/// A scheduled firing: the simulated time it is due and the trigger name,
/// by the name's UTF-8 bytes.
pub type Firing = (int, Seq<u8>);

/// Whether firing `a` is due strictly before `b`: earlier time first, and at
/// the same time the trigger name that sorts first.
pub open spec fn due_before(a: Firing, b: Firing) -> bool {
    a.0 < b.0 || (a.0 == b.0 && lex_less(a.1, b.1))
}

/// The firings scheduled but not yet fired, in scheduling order.
pub struct PendingQueue {
    entries: Vec<(Uptime, String)>,
}

/// The firing an entry of the queue stands for.
pub open spec fn firing_of(entry: (Uptime, String)) -> Firing {
    (entry.0@, vstd::utf8::encode_utf8(entry.1@))
}

impl PendingQueue {
    /// The scheduled firings, in scheduling order.
    pub closed spec fn firings(&self) -> Seq<Firing> {
        self.entries@.map_values(|entry: (Uptime, String)| firing_of(entry))
    }

    /// Schedules `trigger` to fire once simulated time reaches `at`.
    pub fn schedule(&mut self, trigger: &str, at: Uptime)
        ensures
            final(self).firings() == old(self).firings().push((at@, vstd::utf8::encode_utf8(trigger@))),
    {
        self.entries.push((at, trigger.to_owned()));
        proof {
            assert(self.firings() =~= old(self).firings().push(
                (at@, vstd::utf8::encode_utf8(trigger@)),
            ));
        }
    }

    /// How many firings are scheduled.
    pub fn len(&self) -> (n: usize)
        ensures
            n == self.firings().len(),
    {
        self.entries.len()
    }

    /// When the firing at position `k` is due.
    fn due_time(&self, k: usize) -> (time: Uptime)
        requires
            k < self.firings().len(),
        ensures
            time@ == self.firings()[k as int].0,
    {
        self.entries[k].0
    }

    /// Takes the firing at position `k` out of the queue.
    fn take(&mut self, k: usize) -> (entry: (Uptime, String))
        requires
            k < old(self).firings().len(),
        ensures
            firing_of(entry) == old(self).firings()[k as int],
            final(self).firings() == old(self).firings().remove(k as int),
    {
        let entry = self.entries.remove(k);
        proof {
            assert(self.firings() =~= old(self).firings().remove(k as int));
        }
        entry
    }

    /// The position of the firing due first, if any is scheduled.
    fn earliest(&self) -> (index: Option<usize>)
        ensures
            index is None <==> self.firings().len() == 0,
            index matches Some(k) ==> k < self.firings().len() && forall|i: int|
                0 <= i < self.firings().len() ==> !due_before(
                    #[trigger] self.firings()[i],
                    self.firings()[k as int],
                ),
    {
        if self.entries.len() == 0 {
            return None;
        }
        let mut best: usize = 0;
        let mut best_bytes = self.entries[0].1.as_str().as_bytes();
        let mut i: usize = 1;
        proof {
            lemma_lex_less_irreflexive(self.firings()[0].1);
        }
        while i < self.entries.len()
            invariant
                1 <= i <= self.entries@.len(),
                best < i,
                best_bytes@ == self.firings()[best as int].1,
                forall|j: int| 0 <= j < i ==> !due_before(
                    #[trigger] self.firings()[j],
                    self.firings()[best as int],
                ),
            decreases self.entries@.len() - i,
        {
            let bytes = self.entries[i].1.as_str().as_bytes();
            let time = self.entries[i].0;
            let best_time = self.entries[best].0;
            let earlier = time < best_time || (!(best_time < time) && bytes_less(bytes, best_bytes));
            proof {
                assert(self.firings()[i as int] == firing_of(self.entries@[i as int]));
                assert(self.firings()[best as int] == firing_of(self.entries@[best as int]));
            }
            if earlier {
                proof {
                    let fi = self.firings()[i as int];
                    let fb = self.firings()[best as int];
                    lemma_lex_less_irreflexive(fi.1);
                    assert forall|j: int| 0 <= j < i + 1 implies !due_before(
                        #[trigger] self.firings()[j],
                        fi,
                    ) by {
                        let fj = self.firings()[j];
                        if j < i && due_before(fj, fi) {
                            if fj.0 == fi.0 && fi.0 == fb.0 {
                                lemma_lex_less_transitive(fj.1, fi.1, fb.1);
                            }
                            assert(due_before(fj, fb));
                        }
                    }
                }
                best = i;
                best_bytes = bytes;
            }
            i += 1;
        }
        Some(best)
    }
}

/// A callback the registry runs whenever its trigger fires.
pub trait Callback {
    /// Whether this callback keeps a record of its runs in
    /// [`Self::calls`]. An implementation that keeps one says so here and
    /// defines [`Self::calls`] from its own state; the default is that it
    /// keeps none.
    open spec fn records_calls(&self) -> bool {
        false
    }

    /// The simulated time of each run so far, in order, for a callback
    /// that [`Self::records_calls`]; the default is an empty record.
    open spec fn calls(&self) -> Seq<int> {
        Seq::empty()
    }

    /// Runs at simulated time `now`; may schedule further firings,
    /// including of its own trigger. The queue only lets it schedule, so
    /// every firing already scheduled stays scheduled, in place. A
    /// callback that records its runs records this one in
    /// [`Self::calls`].
    fn call(&mut self, now: Uptime, pending: &mut PendingQueue)
        ensures
            old(pending).firings().is_prefix_of(final(pending).firings()),
            final(self).records_calls() == old(self).records_calls(),
            old(self).records_calls() ==> final(self).calls() == old(self).calls().push(now@),
    ;
}

/// The callback runs that firing `trigger` at `now` makes among the first
/// `n` registrations `names`: the position of each registration under
/// `trigger`, in registration order, each with `now`.
pub open spec fn runs_for(names: Seq<Seq<char>>, trigger: Seq<char>, now: int, n: nat) -> Seq<
    (nat, int),
>
    decreases n,
{
    if n == 0 {
        seq![]
    } else {
        let earlier = runs_for(names, trigger, now, (n - 1) as nat);
        if names[n - 1] == trigger {
            earlier.push(((n - 1) as nat, now))
        } else {
            earlier
        }
    }
}

/// A callback's record of runs after its trigger `trigger` fires at `now`:
/// one run more if it is registered under `trigger` (as `name`).
pub open spec fn calls_after_firing(calls: Seq<int>, name: Seq<char>, trigger: Seq<char>, now: int) -> Seq<int> {
    if name == trigger {
        calls.push(now)
    } else {
        calls
    }
}

/// The due times of the firings among `fired` of the trigger `name`, in
/// order: the runs a callback registered under `name` makes as they fire.
pub open spec fn times_fired(name: Seq<char>, fired: Seq<(int, Seq<char>)>) -> Seq<int>
    decreases fired.len(),
{
    if fired.len() == 0 {
        seq![]
    } else {
        calls_after_firing(times_fired(name, fired.drop_last()), name, fired.last().1, fired.last().0)
    }
}

/// Whether callback `after` is callback `before` having run at each of
/// `times` since: it records its runs just when `before` did, and then its
/// record is `before`'s followed by `times`.
pub open spec fn ran_since<C: Callback>(before: C, after: C, times: Seq<int>) -> bool {
    &&& after.records_calls() == before.records_calls()
    &&& before.records_calls() ==> after.calls() == before.calls() + times
}

/// Every callback of `after` is the same registration's in `before` having
/// run once at each firing of its trigger among `fired`.
pub open spec fn ran_for_each<C: Callback>(
    before: Seq<C>,
    after: Seq<C>,
    names: Seq<Seq<char>>,
    fired: Seq<(int, Seq<char>)>,
) -> bool {
    &&& after.len() == before.len()
    &&& forall|j: int|
        #![trigger after[j]]
        0 <= j < before.len() ==> ran_since(before[j], after[j], times_fired(names[j], fired))
}

/// A boxed callback runs the callback it holds, so callbacks of different
/// types can share one registry.
impl Callback for Box<dyn Callback> {
    open spec fn records_calls(&self) -> bool {
        (**self).records_calls()
    }

    open spec fn calls(&self) -> Seq<int> {
        (**self).calls()
    }

    fn call(&mut self, now: Uptime, pending: &mut PendingQueue) {
        (**self).call(now, pending)
    }
}

/// Every run that firing a trigger at `now` makes is given `now`.
proof fn lemma_runs_for_time(names: Seq<Seq<char>>, trigger: Seq<char>, now: int, n: nat)
    ensures
        forall|i: int|
            0 <= i < runs_for(names, trigger, now, n).len() ==> #[trigger] runs_for(
                names,
                trigger,
                now,
                n,
            )[i].1 == now,
    decreases n,
{
    if n > 0 {
        let earlier = runs_for(names, trigger, now, (n - 1) as nat);
        lemma_runs_for_time(names, trigger, now, (n - 1) as nat);
        let runs = runs_for(names, trigger, now, n);
        assert forall|i: int| 0 <= i < runs.len() implies #[trigger] runs[i].1 == now by {
            if i < earlier.len() {
                assert(runs[i] == earlier[i]);
            }
        }
    }
}

/// The queued firing a fired one stands for: its due time and its trigger
/// name's UTF-8 bytes.
pub open spec fn as_firing(entry: (int, Seq<char>)) -> Firing {
    (entry.0, vstd::utf8::encode_utf8(entry.1))
}

/// The callback runs that firing each of `fired`, in order, makes among the
/// registrations `names`.
pub open spec fn runs_of(names: Seq<Seq<char>>, fired: Seq<(int, Seq<char>)>) -> Seq<(nat, int)>
    decreases fired.len(),
{
    if fired.len() == 0 {
        seq![]
    } else {
        runs_of(names, fired.drop_last()) + runs_for(
            names,
            fired.last().1,
            fired.last().0,
            names.len(),
        )
    }
}

/// The firings logged in `after` beyond the log `before` it extends.
pub open spec fn fired_since(
    before: Seq<(int, Seq<char>)>,
    after: Seq<(int, Seq<char>)>,
) -> Seq<(int, Seq<char>)> {
    after.subrange(before.len() as int, after.len() as int)
}

/// Every firing queued in `before` is, as often as it was queued there,
/// still queued in `after` or among `fired`.
pub open spec fn accounted_for(
    before: Seq<Firing>,
    after: Seq<Firing>,
    fired: Seq<(int, Seq<char>)>,
) -> bool {
    before.to_multiset().subset_of(
        after.to_multiset().add(fired.map_values(|entry: (int, Seq<char>)| as_firing(entry)).to_multiset()),
    )
}

/// A queue accounts for itself, with nothing fired.
proof fn lemma_accounted_for_itself(pending: Seq<Firing>)
    ensures
        accounted_for(pending, pending, seq![]),
{
    broadcast use vstd::multiset::group_multiset_axioms;

    let none = Seq::<(int, Seq<char>)>::empty().map_values(
        |entry: (int, Seq<char>)| as_firing(entry),
    );
    assert(none =~= Seq::<Firing>::empty());
    vstd::seq_lib::to_multiset_len(none);
    assert(none.to_multiset() =~= vstd::multiset::Multiset::<Firing>::empty());
    assert(pending.to_multiset().add(none.to_multiset()) =~= pending.to_multiset());
}

/// Taking the firing at `k` off the queue and logging it as fired keeps the
/// queue's earlier firings accounted for.
proof fn lemma_accounted_for_after_taking(
    before: Seq<Firing>,
    pending: Seq<Firing>,
    fired: Seq<(int, Seq<char>)>,
    k: int,
    entry: (int, Seq<char>),
)
    requires
        accounted_for(before, pending, fired),
        0 <= k < pending.len(),
        as_firing(entry) == pending[k],
    ensures
        accounted_for(before, pending.remove(k), fired.push(entry)),
{
    broadcast use vstd::multiset::group_multiset_axioms;

    let f = |e: (int, Seq<char>)| as_firing(e);
    let old_fired = fired.map_values(f);
    let new_fired = fired.push(entry).map_values(f);
    assert(new_fired =~= old_fired.push(pending[k]));
    vstd::seq_lib::to_multiset_build(old_fired, pending[k]);
    vstd::seq_lib::to_multiset_remove(pending, k);
    vstd::seq_lib::to_multiset_contains(pending, pending[k]);
    assert(pending.remove(k).to_multiset().add(new_fired.to_multiset()) =~= pending.to_multiset().add(
        old_fired.to_multiset(),
    ));
}

/// Firings scheduled behind the queue keep the queue's earlier firings
/// accounted for.
proof fn lemma_accounted_for_after_scheduling(
    before: Seq<Firing>,
    pending: Seq<Firing>,
    more: Seq<Firing>,
    fired: Seq<(int, Seq<char>)>,
)
    requires
        accounted_for(before, pending, fired),
        pending.is_prefix_of(more),
    ensures
        accounted_for(before, more, fired),
{
    broadcast use vstd::multiset::group_multiset_axioms;

    let rest = more.subrange(pending.len() as int, more.len() as int);
    assert(more =~= pending + rest);
    vstd::seq_lib::lemma_multiset_commutative(pending, rest);
}

/// Firing the earliest queued firing keeps the firings in due order, as
/// long as no callback schedules a firing due before the run that schedules
/// it: `s_before` and `s_after` are the callback schedules logged before
/// and after the firing, `pending_after` the queue after it.
proof fn lemma_due_order_after_firing_the_earliest(
    newly: Seq<(int, Seq<char>)>,
    entry: (int, Seq<char>),
    pending_before: Seq<Firing>,
    k: int,
    pending_after: Seq<Firing>,
    s_before: Seq<(int, Firing)>,
    s_after: Seq<(int, Firing)>,
)
    requires
        0 <= k < pending_before.len(),
        as_firing(entry) == pending_before[k],
        forall|i: int|
            0 <= i < pending_before.len() ==> !due_before(
                #[trigger] pending_before[i],
                pending_before[k],
            ),
        scheduled_ahead(s_before) ==> {
            &&& in_due_order(newly)
            &&& newly.len() > 0 ==> forall|i: int|
                0 <= i < pending_before.len() ==> #[trigger] pending_before[i].0 >= newly.last().0
        },
        pending_before.remove(k).is_prefix_of(pending_after),
        s_after == s_before + scheduled_at(entry.0, appended(pending_before.remove(k), pending_after)),
    ensures
        scheduled_ahead(s_after) ==> {
            &&& in_due_order(newly.push(entry))
            &&& forall|i: int|
                0 <= i < pending_after.len() ==> #[trigger] pending_after[i].0 >= entry.0
        },
{
    if scheduled_ahead(s_after) {
        let taken = pending_before.remove(k);
        let extra = appended(taken, pending_after);
        assert forall|i: int| 0 <= i < s_before.len() implies #[trigger] s_before[i].1.0
            >= s_before[i].0 by {
            assert(s_after[i] == s_before[i]);
        }
        let pushed = newly.push(entry);
        assert forall|i: int, j: int| 0 <= i < j < pushed.len() implies #[trigger] pushed[i].0
            <= #[trigger] pushed[j].0 by {
            if j == newly.len() {
                assert(!due_before(pending_before[k], pending_before[k]));
                assert(pending_before[k].0 >= newly.last().0);
                assert(newly[i].0 <= newly[newly.len() - 1].0);
            } else {
                assert(pushed[i] == newly[i] && pushed[j] == newly[j]);
            }
        }
        assert forall|i: int| 0 <= i < pending_after.len() implies #[trigger] pending_after[i].0
            >= entry.0 by {
            if i < taken.len() {
                assert(pending_after[i] == taken[i]);
                if i < k {
                    assert(taken[i] == pending_before[i]);
                    assert(!due_before(pending_before[i], pending_before[k]));
                } else {
                    assert(taken[i] == pending_before[i + 1]);
                    assert(!due_before(pending_before[i + 1], pending_before[k]));
                }
            } else {
                let m = i - taken.len();
                assert(extra[m] == pending_after[i]);
                let at = s_before.len() + m;
                assert(s_after[at] == (entry.0, extra[m]));
                assert(s_after[at].1.0 >= s_after[at].0);
            }
        }
    }
}

/// Logging one more firing adds that firing's runs.
proof fn lemma_runs_of_push(names: Seq<Seq<char>>, fired: Seq<(int, Seq<char>)>, entry: (int, Seq<char>))
    ensures
        runs_of(names, fired.push(entry)) == runs_of(names, fired) + runs_for(
            names,
            entry.1,
            entry.0,
            names.len(),
        ),
{
    assert(fired.push(entry).drop_last() =~= fired);
}

/// Firing `entry` after `fired` adds one run at its due time to each
/// callback registered under its trigger.
proof fn lemma_ran_for_each_push<C: Callback>(
    before: Seq<C>,
    mid: Seq<C>,
    after: Seq<C>,
    names: Seq<Seq<char>>,
    fired: Seq<(int, Seq<char>)>,
    entry: (int, Seq<char>),
)
    requires
        ran_for_each(before, mid, names, fired),
        after.len() == mid.len(),
        forall|i: int|
            #![trigger after[i]]
            0 <= i < mid.len() ==> ran_since(mid[i], after[i], calls_after_firing(seq![], names[i], entry.1, entry.0)),
    ensures
        ran_for_each(before, after, names, fired.push(entry)),
{
    assert(fired.push(entry).drop_last() =~= fired);
    assert forall|j: int| 0 <= j < before.len() implies ran_since(
        before[j],
        #[trigger] after[j],
        times_fired(names[j], fired.push(entry)),
    ) by {
        let earlier = times_fired(names[j], fired);
        assert(ran_since(before[j], mid[j], earlier));
        assert(ran_since(mid[j], after[j], calls_after_firing(seq![], names[j], entry.1, entry.0)));
        if before[j].records_calls() {
            if names[j] == entry.1 {
                assert(before[j].calls() + earlier + seq![entry.0] =~= before[j].calls() + earlier.push(
                    entry.0,
                ));
            } else {
                assert(before[j].calls() + earlier + Seq::<int>::empty() =~= before[j].calls() + earlier);
            }
        }
    }
}

/// `firings`, each paired with the time `now` of the callback run that
/// scheduled it.
pub open spec fn scheduled_at(now: int, firings: Seq<Firing>) -> Seq<(int, Firing)> {
    firings.map_values(|firing: Firing| (now, firing))
}

/// The firings queued behind `before` in `after`, which extends it.
pub open spec fn appended(before: Seq<Firing>, after: Seq<Firing>) -> Seq<Firing> {
    after.subrange(before.len() as int, after.len() as int)
}

/// The callback schedules logged in `after` beyond the log `before` it
/// extends.
pub open spec fn schedules_since(
    before: Seq<(int, Firing)>,
    after: Seq<(int, Firing)>,
) -> Seq<(int, Firing)> {
    after.subrange(before.len() as int, after.len() as int)
}

/// Whether every firing a callback scheduled is due no earlier than the
/// run that scheduled it.
pub open spec fn scheduled_ahead(schedules: Seq<(int, Firing)>) -> bool {
    forall|i: int| 0 <= i < schedules.len() ==> #[trigger] schedules[i].1.0 >= schedules[i].0
}

/// Whether `fired` fired in due order: never a firing due before one that
/// fired earlier.
pub open spec fn in_due_order(fired: Seq<(int, Seq<char>)>) -> bool {
    forall|i: int, j: int| 0 <= i < j < fired.len() ==> #[trigger] fired[i].0 <= #[trigger] fired[j].0
}

/// Whether `after` extends `before` with runs given at most `limit`.
pub open spec fn runs_extend(before: Seq<(nat, int)>, after: Seq<(nat, int)>, limit: int) -> bool {
    &&& before.len() <= after.len()
    &&& after.subrange(0, before.len() as int) == before
    &&& forall|i: int| before.len() <= i < after.len() ==> #[trigger] after[i].1 <= limit
}

/// Every firing in `pending` is due strictly after `limit`.
pub open spec fn all_due_after(pending: Seq<Firing>, limit: int) -> bool {
    forall|i: int| 0 <= i < pending.len() ==> #[trigger] pending[i].0 > limit
}

/// The reading of a simulated clock, in raw units.
pub open spec fn reading(clock: FakeClockProvider) -> int {
    ticks_to_raw(clock.elapsed() as int, clock.frequency() as int)
}

/// The ticks `clock` has counted once it moves from its reading to `time`,
/// as [`FakeClockProvider::advance_by`] moves it by the difference.
pub open spec fn elapsed_after_move(clock: FakeClockProvider, time: int) -> int {
    clock.elapsed() + ticks_for(time - reading(clock), clock.frequency() as int)
}

/// Whether `clock` can move from its reading to `time` with every time in
/// the range of a [`Duration`]: the difference, and the reading after.
pub open spec fn move_stays_in_range(clock: FakeClockProvider, time: int) -> bool {
    &&& fits_i64(time - reading(clock))
    &&& fits_i64(ticks_to_raw(elapsed_after_move(clock, time), clock.frequency() as int))
}

/// Whether `pending[i]` is due no later than any other queued firing.
pub open spec fn due_first(pending: Seq<Firing>, i: int) -> bool {
    &&& 0 <= i < pending.len()
    &&& forall|k: int| 0 <= k < pending.len() ==> #[trigger] pending[k].0 >= pending[i].0
}

/// Whether `clock` cannot make its next move towards `limit`: to the
/// firing due first, if one is due by `limit`, else to `limit` itself.
pub open spec fn next_move_blocked(clock: FakeClockProvider, pending: Seq<Firing>, limit: int) -> bool {
    if all_due_after(pending, limit) {
        !move_stays_in_range(clock, limit)
    } else {
        exists|i: int| #[trigger] due_first(pending, i) && pending[i].0 <= limit && !move_stays_in_range(clock, pending[i].0)
    }
}

/// A clock can always move forward by a duration that keeps its reading
/// in range: the ticks the move counts never read as more than the
/// duration.
proof fn lemma_forward_move_stays_in_range(clock: FakeClockProvider, d: int)
    requires
        clock.frequency() > 0,
        d >= 0,
        fits_i64(reading(clock) + d),
    ensures
        move_stays_in_range(clock, reading(clock) + d),
        ticks_to_raw(elapsed_after_move(clock, reading(clock) + d), clock.frequency() as int)
            <= reading(clock) + d,
{
    let f = clock.frequency() as int;
    let e = clock.elapsed() as int;
    let s = crate::duration::second();
    let q = d * f / s;
    let t = ticks_for(d, f);
    assert(d * f >= 0) by (nonlinear_arith)
        requires
            d >= 0,
            f > 0,
    ;
    vstd::arithmetic::div_mod::lemma_div_pos_is_pos(d * f, s);
    vstd::arithmetic::div_mod::lemma_fundamental_div_mod(q, 0x1_0000_0000);
    vstd::arithmetic::div_mod::lemma_div_pos_is_pos(q, 0x1_0000_0000);
    vstd::arithmetic::div_mod::lemma_fundamental_div_mod(d * f, s);
    assert(0 <= t <= q);
    assert(t * s <= d * f) by (nonlinear_arith)
        requires
            0 <= t <= q,
            d * f == s * q + (d * f) % s,
            (d * f) % s >= 0,
            s > 0,
    ;
    assert((e + t) * s <= e * s + d * f) by (nonlinear_arith)
        requires
            t * s <= d * f,
    ;
    assert((e + t) * s >= 0) by (nonlinear_arith)
        requires
            e >= 0,
            t >= 0,
            s > 0,
    ;
    vstd::arithmetic::div_mod::lemma_div_is_ordered((e + t) * s, e * s + d * f, f);
    vstd::arithmetic::div_mod::lemma_hoist_over_denominator(e * s, d, f as nat);
    vstd::arithmetic::div_mod::lemma_div_pos_is_pos((e + t) * s, f);
    assert(reading(clock) == e * s / f);
    assert(elapsed_after_move(clock, reading(clock) + d) == e + t);
}

/// Every firing in `pending` is due no earlier than `time`.
pub open spec fn all_due_from(pending: Seq<Firing>, time: int) -> bool {
    forall|i: int| 0 <= i < pending.len() ==> #[trigger] pending[i].0 >= time
}

/// The times, in order, of the runs among `runs` of the registration at
/// position `j`.
pub open spec fn times_run(runs: Seq<(nat, int)>, j: nat) -> Seq<int>
    decreases runs.len(),
{
    if runs.len() == 0 {
        seq![]
    } else {
        let earlier = times_run(runs.drop_last(), j);
        if runs.last().0 == j {
            earlier.push(runs.last().1)
        } else {
            earlier
        }
    }
}

/// A registration none of `runs` is for has no run among them.
proof fn lemma_times_run_none(runs: Seq<(nat, int)>, j: nat)
    requires
        forall|i: int| 0 <= i < runs.len() ==> #[trigger] runs[i].0 < j,
    ensures
        times_run(runs, j) == Seq::<int>::empty(),
    decreases runs.len(),
{
    if runs.len() > 0 {
        lemma_times_run_none(runs.drop_last(), j);
    }
}

/// A registry mapping trigger names to callbacks, with a queue of firings
/// scheduled at a future simulated time and the simulated clock they are
/// due against.
pub struct CallbackRegistry<C: Callback> {
    /// The trigger name of each registration.
    names: Vec<String>,
    /// The callback of each registration, at the same position as its name.
    callbacks: Vec<C>,
    pending: PendingQueue,
    /// The simulated clock, which firmware under test reads through
    /// [`Self::clock_provider`].
    clock: ClockProvider,
    /// Every callback run so far: the registration's position and the `now`
    /// it was given.
    runs: Ghost<Seq<(nat, int)>>,
    /// The record of runs each callback had when it was registered.
    registered: Ghost<Seq<Seq<int>>>,
    /// Every scheduled firing taken off the queue and fired so far, in
    /// order: its due time and trigger name.
    fired: Ghost<Seq<(int, Seq<char>)>>,
    /// Every firing a callback scheduled so far, in order, with the time the
    /// callback ran at.
    scheduled: Ghost<Seq<(int, Firing)>>,
}

impl<C: Callback> CallbackRegistry<C> {
    /// Every registration has both a name and a callback.
    pub closed spec fn wf(&self) -> bool {
        &&& self.names@.len() == self.callbacks@.len()
        &&& self.registered@.len() == self.callbacks@.len()
        &&& forall|i: int| 0 <= i < self.runs@.len() ==> #[trigger] self.runs@[i].0 < self.names@.len()
        &&& forall|j: int|
            0 <= j < self.callbacks@.len() && #[trigger] self.callbacks@[j].records_calls()
                ==> self.callbacks@[j].calls() == self.registered@[j] + times_run(self.runs@, j as nat)
    }

    /// The record of runs each callback had when it was registered, in
    /// registration order.
    pub closed spec fn calls_when_registered(&self) -> Seq<Seq<int>> {
        self.registered@
    }

    /// The runs the registry logs are exactly the callbacks' own: the record
    /// of each callback that records its runs is the one it was registered
    /// with, followed by the time of each run logged for its registration,
    /// in order.
    pub proof fn law_logged_runs_are_the_callbacks_runs(&self)
        requires
            self.wf(),
        ensures
            self.calls_when_registered().len() == self.callbacks().len(),
            forall|j: int|
                0 <= j < self.callbacks().len() && #[trigger] self.callbacks()[j].records_calls()
                    ==> self.callbacks()[j].calls() == self.calls_when_registered()[j] + times_run(
                    self.runs(),
                    j as nat,
                ),
    {
    }

    /// The trigger name of each registration, in registration order.
    pub closed spec fn names(&self) -> Seq<Seq<char>> {
        self.names@.map_values(|name: String| name@)
    }

    /// The callback of each registration, in registration order, as it
    /// stands now: each has its own record of runs (see
    /// [`Callback::calls`]).
    pub closed spec fn callbacks(&self) -> Seq<C> {
        self.callbacks@
    }

    /// Every callback run so far, in the order the registry made them: the
    /// registration's position and the simulated time it was given. Each
    /// callback's own record holds exactly its runs from this log (see
    /// [`Self::law_logged_runs_are_the_callbacks_runs`]).
    pub closed spec fn runs(&self) -> Seq<(nat, int)> {
        self.runs@
    }

    /// Every scheduled firing taken off the queue and fired so far, in
    /// order: its due time and trigger name.
    pub closed spec fn fired_log(&self) -> Seq<(int, Seq<char>)> {
        self.fired@
    }

    /// Every firing a callback scheduled so far, in order, with the time the
    /// callback ran at.
    pub closed spec fn callback_schedules(&self) -> Seq<(int, Firing)> {
        self.scheduled@
    }

    /// The firings scheduled and not yet fired.
    pub closed spec fn pending(&self) -> Seq<Firing> {
        self.pending.firings()
    }

    /// The simulated clock.
    pub closed spec fn clock(&self) -> FakeClockProvider {
        self.clock.simulation()
    }

    /// The clock's current reading, in raw units.
    pub open spec fn uptime(&self) -> int {
        ticks_to_raw(self.clock().elapsed() as int, self.clock().frequency() as int)
    }

    /// Builds an empty registry that owns the simulated clock `clock`: the
    /// firmware under test reads that same clock through
    /// [`Self::clock_provider`], so it sees every move the registry makes.
    pub fn new(clock: ClockProvider) -> (registry: Self)
        ensures
            registry.names() == Seq::<Seq<char>>::empty(),
            registry.callbacks() == Seq::<C>::empty(),
            registry.calls_when_registered() == Seq::<Seq<int>>::empty(),
            registry.runs() == Seq::<(nat, int)>::empty(),
            registry.pending() == Seq::<Firing>::empty(),
            registry.fired_log() == Seq::<(int, Seq<char>)>::empty(),
            registry.clock() == clock.simulation(),
            registry.wf(),
    {
        let registry = CallbackRegistry {
            names: Vec::new(),
            callbacks: Vec::new(),
            pending: PendingQueue { entries: Vec::new() },
            clock,
            runs: Ghost(Seq::empty()),
            registered: Ghost(Seq::empty()),
            fired: Ghost(Seq::empty()),
            scheduled: Ghost(Seq::empty()),
        };
        proof {
            assert(registry.names() =~= Seq::<Seq<char>>::empty());
            assert(registry.callbacks() =~= Seq::<C>::empty());
            assert(registry.pending() =~= Seq::<Firing>::empty());
        }
        registry
    }

    /// Registers `callback` under `trigger`. Several callbacks may register
    /// under one name; all of them run, in registration order, whenever it
    /// fires.
    pub fn register(&mut self, trigger: &str, callback: C)
        requires
            old(self).wf(),
        ensures
            final(self).wf(),
            final(self).names() == old(self).names().push(trigger@),
            final(self).callbacks() == old(self).callbacks().push(callback),
            final(self).calls_when_registered() == old(self).calls_when_registered().push(callback.calls()),
            final(self).runs() == old(self).runs(),
            final(self).pending() == old(self).pending(),
            final(self).fired_log() == old(self).fired_log(),
            final(self).callback_schedules() == old(self).callback_schedules(),
            final(self).clock() == old(self).clock(),
    {
        let ghost calls = callback.calls();
        proof {
            lemma_times_run_none(self.runs@, self.callbacks@.len());
        }
        self.names.push(trigger.to_owned());
        self.callbacks.push(callback);
        proof {
            self.registered@ = self.registered@.push(calls);
            assert(self.names() =~= old(self).names().push(trigger@));
            assert(self.callbacks@[self.callbacks@.len() - 1].calls() == self.registered@[
                self.callbacks@.len() - 1] + times_run(self.runs@, (self.callbacks@.len() - 1) as nat));
        }
    }

    /// The clock's current simulated reading.
    pub fn now(&self) -> (now: Uptime)
        ensures
            now@ == self.uptime(),
            self.clock().frequency() > 0,
    {
        let elapsed = self.clock.fake().now();
        proof {
            elapsed.lemma_view_range();
        }
        Uptime::epoch() + elapsed
    }

    /// The simulated clock the registry reads time from.
    pub fn fake_clock(&self) -> (clock: &FakeClockProvider)
        ensures
            *clock == self.clock(),
    {
        self.clock.fake()
    }

    /// The provider of the simulated clock, for the firmware under test to
    /// read time from (and a test to move it by hand). Everything else
    /// about the registry stays as it is.
    pub fn clock_provider(&mut self) -> (provider: &mut ClockProvider)
        ensures
            provider.simulation() == old(self).clock(),
            final(self).clock() == final(provider).simulation(),
            old(self).wf() ==> final(self).wf(),
            final(self).calls_when_registered() == old(self).calls_when_registered(),
            final(self).names() == old(self).names(),
            final(self).calls_when_registered() == old(self).calls_when_registered(),
            final(self).callbacks() == old(self).callbacks(),
            final(self).runs() == old(self).runs(),
            final(self).pending() == old(self).pending(),
            final(self).fired_log() == old(self).fired_log(),
            final(self).callback_schedules() == old(self).callback_schedules(),
    {
        &mut self.clock
    }

    /// Schedules `trigger` to fire once simulated time reaches `at` (see
    /// [`Self::advance_clock_by`] and [`Self::poll`]).
    pub fn schedule(&mut self, trigger: &str, at: Uptime)
        requires
            old(self).wf(),
        ensures
            final(self).wf(),
            final(self).pending() == old(self).pending().push((at@, vstd::utf8::encode_utf8(trigger@))),
            final(self).names() == old(self).names(),
            final(self).callbacks() == old(self).callbacks(),
            final(self).runs() == old(self).runs(),
            final(self).fired_log() == old(self).fired_log(),
            final(self).callback_schedules() == old(self).callback_schedules(),
            final(self).clock() == old(self).clock(),
    {
        self.pending.schedule(trigger, at);
    }

    /// Runs every callback registered under `trigger` at the clock's current
    /// reading.
    pub fn fire(&mut self, trigger: &str)
        requires
            old(self).wf(),
        ensures
            final(self).wf(),
            final(self).runs() == old(self).runs() + runs_for(
                old(self).names(),
                trigger@,
                old(self).uptime(),
                old(self).names().len(),
            ),
            final(self).names() == old(self).names(),
            final(self).calls_when_registered() == old(self).calls_when_registered(),
            final(self).callbacks().len() == old(self).callbacks().len(),
            forall|i: int|
                #![trigger final(self).callbacks()[i]]
                0 <= i < old(self).callbacks().len() ==> ran_since(
                    old(self).callbacks()[i],
                    final(self).callbacks()[i],
                    calls_after_firing(seq![], old(self).names()[i], trigger@, old(self).uptime()),
                ),
            final(self).clock() == old(self).clock(),
            final(self).fired_log() == old(self).fired_log(),
            old(self).pending().is_prefix_of(final(self).pending()),
            final(self).callback_schedules() == old(self).callback_schedules() + scheduled_at(
                old(self).uptime(),
                appended(old(self).pending(), final(self).pending()),
            ),
    {
        let now = self.now();
        self.fire_at(trigger, now);
    }

    /// Moves the clock from its reading to `time` exactly as
    /// [`FakeClockProvider::advance_by`] would move it by the difference, if
    /// that keeps every time in range: the difference must fit a
    /// [`Duration`], and the clock's new time too. Returns whether it moved;
    /// otherwise the clock stays where it was.
    fn move_clock_to(&mut self, time: Uptime) -> (moved: bool)
        requires
            old(self).wf(),
        ensures
            final(self).wf(),
            final(self).names() == old(self).names(),
            final(self).calls_when_registered() == old(self).calls_when_registered(),
            final(self).callbacks() == old(self).callbacks(),
            final(self).runs() == old(self).runs(),
            final(self).pending() == old(self).pending(),
            final(self).fired_log() == old(self).fired_log(),
            final(self).callback_schedules() == old(self).callback_schedules(),
            final(self).clock().frequency() == old(self).clock().frequency(),
            final(self).clock().reference_ticks() == old(self).clock().reference_ticks(),
            moved ==> final(self).clock().elapsed() == elapsed_after_move(old(self).clock(), time@),
            !moved ==> final(self).clock() == old(self).clock(),
            moved == move_stays_in_range(old(self).clock(), time@),
    {
        let now = self.now();
        proof {
            time.lemma_view_range();
            now.lemma_view_range();
        }
        let to: i64 = (time - Uptime::epoch()).raw();
        let from: i64 = (now - Uptime::epoch()).raw();
        let difference: i128 = to as i128 - from as i128;
        if difference < -0x8000_0000_0000_0000 || difference > 0x7fff_ffff_ffff_ffff {
            return false;
        }
        let delta = Duration::new(difference as i64);
        if !self.clock.fake().can_advance_by(delta) {
            return false;
        }
        self.clock.fake_mut().advance_by(delta);
        true
    }

    /// Moves the clock forward by `duration`, firing every scheduled firing
    /// reached along the way in due order: before each firing the clock
    /// moves to its due time, and its callbacks get that time. Firings the
    /// callbacks schedule within the window fire too. Then the clock moves
    /// to the target. Returns whether it settled: it stops early, leaving
    /// the clock where it stands, only if its next move would take a time
    /// out of the range of a [`Duration`], or after 2^64 - 1 firings. When
    /// nothing queued is due by the target, it fires nothing and the clock
    /// makes exactly the one move to the target, which always succeeds for
    /// a duration that is not negative. Every move is forward, and so
    /// stays in range, when the duration is not negative, nothing queued is
    /// due before the clock's reading, and no callback schedules a firing
    /// due before its own run: then it settles unless it stopped after
    /// 2^64 - 1 firings.
    ///
    /// Each firing taken off the queue is logged (see [`Self::fired_log`])
    /// and runs exactly its trigger's callbacks, each of which records the
    /// run at the firing's due time; every firing queued before is still
    /// queued or among those fired; and the firings fire in due order
    /// unless a callback schedules one due before its own run.
    pub fn advance_clock_by(&mut self, duration: Duration) -> (settled: bool)
        requires
            old(self).wf(),
            fits_i64(old(self).uptime() + duration@),
        ensures
            final(self).wf(),
            final(self).names() == old(self).names(),
            final(self).calls_when_registered() == old(self).calls_when_registered(),
            ran_for_each(
                old(self).callbacks(),
                final(self).callbacks(),
                old(self).names(),
                fired_since(old(self).fired_log(), final(self).fired_log()),
            ),
            final(self).clock().frequency() == old(self).clock().frequency(),
            runs_extend(old(self).runs(), final(self).runs(), old(self).uptime() + duration@),
            settled ==> all_due_after(final(self).pending(), old(self).uptime() + duration@),
            !settled ==> fired_since(old(self).fired_log(), final(self).fired_log()).len() == u64::MAX
                || next_move_blocked(
                final(self).clock(),
                final(self).pending(),
                old(self).uptime() + duration@,
            ),
            duration@ >= 0 && all_due_from(old(self).pending(), old(self).uptime()) && scheduled_ahead(
                schedules_since(old(self).callback_schedules(), final(self).callback_schedules()),
            ) ==> {
                &&& settled || fired_since(old(self).fired_log(), final(self).fired_log()).len()
                    == u64::MAX
                &&& settled ==> final(self).uptime() <= old(self).uptime() + duration@
            },
            settled ==> exists|stood: FakeClockProvider|
                #![trigger elapsed_after_move(stood, old(self).uptime() + duration@)]
                stood.frequency() == old(self).clock().frequency() && move_stays_in_range(
                    stood,
                    old(self).uptime() + duration@,
                ) && final(self).clock().elapsed() == elapsed_after_move(
                    stood,
                    old(self).uptime() + duration@,
                ),
            all_due_after(old(self).pending(), old(self).uptime() + duration@) ==> {
                &&& fired_since(old(self).fired_log(), final(self).fired_log()).len() == 0
                &&& final(self).pending() == old(self).pending()
                &&& settled == move_stays_in_range(old(self).clock(), old(self).uptime() + duration@)
                &&& settled ==> final(self).clock().elapsed() == elapsed_after_move(
                    old(self).clock(),
                    old(self).uptime() + duration@,
                )
                &&& !settled ==> final(self).clock() == old(self).clock()
                &&& duration@ >= 0 ==> settled
            },
            old(self).fired_log().is_prefix_of(final(self).fired_log()),
            final(self).runs() == old(self).runs() + runs_of(
                old(self).names(),
                fired_since(old(self).fired_log(), final(self).fired_log()),
            ),
            forall|i: int|
                0 <= i < fired_since(old(self).fired_log(), final(self).fired_log()).len()
                    ==> #[trigger] fired_since(old(self).fired_log(), final(self).fired_log())[i].0
                    <= old(self).uptime() + duration@,
            accounted_for(
                old(self).pending(),
                final(self).pending(),
                fired_since(old(self).fired_log(), final(self).fired_log()),
            ),
            old(self).callback_schedules().is_prefix_of(final(self).callback_schedules()),
            scheduled_ahead(
                schedules_since(old(self).callback_schedules(), final(self).callback_schedules()),
            ) ==> in_due_order(fired_since(old(self).fired_log(), final(self).fired_log())),
    {
        let start = self.now();
        let target = start + duration;
        let mut budget: u64 = u64::MAX;
        let ghost mut newly: Seq<(int, Seq<char>)> = Seq::empty();
        proof {
            assert(self.runs().subrange(0, self.runs().len() as int) =~= self.runs());
            assert(self.fired_log() =~= old(self).fired_log() + newly);
            assert(runs_of(old(self).names(), newly) =~= Seq::<(nat, int)>::empty());
            assert(self.runs() =~= old(self).runs() + runs_of(old(self).names(), newly));
            assert forall|j: int| 0 <= j < self.callbacks().len() implies #[trigger] self.callbacks()[j].calls()
                == old(self).callbacks()[j].calls() + times_fired(old(self).names()[j], newly) by {
                assert(old(self).callbacks()[j].calls() + times_fired(old(self).names()[j], newly)
                    =~= old(self).callbacks()[j].calls());
            }
            lemma_accounted_for_itself(self.pending());
            assert(schedules_since(old(self).callback_schedules(), self.callback_schedules())
                =~= Seq::<(int, Firing)>::empty());
        }
        loop
            invariant
                self.wf(),
                self.names() == old(self).names(),
                ran_for_each(old(self).callbacks(), self.callbacks(), old(self).names(), newly),
                self.calls_when_registered() == old(self).calls_when_registered(),
                self.clock().frequency() == old(self).clock().frequency(),
                target@ == old(self).uptime() + duration@,
                newly.len() + budget == u64::MAX,
                old(self).clock().frequency() > 0,
                newly.len() == 0 ==> self.clock() == old(self).clock() && self.pending() == old(
                    self,
                ).pending(),
                duration@ >= 0 && all_due_from(old(self).pending(), old(self).uptime())
                    && scheduled_ahead(
                    schedules_since(old(self).callback_schedules(), self.callback_schedules()),
                ) ==> {
                    &&& self.uptime() <= target@
                    &&& newly.len() > 0 ==> self.uptime() <= newly.last().0
                },
                all_due_after(old(self).pending(), target@) ==> {
                    &&& newly.len() == 0
                    &&& self.clock() == old(self).clock()
                    &&& self.pending() == old(self).pending()
                },
                runs_extend(old(self).runs(), self.runs(), target@),
                self.fired_log() == old(self).fired_log() + newly,
                self.runs() == old(self).runs() + runs_of(old(self).names(), newly),
                forall|i: int| 0 <= i < newly.len() ==> #[trigger] newly[i].0 <= target@,
                accounted_for(old(self).pending(), self.pending(), newly),
                old(self).callback_schedules().is_prefix_of(self.callback_schedules()),
                scheduled_ahead(schedules_since(old(self).callback_schedules(), self.callback_schedules()))
                    ==> {
                    &&& in_due_order(newly)
                    &&& newly.len() > 0 ==> forall|i: int|
                        0 <= i < self.pending().len() ==> #[trigger] self.pending()[i].0
                            >= newly.last().0
                },
            ensures
                all_due_after(self.pending(), target@),
            decreases budget,
        {
            let next = self.pending.earliest();
            match next {
                None => {
                    break;
                },
                Some(k) => {
                    let time = self.pending.due_time(k);
                    if time > target {
                        proof {
                            assert forall|i: int| 0 <= i < self.pending().len() implies #[trigger] self.pending()[i].0
                                > target@ by {
                                assert(!due_before(self.pending.firings()[i], self.pending.firings()[k as int]));
                            }
                        }
                        break;
                    }
                    if budget == 0 {
                        proof {
                            assert(fired_since(old(self).fired_log(), self.fired_log()) =~= newly);
                        }
                        return false;
                    }
                    budget -= 1;
                    proof {
                        assert forall|i: int| 0 <= i < self.pending().len() implies #[trigger] self.pending()[i].0
                            >= self.pending()[k as int].0 by {
                            assert(!due_before(self.pending.firings()[i], self.pending.firings()[k as int]));
                        }
                        assert(due_first(self.pending(), k as int));
                        assert(!all_due_after(self.pending(), target@));
                    }
                    let ghost clock_start = self.clock();
                    proof {
                        let fwd = duration@ >= 0 && all_due_from(old(self).pending(), old(self).uptime());
                        if fwd && scheduled_ahead(
                            schedules_since(old(self).callback_schedules(), self.callback_schedules()),
                        ) {
                            time.lemma_view_range();
                            if newly.len() > 0 {
                                assert(self.pending()[k as int].0 >= newly.last().0);
                            } else {
                                assert(old(self).pending()[k as int].0 >= old(self).uptime());
                            }
                            assert(time@ >= reading(clock_start));
                            lemma_forward_move_stays_in_range(clock_start, time@ - reading(clock_start));
                        }
                    }
                    if !self.move_clock_to(time) {
                        proof {
                            assert(fired_since(old(self).fired_log(), self.fired_log()) =~= newly);
                            assert(due_first(self.pending(), k as int) && self.pending()[k as int].0 <= target@
                                && !move_stays_in_range(self.clock(), self.pending()[k as int].0));
                        }
                        return false;
                    }
                    let ghost runs_before = self.runs();
                    let ghost pending_before = self.pending();
                    let ghost newly_before = newly;
                    let ghost schedules_before = self.callback_schedules();
                    let (due, trigger) = self.pending.take(k);
                    proof {
                        lemma_accounted_for_after_taking(
                            old(self).pending(),
                            pending_before,
                            newly,
                            k as int,
                            (due@, trigger@),
                        );
                        lemma_runs_of_push(old(self).names(), newly, (due@, trigger@));
                        newly = newly.push((due@, trigger@));
                        self.fired@ = self.fired@.push((due@, trigger@));
                        assert(self.fired_log() =~= old(self).fired_log() + newly);
                    }
                    let ghost pending_taken = self.pending();
                    let ghost callbacks_before = self.callbacks();
                    self.fire_at(trigger.as_str(), due);
                    proof {
                        lemma_ran_for_each_push(
                            old(self).callbacks(),
                            callbacks_before,
                            self.callbacks(),
                            old(self).names(),
                            newly_before,
                            (due@, trigger@),
                        );
                        lemma_accounted_for_after_scheduling(
                            old(self).pending(),
                            pending_taken,
                            self.pending(),
                            newly,
                        );
                        let start = old(self).callback_schedules();
                        assert(schedules_since(start, self.callback_schedules()) =~= schedules_since(
                            start,
                            schedules_before,
                        ) + scheduled_at(due@, appended(pending_taken, self.pending())));
                        lemma_due_order_after_firing_the_earliest(
                            newly_before,
                            (due@, trigger@),
                            pending_before,
                            k as int,
                            self.pending(),
                            schedules_since(start, schedules_before),
                            schedules_since(start, self.callback_schedules()),
                        );
                        lemma_runs_for_time(old(self).names(), trigger@, due@, old(self).names().len());
                        if duration@ >= 0 && all_due_from(old(self).pending(), old(self).uptime())
                            && scheduled_ahead(schedules_since(start, self.callback_schedules())) {
                            let all = schedules_since(start, self.callback_schedules());
                            let earlier = schedules_since(start, schedules_before);
                            assert forall|i: int| 0 <= i < earlier.len() implies #[trigger] earlier[i].1.0
                                >= earlier[i].0 by {
                                assert(earlier[i] == all[i]);
                            }
                            assert(scheduled_ahead(earlier));
                            if newly_before.len() > 0 {
                                assert(pending_before[k as int].0 >= newly_before.last().0);
                            } else {
                                assert(old(self).pending()[k as int].0 >= old(self).uptime());
                            }
                            assert(due@ >= reading(clock_start));
                            lemma_forward_move_stays_in_range(clock_start, due@ - reading(clock_start));
                            assert(self.uptime() <= due@);
                        }
                        assert(self.runs().subrange(0, runs_before.len() as int) =~= runs_before);
                        assert(self.runs().subrange(0, old(self).runs().len() as int)
                            =~= runs_before.subrange(0, old(self).runs().len() as int));
                        assert forall|i: int|
                            old(self).runs().len() <= i < self.runs().len() implies #[trigger] self.runs()[i].1
                            <= target@ by {
                            if i >= runs_before.len() {
                                assert(self.runs()[i] == runs_for(
                                    old(self).names(),
                                    trigger@,
                                    due@,
                                    old(self).names().len(),
                                )[i - runs_before.len()]);
                            } else {
                                assert(self.runs()[i] == runs_before[i]);
                            }
                        }
                    }
                },
            }
        }
        let ghost stood = self.clock();
        let settled = self.move_clock_to(target);
        proof {
            if duration@ >= 0 {
                lemma_forward_move_stays_in_range(old(self).clock(), duration@);
            }
            if duration@ >= 0 && all_due_from(old(self).pending(), old(self).uptime()) && scheduled_ahead(
                schedules_since(old(self).callback_schedules(), self.callback_schedules()),
            ) {
                target.lemma_view_range();
                lemma_forward_move_stays_in_range(stood, target@ - reading(stood));
            }
            assert(fired_since(old(self).fired_log(), self.fired_log()) =~= newly);
            if settled {
                assert(stood.frequency() == old(self).clock().frequency() && move_stays_in_range(
                    stood,
                    target@,
                ) && self.clock().elapsed() == elapsed_after_move(stood, target@));
            }
        }
        settled
    }

    /// Fires, in due order, every scheduled firing already due at the
    /// clock's current reading, without moving the clock; each firing's
    /// callbacks get its own due time. Firings the callbacks schedule that
    /// are already due fire too. Returns whether it settled, i.e. no due
    /// firing is left, which fails only after 2^64 - 1 firings. What is
    /// logged, run and accounted for is as for [`Self::advance_clock_by`].
    pub fn poll(&mut self) -> (settled: bool)
        requires
            old(self).wf(),
        ensures
            final(self).wf(),
            final(self).names() == old(self).names(),
            final(self).calls_when_registered() == old(self).calls_when_registered(),
            ran_for_each(
                old(self).callbacks(),
                final(self).callbacks(),
                old(self).names(),
                fired_since(old(self).fired_log(), final(self).fired_log()),
            ),
            final(self).clock() == old(self).clock(),
            runs_extend(old(self).runs(), final(self).runs(), old(self).uptime()),
            settled == all_due_after(final(self).pending(), old(self).uptime()),
            !settled ==> fired_since(old(self).fired_log(), final(self).fired_log()).len() == u64::MAX,
            old(self).fired_log().is_prefix_of(final(self).fired_log()),
            final(self).runs() == old(self).runs() + runs_of(
                old(self).names(),
                fired_since(old(self).fired_log(), final(self).fired_log()),
            ),
            forall|i: int|
                0 <= i < fired_since(old(self).fired_log(), final(self).fired_log()).len()
                    ==> #[trigger] fired_since(old(self).fired_log(), final(self).fired_log())[i].0
                    <= old(self).uptime(),
            accounted_for(
                old(self).pending(),
                final(self).pending(),
                fired_since(old(self).fired_log(), final(self).fired_log()),
            ),
            old(self).callback_schedules().is_prefix_of(final(self).callback_schedules()),
            scheduled_ahead(
                schedules_since(old(self).callback_schedules(), final(self).callback_schedules()),
            ) ==> in_due_order(fired_since(old(self).fired_log(), final(self).fired_log())),
    {
        let now = self.now();
        let mut budget: u64 = u64::MAX;
        let ghost mut newly: Seq<(int, Seq<char>)> = Seq::empty();
        proof {
            assert(self.runs().subrange(0, self.runs().len() as int) =~= self.runs());
            assert(self.fired_log() =~= old(self).fired_log() + newly);
            assert(runs_of(old(self).names(), newly) =~= Seq::<(nat, int)>::empty());
            assert(self.runs() =~= old(self).runs() + runs_of(old(self).names(), newly));
            assert forall|j: int| 0 <= j < self.callbacks().len() implies #[trigger] self.callbacks()[j].calls()
                == old(self).callbacks()[j].calls() + times_fired(old(self).names()[j], newly) by {
                assert(old(self).callbacks()[j].calls() + times_fired(old(self).names()[j], newly)
                    =~= old(self).callbacks()[j].calls());
            }
            lemma_accounted_for_itself(self.pending());
            assert(schedules_since(old(self).callback_schedules(), self.callback_schedules())
                =~= Seq::<(int, Firing)>::empty());
        }
        loop
            invariant
                self.wf(),
                self.names() == old(self).names(),
                ran_for_each(old(self).callbacks(), self.callbacks(), old(self).names(), newly),
                self.calls_when_registered() == old(self).calls_when_registered(),
                self.clock() == old(self).clock(),
                now@ == old(self).uptime(),
                newly.len() + budget == u64::MAX,
                runs_extend(old(self).runs(), self.runs(), now@),
                self.fired_log() == old(self).fired_log() + newly,
                self.runs() == old(self).runs() + runs_of(old(self).names(), newly),
                forall|i: int| 0 <= i < newly.len() ==> #[trigger] newly[i].0 <= now@,
                accounted_for(old(self).pending(), self.pending(), newly),
                old(self).callback_schedules().is_prefix_of(self.callback_schedules()),
                scheduled_ahead(schedules_since(old(self).callback_schedules(), self.callback_schedules()))
                    ==> {
                    &&& in_due_order(newly)
                    &&& newly.len() > 0 ==> forall|i: int|
                        0 <= i < self.pending().len() ==> #[trigger] self.pending()[i].0
                            >= newly.last().0
                },
            decreases budget,
        {
            proof {
                assert(fired_since(old(self).fired_log(), self.fired_log()) =~= newly);
            }
            let next = self.pending.earliest();
            match next {
                None => {
                    return true;
                },
                Some(k) => {
                    let time = self.pending.due_time(k);
                    proof {
                        assert forall|i: int| 0 <= i < self.pending().len() implies #[trigger] self.pending()[i].0
                            >= time@ by {
                            assert(!due_before(self.pending.firings()[i], self.pending.firings()[k as int]));
                        }
                    }
                    if time > now {
                        return true;
                    }
                    if budget == 0 {
                        proof {
                            assert(!all_due_after(self.pending(), now@));
                        }
                        return false;
                    }
                    budget -= 1;
                    let ghost runs_before = self.runs();
                    let ghost pending_before = self.pending();
                    let ghost newly_before = newly;
                    let ghost schedules_before = self.callback_schedules();
                    let (due, trigger) = self.pending.take(k);
                    proof {
                        lemma_accounted_for_after_taking(
                            old(self).pending(),
                            pending_before,
                            newly,
                            k as int,
                            (due@, trigger@),
                        );
                        lemma_runs_of_push(old(self).names(), newly, (due@, trigger@));
                        newly = newly.push((due@, trigger@));
                        self.fired@ = self.fired@.push((due@, trigger@));
                        assert(self.fired_log() =~= old(self).fired_log() + newly);
                    }
                    let ghost pending_taken = self.pending();
                    let ghost callbacks_before = self.callbacks();
                    self.fire_at(trigger.as_str(), due);
                    proof {
                        lemma_ran_for_each_push(
                            old(self).callbacks(),
                            callbacks_before,
                            self.callbacks(),
                            old(self).names(),
                            newly_before,
                            (due@, trigger@),
                        );
                        lemma_accounted_for_after_scheduling(
                            old(self).pending(),
                            pending_taken,
                            self.pending(),
                            newly,
                        );
                        let start = old(self).callback_schedules();
                        assert(schedules_since(start, self.callback_schedules()) =~= schedules_since(
                            start,
                            schedules_before,
                        ) + scheduled_at(due@, appended(pending_taken, self.pending())));
                        lemma_due_order_after_firing_the_earliest(
                            newly_before,
                            (due@, trigger@),
                            pending_before,
                            k as int,
                            self.pending(),
                            schedules_since(start, schedules_before),
                            schedules_since(start, self.callback_schedules()),
                        );
                        lemma_runs_for_time(old(self).names(), trigger@, due@, old(self).names().len());
                        assert(self.runs().subrange(0, runs_before.len() as int) =~= runs_before);
                        assert(self.runs().subrange(0, old(self).runs().len() as int)
                            =~= runs_before.subrange(0, old(self).runs().len() as int));
                        assert forall|i: int|
                            old(self).runs().len() <= i < self.runs().len() implies #[trigger] self.runs()[i].1
                            <= now@ by {
                            if i >= runs_before.len() {
                                assert(self.runs()[i] == runs_for(
                                    old(self).names(),
                                    trigger@,
                                    due@,
                                    old(self).names().len(),
                                )[i - runs_before.len()]);
                            } else {
                                assert(self.runs()[i] == runs_before[i]);
                            }
                        }
                    }
                },
            }
        }
    }

    /// Runs every callback registered under `trigger`, in registration
    /// order, each with `now`. The callbacks may schedule further firings.
    fn fire_at(&mut self, trigger: &str, now: Uptime)
        requires
            old(self).wf(),
        ensures
            final(self).wf(),
            final(self).runs() == old(self).runs() + runs_for(
                old(self).names(),
                trigger@,
                now@,
                old(self).names().len(),
            ),
            final(self).names() == old(self).names(),
            final(self).calls_when_registered() == old(self).calls_when_registered(),
            final(self).callbacks().len() == old(self).callbacks().len(),
            forall|i: int|
                #![trigger final(self).callbacks()[i]]
                0 <= i < old(self).callbacks().len() ==> ran_since(
                    old(self).callbacks()[i],
                    final(self).callbacks()[i],
                    calls_after_firing(seq![], old(self).names()[i], trigger@, now@),
                ),
            final(self).clock() == old(self).clock(),
            old(self).pending().is_prefix_of(final(self).pending()),
            final(self).fired_log() == old(self).fired_log(),
            final(self).callback_schedules() == old(self).callback_schedules() + scheduled_at(
                now@,
                appended(old(self).pending(), final(self).pending()),
            ),
    {
        let name = trigger.to_owned();
        let mut j: usize = 0;
        proof {
            assert(appended(old(self).pending(), self.pending()) =~= Seq::<Firing>::empty());
            assert(self.callback_schedules() =~= old(self).callback_schedules() + scheduled_at(
                now@,
                appended(old(self).pending(), self.pending()),
            ));
        }
        while j < self.names.len()
            invariant
                j <= self.names@.len(),
                self.names@.len() == self.callbacks@.len(),
                self.registered == old(self).registered,
                self.registered@.len() == self.callbacks@.len(),
                forall|i: int| 0 <= i < self.runs@.len() ==> #[trigger] self.runs@[i].0 < self.names@.len(),
                forall|i: int|
                    0 <= i < self.callbacks@.len() && #[trigger] self.callbacks@[i].records_calls()
                        ==> self.callbacks@[i].calls() == self.registered@[i] + times_run(self.runs@, i as nat),
                self.names() == old(self).names(),
                self.callbacks@.len() == old(self).callbacks@.len(),
                forall|i: int|
                    #![trigger self.callbacks@[i]]
                    0 <= i < self.callbacks@.len() ==> ran_since(
                        old(self).callbacks@[i],
                        self.callbacks@[i],
                        if i < j {
                            calls_after_firing(seq![], old(self).names()[i], trigger@, now@)
                        } else {
                            seq![]
                        },
                    ),
                self.clock == old(self).clock,
                name@ == trigger@,
                self.runs@ == old(self).runs@ + runs_for(old(self).names(), trigger@, now@, j as nat),
                old(self).pending().is_prefix_of(self.pending()),
                self.fired@ == old(self).fired@,
                self.callback_schedules() == old(self).callback_schedules() + scheduled_at(
                    now@,
                    appended(old(self).pending(), self.pending()),
                ),
            decreases self.names@.len() - j,
        {
            let ghost names = self.names();
            proof {
                assert(names[j as int] == self.names@[j as int]@);
            }
            if self.names[j] == name {
                let ghost before = self.pending();
                self.callbacks[j].call(now, &mut self.pending);
                proof {
                    let runs_before = self.runs@;
                    self.runs@ = self.runs@.push((j as nat, now@));
                    assert(self.runs@.drop_last() =~= runs_before);
                    assert forall|i: int|
                        0 <= i < self.callbacks@.len() && #[trigger] self.callbacks@[i].records_calls()
                            implies self.callbacks@[i].calls() == self.registered@[i] + times_run(
                        self.runs@,
                        i as nat,
                    ) by {
                        if i == j {
                            assert((self.registered@[i] + times_run(runs_before, i as nat)).push(now@)
                                =~= self.registered@[i] + times_run(runs_before, i as nat).push(now@));
                        }
                    }
                    let extra = appended(before, self.pending());
                    self.scheduled@ = self.scheduled@ + scheduled_at(now@, extra);
                    assert(appended(old(self).pending(), self.pending()) =~= appended(
                        old(self).pending(),
                        before,
                    ) + extra);
                    assert(scheduled_at(now@, appended(old(self).pending(), before) + extra) =~= scheduled_at(
                        now@,
                        appended(old(self).pending(), before),
                    ) + scheduled_at(now@, extra));
                    assert(self.callback_schedules() =~= old(self).callback_schedules() + scheduled_at(
                        now@,
                        appended(old(self).pending(), self.pending()),
                    ));
                }
            }
            proof {
                assert(self.names() =~= names);
                assert(runs_for(old(self).names(), trigger@, now@, (j + 1) as nat) == if names[j as int]
                    == trigger@ {
                    runs_for(old(self).names(), trigger@, now@, j as nat).push((j as nat, now@))
                } else {
                    runs_for(old(self).names(), trigger@, now@, j as nat)
                });
            }
            j += 1;
        }
    }
}

/// Advancing the clock past a queued firing fires it: once the queue holds
/// only firings due after `limit` (as [`CallbackRegistry::advance_clock_by`]
/// and [`CallbackRegistry::poll`] leave it when they settle), a firing that
/// was queued before and is due by `limit` is among those fired since, as
/// many times as it was queued.
pub proof fn law_advancing_past_a_queued_firing_fires_it(
    before: Seq<Firing>,
    after: Seq<Firing>,
    fired: Seq<(int, Seq<char>)>,
    limit: int,
    firing: Firing,
)
    requires
        accounted_for(before, after, fired),
        all_due_after(after, limit),
        before.contains(firing),
        firing.0 <= limit,
    ensures
        fired.map_values(|entry: (int, Seq<char>)| as_firing(entry)).contains(firing),
        before.to_multiset().count(firing) <= fired.map_values(
            |entry: (int, Seq<char>)| as_firing(entry),
        ).to_multiset().count(firing),
{
    broadcast use vstd::multiset::group_multiset_axioms;

    let logged = fired.map_values(|entry: (int, Seq<char>)| as_firing(entry));
    vstd::seq_lib::to_multiset_contains(after, firing);
    vstd::seq_lib::to_multiset_contains(before, firing);
    vstd::seq_lib::to_multiset_contains(logged, firing);
    if after.contains(firing) {
        let i = choose|i: int| 0 <= i < after.len() && after[i] == firing;
        assert(after[i].0 > limit);
    }
}

} // verus!
