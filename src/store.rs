use vstd::prelude::*;
use vstd::string::StringExecFns;
use crate::dispatch::{is_plan, JobResult, UnitError, WorkUnit};
use crate::job::Job;
use crate::session::{connect_error_text, exec_error_text};

verus! {

/// What a slot of the store holds: nothing yet, or the outcome of its unit.
pub type Slot = Option<Result<String, UnitError>>;

/// The text that reports a unit's failure.
pub open spec fn unit_error_text(e: UnitError) -> Seq<char> {
    match e {
        UnitError::Connect(c) => connect_error_text(c),
        UnitError::Exec(x) => exec_error_text(x),
    }
}

/// The text shown for a slot: the output, the failure, or a note that the
/// unit never reported.
pub open spec fn slot_text(s: Slot) -> Seq<char> {
    match s {
        Some(Ok(out)) => out@,
        Some(Err(e)) => unit_error_text(e),
        None => "no result"@,
    }
}

/// A store with `n` slots, none filled.
pub open spec fn empty_slots(n: nat) -> Seq<Slot> {
    Seq::new(n, |i: int| None::<Result<String, UnitError>>)
}

/// Whether a result numbered `index` is taken: its slot exists and is empty.
pub open spec fn accepts(slots: Seq<Slot>, index: int) -> bool {
    0 <= index < slots.len() && slots[index] is None
}

/// The slots after one result is offered: it fills its slot if the slot is
/// taken, and changes nothing otherwise.
pub open spec fn record_one(slots: Seq<Slot>, r: JobResult) -> Seq<Slot> {
    if accepts(slots, r.index as int) {
        slots.update(r.index as int, Some(r.outcome))
    } else {
        slots
    }
}

/// The slots after the results `rs` are offered, first to last.
pub open spec fn record_all(slots: Seq<Slot>, rs: Seq<JobResult>) -> Seq<Slot>
    decreases rs.len(),
{
    if rs.len() == 0 {
        slots
    } else {
        record_one(record_all(slots, rs.drop_last()), rs.last())
    }
}

/// How many slots are filled.
pub open spec fn filled_count(slots: Seq<Slot>) -> nat
    decreases slots.len(),
{
    if slots.len() == 0 {
        0
    } else {
        filled_count(slots.drop_last()) + if slots.last() is Some {
            1nat
        } else {
            0nat
        }
    }
}

proof fn lemma_filled_count_bound(slots: Seq<Slot>)
    ensures
        filled_count(slots) <= slots.len(),
        filled_count(slots) == slots.len() ==> forall|k: int|
            0 <= k < slots.len() ==> (#[trigger] slots[k]) is Some,
    decreases slots.len(),
{
    if slots.len() > 0 {
        lemma_filled_count_bound(slots.drop_last());
        assert forall|k: int| 0 <= k < slots.len() - 1 implies #[trigger] slots[k]
            == slots.drop_last()[k] by {}
    }
}

proof fn lemma_filled_count_fill(slots: Seq<Slot>, index: int, v: Result<String, UnitError>)
    requires
        0 <= index < slots.len(),
        slots[index] is None,
    ensures
        filled_count(slots.update(index, Some(v))) == filled_count(slots) + 1,
    decreases slots.len(),
{
    let t = slots.update(index, Some(v));
    if index == slots.len() - 1 {
        assert(t.drop_last() =~= slots.drop_last());
    } else {
        assert(t.drop_last() =~= slots.drop_last().update(index, Some(v)));
        lemma_filled_count_fill(slots.drop_last(), index, v);
    }
}

proof fn lemma_filled_count_empty(n: nat)
    ensures
        filled_count(empty_slots(n)) == 0,
    decreases n,
{
    if n > 0 {
        assert(empty_slots(n).drop_last() =~= empty_slots((n - 1) as nat));
        lemma_filled_count_empty((n - 1) as nat);
    }
}

proof fn lemma_prefix_fill(n: nat, order: Seq<int>, results: Seq<JobResult>, p: int)
    requires
        order.len() == n,
        results.len() == n,
        forall|k: int| 0 <= k < n ==> 0 <= #[trigger] order[k] < n,
        forall|k: int, l: int|
            0 <= k < n && 0 <= l < n && k != l ==> #[trigger] order[k] != #[trigger] order[l],
        forall|k: int| 0 <= k < n ==> (#[trigger] results[k]).index == order[k],
        0 <= p <= n,
    ensures
        record_all(empty_slots(n), results.take(p)).len() == n,
        filled_count(record_all(empty_slots(n), results.take(p))) == p,
        forall|k: int|
            0 <= k < p ==> record_all(empty_slots(n), results.take(p))[order[k]] == Some(
                #[trigger] results[k].outcome,
            ),
        forall|j: int|
            0 <= j < n && record_all(empty_slots(n), results.take(p))[j] is Some ==> exists|k: int|
                0 <= k < p && #[trigger] order[k] == j,
    decreases p,
{
    let e = empty_slots(n);
    if p == 0 {
        assert(results.take(0) =~= Seq::<JobResult>::empty());
        lemma_filled_count_empty(n);
    } else {
        lemma_prefix_fill(n, order, results, p - 1);
        let prev = record_all(e, results.take(p - 1));
        assert(results.take(p).drop_last() =~= results.take(p - 1));
        let r = results[p - 1];
        let j = order[p - 1];
        assert(r.index == j);
        if prev[j] is Some {
            let k = choose|k: int| 0 <= k < p - 1 && #[trigger] order[k] == j;
            assert(order[k] != order[p - 1]);
        }
        assert(accepts(prev, j));
        lemma_filled_count_fill(prev, j, r.outcome);
        let s = record_all(e, results.take(p));
        assert(s == prev.update(j, Some(r.outcome)));
        assert forall|k: int| 0 <= k < p implies s[order[k]] == Some(
            #[trigger] results[k].outcome,
        ) by {
            if k < p - 1 {
                assert(order[k] != order[p - 1]);
            }
        }
        assert forall|jj: int| 0 <= jj < n && s[jj] is Some implies exists|k: int|
            0 <= k < p && #[trigger] order[k] == jj by {
            if jj != j {
                assert(prev[jj] is Some);
            } else {
                assert(order[p - 1] == jj);
            }
        }
    }
}

/// The results of all units of a plan, gathered in any order and whatever
/// each outcome is, failures included, fill the store completely: a unit
/// that failed costs no other unit its slot. Every unit's result is taken when it arrives, the store ends
/// with one filled slot per unit and no empty one, and each slot holds the
/// outcome of the unit that carries its number.
///
/// `units` is the plan that `plan_units` builds from `hosts` and `jobs`,
/// `order[k]` is the unit whose result arrives `k`-th, and `results[k]` is
/// that result, numbered as its unit (as `run_unit` numbers it). So a
/// dispatch of `hosts.len() * jobs.len()` units yields exactly that many
/// results, one for each number below it.
pub proof fn lemma_results_fill_store(
    hosts: Seq<String>,
    jobs: Seq<Job>,
    units: Seq<WorkUnit>,
    order: Seq<int>,
    results: Seq<JobResult>,
)
    requires
        is_plan(units, hosts, jobs),
        order.len() == units.len(),
        results.len() == units.len(),
        forall|k: int| 0 <= k < order.len() ==> 0 <= #[trigger] order[k] < units.len(),
        forall|k: int, l: int|
            0 <= k < order.len() && 0 <= l < order.len() && k != l ==> #[trigger] order[k]
                != #[trigger] order[l],
        forall|k: int|
            0 <= k < results.len() ==> (#[trigger] results[k]).index == units[order[k]].index,
    ensures
        forall|k: int|
            0 <= k < results.len() ==> accepts(
                record_all(empty_slots(units.len()), results.take(k)),
                #[trigger] results[k].index as int,
            ),
        record_all(empty_slots(units.len()), results).len() == units.len(),
        filled_count(record_all(empty_slots(units.len()), results)) == units.len(),
        units.len() == hosts.len() * jobs.len(),
        forall|i: int|
            0 <= i < units.len() ==> (#[trigger] record_all(
                empty_slots(units.len()),
                results,
            )[i]) is Some,
        forall|k: int|
            0 <= k < results.len() ==> record_all(empty_slots(units.len()), results)[order[k]]
                == Some(#[trigger] results[k].outcome),
{
    let n = units.len();
    let e = empty_slots(n);
    assert forall|k: int| 0 <= k < n implies (#[trigger] results[k]).index == order[k] by {
        assert(units[order[k]].index == order[k]);
    }
    lemma_prefix_fill(n, order, results, n as int);
    assert(results.take(n as int) =~= results);
    lemma_filled_count_bound(record_all(e, results));
    assert forall|k: int| 0 <= k < n implies accepts(
        record_all(e, results.take(k)),
        #[trigger] results[k].index as int,
    ) by {
        lemma_prefix_fill(n, order, results, k);
        let prev = record_all(e, results.take(k));
        if prev[order[k]] is Some {
            let l = choose|l: int| 0 <= l < k && #[trigger] order[l] == order[k];
            assert(order[l] != order[k]);
        }
    }
}

/// The results of one dispatch, one slot per unit, in unit order. A result is
/// taken only into its own empty slot, so no unit is counted twice.
pub struct ResultStore {
    slots: Vec<Slot>,
}

impl View for ResultStore {
    type V = Seq<Slot>;

    closed spec fn view(&self) -> Seq<Slot> {
        self.slots@
    }
}

impl ResultStore {
    /// A store for `units` results, none recorded yet.
    pub fn new(units: usize) -> (r: ResultStore)
        ensures
            r@ == empty_slots(units as nat),
    {
        let mut slots: Vec<Slot> = Vec::new();
        let mut i: usize = 0;
        while i < units
            invariant
                i <= units,
                slots@ == empty_slots(i as nat),
            decreases units - i,
        {
            slots.push(None);
            i = i + 1;
            assert(slots@ =~= empty_slots(i as nat));
        }
        ResultStore { slots }
    }

    /// How many results the store is for.
    pub fn capacity(&self) -> (r: usize)
        ensures
            r == self@.len(),
    {
        self.slots.len()
    }

    /// Offers one result. It is taken, and `true` returned, when its number is
    /// in range and its slot is still empty; otherwise nothing changes.
    pub fn record(&mut self, result: JobResult) -> (r: bool)
        ensures
            r == accepts(old(self)@, result.index as int),
            final(self)@ == record_one(old(self)@, result),
    {
        let i = result.index;
        if i < self.slots.len() {
            let free = match &self.slots[i] {
                None => true,
                Some(_) => false,
            };
            if free {
                self.slots.set(i, Some(result.outcome));
                return true;
            }
        }
        false
    }

    /// How many results have been taken.
    pub fn recorded_count(&self) -> (r: usize)
        ensures
            r == filled_count(self@),
    {
        let mut count: usize = 0;
        let mut i: usize = 0;
        while i < self.slots.len()
            invariant
                i <= self.slots.len(),
                count == filled_count(self.slots@.take(i as int)),
                count <= i,
            decreases self.slots.len() - i,
        {
            assert(self.slots@.take(i + 1).drop_last() =~= self.slots@.take(i as int));
            if self.slots[i].is_some() {
                count = count + 1;
            }
            i = i + 1;
        }
        assert(self.slots@.take(i as int) =~= self.slots@);
        count
    }

    /// Whether every unit has reported.
    pub fn is_complete(&self) -> (r: bool)
        ensures
            r == (forall|k: int| 0 <= k < self@.len() ==> (#[trigger] self@[k]) is Some),
    {
        let mut i: usize = 0;
        while i < self.slots.len()
            invariant
                i <= self.slots.len(),
                forall|k: int| 0 <= k < i ==> (#[trigger] self.slots@[k]) is Some,
            decreases self.slots.len() - i,
        {
            if self.slots[i].is_none() {
                return false;
            }
            i = i + 1;
        }
        true
    }

    /// One row per unit, in unit order: its number and the text of its slot.
    pub fn report_rows(&self) -> (r: Vec<(usize, String)>)
        ensures
            r.len() == self@.len(),
            forall|k: int|
                0 <= k < r.len() ==> (#[trigger] r@[k]).0 == k && r@[k].1@ == slot_text(self@[k]),
    {
        let mut rows: Vec<(usize, String)> = Vec::new();
        let mut i: usize = 0;
        while i < self.slots.len()
            invariant
                i <= self.slots.len(),
                rows.len() == i,
                forall|k: int|
                    0 <= k < i ==> (#[trigger] rows@[k]).0 == k && rows@[k].1@ == slot_text(
                        self.slots@[k],
                    ),
            decreases self.slots.len() - i,
        {
            let text = match &self.slots[i] {
                Some(Ok(out)) => out.clone(),
                Some(Err(e)) => e.message(),
                None => String::from_str("no result"),
            };
            rows.push((i, text));
            i = i + 1;
        }
        rows
    }
}

impl UnitError {
    /// A line of text that says what went wrong.
    pub fn message(&self) -> (r: String)
        ensures
            r@ == unit_error_text(*self),
    {
        match self {
            UnitError::Connect(c) => c.message(),
            UnitError::Exec(x) => x.message(),
        }
    }
}

} // verus!
