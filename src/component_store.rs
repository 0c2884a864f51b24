use vstd::prelude::*;

use crate::components::Component;

verus! {

/// `slot` is where a scan from `start` finds room in `s`: the lowest index
/// at or after `start` whose record is not live, or the end of `s` when all
/// of them are live.
pub open spec fn first_free<T: Component>(s: Seq<T>, start: int, slot: int) -> bool {
    &&& start <= slot <= s.len()
    &&& slot < s.len() ==> !s[slot].live()
    &&& forall|j: int| start <= j < slot ==> #[trigger] s[j].live()
}

/// `after` is `before` with a fresh record at `slot`, which either
/// overwrites an existing slot or is appended at the end.
pub open spec fn claimed<T: Component>(before: Seq<T>, after: Seq<T>, slot: int) -> bool {
    &&& 0 <= slot <= before.len()
    &&& after.len() == if slot < before.len() { before.len() } else { before.len() + 1 }
    &&& after[slot].is_fresh(slot as u32)
    &&& forall|j: int| 0 <= j < before.len() && j != slot ==> after[j] == before[j]
}

/// The slots at or after `start` whose records are not live.
pub open spec fn free_slots<T: Component>(s: Seq<T>, start: int) -> Set<int> {
    Set::new(|i: int| start <= i < s.len() && !s[i].live())
}

/// Slots are reused before the arena grows, lowest first: a claim takes
/// the lowest free slot, keeps the arena's length and leaves exactly the
/// other free slots free, all of them above the one taken; the arena
/// grows only when no slot is free. So claims that follow the release of
/// some slots take those slots back in ascending order before any new
/// slot is added.
pub proof fn lemma_reuse_lowest_first<T: Component>(before: Seq<T>, after: Seq<T>, start: int, slot: int)
    requires
        0 <= start,
        first_free(before, start, slot),
        claimed(before, after, slot),
    ensures
        slot < before.len() <==> !free_slots(before, start).is_empty(),
        slot < before.len() ==> {
            &&& after.len() == before.len()
            &&& free_slots(after, start) == free_slots(before, start).remove(slot)
            &&& forall|j: int| #[trigger] free_slots(after, start).contains(j) ==> slot < j
        },
{
    T::lemma_fresh_is_live(after[slot], slot as u32);
    if slot < before.len() {
        assert(free_slots(before, start).contains(slot));
        assert(free_slots(after, start) =~= free_slots(before, start).remove(slot));
    } else {
        assert(free_slots(before, start) =~= Set::<int>::empty());
    }
}

/// The free slots of an arena are finitely many.
pub proof fn lemma_free_slots_finite<T: Component>(s: Seq<T>, start: int)
    requires
        0 <= start,
    ensures
        free_slots(s, start).finite(),
{
    if start <= s.len() {
        vstd::set_lib::lemma_int_range(start, s.len() as int);
        assert(free_slots(s, start).subset_of(vstd::set_lib::set_int_range(start, s.len() as int)));
        vstd::set_lib::lemma_set_subset_finite(vstd::set_lib::set_int_range(start, s.len() as int), free_slots(s, start));
    } else {
        assert(free_slots(s, start) =~= Set::<int>::empty());
    }
}

/// The first `k` claims of a run, while free slots remain: each took a
/// free slot of the starting arena, in ascending order, the arena kept its
/// length, and `k` fewer free slots remain, all above the last one taken.
proof fn lemma_claims_prefix<T: Component>(states: Seq<Seq<T>>, slots: Seq<int>, start: int, k: int)
    requires
        0 <= start,
        states.len() == slots.len() + 1,
        forall|i: int|
            0 <= i < slots.len() ==> first_free(states[i], start, #[trigger] slots[i]) && claimed(
                states[i],
                states[i + 1],
                slots[i],
            ),
        0 <= k <= slots.len(),
        free_slots(states[0], start).finite(),
        k <= free_slots(states[0], start).len(),
    ensures
        free_slots(states[k], start).finite(),
        free_slots(states[k], start).len() == free_slots(states[0], start).len() - k,
        free_slots(states[k], start).subset_of(free_slots(states[0], start)),
        states[k].len() == states[0].len(),
        forall|i: int| 0 <= i < k ==> free_slots(states[0], start).contains(#[trigger] slots[i]),
        forall|i: int, j: int| 0 <= i < j < k ==> slots[i] < slots[j],
        k > 0 ==> forall|x: int| #[trigger] free_slots(states[k], start).contains(x) ==> slots[k - 1] < x,
    decreases k,
{
    if k > 0 {
        lemma_claims_prefix(states, slots, start, k - 1);
        let before = states[k - 1];
        let slot = slots[k - 1];
        assert(first_free(before, start, slot) && claimed(before, states[k], slot));
        lemma_reuse_lowest_first(before, states[k], start, slot);
        assert(free_slots(before, start).len() > 0);
        assert(!free_slots(before, start).is_empty()) by {
            if free_slots(before, start).is_empty() {
                assert(free_slots(before, start) =~= Set::<int>::empty());
            }
        }
        assert(free_slots(before, start).contains(slot));
        assert(free_slots(states[k], start) == free_slots(before, start).remove(slot));
    }
}

/// Freed slots are reused before the arena grows, in ascending order:
/// over a run of claims on an arena with `n` free slots, the first `n`
/// claims take free slots of that arena, each above the one before (so
/// exactly those slots, in ascending order), and the arena keeps its
/// length; a claim after them appends a slot at the end.
pub proof fn lemma_claims_take_free_slots_in_order<T: Component>(states: Seq<Seq<T>>, slots: Seq<int>, start: int)
    requires
        0 <= start,
        states.len() == slots.len() + 1,
        forall|i: int|
            0 <= i < slots.len() ==> first_free(states[i], start, #[trigger] slots[i]) && claimed(
                states[i],
                states[i + 1],
                slots[i],
            ),
    ensures
        free_slots(states[0], start).finite(),
        ({
            let n = free_slots(states[0], start).len();
            &&& forall|i: int|
                0 <= i < slots.len() && i < n ==> free_slots(states[0], start).contains(#[trigger] slots[i])
                    && states[i + 1].len() == states[0].len()
            &&& forall|i: int, j: int| 0 <= i < j < slots.len() && j < n ==> slots[i] < slots[j]
            &&& slots.len() > n ==> slots[n as int] == states[0].len()
        }),
{
    lemma_free_slots_finite(states[0], start);
    let n = free_slots(states[0], start).len() as int;
    let m = if slots.len() < n { slots.len() as int } else { n };
    lemma_claims_prefix(states, slots, start, m);
    assert forall|i: int| 0 <= i < slots.len() && i < n implies free_slots(states[0], start).contains(
        #[trigger] slots[i],
    ) && states[i + 1].len() == states[0].len() by {
        lemma_claims_prefix(states, slots, start, i + 1);
    }
    if slots.len() > n {
        let last = states[n];
        assert(first_free(last, start, slots[n]) && claimed(last, states[n + 1], slots[n]));
        lemma_reuse_lowest_first(last, states[n + 1], start, slots[n]);
        assert(free_slots(last, start).is_empty()) by {
            vstd::set_lib::lemma_set_empty_equivalency_len(free_slots(last, start));
        }
    }
}

/// Returns the lowest slot at or after `start` whose record is not live, or
/// the length of `records` when there is none.
pub fn find_free<T: Component>(records: &Vec<T>, start: usize) -> (slot: usize)
    requires
        start <= records@.len(),
    ensures
        first_free(records@, start as int, slot as int),
{
    let mut i: usize = start;
    while i < records.len()
        invariant
            start <= i <= records@.len(),
            forall|j: int| start <= j < i ==> #[trigger] records@[j].live(),
        decreases records@.len() - i,
    {
        if !records[i].is_live() {
            return i;
        }
        i = i + 1;
    }
    i
}

/// Takes the lowest free slot at or after `start`, growing `records` by one
/// when every slot is live, and puts a fresh record there.
pub fn claim_slot<T: Component>(records: &mut Vec<T>, start: usize) -> (slot: u32)
    requires
        start <= old(records)@.len(),
        old(records)@.len() < u32::MAX,
    ensures
        first_free(old(records)@, start as int, slot as int),
        claimed(old(records)@, final(records)@, slot as int),
{
    let slot = find_free(records, start);
    let record = T::fresh(slot as u32);
    if slot < records.len() {
        records.set(slot, record);
    } else {
        records.push(record);
    }
    slot as u32
}

} // verus!
