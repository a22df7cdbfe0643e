//! Comparison of two snapshots: the records that exactly one of them holds.
//!
//! A record counts as held where some record of the snapshot has the same
//! view, so two records are the same only if every field agrees, nested
//! events and sources included. A person whose record changed between the
//! snapshots therefore shows twice: once as it was and once as it is.

use crate::models::{person_views, EventView, Person, PersonView};
use vstd::prelude::*;

verus! {

/// The records that exactly one of the two snapshots holds, as a set.
pub open spec fn diff_set(before: Seq<PersonView>, after: Seq<PersonView>) -> Set<PersonView> {
    Set::new(|p: PersonView| before.contains(p) != after.contains(p))
}

/// The records of `from` that `other` does not hold, each once, in the
/// order in which `from` first shows them.
pub open spec fn exclusive(from: Seq<PersonView>, other: Seq<PersonView>) -> Seq<PersonView>
    decreases from.len(),
{
    if from.len() == 0 {
        Seq::empty()
    } else {
        let earlier = exclusive(from.drop_last(), other);
        let p = from.last();
        if other.contains(p) || from.drop_last().contains(p) {
            earlier
        } else {
            earlier.push(p)
        }
    }
}

/// The records that exactly one of the two snapshots holds: first those that
/// only `before` holds, then those that only `after` holds.
pub open spec fn diff_of(before: Seq<PersonView>, after: Seq<PersonView>) -> Seq<PersonView> {
    exclusive(before, after) + exclusive(after, before)
}

/// The views of borrowed records, in order.
pub open spec fn borrowed_views(people: Seq<&Person>) -> Seq<PersonView> {
    people.map_values(|p: &Person| p@)
}

/// A person with one more event at the end of the list of events.
pub open spec fn with_event(p: PersonView, e: EventView) -> PersonView {
    PersonView {
        person_id: p.person_id,
        firstname: p.firstname,
        lastname: p.lastname,
        events: p.events.push(e),
        sources: p.sources,
    }
}

/// `exclusive(from, other)` holds exactly the records that `from` holds and
/// `other` does not, and none of them twice.
pub proof fn lemma_exclusive(from: Seq<PersonView>, other: Seq<PersonView>)
    ensures
        forall|p: PersonView| #[trigger]
            exclusive(from, other).contains(p) <==> from.contains(p) && !other.contains(p),
        exclusive(from, other).no_duplicates(),
    decreases from.len(),
{
    let result = exclusive(from, other);
    if from.len() == 0 {
        assert forall|p: PersonView| #[trigger]
            result.contains(p) <==> from.contains(p) && !other.contains(p) by {}
    } else {
        let front = from.drop_last();
        let last = from.last();
        let earlier = exclusive(front, other);
        lemma_exclusive(front, other);
        assert(from =~= front.push(last));
        assert forall|p: PersonView| #[trigger]
            result.contains(p) <==> from.contains(p) && !other.contains(p) by {
            if from.contains(p) {
                let j = choose|j: int| 0 <= j < from.len() && from[j] == p;
                if j < front.len() {
                    assert(front[j] == p);
                }
            }
            if front.contains(p) {
                let j = choose|j: int| 0 <= j < front.len() && front[j] == p;
                assert(from[j] == p);
            }
            assert(from[from.len() - 1] == last);
            if other.contains(last) || front.contains(last) {
            } else {
                assert(result == earlier.push(last));
                if earlier.push(last).contains(p) {
                    let j = choose|j: int|
                        0 <= j < earlier.push(last).len() && earlier.push(last)[j] == p;
                    if j < earlier.len() {
                        assert(earlier[j] == p);
                    }
                }
                if earlier.contains(p) {
                    let j = choose|j: int| 0 <= j < earlier.len() && earlier[j] == p;
                    assert(earlier.push(last)[j] == p);
                }
                assert(earlier.push(last)[earlier.len() as int] == last);
            }
        }
        if !(other.contains(last) || front.contains(last)) {
            assert(!earlier.contains(last));
        }
    }
}

/// As a set, `diff_of` is the symmetric difference, and it names no record
/// twice.
pub proof fn lemma_diff_of(before: Seq<PersonView>, after: Seq<PersonView>)
    ensures
        diff_of(before, after).to_set() == diff_set(before, after),
        diff_of(before, after).no_duplicates(),
{
    let left = exclusive(before, after);
    let right = exclusive(after, before);
    lemma_exclusive(before, after);
    lemma_exclusive(after, before);
    assert forall|p: PersonView| #[trigger]
        (left + right).contains(p) <==> before.contains(p) != after.contains(p) by {
        assert(left.contains(p) <==> before.contains(p) && !after.contains(p));
        assert(right.contains(p) <==> after.contains(p) && !before.contains(p));
        if (left + right).contains(p) {
            let j = choose|j: int| 0 <= j < (left + right).len() && (left + right)[j] == p;
            if j < left.len() {
                assert(left[j] == p);
            } else {
                assert(right[j - left.len()] == p);
            }
        }
        if left.contains(p) {
            let j = choose|j: int| 0 <= j < left.len() && left[j] == p;
            assert((left + right)[j] == p);
        }
        if right.contains(p) {
            let j = choose|j: int| 0 <= j < right.len() && right[j] == p;
            assert((left + right)[j + left.len()] == p);
        }
    }
    assert(diff_of(before, after).to_set() =~= diff_set(before, after));
    assert forall|i: int, j: int|
        0 <= i < (left + right).len() && 0 <= j < (left + right).len() && i != j implies (left
        + right)[i] != (left + right)[j] by {
        if i < left.len() && j >= left.len() {
            assert(left.contains(left[i]));
            assert(right.contains(right[j - left.len()]));
        }
        if j < left.len() && i >= left.len() {
            assert(left.contains(left[j]));
            assert(right.contains(right[i - left.len()]));
        }
    }
}

/// Two snapshots that are the same differ in nothing.
pub proof fn law_same_snapshots_do_not_differ(snapshot: Seq<PersonView>)
    ensures
        diff_of(snapshot, snapshot) == Seq::<PersonView>::empty(),
        diff_set(snapshot, snapshot) == Set::<PersonView>::empty(),
{
    lemma_exclusive(snapshot, snapshot);
    let left = exclusive(snapshot, snapshot);
    if left.len() > 0 {
        assert(left.contains(left[0]));
    }
    assert(diff_of(snapshot, snapshot) =~= Seq::<PersonView>::empty());
    assert(diff_set(snapshot, snapshot) =~= Set::<PersonView>::empty());
}

/// The order of the snapshots does not change which records differ.
pub proof fn law_diff_is_symmetric(a: Seq<PersonView>, b: Seq<PersonView>)
    ensures
        diff_set(a, b) == diff_set(b, a),
        diff_of(a, b).to_set() == diff_of(b, a).to_set(),
        diff_of(a, b).len() == diff_of(b, a).len(),
{
    lemma_diff_of(a, b);
    lemma_diff_of(b, a);
    assert(diff_set(a, b) =~= diff_set(b, a));
}

/// Where one person of a snapshot gains an event, only the two versions of
/// that person can differ: the new version does unless the earlier snapshot
/// held it already, and the old version does unless the later snapshot still
/// holds a copy of it.
pub proof fn law_changed_person_differs(before: Seq<PersonView>, i: int, event: EventView)
    requires
        0 <= i < before.len(),
    ensures
        ({
            let old_version = before[i];
            let new_version = with_event(before[i], event);
            let after = before.update(i, new_version);
            &&& old_version != new_version
            &&& diff_set(before, after).subset_of(set![old_version, new_version])
            &&& diff_set(before, after).contains(new_version) <==> !before.contains(new_version)
            &&& diff_set(before, after).contains(old_version) <==> !after.contains(old_version)
        }),
{
    let old_version = before[i];
    let new_version = with_event(before[i], event);
    let after = before.update(i, new_version);
    assert(new_version.events.len() == old_version.events.len() + 1);
    assert(before.contains(old_version));
    assert(after[i] == new_version);
    assert(after.contains(new_version));
    assert forall|p: PersonView| diff_set(before, after).contains(p) implies p == old_version || p
        == new_version by {
        if before.contains(p) && !after.contains(p) {
            let j = choose|j: int| 0 <= j < before.len() && before[j] == p;
            if j != i {
                assert(after[j] == p);
            }
        }
        if after.contains(p) && !before.contains(p) {
            let j = choose|j: int| 0 <= j < after.len() && after[j] == p;
            if j != i {
                assert(before[j] == p);
            }
        }
    }
}

/// Where one person of a snapshot gains an event, and no other record of the
/// snapshot equals the old or the new version of that person, the difference
/// holds exactly two records: the old version and the new one.
pub proof fn law_changed_person_shows_twice(before: Seq<PersonView>, i: int, event: EventView)
    requires
        0 <= i < before.len(),
        forall|j: int|
            0 <= j < before.len() && j != i ==> before[j] != before[i] && before[j] != with_event(
                before[i],
                event,
            ),
    ensures
        ({
            let old_version = before[i];
            let new_version = with_event(before[i], event);
            let after = before.update(i, new_version);
            &&& diff_set(before, after) == set![old_version, new_version]
            &&& diff_of(before, after) == seq![old_version, new_version]
        }),
{
    let old_version = before[i];
    let new_version = with_event(before[i], event);
    let after = before.update(i, new_version);
    law_changed_person_differs(before, i, event);
    lemma_diff_of(before, after);
    lemma_exclusive(before, after);
    lemma_exclusive(after, before);
    if before.contains(new_version) {
        let j = choose|j: int| 0 <= j < before.len() && before[j] == new_version;
        assert(j != i);
    }
    if after.contains(old_version) {
        let j = choose|j: int| 0 <= j < after.len() && after[j] == old_version;
        assert(j != i);
        assert(before[j] == old_version);
    }
    assert(diff_set(before, after) =~= set![old_version, new_version]);
    let left = exclusive(before, after);
    let right = exclusive(after, before);
    assert forall|k: int| 0 <= k < left.len() implies left[k] == old_version by {
        assert(left.contains(left[k]));
        assert(diff_set(before, after).contains(left[k]));
    }
    assert forall|k: int| 0 <= k < right.len() implies right[k] == new_version by {
        assert(right.contains(right[k]));
        assert(diff_set(before, after).contains(right[k]));
    }
    assert(left.contains(old_version));
    assert(right.contains(new_version));
    if left.len() > 1 {
        assert(left[0] == left[1]);
    }
    if right.len() > 1 {
        assert(right[0] == right[1]);
    }
    assert(left.len() == 1);
    assert(right.len() == 1);
    assert(diff_of(before, after) =~= seq![old_version, new_version]);
}

/// Whether one of the first `end` records of `people` equals `person`.
fn holds_within(people: &Vec<Person>, end: usize, person: &Person) -> (held: bool)
    requires
        end <= people.len(),
    ensures
        held == person_views(people@).take(end as int).contains(person@),
{
    let ghost views = person_views(people@).take(end as int);
    let mut i: usize = 0;
    while i < end
        invariant
            i <= end <= people.len(),
            views == person_views(people@).take(end as int),
            forall|j: int| 0 <= j < i ==> views[j] != person@,
        decreases end - i,
    {
        if people[i] == *person {
            assert(views[i as int] == person@);
            return true;
        }
        i += 1;
    }
    false
}

/// The records of `from` that `other` does not hold, each once.
fn exclusive_records<'a>(from: &'a Vec<Person>, other: &Vec<Person>) -> (only: Vec<&'a Person>)
    ensures
        borrowed_views(only@) == exclusive(person_views(from@), person_views(other@)),
{
    let mut only: Vec<&'a Person> = Vec::new();
    let mut i: usize = 0;
    assert(person_views(from@).take(0) =~= Seq::empty());
    assert(borrowed_views(only@) =~= Seq::empty());
    while i < from.len()
        invariant
            i <= from.len(),
            borrowed_views(only@) == exclusive(
                person_views(from@).take(i as int),
                person_views(other@),
            ),
        decreases from.len() - i,
    {
        let ghost earlier = borrowed_views(only@);
        let person = &from[i];
        assert(person_views(from@).take(i + 1).drop_last() =~= person_views(from@).take(i as int));
        assert(person_views(other@).take(other.len() as int) =~= person_views(other@));
        if !holds_within(other, other.len(), person) && !holds_within(from, i, person) {
            only.push(person);
            assert(borrowed_views(only@) =~= earlier.push(person@));
        }
        i += 1;
    }
    assert(person_views(from@).take(from.len() as int) =~= person_views(from@));
    only
}

/// Compares two snapshots. The result holds every record that exactly one
/// snapshot holds and no other, each once: first those that only `before`
/// holds, then those that only `after` holds, each group in the order of its
/// snapshot.
pub fn diff<'a>(before: &'a Vec<Person>, after: &'a Vec<Person>) -> (changed: Vec<&'a Person>)
    ensures
        borrowed_views(changed@) == diff_of(person_views(before@), person_views(after@)),
        borrowed_views(changed@).to_set() == diff_set(
            person_views(before@),
            person_views(after@),
        ),
        borrowed_views(changed@).no_duplicates(),
{
    let mut changed = exclusive_records(before, after);
    let mut appeared = exclusive_records(after, before);
    let ghost left = changed@;
    let ghost right = appeared@;
    changed.append(&mut appeared);
    proof {
        assert(borrowed_views(left + right) =~= borrowed_views(left) + borrowed_views(right));
        lemma_diff_of(person_views(before@), person_views(after@));
    }
    changed
}

} // verus!
