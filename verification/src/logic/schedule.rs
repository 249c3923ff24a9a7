//! The order in which tasks are listed: by due date, and by title among
//! tasks that are due at the same instant.

use vstd::prelude::*;
use vstd::utf8::encode_utf8;
use crate::model::simple_task::SimpleTaskModel;

verus! {

/// The instant that a due date names: the whole seconds since the start of
/// 1970 in UTC and the nanoseconds after them, or `None` where the text is
/// not a date with a time and an offset.
pub uninterp spec fn instant_of(text: Seq<char>) -> Option<(i64, u32)>;

/// Reads a due date with `chrono`'s `FromStr` for `DateTime<Utc>`, which
/// accepts a relaxed RFC 3339 form. The instant is handed back as
/// `timestamp` and `timestamp_subsec_nanos` give it.
#[verifier::external_body]
pub(crate) fn parse_instant(text: &str) -> (instant: Option<(i64, u32)>)
    ensures
        instant == instant_of(text@),
{
    match text.parse::<chrono::DateTime<chrono::Utc>>() {
        Ok(at) => Some((at.timestamp(), at.timestamp_subsec_nanos())),
        Err(_) => None,
    }
}

/// Whether the bytes `a` come before the bytes `b`: at the first place
/// where they differ `a` has the smaller byte, or `a` ends there and `b`
/// goes on.
pub open spec fn bytes_before(a: Seq<u8>, b: Seq<u8>) -> bool
    decreases a.len(),
{
    if b.len() == 0 {
        false
    } else if a.len() == 0 {
        true
    } else if a[0] != b[0] {
        a[0] < b[0]
    } else {
        bytes_before(a.drop_first(), b.drop_first())
    }
}

/// Whether the text `a` comes before the text `b`: texts are ordered as
/// their UTF-8 encodings are.
pub open spec fn text_before(a: Seq<char>, b: Seq<char>) -> bool {
    bytes_before(encode_utf8(a), encode_utf8(b))
}

/// Whether the text `a` comes before the text `b`.
pub fn precedes(a: &str, b: &str) -> (before: bool)
    ensures
        before == text_before(a@, b@),
{
    let x: &[u8] = a.as_bytes();
    let y: &[u8] = b.as_bytes();
    let mut i: usize = 0;
    proof {
        assert(x@.skip(0) =~= x@);
        assert(y@.skip(0) =~= y@);
    }
    while i < x.len() && i < y.len()
        invariant
            x@ == encode_utf8(a@),
            y@ == encode_utf8(b@),
            i <= x@.len(),
            i <= y@.len(),
            bytes_before(x@, y@) == bytes_before(x@.skip(i as int), y@.skip(i as int)),
        decreases x@.len() - i,
    {
        if x[i] != y[i] {
            proof {
                assert(x@.skip(i as int)[0] == x@[i as int]);
                assert(y@.skip(i as int)[0] == y@[i as int]);
            }
            return x[i] < y[i];
        }
        proof {
            assert(x@.skip(i as int).drop_first() =~= x@.skip(i + 1));
            assert(y@.skip(i as int).drop_first() =~= y@.skip(i + 1));
        }
        i = i + 1;
    }
    i < y.len()
}

/// Whether the instant `a` is earlier than the instant `b`.
pub open spec fn instant_before(a: (i64, u32), b: (i64, u32)) -> bool {
    a.0 < b.0 || (a.0 == b.0 && a.1 < b.1)
}

/// Whether, of tasks that are due at the given instants, the one at place
/// `a` is listed before the one at place `b` whatever else is in the list:
/// it is due earlier, or at the same instant with a title that comes first.
pub open spec fn listed_before(
    tasks: Seq<SimpleTaskModel>,
    instants: Seq<(i64, u32)>,
    a: int,
    b: int,
) -> bool {
    instant_before(instants[a], instants[b]) || (instants[a] == instants[b] && text_before(
        tasks[a].title@,
        tasks[b].title@,
    ))
}

/// Where the task at place `task` goes into the ordered list `placed` of
/// places: behind every task that it is not listed before, so that among
/// tasks of equal rank the earlier arrival stays first.
pub open spec fn place_of(
    tasks: Seq<SimpleTaskModel>,
    instants: Seq<(i64, u32)>,
    placed: Seq<int>,
    task: int,
) -> int
    decreases placed.len(),
{
    if placed.len() == 0 {
        0
    } else if listed_before(tasks, instants, task, placed.last()) {
        place_of(tasks, instants, placed.drop_last(), task)
    } else {
        placed.len() as int
    }
}

/// The places of the first `count` tasks in the order in which they are
/// listed, the tasks being due at the given instants.
pub open spec fn order(tasks: Seq<SimpleTaskModel>, instants: Seq<(i64, u32)>, count: int) -> Seq<
    int,
>
    decreases count,
{
    if count <= 0 {
        Seq::empty()
    } else {
        let placed = order(tasks, instants, count - 1);
        placed.insert(place_of(tasks, instants, placed, count - 1), count - 1)
    }
}

/// The tasks that stand at the given places, place by place.
pub open spec fn picked(tasks: Seq<SimpleTaskModel>, places: Seq<int>) -> Seq<SimpleTaskModel> {
    places.map_values(|place: int| tasks[place])
}

/// The tasks in the order in which they are listed, the tasks being due at
/// the given instants.
pub open spec fn arranged_by(tasks: Seq<SimpleTaskModel>, instants: Seq<(i64, u32)>) -> Seq<
    SimpleTaskModel,
> {
    picked(tasks, order(tasks, instants, tasks.len() as int))
}

/// The instants that the due dates of the tasks name, task by task.
pub open spec fn instants_of(tasks: Seq<SimpleTaskModel>) -> Seq<(i64, u32)> {
    Seq::new(tasks.len(), |i: int| instant_of(tasks[i].due_date@)->0)
}

/// The tasks in the order in which they are listed.
pub open spec fn arranged(tasks: Seq<SimpleTaskModel>) -> Seq<SimpleTaskModel> {
    arranged_by(tasks, instants_of(tasks))
}

/// A place is always within the list, or right behind it.
pub proof fn lemma_place_is_within(
    tasks: Seq<SimpleTaskModel>,
    instants: Seq<(i64, u32)>,
    placed: Seq<int>,
    task: int,
)
    ensures
        0 <= place_of(tasks, instants, placed, task) <= placed.len(),
    decreases placed.len(),
{
    if placed.len() > 0 && listed_before(tasks, instants, task, placed.last()) {
        lemma_place_is_within(tasks, instants, placed.drop_last(), task);
    }
}

/// The order of the first `count` tasks names each of their places once.
pub proof fn lemma_order_names_each_place_once(
    tasks: Seq<SimpleTaskModel>,
    instants: Seq<(i64, u32)>,
    count: int,
)
    requires
        0 <= count,
    ensures
        order(tasks, instants, count).len() == count,
        forall|k: int| 0 <= k < count ==> 0 <= #[trigger] order(tasks, instants, count)[k] < count,
        forall|j: int, k: int|
            0 <= j < k < count ==> order(tasks, instants, count)[j] != order(
                tasks,
                instants,
                count,
            )[k],
    decreases count,
{
    if count > 0 {
        let placed = order(tasks, instants, count - 1);
        lemma_order_names_each_place_once(tasks, instants, count - 1);
        lemma_place_is_within(tasks, instants, placed, count - 1);
        let at = place_of(tasks, instants, placed, count - 1);
        let grown = placed.insert(at, count - 1);
        assert forall|k: int| 0 <= k < count implies 0 <= #[trigger] grown[k] < count by {
            if k < at {
                assert(grown[k] == placed[k]);
            } else if k > at {
                assert(grown[k] == placed[k - 1]);
            }
        }
        assert forall|j: int, k: int| 0 <= j < k < count implies grown[j] != grown[k] by {
            let before_j = if j < at { j } else { j - 1 };
            let before_k = if k < at { k } else { k - 1 };
            if j != at {
                assert(grown[j] == placed[before_j]);
            }
            if k != at {
                assert(grown[k] == placed[before_k]);
            }
        }
    }
}

/// Arranging keeps every task: the arranged list has the tasks of the
/// given one, each as often.
pub proof fn lemma_arranged_keeps_the_tasks(tasks: Seq<SimpleTaskModel>, instants: Seq<(i64, u32)>)
    ensures
        arranged_by(tasks, instants).len() == tasks.len(),
        arranged_by(tasks, instants).to_multiset() == tasks.to_multiset(),
{
    lemma_picked_keeps_the_tasks(tasks, instants, tasks.len() as int);
    assert(tasks.take(tasks.len() as int) =~= tasks);
}

/// The first `count` tasks, picked in their order, are those tasks, each as
/// often.
proof fn lemma_picked_keeps_the_tasks(
    tasks: Seq<SimpleTaskModel>,
    instants: Seq<(i64, u32)>,
    count: int,
)
    requires
        0 <= count <= tasks.len(),
    ensures
        picked(tasks, order(tasks, instants, count)).len() == count,
        picked(tasks, order(tasks, instants, count)).to_multiset() == tasks.take(
            count,
        ).to_multiset(),
    decreases count,
{
    if count > 0 {
        let rest = tasks.take(count - 1);
        let last = tasks[count - 1];
        let places = order(tasks, instants, count - 1);
        let placed = picked(tasks, places);
        lemma_picked_keeps_the_tasks(tasks, instants, count - 1);
        lemma_place_is_within(tasks, instants, places, count - 1);
        let at = place_of(tasks, instants, places, count - 1);
        let grown = placed.insert(at, last);
        assert(picked(tasks, places.insert(at, count - 1)) =~= grown);
        assert(grown.remove(at) =~= placed);
        assert(grown[at] == last);
        vstd::seq_lib::to_multiset_remove(grown, at);
        grown.to_multiset_ensures();
        assert(grown.contains(last));
        assert(grown.to_multiset() =~= placed.to_multiset().insert(last));
        vstd::seq_lib::to_multiset_build(rest, last);
        assert(tasks.take(count) =~= rest.push(last));
    } else {
        assert(picked(tasks, order(tasks, instants, count)) =~= Seq::<SimpleTaskModel>::empty());
        assert(tasks.take(count) =~= Seq::<SimpleTaskModel>::empty());
    }
}

/// Of two byte texts at most one comes before the other.
pub proof fn lemma_bytes_before_is_one_way(a: Seq<u8>, b: Seq<u8>)
    ensures
        !(bytes_before(a, b) && bytes_before(b, a)),
    decreases a.len(),
{
    if a.len() > 0 && b.len() > 0 && a[0] == b[0] {
        lemma_bytes_before_is_one_way(a.drop_first(), b.drop_first());
    }
}

/// Two byte texts are equal, or one of them comes before the other.
pub proof fn lemma_bytes_before_is_total(a: Seq<u8>, b: Seq<u8>)
    ensures
        bytes_before(a, b) || a == b || bytes_before(b, a),
    decreases a.len(),
{
    if a.len() > 0 && b.len() > 0 && a[0] == b[0] {
        lemma_bytes_before_is_total(a.drop_first(), b.drop_first());
        if a.drop_first() == b.drop_first() {
            assert(a =~= seq![a[0]] + a.drop_first());
            assert(b =~= seq![b[0]] + b.drop_first());
        }
    } else if a.len() == 0 && b.len() == 0 {
        assert(a =~= b);
    }
}

/// What comes before a byte text comes before all that this one comes
/// before.
pub proof fn lemma_bytes_before_is_transitive(a: Seq<u8>, b: Seq<u8>, c: Seq<u8>)
    requires
        bytes_before(a, b),
        bytes_before(b, c),
    ensures
        bytes_before(a, c),
    decreases a.len(),
{
    if a.len() > 0 && b.len() > 0 && c.len() > 0 && a[0] == b[0] && b[0] == c[0] {
        lemma_bytes_before_is_transitive(a.drop_first(), b.drop_first(), c.drop_first());
    }
}

/// Of two tasks at most one is listed before the other.
pub proof fn lemma_listed_before_is_one_way(
    tasks: Seq<SimpleTaskModel>,
    instants: Seq<(i64, u32)>,
    a: int,
    b: int,
)
    ensures
        !(listed_before(tasks, instants, a, b) && listed_before(tasks, instants, b, a)),
{
    lemma_bytes_before_is_one_way(encode_utf8(tasks[a].title@), encode_utf8(tasks[b].title@));
}

/// A task that is listed before another is listed before any third task,
/// or that third task is listed before the other.
pub proof fn lemma_listed_before_splits(
    tasks: Seq<SimpleTaskModel>,
    instants: Seq<(i64, u32)>,
    a: int,
    b: int,
    c: int,
)
    requires
        listed_before(tasks, instants, a, c),
    ensures
        listed_before(tasks, instants, a, b) || listed_before(tasks, instants, b, c),
{
    let (x, y, z) = (
        encode_utf8(tasks[a].title@),
        encode_utf8(tasks[b].title@),
        encode_utf8(tasks[c].title@),
    );
    lemma_bytes_before_is_total(x, y);
    if bytes_before(y, x) && bytes_before(x, z) {
        lemma_bytes_before_is_transitive(y, x, z);
    }
}

/// Whether the places stand in the order of their tasks: no task is listed
/// before one that stands ahead of it.
pub open spec fn in_order(tasks: Seq<SimpleTaskModel>, instants: Seq<(i64, u32)>, places: Seq<int>)
    -> bool {
    forall|i: int, j: int|
        0 <= i < j < places.len() ==> !listed_before(tasks, instants, places[j], places[i])
}

/// Where a task goes, every task behind it is one that it is listed before,
/// and the task ahead of it is not.
pub proof fn lemma_place_divides(
    tasks: Seq<SimpleTaskModel>,
    instants: Seq<(i64, u32)>,
    placed: Seq<int>,
    task: int,
)
    ensures
        forall|k: int|
            place_of(tasks, instants, placed, task) <= k < placed.len() ==> listed_before(
                tasks,
                instants,
                task,
                placed[k],
            ),
        place_of(tasks, instants, placed, task) > 0 ==> !listed_before(
            tasks,
            instants,
            task,
            placed[place_of(tasks, instants, placed, task) - 1],
        ),
    decreases placed.len(),
{
    lemma_place_is_within(tasks, instants, placed, task);
    if placed.len() > 0 && listed_before(tasks, instants, task, placed.last()) {
        let ahead = placed.drop_last();
        lemma_place_divides(tasks, instants, ahead, task);
        lemma_place_is_within(tasks, instants, ahead, task);
        let at = place_of(tasks, instants, placed, task);
        assert(at == place_of(tasks, instants, ahead, task));
        assert forall|k: int| at <= k < placed.len() implies listed_before(
            tasks,
            instants,
            task,
            placed[k],
        ) by {
            if k < ahead.len() {
                assert(placed[k] == ahead[k]);
            }
        }
        if at > 0 {
            assert(placed[at - 1] == ahead[at - 1]);
        }
    }
}

/// The order of the tasks is in order: the arranged tasks stand by due
/// date, and by title among tasks due at the same instant.
pub proof fn lemma_order_is_in_order(
    tasks: Seq<SimpleTaskModel>,
    instants: Seq<(i64, u32)>,
    count: int,
)
    ensures
        in_order(tasks, instants, order(tasks, instants, count)),
    decreases count,
{
    if count > 0 {
        let task = count - 1;
        let placed = order(tasks, instants, count - 1);
        let at = place_of(tasks, instants, placed, task);
        let grown = placed.insert(at, task);
        lemma_order_is_in_order(tasks, instants, count - 1);
        lemma_place_is_within(tasks, instants, placed, task);
        lemma_place_divides(tasks, instants, placed, task);
        assert forall|i: int, j: int| 0 <= i < j < grown.len() implies !listed_before(
            tasks,
            instants,
            grown[j],
            grown[i],
        ) by {
            if j == at {
                // the task itself against one ahead of it
                assert(grown[i] == placed[i]);
                if listed_before(tasks, instants, task, placed[i]) {
                    lemma_listed_before_splits(tasks, instants, task, placed[at - 1], placed[i]);
                }
            } else if i == at {
                // one behind the task against the task itself
                assert(grown[j] == placed[j - 1]);
                lemma_listed_before_is_one_way(tasks, instants, task, placed[j - 1]);
            } else {
                let before_i = if i < at { i } else { i - 1 };
                let before_j = if j < at { j } else { j - 1 };
                assert(grown[i] == placed[before_i]);
                assert(grown[j] == placed[before_j]);
            }
        }
    }
}

} // verus!
