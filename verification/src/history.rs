//! A store's posts as a sequence, oldest first, and what the queries of a
//! store mean on it.

use crate::interface::PostView;
use crate::timestamp::{rfc3339, Moment};
use vstd::prelude::*;

verus! {

/// Some post of `history` has the identifier `id`.
pub open spec fn has_id(history: Seq<PostView>, id: Seq<char>) -> bool {
    exists|i: int| 0 <= i < history.len() && (#[trigger] history[i]).id == id
}

/// The post at `i` has the identifier `id`, and none before it has.
pub open spec fn is_first_with_id(history: Seq<PostView>, id: Seq<char>, i: int) -> bool {
    &&& 0 <= i < history.len()
    &&& history[i].id == id
    &&& forall|j: int| 0 <= j < i ==> (#[trigger] history[j]).id != id
}

/// The oldest post of `history` with the identifier `id`, if any has it.
pub open spec fn lookup(history: Seq<PostView>, id: Seq<char>) -> Option<PostView> {
    if exists|i: int| is_first_with_id(history, id, i) {
        Some(history[choose|i: int| is_first_with_id(history, id, i)])
    } else {
        None
    }
}

/// How many items a request for `count` gets from a history of `len`.
pub open spec fn granted(count: nat, len: nat) -> nat {
    if count <= len {
        count
    } else {
        len
    }
}

/// The newest `count` items of `history`, or all of them where it has
/// fewer, the newest first.
pub open spec fn latest<T>(history: Seq<T>, count: nat) -> Seq<T> {
    Seq::new(granted(count, history.len()), |i: int| history[history.len() - 1 - i])
}

/// The post that a store makes of an identifier, a title, a content and one
/// clock reading, which serves as both of its times.
pub open spec fn made_post(
    id: Seq<char>,
    title: Seq<char>,
    content: Seq<char>,
    now: Moment,
) -> PostView {
    PostView { id, title, content, create_time: rfc3339(now), update_time: rfc3339(now) }
}

/// `readings` holds, for each post of `history`, the clock reading that its
/// two times were written from.
pub open spec fn stamped(history: Seq<PostView>, readings: Seq<Moment>) -> bool {
    &&& history.len() == readings.len()
    &&& forall|i: int|
        0 <= i < history.len() ==> {
            &&& (#[trigger] readings[i]).is_representable()
            &&& history[i].create_time == rfc3339(readings[i])
            &&& history[i].update_time == rfc3339(readings[i])
        }
}

/// No reading is earlier than one before it.
pub open spec fn ascending(readings: Seq<Moment>) -> bool {
    forall|i: int, j: int|
        0 <= i <= j < readings.len() ==> (#[trigger] readings[i]).le(#[trigger] readings[j])
}

/// No reading is later than one before it.
pub open spec fn descending(readings: Seq<Moment>) -> bool {
    forall|i: int, j: int|
        0 <= i <= j < readings.len() ==> (#[trigger] readings[j]).le(#[trigger] readings[i])
}

/// At most one index is the first with a given identifier.
pub proof fn lemma_first_with_id_is_unique(history: Seq<PostView>, id: Seq<char>, i: int, j: int)
    requires
        is_first_with_id(history, id, i),
        is_first_with_id(history, id, j),
    ensures
        i == j,
{
}

/// Where the post at `i` is the first with the identifier `id`, looking `id`
/// up gives that post.
pub proof fn lemma_lookup_first(history: Seq<PostView>, id: Seq<char>, i: int)
    requires
        is_first_with_id(history, id, i),
    ensures
        lookup(history, id) == Some(history[i]),
{
    let found = choose|k: int| is_first_with_id(history, id, k);
    lemma_first_with_id_is_unique(history, id, i, found);
}

/// Looking up an identifier finds a post exactly when some post has it.
pub proof fn lemma_lookup_some_iff_has_id(history: Seq<PostView>, id: Seq<char>)
    ensures
        lookup(history, id) is Some <==> has_id(history, id),
        lookup(history, id) matches Some(post) ==> post.id == id && history.contains(post),
    decreases history.len(),
{
    if has_id(history, id) {
        // Take any post with the identifier. Either an earlier one has it
        // too, and the first among those before it is the first of all, or
        // it is the first itself.
        let k = choose|k: int| 0 <= k < history.len() && (#[trigger] history[k]).id == id;
        let shorter = history.take(k);
        if has_id(shorter, id) {
            lemma_lookup_some_iff_has_id(shorter, id);
            let i = choose|i: int| is_first_with_id(shorter, id, i);
            assert(forall|j: int| 0 <= j < i ==> (#[trigger] history[j]) == shorter[j]);
            assert(is_first_with_id(history, id, i));
        } else {
            assert forall|j: int| 0 <= j < k implies (#[trigger] history[j]).id != id by {
                assert(shorter[j] == history[j]);
            }
            assert(is_first_with_id(history, id, k));
        }
    }
}

/// A post created under an identifier that no stored post has is what a
/// lookup of that identifier finds afterwards.
pub proof fn lemma_created_post_is_found(history: Seq<PostView>, post: PostView)
    requires
        !has_id(history, post.id),
    ensures
        lookup(history.push(post), post.id) == Some(post),
{
    // The new post is the first under its identifier: it stands last, and
    // none before it has the identifier.
    let after = history.push(post);
    assert(is_first_with_id(after, post.id, history.len() as int));
    lemma_lookup_first(after, post.id, history.len() as int);
}

/// Creating a post leaves every lookup of another identifier, and every
/// lookup that already found a post, as it was: a post once found under its
/// identifier stays the one that is found.
pub proof fn lemma_creation_keeps_lookups(history: Seq<PostView>, post: PostView, id: Seq<char>)
    requires
        id != post.id || has_id(history, id),
    ensures
        lookup(history.push(post), id) == lookup(history, id),
{
    let after = history.push(post);
    lemma_lookup_some_iff_has_id(history, id);
    if has_id(history, id) {
        // The first post under `id` keeps its place when one is appended.
        let i = choose|i: int| is_first_with_id(history, id, i);
        assert(is_first_with_id(after, id, i));
        lemma_lookup_first(after, id, i);
    } else {
        // Neither an old post nor the new one has `id`.
        assert forall|k: int| 0 <= k < after.len() implies (#[trigger] after[k]).id != id by {
            if k < history.len() {
                assert(after[k] == history[k]);
            }
        }
        lemma_lookup_some_iff_has_id(after, id);
    }
}

/// A post created under an identifier that no stored post has is what a
/// lookup of that identifier finds ever after, whatever is created later.
pub proof fn lemma_created_post_stays_found(
    history: Seq<PostView>,
    post: PostView,
    later: Seq<PostView>,
)
    requires
        !has_id(history, post.id),
    ensures
        lookup(history.push(post) + later, post.id) == Some(post),
    decreases later.len(),
{
    if later.len() == 0 {
        lemma_created_post_is_found(history, post);
        assert(history.push(post) + later =~= history.push(post));
    } else {
        let before = history.push(post) + later.drop_last();
        lemma_created_post_stays_found(history, post, later.drop_last());
        lemma_lookup_some_iff_has_id(before, post.id);
        lemma_creation_keeps_lookups(before, later.last(), post.id);
        assert(before.push(later.last()) =~= history.push(post) + later);
    }
}

/// An identifier that no stored post has is not found; in particular none
/// is found in an empty store.
pub proof fn lemma_unknown_id_is_not_found(history: Seq<PostView>, id: Seq<char>)
    requires
        !has_id(history, id),
    ensures
        lookup(history, id) is None,
{
    lemma_lookup_some_iff_has_id(history, id);
}

/// A request for no posts gets none.
pub proof fn lemma_latest_of_none<T>(history: Seq<T>)
    ensures
        latest(history, 0) == Seq::<T>::empty(),
{
}

/// The latest posts are as many as were asked for, or all there are, and
/// read backwards they are the end of the history.
pub proof fn lemma_latest_is_reversed_tail<T>(history: Seq<T>, count: nat)
    ensures
        latest(history, count).len() == granted(count, history.len()),
        latest(history, count).reverse() == history.subrange(
            history.len() - granted(count, history.len()),
            history.len() as int,
        ),
{
}

/// In a store whose clock never ran backwards between two creations, the
/// latest posts come in descending order of their update time: each carries
/// the time of its own clock reading, and no reading is later than the one
/// before it.
pub proof fn lemma_latest_is_newest_first(
    history: Seq<PostView>,
    readings: Seq<Moment>,
    count: nat,
)
    requires
        stamped(history, readings),
        ascending(readings),
    ensures
        stamped(latest(history, count), latest(readings, count)),
        descending(latest(readings, count)),
{
    // The item at `i` of the latest is the item at `len - 1 - i` of the
    // whole, in the posts and in the readings alike.
    let times = latest(readings, count);
    let n = readings.len() as int;
    assert forall|i: int, j: int| 0 <= i <= j < times.len() implies (#[trigger] times[j]).le(
        #[trigger] times[i],
    ) by {
        assert(readings[n - 1 - j].le(readings[n - 1 - i]));
    }
}

/// A creation whose clock reading is not earlier than the last one keeps
/// the readings in ascending order.
pub proof fn lemma_creation_keeps_order(readings: Seq<Moment>, now: Moment)
    requires
        ascending(readings),
        readings.len() > 0 ==> readings.last().le(now),
    ensures
        ascending(readings.push(now)),
{
    let after = readings.push(now);
    assert forall|i: int, j: int| 0 <= i <= j < after.len() implies (#[trigger] after[i]).le(
        #[trigger] after[j],
    ) by {
        if i < readings.len() <= j {
            // Not later than the last old reading, which is not later than
            // the new one.
            assert(readings[i].le(readings.last()));
        }
    }
}

} // verus!
