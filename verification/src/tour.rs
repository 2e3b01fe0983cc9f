//! The way forward round the whole ring: it passes every member once and
//! ends where it began.

use crate::ring::{
    candidates, has_beyond, in_scope, is_neighbor, positions, ring_valid, Direction, Predicate, Record,
};
use vstd::prelude::*;

verus! {

/// The number of members below position `n` that take part.
pub open spec fn taking_part<R: Record>(records: Seq<R>, predicate: Predicate, n: int) -> int
    decreases n,
{
    if n <= 0 {
        0
    } else {
        taking_part(records, predicate, n - 1) + if in_scope(records, predicate, n - 1) {
            1int
        } else {
            0int
        }
    }
}

/// The number of members below position `n` that take part and have an
/// identifier smaller than `id`.
pub open spec fn smaller<R: Record>(records: Seq<R>, predicate: Predicate, id: int, n: int) -> int
    decreases n,
{
    if n <= 0 {
        0
    } else {
        smaller(records, predicate, id, n - 1) + if in_scope(records, predicate, n - 1) && records[n - 1].key()
            < id {
            1int
        } else {
            0int
        }
    }
}

/// The number of members that take part.
pub open spec fn size<R: Record>(records: Seq<R>, predicate: Predicate) -> int {
    taking_part(records, predicate, records.len() as int)
}

/// The place of the member at position `j` in the order of the identifiers:
/// the number of members that come before it.
pub open spec fn rank<R: Record>(records: Seq<R>, predicate: Predicate, j: int) -> int {
    smaller(records, predicate, records[j].key(), records.len() as int)
}

/// One if position `j` lies below `n`, zero otherwise.
pub open spec fn seen(j: int, n: int) -> int {
    if j < n {
        1
    } else {
        0
    }
}

/// Positions `walk[0]`, `walk[1]`, ... are a way forward: the first holds a
/// member that takes part, and each of the others holds the neighbour of
/// the one before it.
pub open spec fn is_walk<R: Record>(records: Seq<R>, predicate: Predicate, walk: Seq<int>) -> bool {
    &&& walk.len() > 0
    &&& in_scope(records, predicate, walk[0])
    &&& forall|k: int|
        0 <= k < walk.len() - 1 ==> is_neighbor(records, predicate, #[trigger] walk[k], Direction::Next, walk[k + 1])
}

/// The place `steps` steps after the place `from`, on a ring of `size`
/// places, for no more steps than there are places.
pub open spec fn place_after(from: int, steps: int, size: int) -> int {
    if from + steps < size {
        from + steps
    } else {
        from + steps - size
    }
}

proof fn smaller_is_bounded<R: Record>(records: Seq<R>, predicate: Predicate, j: int, n: int)
    requires
        in_scope(records, predicate, j),
        0 <= n <= records.len(),
    ensures
        0 <= smaller(records, predicate, records[j].key(), n),
        smaller(records, predicate, records[j].key(), n) + seen(j, n) <= taking_part(records, predicate, n),
    decreases n,
{
    if n > 0 {
        smaller_is_bounded(records, predicate, j, n - 1);
    }
}

proof fn smaller_grows<R: Record>(records: Seq<R>, predicate: Predicate, a: int, id: int, n: int)
    requires
        in_scope(records, predicate, a),
        records[a].key() < id,
        0 <= n <= records.len(),
    ensures
        smaller(records, predicate, records[a].key(), n) + seen(a, n) <= smaller(records, predicate, id, n),
    decreases n,
{
    if n > 0 {
        smaller_grows(records, predicate, a, id, n - 1);
    }
}

proof fn smaller_of_next<R: Record>(records: Seq<R>, predicate: Predicate, c: int, j: int, n: int)
    requires
        ring_valid(records, predicate),
        in_scope(records, predicate, c),
        in_scope(records, predicate, j),
        records[c].key() < records[j].key(),
        forall|k: int| #[trigger]
            in_scope(records, predicate, k) && records[k].key() > records[c].key() ==> records[j].key()
                <= records[k].key(),
        0 <= n <= records.len(),
    ensures
        smaller(records, predicate, records[j].key(), n) == smaller(records, predicate, records[c].key(), n)
            + seen(c, n),
    decreases n,
{
    if n > 0 {
        smaller_of_next(records, predicate, c, j, n - 1);
        if in_scope(records, predicate, n - 1) && n - 1 != c {
            assert(records[n - 1].key() != records[c].key());
        }
    }
}

proof fn smaller_of_last<R: Record>(records: Seq<R>, predicate: Predicate, c: int, n: int)
    requires
        ring_valid(records, predicate),
        in_scope(records, predicate, c),
        forall|k: int| #[trigger] in_scope(records, predicate, k) ==> records[k].key() <= records[c].key(),
        0 <= n <= records.len(),
    ensures
        smaller(records, predicate, records[c].key(), n) + seen(c, n) == taking_part(records, predicate, n),
    decreases n,
{
    if n > 0 {
        smaller_of_last(records, predicate, c, n - 1);
        if in_scope(records, predicate, n - 1) && n - 1 != c {
            assert(records[n - 1].key() != records[c].key());
        }
    }
}

proof fn smaller_of_first<R: Record>(records: Seq<R>, predicate: Predicate, j: int, n: int)
    requires
        in_scope(records, predicate, j),
        forall|k: int| #[trigger] in_scope(records, predicate, k) ==> records[j].key() <= records[k].key(),
        0 <= n <= records.len(),
    ensures
        smaller(records, predicate, records[j].key(), n) == 0,
    decreases n,
{
    if n > 0 {
        smaller_of_first(records, predicate, j, n - 1);
    }
}

/// The members that take part are as many as the candidates of a random
/// pick.
pub proof fn size_is_the_number_of_candidates<R: Record>(records: Seq<R>, predicate: Predicate, n: int)
    requires
        0 <= n <= records.len(),
    ensures
        taking_part(records, predicate, n) == positions(records, predicate, n).len(),
        n == records.len() ==> size(records, predicate) == candidates(records, predicate).len(),
    decreases n,
{
    if n > 0 {
        size_is_the_number_of_candidates(records, predicate, n - 1);
    }
}

/// The place of a member lies below the number of members.
pub proof fn rank_is_a_place<R: Record>(records: Seq<R>, predicate: Predicate, j: int)
    requires
        in_scope(records, predicate, j),
    ensures
        0 <= rank(records, predicate, j) < size(records, predicate),
{
    smaller_is_bounded(records, predicate, j, records.len() as int);
}

/// In a valid ring no two members have the same place.
pub proof fn places_differ<R: Record>(records: Seq<R>, predicate: Predicate, a: int, b: int)
    requires
        ring_valid(records, predicate),
        in_scope(records, predicate, a),
        in_scope(records, predicate, b),
        rank(records, predicate, a) == rank(records, predicate, b),
    ensures
        a == b,
{
    let n = records.len() as int;
    if records[a].key() < records[b].key() {
        smaller_grows(records, predicate, a, records[b].key(), n);
    } else if records[b].key() < records[a].key() {
        smaller_grows(records, predicate, b, records[a].key(), n);
    }
}

/// In a valid ring the neighbour on the way forward has the next place, and
/// the first place after the last.
pub proof fn next_has_the_next_place<R: Record>(records: Seq<R>, predicate: Predicate, c: int, j: int)
    requires
        ring_valid(records, predicate),
        in_scope(records, predicate, c),
        is_neighbor(records, predicate, c, Direction::Next, j),
    ensures
        in_scope(records, predicate, j),
        rank(records, predicate, j) == place_after(rank(records, predicate, c), 1, size(records, predicate)),
{
    let n = records.len() as int;
    rank_is_a_place(records, predicate, c);
    rank_is_a_place(records, predicate, j);
    if has_beyond(records, predicate, Direction::Next, records[c].key()) {
        assert forall|k: int| #[trigger]
            in_scope(records, predicate, k) && records[k].key() > records[c].key() implies records[j].key()
            <= records[k].key() by {
            assert(Direction::Next.beyond(records[k].key(), records[c].key()));
        }
        smaller_of_next(records, predicate, c, j, n);
    } else {
        assert forall|k: int| #[trigger] in_scope(records, predicate, k) implies records[k].key()
            <= records[c].key() by {
            if records[k].key() > records[c].key() {
                assert(Direction::Next.beyond(records[k].key(), records[c].key()));
            }
        }
        smaller_of_last(records, predicate, c, n);
        smaller_of_first(records, predicate, j, n);
    }
}

/// After `k` steps forward the way is at the place `k` places on.
pub proof fn walk_keeps_step<R: Record>(records: Seq<R>, predicate: Predicate, walk: Seq<int>, k: int)
    requires
        ring_valid(records, predicate),
        is_walk(records, predicate, walk),
        0 <= k < walk.len(),
        k <= size(records, predicate),
    ensures
        in_scope(records, predicate, walk[k]),
        rank(records, predicate, walk[k]) == place_after(
            rank(records, predicate, walk[0]),
            k,
            size(records, predicate),
        ),
    decreases k,
{
    rank_is_a_place(records, predicate, walk[0]);
    if k > 0 {
        walk_keeps_step(records, predicate, walk, k - 1);
        assert(is_neighbor(records, predicate, walk[k - 1], Direction::Next, walk[k - 1 + 1]));
        next_has_the_next_place(records, predicate, walk[k - 1], walk[k]);
    }
}

/// Going forward as many times as there are members, in a valid ring, ends
/// at the member that the way began with, passes no member twice before
/// that, and passes every member.
pub proof fn forward_tour<R: Record>(records: Seq<R>, predicate: Predicate, walk: Seq<int>)
    requires
        ring_valid(records, predicate),
        is_walk(records, predicate, walk),
        walk.len() == size(records, predicate) + 1,
    ensures
        walk[size(records, predicate)] == walk[0],
        forall|a: int, b: int| 0 <= a < b < size(records, predicate) ==> walk[a] != walk[b],
        forall|x: int|
            in_scope(records, predicate, x) ==> exists|k: int|
                0 <= k < size(records, predicate) && #[trigger] walk[k] == x,
{
    let n = size(records, predicate);
    let start = rank(records, predicate, walk[0]);
    rank_is_a_place(records, predicate, walk[0]);
    walk_keeps_step(records, predicate, walk, n);
    places_differ(records, predicate, walk[n], walk[0]);
    assert forall|a: int, b: int| 0 <= a < b < n implies walk[a] != walk[b] by {
        walk_keeps_step(records, predicate, walk, a);
        walk_keeps_step(records, predicate, walk, b);
    }
    assert forall|x: int| in_scope(records, predicate, x) implies exists|k: int|
        0 <= k < n && #[trigger] walk[k] == x by {
        rank_is_a_place(records, predicate, x);
        let place = rank(records, predicate, x);
        let k = if place >= start {
            place - start
        } else {
            place - start + n
        };
        walk_keeps_step(records, predicate, walk, k);
        places_differ(records, predicate, walk[k], x);
    }
}

} // verus!
