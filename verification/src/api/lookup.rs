//! Looking records up by the principal that owns them and by their name.

use crate::api::stored_id;
use crate::ring::Record;
use crate::text::{chars_of, same_chars};
use vstd::prelude::*;

verus! {

/// A record that belongs to a principal.
pub trait Owned: Record {
    /// The stored identifier of the principal.
    spec fn principal(&self) -> i64;

    /// Reads the stored identifier of the principal.
    fn discord_id(&self) -> (r: i64)
        ensures
            r == self.principal(),
    ;
}

/// Position `i` holds a record with the stored identifier `discord_id`.
pub open spec fn has_discord_id<R: Owned>(records: Seq<R>, discord_id: i64, i: int) -> bool {
    0 <= i < records.len() && records[i].principal() == discord_id
}

/// Position `i` holds the first record with the stored identifier
/// `discord_id`.
pub open spec fn first_with_discord_id<R: Owned>(records: Seq<R>, discord_id: i64, i: int) -> bool {
    has_discord_id(records, discord_id, i) && forall|k: int| 0 <= k < i ==> !has_discord_id(records, discord_id, k)
}

/// The position of the first record with the stored identifier
/// `discord_id`.
pub open spec fn by_discord_id<R: Owned>(records: Seq<R>, discord_id: i64) -> Option<int> {
    if exists|i: int| first_with_discord_id(records, discord_id, i) {
        Some(choose|i: int| first_with_discord_id(records, discord_id, i))
    } else {
        None
    }
}

/// Position `i` holds a record called `username`.
pub open spec fn has_username<R: Owned>(records: Seq<R>, username: Seq<char>, i: int) -> bool {
    0 <= i < records.len() && records[i].name() == username
}

/// Position `i` holds the first record called `username`.
pub open spec fn first_with_username<R: Owned>(records: Seq<R>, username: Seq<char>, i: int) -> bool {
    has_username(records, username, i) && forall|k: int| 0 <= k < i ==> !has_username(records, username, k)
}

/// The position of the first record called `username`.
pub open spec fn by_username<R: Owned>(records: Seq<R>, username: Seq<char>) -> Option<int> {
    if exists|i: int| first_with_username(records, username, i) {
        Some(choose|i: int| first_with_username(records, username, i))
    } else {
        None
    }
}

/// Nothing is found for a principal exactly where no record belongs to it,
/// and what is found belongs to it.
pub proof fn nothing_by_discord_id<R: Owned>(records: Seq<R>, discord_id: i64)
    ensures
        by_discord_id(records, discord_id) is None <==> forall|i: int| !has_discord_id(records, discord_id, i),
        by_discord_id(records, discord_id) matches Some(i) ==> first_with_discord_id(records, discord_id, i),
{
    if exists|i: int| has_discord_id(records, discord_id, i) {
        let i = choose|i: int| has_discord_id(records, discord_id, i);
        let property = |k: int| has_discord_id(records, discord_id, k);
        first_exists(property, i);
        let f = choose|f: int| is_first(property, f) && f <= i;
        assert forall|k: int| 0 <= k < f implies !has_discord_id(records, discord_id, k) by {
            assert(!property(k));
        }
        assert(property(f));
        assert(first_with_discord_id(records, discord_id, f));
    }
}

/// Nothing is found for a name exactly where no record has it, and what is
/// found has it.
pub proof fn nothing_by_username<R: Owned>(records: Seq<R>, username: Seq<char>)
    ensures
        by_username(records, username) is None <==> forall|i: int| !has_username(records, username, i),
        by_username(records, username) matches Some(i) ==> first_with_username(records, username, i),
{
    if exists|i: int| has_username(records, username, i) {
        let i = choose|i: int| has_username(records, username, i);
        let property = |k: int| has_username(records, username, k);
        first_exists(property, i);
        let f = choose|f: int| is_first(property, f) && f <= i;
        assert forall|k: int| 0 <= k < f implies !has_username(records, username, k) by {
            assert(!property(k));
        }
        assert(property(f));
        assert(first_with_username(records, username, f));
    }
}

/// Where a position has a property, a first one has it.
pub proof fn first_exists(property: spec_fn(int) -> bool, i: int)
    requires
        0 <= i,
        property(i),
    ensures
        exists|f: int| is_first(property, f) && f <= i,
    decreases i,
{
    if exists|k: int| 0 <= k < i && #[trigger] property(k) {
        let k = choose|k: int| 0 <= k < i && #[trigger] property(k);
        first_exists(property, k);
        let f = choose|f: int| is_first(property, f) && f <= k;
        assert(is_first(property, f) && f <= i);
    } else {
        assert(is_first(property, i));
    }
}

/// Position `f` is the first one, from 0 on, that has the property.
pub open spec fn is_first(property: spec_fn(int) -> bool, f: int) -> bool {
    0 <= f && property(f) && forall|k: int| 0 <= k < f ==> !#[trigger] property(k)
}

/// The value of a position that may be missing.
pub open spec fn found(position: Option<usize>) -> Option<int> {
    match position {
        Some(i) => Some(i as int),
        None => None,
    }
}

/// Looks for the first record with the stored identifier `discord_id`.
pub fn find_by_discord_id<R: Owned>(records: &Vec<R>, discord_id: i64) -> (r: Option<usize>)
    ensures
        found(r) == by_discord_id(records@, discord_id),
        r matches Some(i) ==> first_with_discord_id(records@, discord_id, i as int),
        r is None ==> forall|i: int| !has_discord_id(records@, discord_id, i),
{
    let mut i: usize = 0;
    while i < records.len()
        invariant
            i <= records.len(),
            forall|k: int| 0 <= k < i ==> !has_discord_id(records@, discord_id, k),
        decreases records.len() - i,
    {
        if records[i].discord_id() == discord_id {
            proof {
                assert(first_with_discord_id(records@, discord_id, i as int));
                let j = choose|j: int| first_with_discord_id(records@, discord_id, j);
                if j < i {
                    assert(!has_discord_id(records@, discord_id, j));
                }
                if i < j {
                    assert(has_discord_id(records@, discord_id, i as int));
                }
            }
            return Some(i);
        }
        i += 1;
    }
    assert forall|j: int| !first_with_discord_id(records@, discord_id, j) by {
        assert(!has_discord_id(records@, discord_id, j));
    }
    None
}

/// Looks for the first record whose name has the characters `username`.
pub fn find_by_username<R: Owned>(records: &Vec<R>, username: &Vec<char>) -> (r: Option<usize>)
    ensures
        found(r) == by_username(records@, username@),
        r matches Some(i) ==> first_with_username(records@, username@, i as int),
        r is None ==> forall|i: int| !has_username(records@, username@, i),
{
    let mut i: usize = 0;
    while i < records.len()
        invariant
            i <= records.len(),
            forall|k: int| 0 <= k < i ==> !has_username(records@, username@, k),
        decreases records.len() - i,
    {
        let name = chars_of(records[i].username().as_str());
        if same_chars(&name, username) {
            proof {
                assert(first_with_username(records@, username@, i as int));
                let j = choose|j: int| first_with_username(records@, username@, j);
                if j < i {
                    assert(!has_username(records@, username@, j));
                }
                if i < j {
                    assert(has_username(records@, username@, i as int));
                }
            }
            return Some(i);
        }
        i += 1;
    }
    assert forall|j: int| !first_with_username(records@, username@, j) by {
        assert(!has_username(records@, username@, j));
    }
    None
}

/// The positions of the records that the principals `ids` own, one for
/// each and in their order, or `None` where one of them owns none.
pub open spec fn picked_by_ids<R: Owned>(records: Seq<R>, ids: Seq<u64>) -> Option<Seq<int>>
    decreases ids.len(),
{
    if ids.len() == 0 {
        Some(Seq::empty())
    } else {
        match (picked_by_ids(records, ids.drop_last()), by_discord_id(records, stored_id(ids.last()))) {
            (Some(before), Some(i)) => Some(before.push(i)),
            _ => None,
        }
    }
}

/// `start`, followed by the positions of the records called `names` in
/// their order, each unless it has come before; or `None` where no record
/// has one of the names.
pub open spec fn picked_by_names<R: Owned>(records: Seq<R>, names: Seq<String>, start: Seq<int>) -> Option<
    Seq<int>,
>
    decreases names.len(),
{
    if names.len() == 0 {
        Some(start)
    } else {
        match (picked_by_names(records, names.drop_last(), start), by_username(records, names.last()@)) {
            (Some(before), Some(i)) => Some(
                if before.contains(i) {
                    before
                } else {
                    before.push(i)
                },
            ),
            _ => None,
        }
    }
}

/// The identifiers in a list that may be missing.
pub open spec fn listed_ids(ids: Option<Vec<u64>>) -> Seq<u64> {
    match ids {
        Some(list) => list@,
        None => Seq::empty(),
    }
}

/// The names in a list that may be missing.
pub open spec fn listed_names(names: Option<Vec<String>>) -> Seq<String> {
    match names {
        Some(list) => list@,
        None => Seq::empty(),
    }
}

/// The positions of the records that a request for several names: first
/// those of the principals, which may repeat, then those of the names that
/// have not come before. `None` where a principal or a name finds nothing.
pub open spec fn picked<R: Owned>(records: Seq<R>, ids: Option<Vec<u64>>, names: Option<Vec<String>>) -> Option<
    Seq<int>,
> {
    match picked_by_ids(records, listed_ids(ids)) {
        Some(first) => picked_by_names(records, listed_names(names), first),
        None => None,
    }
}

/// `list` holds the positions `positions`.
pub open spec fn holds_positions(list: Seq<usize>, positions: Seq<int>) -> bool {
    list.len() == positions.len() && forall|k: int| 0 <= k < list.len() ==> list[k] as int == positions[k]
}

/// Whether `list` holds `position`.
pub fn has_position(list: &Vec<usize>, position: usize) -> (r: bool)
    ensures
        r == exists|k: int| 0 <= k < list@.len() && list@[k] == position,
{
    let mut k: usize = 0;
    while k < list.len()
        invariant
            k <= list.len(),
            forall|x: int| 0 <= x < k ==> list@[x] != position,
        decreases list.len() - k,
    {
        if list[k] == position {
            return true;
        }
        k += 1;
    }
    false
}

/// Computes [`picked`].
pub fn pick<R: Owned>(records: &Vec<R>, ids: &Option<Vec<u64>>, names: &Option<Vec<String>>) -> (r: Option<
    Vec<usize>,
>)
    ensures
        match picked(records@, *ids, *names) {
            Some(positions) => r matches Some(list) && holds_positions(list@, positions) && forall|k: int|
                0 <= k < list@.len() ==> #[trigger] list@[k] < records@.len(),
            None => r is None,
        },
{
    let mut list: Vec<usize> = Vec::new();
    match ids {
        Some(wanted) => {
            let mut n: usize = 0;
            assert(wanted@.take(0) =~= Seq::empty());
            while n < wanted.len()
                invariant
                    n <= wanted.len(),
                    listed_ids(*ids) == wanted@,
                    picked_by_ids(records@, wanted@.take(n as int)) matches Some(positions) && holds_positions(
                        list@,
                        positions,
                    ),
                    forall|k: int| 0 <= k < list@.len() ==> #[trigger] list@[k] < records@.len(),
                decreases wanted.len() - n,
            {
                assert(wanted@.take(n + 1).drop_last() =~= wanted@.take(n as int));
                assert(wanted@.take(n + 1).last() == wanted@[n as int]);
                match find_by_discord_id(records, crate::api::to_stored_id(wanted[n])) {
                    Some(i) => {
                        list.push(i);
                    },
                    None => {
                        proof {
                            assert(picked_by_ids(records@, wanted@.take(n + 1)) is None);
                            missing_id_spoils(records@, wanted@, n + 1);
                        }
                        return None;
                    },
                }
                n += 1;
            }
            assert(wanted@.take(n as int) =~= wanted@);
        },
        None => {},
    }
    let ghost first = picked_by_ids(records@, listed_ids(*ids))->Some_0;
    match names {
        Some(wanted) => {
            let mut n: usize = 0;
            assert(wanted@.take(0) =~= Seq::empty());
            while n < wanted.len()
                invariant
                    n <= wanted.len(),
                    listed_names(*names) == wanted@,
                    picked_by_ids(records@, listed_ids(*ids)) == Some(first),
                    picked_by_names(records@, wanted@.take(n as int), first) matches Some(positions)
                        && holds_positions(list@, positions),
                    forall|k: int| 0 <= k < list@.len() ==> #[trigger] list@[k] < records@.len(),
                decreases wanted.len() - n,
            {
                assert(wanted@.take(n + 1).drop_last() =~= wanted@.take(n as int));
                assert(wanted@.take(n + 1).last() == wanted@[n as int]);
                let ghost before = picked_by_names(records@, wanted@.take(n as int), first)->Some_0;
                let name = chars_of(wanted[n].as_str());
                match find_by_username(records, &name) {
                    Some(i) => {
                        let seen = has_position(&list, i);
                        proof {
                            if seen {
                                let k = choose|k: int| 0 <= k < list@.len() && list@[k] == i;
                                assert(before[k] == i as int);
                            } else if before.contains(i as int) {
                                let k = choose|k: int| 0 <= k < before.len() && before[k] == i as int;
                                assert(list@[k] == i);
                            }
                        }
                        if !seen {
                            list.push(i);
                        }
                    },
                    None => {
                        proof {
                            assert(picked_by_names(records@, wanted@.take(n + 1), first) is None);
                            missing_name_spoils(records@, wanted@, first, n + 1);
                        }
                        return None;
                    },
                }
                n += 1;
            }
            assert(wanted@.take(n as int) =~= wanted@);
        },
        None => {},
    }
    Some(list)
}

/// Once a principal has found nothing, the rest of the list cannot mend it.
pub proof fn missing_id_spoils<R: Owned>(records: Seq<R>, ids: Seq<u64>, n: int)
    requires
        0 <= n <= ids.len(),
        picked_by_ids(records, ids.take(n)) is None,
    ensures
        picked_by_ids(records, ids) is None,
    decreases ids.len() - n,
{
    if n == ids.len() {
        assert(ids.take(n) =~= ids);
    } else {
        assert(ids.take(n + 1).drop_last() =~= ids.take(n));
        missing_id_spoils(records, ids, n + 1);
    }
}

/// Once a name has found nothing, the rest of the list cannot mend it.
pub proof fn missing_name_spoils<R: Owned>(records: Seq<R>, names: Seq<String>, start: Seq<int>, n: int)
    requires
        0 <= n <= names.len(),
        picked_by_names(records, names.take(n), start) is None,
    ensures
        picked_by_names(records, names, start) is None,
    decreases names.len() - n,
{
    if n == names.len() {
        assert(names.take(n) =~= names);
    } else {
        assert(names.take(n + 1).drop_last() =~= names.take(n));
        missing_name_spoils(records, names, start, n + 1);
    }
}

} // verus!
