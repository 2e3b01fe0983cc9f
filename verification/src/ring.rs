//! Navigation round the ring: the member after or before a given one, and a
//! member picked at random.
//!
//! Every function works on one snapshot of the records and looks only at
//! the members that a [`Predicate`] admits. The order of the ring is the
//! order of the identifiers, whatever the order of the snapshot.

use rand::seq::IndexedRandom;
use rand::SeedableRng;
use vstd::prelude::*;

verus! {

/// The way round the ring.
#[derive(Debug, Clone, Copy, PartialEq, Eq, Structural)]
pub enum Direction {
    /// Towards greater identifiers.
    Next,
    /// Towards smaller identifiers.
    Prev,
}

/// Which members take part.
#[derive(Debug, Clone, Copy, PartialEq, Eq, Structural)]
pub enum Predicate {
    /// Every member.
    Any,
    /// The verified members.
    Verified,
}

/// How a random member is picked.
#[derive(Debug, Clone, Copy, PartialEq, Eq, Structural)]
pub enum Mode {
    /// Afresh on every call.
    Uniform,
    /// The same on every call, for the member with this identifier.
    Seeded(i32),
}

/// What the navigator reads of a record: its identifier, its name and
/// whether it has been verified.
pub trait Record {
    /// The identifier.
    spec fn key(&self) -> int;

    /// The name.
    spec fn name(&self) -> Seq<char>;

    /// Whether the record has been verified.
    spec fn is_verified(&self) -> bool;

    /// Reads the identifier.
    fn id(&self) -> (r: i32)
        ensures
            r == self.key(),
    ;

    /// Reads the name.
    fn username(&self) -> (r: &String)
        ensures
            r@ == self.name(),
    ;

    /// Reads whether the record has been verified.
    fn verified(&self) -> (r: bool)
        ensures
            r == self.is_verified(),
    ;
}

impl Direction {
    /// Whether the identifier `a` lies beyond `b` on the way round.
    pub open spec fn beyond(self, a: int, b: int) -> bool {
        match self {
            Direction::Next => a > b,
            Direction::Prev => a < b,
        }
    }

    /// Computes [`Direction::beyond`].
    pub fn is_beyond(&self, a: i32, b: i32) -> (r: bool)
        ensures
            r == self.beyond(a as int, b as int),
    {
        match self {
            Direction::Next => a > b,
            Direction::Prev => a < b,
        }
    }
}

impl Predicate {
    /// Whether `member` takes part.
    pub open spec fn admits<R: Record>(self, member: R) -> bool {
        match self {
            Predicate::Any => true,
            Predicate::Verified => member.is_verified(),
        }
    }

    /// Computes [`Predicate::admits`].
    pub fn accepts<R: Record>(&self, member: &R) -> (r: bool)
        ensures
            r == self.admits(*member),
    {
        match self {
            Predicate::Any => true,
            Predicate::Verified => member.verified(),
        }
    }
}

/// Position `i` holds a member that takes part.
pub open spec fn in_scope<R: Record>(records: Seq<R>, predicate: Predicate, i: int) -> bool {
    0 <= i < records.len() && predicate.admits(records[i])
}

/// Position `i` holds a member that takes part and is called `username`.
pub open spec fn named<R: Record>(records: Seq<R>, predicate: Predicate, username: Seq<char>, i: int) -> bool {
    in_scope(records, predicate, i) && records[i].name() == username
}

/// Position `i` holds the member that `username` stands for: the first one
/// of that name that takes part.
pub open spec fn is_current<R: Record>(records: Seq<R>, predicate: Predicate, username: Seq<char>, i: int) -> bool {
    named(records, predicate, username, i) && forall|k: int|
        0 <= k < i ==> !named(records, predicate, username, k)
}

/// Position `j` holds the first member that takes part and has its
/// identifier.
pub open spec fn leads<R: Record>(records: Seq<R>, predicate: Predicate, j: int) -> bool {
    in_scope(records, predicate, j) && forall|k: int|
        0 <= k < j && #[trigger] in_scope(records, predicate, k) ==> records[k].key() != records[j].key()
}

/// Some member that takes part has an identifier beyond `id`.
pub open spec fn has_beyond<R: Record>(records: Seq<R>, predicate: Predicate, direction: Direction, id: int) -> bool {
    exists|k: int| #[trigger]
        in_scope(records, predicate, k) && direction.beyond(records[k].key(), id)
}

/// Position `j` holds the neighbour of the member at position `c`. Where
/// members lie beyond `c`, it is the nearest of them. Where none does, `c`
/// is at the end of the ring and the neighbour is the member at the other
/// end: the one with the smallest identifier on the way forward, with the
/// greatest on the way back.
pub open spec fn is_neighbor<R: Record>(
    records: Seq<R>,
    predicate: Predicate,
    c: int,
    direction: Direction,
    j: int,
) -> bool {
    &&& leads(records, predicate, j)
    &&& if has_beyond(records, predicate, direction, records[c].key()) {
        &&& direction.beyond(records[j].key(), records[c].key())
        &&& forall|k: int| #[trigger]
            in_scope(records, predicate, k) && direction.beyond(records[k].key(), records[c].key())
                ==> !direction.beyond(records[j].key(), records[k].key())
    } else {
        forall|k: int| #[trigger]
            in_scope(records, predicate, k) ==> !direction.beyond(records[j].key(), records[k].key())
    }
}

/// Position `j` holds the neighbour of the member called `username`.
pub open spec fn located<R: Record>(
    records: Seq<R>,
    predicate: Predicate,
    username: Seq<char>,
    direction: Direction,
    j: int,
) -> bool {
    exists|c: int| #[trigger]
        is_current(records, predicate, username, c) && is_neighbor(records, predicate, c, direction, j)
}

/// The position of the member that `username` stands for, or `None` where
/// no member of that name takes part.
pub fn find_current<R: Record>(records: &Vec<R>, predicate: Predicate, username: &str) -> (r: Option<usize>)
    ensures
        match r {
            Some(c) => is_current(records@, predicate, username@, c as int),
            None => forall|i: int| !named(records@, predicate, username@, i),
        },
{
    let wanted = username.to_owned();
    let mut i: usize = 0;
    while i < records.len()
        invariant
            i <= records.len(),
            wanted@ == username@,
            forall|k: int| 0 <= k < i ==> !named(records@, predicate, username@, k),
        decreases records.len() - i,
    {
        if predicate.accepts(&records[i]) && *records[i].username() == wanted {
            return Some(i);
        }
        i += 1;
    }
    None
}

/// Up to position `n`, `best` holds the first member with the identifier
/// that no member beyond `floor` undercuts, or `None` where no member lies
/// beyond `floor`. With no `floor`, every member counts.
spec fn nearest_so_far<R: Record>(
    records: Seq<R>,
    predicate: Predicate,
    direction: Direction,
    floor: Option<int>,
    n: int,
    best: Option<usize>,
) -> bool {
    match best {
        Some(j) => {
            &&& j < n
            &&& in_scope(records, predicate, j as int)
            &&& counts(records, direction, floor, j as int)
            &&& forall|k: int|
                0 <= k < n && #[trigger] in_scope(records, predicate, k) && counts(records, direction, floor, k)
                    ==> !direction.beyond(records[j as int].key(), records[k].key())
            &&& forall|k: int|
                0 <= k < j && #[trigger] in_scope(records, predicate, k) ==> records[k].key() != records[j as int].key()
        },
        None => forall|k: int|
            0 <= k < n && #[trigger] in_scope(records, predicate, k) ==> !counts(records, direction, floor, k),
    }
}

/// The member at position `k` lies beyond `floor`, if there is one.
spec fn counts<R: Record>(records: Seq<R>, direction: Direction, floor: Option<int>, k: int) -> bool {
    match floor {
        Some(id) => direction.beyond(records[k].key(), id),
        None => true,
    }
}

/// The position of the neighbour of the member at position `c`.
pub fn neighbor_of<R: Record>(records: &Vec<R>, predicate: Predicate, c: usize, direction: Direction) -> (j: usize)
    requires
        in_scope(records@, predicate, c as int),
    ensures
        is_neighbor(records@, predicate, c as int, direction, j as int),
{
    let here: i32 = records[c].id();
    let ghost floor = Some(here as int);
    let mut near: Option<usize> = None;
    let mut far: Option<usize> = None;
    let mut k: usize = 0;
    while k < records.len()
        invariant
            k <= records.len(),
            c < records.len(),
            here == records@[c as int].key(),
            floor == Some(here as int),
            nearest_so_far(records@, predicate, direction, floor, k as int, near),
            nearest_so_far(records@, predicate, direction, None, k as int, far),
        decreases records.len() - k,
    {
        if predicate.accepts(&records[k]) {
            let id: i32 = records[k].id();
            if direction.is_beyond(id, here) {
                let nearer = match near {
                    Some(j) => direction.is_beyond(records[j].id(), id),
                    None => true,
                };
                if nearer {
                    near = Some(k);
                }
            }
            let further = match far {
                Some(j) => direction.is_beyond(records[j].id(), id),
                None => true,
            };
            if further {
                far = Some(k);
            }
        }
        k += 1;
    }
    match near {
        Some(j) => {
            assert(has_beyond(records@, predicate, direction, here as int)) by {
                assert(in_scope(records@, predicate, j as int));
            }
            j
        },
        None => {
            assert(in_scope(records@, predicate, c as int));
            match far {
                Some(j) => j,
                None => c,
            }
        },
    }
}

/// The position of the neighbour of the member called `current_username`,
/// or `None` where no member of that name takes part.
pub fn locate_neighbor_index<R: Record>(
    records: &Vec<R>,
    predicate: Predicate,
    current_username: &str,
    direction: Direction,
) -> (r: Option<usize>)
    ensures
        match r {
            Some(j) => located(records@, predicate, current_username@, direction, j as int),
            None => forall|i: int| !named(records@, predicate, current_username@, i),
        },
{
    match find_current(records, predicate, current_username) {
        Some(c) => {
            let j = neighbor_of(records, predicate, c, direction);
            assert(is_current(records@, predicate, current_username@, c as int) && is_neighbor(
                records@,
                predicate,
                c as int,
                direction,
                j as int,
            ));
            Some(j)
        },
        None => None,
    }
}

/// The neighbour of the member called `current_username`. `None` says that
/// nothing was found: no member of that name takes part, which is so in
/// particular where no member takes part at all.
pub fn locate_neighbor<'a, R: Record>(
    records: &'a Vec<R>,
    predicate: Predicate,
    current_username: &str,
    direction: Direction,
) -> (r: Option<&'a R>)
    ensures
        match r {
            Some(member) => exists|j: int| #[trigger]
                located(records@, predicate, current_username@, direction, j) && *member == records@[j],
            None => forall|i: int| !named(records@, predicate, current_username@, i),
        },
{
    match locate_neighbor_index(records, predicate, current_username, direction) {
        Some(j) => {
            assert(located(records@, predicate, current_username@, direction, j as int));
            Some(&records[j])
        },
        None => None,
    }
}

/// The data model's promise for the members that take part: no two of them
/// share an identifier or a name.
pub open spec fn ring_valid<R: Record>(records: Seq<R>, predicate: Predicate) -> bool {
    forall|a: int, b: int|
        #[trigger] in_scope(records, predicate, a) && #[trigger] in_scope(records, predicate, b) && a != b ==> {
            &&& records[a].key() != records[b].key()
            &&& records[a].name() != records[b].name()
        }
}

/// A name stands for one position at most.
pub proof fn current_is_unique<R: Record>(records: Seq<R>, predicate: Predicate, username: Seq<char>, a: int, b: int)
    requires
        is_current(records, predicate, username, a),
        is_current(records, predicate, username, b),
    ensures
        a == b,
{
    if a < b {
        assert(named(records, predicate, username, a));
    } else if b < a {
        assert(named(records, predicate, username, b));
    }
}

/// A member has one neighbour at most in each direction, so the result of
/// [`locate_neighbor_index`] is the only position that its contract admits.
pub proof fn neighbor_is_unique<R: Record>(
    records: Seq<R>,
    predicate: Predicate,
    username: Seq<char>,
    direction: Direction,
    a: int,
    b: int,
)
    requires
        located(records, predicate, username, direction, a),
        located(records, predicate, username, direction, b),
    ensures
        a == b,
{
    let ca = choose|c: int| #[trigger]
        is_current(records, predicate, username, c) && is_neighbor(records, predicate, c, direction, a);
    let cb = choose|c: int| #[trigger]
        is_current(records, predicate, username, c) && is_neighbor(records, predicate, c, direction, b);
    current_is_unique(records, predicate, username, ca, cb);
    assert(in_scope(records, predicate, a));
    assert(in_scope(records, predicate, b));
    assert(records[a].key() == records[b].key());
    if a < b {
        assert(in_scope(records, predicate, a));
    } else if b < a {
        assert(in_scope(records, predicate, b));
    }
}

/// In a valid ring a member's name stands for the member.
pub proof fn name_finds_member<R: Record>(records: Seq<R>, predicate: Predicate, m: int)
    requires
        ring_valid(records, predicate),
        in_scope(records, predicate, m),
    ensures
        is_current(records, predicate, records[m].name(), m),
{
    assert forall|k: int| 0 <= k < m implies !named(records, predicate, records[m].name(), k) by {
        if named(records, predicate, records[m].name(), k) {
            assert(in_scope(records, predicate, k));
        }
    }
}

/// The opposite way round.
pub open spec fn reverse(direction: Direction) -> Direction {
    match direction {
        Direction::Next => Direction::Prev,
        Direction::Prev => Direction::Next,
    }
}

/// Round trip: in a valid ring, going from a member to its neighbour and
/// from there back the other way ends at the member. This holds for either
/// direction first, and also where the way wraps round the end of the ring.
pub proof fn there_and_back<R: Record>(
    records: Seq<R>,
    predicate: Predicate,
    direction: Direction,
    m: int,
    j: int,
    k: int,
)
    requires
        ring_valid(records, predicate),
        in_scope(records, predicate, m),
        located(records, predicate, records[m].name(), direction, j),
        located(records, predicate, records[j].name(), reverse(direction), k),
    ensures
        k == m,
{
    let back = reverse(direction);
    let c1 = choose|c: int| #[trigger]
        is_current(records, predicate, records[m].name(), c) && is_neighbor(
            records,
            predicate,
            c,
            direction,
            j,
        );
    name_finds_member(records, predicate, m);
    current_is_unique(records, predicate, records[m].name(), c1, m);
    assert(in_scope(records, predicate, j));
    let c2 = choose|c: int| #[trigger]
        is_current(records, predicate, records[j].name(), c) && is_neighbor(records, predicate, c, back, k);
    name_finds_member(records, predicate, j);
    current_is_unique(records, predicate, records[j].name(), c2, j);
    assert(in_scope(records, predicate, k));
    let id_m = records[m].key();
    let id_j = records[j].key();
    let id_k = records[k].key();
    if has_beyond(records, predicate, direction, id_m) {
        // `j` is the nearest member beyond `m`, so `m` lies beyond `j` on the way back.
        assert(back.beyond(id_m, id_j));
        assert(has_beyond(records, predicate, back, id_j));
        assert(!back.beyond(id_k, id_m));
        if direction.beyond(id_k, id_m) {
            assert(!direction.beyond(id_j, id_k));
        }
        assert(id_k == id_m);
    } else {
        // `m` is at the end, `j` at the other end: nothing lies beyond `j` on the way back.
        if has_beyond(records, predicate, back, id_j) {
            let x = choose|x: int| #[trigger]
                in_scope(records, predicate, x) && back.beyond(records[x].key(), id_j);
            assert(!direction.beyond(id_j, records[x].key()));
        }
        assert(!back.beyond(id_k, id_m));
        assert(!direction.beyond(id_k, id_m));
        assert(id_k == id_m);
    }
}

/// Where one member alone takes part, it is its own neighbour in both
/// directions.
pub proof fn alone_in_the_ring<R: Record>(
    records: Seq<R>,
    predicate: Predicate,
    direction: Direction,
    m: int,
    j: int,
)
    requires
        in_scope(records, predicate, m),
        forall|i: int| #[trigger] in_scope(records, predicate, i) ==> i == m,
        located(records, predicate, records[m].name(), direction, j),
    ensures
        j == m,
{
    let c = choose|c: int| #[trigger]
        is_current(records, predicate, records[m].name(), c) && is_neighbor(
            records,
            predicate,
            c,
            direction,
            j,
        );
    assert(in_scope(records, predicate, j));
}

/// The positions below `n` of the members that take part, in ascending
/// order.
pub open spec fn positions<R: Record>(records: Seq<R>, predicate: Predicate, n: int) -> Seq<int>
    decreases n,
{
    if n <= 0 {
        Seq::empty()
    } else if in_scope(records, predicate, n - 1) {
        positions(records, predicate, n - 1).push(n - 1)
    } else {
        positions(records, predicate, n - 1)
    }
}

/// The positions of all members that take part: what a random pick is made
/// from.
pub open spec fn candidates<R: Record>(records: Seq<R>, predicate: Predicate) -> Seq<int> {
    positions(records, predicate, records.len() as int)
}

/// [`positions`] holds exactly the positions below `n` of the members that
/// take part, each once and in ascending order.
pub proof fn positions_are_the_scope<R: Record>(records: Seq<R>, predicate: Predicate, n: int)
    requires
        0 <= n <= records.len(),
    ensures
        positions(records, predicate, n).len() <= n,
        forall|x: int|
            0 <= x < positions(records, predicate, n).len() ==> 0 <= #[trigger] positions(
                records,
                predicate,
                n,
            )[x] < n && in_scope(records, predicate, positions(records, predicate, n)[x]),
        forall|x: int, y: int|
            0 <= x < y < positions(records, predicate, n).len() ==> positions(records, predicate, n)[x]
                < positions(records, predicate, n)[y],
        forall|i: int|
            0 <= i < n && in_scope(records, predicate, i) ==> #[trigger] positions(
                records,
                predicate,
                n,
            ).contains(i),
    decreases n,
{
    if n > 0 {
        positions_are_the_scope(records, predicate, n - 1);
        let before = positions(records, predicate, n - 1);
        let now = positions(records, predicate, n);
        assert forall|i: int| 0 <= i < n && in_scope(records, predicate, i) implies now.contains(i) by {
            if i < n - 1 {
                assert(before.contains(i));
                let x = choose|x: int| 0 <= x < before.len() && before[x] == i;
                assert(now[x] == i);
            } else {
                assert(now[now.len() - 1] == i);
            }
        }
    }
}

/// Whether some record, taking part or not, has the identifier `id`.
pub open spec fn holds_id<R: Record>(records: Seq<R>, id: int) -> bool {
    exists|i: int| 0 <= i < records.len() && (#[trigger] records[i]).key() == id
}

/// The seed of the generator that picks a member on behalf of the member
/// with identifier `id`: the identifier as a number of 64 bits, shifted left
/// by 16 bits and or-ed with itself. The store hands out identifiers from 1
/// on; one below zero is widened with its sign first.
pub open spec fn seed_of(id: i32) -> u64 {
    ((id as u64) << 16) | (id as u64)
}

/// Computes [`seed_of`].
pub fn seed_for(id: i32) -> (seed: u64)
    ensures
        seed == seed_of(id),
{
    let wide: u64 = #[verifier::truncate]
    (id as u64);
    (wide << 16) | wide
}

/// An identifier that is not negative is not cut short by the shift: the
/// seed is the identifier times 65536, or-ed with the identifier.
pub proof fn seed_of_identifier(id: i32)
    requires
        id >= 0,
    ensures
        seed_of(id) == ((id * 65536) as u64) | (id as u64),
        id < 65536 ==> seed_of(id) == id * 65537,
{
    let wide = id as u64;
    assert(wide == id) by (bit_vector)
        requires
            wide == id as u64,
            id >= 0,
    ;
    assert(wide < 0x8000_0000);
    assert(wide << 16 == wide * 65536) by (bit_vector)
        requires
            wide < 0x8000_0000u64,
    ;
    assert(wide < 65536 ==> (wide << 16) | wide == wide * 65537) by (bit_vector);
}

/// The index that `rand`'s `choose` draws from a slice of `len` items,
/// `len > 0`, with a `StdRng` fresh from `seed_from_u64(seed)`. In the
/// version of `rand` that this crate is built with, that generator is
/// ChaCha with 12 rounds, and the draw depends on the seed and the length
/// alone.
pub uninterp spec fn seeded_pick(seed: u64, len: nat) -> nat;

/// Makes a `rand::rngs::StdRng` with `seed_from_u64` and lets
/// `IndexedRandom::choose` pick from `items`. `choose` gives `None` for an
/// empty slice and otherwise the item at an index below the length; the
/// contract names that index.
#[verifier::external_body]
fn choose_seeded(items: &Vec<usize>, seed: u64) -> (r: Option<usize>)
    ensures
        items@.len() == 0 ==> r is None,
        items@.len() > 0 ==> r == Some(items@[seeded_pick(seed, items@.len()) as int]),
        r is Some ==> seeded_pick(seed, items@.len()) < items@.len(),
{
    let mut rng = rand::rngs::StdRng::seed_from_u64(seed);
    items.choose(&mut rng).copied()
}

/// Lets `IndexedRandom::choose` pick from `items` with the generator of the
/// current thread, `rand::rng()`. `choose` gives `None` for an empty slice
/// and otherwise one of the items; which one is not stated.
#[verifier::external_body]
fn choose_uniform(items: &Vec<usize>) -> (r: Option<usize>)
    ensures
        items@.len() == 0 ==> r is None,
        items@.len() > 0 ==> r is Some && items@.contains(r->Some_0),
{
    items.choose(&mut rand::rng()).copied()
}

/// The positions of the members that take part.
pub fn scope_positions<R: Record>(records: &Vec<R>, predicate: Predicate) -> (r: Vec<usize>)
    ensures
        r@.len() == candidates(records@, predicate).len(),
        forall|x: int| 0 <= x < r@.len() ==> r@[x] as int == candidates(records@, predicate)[x],
{
    let mut found: Vec<usize> = Vec::new();
    let mut n: usize = 0;
    while n < records.len()
        invariant
            n <= records.len(),
            found@.len() == positions(records@, predicate, n as int).len(),
            forall|x: int| 0 <= x < found@.len() ==> found@[x] as int == positions(records@, predicate, n as int)[x],
        decreases records.len() - n,
    {
        if predicate.accepts(&records[n]) {
            found.push(n);
        }
        n += 1;
    }
    found
}

/// Whether some record has the identifier `id`.
pub fn has_id<R: Record>(records: &Vec<R>, id: i32) -> (r: bool)
    ensures
        r == holds_id(records@, id as int),
{
    let mut i: usize = 0;
    while i < records.len()
        invariant
            i <= records.len(),
            forall|k: int| 0 <= k < i ==> records@[k].key() != id,
        decreases records.len() - i,
    {
        if records[i].id() == id {
            return true;
        }
        i += 1;
    }
    false
}

/// The position that the seeded pick for the member with identifier `basis`
/// falls on: `None` where no member takes part or no record has that
/// identifier. The draw is an index below the number of candidates, so the
/// remainder taken here is the draw itself; it is written out so that the
/// position is one of the candidates on the face of it.
pub open spec fn seeded_selection<R: Record>(records: Seq<R>, predicate: Predicate, basis: i32) -> Option<int> {
    let from = candidates(records, predicate);
    if from.len() == 0 || !holds_id(records, basis as int) {
        None
    } else {
        Some(from[(seeded_pick(seed_of(basis), from.len()) % from.len()) as int])
    }
}

/// A seeded pick falls on a member that takes part, and there is one
/// whenever a member takes part and the records hold the identifier that
/// the pick is seeded with.
pub proof fn seeded_selection_takes_part<R: Record>(records: Seq<R>, predicate: Predicate, basis: i32)
    ensures
        seeded_selection(records, predicate, basis) matches Some(j) ==> in_scope(records, predicate, j),
        seeded_selection(records, predicate, basis) is Some <==> holds_id(records, basis as int) && exists|i: int|
            in_scope(records, predicate, i),
{
    positions_are_the_scope(records, predicate, records.len() as int);
    let from = candidates(records, predicate);
    if from.len() > 0 {
        assert(in_scope(records, predicate, from[0]));
        let k = (seeded_pick(seed_of(basis), from.len()) % from.len()) as int;
        assert(0 <= k < from.len());
        assert(in_scope(records, predicate, from[k]));
    }
    if exists|i: int| in_scope(records, predicate, i) {
        let i = choose|i: int| in_scope(records, predicate, i);
        assert(from.contains(i));
    }
}

/// The value of a position that may be missing.
pub open spec fn position_view(position: Option<usize>) -> Option<int> {
    match position {
        Some(j) => Some(j as int),
        None => None,
    }
}

/// The position of a member picked at random among those that take part.
/// A uniform pick may fall on any of them and gives `None` only where there
/// is none. A seeded pick is [`seeded_selection`].
pub fn select_random_index<R: Record>(records: &Vec<R>, predicate: Predicate, mode: Mode) -> (r: Option<usize>)
    ensures
        match mode {
            Mode::Uniform => match r {
                Some(j) => in_scope(records@, predicate, j as int),
                None => forall|i: int| !in_scope(records@, predicate, i),
            },
            Mode::Seeded(basis) => position_view(r) == seeded_selection(records@, predicate, basis),
        },
        r matches Some(j) ==> in_scope(records@, predicate, j as int),
{
    let from = scope_positions(records, predicate);
    proof {
        positions_are_the_scope(records@, predicate, records@.len() as int);
    }
    match mode {
        Mode::Uniform => {
            let r = choose_uniform(&from);
            match r {
                Some(j) => {
                    let ghost x = choose|x: int| 0 <= x < from@.len() && from@[x] == j;
                    assert(from@[x] as int == candidates(records@, predicate)[x]);
                },
                None => {
                    assert forall|i: int| !in_scope(records@, predicate, i) by {
                        if in_scope(records@, predicate, i) {
                            assert(candidates(records@, predicate).contains(i));
                        }
                    }
                },
            }
            r
        },
        Mode::Seeded(basis) => {
            if !has_id(records, basis) {
                return None;
            }
            let r = choose_seeded(&from, seed_for(basis));
            proof {
                if r is Some {
                    let draw = seeded_pick(seed_of(basis), from@.len());
                    let len = from@.len();
                    assert(draw % len == draw) by (nonlinear_arith)
                        requires
                            draw < len,
                    ;
                    assert(from@[draw as int] as int == candidates(records@, predicate)[draw as int]);
                }
            }
            r
        },
    }
}

/// A member picked at random among those that take part. `None` says that
/// nothing was found: no member takes part, or the pick is seeded for a
/// member that the records do not hold.
pub fn select_random<'a, R: Record>(records: &'a Vec<R>, predicate: Predicate, mode: Mode) -> (r: Option<&'a R>)
    ensures
        match mode {
            Mode::Uniform => match r {
                Some(member) => exists|j: int| #[trigger]
                    in_scope(records@, predicate, j) && *member == records@[j],
                None => forall|i: int| !in_scope(records@, predicate, i),
            },
            Mode::Seeded(basis) => match seeded_selection(records@, predicate, basis) {
                Some(j) => r == Some(&records@[j]),
                None => r is None,
            },
        },
        r matches Some(member) ==> exists|j: int| #[trigger]
            in_scope(records@, predicate, j) && *member == records@[j],
{
    proof {
        positions_are_the_scope(records@, predicate, records@.len() as int);
    }
    match select_random_index(records, predicate, mode) {
        Some(j) => {
            assert(in_scope(records@, predicate, j as int));
            Some(&records[j])
        },
        None => None,
    }
}

/// Two seeded picks for the same member from the same records fall on the
/// same position, whenever they are made.
pub proof fn seeded_pick_repeats<R: Record>(
    records: Seq<R>,
    predicate: Predicate,
    basis: i32,
    first: Option<usize>,
    second: Option<usize>,
)
    requires
        position_view(first) == seeded_selection(records, predicate, basis),
        position_view(second) == seeded_selection(records, predicate, basis),
    ensures
        first == second,
{
}

} // verus!
