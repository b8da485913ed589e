//! Ordering the measured players for the report.
use vstd::prelude::*;

use crate::player::PlayerSpyer;

verus! {

/// A measured player: distance, health, and horizontal angle in degrees.
pub type PlayerData = (u32, u32, i32);

/// How many players the report shows at most.
pub const MAX_REPORTED_PLAYERS: usize = 25;

/// `s` with `x` placed after every element whose distance is at most that of
/// `x`, and before the rest (for `s` ordered by distance).
pub open spec fn insert_by_distance(x: PlayerData, s: Seq<PlayerData>) -> Seq<PlayerData>
    decreases s.len(),
{
    if s.len() == 0 {
        seq![x]
    } else if s.last().0 <= x.0 {
        s.push(x)
    } else {
        insert_by_distance(x, s.drop_last()).push(s.last())
    }
}

/// `s` ordered by distance, players at equal distance in their order in `s`.
pub open spec fn sort_by_distance(s: Seq<PlayerData>) -> Seq<PlayerData>
    decreases s.len(),
{
    if s.len() == 0 {
        s
    } else {
        insert_by_distance(s.last(), sort_by_distance(s.drop_last()))
    }
}

/// Whether `s` is ordered by distance.
pub open spec fn sorted_by_distance(s: Seq<PlayerData>) -> bool {
    forall|i: int, j: int| 0 <= i <= j < s.len() ==> s[i].0 <= s[j].0
}

/// The players that the report shows: the nearest `MAX_REPORTED_PLAYERS`,
/// nearest first.
pub open spec fn spec_reported_players(s: Seq<PlayerData>) -> Seq<PlayerData> {
    let sorted = sort_by_distance(s);
    if sorted.len() > MAX_REPORTED_PLAYERS {
        sorted.take(MAX_REPORTED_PLAYERS as int)
    } else {
        sorted
    }
}

proof fn lemma_insert_len(x: PlayerData, s: Seq<PlayerData>)
    ensures
        insert_by_distance(x, s).len() == s.len() + 1,
    decreases s.len(),
{
    if s.len() > 0 && s.last().0 > x.0 {
        lemma_insert_len(x, s.drop_last());
    }
}

/// Where every element from `j` on is farther than `x`, inserting `x` only
/// touches the part before `j`.
proof fn lemma_insert_split(x: PlayerData, s: Seq<PlayerData>, j: int)
    requires
        0 <= j <= s.len(),
        forall|k: int| j <= k < s.len() ==> s[k].0 > x.0,
    ensures
        insert_by_distance(x, s) == insert_by_distance(x, s.take(j)) + s.skip(j),
    decreases s.len() - j,
{
    if j == s.len() {
        assert(s.take(j) =~= s);
        assert(s.skip(j) =~= Seq::<PlayerData>::empty());
        assert(insert_by_distance(x, s) + Seq::<PlayerData>::empty() =~= insert_by_distance(x, s));
    } else {
        assert(s.last().0 > x.0);
        let t = s.drop_last();
        lemma_insert_split(x, t, j);
        assert(t.take(j) =~= s.take(j));
        assert(s.skip(j) =~= t.skip(j).push(s.last()));
        assert(insert_by_distance(x, s) == insert_by_distance(x, t).push(s.last()));
        assert((insert_by_distance(x, t.take(j)) + t.skip(j)).push(s.last()) =~= insert_by_distance(
            x,
            t.take(j),
        ) + t.skip(j).push(s.last()));
    }
}

/// Inserting keeps the order by distance.
proof fn lemma_insert_sorted(x: PlayerData, s: Seq<PlayerData>)
    requires
        sorted_by_distance(s),
    ensures
        sorted_by_distance(insert_by_distance(x, s)),
        insert_by_distance(x, s).to_multiset() == s.to_multiset().insert(x),
    decreases s.len(),
{
    broadcast use vstd::seq_lib::group_to_multiset_ensures;

    if s.len() == 0 {
        assert(seq![x] =~= Seq::<PlayerData>::empty().push(x));
    } else if s.last().0 <= x.0 {
    } else {
        let t = s.drop_last();
        assert(sorted_by_distance(t));
        lemma_insert_sorted(x, t);
        lemma_insert_len(x, t);
        let u = insert_by_distance(x, t);
        assert forall|i: int| 0 <= i < u.len() implies u[i].0 <= s.last().0 by {
            assert(u.to_multiset().count(u[i]) > 0);
            assert(t.to_multiset().insert(x).count(u[i]) > 0);
            if u[i] != x {
                assert(t.to_multiset().count(u[i]) > 0);
                assert(t.contains(u[i]));
            }
        }
        assert(s =~= t.push(s.last()));
    }
}

/// Sorting by distance orders the players and keeps each of them.
pub proof fn lemma_sort_by_distance(s: Seq<PlayerData>)
    ensures
        sorted_by_distance(sort_by_distance(s)),
        sort_by_distance(s).to_multiset() == s.to_multiset(),
        sort_by_distance(s).len() == s.len(),
    decreases s.len(),
{
    broadcast use vstd::seq_lib::group_to_multiset_ensures;

    if s.len() > 0 {
        let t = s.drop_last();
        lemma_sort_by_distance(t);
        lemma_insert_sorted(s.last(), sort_by_distance(t));
        lemma_insert_len(s.last(), sort_by_distance(t));
        assert(s =~= t.push(s.last()));
    }
}

/// The reported players are the nearest ones, nearest first: they are ordered
/// by distance, there are `MAX_REPORTED_PLAYERS` of them or all of them, each
/// is one of the measured players, and every player that the cut leaves out
/// is at least as far as every reported one.
pub proof fn lemma_reported_players(s: Seq<PlayerData>)
    ensures
        sorted_by_distance(spec_reported_players(s)),
        spec_reported_players(s).len() == if s.len() > MAX_REPORTED_PLAYERS {
            MAX_REPORTED_PLAYERS as nat
        } else {
            s.len()
        },
        spec_reported_players(s).to_multiset().subset_of(s.to_multiset()),
        forall|i: int, k: int|
            0 <= i < spec_reported_players(s).len() <= k < s.len() ==> #[trigger] spec_reported_players(
                s,
            )[i].0 <= #[trigger] sort_by_distance(s)[k].0,
        spec_reported_players(s).to_multiset().add(
            sort_by_distance(s).skip(spec_reported_players(s).len() as int).to_multiset(),
        ) == s.to_multiset(),
{
    broadcast use vstd::seq_lib::group_to_multiset_ensures;

    lemma_sort_by_distance(s);
    let sorted = sort_by_distance(s);
    if sorted.len() > MAX_REPORTED_PLAYERS {
        let r = sorted.take(MAX_REPORTED_PLAYERS as int);
        assert(sorted =~= r + sorted.skip(MAX_REPORTED_PLAYERS as int));
        vstd::seq_lib::lemma_multiset_commutative(r, sorted.skip(MAX_REPORTED_PLAYERS as int));
    } else {
        assert(sorted.skip(sorted.len() as int) =~= Seq::<PlayerData>::empty());
        vstd::seq_lib::lemma_multiset_commutative(sorted, Seq::<PlayerData>::empty());
        assert(sorted + Seq::<PlayerData>::empty() =~= sorted);
    }
}

/// Inserts `x` into `v`, which is ordered by distance, after every player at
/// most as far as `x`.
fn insert_player(v: &mut Vec<PlayerData>, x: PlayerData)
    ensures
        final(v)@ == insert_by_distance(x, old(v)@),
{
    let mut j = v.len();
    while j > 0 && v[j - 1].0 > x.0
        invariant
            j <= v@.len(),
            v@ == old(v)@,
            forall|k: int| j <= k < v@.len() ==> v@[k].0 > x.0,
        decreases j,
    {
        j = j - 1;
    }
    proof {
        lemma_insert_split(x, v@, j as int);
        let p = v@.take(j as int);
        if j > 0 {
            assert(p.last() == v@[j - 1]);
        }
        assert(insert_by_distance(x, p) == p.push(x));
    }
    v.insert(j, x);
    proof {
        assert(v@ =~= old(v)@.take(j as int).push(x) + old(v)@.skip(j as int));
    }
}

impl PlayerSpyer {
    /// The players that the report shows: the measured players ordered by
    /// distance, players at equal distance in the order they were measured,
    /// cut to the nearest `MAX_REPORTED_PLAYERS`.
    pub fn reported_players(&self, players: Vec<PlayerData>) -> (r: Vec<PlayerData>)
        ensures
            r@ == spec_reported_players(players@),
    {
        let mut sorted: Vec<PlayerData> = Vec::new();
        let mut i: usize = 0;
        while i < players.len()
            invariant
                i <= players@.len(),
                sorted@ == sort_by_distance(players@.take(i as int)),
            decreases players@.len() - i,
        {
            proof {
                assert(players@.take(i + 1).drop_last() =~= players@.take(i as int));
                assert(players@.take(i + 1).last() == players@[i as int]);
            }
            insert_player(&mut sorted, players[i]);
            i = i + 1;
        }
        proof {
            assert(players@.take(i as int) =~= players@);
        }
        if sorted.len() > MAX_REPORTED_PLAYERS {
            sorted.truncate(MAX_REPORTED_PLAYERS);
        }
        sorted
    }
}

} // verus!
