//! Player turn rotation and the victory condition.
//!
//! Players take turns in a fixed order.  When a turn ends, the rotation
//! advances to the next player in order who still owns a base — an
//! eliminated player is never selected — and that player's own base index
//! advances, wrapping over their owned bases.  The game ends as soon as at
//! most one player still owns a base.

use vstd::prelude::*;

use crate::consts::MAX_PLAYERS;
use crate::entities::{World, Player};

verus! {

/// The fixed order in which players take turns, and whose turn it is.
#[derive(Clone, Debug)]
pub struct PlayerOrder {
    /// Player slots, in seating order.
    pub order: Vec<usize>,
    /// Index into `order` of the player whose turn is under way.
    pub current: usize,
}

impl PlayerOrder {
    pub open spec fn wf(self, nplayers: int) -> bool {
        0 < self.order@.len() <= MAX_PLAYERS && self.current < self.order@.len() && forall|j: int|
            0 <= j < self.order@.len() ==> (#[trigger] self.order@[j]) < nplayers
    }
}

/// The seat the rotation reaches after the current one: the first of the
/// `k`th and later successors whose player still owns a base, if any.
pub open spec fn snext_live(
    players: Seq<Player>,
    order: Seq<usize>,
    current: int,
    k: int,
) -> Option<int>
    decreases order.len() + 1 - k,
{
    if k > order.len() || k < 1 {
        None
    } else {
        let j = (current + k) % (order.len() as int);
        if players[order[j] as int].bases@.len() > 0 {
            Some(j)
        } else {
            snext_live(players, order, current, k + 1)
        }
    }
}

/// The rotating base index a player shows after taking a turn.
pub open spec fn snext_base_index(p: Player) -> int {
    if p.current_base + 1 >= p.bases@.len() {
        0
    } else {
        p.current_base + 1
    }
}

/// Advance the rotation to the next player who still owns a base,
/// skipping eliminated players, advance that player's own base index
/// (wrapping), and return the base the new turn starts on.  Returns
/// nothing — and changes nothing — when no player owns a base any more.
#[verifier::rlimit(60)]
pub fn next_turn(order: &mut PlayerOrder, world: &mut World) -> (r: Option<usize>)
    requires
        old(world).wf(),
        old(order).wf(old(world).players@.len() as int),
    ensures
        final(world).wf(),
        final(order).wf(final(world).players@.len() as int),
        final(order).order@ == old(order).order@,
        final(world).asteroids == old(world).asteroids,
        final(world).bases == old(world).bases,
        final(world).weapons == old(world).weapons,
        old(world).healthy() ==> final(world).healthy(),
        ({
            let sel = snext_live(old(world).players@, old(order).order@, old(order).current as int, 1);
            match sel {
                Some(j) => {
                    let pid = old(order).order@[j];
                    let p = old(world).players@[pid as int];
                    let cb = snext_base_index(p);
                    &&& final(order).current == j
                    &&& r == Some(p.bases@[cb])
                    &&& p.bases@.len() > 0
                    &&& final(world).players@.len() == old(world).players@.len()
                    &&& final(world).players@[pid as int] == (Player { current_base: cb as usize, ..p })
                    &&& forall|q: int|
                        0 <= q < final(world).players@.len() && q != pid
                            ==> final(world).players@[q] == old(world).players@[q]
                    &&& final(world).bases@[p.bases@[cb] as int].alive
                    &&& final(world).bases@[p.bases@[cb] as int].player == pid
                },
                None => {
                    &&& r == None::<usize>
                    &&& final(world).players == old(world).players
                    &&& final(order).current == old(order).current
                },
            }
        }),
{
    let len = order.order.len();
    let mut k: usize = 1;
    while k <= len
        invariant
            world.wf(),
            old(world).wf(),
            world == old(world),
            order.order@ == old(order).order@,
            order.current == old(order).current,
            order.wf(world.players@.len() as int),
            len == order.order@.len(),
            1 <= k <= len + 1,
            snext_live(world.players@, order.order@, order.current as int, 1) == snext_live(
                world.players@,
                order.order@,
                order.current as int,
                k as int,
            ),
        decreases len + 1 - k,
    {
        let j = (order.current + k) % len;
        let pid = order.order[j];
        if world.players[pid].bases.len() > 0 {
            proof {
                assert(snext_live(world.players@, order.order@, order.current as int, k as int)
                    == Some(j as int));
            }
            order.current = j;
            let p = vstd::std_specs::vec::vec_index_mut(&mut world.players, pid);
            let mut cb = p.current_base + 1;
            if cb >= p.bases.len() {
                cb = 0;
            }
            p.current_base = cb;
            let b = p.bases[cb];
            proof {
                assert forall|q: int|
                    0 <= q < world.players@.len() implies (#[trigger] world.players@[q]).wf(
                    world.bases@.len() as int,
                ) by {
                    if q != pid {
                        assert(world.players@[q] == old(world).players@[q]);
                    } else {
                        assert(world.players@[q].bases@ == old(world).players@[q].bases@);
                    }
                }
                assert forall|q: int, kk: int|
                    0 <= q < world.players@.len() && 0 <= kk
                        < world.players@[q].bases@.len() implies {
                    let bb = #[trigger] world.players@[q].bases@[kk];
                    world.bases@[bb as int].alive && world.bases@[bb as int].player == q
                } by {
                    if q != pid {
                        assert(world.players@[q] == old(world).players@[q]);
                    } else {
                        assert(world.players@[q].bases@ == old(world).players@[q].bases@);
                    }
                }
            }
            return Some(b);
        }
        k = k + 1;
    }
    None
}

/// How many of the first `n` players still own a base.
pub open spec fn scount_owners(players: Seq<Player>, n: int) -> int
    decreases n,
{
    if n <= 0 {
        0
    } else {
        scount_owners(players, n - 1) + if players[n - 1].bases@.len() > 0 {
            1int
        } else {
            0int
        }
    }
}

/// Count the players who still own a base and name the first of them.
/// The game is over exactly when the count is at most one: the named
/// player is then the winner, or their absence a draw.
pub fn victory_check(world: &World) -> (r: (usize, Option<usize>))
    requires
        world.wf(),
    ensures
        r.0 == scount_owners(world.players@, world.players@.len() as int),
        match r.1 {
            Some(p) => p < world.players@.len() && world.players@[p as int].bases@.len() > 0
                && forall|q: int| 0 <= q < p ==> world.players@[q].bases@.len() == 0,
            None => forall|q: int|
                0 <= q < world.players@.len() ==> world.players@[q].bases@.len() == 0,
        },
{
    let mut count: usize = 0;
    let mut winner: Option<usize> = None;
    let n = world.players.len();
    let mut p: usize = 0;
    while p < n
        invariant
            world.wf(),
            n == world.players@.len(),
            p <= n,
            count == scount_owners(world.players@, p as int),
            count <= p,
            match winner {
                Some(w) => w < p && world.players@[w as int].bases@.len() > 0 && forall|q: int|
                    0 <= q < w ==> world.players@[q].bases@.len() == 0,
                None => forall|q: int| 0 <= q < p ==> world.players@[q].bases@.len() == 0,
            },
        decreases n - p,
    {
        if world.players[p].bases.len() > 0 {
            count = count + 1;
            if winner.is_none() {
                winner = Some(p);
            }
        }
        p = p + 1;
    }
    (count, winner)
}

/// The rotation's choice depends only on who still owns bases.
pub proof fn lemma_snext_live_same_bases(
    p1: Seq<Player>,
    p2: Seq<Player>,
    order: Seq<usize>,
    current: int,
    k: int,
)
    requires
        p1.len() == p2.len(),
        forall|i: int| 0 <= i < p1.len() ==> p1[i].bases@ == p2[i].bases@,
        forall|j: int| 0 <= j < order.len() ==> (#[trigger] order[j]) < p1.len(),
    ensures
        snext_live(p1, order, current, k) == snext_live(p2, order, current, k),
    decreases order.len() + 1 - k,
{
    if !(k > order.len() || k < 1) {
        lemma_snext_live_same_bases(p1, p2, order, current, k + 1);
    }
}

/// The owner count likewise depends only on who still owns bases.
pub proof fn lemma_scount_same_bases(p1: Seq<Player>, p2: Seq<Player>, n: int)
    requires
        p1.len() == p2.len(),
        forall|i: int| 0 <= i < p1.len() ==> p1[i].bases@ == p2[i].bases@,
        n <= p1.len(),
    ensures
        scount_owners(p1, n) == scount_owners(p2, n),
    decreases n,
{
    if n > 0 {
        lemma_scount_same_bases(p1, p2, n - 1);
    }
}

} // verus!
