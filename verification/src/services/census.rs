//! Counting the troops of a village: those at home, those on the way in
//! its armies, and those still in training. Training raises the count,
//! battles lower it, and nothing else changes it.

use vstd::prelude::*;
use crate::models::army::Army;
use crate::models::troop::{Garrison, TroopQueue, TroopType};

verus! {

/// Sum of a sequence of numbers.
pub open spec fn total(s: Seq<int>) -> int
    decreases s.len(),
{
    if s.len() == 0 {
        0
    } else {
        total(s.drop_last()) + s.last()
    }
}

pub proof fn lemma_total_push(s: Seq<int>, x: int)
    ensures
        total(s.push(x)) == total(s) + x,
{
    assert(s.push(x).drop_last() =~= s);
}

pub proof fn lemma_total_remove(s: Seq<int>, k: int)
    requires
        0 <= k < s.len(),
    ensures
        total(s.remove(k)) == total(s) - s[k],
    decreases s.len(),
{
    if k == s.len() - 1 {
        assert(s.remove(k) =~= s.drop_last());
    } else {
        lemma_total_remove(s.drop_last(), k);
        assert(s.remove(k).drop_last() =~= s.drop_last().remove(k));
        assert(s.remove(k).last() == s.last());
    }
}

pub proof fn lemma_total_update(s: Seq<int>, k: int, v: int)
    requires
        0 <= k < s.len(),
    ensures
        total(s.update(k, v)) == total(s) - s[k] + v,
    decreases s.len(),
{
    if k == s.len() - 1 {
        assert(s.update(k, v).drop_last() =~= s.drop_last());
    } else {
        lemma_total_update(s.drop_last(), k, v);
        assert(s.update(k, v).drop_last() =~= s.drop_last().update(k, v));
    }
}

/// Troops of a kind in each of some armies.
pub open spec fn in_armies(armies: Seq<Army>, t: TroopType) -> Seq<int> {
    armies.map_values(|a: Army| a.troops.count(t))
}

/// Troops of a kind that each batch of a queue still holds.
pub open spec fn in_batches(queue: Seq<TroopQueue>, t: TroopType) -> Seq<int> {
    queue.map_values(
        |q: TroopQueue|
            if q.troop_type == t {
                q.count as int
            } else {
                0
            },
    )
}

/// All troops of a kind that belong to a village: those at home, those in
/// the armies that it sent, and those that its queue will train.
pub open spec fn census(
    garrison: Garrison,
    armies: Seq<Army>,
    queue: Seq<TroopQueue>,
    t: TroopType,
) -> int {
    garrison.home.count(t) + total(in_armies(armies, t)) + total(in_batches(queue, t))
}

/// Sending an army moves troops from home into the army: the census stays.
pub proof fn lemma_dispatch_keeps_census(
    before: Garrison,
    after: Garrison,
    armies: Seq<Army>,
    queue: Seq<TroopQueue>,
    army: Army,
    t: TroopType,
)
    requires
        after.home.count(t) + army.troops.count(t) == before.home.count(t),
    ensures
        census(after, armies.push(army), queue, t) == census(before, armies, queue, t),
{
    assert(in_armies(armies.push(army), t) =~= in_armies(armies, t).push(army.troops.count(t)));
    lemma_total_push(in_armies(armies, t), army.troops.count(t));
}

/// An army that comes home with all its troops leaves the census as it is.
pub proof fn lemma_return_keeps_census(
    before: Garrison,
    after: Garrison,
    armies: Seq<Army>,
    queue: Seq<TroopQueue>,
    k: int,
    t: TroopType,
)
    requires
        0 <= k < armies.len(),
        after.home.count(t) == before.home.count(t) + armies[k].troops.count(t),
    ensures
        census(after, armies.remove(k), queue, t) == census(before, armies, queue, t),
{
    assert(in_armies(armies.remove(k), t) =~= in_armies(armies, t).remove(k));
    lemma_total_remove(in_armies(armies, t), k);
}

/// An order for troops raises the census of its kind by the size of the
/// batch, and lowers no census.
pub proof fn lemma_training_raises_census(
    garrison: Garrison,
    armies: Seq<Army>,
    queue: Seq<TroopQueue>,
    batch: TroopQueue,
    t: TroopType,
)
    requires
        batch.count >= 0,
    ensures
        census(garrison, armies, queue.push(batch), t) == census(garrison, armies, queue, t)
            + if batch.troop_type == t {
            batch.count as int
        } else {
            0
        },
        census(garrison, armies, queue.push(batch), t) >= census(garrison, armies, queue, t),
{
    let x: int = if batch.troop_type == t {
        batch.count as int
    } else {
        0
    };
    assert(in_batches(queue.push(batch), t) =~= in_batches(queue, t).push(x));
    lemma_total_push(in_batches(queue, t), x);
}

/// Trained units move from their batch into the garrison: the census
/// stays, whether the batch shrinks or leaves the queue.
pub proof fn lemma_drain_keeps_census(
    before: Garrison,
    after: Garrison,
    armies: Seq<Army>,
    queue: Seq<TroopQueue>,
    k: int,
    kept: Option<TroopQueue>,
    units: int,
    t: TroopType,
)
    requires
        0 <= k < queue.len(),
        match kept {
            Some(rest) => rest.troop_type == queue[k].troop_type && rest.count + units
                == queue[k].count,
            None => units == queue[k].count,
        },
        after.home.count(t) == before.home.count(t) + if queue[k].troop_type == t {
            units
        } else {
            0
        },
    ensures
        census(
            after,
            armies,
            match kept {
                Some(rest) => queue.update(k, rest),
                None => queue.remove(k),
            },
            t,
        ) == census(before, armies, queue, t),
{
    match kept {
        Some(rest) => {
            let x: int = if rest.troop_type == t {
                rest.count as int
            } else {
                0
            };
            assert(in_batches(queue.update(k, rest), t) =~= in_batches(queue, t).update(k, x));
            lemma_total_update(in_batches(queue, t), k, x);
        },
        None => {
            assert(in_batches(queue.remove(k), t) =~= in_batches(queue, t).remove(k));
            lemma_total_remove(in_batches(queue, t), k);
        },
    }
}

/// A battle lowers the census of the defending village by what its
/// garrison lost, and by nothing else.
pub proof fn lemma_battle_lowers_census(
    before: Garrison,
    after: Garrison,
    armies: Seq<Army>,
    queue: Seq<TroopQueue>,
    losses: int,
    t: TroopType,
)
    requires
        losses >= 0,
        after.home.count(t) == before.home.count(t) - losses,
    ensures
        census(after, armies, queue, t) == census(before, armies, queue, t) - losses,
        census(after, armies, queue, t) <= census(before, armies, queue, t),
{
}

/// An army that loses troops in a battle lowers the census of its village
/// by what it lost.
pub proof fn lemma_army_losses_lower_census(
    garrison: Garrison,
    armies: Seq<Army>,
    queue: Seq<TroopQueue>,
    k: int,
    survivors: Army,
    losses: int,
    t: TroopType,
)
    requires
        0 <= k < armies.len(),
        losses >= 0,
        survivors.troops.count(t) == armies[k].troops.count(t) - losses,
    ensures
        census(garrison, armies.update(k, survivors), queue, t) == census(
            garrison,
            armies,
            queue,
            t,
        ) - losses,
{
    assert(in_armies(armies.update(k, survivors), t) =~= in_armies(armies, t).update(
        k,
        survivors.troops.count(t),
    ));
    lemma_total_update(in_armies(armies, t), k, survivors.troops.count(t));
}

/// The troops of a kind that a village has away are those in its armies.
pub open spec fn away_are_marching(garrison: Garrison, armies: Seq<Army>, t: TroopType) -> bool {
    garrison.away(t) == total(in_armies(armies, t))
}

/// Sending an army keeps the troops away and the troops in the armies the
/// same.
pub proof fn lemma_dispatch_keeps_away_marching(
    before: Garrison,
    after: Garrison,
    armies: Seq<Army>,
    army: Army,
    t: TroopType,
)
    requires
        away_are_marching(before, armies, t),
        after.owned.count(t) == before.owned.count(t),
        after.home.count(t) + army.troops.count(t) == before.home.count(t),
    ensures
        away_are_marching(after, armies.push(army), t),
{
    assert(in_armies(armies.push(army), t) =~= in_armies(armies, t).push(army.troops.count(t)));
    lemma_total_push(in_armies(armies, t), army.troops.count(t));
}

/// An army that comes home keeps them the same.
pub proof fn lemma_return_keeps_away_marching(
    before: Garrison,
    after: Garrison,
    armies: Seq<Army>,
    k: int,
    t: TroopType,
)
    requires
        away_are_marching(before, armies, t),
        0 <= k < armies.len(),
        after.owned.count(t) == before.owned.count(t),
        after.home.count(t) == before.home.count(t) + armies[k].troops.count(t),
    ensures
        away_are_marching(after, armies.remove(k), t),
{
    assert(in_armies(armies.remove(k), t) =~= in_armies(armies, t).remove(k));
    lemma_total_remove(in_armies(armies, t), k);
}

/// An army that loses troops keeps them the same, once the fallen are taken
/// out of what its village owns.
pub proof fn lemma_settled_losses_keep_away_marching(
    before: Garrison,
    after: Garrison,
    armies: Seq<Army>,
    k: int,
    survivors: Army,
    losses: int,
    t: TroopType,
)
    requires
        away_are_marching(before, armies, t),
        0 <= k < armies.len(),
        survivors.troops.count(t) == armies[k].troops.count(t) - losses,
        after.away(t) == before.away(t) - losses,
    ensures
        away_are_marching(after, armies.update(k, survivors), t),
{
    assert(in_armies(armies.update(k, survivors), t) =~= in_armies(armies, t).update(
        k,
        survivors.troops.count(t),
    ));
    lemma_total_update(in_armies(armies, t), k, survivors.troops.count(t));
}

/// An army that falls to the last troop keeps them the same, once the
/// fallen are taken out of what its village owns.
pub proof fn lemma_settled_wipe_out_keeps_away_marching(
    before: Garrison,
    after: Garrison,
    armies: Seq<Army>,
    k: int,
    t: TroopType,
)
    requires
        away_are_marching(before, armies, t),
        0 <= k < armies.len(),
        after.away(t) == before.away(t) - armies[k].troops.count(t),
    ensures
        away_are_marching(after, armies.remove(k), t),
{
    assert(in_armies(armies.remove(k), t) =~= in_armies(armies, t).remove(k));
    lemma_total_remove(in_armies(armies, t), k);
}

} // verus!
