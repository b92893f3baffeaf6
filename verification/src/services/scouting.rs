//! Scouting: a contest of speed between the scouts and the garrison.

use vstd::prelude::*;
use crate::models::army::ArmyTroops;
use crate::models::troop::{catalog_wf, TroopDefinition, TroopType, TROOP_KINDS};
use crate::numeric::min_int;
use crate::services::army_service::ArmyService;
use crate::services::combat::{speed_of, weigh_stats, weighted_sum, StatTable};

verus! {

/// Speed of each kind.
pub open spec fn speed_weights(defs: Seq<TroopDefinition>) -> Seq<int> {
    Seq::new(TROOP_KINDS as nat, |i: int| speed_of(defs, TroopType::at(i)))
}

/// Scout power of a side: the sum of speed times count.
pub open spec fn scout_power(troops: ArmyTroops, defs: Seq<TroopDefinition>) -> int {
    weighted_sum(troops.counts@, speed_weights(defs), TROOP_KINDS as int)
}

/// The scouts succeed where their share of both powers is above 0.4, and
/// where nobody has any power.
pub open spec fn scout_succeeds(a: int, d: int) -> bool {
    a + d == 0 || 5 * a > 2 * (a + d)
}

/// `ceil(x / y)` for a positive `y` and an `x` that is not negative.
pub open spec fn ceil_div(x: int, y: int) -> int {
    (x + y - 1) / y
}

/// Scouts lost out of `count`, at powers `a` of the scouts and `d` of the
/// garrison. With `ratio = a / (a + d)`, successful scouts lose the share
/// `(1 - ratio) * 0.8`, failed ones `0.9 + (1 - ratio) * 0.1`; against no
/// power nobody is lost.
pub open spec fn scouts_lost(count: int, a: int, d: int) -> int {
    if d <= 0 {
        0
    } else if scout_succeeds(a, d) {
        min_int(count, ceil_div(count * (4 * d), 5 * (a + d)))
    } else {
        min_int(count, ceil_div(count * (9 * a + 10 * d), 10 * (a + d)))
    }
}

/// Defenders lost out of `count`: the share `ratio * 0.5` against successful
/// scouts, a tenth against failed ones.
pub open spec fn defenders_lost(count: int, a: int, d: int) -> int {
    if d <= 0 {
        0
    } else if scout_succeeds(a, d) {
        min_int(count, ceil_div(count * a, 2 * (a + d)))
    } else {
        min_int(count, ceil_div(count, 10))
    }
}

/// Share of `losses` that falls on `count` out of `total`, rounded up and
/// never more than `count`.
pub open spec fn loss_share(count: int, losses: int, total: int) -> int {
    if total <= 0 || losses <= 0 || count <= 0 {
        0
    } else {
        min_int(count, ceil_div(losses * count, total))
    }
}

pub fn ceil_div_u128(x: u128, y: u128) -> (r: u128)
    requires
        y > 0,
        x + y <= u128::MAX,
    ensures
        r == ceil_div(x as int, y as int),
{
    (x + y - 1) / y
}

/// Computes `loss_share`.
pub fn loss_share_of(count: i32, losses: i64, total: i64) -> (r: i32)
    requires
        count >= 0,
    ensures
        r == loss_share(count as int, losses as int, total as int),
        0 <= r <= count,
{
    if total <= 0 || losses <= 0 || count <= 0 {
        return 0;
    }
    assert(0 <= losses as int * count as int <= 0x7fff_ffff_ffff_ffff * 0x7fff_ffff)
        by (nonlinear_arith)
        requires
            0 <= losses <= 0x7fff_ffff_ffff_ffff,
            0 <= count <= 0x7fff_ffff,
    ;
    let q = ceil_div_u128(losses as u128 * count as u128, total as u128);
    if q > count as u128 {
        count
    } else {
        q as i32
    }
}

/// How a scouting ends, in numbers.
#[derive(Debug, Clone, Copy, PartialEq, Eq, Structural)]
pub struct ScoutResult {
    pub success: bool,
    pub attacker_losses: i64,
    pub defender_losses: i64,
}

impl ArmyService {
    /// Scout power of a side.
    pub fn calculate_scout_power(troops: &ArmyTroops, definitions: &Vec<TroopDefinition>) -> (r:
        u128)
        requires
            troops.wf(),
            catalog_wf(definitions@),
        ensures
            r == scout_power(*troops, definitions@),
            r <= 19 * 0x4000_0000_0000_0000,
    {
        let table = StatTable::from_catalog(definitions);
        proof {
            assert forall|i: int| 0 <= i < TROOP_KINDS implies table.speed@[i] >= 0
                && table.speed@[i] == speed_weights(definitions@)[i] by {
                assert(table.row_ok(definitions@, i));
            }
            assert(table.speed@.map_values(|w: i32| w as int) =~= speed_weights(definitions@));
        }
        weigh_stats(&troops.counts, &table.speed)
    }

    /// Decides a scouting between sides of the given head counts and powers.
    pub fn resolve_scouting(
        attacker_count: i64,
        defender_count: i64,
        attacker_power: u128,
        defender_power: u128,
    ) -> (r: ScoutResult)
        requires
            0 <= attacker_count <= 19 * 0x7fff_ffff,
            0 <= defender_count <= 19 * 0x7fff_ffff,
            attacker_power <= 19 * 0x4000_0000_0000_0000,
            defender_power <= 19 * 0x4000_0000_0000_0000,
        ensures
            r.success == scout_succeeds(attacker_power as int, defender_power as int),
            r.attacker_losses == scouts_lost(
                attacker_count as int,
                attacker_power as int,
                defender_power as int,
            ),
            r.defender_losses == defenders_lost(
                defender_count as int,
                attacker_power as int,
                defender_power as int,
            ),
            0 <= r.attacker_losses <= attacker_count,
            0 <= r.defender_losses <= defender_count,
    {
        let a = attacker_power;
        let d = defender_power;
        let both = a + d;
        let success = both == 0 || 5 * a > 2 * both;
        if d == 0 {
            return ScoutResult { success, attacker_losses: 0, defender_losses: 0 };
        }
        let ca = attacker_count as u128;
        let cd = defender_count as u128;
        let lost_a: u128;
        let lost_d: u128;
        if success {
            assert(ca * (4 * d) <= (19 * 0x7fff_ffff) * (4 * (19 * 0x4000_0000_0000_0000)))
                by (nonlinear_arith)
                requires
                    ca <= 19 * 0x7fff_ffff,
                    d <= 19 * 0x4000_0000_0000_0000,
            ;
            assert(cd * a <= (19 * 0x7fff_ffff) * (19 * 0x4000_0000_0000_0000)) by (nonlinear_arith)
                requires
                    cd <= 19 * 0x7fff_ffff,
                    a <= 19 * 0x4000_0000_0000_0000,
            ;
            lost_a = ceil_div_u128(ca * (4 * d), 5 * both);
            lost_d = ceil_div_u128(cd * a, 2 * both);
        } else {
            assert(ca * (9 * a + 10 * d) <= (19 * 0x7fff_ffff) * (19 * (19 * 0x4000_0000_0000_0000)))
                by (nonlinear_arith)
                requires
                    ca <= 19 * 0x7fff_ffff,
                    9 * a + 10 * d <= 19 * (19 * 0x4000_0000_0000_0000),
            ;
            lost_a = ceil_div_u128(ca * (9 * a + 10 * d), 10 * both);
            lost_d = ceil_div_u128(cd, 10);
        }
        ScoutResult {
            success,
            attacker_losses: if lost_a > ca {
                attacker_count
            } else {
                lost_a as i64
            },
            defender_losses: if lost_d > cd {
                defender_count
            } else {
                lost_d as i64
            },
        }
    }

    /// The scouts of each kind that are left after `total_losses` out of
    /// `total_count`: every kind bears its share of the losses, rounded up.
    pub fn calculate_scout_survivors(troops: &ArmyTroops, total_losses: i64, total_count: i64) -> (r:
        ArmyTroops)
        requires
            troops.wf(),
        ensures
            r.wf(),
            forall|t: TroopType|
                #[trigger] r.count(t) == troops.count(t) - loss_share(
                    troops.count(t),
                    total_losses as int,
                    total_count as int,
                ),
    {
        let mut out: Vec<i32> = Vec::new();
        let mut i: usize = 0;
        while i < TROOP_KINDS
            invariant
                troops.wf(),
                i <= TROOP_KINDS,
                out@.len() == i,
                forall|j: int|
                    0 <= j < i ==> #[trigger] out@[j] == troops.counts@[j] - loss_share(
                        troops.counts@[j] as int,
                        total_losses as int,
                        total_count as int,
                    ),
            decreases TROOP_KINDS - i,
        {
            let n = troops.counts[i];
            let l = loss_share_of(n, total_losses, total_count);
            out.push(n - l);
            i = i + 1;
        }
        let r = ArmyTroops { counts: out };
        proof {
            TroopType::lemma_ordinal_at();
            assert forall|t: TroopType|
                #[trigger] r.count(t) == troops.count(t) - loss_share(
                    troops.count(t),
                    total_losses as int,
                    total_count as int,
                ) by {
                assert(r.counts@[t.ordinal()] == troops.counts@[t.ordinal()] - loss_share(
                    troops.counts@[t.ordinal()] as int,
                    total_losses as int,
                    total_count as int,
                ));
            }
        }
        r
    }
}

} // verus!
