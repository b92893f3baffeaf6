//! The battle formula, over exact integers.
//!
//! Powers are sums of count times stat, walked in the canonical order of the
//! troop kinds. The shares of infantry and cavalry in the attack weigh the
//! two defense values of each defender. Ratios of powers are kept as
//! fractions, so that every loss is the exact floor of the formula.

use vstd::prelude::*;
use crate::bignat::BigNat;
use crate::models::army::{ArmyTroops, MissionType};
use crate::services::army_service::ArmyService;
use crate::models::troop::{
    catalog_wf, entry_of, find_definition, TroopDefinition, TroopType, TROOP_KINDS,
};
use crate::numeric::{capped_quotient, capped_root_quotient, isqrt, min_int};

verus! {

/// The stats of the kinds, one column per stat, in canonical order. A kind
/// without a catalog entry has zeros.
pub struct StatTable {
    pub present: Vec<bool>,
    pub attack: Vec<i32>,
    pub defense_infantry: Vec<i32>,
    pub defense_cavalry: Vec<i32>,
    pub speed: Vec<i32>,
    pub carry_capacity: Vec<i32>,
    pub loyalty_reduction: Vec<i32>,
}

pub open spec fn has_entry(defs: Seq<TroopDefinition>, t: TroopType) -> bool {
    entry_of(defs, t).is_some()
}

pub open spec fn attack_of(defs: Seq<TroopDefinition>, t: TroopType) -> int {
    match entry_of(defs, t) {
        Some(i) => defs[i].attack as int,
        None => 0,
    }
}

pub open spec fn defense_infantry_of(defs: Seq<TroopDefinition>, t: TroopType) -> int {
    match entry_of(defs, t) {
        Some(i) => defs[i].defense_infantry as int,
        None => 0,
    }
}

pub open spec fn defense_cavalry_of(defs: Seq<TroopDefinition>, t: TroopType) -> int {
    match entry_of(defs, t) {
        Some(i) => defs[i].defense_cavalry as int,
        None => 0,
    }
}

pub open spec fn speed_of(defs: Seq<TroopDefinition>, t: TroopType) -> int {
    match entry_of(defs, t) {
        Some(i) => defs[i].speed as int,
        None => 0,
    }
}

pub open spec fn carry_of(defs: Seq<TroopDefinition>, t: TroopType) -> int {
    match entry_of(defs, t) {
        Some(i) => defs[i].carry_capacity as int,
        None => 0,
    }
}

pub open spec fn loyalty_reduction_of(defs: Seq<TroopDefinition>, t: TroopType) -> int {
    match entry_of(defs, t) {
        Some(i) => defs[i].loyalty_reduction as int,
        None => 0,
    }
}

impl StatTable {
    /// Row `i` of the table holds what the catalog says of kind `i`.
    pub open spec fn row_ok(&self, defs: Seq<TroopDefinition>, i: int) -> bool {
        let t = TroopType::at(i);
        &&& self.present@[i] == has_entry(defs, t)
        &&& self.attack@[i] == attack_of(defs, t)
        &&& self.defense_infantry@[i] == defense_infantry_of(defs, t)
        &&& self.defense_cavalry@[i] == defense_cavalry_of(defs, t)
        &&& self.speed@[i] == speed_of(defs, t)
        &&& self.carry_capacity@[i] == carry_of(defs, t)
        &&& self.loyalty_reduction@[i] == loyalty_reduction_of(defs, t)
        &&& self.attack@[i] >= 0
        &&& self.defense_infantry@[i] >= 0
        &&& self.defense_cavalry@[i] >= 0
        &&& self.speed@[i] >= 0
        &&& self.carry_capacity@[i] >= 0
        &&& self.loyalty_reduction@[i] >= 0
        &&& (self.present@[i] ==> self.speed@[i] >= 1)
    }

    pub open spec fn rows(&self, n: int) -> bool {
        &&& self.present@.len() == n
        &&& self.attack@.len() == n
        &&& self.defense_infantry@.len() == n
        &&& self.defense_cavalry@.len() == n
        &&& self.speed@.len() == n
        &&& self.carry_capacity@.len() == n
        &&& self.loyalty_reduction@.len() == n
    }

    /// The table holds, for every kind, what the catalog says of it.
    pub open spec fn matches_catalog(&self, defs: Seq<TroopDefinition>) -> bool {
        &&& self.rows(TROOP_KINDS as int)
        &&& forall|i: int| 0 <= i < TROOP_KINDS ==> #[trigger] self.row_ok(defs, i)
    }

    /// Reads the catalog once, kind by kind.
    pub fn from_catalog(defs: &Vec<TroopDefinition>) -> (r: StatTable)
        requires
            catalog_wf(defs@),
        ensures
            r.matches_catalog(defs@),
    {
        let mut r = StatTable {
            present: Vec::new(),
            attack: Vec::new(),
            defense_infantry: Vec::new(),
            defense_cavalry: Vec::new(),
            speed: Vec::new(),
            carry_capacity: Vec::new(),
            loyalty_reduction: Vec::new(),
        };
        let mut i: usize = 0;
        while i < TROOP_KINDS
            invariant
                catalog_wf(defs@),
                i <= TROOP_KINDS,
                r.rows(i as int),
                forall|j: int| 0 <= j < i ==> #[trigger] r.row_ok(defs@, j),
            decreases TROOP_KINDS - i,
        {
            let t = TroopType::from_index(i);
            let ghost before = r;
            match find_definition(defs, t) {
                Some(k) => {
                    let d = &defs[k];
                    r.present.push(true);
                    r.attack.push(d.attack);
                    r.defense_infantry.push(d.defense_infantry);
                    r.defense_cavalry.push(d.defense_cavalry);
                    r.speed.push(d.speed);
                    r.carry_capacity.push(d.carry_capacity);
                    r.loyalty_reduction.push(d.loyalty_reduction);
                },
                None => {
                    r.present.push(false);
                    r.attack.push(0);
                    r.defense_infantry.push(0);
                    r.defense_cavalry.push(0);
                    r.speed.push(0);
                    r.carry_capacity.push(0);
                    r.loyalty_reduction.push(0);
                },
            }
            proof {
                assert(r.row_ok(defs@, i as int));
                assert forall|j: int| 0 <= j < i implies #[trigger] r.row_ok(defs@, j) by {
                    assert(before.row_ok(defs@, j));
                }
            }
            i = i + 1;
        }
        r
    }
}

/// Sum of count times weight over the first `n` kinds.
pub open spec fn weighted_sum(counts: Seq<i32>, weights: Seq<int>, n: int) -> int
    decreases n,
{
    if n <= 0 {
        0
    } else {
        weighted_sum(counts, weights, n - 1) + counts[n - 1] * weights[n - 1]
    }
}

pub proof fn lemma_weighted_sum_nonnegative(counts: Seq<i32>, weights: Seq<int>, n: int)
    requires
        0 <= n <= counts.len(),
        n <= weights.len(),
        forall|i: int| 0 <= i < n ==> counts[i] >= 0,
        forall|i: int| 0 <= i < n ==> weights[i] >= 0,
    ensures
        weighted_sum(counts, weights, n) >= 0,
    decreases n,
{
    if n > 0 {
        lemma_weighted_sum_nonnegative(counts, weights, n - 1);
        assert(counts[n - 1] * weights[n - 1] >= 0) by (nonlinear_arith)
            requires
                counts[n - 1] >= 0,
                weights[n - 1] >= 0,
        ;
    }
}

/// Where nothing is counted, or nothing weighs, the sum is zero.
pub proof fn lemma_weighted_sum_zero(counts: Seq<i32>, weights: Seq<int>, n: int)
    requires
        0 <= n <= counts.len(),
        n <= weights.len(),
        forall|i: int| 0 <= i < n ==> counts[i] == 0 || weights[i] == 0,
    ensures
        weighted_sum(counts, weights, n) == 0,
    decreases n,
{
    if n > 0 {
        lemma_weighted_sum_zero(counts, weights, n - 1);
        assert(counts[n - 1] * weights[n - 1] == 0) by (nonlinear_arith)
            requires
                counts[n - 1] == 0 || weights[n - 1] == 0,
        ;
    }
}

/// Sums count times weight over all kinds, in canonical order.
pub fn weigh(counts: &Vec<i32>, weights: &Vec<u128>) -> (r: BigNat)
    requires
        counts@.len() == TROOP_KINDS,
        weights@.len() == TROOP_KINDS,
        forall|i: int| 0 <= i < TROOP_KINDS ==> counts@[i] >= 0,
    ensures
        r@ == weighted_sum(counts@, weights@.map_values(|w: u128| w as int), TROOP_KINDS as int),
{
    let ghost ws = weights@.map_values(|w: u128| w as int);
    let mut acc = BigNat::zero();
    let mut i: usize = 0;
    while i < TROOP_KINDS
        invariant
            i <= TROOP_KINDS,
            counts@.len() == TROOP_KINDS,
            weights@.len() == TROOP_KINDS,
            ws == weights@.map_values(|w: u128| w as int),
            forall|j: int| 0 <= j < TROOP_KINDS ==> counts@[j] >= 0,
            acc@ == weighted_sum(counts@, ws, i as int),
        decreases TROOP_KINDS - i,
    {
        let term = BigNat::from_u128(weights[i]).mul_small(counts[i] as u32);
        proof {
            assert(ws[i as int] == weights@[i as int] as int);
            assert(weights@[i as int] * counts@[i as int] == counts@[i as int] * ws[i as int])
                by (nonlinear_arith)
                requires
                    ws[i as int] == weights@[i as int] as int,
            ;
        }
        acc = acc.add(&term);
        i = i + 1;
    }
    acc
}

/// Sums count times stat over all kinds, for stats that fit a machine word.
pub fn weigh_stats(counts: &Vec<i32>, weights: &Vec<i32>) -> (r: u128)
    requires
        counts@.len() == TROOP_KINDS,
        weights@.len() == TROOP_KINDS,
        forall|i: int| 0 <= i < TROOP_KINDS ==> counts@[i] >= 0,
        forall|i: int| 0 <= i < TROOP_KINDS ==> weights@[i] >= 0,
    ensures
        r == weighted_sum(counts@, weights@.map_values(|w: i32| w as int), TROOP_KINDS as int),
        r <= 19 * 0x4000_0000_0000_0000,
{
    let ghost ws = weights@.map_values(|w: i32| w as int);
    let mut acc: u128 = 0;
    let mut i: usize = 0;
    while i < TROOP_KINDS
        invariant
            i <= TROOP_KINDS,
            counts@.len() == TROOP_KINDS,
            weights@.len() == TROOP_KINDS,
            ws == weights@.map_values(|w: i32| w as int),
            forall|j: int| 0 <= j < TROOP_KINDS ==> counts@[j] >= 0,
            forall|j: int| 0 <= j < TROOP_KINDS ==> weights@[j] >= 0,
            acc == weighted_sum(counts@, ws, i as int),
            acc <= i * 0x4000_0000_0000_0000,
        decreases TROOP_KINDS - i,
    {
        let c = counts[i] as u128;
        let w = weights[i] as u128;
        assert(c * w <= 0x4000_0000_0000_0000) by (nonlinear_arith)
            requires
                c <= 0x7fff_ffff,
                w <= 0x7fff_ffff,
        ;
        proof {
            assert(ws[i as int] == weights@[i as int] as int);
        }
        acc = acc + c * w;
        i = i + 1;
    }
    acc
}

/// A share of troops that is lost, kept exact.
pub enum LossFraction {
    /// Nothing is lost.
    Zero,
    /// Everything is lost.
    One,
    /// The share `(p / q)^1.5`.
    Power { p: BigNat, q: BigNat },
    /// The share `num / den`.
    Ratio { num: BigNat, den: BigNat },
}

/// What a `LossFraction` stands for.
pub enum FractionModel {
    Zero,
    One,
    Power(int, int),
    Ratio(int, int),
}

/// `floor(n * (p / q)^1.5)`: the root of `n^2 * p^3 / q^3`.
pub open spec fn power_floor(n: int, p: int, q: int) -> int {
    isqrt((((n * n) * (p * p * p)) / (q * q * q)) as nat) as int
}

/// Troops lost out of `n` at a share: the floor of the product, and never
/// more than there are.
pub open spec fn fraction_loss(m: FractionModel, n: int) -> int {
    match m {
        FractionModel::Zero => 0,
        FractionModel::One => n,
        FractionModel::Power(p, q) => min_int(n, power_floor(n, p, q)),
        FractionModel::Ratio(num, den) => min_int(n, (n * num) / den),
    }
}

impl LossFraction {
    pub open spec fn model(&self) -> FractionModel {
        match self {
            LossFraction::Zero => FractionModel::Zero,
            LossFraction::One => FractionModel::One,
            LossFraction::Power { p, q } => FractionModel::Power(p@, q@),
            LossFraction::Ratio { num, den } => FractionModel::Ratio(num@, den@),
        }
    }

    /// The denominators are positive.
    pub open spec fn wf(&self) -> bool {
        match self {
            LossFraction::Zero => true,
            LossFraction::One => true,
            LossFraction::Power { p, q } => q@ > 0,
            LossFraction::Ratio { num, den } => den@ > 0,
        }
    }
}

/// The outcome of a battle, side by side.
pub struct BattleResult {
    pub attacker_wins: bool,
    pub attacker_survivors: ArmyTroops,
    pub defender_survivors: ArmyTroops,
    pub attacker_losses: ArmyTroops,
    pub defender_losses: ArmyTroops,
}

/// Losses of each kind at a share of the troops.
pub fn apply_losses(troops: &ArmyTroops, fraction: &LossFraction) -> (r: ArmyTroops)
    requires
        troops.wf(),
        fraction.wf(),
    ensures
        r.wf(),
        forall|t: TroopType|
            #[trigger] r.count(t) == fraction_loss(fraction.model(), troops.count(t)),
        forall|t: TroopType| #[trigger] r.count(t) <= troops.count(t),
{
    let mut out: Vec<i32> = Vec::new();
    let mut i: usize = 0;
    let (p3, q3) = match fraction {
        LossFraction::Power { p, q } => {
            let p3 = p.mul(p).mul(p);
            let q3 = q.mul(q).mul(q);
            proof {
                assert(q@ * q@ * q@ > 0) by (nonlinear_arith)
                    requires
                        q@ > 0,
                ;
            }
            (p3, q3)
        },
        _ => (BigNat::zero(), BigNat::from_u64(1)),
    };
    while i < TROOP_KINDS
        invariant
            troops.wf(),
            fraction.wf(),
            i <= TROOP_KINDS,
            out@.len() == i,
            q3@ > 0,
            fraction matches LossFraction::Power { p, q } ==> p3@ == p@ * p@ * p@ && q3@ == q@ * q@
                * q@,
            forall|j: int|
                0 <= j < i ==> #[trigger] out@[j] == fraction_loss(
                    fraction.model(),
                    troops.counts@[j] as int,
                ) && 0 <= out@[j] <= troops.counts@[j],
        decreases TROOP_KINDS - i,
    {
        let n: i32 = troops.counts[i];
        let loss: i32 = match fraction {
            LossFraction::Zero => 0,
            LossFraction::One => n,
            LossFraction::Power { p, q } => {
                assert(n as u64 * n as u64 <= 0x7fff_ffff * 0x7fff_ffff) by (nonlinear_arith)
                    requires
                        0 <= n <= 0x7fff_ffff,
                ;
                let b = p3.mul(&BigNat::from_u64((n as u64) * (n as u64)));
                proof {
                    assert(p3@ * (n * n) == (n * n) * (p@ * p@ * p@)) by (nonlinear_arith)
                        requires
                            p3@ == p@ * p@ * p@,
                    ;
                }
                capped_root_quotient(&b, &q3, n as u32) as i32
            },
            LossFraction::Ratio { num, den } => {
                let b = num.mul_small(n as u32);
                proof {
                    num.lemma_nonnegative();
                    assert(num@ * n == n * num@) by (nonlinear_arith);
                    assert((n * num@) / den@ >= 0) by (nonlinear_arith)
                        requires
                            n >= 0,
                            num@ >= 0,
                            den@ > 0,
                    ;
                }
                capped_quotient(&b, den, n as u32) as i32
            },
        };
        out.push(loss);
        i = i + 1;
    }
    let r = ArmyTroops { counts: out };
    proof {
        TroopType::lemma_ordinal_at();
        assert forall|t: TroopType|
            #[trigger] r.count(t) == fraction_loss(fraction.model(), troops.count(t)) && r.count(t)
                <= troops.count(t) by {
            assert(r.counts@[t.ordinal()] == fraction_loss(
                fraction.model(),
                troops.counts@[t.ordinal()] as int,
            ));
        }
    }
    r
}

/// What is left of each kind after its losses.
pub fn calculate_survivors(troops: &ArmyTroops, losses: &ArmyTroops) -> (r: ArmyTroops)
    requires
        troops.wf(),
        losses.wf(),
    ensures
        r.wf(),
        forall|t: TroopType|
            #[trigger] r.count(t) == if troops.count(t) >= losses.count(t) {
                troops.count(t) - losses.count(t)
            } else {
                0
            },
{
    let mut out: Vec<i32> = Vec::new();
    let mut i: usize = 0;
    while i < TROOP_KINDS
        invariant
            troops.wf(),
            losses.wf(),
            i <= TROOP_KINDS,
            out@.len() == i,
            forall|j: int|
                0 <= j < i ==> #[trigger] out@[j] == if troops.counts@[j] >= losses.counts@[j] {
                    troops.counts@[j] - losses.counts@[j]
                } else {
                    0
                },
        decreases TROOP_KINDS - i,
    {
        let n = troops.counts[i];
        let l = losses.counts[i];
        out.push(if n >= l {
            n - l
        } else {
            0
        });
        i = i + 1;
    }
    let r = ArmyTroops { counts: out };
    proof {
        TroopType::lemma_ordinal_at();
        assert forall|t: TroopType|
            #[trigger] r.count(t) == if troops.count(t) >= losses.count(t) {
                troops.count(t) - losses.count(t)
            } else {
                0
            } by {
            assert(r.counts@[t.ordinal()] == if troops.counts@[t.ordinal()] >= losses.counts@[t.ordinal()] {
                troops.counts@[t.ordinal()] - losses.counts@[t.ordinal()]
            } else {
                0
            });
        }
    }
    r
}

/// Attack of each kind, counted only for cavalry or only for infantry.
pub open spec fn attack_weights(defs: Seq<TroopDefinition>, cavalry: bool) -> Seq<int> {
    Seq::new(
        TROOP_KINDS as nat,
        |i: int|
            if TroopType::at(i).spec_is_cavalry() == cavalry {
                attack_of(defs, TroopType::at(i))
            } else {
                0
            },
    )
}

/// Attack power of the infantry of an army.
pub open spec fn infantry_attack(a: ArmyTroops, defs: Seq<TroopDefinition>) -> int {
    weighted_sum(a.counts@, attack_weights(defs, false), TROOP_KINDS as int)
}

/// Attack power of the cavalry of an army.
pub open spec fn cavalry_attack(a: ArmyTroops, defs: Seq<TroopDefinition>) -> int {
    weighted_sum(a.counts@, attack_weights(defs, true), TROOP_KINDS as int)
}

pub open spec fn total_attack(a: ArmyTroops, defs: Seq<TroopDefinition>) -> int {
    infantry_attack(a, defs) + cavalry_attack(a, defs)
}

/// Denominator of the infantry and cavalry shares: the total attack, or 2
/// for the even split of an army without attack.
pub open spec fn share_denominator(a: ArmyTroops, defs: Seq<TroopDefinition>) -> int {
    if total_attack(a, defs) > 0 {
        total_attack(a, defs)
    } else {
        2
    }
}

/// Numerator of the infantry share.
pub open spec fn infantry_share(a: ArmyTroops, defs: Seq<TroopDefinition>) -> int {
    if total_attack(a, defs) > 0 {
        infantry_attack(a, defs)
    } else {
        1
    }
}

/// Numerator of the cavalry share.
pub open spec fn cavalry_share(a: ArmyTroops, defs: Seq<TroopDefinition>) -> int {
    if total_attack(a, defs) > 0 {
        cavalry_attack(a, defs)
    } else {
        1
    }
}

/// Defense of each kind against shares `wi` of infantry and `wc` of cavalry.
pub open spec fn defense_weights(defs: Seq<TroopDefinition>, wi: int, wc: int) -> Seq<int> {
    Seq::new(
        TROOP_KINDS as nat,
        |i: int|
            defense_infantry_of(defs, TroopType::at(i)) * wi + defense_cavalry_of(
                defs,
                TroopType::at(i),
            ) * wc,
    )
}

/// Defense power against an army, times the share denominator.
pub open spec fn scaled_defense(a: ArmyTroops, d: ArmyTroops, defs: Seq<TroopDefinition>) -> int {
    weighted_sum(
        d.counts@,
        defense_weights(defs, infantry_share(a, defs), cavalry_share(a, defs)),
        TROOP_KINDS as int,
    )
}

/// Attack power of an army, times the share denominator.
pub open spec fn scaled_attack(a: ArmyTroops, defs: Seq<TroopDefinition>) -> int {
    total_attack(a, defs) * share_denominator(a, defs)
}

/// The attacker wins against no defense at all, and against a weaker one.
/// Equal powers go to the defender.
pub open spec fn attacker_wins(att: int, def: int) -> bool {
    def == 0 || att > def
}

/// Share of the attackers that is lost. A winner loses `(def / att)^1.5`. A
/// loser loses everything, but raiders flee and lose `max(0.66, 1 - ratio / 2)`
/// with `ratio = att / def`.
pub open spec fn attacker_fraction(att: int, def: int, mission: MissionType) -> FractionModel {
    if def == 0 {
        FractionModel::Zero
    } else if att > def {
        FractionModel::Power(def, att)
    } else if mission == MissionType::Raid {
        if 25 * att <= 17 * def {
            FractionModel::Ratio(2 * def - att, 2 * def)
        } else {
            FractionModel::Ratio(33, 50)
        }
    } else {
        FractionModel::One
    }
}

/// Share of the defenders that is lost: all against a winner, `(att / def)^1.5`
/// against a loser, none where there is no defense.
pub open spec fn defender_fraction(att: int, def: int) -> FractionModel {
    if def == 0 {
        FractionModel::Zero
    } else if att > def {
        FractionModel::One
    } else {
        FractionModel::Power(att, def)
    }
}

/// Attack powers of the infantry and of the cavalry of an army.
fn attack_by_type_in(troops: &ArmyTroops, table: &StatTable, Ghost(defs): Ghost<
    Seq<TroopDefinition>,
>) -> (r: (u128, u128))
    requires
        troops.wf(),
        table.matches_catalog(defs),
    ensures
        r.0 == infantry_attack(*troops, defs),
        r.1 == cavalry_attack(*troops, defs),
        r.0 <= 19 * 0x4000_0000_0000_0000,
        r.1 <= 19 * 0x4000_0000_0000_0000,
{
    let mut inf: Vec<i32> = Vec::new();
    let mut cav: Vec<i32> = Vec::new();
    let mut i: usize = 0;
    while i < TROOP_KINDS
        invariant
            i <= TROOP_KINDS,
            table.matches_catalog(defs),
            inf@.len() == i,
            cav@.len() == i,
            forall|j: int| 0 <= j < i ==> #[trigger] inf@[j] == attack_weights(defs, false)[j],
            forall|j: int| 0 <= j < i ==> #[trigger] cav@[j] == attack_weights(defs, true)[j],
            forall|j: int| 0 <= j < i ==> #[trigger] inf@[j] >= 0,
            forall|j: int| 0 <= j < i ==> #[trigger] cav@[j] >= 0,
        decreases TROOP_KINDS - i,
    {
        let t = TroopType::from_index(i);
        assert(table.row_ok(defs, i as int));
        if t.is_cavalry() {
            inf.push(0);
            cav.push(table.attack[i]);
        } else {
            inf.push(table.attack[i]);
            cav.push(0);
        }
        i = i + 1;
    }
    proof {
        assert(inf@.map_values(|w: i32| w as int) =~= attack_weights(defs, false));
        assert(cav@.map_values(|w: i32| w as int) =~= attack_weights(defs, true));
    }
    let x = weigh_stats(&troops.counts, &inf);
    let y = weigh_stats(&troops.counts, &cav);
    (x, y)
}

/// Defense power of the defenders against shares `wi` and `wc`, times the
/// denominator of the shares.
fn defense_in(troops: &ArmyTroops, table: &StatTable, wi: u128, wc: u128, Ghost(defs): Ghost<
    Seq<TroopDefinition>,
>) -> (r: BigNat)
    requires
        troops.wf(),
        table.matches_catalog(defs),
        wi <= 19 * 0x4000_0000_0000_0000,
        wc <= 19 * 0x4000_0000_0000_0000,
    ensures
        r@ == weighted_sum(troops.counts@, defense_weights(defs, wi as int, wc as int), TROOP_KINDS as int),
        r@ >= 0,
{
    let mut ws: Vec<u128> = Vec::new();
    let mut i: usize = 0;
    while i < TROOP_KINDS
        invariant
            i <= TROOP_KINDS,
            table.matches_catalog(defs),
            wi <= 19 * 0x4000_0000_0000_0000,
            wc <= 19 * 0x4000_0000_0000_0000,
            ws@.len() == i,
            forall|j: int|
                0 <= j < i ==> #[trigger] ws@[j] == defense_weights(defs, wi as int, wc as int)[j],
        decreases TROOP_KINDS - i,
    {
        assert(table.row_ok(defs, i as int));
        let di = table.defense_infantry[i] as u128;
        let dc = table.defense_cavalry[i] as u128;
        assert(di * wi <= 0x7fff_ffff * (19 * 0x4000_0000_0000_0000)) by (nonlinear_arith)
            requires
                di <= 0x7fff_ffff,
                wi <= 19 * 0x4000_0000_0000_0000,
        ;
        assert(dc * wc <= 0x7fff_ffff * (19 * 0x4000_0000_0000_0000)) by (nonlinear_arith)
            requires
                dc <= 0x7fff_ffff,
                wc <= 19 * 0x4000_0000_0000_0000,
        ;
        ws.push(di * wi + dc * wc);
        i = i + 1;
    }
    proof {
        assert(ws@.map_values(|w: u128| w as int) =~= defense_weights(defs, wi as int, wc as int));
    }
    let r = weigh(&troops.counts, &ws);
    proof {
        r.lemma_nonnegative();
    }
    r
}

impl ArmyService {
    /// Attack powers of the infantry and of the cavalry of an army.
    pub fn calculate_attack_by_type(troops: &ArmyTroops, definitions: &Vec<TroopDefinition>) -> (r:
        (u128, u128))
        requires
            troops.wf(),
            catalog_wf(definitions@),
        ensures
            r.0 == infantry_attack(*troops, definitions@),
            r.1 == cavalry_attack(*troops, definitions@),
            r.0 <= 19 * 0x4000_0000_0000_0000,
            r.1 <= 19 * 0x4000_0000_0000_0000,
    {
        let table = StatTable::from_catalog(definitions);
        attack_by_type_in(troops, &table, Ghost(definitions@))
    }

    /// Total attack power of an army.
    pub fn calculate_attack_power(troops: &ArmyTroops, definitions: &Vec<TroopDefinition>) -> (r:
        u128)
        requires
            troops.wf(),
            catalog_wf(definitions@),
        ensures
            r == total_attack(*troops, definitions@),
    {
        let (inf, cav) = ArmyService::calculate_attack_by_type(troops, definitions);
        inf + cav
    }

    /// Defense power of the defenders against an attack of `infantry` and
    /// `cavalry` power, times the denominator of the two shares.
    pub fn calculate_defense_power(
        troops: &ArmyTroops,
        definitions: &Vec<TroopDefinition>,
        infantry: u128,
        cavalry: u128,
    ) -> (r: BigNat)
        requires
            troops.wf(),
            catalog_wf(definitions@),
            infantry <= 19 * 0x4000_0000_0000_0000,
            cavalry <= 19 * 0x4000_0000_0000_0000,
        ensures
            r@ == weighted_sum(
                troops.counts@,
                defense_weights(
                    definitions@,
                    if infantry + cavalry > 0 {
                        infantry as int
                    } else {
                        1
                    },
                    if infantry + cavalry > 0 {
                        cavalry as int
                    } else {
                        1
                    },
                ),
                TROOP_KINDS as int,
            ),
    {
        let table = StatTable::from_catalog(definitions);
        if infantry + cavalry > 0 {
            defense_in(troops, &table, infantry, cavalry, Ghost(definitions@))
        } else {
            defense_in(troops, &table, 1, 1, Ghost(definitions@))
        }
    }

    /// Losses of each kind at a share of the troops.
    pub fn apply_losses(troops: &ArmyTroops, fraction: &LossFraction) -> (r: ArmyTroops)
        requires
            troops.wf(),
            fraction.wf(),
        ensures
            r.wf(),
            forall|t: TroopType|
                #[trigger] r.count(t) == fraction_loss(fraction.model(), troops.count(t)),
            forall|t: TroopType| #[trigger] r.count(t) <= troops.count(t),
    {
        apply_losses(troops, fraction)
    }

    /// What is left of each kind after its losses.
    pub fn calculate_survivors(troops: &ArmyTroops, losses: &ArmyTroops) -> (r: ArmyTroops)
        requires
            troops.wf(),
            losses.wf(),
        ensures
            r.wf(),
            forall|t: TroopType|
                #[trigger] r.count(t) == if troops.count(t) >= losses.count(t) {
                    troops.count(t) - losses.count(t)
                } else {
                    0
                },
    {
        calculate_survivors(troops, losses)
    }

    /// Resolves a battle between an army and the defenders of a village.
    ///
    /// The result is a function of the four arguments alone.
    pub fn calculate_battle(
        attacker_troops: &ArmyTroops,
        defender_troops: &ArmyTroops,
        definitions: &Vec<TroopDefinition>,
        mission: MissionType,
    ) -> (r: BattleResult)
        requires
            attacker_troops.wf(),
            defender_troops.wf(),
            catalog_wf(definitions@),
        ensures
            battle_result_is(r, *attacker_troops, *defender_troops, definitions@, mission),
    {
        let table = StatTable::from_catalog(definitions);
        let ghost defs = definitions@;
        let (inf, cav) = attack_by_type_in(attacker_troops, &table, Ghost(defs));
        let total: u128 = inf + cav;
        let (wi, wc, dd): (u128, u128, u128) = if total > 0 {
            (inf, cav, total)
        } else {
            (1, 1, 2)
        };
        let def = defense_in(defender_troops, &table, wi, wc, Ghost(defs));
        let att = BigNat::from_u128(total).mul(&BigNat::from_u128(dd));
        let zero = BigNat::zero();
        let no_defense = def.le(&zero);
        let stronger = !att.le(&def);
        let attacker_fraction: LossFraction;
        let defender_fraction: LossFraction;
        let wins: bool;
        if no_defense {
            wins = true;
            attacker_fraction = LossFraction::Zero;
            defender_fraction = LossFraction::Zero;
        } else if stronger {
            wins = true;
            attacker_fraction = LossFraction::Power { p: def, q: att };
            defender_fraction = LossFraction::One;
        } else {
            wins = false;
            let flee_far = att.mul_small(25).le(&def.mul_small(17));
            if mission == MissionType::Raid {
                if flee_far {
                    let twice = def.mul_small(2);
                    proof {
                        assert(def@ * 2 == 2 * def@);
                    }
                    let rest = twice.sub(&att);
                    let den = def.mul_small(2);
                    attacker_fraction = LossFraction::Ratio { num: rest, den: den };
                } else {
                    attacker_fraction =
                    LossFraction::Ratio { num: BigNat::from_u64(33), den: BigNat::from_u64(50) };
                }
            } else {
                attacker_fraction = LossFraction::One;
            }
            defender_fraction = LossFraction::Power { p: att, q: def };
        }
        let attacker_losses = apply_losses(attacker_troops, &attacker_fraction);
        let defender_losses = apply_losses(defender_troops, &defender_fraction);
        let attacker_survivors = calculate_survivors(attacker_troops, &attacker_losses);
        let defender_survivors = calculate_survivors(defender_troops, &defender_losses);
        BattleResult {
            attacker_wins: wins,
            attacker_survivors,
            defender_survivors,
            attacker_losses,
            defender_losses,
        }
    }
}

/// What a battle between two sides comes to: who wins, the losses of every
/// kind on both sides, and who is left.
pub open spec fn battle_result_is(
    r: BattleResult,
    a: ArmyTroops,
    d: ArmyTroops,
    defs: Seq<TroopDefinition>,
    mission: MissionType,
) -> bool {
    let att = scaled_attack(a, defs);
    let def = scaled_defense(a, d, defs);
    &&& r.attacker_wins == attacker_wins(att, def)
    &&& r.attacker_losses.wf()
    &&& r.defender_losses.wf()
    &&& r.attacker_survivors.wf()
    &&& r.defender_survivors.wf()
    &&& forall|t: TroopType| #[trigger]
        r.attacker_losses.count(t) == fraction_loss(attacker_fraction(att, def, mission), a.count(t))
    &&& forall|t: TroopType| #[trigger]
        r.defender_losses.count(t) == fraction_loss(defender_fraction(att, def), d.count(t))
    &&& forall|t: TroopType| #[trigger]
        r.attacker_survivors.count(t) == a.count(t) - r.attacker_losses.count(t)
    &&& forall|t: TroopType| #[trigger]
        r.defender_survivors.count(t) == d.count(t) - r.defender_losses.count(t)
}

/// A battle is a function of its inputs: two results for the same armies,
/// catalog and mission agree in the winner and in every count.
pub proof fn lemma_battle_is_deterministic(
    r1: BattleResult,
    r2: BattleResult,
    a: ArmyTroops,
    d: ArmyTroops,
    defs: Seq<TroopDefinition>,
    mission: MissionType,
)
    requires
        battle_result_is(r1, a, d, defs, mission),
        battle_result_is(r2, a, d, defs, mission),
    ensures
        r1.attacker_wins == r2.attacker_wins,
        r1.attacker_losses.counts@ == r2.attacker_losses.counts@,
        r1.defender_losses.counts@ == r2.defender_losses.counts@,
        r1.attacker_survivors.counts@ == r2.attacker_survivors.counts@,
        r1.defender_survivors.counts@ == r2.defender_survivors.counts@,
{
    TroopType::lemma_ordinal_at();
    assert forall|i: int| 0 <= i < TROOP_KINDS implies r1.attacker_losses.counts@[i]
        == r2.attacker_losses.counts@[i] && r1.defender_losses.counts@[i]
        == r2.defender_losses.counts@[i] && r1.attacker_survivors.counts@[i]
        == r2.attacker_survivors.counts@[i] && r1.defender_survivors.counts@[i]
        == r2.defender_survivors.counts@[i] by {
        let t = TroopType::at(i);
        assert(r1.attacker_losses.count(t) == r2.attacker_losses.count(t));
        assert(r1.defender_losses.count(t) == r2.defender_losses.count(t));
        assert(r1.attacker_survivors.count(t) == r2.attacker_survivors.count(t));
        assert(r1.defender_survivors.count(t) == r2.defender_survivors.count(t));
    }
    assert(r1.attacker_losses.counts@ =~= r2.attacker_losses.counts@);
    assert(r1.defender_losses.counts@ =~= r2.defender_losses.counts@);
    assert(r1.attacker_survivors.counts@ =~= r2.attacker_survivors.counts@);
    assert(r1.defender_survivors.counts@ =~= r2.defender_survivors.counts@);
}

/// Against nobody the attacker wins and loses nobody.
pub proof fn lemma_no_defenders_no_losses(
    r: BattleResult,
    a: ArmyTroops,
    d: ArmyTroops,
    defs: Seq<TroopDefinition>,
    mission: MissionType,
)
    requires
        a.wf(),
        d.wf(),
        forall|t: TroopType| #[trigger] d.count(t) == 0,
        battle_result_is(r, a, d, defs, mission),
    ensures
        r.attacker_wins,
        forall|t: TroopType| #[trigger] r.attacker_losses.count(t) == 0,
        forall|t: TroopType| #[trigger] r.attacker_survivors.count(t) == a.count(t),
        forall|t: TroopType| #[trigger] r.defender_losses.count(t) == 0,
{
    TroopType::lemma_ordinal_at();
    let ws = defense_weights(defs, infantry_share(a, defs), cavalry_share(a, defs));
    assert forall|i: int| 0 <= i < TROOP_KINDS implies d.counts@[i] == 0 || ws[i] == 0 by {
        assert(d.count(TroopType::at(i)) == 0);
    }
    lemma_weighted_sum_zero(d.counts@, ws, TROOP_KINDS as int);
    assert(scaled_defense(a, d, defs) == 0);
}

/// A winner that is strong enough loses nobody of a kind: where
/// `n^2 * def^3 < att^3`, the share `(def / att)^1.5` of `n` troops is less
/// than one troop.
pub proof fn lemma_overwhelming_attack_loses_nobody(n: int, att: int, def: int)
    requires
        n >= 0,
        0 < def < att,
        (n * n) * (def * def * def) < att * att * att,
    ensures
        fraction_loss(FractionModel::Power(def, att), n) == 0,
{
    let x = (n * n) * (def * def * def);
    let q = att * att * att;
    assert(x >= 0) by (nonlinear_arith)
        requires
            x == (n * n) * (def * def * def),
            def > 0,
            n >= 0,
    ;
    assert(x / q == 0) by (nonlinear_arith)
        requires
            0 <= x < q,
    ;
    assert(isqrt(0) == 0);
}

/// Against an attack of more than ten times the defense, a group of up to
/// 31 troops loses nobody: the share is below `0.1^1.5`, less than a 31st.
pub proof fn lemma_tenfold_attack_spares_small_groups(n: int, att: int, def: int)
    requires
        0 <= n <= 31,
        def > 0,
        att > 10 * def,
    ensures
        fraction_loss(FractionModel::Power(def, att), n) == 0,
{
    let d3 = def * def * def;
    assert(d3 > 0 && att * att * att > 1000 * d3) by (nonlinear_arith)
        requires
            d3 == def * def * def,
            def > 0,
            att > 10 * def,
    ;
    assert((n * n) * d3 <= 961 * d3) by (nonlinear_arith)
        requires
            0 <= n <= 31,
            d3 > 0,
    ;
    lemma_overwhelming_attack_loses_nobody(n, att, def);
}

} // verus!
