//! The achievement evaluation pass: re-check every milestone condition
//! against the current vault and achievement snapshot, unlock every newly
//! satisfied one, and report what changed.
//!
//! The pass walks a fixed order of milestone slots. Every condition is a
//! pure function of the vault snapshot, of the achievement record's
//! untouched counters, and of the supplied timestamp, so the pass is
//! deterministic and — as proved below — idempotent.

use vstd::prelude::*;

use crate::achievements::{spec_has, Achievement, Rank, UserAchievements};
use crate::state::Vault;

verus! {

/// Number of milestone slots the evaluation pass walks.
pub open spec fn pass_len() -> int {
    21
}

/// The milestone checked at a given slot of the evaluation pass, in the
/// fixed evaluation order.
pub open spec fn checked_milestone(slot: int) -> Achievement
    recommends
        0 <= slot < pass_len(),
{
    if slot == 0 {
        Achievement::FirstBlood
    } else if slot == 1 {
        Achievement::SoulStarter
    } else if slot == 2 {
        Achievement::GraveDigger
    } else if slot == 3 {
        Achievement::CryptKeeper
    } else if slot == 4 {
        Achievement::Necromancer
    } else if slot == 5 {
        Achievement::Whale
    } else if slot == 6 {
        Achievement::SoulCollector
    } else if slot == 7 {
        Achievement::SoulReaper
    } else if slot == 8 {
        Achievement::SoulMaster
    } else if slot == 9 {
        Achievement::DeathLord
    } else if slot == 10 {
        Achievement::GrimReaper
    } else if slot == 11 {
        Achievement::CompoundKing
    } else if slot == 12 {
        Achievement::YieldFarmer
    } else if slot == 13 {
        Achievement::DefiDegen
    } else if slot == 14 {
        Achievement::WitchingHour
    } else if slot == 15 {
        Achievement::Haunted
    } else if slot == 16 {
        Achievement::Possessed
    } else if slot == 17 {
        Achievement::Eternal
    } else if slot == 18 {
        Achievement::NightOwl
    } else if slot == 19 {
        Achievement::EarlyBird
    } else {
        Achievement::DiamondHands
    }
}

/// The slot at which the evaluation pass checks a milestone, or -1 for a
/// milestone the pass never checks.
pub open spec fn pass_slot(achievement: Achievement) -> int {
    match achievement {
        Achievement::FirstBlood => 0,
        Achievement::SoulStarter => 1,
        Achievement::GraveDigger => 2,
        Achievement::CryptKeeper => 3,
        Achievement::Necromancer => 4,
        Achievement::Whale => 5,
        Achievement::SoulCollector => 6,
        Achievement::SoulReaper => 7,
        Achievement::SoulMaster => 8,
        Achievement::DeathLord => 9,
        Achievement::GrimReaper => 10,
        Achievement::CompoundKing => 11,
        Achievement::YieldFarmer => 12,
        Achievement::DefiDegen => 13,
        Achievement::WitchingHour => 14,
        Achievement::Haunted => 15,
        Achievement::Possessed => 16,
        Achievement::Eternal => 17,
        Achievement::NightOwl => 18,
        Achievement::EarlyBird => 19,
        Achievement::DiamondHands => 20,
        Achievement::ReapersChosen => -1,
        Achievement::OgSoul => -1,
        Achievement::CharityChampion => -1,
        Achievement::HotStreak => -1,
        Achievement::OnFire => -1,
        Achievement::Unstoppable => -1,
    }
}

/// The hour of day, 0 through 23, that an epoch timestamp falls in, with the
/// truncating-division semantics of machine arithmetic: timestamps before
/// the epoch yield non-positive hour values.
pub open spec fn spec_hour_of_day(now: i64) -> int {
    if now >= 0 {
        ((now as int) % 86400) / 3600
    } else {
        -(((-(now as int)) % 86400) / 3600)
    }
}

/// Whether the evaluation pass finds a milestone's condition satisfied
/// against the given snapshot. Milestones outside the pass (credential,
/// early-depositor, charity and streak milestones, which the snapshot does
/// not witness) are never found satisfied. Only the vault fields, the
/// record's untouched counters and the timestamp are read, never the
/// unlocked field or the points.
pub open spec fn spec_eligible(
    achievement: Achievement,
    vault: Vault,
    record: UserAchievements,
    now: i64,
) -> bool {
    match achievement {
        Achievement::FirstBlood => vault.balance > 0,
        Achievement::SoulStarter => vault.balance >= 1_000,
        Achievement::GraveDigger => vault.balance >= 10_000,
        Achievement::CryptKeeper => vault.balance >= 100_000,
        Achievement::Necromancer => vault.balance >= 1_000_000,
        Achievement::Whale => vault.balance >= 1_000_000,
        Achievement::SoulCollector => vault.total_souls_harvested >= 100,
        Achievement::SoulReaper => vault.total_souls_harvested >= 1_000,
        Achievement::SoulMaster => vault.total_souls_harvested >= 10_000,
        Achievement::DeathLord => vault.total_souls_harvested >= 100_000,
        Achievement::GrimReaper => vault.total_souls_harvested >= 1_000_000,
        Achievement::CompoundKing => record.total_compounds >= 10,
        Achievement::YieldFarmer => record.total_compounds >= 100,
        Achievement::DefiDegen => record.total_compounds >= 1_000,
        Achievement::WitchingHour => record.midnight_harvest_count >= 1,
        Achievement::Haunted => record.midnight_harvest_count >= 7,
        Achievement::Possessed => record.midnight_harvest_count >= 30,
        Achievement::Eternal => record.midnight_harvest_count >= 365,
        Achievement::NightOwl => spec_hour_of_day(now) == 0 && record.total_compounds > 0,
        Achievement::EarlyBird => spec_hour_of_day(now) == 5 && record.total_compounds > 0,
        Achievement::DiamondHands => now - record.first_deposit_time >= 2_592_000 && vault.balance
            > 0,
        Achievement::ReapersChosen => false,
        Achievement::OgSoul => false,
        Achievement::CharityChampion => false,
        Achievement::HotStreak => false,
        Achievement::OnFire => false,
        Achievement::Unstoppable => false,
    }
}

/// Whether a pass over the given snapshot unlocks a milestone anew.
pub open spec fn spec_newly_unlocks(
    achievement: Achievement,
    vault: Vault,
    record: UserAchievements,
    now: i64,
) -> bool {
    spec_eligible(achievement, vault, record, now) && !spec_has(record.unlocked, achievement)
}

/// The bits of every milestone the first `slots` slots of the pass find
/// satisfied.
pub open spec fn pass_mask_prefix(vault: Vault, record: UserAchievements, now: i64, slots: int) -> u64
    decreases slots,
{
    if slots <= 0 {
        0u64
    } else {
        pass_mask_prefix(vault, record, now, slots - 1) | (if spec_eligible(
            checked_milestone(slots - 1),
            vault,
            record,
            now,
        ) {
            checked_milestone(slots - 1).bit()
        } else {
            0u64
        })
    }
}

/// The milestones the first `slots` slots of the pass unlock anew, in
/// evaluation order.
pub open spec fn pass_newly_prefix(
    vault: Vault,
    record: UserAchievements,
    now: i64,
    slots: int,
) -> Seq<Achievement>
    decreases slots,
{
    if slots <= 0 {
        Seq::empty()
    } else {
        let rest = pass_newly_prefix(vault, record, now, slots - 1);
        if spec_newly_unlocks(checked_milestone(slots - 1), vault, record, now) {
            rest.push(checked_milestone(slots - 1))
        } else {
            rest
        }
    }
}

/// The points the first `slots` slots of the pass award.
pub open spec fn pass_points_prefix(
    vault: Vault,
    record: UserAchievements,
    now: i64,
    slots: int,
) -> int
    decreases slots,
{
    if slots <= 0 {
        0
    } else {
        pass_points_prefix(vault, record, now, slots - 1) + (if spec_newly_unlocks(
            checked_milestone(slots - 1),
            vault,
            record,
            now,
        ) {
            checked_milestone(slots - 1).spec_points() as int
        } else {
            0
        })
    }
}

/// The bits of every milestone a full pass finds satisfied.
pub open spec fn pass_mask(vault: Vault, record: UserAchievements, now: i64) -> u64 {
    pass_mask_prefix(vault, record, now, pass_len())
}

/// The milestones a full pass unlocks anew, in evaluation order.
pub open spec fn pass_newly(vault: Vault, record: UserAchievements, now: i64) -> Seq<Achievement> {
    pass_newly_prefix(vault, record, now, pass_len())
}

/// The points a full pass awards.
pub open spec fn pass_points(vault: Vault, record: UserAchievements, now: i64) -> int {
    pass_points_prefix(vault, record, now, pass_len())
}

/// What an evaluation pass reports back: the newly unlocked milestones in
/// evaluation order, the points they carried, and the rank standing
/// afterwards. Purely informational for the caller.
#[derive(Clone, Debug)]
pub struct AchievementCheckResult {
    /// The milestones this pass unlocked, in evaluation order.
    pub newly_unlocked: Vec<Achievement>,
    /// The points awarded by this pass.
    pub points_earned: u32,
    /// The rank owed at the resulting point total.
    pub new_rank: Rank,
    /// The resulting point total.
    pub total_points: u32,
}

/// A checked slot holds its milestone's slot number.
proof fn lemma_slot_roundtrip(slot: int)
    requires
        0 <= slot < pass_len(),
    ensures
        pass_slot(checked_milestone(slot)) == slot,
{
}

/// Only the 21 checked milestones can be found satisfied.
proof fn lemma_eligible_is_checked(
    achievement: Achievement,
    vault: Vault,
    record: UserAchievements,
    now: i64,
)
    ensures
        spec_eligible(achievement, vault, record, now) ==> 0 <= pass_slot(achievement)
            < pass_len(),
        0 <= pass_slot(achievement) ==> checked_milestone(pass_slot(achievement)) == achievement,
{
}

/// Which bits the prefix mask sets: a milestone's bit is in the mask exactly
/// when its slot has been walked and its condition holds.
proof fn lemma_mask_prefix_has(
    vault: Vault,
    record: UserAchievements,
    now: i64,
    slots: int,
    probe: Achievement,
)
    requires
        slots <= pass_len(),
    ensures
        spec_has(record.unlocked | pass_mask_prefix(vault, record, now, slots), probe) <==> (
        spec_has(record.unlocked, probe) || (0 <= pass_slot(probe) < slots && spec_eligible(
            probe,
            vault,
            record,
            now,
        ))),
    decreases slots,
{
    let u = record.unlocked;
    if slots <= 0 {
        assert(u | 0u64 == u) by (bit_vector);
    } else {
        lemma_mask_prefix_has(vault, record, now, slots - 1, probe);
        let m = pass_mask_prefix(vault, record, now, slots - 1);
        let walked = checked_milestone(slots - 1);
        lemma_slot_roundtrip(slots - 1);
        if spec_eligible(walked, vault, record, now) {
            let b = walked.bit_index();
            let p = probe.bit_index();
            assert(b < 27 && p < 27);
            assert((u | (m | (1u64 << b))) == ((u | m) | (1u64 << b))) by (bit_vector);
            assert(((u | m) | (1u64 << b)) & (1u64 << p) != 0 <==> ((u | m) & (1u64 << p) != 0 || b
                == p)) by (bit_vector)
                requires
                    b < 64,
                    p < 64,
            ;
            crate::achievements::lemma_bit_index_injective(walked, probe);
        } else {
            assert(u | (m | 0u64) == u | m) by (bit_vector);
        }
    }
}

/// Check every milestone condition against the current snapshot.
pub fn milestone_satisfied(
    achievement: Achievement,
    vault: &Vault,
    record: &UserAchievements,
    current_time: i64,
) -> (met: bool)
    ensures
        met == spec_eligible(achievement, *vault, *record, current_time),
{
    match achievement {
        Achievement::FirstBlood => vault.balance > 0,
        Achievement::SoulStarter => vault.balance >= 1_000,
        Achievement::GraveDigger => vault.balance >= 10_000,
        Achievement::CryptKeeper => vault.balance >= 100_000,
        Achievement::Necromancer => vault.balance >= 1_000_000,
        Achievement::Whale => vault.balance >= 1_000_000,
        Achievement::SoulCollector => vault.total_souls_harvested >= 100,
        Achievement::SoulReaper => vault.total_souls_harvested >= 1_000,
        Achievement::SoulMaster => vault.total_souls_harvested >= 10_000,
        Achievement::DeathLord => vault.total_souls_harvested >= 100_000,
        Achievement::GrimReaper => vault.total_souls_harvested >= 1_000_000,
        Achievement::CompoundKing => record.total_compounds >= 10,
        Achievement::YieldFarmer => record.total_compounds >= 100,
        Achievement::DefiDegen => record.total_compounds >= 1_000,
        Achievement::WitchingHour => record.midnight_harvest_count >= 1,
        Achievement::Haunted => record.midnight_harvest_count >= 7,
        Achievement::Possessed => record.midnight_harvest_count >= 30,
        Achievement::Eternal => record.midnight_harvest_count >= 365,
        Achievement::NightOwl => hour_of_day(current_time) == 0 && record.total_compounds > 0,
        Achievement::EarlyBird => hour_of_day(current_time) == 5 && record.total_compounds > 0,
        Achievement::DiamondHands => {
            let held_seconds = (current_time as i128) - (record.first_deposit_time as i128);
            held_seconds >= 2_592_000 && vault.balance > 0
        },
        Achievement::ReapersChosen => false,
        Achievement::OgSoul => false,
        Achievement::CharityChampion => false,
        Achievement::HotStreak => false,
        Achievement::OnFire => false,
        Achievement::Unstoppable => false,
    }
}

/// The hour of day, 0 through 23, that an epoch timestamp falls in, with
/// truncating-division semantics for timestamps before the epoch.
pub fn hour_of_day(now: i64) -> (hour: i64)
    ensures
        hour == spec_hour_of_day(now),
{
    if now >= 0 {
        let seconds_today = (now as u64) % 86400;
        (seconds_today / 3600) as i64
    } else {
        let magnitude = (-(now as i128)) as u64;
        let seconds_today = magnitude % 86400;
        -((seconds_today / 3600) as i64)
    }
}

/// The exec slot walk: the milestone checked at each slot.
fn nth_checked_milestone(slot: usize) -> (achievement: Achievement)
    requires
        0 <= slot < pass_len(),
    ensures
        achievement == checked_milestone(slot as int),
{
    if slot == 0 {
        Achievement::FirstBlood
    } else if slot == 1 {
        Achievement::SoulStarter
    } else if slot == 2 {
        Achievement::GraveDigger
    } else if slot == 3 {
        Achievement::CryptKeeper
    } else if slot == 4 {
        Achievement::Necromancer
    } else if slot == 5 {
        Achievement::Whale
    } else if slot == 6 {
        Achievement::SoulCollector
    } else if slot == 7 {
        Achievement::SoulReaper
    } else if slot == 8 {
        Achievement::SoulMaster
    } else if slot == 9 {
        Achievement::DeathLord
    } else if slot == 10 {
        Achievement::GrimReaper
    } else if slot == 11 {
        Achievement::CompoundKing
    } else if slot == 12 {
        Achievement::YieldFarmer
    } else if slot == 13 {
        Achievement::DefiDegen
    } else if slot == 14 {
        Achievement::WitchingHour
    } else if slot == 15 {
        Achievement::Haunted
    } else if slot == 16 {
        Achievement::Possessed
    } else if slot == 17 {
        Achievement::Eternal
    } else if slot == 18 {
        Achievement::NightOwl
    } else if slot == 19 {
        Achievement::EarlyBird
    } else {
        Achievement::DiamondHands
    }
}

/// Run one evaluation pass: re-check every milestone condition against the
/// given snapshot, unlock every newly satisfied one (setting its bit and
/// adding its points exactly once), and report the newly unlocked milestones
/// in evaluation order, the points earned, and the resulting rank. Bits are
/// never cleared and the point total never decreases.
pub fn check_achievements(
    achievements: &mut UserAchievements,
    vault: &Vault,
    current_time: i64,
) -> (result: AchievementCheckResult)
    ensures
        final(achievements).unlocked == old(achievements).unlocked | pass_mask(
            *vault,
            *old(achievements),
            current_time,
        ),
        forall|a: Achievement|
            spec_has(final(achievements).unlocked, a) <==> (spec_has(old(achievements).unlocked, a)
                || spec_eligible(a, *vault, *old(achievements), current_time)),
        result.newly_unlocked@ == pass_newly(*vault, *old(achievements), current_time),
        result.points_earned == pass_points(*vault, *old(achievements), current_time),
        final(achievements).points == old(achievements).points.saturating_add(
            result.points_earned,
        ),
        result.total_points == final(achievements).points,
        result.new_rank == Rank::spec_from_points(final(achievements).points),
        final(achievements).rank == (if pass_newly(*vault, *old(achievements), current_time).len()
            == 0 {
            old(achievements).rank
        } else {
            Rank::spec_from_points(final(achievements).points).spec_tier_index()
        }),
        old(achievements).points <= final(achievements).points,
        final(achievements).user == old(achievements).user,
        final(achievements).first_deposit_time == old(achievements).first_deposit_time,
        final(achievements).midnight_harvest_count == old(achievements).midnight_harvest_count,
        final(achievements).highest_compound == old(achievements).highest_compound,
        final(achievements).total_compounds == old(achievements).total_compounds,
{
    let ghost snapshot = *achievements;
    proof {
        let u = snapshot.unlocked;
        assert(u | 0u64 == u) by (bit_vector);
    }
    let mut newly_unlocked: Vec<Achievement> = Vec::new();
    let mut points_earned: u32 = 0;
    let mut slot: usize = 0;
    while slot < 21
        invariant
            slot <= 21,
            achievements.user == snapshot.user,
            achievements.first_deposit_time == snapshot.first_deposit_time,
            achievements.midnight_harvest_count == snapshot.midnight_harvest_count,
            achievements.highest_compound == snapshot.highest_compound,
            achievements.total_compounds == snapshot.total_compounds,
            achievements.unlocked == snapshot.unlocked | pass_mask_prefix(
                *vault,
                snapshot,
                current_time,
                slot as int,
            ),
            newly_unlocked@ == pass_newly_prefix(*vault, snapshot, current_time, slot as int),
            points_earned == pass_points_prefix(*vault, snapshot, current_time, slot as int),
            points_earned <= 200 * slot,
            achievements.points == snapshot.points.saturating_add(points_earned),
            snapshot.points <= achievements.points,
            achievements.rank == (if pass_newly_prefix(
                *vault,
                snapshot,
                current_time,
                slot as int,
            ).len() == 0 {
                snapshot.rank
            } else {
                Rank::spec_from_points(achievements.points).spec_tier_index()
            }),
        decreases 21 - slot,
    {
        let walked = nth_checked_milestone(slot);
        proof {
            lemma_slot_roundtrip(slot as int);
            lemma_mask_prefix_has(*vault, snapshot, current_time, slot as int, walked);
        }
        let met = milestone_satisfied(walked, vault, achievements, current_time);
        assert(met == spec_eligible(walked, *vault, snapshot, current_time));
        if met {
            let ghost mask_before = pass_mask_prefix(*vault, snapshot, current_time, slot as int);
            let pts = achievements.unlock(walked);
            proof {
                let b = walked.bit_index();
                let u = snapshot.unlocked;
                let m = mask_before;
                assert(b < 27);
                assert((u | m) | (1u64 << b) == u | (m | (1u64 << b))) by (bit_vector);
                assert((u | m) & (1u64 << b) != 0 ==> (u | m) | (1u64 << b) == (u | m))
                    by (bit_vector);
            }
            if pts > 0 {
                newly_unlocked.push(walked);
                points_earned = points_earned + pts;
            }
        } else {
            proof {
                let u = snapshot.unlocked;
                let m = pass_mask_prefix(*vault, snapshot, current_time, slot as int);
                assert(u | (m | 0u64) == u | m) by (bit_vector);
            }
        }
        slot = slot + 1;
    }
    proof {
        assert forall|a: Achievement|
            spec_has(achievements.unlocked, a) <==> (spec_has(snapshot.unlocked, a)
                || spec_eligible(a, *vault, snapshot, current_time)) by {
            lemma_mask_prefix_has(*vault, snapshot, current_time, pass_len(), a);
            lemma_eligible_is_checked(a, *vault, snapshot, current_time);
        }
    }
    let rank = achievements.get_rank();
    let total_points = achievements.points;
    AchievementCheckResult { newly_unlocked, points_earned, new_rank: rank, total_points }
}

/// Law: the evaluation pass is idempotent. Once a pass has run, a second
/// pass over the resulting record — with no state change in between —
/// unlocks nothing, awards zero points, and leaves the unlocked field as it
/// was.
pub proof fn lemma_check_achievements_idempotent(
    vault: Vault,
    before: UserAchievements,
    after: UserAchievements,
    now: i64,
)
    requires
        after.unlocked == before.unlocked | pass_mask(vault, before, now),
        after.total_compounds == before.total_compounds,
        after.midnight_harvest_count == before.midnight_harvest_count,
        after.first_deposit_time == before.first_deposit_time,
    ensures
        pass_newly(vault, after, now) == Seq::<Achievement>::empty(),
        pass_points(vault, after, now) == 0,
        after.unlocked | pass_mask(vault, after, now) == after.unlocked,
{
    assert forall|a: Achievement|
        spec_eligible(a, vault, after, now) implies spec_has(after.unlocked, a) by {
        lemma_eligible_is_checked(a, vault, before, now);
        lemma_mask_prefix_has(vault, before, now, pass_len(), a);
    }
    lemma_settled_pass_is_empty(vault, after, now, pass_len());
}

/// On a record where every satisfied milestone is already unlocked, a pass
/// prefix unlocks nothing, awards nothing, and its mask adds no new bit.
proof fn lemma_settled_pass_is_empty(vault: Vault, record: UserAchievements, now: i64, slots: int)
    requires
        slots <= pass_len(),
        forall|a: Achievement|
            spec_eligible(a, vault, record, now) ==> spec_has(record.unlocked, a),
    ensures
        pass_newly_prefix(vault, record, now, slots) == Seq::<Achievement>::empty(),
        pass_points_prefix(vault, record, now, slots) == 0,
        record.unlocked | pass_mask_prefix(vault, record, now, slots) == record.unlocked,
    decreases slots,
{
    let u = record.unlocked;
    if slots <= 0 {
        assert(u | 0u64 == u) by (bit_vector);
    } else {
        lemma_settled_pass_is_empty(vault, record, now, slots - 1);
        let m = pass_mask_prefix(vault, record, now, slots - 1);
        let walked = checked_milestone(slots - 1);
        if spec_eligible(walked, vault, record, now) {
            let b = walked.bit_index();
            assert(b < 27);
            assert(spec_has(record.unlocked, walked));
            assert(u & (1u64 << b) != 0);
            assert(u | (m | (1u64 << b)) == (u | m) | (1u64 << b)) by (bit_vector);
            assert(u & (1u64 << b) != 0 && (u | m) == u ==> (u | m) | (1u64 << b) == u)
                by (bit_vector);
            assert(u | (m | (1u64 << b)) == u);
        } else {
            assert(u | (m | 0u64) == u | m) by (bit_vector);
        }
    }
}

} // verus!
