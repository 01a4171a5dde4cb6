//! The achievement state machine: a 64-bit field of one-way milestone flags,
//! a monotonically non-decreasing point total, and a rank tier derived from
//! the points.

use vstd::prelude::*;

verus! {

/// The milestones. Each one occupies a single bit of the unlocked field, at
/// the index given by [`Achievement::bit_index`], and carries a fixed point
/// value.
#[derive(Clone, Copy, Debug, PartialEq, Eq, Structural)]
pub enum Achievement {
    /// Make a first deposit.
    FirstBlood,
    /// Hold 1,000 tokens.
    SoulStarter,
    /// Hold 10,000 tokens.
    GraveDigger,
    /// Hold 100,000 tokens.
    CryptKeeper,
    /// Hold 1,000,000 tokens.
    Necromancer,
    /// Harvest 100 souls.
    SoulCollector,
    /// Harvest 1,000 souls.
    SoulReaper,
    /// Harvest 10,000 souls.
    SoulMaster,
    /// Harvest 100,000 souls.
    DeathLord,
    /// Harvest 1,000,000 souls.
    GrimReaper,
    /// Compound during the midnight hour (00:00-01:00 UTC).
    NightOwl,
    /// Compound during the dawn hour (05:00-06:00 UTC).
    EarlyBird,
    /// Perform 10 compounds.
    CompoundKing,
    /// Perform 100 compounds.
    YieldFarmer,
    /// Perform 1,000 compounds.
    DefiDegen,
    /// Take part in 1 midnight harvest.
    WitchingHour,
    /// Take part in 7 midnight harvests.
    Haunted,
    /// Take part in 30 midnight harvests.
    Possessed,
    /// Take part in 365 midnight harvests.
    Eternal,
    /// Hold a boost credential.
    ReapersChosen,
    /// Hold for 30 days without withdrawing.
    DiamondHands,
    /// Be among the first depositors.
    OgSoul,
    /// Hold 1,000,000 or more tokens.
    Whale,
    /// Donate 10,000 or more to charity through midnight harvests.
    CharityChampion,
    /// Compound 7 days in a row.
    HotStreak,
    /// Compound 30 days in a row.
    OnFire,
    /// Compound 100 days in a row.
    Unstoppable,
}

impl Achievement {
    /// The bit this milestone occupies in the unlocked field; every
    /// milestone has its own index, all below 27.
    pub open spec fn bit_index(self) -> u64 {
        match self {
            Achievement::FirstBlood => 0,
            Achievement::SoulStarter => 1,
            Achievement::GraveDigger => 2,
            Achievement::CryptKeeper => 3,
            Achievement::Necromancer => 4,
            Achievement::SoulCollector => 5,
            Achievement::SoulReaper => 6,
            Achievement::SoulMaster => 7,
            Achievement::DeathLord => 8,
            Achievement::GrimReaper => 9,
            Achievement::NightOwl => 10,
            Achievement::EarlyBird => 11,
            Achievement::CompoundKing => 12,
            Achievement::YieldFarmer => 13,
            Achievement::DefiDegen => 14,
            Achievement::WitchingHour => 15,
            Achievement::Haunted => 16,
            Achievement::Possessed => 17,
            Achievement::Eternal => 18,
            Achievement::ReapersChosen => 19,
            Achievement::DiamondHands => 20,
            Achievement::OgSoul => 21,
            Achievement::Whale => 22,
            Achievement::CharityChampion => 23,
            Achievement::HotStreak => 24,
            Achievement::OnFire => 25,
            Achievement::Unstoppable => 26,
        }
    }

    /// The single-bit mask of this milestone.
    pub open spec fn bit(self) -> u64 {
        1u64 << self.bit_index()
    }

    /// The bit this milestone occupies in the unlocked field.
    pub fn index(&self) -> (idx: u64)
        ensures
            idx == self.bit_index(),
            idx < 27,
    {
        match self {
            Achievement::FirstBlood => 0,
            Achievement::SoulStarter => 1,
            Achievement::GraveDigger => 2,
            Achievement::CryptKeeper => 3,
            Achievement::Necromancer => 4,
            Achievement::SoulCollector => 5,
            Achievement::SoulReaper => 6,
            Achievement::SoulMaster => 7,
            Achievement::DeathLord => 8,
            Achievement::GrimReaper => 9,
            Achievement::NightOwl => 10,
            Achievement::EarlyBird => 11,
            Achievement::CompoundKing => 12,
            Achievement::YieldFarmer => 13,
            Achievement::DefiDegen => 14,
            Achievement::WitchingHour => 15,
            Achievement::Haunted => 16,
            Achievement::Possessed => 17,
            Achievement::Eternal => 18,
            Achievement::ReapersChosen => 19,
            Achievement::DiamondHands => 20,
            Achievement::OgSoul => 21,
            Achievement::Whale => 22,
            Achievement::CharityChampion => 23,
            Achievement::HotStreak => 24,
            Achievement::OnFire => 25,
            Achievement::Unstoppable => 26,
        }
    }

    /// The fixed point value awarded when this milestone unlocks; at most
    /// 200.
    pub open spec fn spec_points(self) -> u32 {
        match self {
            Achievement::FirstBlood => 10,
            Achievement::SoulStarter => 20,
            Achievement::GraveDigger => 40,
            Achievement::CryptKeeper => 70,
            Achievement::Necromancer => 100,
            Achievement::SoulCollector => 15,
            Achievement::SoulReaper => 30,
            Achievement::SoulMaster => 60,
            Achievement::DeathLord => 100,
            Achievement::GrimReaper => 150,
            Achievement::NightOwl => 25,
            Achievement::EarlyBird => 25,
            Achievement::CompoundKing => 20,
            Achievement::YieldFarmer => 35,
            Achievement::DefiDegen => 50,
            Achievement::WitchingHour => 20,
            Achievement::Haunted => 40,
            Achievement::Possessed => 80,
            Achievement::Eternal => 200,
            Achievement::ReapersChosen => 100,
            Achievement::DiamondHands => 75,
            Achievement::OgSoul => 100,
            Achievement::Whale => 80,
            Achievement::CharityChampion => 60,
            Achievement::HotStreak => 30,
            Achievement::OnFire => 60,
            Achievement::Unstoppable => 100,
        }
    }

    /// The point value awarded when this milestone unlocks.
    pub fn points(&self) -> (pts: u32)
        ensures
            pts == self.spec_points(),
            pts <= 200,
    {
        match self {
            Achievement::FirstBlood => 10,
            Achievement::SoulStarter => 20,
            Achievement::GraveDigger => 40,
            Achievement::CryptKeeper => 70,
            Achievement::Necromancer => 100,
            Achievement::SoulCollector => 15,
            Achievement::SoulReaper => 30,
            Achievement::SoulMaster => 60,
            Achievement::DeathLord => 100,
            Achievement::GrimReaper => 150,
            Achievement::NightOwl => 25,
            Achievement::EarlyBird => 25,
            Achievement::CompoundKing => 20,
            Achievement::YieldFarmer => 35,
            Achievement::DefiDegen => 50,
            Achievement::WitchingHour => 20,
            Achievement::Haunted => 40,
            Achievement::Possessed => 80,
            Achievement::Eternal => 200,
            Achievement::ReapersChosen => 100,
            Achievement::DiamondHands => 75,
            Achievement::OgSoul => 100,
            Achievement::Whale => 80,
            Achievement::CharityChampion => 60,
            Achievement::HotStreak => 30,
            Achievement::OnFire => 60,
            Achievement::Unstoppable => 100,
        }
    }

    /// The display name of this milestone, as a sequence of characters.
    pub open spec fn spec_name(self) -> Seq<char> {
        match self {
            Achievement::FirstBlood => "First Blood"@,
            Achievement::SoulStarter => "Soul Starter"@,
            Achievement::GraveDigger => "Grave Digger"@,
            Achievement::CryptKeeper => "Crypt Keeper"@,
            Achievement::Necromancer => "Necromancer"@,
            Achievement::SoulCollector => "Soul Collector"@,
            Achievement::SoulReaper => "Soul Reaper"@,
            Achievement::SoulMaster => "Soul Master"@,
            Achievement::DeathLord => "Death Lord"@,
            Achievement::GrimReaper => "Grim Reaper"@,
            Achievement::NightOwl => "Night Owl"@,
            Achievement::EarlyBird => "Early Bird"@,
            Achievement::CompoundKing => "Compound King"@,
            Achievement::YieldFarmer => "Yield Farmer"@,
            Achievement::DefiDegen => "DeFi Degen"@,
            Achievement::WitchingHour => "Witching Hour"@,
            Achievement::Haunted => "Haunted"@,
            Achievement::Possessed => "Possessed"@,
            Achievement::Eternal => "Eternal"@,
            Achievement::ReapersChosen => "Reaper's Chosen"@,
            Achievement::DiamondHands => "Diamond Hands"@,
            Achievement::OgSoul => "OG Soul"@,
            Achievement::Whale => "Whale"@,
            Achievement::CharityChampion => "Charity Champion"@,
            Achievement::HotStreak => "Hot Streak"@,
            Achievement::OnFire => "On Fire"@,
            Achievement::Unstoppable => "Unstoppable"@,
        }
    }

    /// The display name of this milestone.
    pub fn name(&self) -> (r: &'static str)
        ensures
            r@ == self.spec_name(),
    {
        match self {
            Achievement::FirstBlood => "First Blood",
            Achievement::SoulStarter => "Soul Starter",
            Achievement::GraveDigger => "Grave Digger",
            Achievement::CryptKeeper => "Crypt Keeper",
            Achievement::Necromancer => "Necromancer",
            Achievement::SoulCollector => "Soul Collector",
            Achievement::SoulReaper => "Soul Reaper",
            Achievement::SoulMaster => "Soul Master",
            Achievement::DeathLord => "Death Lord",
            Achievement::GrimReaper => "Grim Reaper",
            Achievement::NightOwl => "Night Owl",
            Achievement::EarlyBird => "Early Bird",
            Achievement::CompoundKing => "Compound King",
            Achievement::YieldFarmer => "Yield Farmer",
            Achievement::DefiDegen => "DeFi Degen",
            Achievement::WitchingHour => "Witching Hour",
            Achievement::Haunted => "Haunted",
            Achievement::Possessed => "Possessed",
            Achievement::Eternal => "Eternal",
            Achievement::ReapersChosen => "Reaper's Chosen",
            Achievement::DiamondHands => "Diamond Hands",
            Achievement::OgSoul => "OG Soul",
            Achievement::Whale => "Whale",
            Achievement::CharityChampion => "Charity Champion",
            Achievement::HotStreak => "Hot Streak",
            Achievement::OnFire => "On Fire",
            Achievement::Unstoppable => "Unstoppable",
        }
    }
}

/// Rank tiers, a coarse bucket derived from cumulative achievement points.
#[derive(Clone, Copy, Debug, PartialEq, Eq, Structural)]
pub enum Rank {
    /// 0-99 points; displayed as "Ghost".
    GhostRank,
    /// 100-299 points.
    Specter,
    /// 300-599 points.
    Wraith,
    /// 600-999 points.
    Phantom,
    /// 1000 points and up.
    Reaper,
}

impl Rank {
    /// The rank owed at a given point total: a pure step function of the
    /// points.
    pub open spec fn spec_from_points(points: u32) -> Rank {
        if points >= 1000 {
            Rank::Reaper
        } else if points >= 600 {
            Rank::Phantom
        } else if points >= 300 {
            Rank::Wraith
        } else if points >= 100 {
            Rank::Specter
        } else {
            Rank::GhostRank
        }
    }

    /// Compute the rank owed at a given point total.
    pub fn from_points(points: u32) -> (rank: Rank)
        ensures
            rank == Rank::spec_from_points(points),
    {
        if points >= 1000 {
            Rank::Reaper
        } else if points >= 600 {
            Rank::Phantom
        } else if points >= 300 {
            Rank::Wraith
        } else if points >= 100 {
            Rank::Specter
        } else {
            Rank::GhostRank
        }
    }

    /// The tier number of this rank, 0 through 4.
    pub open spec fn spec_tier_index(self) -> u8 {
        match self {
            Rank::GhostRank => 0,
            Rank::Specter => 1,
            Rank::Wraith => 2,
            Rank::Phantom => 3,
            Rank::Reaper => 4,
        }
    }

    /// The tier number of this rank, 0 through 4.
    pub fn tier_index(&self) -> (tier: u8)
        ensures
            tier == self.spec_tier_index(),
    {
        match self {
            Rank::GhostRank => 0,
            Rank::Specter => 1,
            Rank::Wraith => 2,
            Rank::Phantom => 3,
            Rank::Reaper => 4,
        }
    }

    /// The bonus multiplier this rank carries, in basis points; offered to
    /// callers, never applied by the engine itself.
    pub open spec fn spec_bonus_bps(self) -> u16 {
        match self {
            Rank::GhostRank => 10000,
            Rank::Specter => 10100,
            Rank::Wraith => 10250,
            Rank::Phantom => 10500,
            Rank::Reaper => 11000,
        }
    }

    /// The bonus multiplier this rank carries, in basis points.
    pub fn bonus_bps(&self) -> (bonus: u16)
        ensures
            bonus == self.spec_bonus_bps(),
    {
        match self {
            Rank::GhostRank => 10000,
            Rank::Specter => 10100,
            Rank::Wraith => 10250,
            Rank::Phantom => 10500,
            Rank::Reaper => 11000,
        }
    }

    /// The display name of this rank, as a sequence of characters.
    pub open spec fn spec_name(self) -> Seq<char> {
        match self {
            Rank::GhostRank => "Ghost"@,
            Rank::Specter => "Specter"@,
            Rank::Wraith => "Wraith"@,
            Rank::Phantom => "Phantom"@,
            Rank::Reaper => "Reaper"@,
        }
    }

    /// The display name of this rank.
    pub fn name(&self) -> (r: &'static str)
        ensures
            r@ == self.spec_name(),
    {
        match self {
            Rank::GhostRank => "Ghost",
            Rank::Specter => "Specter",
            Rank::Wraith => "Wraith",
            Rank::Phantom => "Phantom",
            Rank::Reaper => "Reaper",
        }
    }
}

/// Whether the milestone's bit is set in an unlocked field.
pub open spec fn spec_has(unlocked: u64, achievement: Achievement) -> bool {
    unlocked & achievement.bit() != 0
}

/// One owner's achievement record.
#[derive(Clone, Copy, Debug, PartialEq, Eq, Structural)]
pub struct UserAchievements {
    /// Identity of the owner.
    pub user: u64,
    /// Bitfield of unlocked milestones; a bit, once set, is never cleared.
    pub unlocked: u64,
    /// Tier number of the current rank, 0 through 4; recomputed on every
    /// unlock.
    pub rank: u8,
    /// Total achievement points; only ever increases, with saturating
    /// addition.
    pub points: u32,
    /// Epoch seconds of the owner's first deposit.
    pub first_deposit_time: i64,
    /// Number of midnight harvests taken part in.
    pub midnight_harvest_count: u32,
    /// Largest single compound reward earned.
    pub highest_compound: u64,
    /// Total number of compounds performed.
    pub total_compounds: u32,
}

/// Set up achievement tracking for a user: nothing unlocked, no points, the
/// lowest rank, and the given time recorded as the first deposit.
pub fn init_achievements(user: u64, current_time: i64) -> (record: UserAchievements)
    ensures
        record == (UserAchievements {
            user,
            unlocked: 0,
            rank: 0,
            points: 0,
            first_deposit_time: current_time,
            midnight_harvest_count: 0,
            highest_compound: 0,
            total_compounds: 0,
        }),
{
    UserAchievements {
        user,
        unlocked: 0,
        rank: 0,
        points: 0,
        first_deposit_time: current_time,
        midnight_harvest_count: 0,
        highest_compound: 0,
        total_compounds: 0,
    }
}

/// Setting one bit in a field leaves every bit set that was set, sets the
/// chosen one, and touches no other.
pub proof fn lemma_set_bit(bits: u64, set_index: u64, probe_index: u64)
    requires
        set_index < 64,
        probe_index < 64,
    ensures
        ((bits | (1u64 << set_index)) & (1u64 << probe_index) != 0) <==> (bits & (1u64
            << probe_index) != 0 || set_index == probe_index),
{
    assert(((bits | (1u64 << set_index)) & (1u64 << probe_index) != 0) <==> (bits & (1u64
        << probe_index) != 0 || set_index == probe_index)) by (bit_vector)
        requires
            set_index < 64,
            probe_index < 64,
    ;
}

/// No two milestones share a bit index.
pub proof fn lemma_bit_index_injective(a: Achievement, b: Achievement)
    ensures
        a.bit_index() == b.bit_index() ==> a == b,
{
}

impl UserAchievements {
    /// Whether a milestone is unlocked in this record.
    pub fn has_achievement(&self, achievement: Achievement) -> (unlocked: bool)
        ensures
            unlocked == spec_has(self.unlocked, achievement),
    {
        let bit = 1u64 << achievement.index();
        self.unlocked & bit != 0
    }

    /// Unlock a milestone: set its bit, add its points (saturating) and
    /// recompute the rank tier, exactly once. Unlocking an already-unlocked
    /// milestone changes nothing and returns zero points. Unlocked bits are
    /// never cleared and the point total never decreases.
    pub fn unlock(&mut self, achievement: Achievement) -> (points_earned: u32)
        ensures
            spec_has(old(self).unlocked, achievement) ==> *final(self) == *old(self)
                && points_earned == 0,
            !spec_has(old(self).unlocked, achievement) ==> {
                &&& final(self).unlocked == old(self).unlocked | achievement.bit()
                &&& points_earned == achievement.spec_points()
                &&& final(self).points == old(self).points.saturating_add(
                    achievement.spec_points(),
                )
                &&& final(self).rank == Rank::spec_from_points(
                    final(self).points,
                ).spec_tier_index()
            },
            spec_has(final(self).unlocked, achievement),
            forall|other: Achievement|
                spec_has(old(self).unlocked, other) ==> spec_has(final(self).unlocked, other),
            forall|other: Achievement|
                other != achievement ==> spec_has(final(self).unlocked, other) == spec_has(
                    old(self).unlocked,
                    other,
                ),
            old(self).points <= final(self).points,
            final(self).user == old(self).user,
            final(self).first_deposit_time == old(self).first_deposit_time,
            final(self).midnight_harvest_count == old(self).midnight_harvest_count,
            final(self).highest_compound == old(self).highest_compound,
            final(self).total_compounds == old(self).total_compounds,
    {
        let idx = achievement.index();
        let bit = 1u64 << idx;
        if self.unlocked & bit != 0 {
            return 0;
        }
        self.unlocked = self.unlocked | bit;
        proof {
            assert forall|other: Achievement|
                (spec_has(old(self).unlocked, other) ==> spec_has(self.unlocked, other)) && (other
                    != achievement ==> spec_has(self.unlocked, other) == spec_has(
                    old(self).unlocked,
                    other,
                )) by {
                lemma_bit_index_injective(other, achievement);
                lemma_set_bit(old(self).unlocked, achievement.bit_index(), other.bit_index());
            }
            lemma_set_bit(old(self).unlocked, achievement.bit_index(), achievement.bit_index());
        }
        let pts = achievement.points();
        self.points = self.points.saturating_add(pts);
        self.rank = Rank::from_points(self.points).tier_index();
        pts
    }

    /// The rank owed at the record's current point total.
    pub fn get_rank(&self) -> (rank: Rank)
        ensures
            rank == Rank::spec_from_points(self.points),
    {
        Rank::from_points(self.points)
    }

    /// Count the unlocked milestones.
    pub fn count_unlocked(&self) -> (count: u32)
        ensures
            count == count_bits(self.unlocked),
    {
        let mut remaining = self.unlocked;
        let mut count: u32 = 0;
        let mut i: u32 = 0;
        while i < 64
            invariant
                i <= 64,
                count <= i,
                count + count_bits_rec(remaining, 64 - i) == count_bits(self.unlocked),
            decreases 64 - i,
        {
            proof {
                lemma_count_bits_rec_bound(remaining, 64 - i);
            }
            count = count + (remaining % 2) as u32;
            remaining = remaining / 2;
            i = i + 1;
        }
        count
    }
}

/// The number of set bits among the lowest `width` bits of `x`.
pub open spec fn count_bits_rec(x: u64, width: int) -> int
    decreases width,
{
    if width <= 0 {
        0
    } else {
        x % 2 + count_bits_rec((x / 2) as u64, width - 1)
    }
}

/// The number of set bits of a 64-bit field.
pub open spec fn count_bits(x: u64) -> int {
    count_bits_rec(x, 64)
}

/// A `width`-bit count lies between 0 and `width`.
pub proof fn lemma_count_bits_rec_bound(x: u64, width: int)
    ensures
        0 <= count_bits_rec(x, width) <= if width <= 0 {
            0int
        } else {
            width
        },
    decreases width,
{
    if width > 0 {
        lemma_count_bits_rec_bound((x / 2) as u64, width - 1);
    }
}

} // verus!
