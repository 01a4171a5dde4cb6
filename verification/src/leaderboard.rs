//! The leaderboard ranker: a stateless, read-only pass that orders entries
//! by value locked, descending, and assigns dense 0-based ranks.
//!
//! The sort is stable: entries of equal value keep their input order, so of
//! two equal entries the earlier one receives the better rank. This is the
//! one tie-break this library commits to.

use vstd::prelude::*;

use vstd::seq_lib::group_to_multiset_ensures;

use crate::state::LeaderboardEntry;

verus! {

/// A leaderboard entry together with the rank the ranking pass assigned it.
#[derive(Clone, Copy, Debug, PartialEq, Eq, Structural)]
pub struct LeaderboardEntryRanked {
    /// Identity of the owner.
    pub user: u64,
    /// The owner's value locked.
    pub tvl: u64,
    /// 0-based position in the ranking: 0 is the highest value locked.
    pub rank: u32,
}

/// Whether a sequence of entries is ordered by value locked, descending.
pub open spec fn sorted_desc(s: Seq<LeaderboardEntry>) -> bool {
    forall|i: int, j: int| 0 <= i <= j < s.len() ==> s[i].tvl >= s[j].tvl
}

/// Insert an entry into a descending-sorted sequence, behind every entry of
/// equal or greater value: the stable insertion position.
pub open spec fn insert_by_tvl(sorted: Seq<LeaderboardEntry>, entry: LeaderboardEntry) -> Seq<
    LeaderboardEntry,
>
    decreases sorted.len(),
{
    if sorted.len() == 0 {
        seq![entry]
    } else if sorted[0].tvl >= entry.tvl {
        seq![sorted[0]] + insert_by_tvl(sorted.drop_first(), entry)
    } else {
        seq![entry] + sorted
    }
}

/// The stable descending sort of a sequence of entries: entries of equal
/// value keep their input order.
pub open spec fn sort_by_tvl(entries: Seq<LeaderboardEntry>) -> Seq<LeaderboardEntry>
    decreases entries.len(),
{
    if entries.len() == 0 {
        Seq::empty()
    } else {
        insert_by_tvl(sort_by_tvl(entries.drop_last()), entries.last())
    }
}

/// Stable insertion keeps the sequence sorted, grows it by the one entry,
/// and permutes nothing else.
proof fn lemma_insert_by_tvl_props(sorted: Seq<LeaderboardEntry>, entry: LeaderboardEntry)
    requires
        sorted_desc(sorted),
    ensures
        insert_by_tvl(sorted, entry).len() == sorted.len() + 1,
        sorted_desc(insert_by_tvl(sorted, entry)),
        insert_by_tvl(sorted, entry).to_multiset() == sorted.to_multiset().insert(entry),
        insert_by_tvl(sorted, entry)[0].tvl == if sorted.len() == 0 {
            entry.tvl
        } else if sorted[0].tvl >= entry.tvl {
            sorted[0].tvl
        } else {
            entry.tvl
        },
    decreases sorted.len(),
{
    broadcast use group_to_multiset_ensures;

    if sorted.len() == 0 {
        assert(seq![entry] =~= Seq::<LeaderboardEntry>::empty().push(entry));
    } else if sorted[0].tvl >= entry.tvl {
        let head = sorted[0];
        let tail = sorted.drop_first();
        assert(sorted_desc(tail));
        lemma_insert_by_tvl_props(tail, entry);
        let rec = insert_by_tvl(tail, entry);
        let whole = seq![head] + rec;
        assert(forall|i: int| 0 <= i < rec.len() ==> whole[i + 1] == rec[i]);
        assert(head.tvl >= rec[0].tvl);
        assert forall|i: int, j: int| 0 <= i <= j < whole.len() implies whole[i].tvl
            >= whole[j].tvl by {
            if i == 0 && j > 0 {
                assert(whole[j] == rec[j - 1]);
                assert(rec[0].tvl >= rec[j - 1].tvl);
            }
        }
        assert(whole =~= rec.insert(0, head));
        assert(whole.to_multiset() == rec.to_multiset().insert(head));
        assert(sorted =~= tail.insert(0, head));
        assert(sorted.to_multiset() == tail.to_multiset().insert(head));
        assert(tail.to_multiset().insert(entry).insert(head) =~= tail.to_multiset().insert(
            head,
        ).insert(entry));
    } else {
        assert(seq![entry] + sorted =~= sorted.insert(0, entry));
        assert(forall|j: int|
            0 <= j < sorted.len() ==> (seq![entry] + sorted)[j + 1] == sorted[j]);
    }
}

/// Law: the ranking order is a permutation. The stable descending sort
/// keeps every entry, keeps nothing else, and orders them by value locked,
/// descending.
pub proof fn lemma_sort_by_tvl_props(entries: Seq<LeaderboardEntry>)
    ensures
        sort_by_tvl(entries).len() == entries.len(),
        sorted_desc(sort_by_tvl(entries)),
        sort_by_tvl(entries).to_multiset() == entries.to_multiset(),
    decreases entries.len(),
{
    broadcast use group_to_multiset_ensures;

    if entries.len() > 0 {
        let front = entries.drop_last();
        lemma_sort_by_tvl_props(front);
        lemma_insert_by_tvl_props(sort_by_tvl(front), entries.last());
        assert(entries =~= front.push(entries.last()));
    }
}

/// Where the stable insertion position is known, the insertion is a plain
/// sequence insert there.
proof fn lemma_insert_by_tvl_at(
    sorted: Seq<LeaderboardEntry>,
    entry: LeaderboardEntry,
    pos: int,
)
    requires
        0 <= pos <= sorted.len(),
        forall|i: int| 0 <= i < pos ==> sorted[i].tvl >= entry.tvl,
        forall|i: int| pos <= i < sorted.len() ==> sorted[i].tvl < entry.tvl,
    ensures
        insert_by_tvl(sorted, entry) == sorted.insert(pos, entry),
    decreases sorted.len(),
{
    if sorted.len() == 0 {
        assert(insert_by_tvl(sorted, entry) =~= sorted.insert(0, entry));
    } else if pos == 0 {
        assert(sorted[0].tvl < entry.tvl);
        assert(seq![entry] + sorted =~= sorted.insert(0, entry));
    } else {
        assert(sorted[0].tvl >= entry.tvl);
        let tail = sorted.drop_first();
        assert(forall|i: int| 0 <= i < pos - 1 ==> tail[i] == sorted[i + 1]);
        assert(forall|i: int| pos - 1 <= i < tail.len() ==> tail[i] == sorted[i + 1]);
        lemma_insert_by_tvl_at(tail, entry, pos - 1);
        assert(seq![sorted[0]] + tail.insert(pos - 1, entry) =~= sorted.insert(pos, entry));
    }
}

/// Rank the given entries: order them by value locked, descending — entries
/// of equal value keeping their input order — and assign each its 0-based
/// position as its rank. A read-only transform: the input entries are not
/// changed, and the persisted rank fields play no part.
pub fn query_leaderboard(entries: &Vec<LeaderboardEntry>) -> (ranked: Vec<LeaderboardEntryRanked>)
    requires
        entries@.len() <= u32::MAX,
    ensures
        ranked@.len() == entries@.len(),
        forall|i: int|
            0 <= i < ranked@.len() ==> ranked@[i] == (LeaderboardEntryRanked {
                user: sort_by_tvl(entries@)[i].user,
                tvl: sort_by_tvl(entries@)[i].tvl,
                rank: i as u32,
            }),
        forall|i: int, j: int|
            0 <= i <= j < ranked@.len() ==> ranked@[i].tvl >= ranked@[j].tvl,
        sort_by_tvl(entries@).to_multiset() == entries@.to_multiset(),
{
    proof {
        lemma_sort_by_tvl_props(entries@);
    }
    let mut sorted: Vec<LeaderboardEntry> = Vec::new();
    let mut taken: usize = 0;
    while taken < entries.len()
        invariant
            taken <= entries@.len(),
            sorted@ == sort_by_tvl(entries@.subrange(0, taken as int)),
            sorted_desc(sorted@),
            sorted@.len() == taken,
        decreases entries@.len() - taken,
    {
        let entry = entries[taken];
        let mut pos: usize = sorted.len();
        while pos > 0 && sorted[pos - 1].tvl < entry.tvl
            invariant
                pos <= sorted@.len(),
                forall|i: int| pos <= i < sorted@.len() ==> sorted@[i].tvl < entry.tvl,
            decreases pos,
        {
            pos = pos - 1;
        }
        proof {
            assert forall|i: int| 0 <= i < pos implies sorted@[i].tvl >= entry.tvl by {
                assert(sorted@[i].tvl >= sorted@[pos as int - 1].tvl);
            }
        }
        proof {
            lemma_insert_by_tvl_at(sorted@, entry, pos as int);
            lemma_insert_by_tvl_props(sorted@, entry);
        }
        sorted.insert(pos, entry);
        proof {
            let prefix = entries@.subrange(0, taken as int);
            let grown = entries@.subrange(0, taken as int + 1);
            assert(grown.drop_last() =~= prefix);
            assert(grown.last() == entries@[taken as int]);
        }
        taken = taken + 1;
    }
    proof {
        assert(entries@.subrange(0, entries@.len() as int) =~= entries@);
    }
    let mut ranked: Vec<LeaderboardEntryRanked> = Vec::new();
    let mut position: usize = 0;
    while position < sorted.len()
        invariant
            position <= sorted@.len(),
            sorted@ == sort_by_tvl(entries@),
            sorted@.len() == entries@.len() <= u32::MAX,
            sorted_desc(sorted@),
            ranked@.len() == position,
            forall|i: int|
                0 <= i < position ==> ranked@[i] == (LeaderboardEntryRanked {
                    user: sort_by_tvl(entries@)[i].user,
                    tvl: sort_by_tvl(entries@)[i].tvl,
                    rank: i as u32,
                }),
        decreases sorted@.len() - position,
    {
        let slot = sorted[position];
        ranked.push(LeaderboardEntryRanked { user: slot.user, tvl: slot.tvl, rank: position as u32 });
        position = position + 1;
    }
    ranked
}

} // verus!
