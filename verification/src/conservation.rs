//! The conservation laws of the three correlated ledgers.
//!
//! Every operation of this library that touches balances moves the vault
//! balance, the owner's leaderboard entry and the global value-locked
//! counter by one and the same delta (its contract says so). These laws
//! state what follows: a vault that enters the system synchronized stays
//! synchronized through any sequence of such operations — the leaderboard
//! entry always mirrors the vault balance, and the global counter always
//! carries the vault balance on top of the untouched rest of the system.

use vstd::prelude::*;

use crate::state::{LeaderboardEntry, Vault, VaultConfig};

verus! {

/// The three ledgers are synchronized: the owner's leaderboard entry
/// mirrors the vault balance, and the global counter carries the vault
/// balance on top of `rest` — the sum of all other vault balances, which
/// operations on this vault never touch.
pub open spec fn ledgers_synced(
    vault: Vault,
    entry: LeaderboardEntry,
    config: VaultConfig,
    rest: int,
) -> bool {
    entry.tvl == vault.balance && config.total_tvl == vault.balance + rest
}

/// One operation moved the three ledgers in lockstep: the vault balance,
/// its leaderboard mirror and the global counter all changed by the same
/// delta.
pub open spec fn same_delta(
    vault0: Vault,
    entry0: LeaderboardEntry,
    config0: VaultConfig,
    vault1: Vault,
    entry1: LeaderboardEntry,
    config1: VaultConfig,
) -> bool {
    vault1.balance - vault0.balance == entry1.tvl - entry0.tvl && vault1.balance - vault0.balance
        == config1.total_tvl - config0.total_tvl
}

/// Law (establishment): a newly created vault enters the system
/// synchronized — its leaderboard entry carries the initial deposit and the
/// global counter grew by exactly that deposit — with the rest of the
/// system being whatever was locked before.
pub proof fn lemma_creation_establishes_sync(
    config_before: VaultConfig,
    config_after: VaultConfig,
    vault: Vault,
    entry: LeaderboardEntry,
)
    requires
        entry.tvl == vault.balance,
        config_after.total_tvl == config_before.total_tvl + vault.balance,
    ensures
        ledgers_synced(vault, entry, config_after, config_before.total_tvl as int),
{
}

/// Law (one step): an operation that moves the three ledgers in lockstep —
/// as every deposit, withdrawal, accrual and harvest of this library
/// ensures, whether it succeeds or changes nothing — keeps them
/// synchronized.
pub proof fn lemma_same_delta_preserves_sync(
    vault0: Vault,
    entry0: LeaderboardEntry,
    config0: VaultConfig,
    vault1: Vault,
    entry1: LeaderboardEntry,
    config1: VaultConfig,
    rest: int,
)
    requires
        ledgers_synced(vault0, entry0, config0, rest),
        same_delta(vault0, entry0, config0, vault1, entry1, config1),
    ensures
        ledgers_synced(vault1, entry1, config1, rest),
{
}

/// Law (any sequence): along any trace of ledger states whose every step
/// moves the three ledgers in lockstep — any sequence of deposits,
/// withdrawals, accruals and harvests — a synchronized start stays
/// synchronized at every point: the leaderboard entry equals the vault
/// balance, and the global counter equals the vault balance plus the
/// untouched rest, after every operation.
pub proof fn lemma_trace_preserves_sync(
    vaults: Seq<Vault>,
    entries: Seq<LeaderboardEntry>,
    configs: Seq<VaultConfig>,
    rest: int,
)
    requires
        vaults.len() == entries.len(),
        vaults.len() == configs.len(),
        vaults.len() > 0,
        ledgers_synced(vaults[0], entries[0], configs[0], rest),
        forall|i: int|
            0 <= i < vaults.len() - 1 ==> same_delta(
                vaults[i],
                entries[i],
                configs[i],
                #[trigger] vaults[i + 1],
                entries[i + 1],
                configs[i + 1],
            ),
    ensures
        forall|i: int|
            0 <= i < vaults.len() ==> ledgers_synced(
                #[trigger] vaults[i],
                entries[i],
                configs[i],
                rest,
            ),
{
    assert forall|i: int|
        0 <= i < vaults.len() implies ledgers_synced(
        #[trigger] vaults[i],
        entries[i],
        configs[i],
        rest,
    ) by {
        lemma_trace_synced_at(vaults, entries, configs, rest, i);
    }
}

/// The sum of the balances of a sequence of vaults.
pub open spec fn sum_balances(vaults: Seq<Vault>) -> int
    decreases vaults.len(),
{
    if vaults.len() == 0 {
        0
    } else {
        sum_balances(vaults.drop_last()) + vaults.last().balance
    }
}

/// Replacing one vault moves the sum by exactly that vault's balance delta.
pub proof fn lemma_sum_balances_update(vaults: Seq<Vault>, at: int, updated: Vault)
    requires
        0 <= at < vaults.len(),
    ensures
        sum_balances(vaults.update(at, updated)) == sum_balances(vaults) - vaults[at].balance
            + updated.balance,
    decreases vaults.len(),
{
    let changed = vaults.update(at, updated);
    if at == vaults.len() - 1 {
        assert(changed.drop_last() =~= vaults.drop_last());
        assert(changed.last() == updated);
    } else {
        assert(changed.drop_last() =~= vaults.drop_last().update(at, updated));
        assert(changed.last() == vaults.last());
        lemma_sum_balances_update(vaults.drop_last(), at, updated);
    }
}

/// Law (the global ledger over all vaults): where the global counter equals
/// the sum of every vault's balance, and one operation changes one vault
/// while moving the counter by that vault's balance delta — as every
/// operation of this library ensures — the counter again equals the sum of
/// every vault's balance.
pub proof fn lemma_global_counter_tracks_sum(
    vaults: Seq<Vault>,
    at: int,
    updated: Vault,
    config_before: VaultConfig,
    config_after: VaultConfig,
)
    requires
        0 <= at < vaults.len(),
        config_before.total_tvl == sum_balances(vaults),
        config_after.total_tvl - config_before.total_tvl == updated.balance
            - vaults[at].balance,
    ensures
        config_after.total_tvl == sum_balances(vaults.update(at, updated)),
{
    lemma_sum_balances_update(vaults, at, updated);
}

/// The trace stays synchronized up to any given point.
proof fn lemma_trace_synced_at(
    vaults: Seq<Vault>,
    entries: Seq<LeaderboardEntry>,
    configs: Seq<VaultConfig>,
    rest: int,
    upto: int,
)
    requires
        vaults.len() == entries.len(),
        vaults.len() == configs.len(),
        0 <= upto < vaults.len(),
        ledgers_synced(vaults[0], entries[0], configs[0], rest),
        forall|i: int|
            0 <= i < vaults.len() - 1 ==> same_delta(
                vaults[i],
                entries[i],
                configs[i],
                #[trigger] vaults[i + 1],
                entries[i + 1],
                configs[i + 1],
            ),
    ensures
        ledgers_synced(vaults[upto], entries[upto], configs[upto], rest),
    decreases upto,
{
    if upto > 0 {
        lemma_trace_synced_at(vaults, entries, configs, rest, upto - 1);
        assert(same_delta(
            vaults[upto - 1],
            entries[upto - 1],
            configs[upto - 1],
            vaults[upto - 1 + 1],
            entries[upto - 1 + 1],
            configs[upto - 1 + 1],
        ));
        lemma_same_delta_preserves_sync(
            vaults[upto - 1],
            entries[upto - 1],
            configs[upto - 1],
            vaults[upto],
            entries[upto],
            configs[upto],
            rest,
        );
    }
}

} // verus!
