//! The battle lifecycle, the dispute protocol and the payout engine.
//!
//! A battle is a two-principal contest with an escrowed entry fee on each
//! side and optional spectator side bets. Settlement is a two-phase
//! optimistic commit: the authority proposes a winner, a challenge window
//! opens, anyone may file a bonded dispute, and once the window passes (or
//! the dispute is resolved) the contest becomes `Settled` and funds are
//! claimable.
//!
//! Fund movement is a collaborator: an operation that moves value reports
//! the amount as its `Ok` result (claims, refunds, sweeps) or expects the
//! caller to have escrowed the stated stake before applying the transition
//! (create, join, side bets, dispute bonds). The wall clock is passed in as
//! `now` and the caller's authenticated identity as a [`Principal`].

use crate::math::{
    after_fee_of, calculate_amount_after_fee, fee_of, lemma_fee_split, lemma_shares_sum_bounded,
    share_of, sum_seq, sum_shares, BPS_DENOMINATOR,
};
use crate::principal::Principal;
use vstd::prelude::*;

verus! {

/// Platform rake on the player prize pool, in basis points (10%).
pub const PLAYER_RAKE_BPS: u64 = 1000;

/// Platform rake on spectator winnings, in basis points (5%).
pub const SPECTATOR_RAKE_BPS: u64 = 500;

/// Minimum entry fee for a battle.
pub const MIN_ENTRY_LAMPORTS: u64 = 100_000_000;

/// Minimum spectator bet.
pub const MIN_SPECTATOR_BET: u64 = 10_000_000;

/// Battle duration in seconds (30 minutes).
pub const BATTLE_DURATION_SECS: i64 = 1800;

/// Spectator betting locks this many seconds before the battle ends.
pub const BETTING_LOCK_BEFORE_END: i64 = 30;

/// Length of the dispute window in seconds (1 hour).
pub const DISPUTE_WINDOW_SECS: i64 = 3600;

/// Bond staked to file a dispute.
pub const DISPUTE_STAKE_LAMPORTS: u64 = 100_000_000;

/// Time after settlement before unclaimed prizes can be swept (30 days).
pub const CLAIM_TIMEOUT_SECS: i64 = 30 * 24 * 60 * 60;

/// Minimum total pool for a normal settlement. A smaller pool is settled as
/// a draw, so that fee rounding can never eat a dust pool.
pub const MIN_POOL_FOR_SETTLEMENT: u64 = 1_000_000;

/// Battle lifecycle states. `Settled` and `Cancelled` are terminal.
#[derive(Clone, Copy, PartialEq, Eq, Structural, Debug)]
pub enum BattleStatus {
    /// Created, waiting for an opponent.
    Waiting,
    /// Both players joined; play and spectator betting are under way.
    Active,
    /// A settlement was proposed; the dispute window is open.
    PendingDispute,
    /// A dispute was filed; only explicit resolution can advance.
    Disputed,
    /// Final: payouts are claimable.
    Settled,
    /// Final: cancelled before start, stakes refundable.
    Cancelled,
}

/// Which of the two principals a winner argument or a side bet names.
#[derive(Clone, Copy, PartialEq, Eq, Structural, Debug)]
pub enum PlayerSide {
    Creator,
    Opponent,
}

/// Global configuration and running totals for the platform.
#[derive(Clone, Copy, PartialEq, Eq, Structural, Debug)]
pub struct Config {
    pub authority: Principal,
    /// Separate address for fee collection.
    pub treasury: Principal,
    /// Slot for the two-step authority transfer; unset when none is pending.
    pub pending_authority: Principal,
    /// Monotonic counter, the sole source of new battle identifiers.
    pub total_battles: u64,
    pub total_volume: u64,
    pub total_fees_collected: u64,
}

/// One battle: the contest record that owns all pool accounting.
#[derive(Clone, Copy, PartialEq, Eq, Structural, Debug)]
pub struct Battle {
    pub id: u64,
    pub creator: Principal,
    /// Unset until an opponent joins.
    pub opponent: Principal,
    pub entry_fee: u64,
    pub status: BattleStatus,
    /// Final confirmed winner; unset until settled, and unset on a draw.
    pub winner: Principal,
    /// Proposed winner during the dispute window; unset on the draw path.
    pub proposed_winner: Principal,
    pub player_pool: u64,
    pub spectator_pool_creator: u64,
    pub spectator_pool_opponent: u64,
    pub betting_locked: bool,
    pub prize_claimed: bool,
    pub fees_withdrawn: bool,
    pub created_at: i64,
    pub started_at: i64,
    pub ends_at: i64,
    /// Deadline for filing disputes.
    pub dispute_deadline: i64,
    /// When the battle was settled, for the claim timeout.
    pub settled_at: i64,
}

/// A spectator's bet on a battle. The record store keys one record per
/// (bettor, battle) pair, so a second bet by the same bettor on the same
/// battle is a structural conflict, not a new record.
#[derive(Clone, Copy, PartialEq, Eq, Structural, Debug)]
pub struct SpectatorBet {
    pub bettor: Principal,
    pub battle_id: u64,
    pub backed_player: PlayerSide,
    pub amount: u64,
    pub claimed: bool,
}

/// A dispute against a proposed settlement. At most one exists per battle:
/// filing moves the battle out of `PendingDispute`, so a second filing is
/// rejected on status.
#[derive(Clone, Copy, Debug)]
pub struct Dispute {
    pub battle_id: u64,
    pub disputer: Principal,
    /// Opaque 32-byte evidence commitment; the engine never interprets it.
    pub evidence_hash: [u8; 32],
    pub filed_at: i64,
    pub resolved: bool,
    /// True when the original settlement was upheld.
    pub upheld: bool,
}

/// One-shot receipt guarding a player's refund when a battle settles as a
/// draw. The record store keys one record per (battle, player) pair.
#[derive(Clone, Copy, PartialEq, Eq, Structural, Debug)]
pub struct PlayerDrawRefund {
    pub battle_id: u64,
    pub player: Principal,
    pub claimed: bool,
}

/// Typed rejection reasons. Every precondition failure is one of these;
/// no operation partially applies.
#[derive(Clone, Copy, PartialEq, Eq, Structural, Debug)]
pub enum ErrorCode {
    EntryFeeTooLow,
    BattleNotWaiting,
    CannotJoinOwnBattle,
    BattleNotActive,
    BettingLocked,
    BetTooSmall,
    TooEarlyToLock,
    BattleNotEnded,
    BattleNotSettled,
    NotWinner,
    AlreadyClaimed,
    NotBetOwner,
    BetLost,
    CannotCancel,
    NotCreator,
    PrizeNotYetClaimed,
    NotPendingDispute,
    DisputeWindowClosed,
    DisputeWindowOpen,
    NotDisputed,
    DisputeAlreadyResolved,
    InvalidPayout,
    FeesAlreadyWithdrawn,
    PoolOverflow,
    InvalidZeroAddress,
    InvalidAuthority,
    PrizeAlreadyClaimed,
    ClaimTimeoutNotReached,
    BattleNotCancelled,
    NotADraw,
    NotAPlayer,
}

/// The principal a side argument names on a given battle.
pub open spec fn side_principal(b: Battle, side: PlayerSide) -> Principal {
    match side {
        PlayerSide::Creator => b.creator,
        PlayerSide::Opponent => b.opponent,
    }
}

/// The total pool as settlement sees it: players plus both spectator sides,
/// clamped to zero when the checked sum overflows (which forces the draw
/// path rather than aborting).
pub open spec fn spec_total_pool(b: Battle) -> int {
    if b.player_pool + b.spectator_pool_creator + b.spectator_pool_opponent <= u64::MAX {
        b.player_pool + b.spectator_pool_creator + b.spectator_pool_opponent
    } else {
        0
    }
}

/// Both spectator pools together, as the fee paths see them: the true
/// mathematical sum, computed through a widened intermediate.
pub open spec fn spec_total_spectator(b: Battle) -> int {
    b.spectator_pool_creator + b.spectator_pool_opponent
}

/// The player-pool rake at settlement, computed through a widened
/// intermediate: always the exact floored fee.
pub open spec fn spec_player_fee(b: Battle) -> int {
    fee_of(b.player_pool as int, PLAYER_RAKE_BPS as int)
}

/// The spectator-pool rake at settlement, computed through a widened
/// intermediate: always the exact floored fee on the summed pools.
pub open spec fn spec_spectator_fee(b: Battle) -> int {
    fee_of(spec_total_spectator(b), SPECTATOR_RAKE_BPS as int)
}

/// Both rakes are nonnegative, bounded by a tenth of the largest pool
/// each, and together always fit in a `u64`.
pub proof fn lemma_rakes_fit(b: Battle)
    ensures
        0 <= spec_player_fee(b) <= u64::MAX * (PLAYER_RAKE_BPS as int) / (BPS_DENOMINATOR as int),
        0 <= spec_spectator_fee(b) <= u64::MAX * (PLAYER_RAKE_BPS as int) / (BPS_DENOMINATOR as int),
        spec_player_fee(b) + spec_spectator_fee(b) <= u64::MAX,
{
    let d = BPS_DENOMINATOR as int;
    vstd::arithmetic::mul::lemma_mul_nonnegative(b.player_pool as int, PLAYER_RAKE_BPS as int);
    vstd::arithmetic::mul::lemma_mul_nonnegative(
        spec_total_spectator(b),
        SPECTATOR_RAKE_BPS as int,
    );
    vstd::arithmetic::div_mod::lemma_div_pos_is_pos(b.player_pool * PLAYER_RAKE_BPS, d);
    vstd::arithmetic::div_mod::lemma_div_pos_is_pos(
        spec_total_spectator(b) * SPECTATOR_RAKE_BPS,
        d,
    );
    vstd::arithmetic::mul::lemma_mul_inequality(
        b.player_pool as int,
        u64::MAX as int,
        PLAYER_RAKE_BPS as int,
    );
    vstd::arithmetic::div_mod::lemma_div_is_ordered(
        b.player_pool * PLAYER_RAKE_BPS,
        u64::MAX * PLAYER_RAKE_BPS,
        d,
    );
    vstd::arithmetic::mul::lemma_mul_inequality(
        spec_total_spectator(b),
        2 * u64::MAX,
        SPECTATOR_RAKE_BPS as int,
    );
    vstd::arithmetic::div_mod::lemma_div_is_ordered(
        spec_total_spectator(b) * SPECTATOR_RAKE_BPS,
        2 * u64::MAX * SPECTATOR_RAKE_BPS,
        d,
    );
}

/// The global fee total after accruing a battle's two rakes; unchanged when
/// the checked accumulation overflows.
pub open spec fn spec_accrued_fees(fees: int, b: Battle) -> int {
    if fees + spec_player_fee(b) + spec_spectator_fee(b) <= u64::MAX {
        fees + spec_player_fee(b) + spec_spectator_fee(b)
    } else {
        fees
    }
}

/// The global volume total after accruing a battle's pools; unchanged when
/// the checked accumulation overflows.
pub open spec fn spec_accrued_volume(volume: int, b: Battle) -> int {
    if volume + b.player_pool + spec_total_spectator(b) <= u64::MAX {
        volume + b.player_pool + spec_total_spectator(b)
    } else {
        volume
    }
}

/// The player-pool rake, through a widened intermediate: the exact
/// floored fee, which never exceeds the pool.
fn player_rake(player_pool: u64) -> (f: u64)
    ensures
        f == fee_of(player_pool as int, PLAYER_RAKE_BPS as int),
{
    proof {
        vstd::arithmetic::mul::lemma_mul_upper_bound(
            player_pool as int,
            u64::MAX as int,
            PLAYER_RAKE_BPS as int,
            PLAYER_RAKE_BPS as int,
        );
        lemma_fee_split(player_pool as int, PLAYER_RAKE_BPS as int);
    }
    let product: u128 = (player_pool as u128) * (PLAYER_RAKE_BPS as u128);
    (product / (BPS_DENOMINATOR as u128)) as u64
}

/// The spectator rake on both pools together, through a widened
/// intermediate: the exact floored fee on the true sum, which always fits
/// in a `u64` even when the sum itself does not.
fn spectator_rake(pool_creator: u64, pool_opponent: u64) -> (f: u64)
    ensures
        f == fee_of(pool_creator + pool_opponent, SPECTATOR_RAKE_BPS as int),
{
    let total: u128 = (pool_creator as u128) + (pool_opponent as u128);
    proof {
        let d = BPS_DENOMINATOR as int;
        vstd::arithmetic::mul::lemma_mul_upper_bound(
            total as int,
            2 * u64::MAX,
            SPECTATOR_RAKE_BPS as int,
            SPECTATOR_RAKE_BPS as int,
        );
        vstd::arithmetic::mul::lemma_mul_nonnegative(total as int, SPECTATOR_RAKE_BPS as int);
        vstd::arithmetic::div_mod::lemma_div_pos_is_pos(total * SPECTATOR_RAKE_BPS, d);
        vstd::arithmetic::div_mod::lemma_div_is_ordered(
            total * SPECTATOR_RAKE_BPS,
            2 * u64::MAX * SPECTATOR_RAKE_BPS,
            d,
        );
    }
    let product: u128 = total * (SPECTATOR_RAKE_BPS as u128);
    (product / (BPS_DENOMINATOR as u128)) as u64
}

// ----------------------------------------------------------------------
// Admin operations
// ----------------------------------------------------------------------

/// Creates the global config. The treasury may not be the unset placeholder.
pub fn initialize(authority: Principal, treasury: Principal) -> (r: Result<Config, ErrorCode>)
    ensures
        r is Ok <==> !treasury.is_unset(),
        r matches Ok(c) ==> c == (Config {
            authority,
            treasury,
            pending_authority: Principal { id: 0 },
            total_battles: 0,
            total_volume: 0,
            total_fees_collected: 0,
        }),
        treasury.is_unset() ==> r == Err::<Config, ErrorCode>(ErrorCode::InvalidZeroAddress),
{
    if treasury.is_none_key() {
        return Err(ErrorCode::InvalidZeroAddress);
    }
    Ok(
        Config {
            authority,
            treasury,
            pending_authority: Principal::unset(),
            total_battles: 0,
            total_volume: 0,
            total_fees_collected: 0,
        },
    )
}

/// Updates the treasury address. Authority only; the new address may not be
/// the unset placeholder.
pub fn update_treasury(config: &mut Config, caller: Principal, new_treasury: Principal) -> (r:
    Result<(), ErrorCode>)
    ensures
        r is Ok <==> caller == old(config).authority && !new_treasury.is_unset(),
        caller != old(config).authority ==> r == Err::<(), ErrorCode>(ErrorCode::InvalidAuthority),
        caller == old(config).authority && new_treasury.is_unset() ==> r == Err::<(), ErrorCode>(
            ErrorCode::InvalidZeroAddress,
        ),
        r is Ok ==> *final(config) == (Config { treasury: new_treasury, ..*old(config) }),
        r is Err ==> *final(config) == *old(config),
{
    if !(caller == config.authority) {
        return Err(ErrorCode::InvalidAuthority);
    }
    if new_treasury.is_none_key() {
        return Err(ErrorCode::InvalidZeroAddress);
    }
    config.treasury = new_treasury;
    Ok(())
}

/// Step 1 of the two-step authority transfer: the current authority names a
/// successor.
pub fn propose_authority(config: &mut Config, caller: Principal, new_authority: Principal) -> (r:
    Result<(), ErrorCode>)
    ensures
        r is Ok <==> caller == old(config).authority && !new_authority.is_unset(),
        caller != old(config).authority ==> r == Err::<(), ErrorCode>(ErrorCode::InvalidAuthority),
        caller == old(config).authority && new_authority.is_unset() ==> r == Err::<(), ErrorCode>(
            ErrorCode::InvalidZeroAddress,
        ),
        r is Ok ==> *final(config) == (Config { pending_authority: new_authority, ..*old(config) }),
        r is Err ==> *final(config) == *old(config),
{
    if !(caller == config.authority) {
        return Err(ErrorCode::InvalidAuthority);
    }
    if new_authority.is_none_key() {
        return Err(ErrorCode::InvalidZeroAddress);
    }
    config.pending_authority = new_authority;
    Ok(())
}

/// Step 2 of the two-step authority transfer: the named successor accepts,
/// becoming the authority; the pending slot is cleared. The caller is an
/// authenticated signer, so the unset placeholder never reaches this
/// operation and an empty slot cannot be accepted.
pub fn accept_authority(config: &mut Config, caller: Principal) -> (r: Result<(), ErrorCode>)
    ensures
        r is Ok <==> caller == old(config).pending_authority,
        r is Ok ==> *final(config) == (Config {
            authority: old(config).pending_authority,
            pending_authority: Principal { id: 0 },
            ..*old(config)
        }),
        r is Err ==> r == Err::<(), ErrorCode>(ErrorCode::InvalidAuthority) && *final(config)
            == *old(config),
{
    if !(config.pending_authority == caller) {
        return Err(ErrorCode::InvalidAuthority);
    }
    config.authority = config.pending_authority;
    config.pending_authority = Principal::unset();
    Ok(())
}

// ----------------------------------------------------------------------
// Settlement and dispute protocol
// ----------------------------------------------------------------------

/// When a settlement proposal is accepted.
pub open spec fn settle_battle_ok(b: Battle, caller: Principal, authority: Principal, now: i64) -> bool {
    caller == authority && b.status is Active && now >= b.ends_at
}

/// The battle after a settlement proposal: a dust pool is clamped to a draw
/// (proposed winner unset) regardless of the supplied winner; otherwise the
/// named side's principal is proposed. Either way the dispute window opens.
pub open spec fn settle_battle_post(b: Battle, winner: PlayerSide, now: i64) -> Battle {
    Battle {
        proposed_winner: if spec_total_pool(b) < MIN_POOL_FOR_SETTLEMENT {
            Principal { id: 0 }
        } else {
            side_principal(b, winner)
        },
        status: BattleStatus::PendingDispute,
        dispute_deadline: (now + DISPUTE_WINDOW_SECS) as i64,
        ..b
    }
}

/// Proposes a settlement (authority only). The battle enters
/// `PendingDispute` and the dispute window opens. A battle whose total pool
/// is below [`MIN_POOL_FOR_SETTLEMENT`] is unconditionally proposed as a
/// draw, whatever `winner` says.
pub fn settle_battle(
    config: &Config,
    battle: &mut Battle,
    caller: Principal,
    now: i64,
    winner: PlayerSide,
) -> (r: Result<(), ErrorCode>)
    requires
        settle_battle_ok(*old(battle), caller, config.authority, now) ==> now
            + DISPUTE_WINDOW_SECS <= i64::MAX,
    ensures
        r is Ok <==> settle_battle_ok(*old(battle), caller, config.authority, now),
        caller != config.authority ==> r == Err::<(), ErrorCode>(ErrorCode::InvalidAuthority),
        caller == config.authority && !(old(battle).status is Active) ==> r == Err::<(), ErrorCode>(
            ErrorCode::BattleNotActive,
        ),
        caller == config.authority && old(battle).status is Active && now < old(battle).ends_at
            ==> r == Err::<(), ErrorCode>(ErrorCode::BattleNotEnded),
        r is Ok ==> *final(battle) == settle_battle_post(*old(battle), winner, now),
        r is Ok && spec_total_pool(*old(battle)) < MIN_POOL_FOR_SETTLEMENT
            ==> final(battle).proposed_winner.is_unset(),
        r is Err ==> *final(battle) == *old(battle),
{
    if !(caller == config.authority) {
        return Err(ErrorCode::InvalidAuthority);
    }
    if !(battle.status == BattleStatus::Active) {
        return Err(ErrorCode::BattleNotActive);
    }
    if now < battle.ends_at {
        return Err(ErrorCode::BattleNotEnded);
    }
    let total_pool: u64 = match battle.player_pool.checked_add(battle.spectator_pool_creator) {
        Some(v) => match v.checked_add(battle.spectator_pool_opponent) {
            Some(w) => w,
            None => 0,
        },
        None => 0,
    };
    if total_pool < MIN_POOL_FOR_SETTLEMENT {
        battle.proposed_winner = Principal::unset();
    } else {
        battle.proposed_winner = match winner {
            PlayerSide::Creator => battle.creator,
            PlayerSide::Opponent => battle.opponent,
        };
    }
    battle.status = BattleStatus::PendingDispute;
    battle.dispute_deadline = now + DISPUTE_WINDOW_SECS;
    Ok(())
}

/// When a dispute filing is accepted.
pub open spec fn file_dispute_ok(b: Battle, now: i64) -> bool {
    b.status is PendingDispute && now < b.dispute_deadline
}

/// The battle after a dispute is filed: only its status moves.
pub open spec fn file_dispute_post(b: Battle) -> Battle {
    Battle { status: BattleStatus::Disputed, ..b }
}

/// Files a dispute against the proposed settlement. Open to anyone within
/// the dispute window. The caller must have escrowed the
/// [`DISPUTE_STAKE_LAMPORTS`] bond before this transition is applied. The
/// battle leaves `PendingDispute`, so a second filing is rejected and at
/// most one dispute record ever exists per battle.
pub fn file_dispute(battle: &mut Battle, disputer: Principal, evidence_hash: [u8; 32], now: i64) -> (r:
    Result<Dispute, ErrorCode>)
    ensures
        r is Ok <==> file_dispute_ok(*old(battle), now),
        !(old(battle).status is PendingDispute) ==> r == Err::<Dispute, ErrorCode>(
            ErrorCode::NotPendingDispute,
        ),
        old(battle).status is PendingDispute && now >= old(battle).dispute_deadline ==> r == Err::<
            Dispute,
            ErrorCode,
        >(ErrorCode::DisputeWindowClosed),
        r is Ok ==> *final(battle) == file_dispute_post(*old(battle)),
        r matches Ok(d) ==> d == (Dispute {
            battle_id: old(battle).id,
            disputer,
            evidence_hash,
            filed_at: now,
            resolved: false,
            upheld: false,
        }),
        r is Err ==> *final(battle) == *old(battle),
{
    if !(battle.status == BattleStatus::PendingDispute) {
        return Err(ErrorCode::NotPendingDispute);
    }
    if now >= battle.dispute_deadline {
        return Err(ErrorCode::DisputeWindowClosed);
    }
    battle.status = BattleStatus::Disputed;
    Ok(
        Dispute {
            battle_id: battle.id,
            disputer,
            evidence_hash,
            filed_at: now,
            resolved: false,
            upheld: false,
        },
    )
}

/// When a dispute resolution is accepted.
pub open spec fn resolve_dispute_ok(
    b: Battle,
    d: Dispute,
    caller: Principal,
    authority: Principal,
) -> bool {
    caller == authority && b.status is Disputed && !d.resolved
}

/// The winner an overturned dispute flips to: the other principal where
/// one was proposed. A draw proposal stays a draw — an overturn can only
/// swap between the two existing principals; it can never introduce or
/// remove a draw.
pub open spec fn swapped_winner(b: Battle) -> Principal {
    if b.proposed_winner.is_unset() {
        Principal { id: 0 }
    } else if b.proposed_winner == b.creator {
        b.opponent
    } else {
        b.creator
    }
}

/// The final winner a resolution confirms.
pub open spec fn resolved_winner(b: Battle, upheld: bool) -> Principal {
    if upheld {
        b.proposed_winner
    } else {
        swapped_winner(b)
    }
}

/// The battle after a dispute resolution: settled on the final winner.
pub open spec fn resolve_dispute_post(b: Battle, upheld: bool, now: i64) -> Battle {
    Battle {
        proposed_winner: resolved_winner(b, upheld),
        winner: resolved_winner(b, upheld),
        status: BattleStatus::Settled,
        settled_at: now,
        ..b
    }
}

/// Resolves a dispute (authority only).
///
/// *Upheld*: the proposal stood; the disputer's bond is forfeited to the
/// treasury (the caller moves it after this transition) and counted into the
/// fee total. *Overturned*: a named winner flips to the other principal (a
/// draw proposal stays a draw) and the bond is refunded in full. Either way
/// the battle becomes `Settled` now, and both rakes are accrued into the
/// global totals.
pub fn resolve_dispute(
    config: &mut Config,
    battle: &mut Battle,
    dispute: &mut Dispute,
    caller: Principal,
    now: i64,
    upheld: bool,
) -> (r: Result<(), ErrorCode>)
    requires
        old(dispute).battle_id == old(battle).id,
        upheld && resolve_dispute_ok(*old(battle), *old(dispute), caller, old(config).authority)
            ==> old(config).total_fees_collected + DISPUTE_STAKE_LAMPORTS <= u64::MAX,
    ensures
        r is Ok <==> resolve_dispute_ok(*old(battle), *old(dispute), caller, old(config).authority),
        caller != old(config).authority ==> r == Err::<(), ErrorCode>(ErrorCode::InvalidAuthority),
        caller == old(config).authority && !(old(battle).status is Disputed) ==> r == Err::<
            (),
            ErrorCode,
        >(ErrorCode::NotDisputed),
        caller == old(config).authority && old(battle).status is Disputed && old(dispute).resolved
            ==> r == Err::<(), ErrorCode>(ErrorCode::DisputeAlreadyResolved),
        r is Ok ==> *final(dispute) == (Dispute { resolved: true, upheld, ..*old(dispute) }),
        r is Ok ==> *final(battle) == resolve_dispute_post(*old(battle), upheld, now),
        r is Ok ==> {
            let fees_after_bond = if upheld {
                old(config).total_fees_collected + DISPUTE_STAKE_LAMPORTS
            } else {
                old(config).total_fees_collected as int
            };
            *final(config) == (Config {
                total_fees_collected: spec_accrued_fees(fees_after_bond, *old(battle)) as u64,
                total_volume: spec_accrued_volume(
                    old(config).total_volume as int,
                    *old(battle),
                ) as u64,
                ..*old(config)
            })
        },
        r is Err ==> *final(config) == *old(config) && *final(battle) == *old(battle)
            && *final(dispute) == *old(dispute),
{
    if !(caller == config.authority) {
        return Err(ErrorCode::InvalidAuthority);
    }
    if !(battle.status == BattleStatus::Disputed) {
        return Err(ErrorCode::NotDisputed);
    }
    if dispute.resolved {
        return Err(ErrorCode::DisputeAlreadyResolved);
    }
    dispute.resolved = true;
    dispute.upheld = upheld;
    if upheld {
        // Bond forfeited to treasury; the caller performs that transfer.
        config.total_fees_collected = config.total_fees_collected + DISPUTE_STAKE_LAMPORTS;
    } else {
        // Bond refunded in full; a named winner flips to the other
        // principal, while a draw proposal stays a draw.
        if !battle.proposed_winner.is_none_key() {
            if battle.proposed_winner == battle.creator {
                battle.proposed_winner = battle.opponent;
            } else {
                battle.proposed_winner = battle.creator;
            }
        }
    }
    battle.winner = battle.proposed_winner;
    battle.status = BattleStatus::Settled;
    battle.settled_at = now;
    let player_fee: u64 = player_rake(battle.player_pool);
    let spectator_fee: u64 = spectator_rake(
        battle.spectator_pool_creator,
        battle.spectator_pool_opponent,
    );
    let fees_wide: u128 = (config.total_fees_collected as u128) + (player_fee as u128) + (
    spectator_fee as u128);
    if fees_wide <= u64::MAX as u128 {
        config.total_fees_collected = fees_wide as u64;
    }
    let volume_wide: u128 = (config.total_volume as u128) + (battle.player_pool as u128) + (
    battle.spectator_pool_creator as u128) + (battle.spectator_pool_opponent as u128);
    if volume_wide <= u64::MAX as u128 {
        config.total_volume = volume_wide as u64;
    }
    Ok(())
}

/// When the permissionless finalize crank is accepted.
pub open spec fn finalize_settlement_ok(b: Battle, now: i64) -> bool {
    b.status is PendingDispute && now >= b.dispute_deadline
}

/// The battle after finalization: the proposed winner is confirmed.
pub open spec fn finalize_settlement_post(b: Battle, now: i64) -> Battle {
    Battle { winner: b.proposed_winner, status: BattleStatus::Settled, settled_at: now, ..b }
}

/// Finalizes a settlement after the dispute window passed with no dispute.
/// Permissionless. The proposed winner is confirmed; rakes are accrued into
/// the global totals unless the battle settled as a draw — draws are
/// fee-free by design.
pub fn finalize_settlement(config: &mut Config, battle: &mut Battle, now: i64) -> (r: Result<
    (),
    ErrorCode,
>)
    ensures
        r is Ok <==> finalize_settlement_ok(*old(battle), now),
        !(old(battle).status is PendingDispute) ==> r == Err::<(), ErrorCode>(
            ErrorCode::NotPendingDispute,
        ),
        old(battle).status is PendingDispute && now < old(battle).dispute_deadline ==> r == Err::<
            (),
            ErrorCode,
        >(ErrorCode::DisputeWindowOpen),
        r is Ok ==> *final(battle) == finalize_settlement_post(*old(battle), now),
        r is Ok && !old(battle).proposed_winner.is_unset() ==> *final(config) == (Config {
            total_fees_collected: spec_accrued_fees(
                old(config).total_fees_collected as int,
                *old(battle),
            ) as u64,
            total_volume: spec_accrued_volume(old(config).total_volume as int, *old(battle)) as u64,
            ..*old(config)
        }),
        r is Ok && old(battle).proposed_winner.is_unset() ==> *final(config) == *old(config),
        r is Err ==> *final(config) == *old(config) && *final(battle) == *old(battle),
{
    if !(battle.status == BattleStatus::PendingDispute) {
        return Err(ErrorCode::NotPendingDispute);
    }
    if now < battle.dispute_deadline {
        return Err(ErrorCode::DisputeWindowOpen);
    }
    battle.winner = battle.proposed_winner;
    battle.status = BattleStatus::Settled;
    battle.settled_at = now;
    let is_draw = battle.winner.is_none_key();
    if !is_draw {
        let player_fee: u64 = player_rake(battle.player_pool);
        let spectator_fee: u64 = spectator_rake(
            battle.spectator_pool_creator,
            battle.spectator_pool_opponent,
        );
        let fees_wide: u128 = (config.total_fees_collected as u128) + (player_fee as u128) + (
        spectator_fee as u128);
        if fees_wide <= u64::MAX as u128 {
            config.total_fees_collected = fees_wide as u64;
        }
        let volume_wide: u128 = (config.total_volume as u128) + (battle.player_pool as u128) + (
        battle.spectator_pool_creator as u128) + (battle.spectator_pool_opponent as u128);
        if volume_wide <= u64::MAX as u128 {
            config.total_volume = volume_wide as u64;
        }
    }
    Ok(())
}

// ----------------------------------------------------------------------
// Player operations
// ----------------------------------------------------------------------

/// Creates a new battle lobby. The creator must have escrowed `entry_fee`
/// before this transition is applied. The new battle takes the next
/// identifier from the global counter.
pub fn create_battle(config: &mut Config, creator: Principal, entry_fee: u64, now: i64) -> (r:
    Result<Battle, ErrorCode>)
    requires
        entry_fee >= MIN_ENTRY_LAMPORTS ==> old(config).total_battles < u64::MAX,
    ensures
        r is Ok <==> entry_fee >= MIN_ENTRY_LAMPORTS,
        entry_fee < MIN_ENTRY_LAMPORTS ==> r == Err::<Battle, ErrorCode>(ErrorCode::EntryFeeTooLow),
        r matches Ok(b) ==> b == (Battle {
            id: old(config).total_battles,
            creator,
            opponent: Principal { id: 0 },
            entry_fee,
            status: BattleStatus::Waiting,
            winner: Principal { id: 0 },
            proposed_winner: Principal { id: 0 },
            player_pool: entry_fee,
            spectator_pool_creator: 0,
            spectator_pool_opponent: 0,
            betting_locked: false,
            prize_claimed: false,
            fees_withdrawn: false,
            created_at: now,
            started_at: 0,
            ends_at: 0,
            dispute_deadline: 0,
            settled_at: 0,
        }),
        r is Ok ==> *final(config) == (Config {
            total_battles: (old(config).total_battles + 1) as u64,
            ..*old(config)
        }),
        r is Err ==> *final(config) == *old(config),
{
    if entry_fee < MIN_ENTRY_LAMPORTS {
        return Err(ErrorCode::EntryFeeTooLow);
    }
    let battle = Battle {
        id: config.total_battles,
        creator,
        opponent: Principal::unset(),
        entry_fee,
        status: BattleStatus::Waiting,
        winner: Principal::unset(),
        proposed_winner: Principal::unset(),
        player_pool: entry_fee,
        spectator_pool_creator: 0,
        spectator_pool_opponent: 0,
        betting_locked: false,
        prize_claimed: false,
        fees_withdrawn: false,
        created_at: now,
        started_at: 0,
        ends_at: 0,
        dispute_deadline: 0,
        settled_at: 0,
    };
    config.total_battles = config.total_battles + 1;
    Ok(battle)
}

/// Joins a waiting battle. The opponent must have escrowed the battle's
/// entry fee before this transition is applied. The battle becomes
/// `Active` and its end time is stamped.
pub fn join_battle(battle: &mut Battle, opponent: Principal, now: i64) -> (r: Result<
    (),
    ErrorCode,
>)
    requires
        old(battle).status is Waiting && old(battle).creator != opponent && old(battle).player_pool
            + old(battle).entry_fee <= u64::MAX ==> now + BATTLE_DURATION_SECS <= i64::MAX,
    ensures
        r is Ok <==> old(battle).status is Waiting && old(battle).creator != opponent && old(
            battle,
        ).player_pool + old(battle).entry_fee <= u64::MAX,
        !(old(battle).status is Waiting) ==> r == Err::<(), ErrorCode>(ErrorCode::BattleNotWaiting),
        old(battle).status is Waiting && old(battle).creator == opponent ==> r == Err::<
            (),
            ErrorCode,
        >(ErrorCode::CannotJoinOwnBattle),
        old(battle).status is Waiting && old(battle).creator != opponent && old(battle).player_pool
            + old(battle).entry_fee > u64::MAX ==> r == Err::<(), ErrorCode>(
            ErrorCode::PoolOverflow,
        ),
        r is Ok ==> *final(battle) == (Battle {
            opponent,
            player_pool: (old(battle).player_pool + old(battle).entry_fee) as u64,
            status: BattleStatus::Active,
            started_at: now,
            ends_at: (now + BATTLE_DURATION_SECS) as i64,
            ..*old(battle)
        }),
        r is Err ==> *final(battle) == *old(battle),
{
    if !(battle.status == BattleStatus::Waiting) {
        return Err(ErrorCode::BattleNotWaiting);
    }
    if battle.creator == opponent {
        return Err(ErrorCode::CannotJoinOwnBattle);
    }
    battle.player_pool = match battle.player_pool.checked_add(battle.entry_fee) {
        Some(v) => v,
        None => {
            return Err(ErrorCode::PoolOverflow);
        },
    };
    battle.opponent = opponent;
    battle.status = BattleStatus::Active;
    battle.started_at = now;
    battle.ends_at = now + BATTLE_DURATION_SECS;
    Ok(())
}

/// Cancels a battle that has not started (creator only). The full entry
/// fee, returned as the `Ok` value, is refunded to the creator.
pub fn cancel_battle(battle: &mut Battle, caller: Principal) -> (r: Result<u64, ErrorCode>)
    ensures
        r is Ok <==> old(battle).status is Waiting && old(battle).creator == caller,
        !(old(battle).status is Waiting) ==> r == Err::<u64, ErrorCode>(ErrorCode::CannotCancel),
        old(battle).status is Waiting && old(battle).creator != caller ==> r == Err::<
            u64,
            ErrorCode,
        >(ErrorCode::NotCreator),
        r matches Ok(refund) ==> refund == old(battle).entry_fee,
        r is Ok ==> *final(battle) == (Battle { status: BattleStatus::Cancelled, ..*old(battle) }),
        r is Err ==> *final(battle) == *old(battle),
{
    if !(battle.status == BattleStatus::Waiting) {
        return Err(ErrorCode::CannotCancel);
    }
    if !(battle.creator == caller) {
        return Err(ErrorCode::NotCreator);
    }
    battle.status = BattleStatus::Cancelled;
    Ok(battle.entry_fee)
}

/// When a player prize claim is accepted: settled, the caller is the final
/// winner, and the prize unclaimed. The payout is computed through a
/// widened intermediate, so no pool size makes it incomputable.
pub open spec fn claim_player_prize_ok(b: Battle, caller: Principal) -> bool {
    &&& b.status is Settled
    &&& caller == b.winner
    &&& !b.prize_claimed
}

/// The battle after a prize claim: only the claimed flag moves.
pub open spec fn claim_player_prize_post(b: Battle) -> Battle {
    Battle { prize_claimed: true, ..b }
}

/// The winner's payout: the player pool less the player rake.
pub open spec fn spec_player_payout(b: Battle) -> int {
    after_fee_of(b.player_pool as int, PLAYER_RAKE_BPS as int)
}

/// Claims the player prize pool (winner only, once). Returns the payout to
/// transfer: the player pool less the 10% rake. The claimed flag is set in
/// the same transition, so a repeated claim fails instead of paying twice.
pub fn claim_player_prize(battle: &mut Battle, caller: Principal) -> (r: Result<u64, ErrorCode>)
    ensures
        r is Ok <==> claim_player_prize_ok(*old(battle), caller),
        !(old(battle).status is Settled) ==> r == Err::<u64, ErrorCode>(ErrorCode::BattleNotSettled),
        old(battle).status is Settled && caller != old(battle).winner ==> r == Err::<
            u64,
            ErrorCode,
        >(ErrorCode::NotWinner),
        old(battle).status is Settled && caller == old(battle).winner && old(battle).prize_claimed
            ==> r == Err::<u64, ErrorCode>(ErrorCode::AlreadyClaimed),
        r matches Ok(payout) ==> payout == spec_player_payout(*old(battle)),
        r is Ok ==> *final(battle) == claim_player_prize_post(*old(battle)),
        r is Err ==> *final(battle) == *old(battle),
{
    if !(battle.status == BattleStatus::Settled) {
        return Err(ErrorCode::BattleNotSettled);
    }
    if !(caller == battle.winner) {
        return Err(ErrorCode::NotWinner);
    }
    if battle.prize_claimed {
        return Err(ErrorCode::AlreadyClaimed);
    }
    let payout = match calculate_amount_after_fee(battle.player_pool, PLAYER_RAKE_BPS) {
        Some(p) => p,
        None => {
            // Unreachable: the player rake is far below 100%.
            return Err(ErrorCode::InvalidPayout);
        },
    };
    battle.prize_claimed = true;
    Ok(payout)
}

/// When a player draw refund is accepted: settled as a draw, the one-shot
/// receipt unused, and the caller one of the two players.
pub open spec fn claim_player_draw_refund_ok(
    b: Battle,
    receipt: PlayerDrawRefund,
    caller: Principal,
) -> bool {
    &&& b.status is Settled
    &&& b.winner.is_unset()
    &&& !receipt.claimed
    &&& (caller == b.creator || caller == b.opponent)
}

/// Claims a player's refund for a battle settled as a draw. The full entry
/// fee is refunded with no rake; the one-shot receipt record prevents a
/// second refund to the same player.
pub fn claim_player_draw_refund(
    battle: &Battle,
    refund_record: &mut PlayerDrawRefund,
    caller: Principal,
) -> (r: Result<u64, ErrorCode>)
    requires
        old(refund_record).battle_id == battle.id,
        old(refund_record).player == caller,
    ensures
        r is Ok <==> claim_player_draw_refund_ok(*battle, *old(refund_record), caller),
        !(battle.status is Settled) ==> r == Err::<u64, ErrorCode>(ErrorCode::BattleNotSettled),
        battle.status is Settled && !battle.winner.is_unset() ==> r == Err::<u64, ErrorCode>(
            ErrorCode::NotADraw,
        ),
        battle.status is Settled && battle.winner.is_unset() && old(refund_record).claimed ==> r
            == Err::<u64, ErrorCode>(ErrorCode::AlreadyClaimed),
        battle.status is Settled && battle.winner.is_unset() && !old(refund_record).claimed
            && caller != battle.creator && caller != battle.opponent ==> r == Err::<
            u64,
            ErrorCode,
        >(ErrorCode::NotAPlayer),
        r matches Ok(refund) ==> refund == battle.entry_fee,
        r is Ok ==> *final(refund_record) == (PlayerDrawRefund {
            claimed: true,
            ..*old(refund_record)
        }),
        r is Err ==> *final(refund_record) == *old(refund_record),
{
    if !(battle.status == BattleStatus::Settled) {
        return Err(ErrorCode::BattleNotSettled);
    }
    if !battle.winner.is_none_key() {
        return Err(ErrorCode::NotADraw);
    }
    if refund_record.claimed {
        return Err(ErrorCode::AlreadyClaimed);
    }
    if !(caller == battle.creator) && !(caller == battle.opponent) {
        return Err(ErrorCode::NotAPlayer);
    }
    refund_record.claimed = true;
    Ok(battle.entry_fee)
}

// ----------------------------------------------------------------------
// Spectator operations
// ----------------------------------------------------------------------

/// Places a spectator bet on one of the two players. The bettor must have
/// escrowed `amount` before this transition is applied. One record exists
/// per (bettor, battle) pair in the store, so a second bet by the same
/// bettor is a structural conflict there, not a new position.
pub fn place_spectator_bet(
    battle: &mut Battle,
    bettor: Principal,
    backed_player: PlayerSide,
    amount: u64,
    now: i64,
) -> (r: Result<SpectatorBet, ErrorCode>)
    requires
        old(battle).status is Active && !old(battle).betting_locked ==> old(battle).ends_at
            - BETTING_LOCK_BEFORE_END >= i64::MIN,
    ensures
        r is Ok <==> old(battle).status is Active && !old(battle).betting_locked && now < old(
            battle,
        ).ends_at - BETTING_LOCK_BEFORE_END && amount >= MIN_SPECTATOR_BET && spec_side_pool(
            *old(battle),
            backed_player,
        ) + amount <= u64::MAX,
        !(old(battle).status is Active) ==> r == Err::<SpectatorBet, ErrorCode>(
            ErrorCode::BattleNotActive,
        ),
        old(battle).status is Active && (old(battle).betting_locked || now >= old(battle).ends_at
            - BETTING_LOCK_BEFORE_END) ==> r == Err::<SpectatorBet, ErrorCode>(
            ErrorCode::BettingLocked,
        ),
        old(battle).status is Active && !old(battle).betting_locked && now < old(battle).ends_at
            - BETTING_LOCK_BEFORE_END && amount < MIN_SPECTATOR_BET ==> r == Err::<
            SpectatorBet,
            ErrorCode,
        >(ErrorCode::BetTooSmall),
        old(battle).status is Active && !old(battle).betting_locked && now < old(battle).ends_at
            - BETTING_LOCK_BEFORE_END && amount >= MIN_SPECTATOR_BET && spec_side_pool(
            *old(battle),
            backed_player,
        ) + amount > u64::MAX ==> r == Err::<SpectatorBet, ErrorCode>(ErrorCode::PoolOverflow),
        r is Ok ==> *final(battle) == spec_with_side_pool(
            *old(battle),
            backed_player,
            (spec_side_pool(*old(battle), backed_player) + amount) as u64,
        ),
        r matches Ok(bet) ==> bet == (SpectatorBet {
            bettor,
            battle_id: old(battle).id,
            backed_player,
            amount,
            claimed: false,
        }),
        r is Err ==> *final(battle) == *old(battle),
{
    if !(battle.status == BattleStatus::Active) {
        return Err(ErrorCode::BattleNotActive);
    }
    if battle.betting_locked {
        return Err(ErrorCode::BettingLocked);
    }
    if now >= battle.ends_at - BETTING_LOCK_BEFORE_END {
        return Err(ErrorCode::BettingLocked);
    }
    if amount < MIN_SPECTATOR_BET {
        return Err(ErrorCode::BetTooSmall);
    }
    match backed_player {
        PlayerSide::Creator => {
            battle.spectator_pool_creator = match battle.spectator_pool_creator.checked_add(
                amount,
            ) {
                Some(v) => v,
                None => {
                    return Err(ErrorCode::PoolOverflow);
                },
            };
        },
        PlayerSide::Opponent => {
            battle.spectator_pool_opponent = match battle.spectator_pool_opponent.checked_add(
                amount,
            ) {
                Some(v) => v,
                None => {
                    return Err(ErrorCode::PoolOverflow);
                },
            };
        },
    }
    Ok(SpectatorBet { bettor, battle_id: battle.id, backed_player, amount, claimed: false })
}

/// The spectator pool backing the given side.
pub open spec fn spec_side_pool(b: Battle, side: PlayerSide) -> int {
    match side {
        PlayerSide::Creator => b.spectator_pool_creator as int,
        PlayerSide::Opponent => b.spectator_pool_opponent as int,
    }
}

/// The battle with the given side's spectator pool replaced.
pub open spec fn spec_with_side_pool(b: Battle, side: PlayerSide, v: u64) -> Battle {
    match side {
        PlayerSide::Creator => Battle { spectator_pool_creator: v, ..b },
        PlayerSide::Opponent => Battle { spectator_pool_opponent: v, ..b },
    }
}

/// Locks spectator betting (permissionless crank), allowed from
/// [`BETTING_LOCK_BEFORE_END`] seconds before the battle ends.
pub fn lock_betting(battle: &mut Battle, now: i64) -> (r: Result<(), ErrorCode>)
    requires
        old(battle).status is Active ==> old(battle).ends_at - BETTING_LOCK_BEFORE_END
            >= i64::MIN,
    ensures
        r is Ok <==> old(battle).status is Active && now >= old(battle).ends_at
            - BETTING_LOCK_BEFORE_END,
        !(old(battle).status is Active) ==> r == Err::<(), ErrorCode>(ErrorCode::BattleNotActive),
        old(battle).status is Active && now < old(battle).ends_at - BETTING_LOCK_BEFORE_END ==> r
            == Err::<(), ErrorCode>(ErrorCode::TooEarlyToLock),
        r is Ok ==> *final(battle) == (Battle { betting_locked: true, ..*old(battle) }),
        r is Err ==> *final(battle) == *old(battle),
{
    if !(battle.status == BattleStatus::Active) {
        return Err(ErrorCode::BattleNotActive);
    }
    if now < battle.ends_at - BETTING_LOCK_BEFORE_END {
        return Err(ErrorCode::TooEarlyToLock);
    }
    battle.betting_locked = true;
    Ok(())
}

/// The spectator pool on the side a bet did not back.
pub open spec fn losing_side_pool(b: Battle, side: PlayerSide) -> int {
    match side {
        PlayerSide::Creator => b.spectator_pool_opponent as int,
        PlayerSide::Opponent => b.spectator_pool_creator as int,
    }
}

/// Whether a bet on the given side won: the final winner is that side's
/// principal.
pub open spec fn spec_bet_won(b: Battle, side: PlayerSide) -> bool {
    match side {
        PlayerSide::Creator => b.winner == b.creator,
        PlayerSide::Opponent => b.winner == b.opponent,
    }
}

/// Whether the winning spectator payout is defined. With an empty
/// opposing pool the stake is simply returned. Otherwise the pool sum and
/// the after-fee amount are computed through widened intermediates and
/// never overflow; only an empty winning pool (nothing to divide by) or a
/// proportional share too large for a `u64` is rejected.
pub open spec fn spectator_payout_defined(b: Battle, amount: u64, side: PlayerSide) -> bool {
    if losing_side_pool(b, side) == 0 {
        true
    } else {
        &&& spec_side_pool(b, side) != 0
        &&& share_of(
            amount as int,
            after_fee_of(spec_total_spectator(b), SPECTATOR_RAKE_BPS as int),
            spec_side_pool(b, side),
        ) <= u64::MAX
    }
}

/// A winning spectator's payout. With an empty opposing pool the stake is
/// returned as is (nothing to share, no fee); otherwise the stake's
/// proportional share of the after-rake spectator pool.
pub open spec fn spec_spectator_payout(b: Battle, amount: u64, side: PlayerSide) -> int {
    if losing_side_pool(b, side) == 0 {
        amount as int
    } else {
        share_of(
            amount as int,
            after_fee_of(spec_total_spectator(b), SPECTATOR_RAKE_BPS as int),
            spec_side_pool(b, side),
        )
    }
}

/// When a spectator winnings claim is accepted.
pub open spec fn claim_spectator_winnings_ok(b: Battle, bet: SpectatorBet, caller: Principal) -> bool {
    &&& b.status is Settled
    &&& !bet.claimed
    &&& bet.bettor == caller
    &&& spec_bet_won(b, bet.backed_player)
    &&& spectator_payout_defined(b, bet.amount, bet.backed_player)
}

/// Claims spectator winnings (bet owner only, once, winning side only).
/// Returns the payout to transfer and marks the bet claimed in the same
/// transition.
pub fn claim_spectator_winnings(battle: &Battle, bet: &mut SpectatorBet, caller: Principal) -> (r:
    Result<u64, ErrorCode>)
    requires
        old(bet).battle_id == battle.id,
    ensures
        r is Ok <==> claim_spectator_winnings_ok(*battle, *old(bet), caller),
        !(battle.status is Settled) ==> r == Err::<u64, ErrorCode>(ErrorCode::BattleNotSettled),
        battle.status is Settled && old(bet).claimed ==> r == Err::<u64, ErrorCode>(
            ErrorCode::AlreadyClaimed,
        ),
        battle.status is Settled && !old(bet).claimed && old(bet).bettor != caller ==> r == Err::<
            u64,
            ErrorCode,
        >(ErrorCode::NotBetOwner),
        battle.status is Settled && !old(bet).claimed && old(bet).bettor == caller && !spec_bet_won(
            *battle,
            old(bet).backed_player,
        ) ==> r == Err::<u64, ErrorCode>(ErrorCode::BetLost),
        battle.status is Settled && !old(bet).claimed && old(bet).bettor == caller && spec_bet_won(
            *battle,
            old(bet).backed_player,
        ) && !spectator_payout_defined(*battle, old(bet).amount, old(bet).backed_player) ==> r
            == Err::<u64, ErrorCode>(ErrorCode::InvalidPayout),
        r matches Ok(payout) ==> payout == spec_spectator_payout(
            *battle,
            old(bet).amount,
            old(bet).backed_player,
        ),
        r is Ok ==> *final(bet) == (SpectatorBet { claimed: true, ..*old(bet) }),
        r is Err ==> *final(bet) == *old(bet),
{
    if !(battle.status == BattleStatus::Settled) {
        return Err(ErrorCode::BattleNotSettled);
    }
    if bet.claimed {
        return Err(ErrorCode::AlreadyClaimed);
    }
    if !(bet.bettor == caller) {
        return Err(ErrorCode::NotBetOwner);
    }
    let bet_won = match bet.backed_player {
        PlayerSide::Creator => battle.winner == battle.creator,
        PlayerSide::Opponent => battle.winner == battle.opponent,
    };
    if !bet_won {
        return Err(ErrorCode::BetLost);
    }
    let (winning_pool, losing_pool) = match bet.backed_player {
        PlayerSide::Creator => (battle.spectator_pool_creator, battle.spectator_pool_opponent),
        PlayerSide::Opponent => (battle.spectator_pool_opponent, battle.spectator_pool_creator),
    };
    let payout: u64 = if losing_pool == 0 {
        bet.amount
    } else {
        if winning_pool == 0 {
            return Err(ErrorCode::InvalidPayout);
        }
        let total_wide: u128 = (battle.spectator_pool_creator as u128) + (
        battle.spectator_pool_opponent as u128);
        let fee_multiplier: u64 = BPS_DENOMINATOR - SPECTATOR_RAKE_BPS;
        proof {
            vstd::arithmetic::mul::lemma_mul_upper_bound(
                total_wide as int,
                2 * u64::MAX,
                fee_multiplier as int,
                BPS_DENOMINATOR as int,
            );
            vstd::arithmetic::mul::lemma_mul_nonnegative(total_wide as int, fee_multiplier as int);
            vstd::arithmetic::div_mod::lemma_div_pos_is_pos(
                total_wide * fee_multiplier,
                BPS_DENOMINATOR as int,
            );
        }
        let pool_after_fee: u128 = total_wide * (fee_multiplier as u128) / (
        BPS_DENOMINATOR as u128);
        let share: u128 = match (bet.amount as u128).checked_mul(pool_after_fee) {
            Some(product) => product / (winning_pool as u128),
            None => {
                proof {
                    // The widened product exceeded even a u128; divided by
                    // a pool that fits a u64, the share still exceeds
                    // u64::MAX, so it cannot be paid out.
                    let m = u64::MAX as int;
                    let w = winning_pool as int;
                    vstd::arithmetic::mul::lemma_mul_inequality(w, m, m + 1);
                    vstd::arithmetic::mul::lemma_mul_is_commutative(w, m + 1);
                    vstd::arithmetic::div_mod::lemma_div_by_multiple(m + 1, w);
                    vstd::arithmetic::div_mod::lemma_div_is_ordered(
                        (m + 1) * w,
                        (bet.amount as int) * pool_after_fee,
                        w,
                    );
                }
                return Err(ErrorCode::InvalidPayout);
            },
        };
        if share > u64::MAX as u128 {
            return Err(ErrorCode::InvalidPayout);
        }
        share as u64
    };
    bet.claimed = true;
    Ok(payout)
}

/// When a cancellation refund of a spectator bet is accepted.
pub open spec fn refund_spectator_bet_ok(b: Battle, bet: SpectatorBet, caller: Principal) -> bool {
    b.status is Cancelled && !bet.claimed && bet.bettor == caller
}

/// Refunds a spectator bet on a cancelled battle: the full stake, no fee,
/// once.
pub fn refund_spectator_bet(battle: &Battle, bet: &mut SpectatorBet, caller: Principal) -> (r:
    Result<u64, ErrorCode>)
    requires
        old(bet).battle_id == battle.id,
    ensures
        r is Ok <==> refund_spectator_bet_ok(*battle, *old(bet), caller),
        !(battle.status is Cancelled) ==> r == Err::<u64, ErrorCode>(ErrorCode::BattleNotCancelled),
        battle.status is Cancelled && old(bet).claimed ==> r == Err::<u64, ErrorCode>(
            ErrorCode::AlreadyClaimed,
        ),
        battle.status is Cancelled && !old(bet).claimed && old(bet).bettor != caller ==> r == Err::<
            u64,
            ErrorCode,
        >(ErrorCode::NotBetOwner),
        r matches Ok(refund) ==> refund == old(bet).amount,
        r is Ok ==> *final(bet) == (SpectatorBet { claimed: true, ..*old(bet) }),
        r is Err ==> *final(bet) == *old(bet),
{
    if !(battle.status == BattleStatus::Cancelled) {
        return Err(ErrorCode::BattleNotCancelled);
    }
    if bet.claimed {
        return Err(ErrorCode::AlreadyClaimed);
    }
    if !(bet.bettor == caller) {
        return Err(ErrorCode::NotBetOwner);
    }
    bet.claimed = true;
    Ok(bet.amount)
}

/// When a draw refund of a spectator bet is accepted.
pub open spec fn refund_spectator_draw_bet_ok(b: Battle, bet: SpectatorBet, caller: Principal) -> bool {
    b.status is Settled && b.winner.is_unset() && !bet.claimed && bet.bettor == caller
}

/// Refunds a spectator bet on a battle settled as a draw: the full stake,
/// no rake, once.
pub fn refund_spectator_draw_bet(battle: &Battle, bet: &mut SpectatorBet, caller: Principal) -> (r:
    Result<u64, ErrorCode>)
    requires
        old(bet).battle_id == battle.id,
    ensures
        r is Ok <==> refund_spectator_draw_bet_ok(*battle, *old(bet), caller),
        !(battle.status is Settled) ==> r == Err::<u64, ErrorCode>(ErrorCode::BattleNotSettled),
        battle.status is Settled && !battle.winner.is_unset() ==> r == Err::<u64, ErrorCode>(
            ErrorCode::NotADraw,
        ),
        battle.status is Settled && battle.winner.is_unset() && old(bet).claimed ==> r == Err::<
            u64,
            ErrorCode,
        >(ErrorCode::AlreadyClaimed),
        battle.status is Settled && battle.winner.is_unset() && !old(bet).claimed && old(
            bet,
        ).bettor != caller ==> r == Err::<u64, ErrorCode>(ErrorCode::NotBetOwner),
        r matches Ok(refund) ==> refund == old(bet).amount,
        r is Ok ==> *final(bet) == (SpectatorBet { claimed: true, ..*old(bet) }),
        r is Err ==> *final(bet) == *old(bet),
{
    if !(battle.status == BattleStatus::Settled) {
        return Err(ErrorCode::BattleNotSettled);
    }
    if !battle.winner.is_none_key() {
        return Err(ErrorCode::NotADraw);
    }
    if bet.claimed {
        return Err(ErrorCode::AlreadyClaimed);
    }
    if !(bet.bettor == caller) {
        return Err(ErrorCode::NotBetOwner);
    }
    bet.claimed = true;
    Ok(bet.amount)
}

// ----------------------------------------------------------------------
// Fee withdrawal and sweeping
// ----------------------------------------------------------------------

/// When a fee withdrawal is accepted: settled, the prize already claimed
/// (so the withdrawal cannot drain what the winner is still owed), and not
/// yet withdrawn.
pub open spec fn withdraw_fees_ok(c: Config, b: Battle, caller: Principal) -> bool {
    caller == c.authority && b.status is Settled && b.prize_claimed && !b.fees_withdrawn
}

/// What a fee withdrawal transfers: both rakes (computed through widened
/// intermediates, so always exact; together they always fit a `u64`),
/// capped by what the escrow still holds.
pub open spec fn spec_withdrawable_fee(b: Battle, escrow_balance: u64) -> int {
    let total_fee = spec_player_fee(b) + spec_spectator_fee(b);
    if total_fee < escrow_balance {
        total_fee
    } else {
        escrow_balance as int
    }
}

/// Withdraws a settled battle's rakes from its escrow to the treasury
/// (authority only, once, and only after the winner claimed). Returns the
/// amount to transfer: the computed fees, capped by the escrow balance.
pub fn withdraw_fees(
    config: &Config,
    battle: &mut Battle,
    caller: Principal,
    escrow_balance: u64,
) -> (r: Result<u64, ErrorCode>)
    ensures
        r is Ok <==> withdraw_fees_ok(*config, *old(battle), caller),
        caller != config.authority ==> r == Err::<u64, ErrorCode>(ErrorCode::InvalidAuthority),
        caller == config.authority && !(old(battle).status is Settled) ==> r == Err::<
            u64,
            ErrorCode,
        >(ErrorCode::BattleNotSettled),
        caller == config.authority && old(battle).status is Settled && !old(battle).prize_claimed
            ==> r == Err::<u64, ErrorCode>(ErrorCode::PrizeNotYetClaimed),
        caller == config.authority && old(battle).status is Settled && old(battle).prize_claimed
            && old(battle).fees_withdrawn ==> r == Err::<u64, ErrorCode>(
            ErrorCode::FeesAlreadyWithdrawn,
        ),
        r matches Ok(w) ==> w == spec_withdrawable_fee(*old(battle), escrow_balance),
        r is Ok ==> *final(battle) == (Battle { fees_withdrawn: true, ..*old(battle) }),
        r is Err ==> *final(battle) == *old(battle),
{
    if !(caller == config.authority) {
        return Err(ErrorCode::InvalidAuthority);
    }
    if !(battle.status == BattleStatus::Settled) {
        return Err(ErrorCode::BattleNotSettled);
    }
    if !battle.prize_claimed {
        return Err(ErrorCode::PrizeNotYetClaimed);
    }
    if battle.fees_withdrawn {
        return Err(ErrorCode::FeesAlreadyWithdrawn);
    }
    let player_fee: u64 = player_rake(battle.player_pool);
    let spectator_fee: u64 = spectator_rake(
        battle.spectator_pool_creator,
        battle.spectator_pool_opponent,
    );
    proof {
        lemma_rakes_fit(*battle);
    }
    let total_fee: u64 = player_fee + spectator_fee;
    let withdrawable = if total_fee < escrow_balance {
        total_fee
    } else {
        escrow_balance
    };
    battle.fees_withdrawn = true;
    Ok(withdrawable)
}

/// When a sweep of unclaimed funds is accepted: settled, the prize never
/// claimed, and the claim timeout long past.
pub open spec fn sweep_unclaimed_ok(c: Config, b: Battle, caller: Principal, now: i64) -> bool {
    caller == c.authority && b.status is Settled && !b.prize_claimed && now >= b.settled_at
        + CLAIM_TIMEOUT_SECS
}

/// The battle after a sweep: both one-shot flags set, so neither a claim
/// nor a fee withdrawal can follow.
pub open spec fn sweep_unclaimed_post(b: Battle) -> Battle {
    Battle { prize_claimed: true, fees_withdrawn: true, ..b }
}

/// Sweeps a settled battle's entire remaining escrow to the treasury after
/// the winner left it unclaimed for [`CLAIM_TIMEOUT_SECS`] (authority
/// only). This is a deliberate full forfeiture: the whole balance moves and
/// both one-shot flags are set.
pub fn sweep_unclaimed(
    config: &Config,
    battle: &mut Battle,
    caller: Principal,
    now: i64,
    escrow_balance: u64,
) -> (r: Result<u64, ErrorCode>)
    requires
        caller == config.authority && old(battle).status is Settled && !old(battle).prize_claimed
            ==> old(battle).settled_at + CLAIM_TIMEOUT_SECS <= i64::MAX,
    ensures
        r is Ok <==> sweep_unclaimed_ok(*config, *old(battle), caller, now),
        caller != config.authority ==> r == Err::<u64, ErrorCode>(ErrorCode::InvalidAuthority),
        caller == config.authority && !(old(battle).status is Settled) ==> r == Err::<
            u64,
            ErrorCode,
        >(ErrorCode::BattleNotSettled),
        caller == config.authority && old(battle).status is Settled && old(battle).prize_claimed
            ==> r == Err::<u64, ErrorCode>(ErrorCode::PrizeAlreadyClaimed),
        caller == config.authority && old(battle).status is Settled && !old(battle).prize_claimed
            && now < old(battle).settled_at + CLAIM_TIMEOUT_SECS ==> r == Err::<u64, ErrorCode>(
            ErrorCode::ClaimTimeoutNotReached,
        ),
        r matches Ok(swept) ==> swept == escrow_balance,
        r is Ok ==> *final(battle) == sweep_unclaimed_post(*old(battle)),
        r is Err ==> *final(battle) == *old(battle),
{
    if !(caller == config.authority) {
        return Err(ErrorCode::InvalidAuthority);
    }
    if !(battle.status == BattleStatus::Settled) {
        return Err(ErrorCode::BattleNotSettled);
    }
    if battle.prize_claimed {
        return Err(ErrorCode::PrizeAlreadyClaimed);
    }
    if now < battle.settled_at + CLAIM_TIMEOUT_SECS {
        return Err(ErrorCode::ClaimTimeoutNotReached);
    }
    battle.prize_claimed = true;
    battle.fees_withdrawn = true;
    Ok(escrow_balance)
}

// ----------------------------------------------------------------------
// Protocol laws
// ----------------------------------------------------------------------

/// Draw clamp: whatever winner the authority supplies, a contest whose
/// total pool is under [`MIN_POOL_FOR_SETTLEMENT`] is proposed as a draw;
/// finalizing that proposal confirms no winner, and so does resolving a
/// dispute against it either way — an overturn cannot turn the draw into
/// a win.
pub proof fn lemma_draw_clamp(
    b: Battle,
    winner: PlayerSide,
    upheld: bool,
    now_settle: i64,
    now_finalize: i64,
)
    requires
        spec_total_pool(b) < MIN_POOL_FOR_SETTLEMENT,
    ensures
        settle_battle_post(b, winner, now_settle).proposed_winner.is_unset(),
        finalize_settlement_post(
            settle_battle_post(b, winner, now_settle),
            now_finalize,
        ).winner.is_unset(),
        resolve_dispute_post(
            file_dispute_post(settle_battle_post(b, winner, now_settle)),
            upheld,
            now_finalize,
        ).winner.is_unset(),
{
}

/// Dispute exclusivity: filing a dispute moves the battle out of
/// `PendingDispute`, so a second filing is rejected at any later time and
/// at most one dispute record ever exists per battle.
pub proof fn lemma_dispute_exclusive(b: Battle, now1: i64, now2: i64)
    requires
        file_dispute_ok(b, now1),
    ensures
        !file_dispute_ok(file_dispute_post(b), now2),
{
}

/// Race safety of the finalize crank: of two finalize calls serialized
/// against the same `PendingDispute` battle, the first settles it and the
/// second is rejected on status, at any later time.
pub proof fn lemma_finalize_once(b: Battle, now1: i64, now2: i64)
    requires
        finalize_settlement_ok(b, now1),
    ensures
        finalize_settlement_post(b, now1).status is Settled,
        !finalize_settlement_ok(finalize_settlement_post(b, now1), now2),
{
}

/// Settlement is mutually exclusive between the dispute path and the crank:
/// once a dispute is filed the permissionless finalize is unreachable, and
/// a resolved battle can be neither finalized nor disputed again.
pub proof fn lemma_settlement_paths_exclusive(b: Battle, upheld: bool, now1: i64, now2: i64) -> (resolved:
    Battle)
    requires
        file_dispute_ok(b, now1),
    ensures
        !finalize_settlement_ok(file_dispute_post(b), now2),
        resolved == resolve_dispute_post(file_dispute_post(b), upheld, now2),
        !finalize_settlement_ok(resolved, now2),
        !file_dispute_ok(resolved, now2),
{
    resolve_dispute_post(file_dispute_post(b), upheld, now2)
}

/// Idempotent prize claims: after a successful prize claim the claimed
/// flag is set, so a repeated claim by anyone is rejected, and so is a
/// sweep of the same battle.
pub proof fn lemma_prize_claim_once(
    b: Battle,
    c: Config,
    caller1: Principal,
    caller2: Principal,
    now: i64,
)
    requires
        claim_player_prize_ok(b, caller1),
    ensures
        !claim_player_prize_ok(claim_player_prize_post(b), caller2),
        !sweep_unclaimed_ok(c, claim_player_prize_post(b), caller2, now),
{
}

/// Idempotent sweeps: a sweep sets both one-shot flags, so after it neither
/// a second sweep, nor a prize claim, nor a fee withdrawal is accepted.
pub proof fn lemma_sweep_once(b: Battle, c: Config, caller1: Principal, caller2: Principal, now: i64)
    requires
        sweep_unclaimed_ok(c, b, caller1, now),
    ensures
        !sweep_unclaimed_ok(c, sweep_unclaimed_post(b), caller2, now),
        !claim_player_prize_ok(sweep_unclaimed_post(b), caller2),
        !withdraw_fees_ok(c, sweep_unclaimed_post(b), caller2),
{
}

/// Idempotent fee withdrawal: withdrawing sets the withdrawn flag, so a
/// second withdrawal is rejected.
pub proof fn lemma_withdraw_fees_once(b: Battle, c: Config, caller1: Principal, caller2: Principal)
    requires
        withdraw_fees_ok(c, b, caller1),
    ensures
        !withdraw_fees_ok(c, (Battle { fees_withdrawn: true, ..b }), caller2),
{
}

/// Idempotent spectator payouts: once a bet record is marked claimed, none
/// of the three paths that consume it — a winnings claim, a cancellation
/// refund, a draw refund — is accepted again, against any battle state.
pub proof fn lemma_spectator_bet_once(b: Battle, bet: SpectatorBet, caller: Principal)
    ensures
        !claim_spectator_winnings_ok(b, (SpectatorBet { claimed: true, ..bet }), caller),
        !refund_spectator_bet_ok(b, (SpectatorBet { claimed: true, ..bet }), caller),
        !refund_spectator_draw_bet_ok(b, (SpectatorBet { claimed: true, ..bet }), caller),
{
}

/// Idempotent player draw refunds: a used receipt blocks a second refund to
/// the same player, against any battle state.
pub proof fn lemma_player_draw_refund_once(b: Battle, receipt: PlayerDrawRefund, caller: Principal)
    ensures
        !claim_player_draw_refund_ok(
            b,
            (PlayerDrawRefund { claimed: true, ..receipt }),
            caller,
        ),
{
}

/// The settlement protocol never touches the pools: from the proposal
/// through a quiet finalization, or through a dispute and its resolution,
/// the entry fee and all three pools are exactly what play left in them.
/// Pools shrink only through the explicit payout transfers, so the payout
/// arithmetic always sees the staked amounts.
pub proof fn lemma_settlement_preserves_pools(
    b: Battle,
    winner: PlayerSide,
    upheld: bool,
    now1: i64,
    now2: i64,
) -> (outcomes: (Battle, Battle))
    ensures
        outcomes.0 == finalize_settlement_post(settle_battle_post(b, winner, now1), now2),
        outcomes.1 == resolve_dispute_post(
            file_dispute_post(settle_battle_post(b, winner, now1)),
            upheld,
            now2,
        ),
        outcomes.0.entry_fee == b.entry_fee && outcomes.1.entry_fee == b.entry_fee,
        outcomes.0.player_pool == b.player_pool && outcomes.1.player_pool == b.player_pool,
        outcomes.0.spectator_pool_creator == b.spectator_pool_creator
            && outcomes.1.spectator_pool_creator == b.spectator_pool_creator,
        outcomes.0.spectator_pool_opponent == b.spectator_pool_opponent
            && outcomes.1.spectator_pool_opponent == b.spectator_pool_opponent,
{
    let proposed = settle_battle_post(b, winner, now1);
    (
        finalize_settlement_post(proposed, now2),
        resolve_dispute_post(file_dispute_post(proposed), upheld, now2),
    )
}

/// Conservation at settlement, for a two-sided spectator market: the
/// winner's payout plus the player rake stay within the player pool; the
/// payouts of all winning spectator stakes plus the spectator rake stay
/// within the spectator pools; and everything together stays within the
/// battle's total pool. No sequence of claims creates value.
///
/// `stakes` are the amounts of the winning side's bets; the store
/// guarantees they sum to (at most) that side's pool. Each stake's payout
/// here is exactly what [`claim_spectator_winnings`] pays when the losing
/// pool is nonempty.
pub proof fn lemma_settlement_conservation(b: Battle, stakes: Seq<int>, side: PlayerSide)
    requires
        0 < spec_side_pool(b, side),
        0 < losing_side_pool(b, side),
        forall|i: int| 0 <= i < stakes.len() ==> stakes[i] >= 0,
        sum_seq(stakes) <= spec_side_pool(b, side),
        b.player_pool + b.spectator_pool_creator + b.spectator_pool_opponent <= u64::MAX,
    ensures
        spec_player_payout(b) + fee_of(b.player_pool as int, PLAYER_RAKE_BPS as int)
            <= b.player_pool,
        sum_shares(
            stakes,
            after_fee_of(spec_total_spectator(b), SPECTATOR_RAKE_BPS as int),
            spec_side_pool(b, side),
        ) + fee_of(spec_total_spectator(b), SPECTATOR_RAKE_BPS as int) <= spec_total_spectator(b),
        spec_player_payout(b) + sum_shares(
            stakes,
            after_fee_of(spec_total_spectator(b), SPECTATOR_RAKE_BPS as int),
            spec_side_pool(b, side),
        ) + fee_of(b.player_pool as int, PLAYER_RAKE_BPS as int) + fee_of(
            spec_total_spectator(b),
            SPECTATOR_RAKE_BPS as int,
        ) <= spec_total_pool(b),
{
    lemma_fee_split(b.player_pool as int, PLAYER_RAKE_BPS as int);
    lemma_fee_split(spec_total_spectator(b), SPECTATOR_RAKE_BPS as int);
    lemma_shares_sum_bounded(
        stakes,
        after_fee_of(spec_total_spectator(b), SPECTATOR_RAKE_BPS as int),
        spec_side_pool(b, side),
    );
}

} // verus!
