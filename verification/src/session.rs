//! Session-key betting rounds over a pooled vault.
//!
//! Users deposit into per-user balance records and bet from them, either
//! with their wallet or through a time-limited session key they authorized.
//! Rounds are opened by the authority at a starting price, locked against a
//! validated oracle observation (with a permissionless fallback so no round
//! can get stuck), settled by direction of the price move, and claimed into
//! the user's balance. Platform fees accumulate in a global total that the
//! authority withdraws from the pooled vault.
//!
//! Fund movement is a collaborator: operations that move value between the
//! vaults report the amount as their `Ok` value, and deposits are escrowed
//! before the transition is applied.

use crate::math::{fee_of, BPS_DENOMINATOR};
use crate::principal::Principal;
use vstd::prelude::*;

verus! {

/// Minimum bet and deposit amount.
pub const MIN_BET: u64 = 10_000_000;

/// Maximum bet amount.
pub const MAX_BET: u64 = 100_000_000_000;

/// Platform fee on winnings, in basis points (5%).
pub const PLATFORM_FEE_BPS: u64 = 500;

/// Round duration in seconds.
pub const ROUND_DURATION_SECONDS: i64 = 30;

/// Betting locks this many seconds before a round ends.
pub const LOCK_BUFFER_SECONDS: i64 = 5;

/// After this many further seconds anyone may lock the round.
pub const FALLBACK_LOCK_DELAY_SECONDS: i64 = 60;

/// Longest allowed session-key validity: 7 days.
pub const MAX_SESSION_DURATION_SECONDS: i64 = 7 * 24 * 60 * 60;

/// Maximum age of an oracle observation in seconds.
pub const MAX_PRICE_AGE_SECONDS: u64 = 60;

/// Grace period for claims before a settled round may be closed: 1 hour.
pub const CLAIM_GRACE_PERIOD_SECONDS: i64 = 60 * 60;

/// The side a bet backs.
#[derive(Clone, Copy, PartialEq, Eq, Structural, Debug)]
pub enum BetSide {
    Up,
    Down,
}

/// Round lifecycle states.
#[derive(Clone, Copy, PartialEq, Eq, Structural, Debug)]
pub enum RoundStatus {
    /// Accepting bets until the lock time.
    Open,
    /// Locked at an end price, waiting for the round to end.
    Locked,
    /// Settled; the winner is final.
    Settled,
}

/// The settled outcome of a round.
#[derive(Clone, Copy, PartialEq, Eq, Structural, Debug)]
pub enum WinnerSide {
    /// Not yet settled.
    Unset,
    Up,
    Down,
    /// Prices equal: everyone is refunded.
    Draw,
}

/// Which game a settlement credit belongs to.
#[derive(Clone, Copy, PartialEq, Eq, Structural, Debug)]
pub enum GameType {
    Oracle,
    Battle,
    Draft,
    Spectator,
}

/// Global game state, one per deployment.
#[derive(Clone, Copy, Debug)]
pub struct GameState {
    pub authority: Principal,
    /// Slot for the two-step authority transfer.
    pub pending_authority: Option<Principal>,
    /// The oracle feed identity every price observation must match.
    pub price_feed_id: [u8; 32],
    /// Identifier of the next round to be created.
    pub current_round: u64,
    pub total_volume: u64,
    /// Fees accumulated and not yet withdrawn.
    pub total_fees_collected: u64,
    pub is_paused: bool,
}

/// One betting round.
#[derive(Clone, Copy, PartialEq, Eq, Structural, Debug)]
pub struct BettingRound {
    pub round_id: u64,
    pub start_time: i64,
    /// When betting closes and the authority may lock.
    pub lock_time: i64,
    pub end_time: i64,
    /// When anyone may lock, should the authority stay offline.
    pub lock_time_fallback: i64,
    pub start_price: u64,
    pub end_price: u64,
    pub status: RoundStatus,
    pub winner: WinnerSide,
}

/// The pools of one round, kept beside it.
#[derive(Clone, Copy, PartialEq, Eq, Structural, Debug)]
pub struct BettingPool {
    pub round_id: u64,
    pub up_pool: u64,
    pub down_pool: u64,
    pub total_pool: u64,
}

/// A user's balance record, backing a personal vault.
#[derive(Clone, Copy, PartialEq, Eq, Structural, Debug)]
pub struct UserBalance {
    pub owner: Principal,
    pub balance: u64,
    pub total_deposited: u64,
    pub total_withdrawn: u64,
    pub total_winnings: u64,
}

/// A player's position in one round. The record store keys one record per
/// (round, player) pair.
#[derive(Clone, Copy, PartialEq, Eq, Structural, Debug)]
pub struct PlayerPosition {
    pub player: Principal,
    pub round_id: u64,
    pub side: BetSide,
    pub amount: u64,
    pub claimed: bool,
}

/// A session token: a temporary key the wallet authorized to act for it
/// until `valid_until`.
#[derive(Clone, Copy, PartialEq, Eq, Structural, Debug)]
pub struct SessionToken {
    /// The wallet that created the session.
    pub authority: Principal,
    /// The temporary signer it authorizes.
    pub session_signer: Principal,
    /// When the session expires.
    pub valid_until: i64,
}

/// Typed rejection reasons.
#[derive(Clone, Copy, PartialEq, Eq, Structural, Debug)]
pub enum SessionBettingError {
    Unauthorized,
    GamePaused,
    InvalidPrice,
    InvalidPriceFeed,
    PriceFeedMismatch,
    PriceTooStale,
    RoundNotOpen,
    RoundLocked,
    TooEarlyToLock,
    TooEarlyForFallback,
    RoundNotLocked,
    TooEarlyToSettle,
    RoundNotSettled,
    GracePeriodNotOver,
    AmountTooSmall,
    AmountTooLarge,
    InsufficientBalance,
    InsufficientVaultBalance,
    InsufficientFees,
    NotBalanceOwner,
    NotPositionOwner,
    AlreadyClaimed,
    MathOverflow,
    InvalidSessionDuration,
    SessionTooLong,
    SessionExpired,
    SessionAuthorityMismatch,
    InvalidSessionSigner,
    NotSessionOwner,
    InvalidAuthority,
    NoPendingAuthority,
}

/// Compares two 32-byte identifiers.
pub fn bytes32_eq(a: &[u8; 32], b: &[u8; 32]) -> (r: bool)
    ensures
        r <==> a@ == b@,
{
    let mut i: usize = 0;
    while i < 32
        invariant
            0 <= i <= 32,
            forall|j: int| 0 <= j < i ==> a@[j] == b@[j],
        decreases 32 - i,
    {
        if a[i] != b[i] {
            return false;
        }
        i = i + 1;
    }
    proof {
        assert(a@ =~= b@);
    }
    true
}

/// `a - b` on the mathematical integers, clamped to the `i64` range.
pub open spec fn spec_sat_sub(a: int, b: int) -> int {
    if a - b < i64::MIN {
        i64::MIN as int
    } else if a - b > i64::MAX {
        i64::MAX as int
    } else {
        a - b
    }
}

/// A fresh, positive oracle observation for the configured feed: the feed
/// identity matches, the publish time is at most [`MAX_PRICE_AGE_SECONDS`]
/// before `now` and not after it, and the price is positive.
pub open spec fn price_observation_valid(
    g: GameState,
    feed_id: Seq<u8>,
    price: int,
    publish_time: int,
    now: int,
) -> bool {
    &&& feed_id == g.price_feed_id@
    &&& 0 <= spec_sat_sub(now, publish_time) <= MAX_PRICE_AGE_SECONDS
    &&& price > 0
}

// ----------------------------------------------------------------------
// Admin operations
// ----------------------------------------------------------------------

/// Creates the global game state (called once on deployment). The caller
/// becomes the authority.
pub fn initialize_game(authority: Principal, price_feed_id: [u8; 32]) -> (g: GameState)
    ensures
        g.authority == authority,
        g.pending_authority is None,
        g.price_feed_id@ == price_feed_id@,
        g.current_round == 0,
        g.total_volume == 0,
        g.total_fees_collected == 0,
        !g.is_paused,
{
    GameState {
        authority,
        pending_authority: None,
        price_feed_id,
        current_round: 0,
        total_volume: 0,
        total_fees_collected: 0,
        is_paused: false,
    }
}

/// When a new round may start.
pub open spec fn start_round_ok(g: GameState, caller: Principal, start_price: u64) -> bool {
    caller == g.authority && !g.is_paused && start_price > 0 && g.current_round < u64::MAX
}

/// Starts a new betting round at `start_price` (authority only; the
/// backend reads the opening price from the oracle and submits it).
pub fn start_round(game: &mut GameState, caller: Principal, now: i64, start_price: u64) -> (r:
    Result<(BettingRound, BettingPool), SessionBettingError>)
    requires
        start_round_ok(*old(game), caller, start_price) ==> now + ROUND_DURATION_SECONDS
            - LOCK_BUFFER_SECONDS + FALLBACK_LOCK_DELAY_SECONDS <= i64::MAX,
    ensures
        r is Ok <==> start_round_ok(*old(game), caller, start_price),
        caller != old(game).authority ==> r == Err::<(BettingRound, BettingPool), SessionBettingError>(
            SessionBettingError::Unauthorized,
        ),
        caller == old(game).authority && old(game).is_paused ==> r == Err::<
            (BettingRound, BettingPool),
            SessionBettingError,
        >(SessionBettingError::GamePaused),
        caller == old(game).authority && !old(game).is_paused && start_price == 0 ==> r == Err::<
            (BettingRound, BettingPool),
            SessionBettingError,
        >(SessionBettingError::InvalidPrice),
        caller == old(game).authority && !old(game).is_paused && start_price > 0 && old(
            game,
        ).current_round == u64::MAX ==> r == Err::<(BettingRound, BettingPool), SessionBettingError>(
            SessionBettingError::MathOverflow,
        ),
        r matches Ok(rp) ==> rp.0 == (BettingRound {
            round_id: old(game).current_round,
            start_time: now,
            lock_time: (now + ROUND_DURATION_SECONDS - LOCK_BUFFER_SECONDS) as i64,
            end_time: (now + ROUND_DURATION_SECONDS) as i64,
            lock_time_fallback: (now + ROUND_DURATION_SECONDS - LOCK_BUFFER_SECONDS
                + FALLBACK_LOCK_DELAY_SECONDS) as i64,
            start_price,
            end_price: 0,
            status: RoundStatus::Open,
            winner: WinnerSide::Unset,
        }),
        r matches Ok(rp) ==> rp.1 == (BettingPool {
            round_id: old(game).current_round,
            up_pool: 0,
            down_pool: 0,
            total_pool: 0,
        }),
        r is Ok ==> final(game).authority == old(game).authority && final(game).pending_authority
            == old(game).pending_authority && final(game).price_feed_id == old(game).price_feed_id
            && final(game).current_round == old(game).current_round + 1 && final(game).total_volume
            == old(game).total_volume && final(game).total_fees_collected == old(
            game,
        ).total_fees_collected && final(game).is_paused == old(game).is_paused,
        r is Err ==> *final(game) == *old(game),
{
    if !(caller == game.authority) {
        return Err(SessionBettingError::Unauthorized);
    }
    if game.is_paused {
        return Err(SessionBettingError::GamePaused);
    }
    if start_price == 0 {
        return Err(SessionBettingError::InvalidPrice);
    }
    let next = match game.current_round.checked_add(1) {
        Some(v) => v,
        None => {
            return Err(SessionBettingError::MathOverflow);
        },
    };
    let round_id = game.current_round;
    let lock_time = now + ROUND_DURATION_SECONDS - LOCK_BUFFER_SECONDS;
    let round = BettingRound {
        round_id,
        start_time: now,
        lock_time,
        end_time: now + ROUND_DURATION_SECONDS,
        lock_time_fallback: lock_time + FALLBACK_LOCK_DELAY_SECONDS,
        start_price,
        end_price: 0,
        status: RoundStatus::Open,
        winner: WinnerSide::Unset,
    };
    let pool = BettingPool { round_id, up_pool: 0, down_pool: 0, total_pool: 0 };
    game.current_round = next;
    Ok((round, pool))
}

/// When an authority lock of a round is accepted.
pub open spec fn lock_round_ok(
    g: GameState,
    r: BettingRound,
    caller: Principal,
    now: i64,
    feed_id: Seq<u8>,
    price: int,
    publish_time: int,
) -> bool {
    &&& caller == g.authority
    &&& r.status is Open
    &&& now >= r.lock_time
    &&& price_observation_valid(g, feed_id, price, publish_time, now as int)
}

/// The round after a lock: the end price recorded, betting over.
pub open spec fn lock_round_post(r: BettingRound, price: int) -> BettingRound {
    BettingRound { end_price: price as u64, status: RoundStatus::Locked, ..r }
}

/// Locks the round at a validated oracle observation (authority only).
/// `feed_id`, `price` and `publish_time` are the observation as the oracle
/// collaborator delivered it; it is rejected unless it names the
/// configured feed, is fresh, and carries a positive price.
pub fn lock_round(
    game: &GameState,
    round: &mut BettingRound,
    caller: Principal,
    now: i64,
    feed_id: &[u8; 32],
    price: i64,
    publish_time: i64,
) -> (r: Result<(), SessionBettingError>)
    ensures
        r is Ok <==> lock_round_ok(
            *game,
            *old(round),
            caller,
            now,
            feed_id@,
            price as int,
            publish_time as int,
        ),
        caller != game.authority ==> r == Err::<(), SessionBettingError>(
            SessionBettingError::Unauthorized,
        ),
        caller == game.authority && !(old(round).status is Open) ==> r == Err::<
            (),
            SessionBettingError,
        >(SessionBettingError::RoundNotOpen),
        caller == game.authority && old(round).status is Open && now < old(round).lock_time ==> r
            == Err::<(), SessionBettingError>(SessionBettingError::TooEarlyToLock),
        caller == game.authority && old(round).status is Open && now >= old(round).lock_time
            && feed_id@ != game.price_feed_id@ ==> r == Err::<(), SessionBettingError>(
            SessionBettingError::PriceFeedMismatch,
        ),
        caller == game.authority && old(round).status is Open && now >= old(round).lock_time
            && feed_id@ == game.price_feed_id@ && !(0 <= spec_sat_sub(
            now as int,
            publish_time as int,
        ) <= MAX_PRICE_AGE_SECONDS) ==> r == Err::<(), SessionBettingError>(
            SessionBettingError::PriceTooStale,
        ),
        caller == game.authority && old(round).status is Open && now >= old(round).lock_time
            && feed_id@ == game.price_feed_id@ && 0 <= spec_sat_sub(
            now as int,
            publish_time as int,
        ) <= MAX_PRICE_AGE_SECONDS && price <= 0 ==> r == Err::<(), SessionBettingError>(
            SessionBettingError::InvalidPrice,
        ),
        r is Ok ==> *final(round) == lock_round_post(*old(round), price as int),
        r is Err ==> *final(round) == *old(round),
{
    if !(caller == game.authority) {
        return Err(SessionBettingError::Unauthorized);
    }
    if !(round.status == RoundStatus::Open) {
        return Err(SessionBettingError::RoundNotOpen);
    }
    if now < round.lock_time {
        return Err(SessionBettingError::TooEarlyToLock);
    }
    if !bytes32_eq(feed_id, &game.price_feed_id) {
        return Err(SessionBettingError::PriceFeedMismatch);
    }
    let age = match now.checked_sub(publish_time) {
        Some(v) => v,
        None => if publish_time < 0 {
            i64::MAX
        } else {
            i64::MIN
        },
    };
    if !(0 <= age && age <= MAX_PRICE_AGE_SECONDS as i64) {
        return Err(SessionBettingError::PriceTooStale);
    }
    if price <= 0 {
        return Err(SessionBettingError::InvalidPrice);
    }
    round.end_price = price as u64;
    round.status = RoundStatus::Locked;
    Ok(())
}

/// When a permissionless fallback lock is accepted.
pub open spec fn lock_round_fallback_ok(
    g: GameState,
    r: BettingRound,
    now: i64,
    feed_id: Seq<u8>,
    price: int,
    publish_time: int,
) -> bool {
    &&& r.status is Open
    &&& now >= r.lock_time_fallback
    &&& price_observation_valid(g, feed_id, price, publish_time, now as int)
}

/// Locks the round at a validated oracle observation without the
/// authority: anyone may call once [`FALLBACK_LOCK_DELAY_SECONDS`] have
/// passed beyond the lock time, so a round cannot get stuck when the
/// authority goes offline. The observation is validated exactly as in
/// [`lock_round`]; no arbitrary price can be injected.
pub fn lock_round_fallback(
    game: &GameState,
    round: &mut BettingRound,
    now: i64,
    feed_id: &[u8; 32],
    price: i64,
    publish_time: i64,
) -> (r: Result<(), SessionBettingError>)
    ensures
        r is Ok <==> lock_round_fallback_ok(
            *game,
            *old(round),
            now,
            feed_id@,
            price as int,
            publish_time as int,
        ),
        !(old(round).status is Open) ==> r == Err::<(), SessionBettingError>(
            SessionBettingError::RoundNotOpen,
        ),
        old(round).status is Open && now < old(round).lock_time_fallback ==> r == Err::<
            (),
            SessionBettingError,
        >(SessionBettingError::TooEarlyForFallback),
        old(round).status is Open && now >= old(round).lock_time_fallback && feed_id@
            != game.price_feed_id@ ==> r == Err::<(), SessionBettingError>(
            SessionBettingError::PriceFeedMismatch,
        ),
        old(round).status is Open && now >= old(round).lock_time_fallback && feed_id@
            == game.price_feed_id@ && !(0 <= spec_sat_sub(now as int, publish_time as int)
            <= MAX_PRICE_AGE_SECONDS) ==> r == Err::<(), SessionBettingError>(
            SessionBettingError::PriceTooStale,
        ),
        old(round).status is Open && now >= old(round).lock_time_fallback && feed_id@
            == game.price_feed_id@ && 0 <= spec_sat_sub(now as int, publish_time as int)
            <= MAX_PRICE_AGE_SECONDS && price <= 0 ==> r == Err::<(), SessionBettingError>(
            SessionBettingError::InvalidPrice,
        ),
        r is Ok ==> *final(round) == lock_round_post(*old(round), price as int),
        r is Err ==> *final(round) == *old(round),
{
    if !(round.status == RoundStatus::Open) {
        return Err(SessionBettingError::RoundNotOpen);
    }
    if now < round.lock_time_fallback {
        return Err(SessionBettingError::TooEarlyForFallback);
    }
    if !bytes32_eq(feed_id, &game.price_feed_id) {
        return Err(SessionBettingError::PriceFeedMismatch);
    }
    let age = match now.checked_sub(publish_time) {
        Some(v) => v,
        None => if publish_time < 0 {
            i64::MAX
        } else {
            i64::MIN
        },
    };
    if !(0 <= age && age <= MAX_PRICE_AGE_SECONDS as i64) {
        return Err(SessionBettingError::PriceTooStale);
    }
    if price <= 0 {
        return Err(SessionBettingError::InvalidPrice);
    }
    round.end_price = price as u64;
    round.status = RoundStatus::Locked;
    Ok(())
}

/// When a settle of a locked round is accepted.
pub open spec fn settle_round_ok(r: BettingRound, now: i64, volume: int, pool: int) -> bool {
    r.status is Locked && now >= r.end_time && volume + pool <= u64::MAX
}

/// The outcome a settle records: the direction the price moved, a draw
/// when it did not move.
pub open spec fn settle_round_winner(r: BettingRound) -> WinnerSide {
    if r.end_price > r.start_price {
        WinnerSide::Up
    } else if r.end_price < r.start_price {
        WinnerSide::Down
    } else {
        WinnerSide::Draw
    }
}

/// Settles a locked round after its end time (permissionless): records
/// the winner from the price direction and accrues the round's pool into
/// the global volume.
pub fn settle_round(
    game: &mut GameState,
    round: &mut BettingRound,
    pool: &BettingPool,
    now: i64,
) -> (r: Result<(), SessionBettingError>)
    requires
        pool.round_id == old(round).round_id,
    ensures
        r is Ok <==> settle_round_ok(
            *old(round),
            now,
            old(game).total_volume as int,
            pool.total_pool as int,
        ),
        !(old(round).status is Locked) ==> r == Err::<(), SessionBettingError>(
            SessionBettingError::RoundNotLocked,
        ),
        old(round).status is Locked && now < old(round).end_time ==> r == Err::<
            (),
            SessionBettingError,
        >(SessionBettingError::TooEarlyToSettle),
        old(round).status is Locked && now >= old(round).end_time && old(game).total_volume
            + pool.total_pool > u64::MAX ==> r == Err::<(), SessionBettingError>(
            SessionBettingError::MathOverflow,
        ),
        r is Ok ==> *final(round) == (BettingRound {
            winner: settle_round_winner(*old(round)),
            status: RoundStatus::Settled,
            ..*old(round)
        }),
        r is Ok ==> final(game).total_volume == old(game).total_volume + pool.total_pool && final(game).authority == old(game).authority && final(game).pending_authority == old(
            game,
        ).pending_authority && final(game).price_feed_id == old(game).price_feed_id && final(game).current_round == old(game).current_round && final(game).total_fees_collected == old(
            game,
        ).total_fees_collected && final(game).is_paused == old(game).is_paused,
        r is Err ==> *final(game) == *old(game) && *final(round) == *old(round),
{
    if !(round.status == RoundStatus::Locked) {
        return Err(SessionBettingError::RoundNotLocked);
    }
    if now < round.end_time {
        return Err(SessionBettingError::TooEarlyToSettle);
    }
    let new_volume = match game.total_volume.checked_add(pool.total_pool) {
        Some(v) => v,
        None => {
            return Err(SessionBettingError::MathOverflow);
        },
    };
    let winner = if round.end_price > round.start_price {
        WinnerSide::Up
    } else if round.end_price < round.start_price {
        WinnerSide::Down
    } else {
        WinnerSide::Draw
    };
    round.winner = winner;
    round.status = RoundStatus::Settled;
    game.total_volume = new_volume;
    Ok(())
}

/// When a settled round may be closed and its rent reclaimed.
pub open spec fn close_round_ok(g: GameState, r: BettingRound, caller: Principal, now: i64) -> bool {
    &&& caller == g.authority
    &&& r.status is Settled
    &&& r.end_time + CLAIM_GRACE_PERIOD_SECONDS <= i64::MAX
    &&& now >= r.end_time + CLAIM_GRACE_PERIOD_SECONDS
}

/// Checks that a settled round may be closed (authority only, after the
/// claim grace period). The record removal itself is the store's; any
/// unclaimed winnings are forfeited to the protocol.
pub fn close_round(game: &GameState, round: &BettingRound, caller: Principal, now: i64) -> (r:
    Result<(), SessionBettingError>)
    ensures
        r is Ok <==> close_round_ok(*game, *round, caller, now),
        caller != game.authority ==> r == Err::<(), SessionBettingError>(
            SessionBettingError::Unauthorized,
        ),
        caller == game.authority && !(round.status is Settled) ==> r == Err::<
            (),
            SessionBettingError,
        >(SessionBettingError::RoundNotSettled),
        caller == game.authority && round.status is Settled && round.end_time
            + CLAIM_GRACE_PERIOD_SECONDS > i64::MAX ==> r == Err::<(), SessionBettingError>(
            SessionBettingError::MathOverflow,
        ),
        caller == game.authority && round.status is Settled && round.end_time
            + CLAIM_GRACE_PERIOD_SECONDS <= i64::MAX && now < round.end_time
            + CLAIM_GRACE_PERIOD_SECONDS ==> r == Err::<(), SessionBettingError>(
            SessionBettingError::GracePeriodNotOver,
        ),
{
    if !(caller == game.authority) {
        return Err(SessionBettingError::Unauthorized);
    }
    if !(round.status == RoundStatus::Settled) {
        return Err(SessionBettingError::RoundNotSettled);
    }
    let close_time = match round.end_time.checked_add(CLAIM_GRACE_PERIOD_SECONDS) {
        Some(v) => v,
        None => {
            return Err(SessionBettingError::MathOverflow);
        },
    };
    if now < close_time {
        return Err(SessionBettingError::GracePeriodNotOver);
    }
    Ok(())
}

/// Pauses or unpauses the game (authority only).
pub fn set_paused(game: &mut GameState, caller: Principal, paused: bool) -> (r: Result<
    (),
    SessionBettingError,
>)
    ensures
        r is Ok <==> caller == old(game).authority,
        caller != old(game).authority ==> r == Err::<(), SessionBettingError>(
            SessionBettingError::Unauthorized,
        ),
        r is Ok ==> final(game).is_paused == paused && final(game).authority == old(game).authority
            && final(game).pending_authority == old(game).pending_authority && final(game).price_feed_id == old(game).price_feed_id && final(game).current_round == old(
            game,
        ).current_round && final(game).total_volume == old(game).total_volume && final(game).total_fees_collected == old(game).total_fees_collected,
        r is Err ==> *final(game) == *old(game),
{
    if !(caller == game.authority) {
        return Err(SessionBettingError::Unauthorized);
    }
    game.is_paused = paused;
    Ok(())
}

/// Replaces the oracle feed identity (authority only).
pub fn set_price_feed(game: &mut GameState, caller: Principal, price_feed_id: [u8; 32]) -> (r:
    Result<(), SessionBettingError>)
    ensures
        r is Ok <==> caller == old(game).authority,
        caller != old(game).authority ==> r == Err::<(), SessionBettingError>(
            SessionBettingError::Unauthorized,
        ),
        r is Ok ==> final(game).price_feed_id@ == price_feed_id@ && final(game).authority == old(
            game,
        ).authority && final(game).pending_authority == old(game).pending_authority && final(game).current_round == old(game).current_round && final(game).total_volume == old(
            game,
        ).total_volume && final(game).total_fees_collected == old(game).total_fees_collected
            && final(game).is_paused == old(game).is_paused,
        r is Err ==> *final(game) == *old(game),
{
    if !(caller == game.authority) {
        return Err(SessionBettingError::Unauthorized);
    }
    game.price_feed_id = price_feed_id;
    Ok(())
}

// ----------------------------------------------------------------------
// Two-step authority transfer
// ----------------------------------------------------------------------

/// Step 1: the current authority proposes a successor, filling the
/// pending slot. Two steps prevent an accidental lockout.
pub fn propose_authority_transfer(
    game: &mut GameState,
    caller: Principal,
    new_authority: Principal,
) -> (r: Result<(), SessionBettingError>)
    ensures
        r is Ok <==> caller == old(game).authority && !new_authority.is_unset(),
        caller != old(game).authority ==> r == Err::<(), SessionBettingError>(
            SessionBettingError::Unauthorized,
        ),
        caller == old(game).authority && new_authority.is_unset() ==> r == Err::<
            (),
            SessionBettingError,
        >(SessionBettingError::InvalidAuthority),
        r is Ok ==> *final(game) == (GameState {
            pending_authority: Some(new_authority),
            ..*old(game)
        }),
        r is Err ==> *final(game) == *old(game),
{
    if !(caller == game.authority) {
        return Err(SessionBettingError::Unauthorized);
    }
    if new_authority.is_none_key() {
        return Err(SessionBettingError::InvalidAuthority);
    }
    game.pending_authority = Some(new_authority);
    Ok(())
}

/// Step 2: the proposed successor accepts, becoming the authority; the
/// pending slot is cleared.
pub fn accept_authority_transfer(game: &mut GameState, caller: Principal) -> (r: Result<
    (),
    SessionBettingError,
>)
    ensures
        r is Ok <==> old(game).pending_authority == Some(caller),
        old(game).pending_authority is None ==> r == Err::<(), SessionBettingError>(
            SessionBettingError::NoPendingAuthority,
        ),
        (old(game).pending_authority matches Some(p) && p != caller) ==> r == Err::<
            (),
            SessionBettingError,
        >(SessionBettingError::Unauthorized),
        r is Ok ==> *final(game) == (GameState {
            authority: caller,
            pending_authority: None,
            ..*old(game)
        }),
        r is Err ==> *final(game) == *old(game),
{
    let pending = match game.pending_authority {
        Some(p) => p,
        None => {
            return Err(SessionBettingError::NoPendingAuthority);
        },
    };
    if !(caller == pending) {
        return Err(SessionBettingError::Unauthorized);
    }
    game.authority = pending;
    game.pending_authority = None;
    Ok(())
}

/// Cancels a pending authority transfer (current authority only).
pub fn cancel_authority_transfer(game: &mut GameState, caller: Principal) -> (r: Result<
    (),
    SessionBettingError,
>)
    ensures
        r is Ok <==> caller == old(game).authority && old(game).pending_authority is Some,
        caller != old(game).authority ==> r == Err::<(), SessionBettingError>(
            SessionBettingError::Unauthorized,
        ),
        caller == old(game).authority && old(game).pending_authority is None ==> r == Err::<
            (),
            SessionBettingError,
        >(SessionBettingError::NoPendingAuthority),
        r is Ok ==> *final(game) == (GameState { pending_authority: None, ..*old(game) }),
        r is Err ==> *final(game) == *old(game),
{
    if !(caller == game.authority) {
        return Err(SessionBettingError::Unauthorized);
    }
    if game.pending_authority.is_none() {
        return Err(SessionBettingError::NoPendingAuthority);
    }
    game.pending_authority = None;
    Ok(())
}

// ----------------------------------------------------------------------
// Fees and the pooled vault
// ----------------------------------------------------------------------

/// When a fee withdrawal is accepted: authority, a positive amount within
/// both the accumulated fees and the vault's balance.
pub open spec fn session_withdraw_fees_ok(
    g: GameState,
    caller: Principal,
    amount: u64,
    vault_balance: u64,
) -> bool {
    &&& caller == g.authority
    &&& amount > 0
    &&& amount <= g.total_fees_collected
    &&& vault_balance >= amount
}

/// Withdraws accumulated platform fees from the pooled vault (authority
/// only). The fee total is reduced before the transfer; the `Ok` value is
/// the amount to move.
pub fn withdraw_fees(
    game: &mut GameState,
    caller: Principal,
    amount: u64,
    global_vault_balance: u64,
) -> (r: Result<u64, SessionBettingError>)
    ensures
        r is Ok <==> session_withdraw_fees_ok(*old(game), caller, amount, global_vault_balance),
        caller != old(game).authority ==> r == Err::<u64, SessionBettingError>(
            SessionBettingError::Unauthorized,
        ),
        caller == old(game).authority && amount == 0 ==> r == Err::<u64, SessionBettingError>(
            SessionBettingError::AmountTooSmall,
        ),
        caller == old(game).authority && amount > 0 && amount > old(game).total_fees_collected
            ==> r == Err::<u64, SessionBettingError>(SessionBettingError::InsufficientFees),
        caller == old(game).authority && amount > 0 && amount <= old(game).total_fees_collected
            && global_vault_balance < amount ==> r == Err::<u64, SessionBettingError>(
            SessionBettingError::InsufficientVaultBalance,
        ),
        r matches Ok(w) ==> w == amount,
        r is Ok ==> *final(game) == (GameState {
            total_fees_collected: (old(game).total_fees_collected - amount) as u64,
            ..*old(game)
        }),
        r is Err ==> *final(game) == *old(game),
{
    if !(caller == game.authority) {
        return Err(SessionBettingError::Unauthorized);
    }
    if amount == 0 {
        return Err(SessionBettingError::AmountTooSmall);
    }
    if amount > game.total_fees_collected {
        return Err(SessionBettingError::InsufficientFees);
    }
    if global_vault_balance < amount {
        return Err(SessionBettingError::InsufficientVaultBalance);
    }
    game.total_fees_collected = game.total_fees_collected - amount;
    Ok(amount)
}

/// Moves value from a user's vault into the pooled vault when the user
/// lost a game (authority only; the backend applies settlement). The
/// user's recorded balance is reduced before the transfer; the `Ok` value
/// is the amount to move.
pub fn transfer_to_global_vault(
    game: &GameState,
    user_balance: &mut UserBalance,
    caller: Principal,
    amount: u64,
) -> (r: Result<u64, SessionBettingError>)
    ensures
        r is Ok <==> caller == game.authority && old(user_balance).balance >= amount,
        caller != game.authority ==> r == Err::<u64, SessionBettingError>(
            SessionBettingError::Unauthorized,
        ),
        caller == game.authority && old(user_balance).balance < amount ==> r == Err::<
            u64,
            SessionBettingError,
        >(SessionBettingError::InsufficientBalance),
        r matches Ok(w) ==> w == amount,
        r is Ok ==> *final(user_balance) == (UserBalance {
            balance: (old(user_balance).balance - amount) as u64,
            ..*old(user_balance)
        }),
        r is Err ==> *final(user_balance) == *old(user_balance),
{
    if !(caller == game.authority) {
        return Err(SessionBettingError::Unauthorized);
    }
    if user_balance.balance < amount {
        return Err(SessionBettingError::InsufficientBalance);
    }
    user_balance.balance = user_balance.balance - amount;
    Ok(amount)
}

/// When a winnings credit is accepted.
pub open spec fn credit_winnings_ok(
    g: GameState,
    ub: UserBalance,
    caller: Principal,
    amount: u64,
    vault_balance: u64,
) -> bool {
    &&& caller == g.authority
    &&& amount > 0
    &&& vault_balance >= amount
    &&& ub.balance + amount <= u64::MAX
    &&& ub.total_winnings + amount <= u64::MAX
}

/// Credits winnings from the pooled vault to a user's balance (authority
/// only; the backend pays out winners). The `Ok` value is the amount to
/// move from the pooled vault into the user's vault. `game_type` and
/// `game_id` identify the game being settled for the audit trail.
pub fn credit_winnings(
    game: &GameState,
    user_balance: &mut UserBalance,
    caller: Principal,
    amount: u64,
    global_vault_balance: u64,
    game_type: GameType,
    game_id: [u8; 32],
) -> (r: Result<u64, SessionBettingError>)
    ensures
        r is Ok <==> credit_winnings_ok(*game, *old(user_balance), caller, amount, global_vault_balance),
        caller != game.authority ==> r == Err::<u64, SessionBettingError>(
            SessionBettingError::Unauthorized,
        ),
        caller == game.authority && amount == 0 ==> r == Err::<u64, SessionBettingError>(
            SessionBettingError::AmountTooSmall,
        ),
        caller == game.authority && amount > 0 && global_vault_balance < amount ==> r == Err::<
            u64,
            SessionBettingError,
        >(SessionBettingError::InsufficientVaultBalance),
        caller == game.authority && amount > 0 && global_vault_balance >= amount && (old(
            user_balance,
        ).balance + amount > u64::MAX || old(user_balance).total_winnings + amount > u64::MAX)
            ==> r == Err::<u64, SessionBettingError>(SessionBettingError::MathOverflow),
        r matches Ok(w) ==> w == amount,
        r is Ok ==> *final(user_balance) == (UserBalance {
            balance: (old(user_balance).balance + amount) as u64,
            total_winnings: (old(user_balance).total_winnings + amount) as u64,
            ..*old(user_balance)
        }),
        r is Err ==> *final(user_balance) == *old(user_balance),
{
    if !(caller == game.authority) {
        return Err(SessionBettingError::Unauthorized);
    }
    if amount == 0 {
        return Err(SessionBettingError::AmountTooSmall);
    }
    if global_vault_balance < amount {
        return Err(SessionBettingError::InsufficientVaultBalance);
    }
    let new_balance = match user_balance.balance.checked_add(amount) {
        Some(v) => v,
        None => {
            return Err(SessionBettingError::MathOverflow);
        },
    };
    let new_winnings = match user_balance.total_winnings.checked_add(amount) {
        Some(v) => v,
        None => {
            return Err(SessionBettingError::MathOverflow);
        },
    };
    user_balance.balance = new_balance;
    user_balance.total_winnings = new_winnings;
    Ok(amount)
}

/// Accepts the authority's deposit into the pooled vault, so payouts can
/// be funded. The `Ok` value is the amount to move.
pub fn fund_global_vault(game: &GameState, caller: Principal, amount: u64) -> (r: Result<
    u64,
    SessionBettingError,
>)
    ensures
        r is Ok <==> caller == game.authority,
        caller != game.authority ==> r == Err::<u64, SessionBettingError>(
            SessionBettingError::Unauthorized,
        ),
        r matches Ok(w) ==> w == amount,
{
    if !(caller == game.authority) {
        return Err(SessionBettingError::Unauthorized);
    }
    Ok(amount)
}

// ----------------------------------------------------------------------
// Session keys
// ----------------------------------------------------------------------

/// When creating a session token is accepted: a positive duration of at
/// most [`MAX_SESSION_DURATION_SECONDS`].
pub open spec fn create_session_ok(valid_until: i64, now: i64) -> bool {
    &&& i64::MIN <= valid_until - now <= i64::MAX
    &&& valid_until - now > 0
    &&& valid_until - now <= MAX_SESSION_DURATION_SECONDS
}

/// Creates a session token authorizing `session_signer` to act for
/// `authority` until `valid_until` (wallet signature required).
pub fn create_session(
    authority: Principal,
    session_signer: Principal,
    valid_until: i64,
    now: i64,
) -> (r: Result<SessionToken, SessionBettingError>)
    ensures
        r is Ok <==> create_session_ok(valid_until, now),
        !(i64::MIN <= valid_until - now <= i64::MAX) || valid_until - now <= 0 ==> r == Err::<
            SessionToken,
            SessionBettingError,
        >(SessionBettingError::InvalidSessionDuration),
        i64::MIN <= valid_until - now <= i64::MAX && valid_until - now > 0 && valid_until - now
            > MAX_SESSION_DURATION_SECONDS ==> r == Err::<SessionToken, SessionBettingError>(
            SessionBettingError::SessionTooLong,
        ),
        r matches Ok(t) ==> t == (SessionToken { authority, session_signer, valid_until }),
{
    let duration = match valid_until.checked_sub(now) {
        Some(v) => v,
        None => {
            return Err(SessionBettingError::InvalidSessionDuration);
        },
    };
    if !(duration > 0) {
        return Err(SessionBettingError::InvalidSessionDuration);
    }
    if duration > MAX_SESSION_DURATION_SECONDS {
        return Err(SessionBettingError::SessionTooLong);
    }
    Ok(SessionToken { authority, session_signer, valid_until })
}

/// Whether a signer may act for `expected_authority`, stated as the full
/// decision chain of [`verify_session_or_authority`]: the wallet itself
/// always may; otherwise a session token must exist, belong to that
/// wallet, name this signer, and not have expired.
pub open spec fn spec_verify_session(
    session_token: Option<SessionToken>,
    signer: Principal,
    expected_authority: Principal,
    now: i64,
) -> Result<(), SessionBettingError> {
    if signer == expected_authority {
        Ok(())
    } else {
        match session_token {
            Some(s) => {
                if s.authority != expected_authority {
                    Err(SessionBettingError::SessionAuthorityMismatch)
                } else if s.session_signer != signer {
                    Err(SessionBettingError::InvalidSessionSigner)
                } else if now >= s.valid_until {
                    Err(SessionBettingError::SessionExpired)
                } else {
                    Ok(())
                }
            },
            None => Err(SessionBettingError::Unauthorized),
        }
    }
}

/// Checks that `signer` may act for `expected_authority`, either directly
/// or through a valid, unexpired session token naming it.
pub fn verify_session_or_authority(
    session_token: &Option<SessionToken>,
    signer: Principal,
    expected_authority: Principal,
    now: i64,
) -> (r: Result<(), SessionBettingError>)
    ensures
        r == spec_verify_session(*session_token, signer, expected_authority, now),
{
    if signer == expected_authority {
        return Ok(());
    }
    match session_token {
        Some(session) => {
            if !(session.authority == expected_authority) {
                return Err(SessionBettingError::SessionAuthorityMismatch);
            }
            if !(session.session_signer == signer) {
                return Err(SessionBettingError::InvalidSessionSigner);
            }
            if now >= session.valid_until {
                return Err(SessionBettingError::SessionExpired);
            }
            Ok(())
        },
        None => Err(SessionBettingError::Unauthorized),
    }
}

// ----------------------------------------------------------------------
// User balances
// ----------------------------------------------------------------------

/// When a deposit is accepted.
pub open spec fn deposit_ok(ub: UserBalance, amount: u64) -> bool {
    &&& amount >= MIN_BET
    &&& ub.balance + amount <= u64::MAX
    &&& ub.total_deposited + amount <= u64::MAX
}

/// Records a deposit into the user's balance (wallet signature required).
/// The user must have escrowed `amount` in their vault before this
/// transition is applied. A fresh record carries the unset owner and is
/// claimed by the depositor here.
pub fn deposit(user_balance: &mut UserBalance, user: Principal, amount: u64) -> (r: Result<
    (),
    SessionBettingError,
>)
    requires
        old(user_balance).owner == user || old(user_balance).owner.is_unset(),
    ensures
        r is Ok <==> deposit_ok(*old(user_balance), amount),
        amount < MIN_BET ==> r == Err::<(), SessionBettingError>(SessionBettingError::AmountTooSmall),
        amount >= MIN_BET && (old(user_balance).balance + amount > u64::MAX || old(
            user_balance,
        ).total_deposited + amount > u64::MAX) ==> r == Err::<(), SessionBettingError>(
            SessionBettingError::MathOverflow,
        ),
        r is Ok ==> *final(user_balance) == (UserBalance {
            owner: user,
            balance: (old(user_balance).balance + amount) as u64,
            total_deposited: (old(user_balance).total_deposited + amount) as u64,
            ..*old(user_balance)
        }),
        r is Err ==> *final(user_balance) == *old(user_balance),
{
    if amount < MIN_BET {
        return Err(SessionBettingError::AmountTooSmall);
    }
    let new_balance = match user_balance.balance.checked_add(amount) {
        Some(v) => v,
        None => {
            return Err(SessionBettingError::MathOverflow);
        },
    };
    let new_deposited = match user_balance.total_deposited.checked_add(amount) {
        Some(v) => v,
        None => {
            return Err(SessionBettingError::MathOverflow);
        },
    };
    user_balance.owner = user;
    user_balance.balance = new_balance;
    user_balance.total_deposited = new_deposited;
    Ok(())
}

/// When a withdrawal is accepted.
pub open spec fn withdraw_ok(ub: UserBalance, user: Principal, amount: u64) -> bool {
    &&& ub.owner == user
    &&& ub.balance >= amount
    &&& ub.total_withdrawn + amount <= u64::MAX
}

/// Withdraws from the user's balance to their wallet (wallet signature
/// required, never a session key, so a stolen session key cannot drain
/// funds). The `Ok` value is the amount to transfer out of the vault.
pub fn withdraw(user_balance: &mut UserBalance, user: Principal, amount: u64) -> (r: Result<
    u64,
    SessionBettingError,
>)
    ensures
        r is Ok <==> withdraw_ok(*old(user_balance), user, amount),
        old(user_balance).owner != user ==> r == Err::<u64, SessionBettingError>(
            SessionBettingError::NotBalanceOwner,
        ),
        old(user_balance).owner == user && old(user_balance).balance < amount ==> r == Err::<
            u64,
            SessionBettingError,
        >(SessionBettingError::InsufficientBalance),
        old(user_balance).owner == user && old(user_balance).balance >= amount && old(
            user_balance,
        ).total_withdrawn + amount > u64::MAX ==> r == Err::<u64, SessionBettingError>(
            SessionBettingError::MathOverflow,
        ),
        r matches Ok(w) ==> w == amount,
        r is Ok ==> *final(user_balance) == (UserBalance {
            balance: (old(user_balance).balance - amount) as u64,
            total_withdrawn: (old(user_balance).total_withdrawn + amount) as u64,
            ..*old(user_balance)
        }),
        r is Err ==> *final(user_balance) == *old(user_balance),
{
    if !(user_balance.owner == user) {
        return Err(SessionBettingError::NotBalanceOwner);
    }
    if user_balance.balance < amount {
        return Err(SessionBettingError::InsufficientBalance);
    }
    let new_withdrawn = match user_balance.total_withdrawn.checked_add(amount) {
        Some(v) => v,
        None => {
            return Err(SessionBettingError::MathOverflow);
        },
    };
    user_balance.balance = user_balance.balance - amount;
    user_balance.total_withdrawn = new_withdrawn;
    Ok(amount)
}

// ----------------------------------------------------------------------
// Betting and claims
// ----------------------------------------------------------------------

/// The pool backing a bet side.
pub open spec fn session_side_pool(pl: BettingPool, side: BetSide) -> int {
    match side {
        BetSide::Up => pl.up_pool as int,
        BetSide::Down => pl.down_pool as int,
    }
}

/// The pool record with one side's pool replaced.
pub open spec fn session_with_side_pool(pl: BettingPool, side: BetSide, v: u64) -> BettingPool {
    match side {
        BetSide::Up => BettingPool { up_pool: v, ..pl },
        BetSide::Down => BettingPool { down_pool: v, ..pl },
    }
}

/// Gross winnings of a position, stated as the full decision chain: a
/// losing (or unsettled, or drawn) position wins nothing; with an empty
/// winning pool the stake is returned; otherwise the stake plus its
/// proportional share of the losing pool, if that fits in a `u64`.
pub open spec fn spec_calculate_winnings(
    bet_amount: u64,
    bet_side: BetSide,
    winner: WinnerSide,
    up_pool: u64,
    down_pool: u64,
) -> Result<u64, SessionBettingError> {
    let user_won = (bet_side is Up && winner is Up) || (bet_side is Down && winner is Down);
    if !user_won {
        Ok(0u64)
    } else {
        let winning_pool: int = if winner is Up {
            up_pool as int
        } else {
            down_pool as int
        };
        let losing_pool: int = if winner is Up {
            down_pool as int
        } else {
            up_pool as int
        };
        if winning_pool == 0 {
            Ok(bet_amount)
        } else if bet_amount + bet_amount * losing_pool / winning_pool > u64::MAX {
            Err(SessionBettingError::MathOverflow)
        } else {
            Ok((bet_amount + bet_amount * losing_pool / winning_pool) as u64)
        }
    }
}

/// Computes a position's gross winnings: the stake plus a share of the
/// losing pool proportional to the stake's weight in the winning pool.
pub fn calculate_winnings(
    bet_amount: u64,
    bet_side: BetSide,
    winner: WinnerSide,
    up_pool: u64,
    down_pool: u64,
) -> (r: Result<u64, SessionBettingError>)
    ensures
        r == spec_calculate_winnings(bet_amount, bet_side, winner, up_pool, down_pool),
{
    let user_won = match (bet_side, winner) {
        (BetSide::Up, WinnerSide::Up) => true,
        (BetSide::Down, WinnerSide::Down) => true,
        _ => false,
    };
    if !user_won {
        return Ok(0);
    }
    let (winning_pool, losing_pool) = match winner {
        WinnerSide::Up => (up_pool, down_pool),
        WinnerSide::Down => (down_pool, up_pool),
        _ => {
            return Ok(0);
        },
    };
    if winning_pool == 0 {
        return Ok(bet_amount);
    }
    proof {
        vstd::arithmetic::mul::lemma_mul_upper_bound(
            bet_amount as int,
            u64::MAX as int,
            losing_pool as int,
            u64::MAX as int,
        );
    }
    let share: u128 = (bet_amount as u128) * (losing_pool as u128) / (winning_pool as u128);
    let winnings: u128 = (bet_amount as u128) + share;
    if winnings > u64::MAX as u128 {
        return Err(SessionBettingError::MathOverflow);
    }
    Ok(winnings as u64)
}

/// When a bet is accepted into a round.
pub open spec fn session_place_bet_ok(
    g: GameState,
    r: BettingRound,
    pl: BettingPool,
    ub: UserBalance,
    session_token: Option<SessionToken>,
    signer: Principal,
    side: BetSide,
    amount: u64,
    now: i64,
) -> bool {
    &&& spec_verify_session(session_token, signer, ub.owner, now) is Ok
    &&& !g.is_paused
    &&& r.status is Open
    &&& now < r.lock_time
    &&& amount >= MIN_BET
    &&& amount <= MAX_BET
    &&& ub.balance >= amount
    &&& session_side_pool(pl, side) + amount <= u64::MAX
    &&& pl.total_pool + amount <= u64::MAX
}

/// Places a bet from the user's balance (wallet or session key). The
/// stake moves from the recorded balance into the round's pool in the
/// same transition.
pub fn place_bet(
    game: &GameState,
    round: &BettingRound,
    pool: &mut BettingPool,
    user_balance: &mut UserBalance,
    session_token: &Option<SessionToken>,
    signer: Principal,
    side: BetSide,
    amount: u64,
    now: i64,
) -> (r: Result<PlayerPosition, SessionBettingError>)
    requires
        old(pool).round_id == round.round_id,
    ensures
        r is Ok <==> session_place_bet_ok(
            *game,
            *round,
            *old(pool),
            *old(user_balance),
            *session_token,
            signer,
            side,
            amount,
            now,
        ),
        spec_verify_session(*session_token, signer, old(user_balance).owner, now) matches Err(e)
            ==> r == Err::<PlayerPosition, SessionBettingError>(e),
        spec_verify_session(*session_token, signer, old(user_balance).owner, now) is Ok ==> {
            &&& game.is_paused ==> r == Err::<PlayerPosition, SessionBettingError>(
                SessionBettingError::GamePaused,
            )
            &&& !game.is_paused && !(round.status is Open) ==> r == Err::<
                PlayerPosition,
                SessionBettingError,
            >(SessionBettingError::RoundNotOpen)
            &&& !game.is_paused && round.status is Open && now >= round.lock_time ==> r == Err::<
                PlayerPosition,
                SessionBettingError,
            >(SessionBettingError::RoundLocked)
            &&& !game.is_paused && round.status is Open && now < round.lock_time && amount
                < MIN_BET ==> r == Err::<PlayerPosition, SessionBettingError>(
                SessionBettingError::AmountTooSmall,
            )
            &&& !game.is_paused && round.status is Open && now < round.lock_time && amount
                >= MIN_BET && amount > MAX_BET ==> r == Err::<PlayerPosition, SessionBettingError>(
                SessionBettingError::AmountTooLarge,
            )
            &&& !game.is_paused && round.status is Open && now < round.lock_time && MIN_BET
                <= amount <= MAX_BET && old(user_balance).balance < amount ==> r == Err::<
                PlayerPosition,
                SessionBettingError,
            >(SessionBettingError::InsufficientBalance)
            &&& !game.is_paused && round.status is Open && now < round.lock_time && MIN_BET
                <= amount <= MAX_BET && old(user_balance).balance >= amount && (session_side_pool(
                *old(pool),
                side,
            ) + amount > u64::MAX || old(pool).total_pool + amount > u64::MAX) ==> r == Err::<
                PlayerPosition,
                SessionBettingError,
            >(SessionBettingError::MathOverflow)
        },
        r is Ok ==> *final(user_balance) == (UserBalance {
            balance: (old(user_balance).balance - amount) as u64,
            ..*old(user_balance)
        }),
        r is Ok ==> *final(pool) == (BettingPool {
            total_pool: (old(pool).total_pool + amount) as u64,
            ..session_with_side_pool(
                *old(pool),
                side,
                (session_side_pool(*old(pool), side) + amount) as u64,
            )
        }),
        r matches Ok(p) ==> p == (PlayerPosition {
            player: old(user_balance).owner,
            round_id: round.round_id,
            side,
            amount,
            claimed: false,
        }),
        r is Err ==> *final(pool) == *old(pool) && *final(user_balance) == *old(user_balance),
{
    match verify_session_or_authority(session_token, signer, user_balance.owner, now) {
        Ok(_) => (),
        Err(e) => {
            return Err(e);
        },
    }
    if game.is_paused {
        return Err(SessionBettingError::GamePaused);
    }
    if !(round.status == RoundStatus::Open) {
        return Err(SessionBettingError::RoundNotOpen);
    }
    if now >= round.lock_time {
        return Err(SessionBettingError::RoundLocked);
    }
    if amount < MIN_BET {
        return Err(SessionBettingError::AmountTooSmall);
    }
    if amount > MAX_BET {
        return Err(SessionBettingError::AmountTooLarge);
    }
    if user_balance.balance < amount {
        return Err(SessionBettingError::InsufficientBalance);
    }
    let side_pool = match side {
        BetSide::Up => pool.up_pool,
        BetSide::Down => pool.down_pool,
    };
    let new_side_pool = match side_pool.checked_add(amount) {
        Some(v) => v,
        None => {
            return Err(SessionBettingError::MathOverflow);
        },
    };
    let new_total_pool = match pool.total_pool.checked_add(amount) {
        Some(v) => v,
        None => {
            return Err(SessionBettingError::MathOverflow);
        },
    };
    user_balance.balance = user_balance.balance - amount;
    match side {
        BetSide::Up => {
            pool.up_pool = new_side_pool;
        },
        BetSide::Down => {
            pool.down_pool = new_side_pool;
        },
    }
    pool.total_pool = new_total_pool;
    Ok(
        PlayerPosition {
            player: user_balance.owner,
            round_id: round.round_id,
            side,
            amount,
            claimed: false,
        },
    )
}

/// The state change a claim applies to the global fee total and the
/// user's balance, stated as the full decision chain over the position's
/// gross winnings: a winner is credited the winnings less the platform
/// fee (computed through a widened intermediate, so always the exact
/// floored fee), which is accrued globally; a drawn round refunds the
/// stake; a loser is credited nothing. The balance and fee accumulators
/// must keep room.
pub open spec fn spec_claim_apply(
    g: GameState,
    ub: UserBalance,
    amount: u64,
    side: BetSide,
    winner: WinnerSide,
    up_pool: u64,
    down_pool: u64,
) -> Result<(GameState, UserBalance), SessionBettingError> {
    match spec_calculate_winnings(amount, side, winner, up_pool, down_pool) {
        Err(e) => Err(e),
        Ok(winnings) => {
            if winnings > 0 {
                let fee = fee_of(winnings as int, PLATFORM_FEE_BPS as int);
                let payout = winnings - fee;
                if ub.balance + payout > u64::MAX {
                    Err(SessionBettingError::MathOverflow)
                } else if ub.total_winnings + payout > u64::MAX {
                    Err(SessionBettingError::MathOverflow)
                } else if g.total_fees_collected + fee > u64::MAX {
                    Err(SessionBettingError::MathOverflow)
                } else {
                    Ok(
                        (
                            GameState {
                                total_fees_collected: (g.total_fees_collected + fee) as u64,
                                ..g
                            },
                            UserBalance {
                                balance: (ub.balance + payout) as u64,
                                total_winnings: (ub.total_winnings + payout) as u64,
                                ..ub
                            },
                        ),
                    )
                }
            } else if winner is Draw {
                if ub.balance + amount > u64::MAX {
                    Err(SessionBettingError::MathOverflow)
                } else {
                    Ok((g, UserBalance { balance: (ub.balance + amount) as u64, ..ub }))
                }
            } else {
                Ok((g, ub))
            }
        },
    }
}

/// When a claim against a settled round is accepted.
pub open spec fn session_claim_ok(
    g: GameState,
    r: BettingRound,
    pl: BettingPool,
    pos: PlayerPosition,
    ub: UserBalance,
    session_token: Option<SessionToken>,
    signer: Principal,
    now: i64,
) -> bool {
    &&& spec_verify_session(session_token, signer, ub.owner, now) is Ok
    &&& r.status is Settled
    &&& !pos.claimed
    &&& pos.player == ub.owner
    &&& spec_claim_apply(g, ub, pos.amount, pos.side, r.winner, pl.up_pool, pl.down_pool) is Ok
}

/// Claims a settled position into the user's balance (wallet or session
/// key, once). Winnings less the 5% fee are credited to the balance and
/// the fee accrued globally; a drawn round refunds the stake; a losing
/// position is consumed with no credit. The claimed flag is set in the
/// same transition.
pub fn claim_winnings(
    game: &mut GameState,
    round: &BettingRound,
    pool: &BettingPool,
    position: &mut PlayerPosition,
    user_balance: &mut UserBalance,
    session_token: &Option<SessionToken>,
    signer: Principal,
    now: i64,
) -> (r: Result<(), SessionBettingError>)
    requires
        old(position).round_id == round.round_id,
        pool.round_id == round.round_id,
    ensures
        r is Ok <==> session_claim_ok(
            *old(game),
            *round,
            *pool,
            *old(position),
            *old(user_balance),
            *session_token,
            signer,
            now,
        ),
        spec_verify_session(*session_token, signer, old(user_balance).owner, now) matches Err(e)
            ==> r == Err::<(), SessionBettingError>(e),
        spec_verify_session(*session_token, signer, old(user_balance).owner, now) is Ok ==> {
            &&& !(round.status is Settled) ==> r == Err::<(), SessionBettingError>(
                SessionBettingError::RoundNotSettled,
            )
            &&& round.status is Settled && old(position).claimed ==> r == Err::<
                (),
                SessionBettingError,
            >(SessionBettingError::AlreadyClaimed)
            &&& round.status is Settled && !old(position).claimed && old(position).player != old(
                user_balance,
            ).owner ==> r == Err::<(), SessionBettingError>(SessionBettingError::NotPositionOwner)
            &&& round.status is Settled && !old(position).claimed && old(position).player == old(
                user_balance,
            ).owner ==> (spec_claim_apply(
                *old(game),
                *old(user_balance),
                old(position).amount,
                old(position).side,
                round.winner,
                pool.up_pool,
                pool.down_pool,
            ) matches Err(e) ==> r == Err::<(), SessionBettingError>(e))
        },
        r is Ok ==> *final(position) == (PlayerPosition { claimed: true, ..*old(position) }),
        r is Ok ==> spec_claim_apply(
            *old(game),
            *old(user_balance),
            old(position).amount,
            old(position).side,
            round.winner,
            pool.up_pool,
            pool.down_pool,
        ) == Ok::<(GameState, UserBalance), SessionBettingError>(
            (*final(game), *final(user_balance)),
        ),
        r is Err ==> *final(game) == *old(game) && *final(position) == *old(position)
            && *final(user_balance) == *old(user_balance),
{
    match verify_session_or_authority(session_token, signer, user_balance.owner, now) {
        Ok(_) => (),
        Err(e) => {
            return Err(e);
        },
    }
    if !(round.status == RoundStatus::Settled) {
        return Err(SessionBettingError::RoundNotSettled);
    }
    if position.claimed {
        return Err(SessionBettingError::AlreadyClaimed);
    }
    if !(position.player == user_balance.owner) {
        return Err(SessionBettingError::NotPositionOwner);
    }
    let winnings = match calculate_winnings(
        position.amount,
        position.side,
        round.winner,
        pool.up_pool,
        pool.down_pool,
    ) {
        Ok(w) => w,
        Err(e) => {
            return Err(e);
        },
    };
    if winnings > 0 {
        proof {
            vstd::arithmetic::mul::lemma_mul_upper_bound(
                winnings as int,
                u64::MAX as int,
                PLATFORM_FEE_BPS as int,
                PLATFORM_FEE_BPS as int,
            );
            crate::math::lemma_fee_split(winnings as int, PLATFORM_FEE_BPS as int);
        }
        let fee_wide: u128 = (winnings as u128) * (PLATFORM_FEE_BPS as u128) / (
        BPS_DENOMINATOR as u128);
        let fee: u64 = fee_wide as u64;
        let payout = winnings - fee;
        let new_balance = match user_balance.balance.checked_add(payout) {
            Some(v) => v,
            None => {
                return Err(SessionBettingError::MathOverflow);
            },
        };
        let new_winnings_total = match user_balance.total_winnings.checked_add(payout) {
            Some(v) => v,
            None => {
                return Err(SessionBettingError::MathOverflow);
            },
        };
        let new_fees = match game.total_fees_collected.checked_add(fee) {
            Some(v) => v,
            None => {
                return Err(SessionBettingError::MathOverflow);
            },
        };
        position.claimed = true;
        user_balance.balance = new_balance;
        user_balance.total_winnings = new_winnings_total;
        game.total_fees_collected = new_fees;
    } else if round.winner == WinnerSide::Draw {
        let new_balance = match user_balance.balance.checked_add(position.amount) {
            Some(v) => v,
            None => {
                return Err(SessionBettingError::MathOverflow);
            },
        };
        position.claimed = true;
        user_balance.balance = new_balance;
    } else {
        position.claimed = true;
    }
    Ok(())
}

// ----------------------------------------------------------------------
// Protocol laws
// ----------------------------------------------------------------------

/// Idempotent claims: a claimed position is rejected by any later claim,
/// whatever round, pool, balance or session state it is held against.
pub proof fn lemma_session_claim_once(
    g: GameState,
    r: BettingRound,
    pl: BettingPool,
    pos: PlayerPosition,
    ub: UserBalance,
    session_token: Option<SessionToken>,
    signer: Principal,
    now: i64,
)
    ensures
        !session_claim_ok(
            g,
            r,
            pl,
            (PlayerPosition { claimed: true, ..pos }),
            ub,
            session_token,
            signer,
            now,
        ),
{
}

/// Race safety of locking: a locked round rejects both the authority
/// lock and the permissionless fallback, at any later time and price.
pub proof fn lemma_lock_once(
    g: GameState,
    r: BettingRound,
    caller: Principal,
    price1: int,
    now2: i64,
    feed_id: Seq<u8>,
    price2: int,
    publish_time: int,
)
    ensures
        !lock_round_ok(g, lock_round_post(r, price1), caller, now2, feed_id, price2, publish_time),
        !lock_round_fallback_ok(g, lock_round_post(r, price1), now2, feed_id, price2, publish_time),
{
}

/// Race safety of settlement: of two settles serialized against the same
/// locked round, the second observes `Settled` and is rejected.
pub proof fn lemma_settle_once(r: BettingRound, now1: i64, now2: i64, volume: int, pool: int)
    requires
        settle_round_ok(r, now1, volume, pool),
    ensures
        !settle_round_ok(
            (BettingRound {
                winner: settle_round_winner(r),
                status: RoundStatus::Settled,
                ..r
            }),
            now2,
            volume,
            pool,
        ),
{
}

/// The two-step transfer hands authority over exactly once: after an
/// accept the pending slot is empty, so a second accept by anyone is
/// rejected until a new proposal is made.
pub proof fn lemma_accept_authority_once(g: GameState, caller1: Principal, caller2: Principal)
    requires
        g.pending_authority == Some(caller1),
    ensures
        (GameState { authority: caller1, pending_authority: None, ..g }).pending_authority
            != Some(caller2),
{
}

} // verus!
