//! Continuous price-prediction rounds settled by an oracle crank.
//!
//! Rounds run back to back: each crank settles the round that just ended
//! against the oracle price parsed from the raw feed bytes, and opens the
//! next round at that price. Bettors back UP or DOWN; a round whose price
//! moved less than the draw threshold, or that only one side bet on,
//! refunds everyone. Early bets earn a bonus multiplier on their payout.

use crate::feed::{le32, le64_signed, parse_price_account, PYTH_MAGIC, PYTH_PRICE_ACCOUNT_SIZE};
use crate::math::{after_fee_of, calculate_amount_after_fee, fee_of, lemma_fee_split, share_of, BPS_DENOMINATOR};
use crate::principal::Principal;
use vstd::prelude::*;

verus! {

/// Platform fee in basis points (5%).
pub const PLATFORM_FEE_BPS: u64 = 500;

/// Minimum bet size.
pub const MIN_BET_LAMPORTS: u64 = 10_000_000;

/// Price movement below this many basis points is a draw (0.1%).
pub const DRAW_THRESHOLD_BPS: u64 = 10;

/// Total round duration in seconds.
pub const ROUND_DURATION_SECS: i64 = 30;

/// Betting closes this many seconds before a round ends.
pub const BETTING_LOCK_BEFORE_END: i64 = 5;

/// Maximum age of oracle price data in seconds.
pub const MAX_PRICE_AGE_SECS: u64 = 60;

/// Maximum early-bird bonus in basis points (20%).
pub const EARLY_BIRD_MAX_BPS: u64 = 2000;

/// Length of the betting window in seconds.
pub const BETTING_DURATION_SECS: i64 = ROUND_DURATION_SECS - BETTING_LOCK_BEFORE_END;

/// Round lifecycle states.
#[derive(Clone, Copy, PartialEq, Eq, Structural, Debug)]
pub enum RoundStatus {
    /// Accepting bets until the lock time.
    Betting,
    /// Betting closed, waiting for the round to end.
    Locked,
    /// Settled; the winner is final.
    Settled,
}

/// The settled outcome of a round.
#[derive(Clone, Copy, PartialEq, Eq, Structural, Debug)]
pub enum WinnerSide {
    /// Not yet settled.
    Unset,
    /// Price went up: UP bettors win.
    Up,
    /// Price went down: DOWN bettors win.
    Down,
    /// No winner; everyone is refunded.
    Draw,
}

/// The side a bet backs.
#[derive(Clone, Copy, PartialEq, Eq, Structural, Debug)]
pub enum BetSide {
    Up,
    Down,
}

/// Global game state, one per deployment.
#[derive(Clone, Copy, PartialEq, Eq, Structural, Debug)]
pub struct GameState {
    /// May pause the game and withdraw fees.
    pub authority: Principal,
    /// Address fees are collected to.
    pub treasury: Principal,
    /// The expected price feed account, checked on every oracle read.
    pub price_feed: Principal,
    /// Identifier of the next round to be created.
    pub current_round: u64,
    pub total_volume: u64,
    pub total_fees_collected: u64,
    /// Emergency pause flag.
    pub paused: bool,
}

/// One prediction round.
#[derive(Clone, Copy, PartialEq, Eq, Structural, Debug)]
pub struct PredictionRound {
    pub round_id: u64,
    pub start_time: i64,
    /// When betting closes.
    pub lock_time: i64,
    /// When the round ends and can be settled.
    pub end_time: i64,
    pub start_price: u64,
    pub end_price: u64,
    pub up_pool: u64,
    pub down_pool: u64,
    pub total_pool: u64,
    pub status: RoundStatus,
    pub winner: WinnerSide,
    pub fees_withdrawn: bool,
}

/// A player's position in one round. The record store keys one record per
/// (round, player) pair.
#[derive(Clone, Copy, PartialEq, Eq, Structural, Debug)]
pub struct PlayerPosition {
    pub player: Principal,
    pub round_id: u64,
    pub side: BetSide,
    pub amount: u64,
    /// When the bet was placed, for the early-bird bonus.
    pub bet_timestamp: i64,
    pub claimed: bool,
}

/// Typed rejection reasons.
#[derive(Clone, Copy, PartialEq, Eq, Structural, Debug)]
pub enum ErrorCode {
    RoundNotBetting,
    BettingClosed,
    BetTooSmall,
    RoundNotEnded,
    RoundNotSettled,
    AlreadyClaimed,
    NotPositionOwner,
    NotAWinner,
    InvalidWinner,
    InsufficientFees,
    InvalidPrice,
    InvalidPriceFeed,
    StalePriceFeed,
    GamePaused,
    PoolOverflow,
    FeesAlreadyWithdrawn,
    InvalidZeroAddress,
    Unauthorized,
}

/// `a - b` on the mathematical integers, clamped to the `i64` range.
pub open spec fn spec_saturating_sub_i64(a: int, b: int) -> int {
    if a - b < i64::MIN {
        i64::MIN as int
    } else if a - b > i64::MAX {
        i64::MAX as int
    } else {
        a - b
    }
}

/// `i64` subtraction that clamps at the type bounds instead of wrapping.
pub fn saturating_sub_i64(a: i64, b: i64) -> (r: i64)
    ensures
        r == spec_saturating_sub_i64(a as int, b as int),
{
    match a.checked_sub(b) {
        Some(v) => v,
        None => if b < 0 {
            i64::MAX
        } else {
            i64::MIN
        },
    }
}

/// The oracle read, stated over the raw feed bytes: what
/// [`get_pyth_price`] returns for a buffer and a clock reading. The feed
/// must be at least one account long and carry the magic number; its
/// aggregate must be in trading status (code 1), at most
/// [`MAX_PRICE_AGE_SECS`] old and not from the future; and the price must
/// be positive.
pub open spec fn spec_get_pyth_price(s: Seq<u8>, now: int) -> Result<u64, ErrorCode> {
    if s.len() < PYTH_PRICE_ACCOUNT_SIZE || le32(s, 0) != PYTH_MAGIC {
        Err(ErrorCode::InvalidPriceFeed)
    } else if le32(s, 192) != 1 || !(0 <= spec_saturating_sub_i64(now, le64_signed(s, 64))
        <= MAX_PRICE_AGE_SECS) {
        Err(ErrorCode::StalePriceFeed)
    } else if le64_signed(s, 176) <= 0 {
        Err(ErrorCode::InvalidPrice)
    } else {
        Ok(le64_signed(s, 176) as u64)
    }
}

/// Reads a validated price from a raw price-feed account: parses the
/// fixed layout, then checks magic, trading status, staleness against
/// `current_timestamp` and positivity. The returned price is exactly the
/// aggregate price field of the bytes.
pub fn get_pyth_price(price_feed_data: &Vec<u8>, current_timestamp: i64) -> (r: Result<
    u64,
    ErrorCode,
>)
    ensures
        r == spec_get_pyth_price(price_feed_data@, current_timestamp as int),
{
    let account = match parse_price_account(price_feed_data) {
        Some(a) => a,
        None => {
            return Err(ErrorCode::InvalidPriceFeed);
        },
    };
    if account.magic != PYTH_MAGIC {
        return Err(ErrorCode::InvalidPriceFeed);
    }
    if account.agg.status != 1 {
        return Err(ErrorCode::StalePriceFeed);
    }
    let price_age = saturating_sub_i64(current_timestamp, account.timestamp);
    if !(0 <= price_age && price_age <= MAX_PRICE_AGE_SECS as i64) {
        return Err(ErrorCode::StalePriceFeed);
    }
    if account.agg.price <= 0 {
        return Err(ErrorCode::InvalidPrice);
    }
    Ok(account.agg.price as u64)
}

/// The price movement between two prices in basis points of the start
/// price, floored; zero when the widened multiply would not fit in a
/// `u64`, which forces the draw path.
pub open spec fn spec_diff_bps(start_price: int, end_price: int) -> int {
    let diff = if end_price >= start_price {
        end_price - start_price
    } else {
        start_price - end_price
    };
    if diff * 10000 <= u64::MAX {
        diff * 10000 / start_price
    } else {
        0
    }
}

/// The outcome of a round: a draw when either side is empty, when the
/// start price is zero, or when the price moved by at most
/// [`DRAW_THRESHOLD_BPS`]; otherwise the direction the price moved.
pub open spec fn spec_determine_winner(
    start_price: int,
    end_price: int,
    up_pool: int,
    down_pool: int,
) -> WinnerSide {
    if up_pool == 0 || down_pool == 0 {
        WinnerSide::Draw
    } else if start_price == 0 {
        WinnerSide::Draw
    } else if spec_diff_bps(start_price, end_price) <= DRAW_THRESHOLD_BPS {
        WinnerSide::Draw
    } else if end_price > start_price {
        WinnerSide::Up
    } else {
        WinnerSide::Down
    }
}

/// Determines a round's winner from its price movement and pool state.
pub fn determine_winner(start_price: u64, end_price: u64, up_pool: u64, down_pool: u64) -> (r:
    WinnerSide)
    ensures
        r == spec_determine_winner(
            start_price as int,
            end_price as int,
            up_pool as int,
            down_pool as int,
        ),
{
    if up_pool == 0 || down_pool == 0 {
        return WinnerSide::Draw;
    }
    if start_price == 0 {
        return WinnerSide::Draw;
    }
    let diff: u64 = if end_price >= start_price {
        end_price - start_price
    } else {
        start_price - end_price
    };
    let diff_bps: u64 = match diff.checked_mul(10000) {
        Some(scaled) => scaled / start_price,
        None => 0,
    };
    if diff_bps <= DRAW_THRESHOLD_BPS {
        return WinnerSide::Draw;
    }
    if end_price > start_price {
        WinnerSide::Up
    } else {
        WinnerSide::Down
    }
}

/// The early-bird multiplier in basis points: 1x for a bet at or after
/// the lock, or with no recorded time; otherwise 1x plus up to
/// [`EARLY_BIRD_MAX_BPS`], linearly larger the earlier the bet.
pub open spec fn spec_early_bird_multiplier(start_time: int, bet_timestamp: int) -> int {
    let time_into_round = spec_saturating_sub_i64(bet_timestamp, start_time);
    if time_into_round >= BETTING_DURATION_SECS {
        10000
    } else if bet_timestamp == 0 {
        10000
    } else {
        10000 + EARLY_BIRD_MAX_BPS * (BETTING_DURATION_SECS - time_into_round)
            / (BETTING_DURATION_SECS as int)
    }
}

/// Computes a position's early-bird multiplier from when the bet was
/// placed within the betting window.
///
/// The clock is monotonic, so a position's bet time is never before its
/// round's start (legacy positions carry time zero instead).
pub fn calculate_early_bird_multiplier(round: &PredictionRound, position: &PlayerPosition) -> (r:
    u64)
    requires
        position.bet_timestamp == 0 || round.start_time <= position.bet_timestamp,
    ensures
        r == spec_early_bird_multiplier(round.start_time as int, position.bet_timestamp as int),
        10000 <= r <= 10000 + EARLY_BIRD_MAX_BPS,
{
    let time_into_round = saturating_sub_i64(position.bet_timestamp, round.start_time);
    if time_into_round >= BETTING_DURATION_SECS {
        return 10000;
    }
    if position.bet_timestamp == 0 {
        return 10000;
    }
    let time_remaining = (BETTING_DURATION_SECS - time_into_round) as u64;
    let betting_duration = BETTING_DURATION_SECS as u64;
    proof {
        vstd::arithmetic::mul::lemma_mul_upper_bound(
            EARLY_BIRD_MAX_BPS as int,
            EARLY_BIRD_MAX_BPS as int,
            time_remaining as int,
            BETTING_DURATION_SECS as int,
        );
    }
    let product_wide: u128 = (EARLY_BIRD_MAX_BPS as u128) * (time_remaining as u128);
    let bonus_wide: u128 = product_wide / (betting_duration as u128);
    proof {
        let p = product_wide as int;
        let d = betting_duration as int;
        vstd::arithmetic::div_mod::lemma_div_is_ordered(p, 50000int, d);
        assert(50000int / d == 2000) by {
            vstd::arithmetic::div_mod::lemma_div_multiples_vanish(2000, d);
        }
        vstd::arithmetic::div_mod::lemma_div_pos_is_pos(p, d);
    }
    let bonus_bps: u64 = bonus_wide as u64;
    10000u64 + bonus_bps
}

/// Whether a bet on `side` won a round settled as `winner`.
pub open spec fn spec_player_won(winner: WinnerSide, side: BetSide) -> bool {
    (winner is Up && side is Up) || (winner is Down && side is Down)
}

/// What a claim pays for a position, stated as the full decision chain:
/// a draw refunds the stake; a losing position is rejected; a winning
/// position receives its proportional share of the after-fee pool, scaled
/// by the early-bird multiplier, provided each widened step fits.
pub open spec fn spec_calculate_payout(r: PredictionRound, p: PlayerPosition) -> Result<
    u64,
    ErrorCode,
> {
    if r.winner is Draw {
        Ok(p.amount)
    } else if !spec_player_won(r.winner, p.side) {
        Err(ErrorCode::NotAWinner)
    } else {
        let winning_pool: int = if r.winner is Up {
            r.up_pool as int
        } else {
            r.down_pool as int
        };
        if winning_pool == 0 {
            Err(ErrorCode::InvalidWinner)
        } else {
            let base = share_of(
                p.amount as int,
                after_fee_of(r.total_pool as int, PLATFORM_FEE_BPS as int),
                winning_pool,
            );
            let mult = spec_early_bird_multiplier(r.start_time as int, p.bet_timestamp as int);
            if base * mult > u128::MAX {
                Err(ErrorCode::InvalidWinner)
            } else if base * mult / 10000 > u64::MAX {
                Err(ErrorCode::InvalidWinner)
            } else {
                Ok((base * mult / 10000) as u64)
            }
        }
    }
}

/// Computes the payout for a position in a settled round: a full refund
/// on a draw, a proportional after-fee share times the early-bird
/// multiplier for a winner, a typed rejection for a loser.
pub fn calculate_payout(round: &PredictionRound, position: &PlayerPosition) -> (r: Result<
    u64,
    ErrorCode,
>)
    requires
        position.bet_timestamp == 0 || round.start_time <= position.bet_timestamp,
    ensures
        r == spec_calculate_payout(*round, *position),
{
    if round.winner == WinnerSide::Draw {
        return Ok(position.amount);
    }
    let player_won = match (round.winner, position.side) {
        (WinnerSide::Up, BetSide::Up) => true,
        (WinnerSide::Down, BetSide::Down) => true,
        _ => false,
    };
    if !player_won {
        return Err(ErrorCode::NotAWinner);
    }
    let winning_pool: u64 = match round.winner {
        WinnerSide::Up => round.up_pool,
        WinnerSide::Down => round.down_pool,
        _ => {
            return Err(ErrorCode::InvalidWinner);
        },
    };
    if winning_pool == 0 {
        return Err(ErrorCode::InvalidWinner);
    }
    let pool_after_fee: u64 = match calculate_amount_after_fee(round.total_pool, PLATFORM_FEE_BPS) {
        Some(v) => v,
        None => {
            // Unreachable: the platform rake is far below 100%.
            return Err(ErrorCode::InvalidWinner);
        },
    };
    proof {
        vstd::arithmetic::mul::lemma_mul_upper_bound(
            position.amount as int,
            u64::MAX as int,
            pool_after_fee as int,
            u64::MAX as int,
        );
    }
    let base_payout: u128 = (position.amount as u128) * (pool_after_fee as u128) / (
    winning_pool as u128);
    let early_bird_multiplier = calculate_early_bird_multiplier(round, position);
    let payout_with_bonus: u128 = match base_payout.checked_mul(early_bird_multiplier as u128) {
        Some(v) => v / 10000,
        None => {
            return Err(ErrorCode::InvalidWinner);
        },
    };
    if payout_with_bonus > u64::MAX as u128 {
        return Err(ErrorCode::InvalidWinner);
    }
    Ok(payout_with_bonus as u64)
}

/// The spectator pool backing a bet side.
pub open spec fn spec_pool_of_side(r: PredictionRound, side: BetSide) -> int {
    match side {
        BetSide::Up => r.up_pool as int,
        BetSide::Down => r.down_pool as int,
    }
}

/// The round with one side's pool replaced.
pub open spec fn spec_with_pool_of_side(r: PredictionRound, side: BetSide, v: u64) -> PredictionRound {
    match side {
        BetSide::Up => PredictionRound { up_pool: v, ..r },
        BetSide::Down => PredictionRound { down_pool: v, ..r },
    }
}

// ----------------------------------------------------------------------
// Operations
// ----------------------------------------------------------------------

/// Creates the game and opens round zero at the oracle price read from
/// `price_feed_data`. One-time setup; afterwards the game runs forever
/// through the crank.
pub fn initialize_game(
    authority: Principal,
    treasury: Principal,
    price_feed: Principal,
    price_feed_data: &Vec<u8>,
    now: i64,
) -> (r: Result<(GameState, PredictionRound), ErrorCode>)
    requires
        !treasury.is_unset() && spec_get_pyth_price(price_feed_data@, now as int) is Ok ==> now
            + ROUND_DURATION_SECS <= i64::MAX,
    ensures
        r is Ok <==> !treasury.is_unset() && spec_get_pyth_price(price_feed_data@, now as int)
            is Ok,
        treasury.is_unset() ==> r == Err::<(GameState, PredictionRound), ErrorCode>(
            ErrorCode::InvalidZeroAddress,
        ),
        !treasury.is_unset() ==> (spec_get_pyth_price(price_feed_data@, now as int) matches Err(e)
            ==> r == Err::<(GameState, PredictionRound), ErrorCode>(e)),
        r matches Ok(gr) ==> gr.0 == (GameState {
            authority,
            treasury,
            price_feed,
            current_round: 1,
            total_volume: 0,
            total_fees_collected: 0,
            paused: false,
        }),
        r matches Ok(gr) ==> gr.1 == (PredictionRound {
            round_id: 0,
            start_time: now,
            lock_time: (now + ROUND_DURATION_SECS - BETTING_LOCK_BEFORE_END) as i64,
            end_time: (now + ROUND_DURATION_SECS) as i64,
            start_price: spec_get_pyth_price(price_feed_data@, now as int)->Ok_0,
            end_price: 0,
            up_pool: 0,
            down_pool: 0,
            total_pool: 0,
            status: RoundStatus::Betting,
            winner: WinnerSide::Unset,
            fees_withdrawn: false,
        }),
{
    if treasury.is_none_key() {
        return Err(ErrorCode::InvalidZeroAddress);
    }
    let start_price = match get_pyth_price(price_feed_data, now) {
        Ok(p) => p,
        Err(e) => {
            return Err(e);
        },
    };
    let game = GameState {
        authority,
        treasury,
        price_feed,
        current_round: 1,
        total_volume: 0,
        total_fees_collected: 0,
        paused: false,
    };
    let round = PredictionRound {
        round_id: 0,
        start_time: now,
        lock_time: now + ROUND_DURATION_SECS - BETTING_LOCK_BEFORE_END,
        end_time: now + ROUND_DURATION_SECS,
        start_price,
        end_price: 0,
        up_pool: 0,
        down_pool: 0,
        total_pool: 0,
        status: RoundStatus::Betting,
        winner: WinnerSide::Unset,
        fees_withdrawn: false,
    };
    Ok((game, round))
}

/// When a bet is accepted into a round.
pub open spec fn place_bet_ok(
    g: GameState,
    r: PredictionRound,
    side: BetSide,
    amount: u64,
    now: i64,
) -> bool {
    &&& !g.paused
    &&& r.status is Betting
    &&& now < r.lock_time
    &&& amount >= MIN_BET_LAMPORTS
    &&& spec_pool_of_side(r, side) + amount <= u64::MAX
    &&& r.total_pool + amount <= u64::MAX
}

/// Places a bet on UP or DOWN in the open round. The player must have
/// escrowed `amount` before this transition is applied.
pub fn place_bet(
    game: &GameState,
    round: &mut PredictionRound,
    player: Principal,
    side: BetSide,
    amount: u64,
    now: i64,
) -> (r: Result<PlayerPosition, ErrorCode>)
    ensures
        r is Ok <==> place_bet_ok(*game, *old(round), side, amount, now),
        game.paused ==> r == Err::<PlayerPosition, ErrorCode>(ErrorCode::GamePaused),
        !game.paused && !(old(round).status is Betting) ==> r == Err::<PlayerPosition, ErrorCode>(
            ErrorCode::RoundNotBetting,
        ),
        !game.paused && old(round).status is Betting && now >= old(round).lock_time ==> r == Err::<
            PlayerPosition,
            ErrorCode,
        >(ErrorCode::BettingClosed),
        !game.paused && old(round).status is Betting && now < old(round).lock_time && amount
            < MIN_BET_LAMPORTS ==> r == Err::<PlayerPosition, ErrorCode>(ErrorCode::BetTooSmall),
        !game.paused && old(round).status is Betting && now < old(round).lock_time && amount
            >= MIN_BET_LAMPORTS && (spec_pool_of_side(*old(round), side) + amount > u64::MAX || old(
            round,
        ).total_pool + amount > u64::MAX) ==> r == Err::<PlayerPosition, ErrorCode>(
            ErrorCode::PoolOverflow,
        ),
        r is Ok ==> *final(round) == (PredictionRound {
            total_pool: (old(round).total_pool + amount) as u64,
            ..spec_with_pool_of_side(
                *old(round),
                side,
                (spec_pool_of_side(*old(round), side) + amount) as u64,
            )
        }),
        r matches Ok(p) ==> p == (PlayerPosition {
            player,
            round_id: old(round).round_id,
            side,
            amount,
            bet_timestamp: now,
            claimed: false,
        }),
        r is Err ==> *final(round) == *old(round),
{
    if game.paused {
        return Err(ErrorCode::GamePaused);
    }
    if !(round.status == RoundStatus::Betting) {
        return Err(ErrorCode::RoundNotBetting);
    }
    if now >= round.lock_time {
        return Err(ErrorCode::BettingClosed);
    }
    if amount < MIN_BET_LAMPORTS {
        return Err(ErrorCode::BetTooSmall);
    }
    let side_pool = match side {
        BetSide::Up => round.up_pool,
        BetSide::Down => round.down_pool,
    };
    let new_side_pool = match side_pool.checked_add(amount) {
        Some(v) => v,
        None => {
            return Err(ErrorCode::PoolOverflow);
        },
    };
    let new_total_pool = match round.total_pool.checked_add(amount) {
        Some(v) => v,
        None => {
            return Err(ErrorCode::PoolOverflow);
        },
    };
    match side {
        BetSide::Up => {
            round.up_pool = new_side_pool;
        },
        BetSide::Down => {
            round.down_pool = new_side_pool;
        },
    }
    round.total_pool = new_total_pool;
    Ok(PlayerPosition { player, round_id: round.round_id, side, amount, bet_timestamp: now, claimed: false })
}

/// When the crank can settle the current round: game live, round open and
/// past its end, and a valid fresh oracle price available.
pub open spec fn crank_ok(g: GameState, r: PredictionRound, s: Seq<u8>, now: i64) -> bool {
    &&& !g.paused
    &&& r.status is Betting
    &&& now >= r.end_time
    &&& spec_get_pyth_price(s, now as int) is Ok
}

/// The price the crank settles and reopens at.
pub open spec fn crank_end_price(s: Seq<u8>, now: i64) -> u64 {
    spec_get_pyth_price(s, now as int)->Ok_0
}

/// The winner the crank records for the round being settled.
pub open spec fn crank_winner(r: PredictionRound, s: Seq<u8>, now: i64) -> WinnerSide {
    spec_determine_winner(
        r.start_price as int,
        crank_end_price(s, now) as int,
        r.up_pool as int,
        r.down_pool as int,
    )
}

/// The platform fee the crank accrues for the round being settled: 5% of
/// the pool when there is a real winner, nothing on a draw.
pub open spec fn crank_fee(r: PredictionRound, s: Seq<u8>, now: i64) -> int {
    if !(crank_winner(r, s, now) is Draw) && r.total_pool > 0 {
        fee_of(r.total_pool as int, PLATFORM_FEE_BPS as int)
    } else {
        0
    }
}

/// Settles the ended round against the oracle price and opens the next
/// round at that price. Permissionless: anyone may crank once the round's
/// end time has passed.
pub fn crank(
    game: &mut GameState,
    current_round: &mut PredictionRound,
    price_feed_data: &Vec<u8>,
    now: i64,
) -> (r: Result<PredictionRound, ErrorCode>)
    requires
        crank_ok(*old(game), *old(current_round), price_feed_data@, now) ==> now
            + ROUND_DURATION_SECS <= i64::MAX,
        crank_ok(*old(game), *old(current_round), price_feed_data@, now) ==> old(
            game,
        ).total_volume + old(current_round).total_pool <= u64::MAX && old(game).current_round
            < u64::MAX,
        crank_ok(*old(game), *old(current_round), price_feed_data@, now) && !(crank_winner(
            *old(current_round),
            price_feed_data@,
            now,
        ) is Draw) && old(current_round).total_pool > 0 ==> old(game).total_fees_collected
            + fee_of(old(current_round).total_pool as int, PLATFORM_FEE_BPS as int) <= u64::MAX,
    ensures
        r is Ok <==> crank_ok(*old(game), *old(current_round), price_feed_data@, now),
        old(game).paused ==> r == Err::<PredictionRound, ErrorCode>(ErrorCode::GamePaused),
        !old(game).paused && !(old(current_round).status is Betting) ==> r == Err::<
            PredictionRound,
            ErrorCode,
        >(ErrorCode::RoundNotBetting),
        !old(game).paused && old(current_round).status is Betting && now < old(
            current_round,
        ).end_time ==> r == Err::<PredictionRound, ErrorCode>(ErrorCode::RoundNotEnded),
        !old(game).paused && old(current_round).status is Betting && now >= old(
            current_round,
        ).end_time ==> (spec_get_pyth_price(price_feed_data@, now as int) matches Err(e) ==> r
            == Err::<PredictionRound, ErrorCode>(e)),
        r is Ok ==> *final(current_round) == (PredictionRound {
            end_price: crank_end_price(price_feed_data@, now),
            winner: crank_winner(*old(current_round), price_feed_data@, now),
            status: RoundStatus::Settled,
            ..*old(current_round)
        }),
        r is Ok ==> *final(game) == (GameState {
            current_round: (old(game).current_round + 1) as u64,
            total_volume: (old(game).total_volume + old(current_round).total_pool) as u64,
            total_fees_collected: (old(game).total_fees_collected + crank_fee(
                *old(current_round),
                price_feed_data@,
                now,
            )) as u64,
            ..*old(game)
        }),
        r matches Ok(next) ==> next == (PredictionRound {
            round_id: old(game).current_round,
            start_time: now,
            lock_time: (now + ROUND_DURATION_SECS - BETTING_LOCK_BEFORE_END) as i64,
            end_time: (now + ROUND_DURATION_SECS) as i64,
            start_price: crank_end_price(price_feed_data@, now),
            end_price: 0,
            up_pool: 0,
            down_pool: 0,
            total_pool: 0,
            status: RoundStatus::Betting,
            winner: WinnerSide::Unset,
            fees_withdrawn: false,
        }),
        r is Err ==> *final(game) == *old(game) && *final(current_round) == *old(current_round),
{
    if game.paused {
        return Err(ErrorCode::GamePaused);
    }
    if !(current_round.status == RoundStatus::Betting) {
        return Err(ErrorCode::RoundNotBetting);
    }
    if now < current_round.end_time {
        return Err(ErrorCode::RoundNotEnded);
    }
    let end_price = match get_pyth_price(price_feed_data, now) {
        Ok(p) => p,
        Err(e) => {
            return Err(e);
        },
    };
    current_round.end_price = end_price;
    current_round.winner = determine_winner(
        current_round.start_price,
        current_round.end_price,
        current_round.up_pool,
        current_round.down_pool,
    );
    if !(current_round.winner == WinnerSide::Draw) && current_round.total_pool > 0 {
        proof {
            vstd::arithmetic::mul::lemma_mul_upper_bound(
                current_round.total_pool as int,
                u64::MAX as int,
                PLATFORM_FEE_BPS as int,
                PLATFORM_FEE_BPS as int,
            );
            lemma_fee_split(current_round.total_pool as int, PLATFORM_FEE_BPS as int);
        }
        let fee_wide: u128 = (current_round.total_pool as u128) * (PLATFORM_FEE_BPS as u128) / (
        BPS_DENOMINATOR as u128);
        let fee: u64 = fee_wide as u64;
        game.total_fees_collected = game.total_fees_collected + fee;
    }
    game.total_volume = game.total_volume + current_round.total_pool;
    current_round.status = RoundStatus::Settled;
    let next_round = PredictionRound {
        round_id: game.current_round,
        start_time: now,
        lock_time: now + ROUND_DURATION_SECS - BETTING_LOCK_BEFORE_END,
        end_time: now + ROUND_DURATION_SECS,
        start_price: end_price,
        end_price: 0,
        up_pool: 0,
        down_pool: 0,
        total_pool: 0,
        status: RoundStatus::Betting,
        winner: WinnerSide::Unset,
        fees_withdrawn: false,
    };
    game.current_round = game.current_round + 1;
    Ok(next_round)
}

/// When a claim against a settled round is accepted.
pub open spec fn claim_winnings_ok(r: PredictionRound, p: PlayerPosition, caller: Principal) -> bool {
    &&& r.status is Settled
    &&& !p.claimed
    &&& p.player == caller
    &&& spec_calculate_payout(r, p) is Ok
}

/// Claims winnings or the draw refund from a settled round (position
/// owner only, once). Returns the amount to transfer and marks the
/// position claimed in the same transition.
pub fn claim_winnings(round: &PredictionRound, position: &mut PlayerPosition, caller: Principal) -> (r:
    Result<u64, ErrorCode>)
    requires
        old(position).round_id == round.round_id,
        old(position).bet_timestamp == 0 || round.start_time <= old(position).bet_timestamp,
    ensures
        r is Ok <==> claim_winnings_ok(*round, *old(position), caller),
        !(round.status is Settled) ==> r == Err::<u64, ErrorCode>(ErrorCode::RoundNotSettled),
        round.status is Settled && old(position).claimed ==> r == Err::<u64, ErrorCode>(
            ErrorCode::AlreadyClaimed,
        ),
        round.status is Settled && !old(position).claimed && old(position).player != caller ==> r
            == Err::<u64, ErrorCode>(ErrorCode::NotPositionOwner),
        round.status is Settled && !old(position).claimed && old(position).player == caller ==> r
            == spec_calculate_payout(*round, *old(position)),
        r is Ok ==> *final(position) == (PlayerPosition { claimed: true, ..*old(position) }),
        r is Err ==> *final(position) == *old(position),
{
    if !(round.status == RoundStatus::Settled) {
        return Err(ErrorCode::RoundNotSettled);
    }
    if position.claimed {
        return Err(ErrorCode::AlreadyClaimed);
    }
    if !(position.player == caller) {
        return Err(ErrorCode::NotPositionOwner);
    }
    let payout = match calculate_payout(round, position) {
        Ok(p) => p,
        Err(e) => {
            return Err(e);
        },
    };
    position.claimed = true;
    Ok(payout)
}

/// Pauses or unpauses the game (authority only). Claims keep working
/// while paused; betting and the crank do not.
pub fn set_paused(game: &mut GameState, caller: Principal, paused: bool) -> (r: Result<
    (),
    ErrorCode,
>)
    ensures
        r is Ok <==> caller == old(game).authority,
        caller != old(game).authority ==> r == Err::<(), ErrorCode>(ErrorCode::Unauthorized),
        r is Ok ==> *final(game) == (GameState { paused, ..*old(game) }),
        r is Err ==> *final(game) == *old(game),
{
    if !(caller == game.authority) {
        return Err(ErrorCode::Unauthorized);
    }
    game.paused = paused;
    Ok(())
}

/// When a fee withdrawal from a settled round is accepted.
pub open spec fn round_withdraw_fees_ok(
    g: GameState,
    r: PredictionRound,
    caller: Principal,
) -> bool {
    caller == g.authority && r.status is Settled && !r.fees_withdrawn
}

/// Withdraws the platform fee left in a settled round's escrow to the
/// treasury (authority only, once). Returns the whole remaining escrow
/// balance, which after claims is the fee.
pub fn withdraw_fees(
    game: &GameState,
    round: &mut PredictionRound,
    caller: Principal,
    escrow_balance: u64,
) -> (r: Result<u64, ErrorCode>)
    ensures
        r is Ok <==> round_withdraw_fees_ok(*game, *old(round), caller),
        caller != game.authority ==> r == Err::<u64, ErrorCode>(ErrorCode::Unauthorized),
        caller == game.authority && !(old(round).status is Settled) ==> r == Err::<u64, ErrorCode>(
            ErrorCode::RoundNotSettled,
        ),
        caller == game.authority && old(round).status is Settled && old(round).fees_withdrawn ==> r
            == Err::<u64, ErrorCode>(ErrorCode::FeesAlreadyWithdrawn),
        r matches Ok(w) ==> w == escrow_balance,
        r is Ok ==> *final(round) == (PredictionRound { fees_withdrawn: true, ..*old(round) }),
        r is Err ==> *final(round) == *old(round),
{
    if !(caller == game.authority) {
        return Err(ErrorCode::Unauthorized);
    }
    if !(round.status == RoundStatus::Settled) {
        return Err(ErrorCode::RoundNotSettled);
    }
    if round.fees_withdrawn {
        return Err(ErrorCode::FeesAlreadyWithdrawn);
    }
    round.fees_withdrawn = true;
    Ok(escrow_balance)
}

// ----------------------------------------------------------------------
// Protocol laws
// ----------------------------------------------------------------------

/// Idempotent claims: a claimed position is rejected by any later claim,
/// against any round state.
pub proof fn lemma_position_claim_once(r: PredictionRound, p: PlayerPosition, caller: Principal)
    ensures
        !claim_winnings_ok(r, (PlayerPosition { claimed: true, ..p }), caller),
{
}

/// Idempotent fee withdrawal: a round whose fees were withdrawn rejects a
/// second withdrawal.
pub proof fn lemma_round_withdraw_once(g: GameState, r: PredictionRound, caller: Principal)
    ensures
        !round_withdraw_fees_ok(g, (PredictionRound { fees_withdrawn: true, ..r }), caller),
{
}

/// Race safety of the crank: settling a round moves it out of `Betting`,
/// so of two cranks serialized against the same round, the second is
/// rejected whatever feed bytes or time it brings.
pub proof fn lemma_crank_once(g: GameState, r: PredictionRound, s1: Seq<u8>, s2: Seq<u8>, now1: i64, now2: i64)
    requires
        crank_ok(g, r, s1, now1),
    ensures
        !crank_ok(
            g,
            (PredictionRound {
                end_price: crank_end_price(s1, now1),
                winner: crank_winner(r, s1, now1),
                status: RoundStatus::Settled,
                ..r
            }),
            s2,
            now2,
        ),
{
}

} // verus!
