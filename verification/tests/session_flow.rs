use wager_engine::principal::Principal;
use wager_engine::session::{
    accept_authority_transfer, calculate_winnings, cancel_authority_transfer, claim_winnings,
    close_round, create_session, credit_winnings, deposit, fund_global_vault, initialize_game,
    lock_round, lock_round_fallback, place_bet, propose_authority_transfer,
    set_paused, set_price_feed, settle_round, start_round, transfer_to_global_vault,
    verify_session_or_authority, withdraw, withdraw_fees, BetSide, BettingPool, BettingRound,
    GameType, PlayerPosition, RoundStatus, SessionBettingError, SessionToken, UserBalance,
    WinnerSide, CLAIM_GRACE_PERIOD_SECONDS, MAX_SESSION_DURATION_SECONDS,
};

const FEED: [u8; 32] = [7u8; 32];

fn fresh_balance(owner: Principal, balance: u64) -> UserBalance {
    UserBalance {
        owner,
        balance,
        total_deposited: balance,
        total_withdrawn: 0,
        total_winnings: 0,
    }
}

#[test]
fn round_lifecycle_with_oracle_lock() {
    let authority = Principal::new(1);
    let mut game = initialize_game(authority, FEED);
    let t0: i64 = 1_700_000_000;
    let (mut round, pool) = start_round(&mut game, authority, t0, 50_000).unwrap();
    assert_eq!(game.current_round, 1);
    assert_eq!(round.lock_time, t0 + 25);
    assert_eq!(round.lock_time_fallback, t0 + 85);
    assert_eq!(pool.total_pool, 0);

    // Too early, wrong feed, stale and non-positive observations are all
    // rejected; a fresh matching one locks the round.
    assert_eq!(
        lock_round(&game, &mut round, authority, t0, &FEED, 51_000, t0).unwrap_err(),
        SessionBettingError::TooEarlyToLock
    );
    let t_lock = round.lock_time;
    assert_eq!(
        lock_round(&game, &mut round, authority, t_lock, &[8u8; 32], 51_000, t_lock).unwrap_err(),
        SessionBettingError::PriceFeedMismatch
    );
    assert_eq!(
        lock_round(&game, &mut round, authority, t_lock, &FEED, 51_000, t_lock - 61).unwrap_err(),
        SessionBettingError::PriceTooStale
    );
    assert_eq!(
        lock_round(&game, &mut round, authority, t_lock, &FEED, 0, t_lock).unwrap_err(),
        SessionBettingError::InvalidPrice
    );
    assert_eq!(
        lock_round(&game, &mut round, Principal::new(9), t_lock, &FEED, 51_000, t_lock)
            .unwrap_err(),
        SessionBettingError::Unauthorized
    );
    lock_round(&game, &mut round, authority, t_lock, &FEED, 51_000, t_lock).unwrap();
    assert_eq!(round.status, RoundStatus::Locked);
    assert_eq!(round.end_price, 51_000);

    // A second lock of either kind is rejected.
    assert_eq!(
        lock_round(&game, &mut round, authority, t_lock, &FEED, 52_000, t_lock).unwrap_err(),
        SessionBettingError::RoundNotOpen
    );

    let t_end = round.end_time;
    assert_eq!(
        settle_round(&mut game, &mut round, &pool, t_end - 1).unwrap_err(),
        SessionBettingError::TooEarlyToSettle
    );
    settle_round(&mut game, &mut round, &pool, t_end).unwrap();
    assert_eq!(round.status, RoundStatus::Settled);
    assert_eq!(round.winner, WinnerSide::Up);
    assert_eq!(
        settle_round(&mut game, &mut round, &pool, t_end).unwrap_err(),
        SessionBettingError::RoundNotLocked
    );

    assert_eq!(
        close_round(&game, &round, authority, t_end + 10).unwrap_err(),
        SessionBettingError::GracePeriodNotOver
    );
    close_round(&game, &round, authority, t_end + CLAIM_GRACE_PERIOD_SECONDS).unwrap();
}

#[test]
fn fallback_lock_waits_for_its_window() {
    let authority = Principal::new(1);
    let mut game = initialize_game(authority, FEED);
    let t0: i64 = 1_700_000_000;
    let (mut round, _pool) = start_round(&mut game, authority, t0, 50_000).unwrap();
    let t_lock = round.lock_time;
    assert_eq!(
        lock_round_fallback(&game, &mut round, t_lock, &FEED, 49_000, t_lock).unwrap_err(),
        SessionBettingError::TooEarlyForFallback
    );
    let t_fb = round.lock_time_fallback;
    lock_round_fallback(&game, &mut round, t_fb, &FEED, 49_000, t_fb).unwrap();
    assert_eq!(round.status, RoundStatus::Locked);
    assert_eq!(round.end_price, 49_000);
}

#[test]
fn start_round_rejections() {
    let authority = Principal::new(1);
    let mut game = initialize_game(authority, FEED);
    assert_eq!(
        start_round(&mut game, Principal::new(9), 0, 50_000).unwrap_err(),
        SessionBettingError::Unauthorized
    );
    assert_eq!(
        start_round(&mut game, authority, 0, 0).unwrap_err(),
        SessionBettingError::InvalidPrice
    );
    set_paused(&mut game, authority, true).unwrap();
    assert_eq!(
        start_round(&mut game, authority, 0, 50_000).unwrap_err(),
        SessionBettingError::GamePaused
    );
}

#[test]
fn session_token_rules() {
    let wallet = Principal::new(20);
    let signer = Principal::new(21);
    let now: i64 = 1_000_000;
    assert_eq!(
        create_session(wallet, signer, now, now).unwrap_err(),
        SessionBettingError::InvalidSessionDuration
    );
    assert_eq!(
        create_session(wallet, signer, now + MAX_SESSION_DURATION_SECONDS + 1, now).unwrap_err(),
        SessionBettingError::SessionTooLong
    );
    let token = create_session(wallet, signer, now + 3600, now).unwrap();

    // The wallet itself always passes, with or without a token.
    assert!(verify_session_or_authority(&None, wallet, wallet, now).is_ok());
    // The session signer passes while the session is valid.
    assert!(verify_session_or_authority(&Some(token), signer, wallet, now + 100).is_ok());
    // ... and is rejected after expiry.
    assert_eq!(
        verify_session_or_authority(&Some(token), signer, wallet, now + 3600).unwrap_err(),
        SessionBettingError::SessionExpired
    );
    // The wrong signer or the wrong wallet is rejected.
    assert_eq!(
        verify_session_or_authority(&Some(token), Principal::new(22), wallet, now).unwrap_err(),
        SessionBettingError::InvalidSessionSigner
    );
    assert_eq!(
        verify_session_or_authority(&Some(token), signer, Principal::new(23), now).unwrap_err(),
        SessionBettingError::SessionAuthorityMismatch
    );
    // No token and not the wallet: unauthorized.
    assert_eq!(
        verify_session_or_authority(&None, signer, wallet, now).unwrap_err(),
        SessionBettingError::Unauthorized
    );
}

#[test]
fn deposit_and_withdraw_rules() {
    let user = Principal::new(30);
    let mut balance = UserBalance {
        owner: Principal::unset(),
        balance: 0,
        total_deposited: 0,
        total_withdrawn: 0,
        total_winnings: 0,
    };
    assert_eq!(
        deposit(&mut balance, user, 9_999_999).unwrap_err(),
        SessionBettingError::AmountTooSmall
    );
    deposit(&mut balance, user, 50_000_000).unwrap();
    assert_eq!(balance.owner, user);
    assert_eq!(balance.balance, 50_000_000);
    assert_eq!(balance.total_deposited, 50_000_000);

    assert_eq!(
        withdraw(&mut balance, Principal::new(31), 10).unwrap_err(),
        SessionBettingError::NotBalanceOwner
    );
    assert_eq!(
        withdraw(&mut balance, user, 50_000_001).unwrap_err(),
        SessionBettingError::InsufficientBalance
    );
    assert_eq!(withdraw(&mut balance, user, 20_000_000).unwrap(), 20_000_000);
    assert_eq!(balance.balance, 30_000_000);
    assert_eq!(balance.total_withdrawn, 20_000_000);
}

#[test]
fn bets_move_balance_into_pool() {
    let authority = Principal::new(1);
    let mut game = initialize_game(authority, FEED);
    let t0: i64 = 1_700_000_000;
    let (round, mut pool) = start_round(&mut game, authority, t0, 50_000).unwrap();
    let user = Principal::new(30);
    let mut balance = fresh_balance(user, 100_000_000);

    let position = place_bet(
        &game,
        &round,
        &mut pool,
        &mut balance,
        &None,
        user,
        BetSide::Up,
        40_000_000,
        t0 + 1,
    )
    .unwrap();
    assert_eq!(balance.balance, 60_000_000);
    assert_eq!(pool.up_pool, 40_000_000);
    assert_eq!(pool.total_pool, 40_000_000);
    assert_eq!(position.player, user);
    assert!(!position.claimed);

    assert_eq!(
        place_bet(&game, &round, &mut pool, &mut balance, &None, user, BetSide::Up, 9_999_999, t0 + 1)
            .unwrap_err(),
        SessionBettingError::AmountTooSmall
    );
    assert_eq!(
        place_bet(
            &game,
            &round,
            &mut pool,
            &mut balance,
            &None,
            user,
            BetSide::Up,
            100_000_000_001,
            t0 + 1,
        )
        .unwrap_err(),
        SessionBettingError::AmountTooLarge
    );
    assert_eq!(
        place_bet(&game, &round, &mut pool, &mut balance, &None, user, BetSide::Up, 90_000_000, t0 + 1)
            .unwrap_err(),
        SessionBettingError::InsufficientBalance
    );
    assert_eq!(
        place_bet(
            &game,
            &round,
            &mut pool,
            &mut balance,
            &None,
            user,
            BetSide::Up,
            10_000_000,
            round.lock_time,
        )
        .unwrap_err(),
        SessionBettingError::RoundLocked
    );
    // A stranger without a session cannot spend this balance.
    assert_eq!(
        place_bet(
            &game,
            &round,
            &mut pool,
            &mut balance,
            &None,
            Principal::new(31),
            BetSide::Up,
            10_000_000,
            t0 + 1,
        )
        .unwrap_err(),
        SessionBettingError::Unauthorized
    );
}

#[test]
fn winnings_math() {
    // Loss pays nothing.
    assert_eq!(
        calculate_winnings(10, BetSide::Down, WinnerSide::Up, 100, 50),
        Ok(0)
    );
    // A drawn or unsettled round pays nothing here (the claim refunds draws).
    assert_eq!(
        calculate_winnings(10, BetSide::Up, WinnerSide::Draw, 100, 50),
        Ok(0)
    );
    // An empty winning pool returns the stake.
    assert_eq!(
        calculate_winnings(10, BetSide::Up, WinnerSide::Up, 0, 50),
        Ok(10)
    );
    // Stake plus proportional share of the losing pool.
    assert_eq!(
        calculate_winnings(40_000_000, BetSide::Up, WinnerSide::Up, 40_000_000, 10_000_000),
        Ok(50_000_000)
    );
    assert_eq!(
        calculate_winnings(10, BetSide::Up, WinnerSide::Up, 40, 25),
        Ok(16)
    );
    // A share that cannot fit back in a u64 is rejected.
    assert_eq!(
        calculate_winnings(u64::MAX, BetSide::Up, WinnerSide::Up, 1, u64::MAX),
        Err(SessionBettingError::MathOverflow)
    );
}

#[test]
fn claim_credits_winner_less_fee() {
    let authority = Principal::new(1);
    let mut game = initialize_game(authority, FEED);
    let round = BettingRound {
        round_id: 0,
        start_time: 0,
        lock_time: 25,
        end_time: 30,
        lock_time_fallback: 85,
        start_price: 50_000,
        end_price: 51_000,
        status: RoundStatus::Settled,
        winner: WinnerSide::Up,
    };
    let pool = BettingPool {
        round_id: 0,
        up_pool: 40_000_000,
        down_pool: 10_000_000,
        total_pool: 50_000_000,
    };
    let user = Principal::new(30);
    let mut balance = fresh_balance(user, 60_000_000);
    let mut position = PlayerPosition {
        player: user,
        round_id: 0,
        side: BetSide::Up,
        amount: 40_000_000,
        claimed: false,
    };
    claim_winnings(&mut game, &round, &pool, &mut position, &mut balance, &None, user, 100)
        .unwrap();
    assert!(position.claimed);
    // Gross winnings 50_000_000, fee 5% = 2_500_000, credit 47_500_000.
    assert_eq!(balance.balance, 60_000_000 + 47_500_000);
    assert_eq!(balance.total_winnings, 47_500_000);
    assert_eq!(game.total_fees_collected, 2_500_000);

    assert_eq!(
        claim_winnings(&mut game, &round, &pool, &mut position, &mut balance, &None, user, 100)
            .unwrap_err(),
        SessionBettingError::AlreadyClaimed
    );
}

#[test]
fn claim_refunds_draw_and_consumes_loss() {
    let authority = Principal::new(1);
    let mut game = initialize_game(authority, FEED);
    let mut round = BettingRound {
        round_id: 0,
        start_time: 0,
        lock_time: 25,
        end_time: 30,
        lock_time_fallback: 85,
        start_price: 50_000,
        end_price: 50_000,
        status: RoundStatus::Settled,
        winner: WinnerSide::Draw,
    };
    let pool = BettingPool {
        round_id: 0,
        up_pool: 40_000_000,
        down_pool: 10_000_000,
        total_pool: 50_000_000,
    };
    let user = Principal::new(30);
    let mut balance = fresh_balance(user, 0);
    let mut position = PlayerPosition {
        player: user,
        round_id: 0,
        side: BetSide::Up,
        amount: 40_000_000,
        claimed: false,
    };
    claim_winnings(&mut game, &round, &pool, &mut position, &mut balance, &None, user, 100)
        .unwrap();
    assert_eq!(balance.balance, 40_000_000);
    assert_eq!(balance.total_winnings, 0);
    assert_eq!(game.total_fees_collected, 0);

    // A losing position is consumed without any credit.
    round.winner = WinnerSide::Down;
    let mut losing = PlayerPosition {
        player: user,
        round_id: 0,
        side: BetSide::Up,
        amount: 40_000_000,
        claimed: false,
    };
    claim_winnings(&mut game, &round, &pool, &mut losing, &mut balance, &None, user, 100)
        .unwrap();
    assert!(losing.claimed);
    assert_eq!(balance.balance, 40_000_000);
}

#[test]
fn fee_withdrawal_bounds() {
    let authority = Principal::new(1);
    let mut game = initialize_game(authority, FEED);
    game.total_fees_collected = 1_000_000;
    assert_eq!(
        withdraw_fees(&mut game, Principal::new(9), 1, 10).unwrap_err(),
        SessionBettingError::Unauthorized
    );
    assert_eq!(
        withdraw_fees(&mut game, authority, 0, 10).unwrap_err(),
        SessionBettingError::AmountTooSmall
    );
    assert_eq!(
        withdraw_fees(&mut game, authority, 1_000_001, u64::MAX).unwrap_err(),
        SessionBettingError::InsufficientFees
    );
    assert_eq!(
        withdraw_fees(&mut game, authority, 1_000_000, 999_999).unwrap_err(),
        SessionBettingError::InsufficientVaultBalance
    );
    assert_eq!(withdraw_fees(&mut game, authority, 600_000, 1_000_000).unwrap(), 600_000);
    assert_eq!(game.total_fees_collected, 400_000);
}

#[test]
fn vault_settlement_paths() {
    let authority = Principal::new(1);
    let game = initialize_game(authority, FEED);
    let user = Principal::new(30);
    let mut balance = fresh_balance(user, 50_000_000);

    assert_eq!(
        transfer_to_global_vault(&game, &mut balance, user, 10).unwrap_err(),
        SessionBettingError::Unauthorized
    );
    assert_eq!(
        transfer_to_global_vault(&game, &mut balance, authority, 60_000_000).unwrap_err(),
        SessionBettingError::InsufficientBalance
    );
    assert_eq!(
        transfer_to_global_vault(&game, &mut balance, authority, 20_000_000).unwrap(),
        20_000_000
    );
    assert_eq!(balance.balance, 30_000_000);

    assert_eq!(
        credit_winnings(&game, &mut balance, authority, 0, 100, GameType::Oracle, [0u8; 32])
            .unwrap_err(),
        SessionBettingError::AmountTooSmall
    );
    assert_eq!(
        credit_winnings(&game, &mut balance, authority, 200, 100, GameType::Oracle, [0u8; 32])
            .unwrap_err(),
        SessionBettingError::InsufficientVaultBalance
    );
    assert_eq!(
        credit_winnings(&game, &mut balance, authority, 5_000_000, 5_000_000, GameType::Battle, [1u8; 32])
            .unwrap(),
        5_000_000
    );
    assert_eq!(balance.balance, 35_000_000);
    assert_eq!(balance.total_winnings, 5_000_000);

    assert_eq!(fund_global_vault(&game, authority, 7).unwrap(), 7);
    assert_eq!(
        fund_global_vault(&game, user, 7).unwrap_err(),
        SessionBettingError::Unauthorized
    );
}

#[test]
fn session_authority_transfer_two_step() {
    let authority = Principal::new(1);
    let successor = Principal::new(2);
    let mut game = initialize_game(authority, FEED);
    assert_eq!(
        accept_authority_transfer(&mut game, successor).unwrap_err(),
        SessionBettingError::NoPendingAuthority
    );
    assert_eq!(
        propose_authority_transfer(&mut game, successor, successor).unwrap_err(),
        SessionBettingError::Unauthorized
    );
    assert_eq!(
        propose_authority_transfer(&mut game, authority, Principal::unset()).unwrap_err(),
        SessionBettingError::InvalidAuthority
    );
    propose_authority_transfer(&mut game, authority, successor).unwrap();
    assert_eq!(
        accept_authority_transfer(&mut game, Principal::new(3)).unwrap_err(),
        SessionBettingError::Unauthorized
    );
    accept_authority_transfer(&mut game, successor).unwrap();
    assert_eq!(game.authority, successor);
    assert_eq!(
        cancel_authority_transfer(&mut game, successor).unwrap_err(),
        SessionBettingError::NoPendingAuthority
    );
    propose_authority_transfer(&mut game, successor, Principal::new(4)).unwrap();
    cancel_authority_transfer(&mut game, successor).unwrap();
    assert!(game.pending_authority.is_none());
}

#[test]
fn price_feed_can_be_replaced() {
    let authority = Principal::new(1);
    let mut game = initialize_game(authority, FEED);
    let session_token = SessionToken {
        authority: Principal::new(20),
        session_signer: Principal::new(21),
        valid_until: 100,
    };
    // A session key is not the game authority.
    assert_eq!(
        set_price_feed(&mut game, session_token.session_signer, [9u8; 32]).unwrap_err(),
        SessionBettingError::Unauthorized
    );
    set_price_feed(&mut game, authority, [9u8; 32]).unwrap();
    assert_eq!(game.price_feed_id, [9u8; 32]);
}
