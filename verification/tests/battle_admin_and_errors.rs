use wager_engine::battle::{
    accept_authority, claim_player_draw_refund, claim_player_prize, claim_spectator_winnings,
    create_battle, file_dispute, initialize, join_battle, propose_authority, refund_spectator_bet,
    resolve_dispute, settle_battle, update_treasury, Battle, BattleStatus, Dispute,
    ErrorCode, PlayerDrawRefund, PlayerSide, SpectatorBet, DISPUTE_WINDOW_SECS,
};
use wager_engine::principal::Principal;

fn settled_battle(winner: Principal) -> Battle {
    Battle {
        id: 1,
        creator: Principal::new(10),
        opponent: Principal::new(11),
        entry_fee: 1_000_000_000,
        status: BattleStatus::Settled,
        winner,
        proposed_winner: winner,
        player_pool: 2_000_000_000,
        spectator_pool_creator: 0,
        spectator_pool_opponent: 0,
        betting_locked: false,
        prize_claimed: false,
        fees_withdrawn: false,
        created_at: 0,
        started_at: 0,
        ends_at: 0,
        dispute_deadline: 0,
        settled_at: 0,
    }
}

#[test]
fn initialize_rejects_zero_treasury() {
    let r = initialize(Principal::new(1), Principal::unset());
    assert_eq!(r.unwrap_err(), ErrorCode::InvalidZeroAddress);
}

#[test]
fn treasury_update_is_authority_only() {
    let mut config = initialize(Principal::new(1), Principal::new(2)).unwrap();
    assert_eq!(
        update_treasury(&mut config, Principal::new(3), Principal::new(4)).unwrap_err(),
        ErrorCode::InvalidAuthority
    );
    assert_eq!(
        update_treasury(&mut config, Principal::new(1), Principal::unset()).unwrap_err(),
        ErrorCode::InvalidZeroAddress
    );
    update_treasury(&mut config, Principal::new(1), Principal::new(4)).unwrap();
    assert_eq!(config.treasury, Principal::new(4));
}

#[test]
fn two_step_authority_transfer() {
    let mut config = initialize(Principal::new(1), Principal::new(2)).unwrap();
    let successor = Principal::new(5);
    assert_eq!(
        propose_authority(&mut config, successor, successor).unwrap_err(),
        ErrorCode::InvalidAuthority
    );
    assert_eq!(
        propose_authority(&mut config, Principal::new(1), Principal::unset()).unwrap_err(),
        ErrorCode::InvalidZeroAddress
    );
    propose_authority(&mut config, Principal::new(1), successor).unwrap();
    assert_eq!(config.pending_authority, successor);

    assert_eq!(
        accept_authority(&mut config, Principal::new(6)).unwrap_err(),
        ErrorCode::InvalidAuthority
    );
    accept_authority(&mut config, successor).unwrap();
    assert_eq!(config.authority, successor);
    assert!(config.pending_authority.is_none_key());
    // The slot is spent: accepting again fails.
    assert_eq!(
        accept_authority(&mut config, successor).unwrap_err(),
        ErrorCode::InvalidAuthority
    );
}

#[test]
fn create_battle_rejects_low_entry() {
    let mut config = initialize(Principal::new(1), Principal::new(2)).unwrap();
    let r = create_battle(&mut config, Principal::new(10), 99_999_999, 0);
    assert_eq!(r.unwrap_err(), ErrorCode::EntryFeeTooLow);
    assert_eq!(config.total_battles, 0);
}

#[test]
fn join_battle_rejections() {
    let mut config = initialize(Principal::new(1), Principal::new(2)).unwrap();
    let creator = Principal::new(10);
    let mut battle = create_battle(&mut config, creator, 100_000_000, 0).unwrap();
    assert_eq!(
        join_battle(&mut battle, creator, 10).unwrap_err(),
        ErrorCode::CannotJoinOwnBattle
    );
    join_battle(&mut battle, Principal::new(11), 10).unwrap();
    assert_eq!(
        join_battle(&mut battle, Principal::new(12), 20).unwrap_err(),
        ErrorCode::BattleNotWaiting
    );
}

#[test]
fn join_battle_pool_overflow() {
    let mut battle = Battle {
        id: 2,
        creator: Principal::new(10),
        opponent: Principal::unset(),
        entry_fee: u64::MAX,
        status: BattleStatus::Waiting,
        winner: Principal::unset(),
        proposed_winner: Principal::unset(),
        player_pool: u64::MAX,
        spectator_pool_creator: 0,
        spectator_pool_opponent: 0,
        betting_locked: false,
        prize_claimed: false,
        fees_withdrawn: false,
        created_at: 0,
        started_at: 0,
        ends_at: 0,
        dispute_deadline: 0,
        settled_at: 0,
    };
    assert_eq!(
        join_battle(&mut battle, Principal::new(11), 10).unwrap_err(),
        ErrorCode::PoolOverflow
    );
    assert_eq!(battle.status, BattleStatus::Waiting);
}

#[test]
fn settle_battle_rejections() {
    let mut config = initialize(Principal::new(1), Principal::new(2)).unwrap();
    let authority = Principal::new(1);
    let mut battle = create_battle(&mut config, Principal::new(10), 100_000_000, 0).unwrap();
    assert_eq!(
        settle_battle(&config, &mut battle, Principal::new(9), 10, PlayerSide::Creator)
            .unwrap_err(),
        ErrorCode::InvalidAuthority
    );
    assert_eq!(
        settle_battle(&config, &mut battle, authority, 10, PlayerSide::Creator).unwrap_err(),
        ErrorCode::BattleNotActive
    );
    join_battle(&mut battle, Principal::new(11), 10).unwrap();
    let too_early = battle.ends_at - 1;
    assert_eq!(
        settle_battle(&config, &mut battle, authority, too_early, PlayerSide::Creator)
            .unwrap_err(),
        ErrorCode::BattleNotEnded
    );
}

#[test]
fn file_dispute_window_closes() {
    let mut config = initialize(Principal::new(1), Principal::new(2)).unwrap();
    let authority = Principal::new(1);
    let mut battle = create_battle(&mut config, Principal::new(10), 100_000_000, 0).unwrap();
    join_battle(&mut battle, Principal::new(11), 10).unwrap();
    let t_end = battle.ends_at;
    settle_battle(&config, &mut battle, authority, t_end, PlayerSide::Creator).unwrap();
    let too_late = t_end + DISPUTE_WINDOW_SECS;
    assert_eq!(
        file_dispute(&mut battle, Principal::new(42), [0u8; 32], too_late).unwrap_err(),
        ErrorCode::DisputeWindowClosed
    );
}

#[test]
fn resolve_dispute_is_authority_only() {
    let mut config = initialize(Principal::new(1), Principal::new(2)).unwrap();
    let mut battle = settled_battle(Principal::new(10));
    battle.status = BattleStatus::Disputed;
    let mut dispute = Dispute {
        battle_id: battle.id,
        disputer: Principal::new(42),
        evidence_hash: [0u8; 32],
        filed_at: 0,
        resolved: false,
        upheld: false,
    };
    assert_eq!(
        resolve_dispute(&mut config, &mut battle, &mut dispute, Principal::new(9), 5, true)
            .unwrap_err(),
        ErrorCode::InvalidAuthority
    );
    let mut resolved = dispute;
    resolved.resolved = true;
    assert_eq!(
        resolve_dispute(&mut config, &mut battle, &mut resolved, Principal::new(1), 5, true)
            .unwrap_err(),
        ErrorCode::DisputeAlreadyResolved
    );
}

#[test]
fn prize_claim_rejections() {
    let mut active = settled_battle(Principal::new(10));
    active.status = BattleStatus::Active;
    assert_eq!(
        claim_player_prize(&mut active, Principal::new(10)).unwrap_err(),
        ErrorCode::BattleNotSettled
    );
}

#[test]
fn prize_claim_pays_exactly_at_any_pool_size() {
    // The after-fee amount is computed through a widened intermediate, so
    // even the largest pool pays its exact 90%.
    let mut huge = settled_battle(Principal::new(10));
    huge.player_pool = u64::MAX;
    assert_eq!(
        claim_player_prize(&mut huge, Principal::new(10)).unwrap(),
        16_602_069_666_338_596_453
    );
}

#[test]
fn draw_refund_needs_draw_and_player() {
    let battle = settled_battle(Principal::new(10));
    let mut receipt = PlayerDrawRefund { battle_id: 1, player: Principal::new(10), claimed: false };
    assert_eq!(
        claim_player_draw_refund(&battle, &mut receipt, Principal::new(10)).unwrap_err(),
        ErrorCode::NotADraw
    );
    let mut draw = settled_battle(Principal::unset());
    draw.winner = Principal::unset();
    let outsider = Principal::new(99);
    let mut outsider_receipt = PlayerDrawRefund { battle_id: 1, player: outsider, claimed: false };
    assert_eq!(
        claim_player_draw_refund(&draw, &mut outsider_receipt, outsider).unwrap_err(),
        ErrorCode::NotAPlayer
    );
}

#[test]
fn spectator_claim_ownership_and_status() {
    let battle = settled_battle(Principal::new(10));
    let bettor = Principal::new(50);
    let mut bet = SpectatorBet {
        bettor,
        battle_id: 1,
        backed_player: PlayerSide::Creator,
        amount: 10_000_000,
        claimed: false,
    };
    assert_eq!(
        claim_spectator_winnings(&battle, &mut bet, Principal::new(51)).unwrap_err(),
        ErrorCode::NotBetOwner
    );
    let mut waiting = battle;
    waiting.status = BattleStatus::Waiting;
    assert_eq!(
        claim_spectator_winnings(&waiting, &mut bet, bettor).unwrap_err(),
        ErrorCode::BattleNotSettled
    );
    assert_eq!(
        refund_spectator_bet(&battle, &mut bet, bettor).unwrap_err(),
        ErrorCode::BattleNotCancelled
    );
}

#[test]
fn spectator_claim_handles_pools_past_a_u64_sum() {
    // The pool sum and the after-rake amount go through widened
    // intermediates, so a claim pays exactly even when the two pools
    // together exceed a u64.
    let mut battle = settled_battle(Principal::new(10));
    battle.spectator_pool_creator = u64::MAX;
    battle.spectator_pool_opponent = 2;
    let bettor = Principal::new(50);
    let mut bet = SpectatorBet {
        bettor,
        battle_id: 1,
        backed_player: PlayerSide::Creator,
        amount: 10_000_000,
        claimed: false,
    };
    // after-rake pool = floor((2^64 + 1) * 9500 / 10000); the bettor's
    // share of it lands within one unit of 95% of the stake.
    assert_eq!(claim_spectator_winnings(&battle, &mut bet, bettor).unwrap(), 9_500_000);
}

#[test]
fn spectator_claim_rejects_share_beyond_u64() {
    // Only a proportional share too large for a u64 is incomputable.
    let mut battle = settled_battle(Principal::new(10));
    battle.spectator_pool_creator = 1;
    battle.spectator_pool_opponent = u64::MAX - 1;
    let bettor = Principal::new(50);
    let mut bet = SpectatorBet {
        bettor,
        battle_id: 1,
        backed_player: PlayerSide::Creator,
        amount: u64::MAX,
        claimed: false,
    };
    assert_eq!(
        claim_spectator_winnings(&battle, &mut bet, bettor).unwrap_err(),
        ErrorCode::InvalidPayout
    );
}

#[test]
fn settle_clamps_overflowing_total_pool_to_draw() {
    // A pool sum that overflows is clamped to zero and settles as a draw.
    let config = initialize(Principal::new(1), Principal::new(2)).unwrap();
    let mut battle = settled_battle(Principal::new(10));
    battle.status = BattleStatus::Active;
    battle.player_pool = u64::MAX;
    battle.spectator_pool_creator = u64::MAX;
    battle.ends_at = 100;
    settle_battle(&config, &mut battle, Principal::new(1), 100, PlayerSide::Creator).unwrap();
    assert!(battle.proposed_winner.is_none_key());
}
