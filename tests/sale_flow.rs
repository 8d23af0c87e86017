use anchor_lang::solana_program::pubkey::Pubkey;
use fair_launch::config::FairLaunchData;
use fair_launch::error::ErrorCode;
use fair_launch::lottery::{
    create_fair_launch_lottery_bitmap, lottery_complete, punch_ticket,
    update_fair_launch_lottery_bitmap, FairLaunchLotteryBitmap, PunchOutcome,
};
use fair_launch::sale::{
    decide_median, initialize_fair_launch, start_phase_three, update_fair_launch, AccountState,
    FairLaunch,
};
use fair_launch::ticket::{
    adjust_ticket, purchase_ticket, FairLaunchTicket, FairLaunchTicketState, ValueTransfer,
};

const PROGRAM: [u8; 32] = [7u8; 32];
const TOKEN_PROGRAM: [u8; 32] = [9u8; 32];
const MINT: [u8; 32] = [3u8; 32];
const SALE: [u8; 32] = [5u8; 32];

fn treasury_key() -> [u8; 32] {
    let seeds: [&[u8]; 3] = [b"fair_launch", &MINT, b"treasury"];
    Pubkey::find_program_address(&seeds, &Pubkey::new_from_array(PROGRAM)).0.to_bytes()
}

fn data(tokens: u64) -> FairLaunchData {
    FairLaunchData {
        uuid: String::from("ABCDEF"),
        price_range_start: 100,
        price_range_end: 200,
        phase_one_start: 10,
        phase_one_end: 20,
        phase_two_end: 30,
        phase_three_start: None,
        phase_three_end: None,
        tick_size: 50,
        number_of_tokens: tokens,
    }
}

fn mint_account() -> AccountState {
    AccountState { key: MINT, owner: TOKEN_PROGRAM, lamports: 1, data_is_empty: false, is_initialized: true }
}

fn treasury_account() -> AccountState {
    AccountState { key: treasury_key(), owner: [0u8; 32], lamports: 0, data_is_empty: true, is_initialized: false }
}

fn new_sale(tokens: u64) -> FairLaunch {
    initialize_fair_launch(
        PROGRAM,
        TOKEN_PROGRAM,
        [1u8; 32],
        &mint_account(),
        &treasury_account(),
        None,
        1,
        2,
        3,
        data(tokens),
    )
    .unwrap()
}

fn buyer(i: u8) -> [u8; 32] {
    [100u8.wrapping_add(i); 32]
}

fn buy(fl: &mut FairLaunch, i: u8, amount: u64) -> FairLaunchTicket {
    purchase_ticket(fl, SALE, [200u8.wrapping_add(i); 32], buyer(i), 0, amount, 15).unwrap().0
}

fn counts(fl: &FairLaunch) -> Vec<(u64, u64)> {
    fl.median.iter().map(|m| (m.0, m.1)).collect()
}

#[test]
fn initialize_lays_out_an_empty_histogram() {
    let fl = new_sale(10);
    assert_eq!(counts(&fl), vec![(100, 0), (150, 0), (200, 0)]);
    assert_eq!(fl.number_tickets_sold_in_phase_1, 0);
    assert_eq!(fl.decided_median, None);
    assert_eq!(fl.treasury, treasury_key());
    assert_eq!(fl.treasury_mint, None);
}

#[test]
fn initialize_checks_the_treasury_derivation() {
    let mut t = treasury_account();
    t.key = MINT;
    let r = initialize_fair_launch(PROGRAM, TOKEN_PROGRAM, [1u8; 32], &mint_account(), &t, None, 1, 2, 3, data(10));
    assert_eq!(r.err(), Some(ErrorCode::DerivedKeyInvalid));
}

#[test]
fn initialize_checks_owners_and_treasury() {
    let mut m = mint_account();
    m.owner = PROGRAM;
    let r = initialize_fair_launch(PROGRAM, TOKEN_PROGRAM, [1u8; 32], &m, &treasury_account(), None, 1, 2, 3, data(10));
    assert_eq!(r.err(), Some(ErrorCode::IncorrectOwner));

    let mut t = treasury_account();
    t.lamports = 5;
    let r = initialize_fair_launch(PROGRAM, TOKEN_PROGRAM, [1u8; 32], &mint_account(), &t, None, 1, 2, 3, data(10));
    assert_eq!(r.err(), Some(ErrorCode::TreasuryAlreadyExists));

    let alt = AccountState { key: [8u8; 32], owner: TOKEN_PROGRAM, lamports: 1, data_is_empty: false, is_initialized: false };
    let r = initialize_fair_launch(PROGRAM, TOKEN_PROGRAM, [1u8; 32], &mint_account(), &t, Some(&alt), 1, 2, 3, data(10));
    assert_eq!(r.err(), Some(ErrorCode::Uninitialized));

    let alt = AccountState { is_initialized: true, ..alt };
    let fl = initialize_fair_launch(PROGRAM, TOKEN_PROGRAM, [1u8; 32], &mint_account(), &t, Some(&alt), 1, 2, 3, data(10)).unwrap();
    assert_eq!(fl.treasury_mint, Some([8u8; 32]));

    let r = initialize_fair_launch(PROGRAM, TOKEN_PROGRAM, [1u8; 32], &mint_account(), &treasury_account(), None, 1, 2, 3, data(0));
    assert_eq!(r.err(), Some(ErrorCode::CannotGiveZeroTokens));
}

#[test]
fn purchase_at_150_fills_its_bucket() {
    let mut fl = new_sale(10);
    let (t, l) = purchase_ticket(&mut fl, SALE, [200u8; 32], buyer(0), 4, 150, 15).unwrap();
    assert_eq!(counts(&fl), vec![(100, 0), (150, 1), (200, 0)]);
    assert_eq!(t.seq, 0);
    assert_eq!(t.amount, 150);
    assert_eq!(t.state, FairLaunchTicketState::Unpunched);
    assert_eq!(l.seq, 0);
    assert_eq!(l.fair_launch_ticket, [200u8; 32]);
    assert_eq!(fl.number_tickets_sold_in_phase_1, 1);
}

#[test]
fn purchase_outside_phase_one_or_off_grid_fails() {
    let mut fl = new_sale(10);
    let r = purchase_ticket(&mut fl, SALE, [200u8; 32], buyer(0), 0, 150, 20);
    assert_eq!(r.err(), Some(ErrorCode::WrongPhase));
    let r = purchase_ticket(&mut fl, SALE, [200u8; 32], buyer(0), 0, 150, 9);
    assert_eq!(r.err(), Some(ErrorCode::WrongPhase));
    let r = purchase_ticket(&mut fl, SALE, [200u8; 32], buyer(0), 0, 125, 15);
    assert_eq!(r.err(), Some(ErrorCode::InvalidAmount));
    let r = purchase_ticket(&mut fl, SALE, [200u8; 32], buyer(0), 0, 250, 15);
    assert_eq!(r.err(), Some(ErrorCode::InvalidAmount));
    assert_eq!(fl.number_tickets_sold_in_phase_1, 0);
}

#[test]
fn sequence_numbers_count_up_from_zero() {
    let mut fl = new_sale(10);
    let amounts = [100u64, 200, 150, 150, 100];
    for (i, a) in amounts.iter().enumerate() {
        let t = buy(&mut fl, i as u8, *a);
        assert_eq!(t.seq, i as u64);
        let total: u64 = fl.median.iter().map(|m| m.1).sum();
        assert_eq!(total, fl.number_tickets_sold_in_phase_1);
    }
    assert_eq!(counts(&fl), vec![(100, 2), (150, 2), (200, 1)]);
}

#[test]
fn adjust_in_phase_one_moves_the_bid() {
    let mut fl = new_sale(10);
    let mut t = buy(&mut fl, 0, 100);
    assert_eq!(adjust_ticket(&mut fl, &mut t, SALE, 200, 15), Ok(ValueTransfer::BuyerToTreasury(100)));
    assert_eq!(t.amount, 200);
    assert_eq!(counts(&fl), vec![(100, 0), (150, 0), (200, 1)]);
    assert_eq!(adjust_ticket(&mut fl, &mut t, SALE, 150, 25), Ok(ValueTransfer::TreasuryToBuyer(50)));
    assert_eq!(counts(&fl), vec![(100, 0), (150, 1), (200, 0)]);
    assert_eq!(adjust_ticket(&mut fl, &mut t, SALE, 175, 25), Err(ErrorCode::InvalidAmount));
    assert_eq!(adjust_ticket(&mut fl, &mut t, SALE, 100, 35), Err(ErrorCode::WrongPhase));
    assert_eq!(adjust_ticket(&mut fl, &mut t, [6u8; 32], 100, 15), Err(ErrorCode::AccountMismatch));
}

#[test]
fn adjust_to_the_same_amount_changes_nothing() {
    let mut fl = new_sale(10);
    let mut t = buy(&mut fl, 0, 150);
    let before = counts(&fl);
    assert_eq!(adjust_ticket(&mut fl, &mut t, SALE, 150, 15), Ok(ValueTransfer::Nothing));
    assert_eq!(counts(&fl), before);
    assert_eq!(t.amount, 150);
}

fn into_phase_three(fl: &mut FairLaunch) {
    assert_eq!(start_phase_three(fl, true, 40, 50), Ok(()));
}

#[test]
fn phase_three_adjustments_follow_the_clearing_price() {
    let mut fl = new_sale(3);
    let mut high = buy(&mut fl, 0, 200);
    let _ = buy(&mut fl, 1, 150);
    let mut mid = buy(&mut fl, 2, 150);
    let mut low = buy(&mut fl, 3, 100);
    assert_eq!(decide_median(&mut fl, 25), Ok(150));
    into_phase_three(&mut fl);
    assert_eq!(adjust_ticket(&mut fl, &mut high, SALE, 100, 45), Err(ErrorCode::InvalidAdjustment));
    assert_eq!(adjust_ticket(&mut fl, &mut high, SALE, 200, 45), Err(ErrorCode::InvalidAdjustment));
    assert_eq!(adjust_ticket(&mut fl, &mut high, SALE, 150, 45), Ok(ValueTransfer::TreasuryToBuyer(50)));
    assert_eq!(adjust_ticket(&mut fl, &mut mid, SALE, 200, 45), Err(ErrorCode::InvalidAdjustment));
    assert_eq!(adjust_ticket(&mut fl, &mut mid, SALE, 100, 45), Ok(ValueTransfer::TreasuryToBuyer(50)));
    assert_eq!(adjust_ticket(&mut fl, &mut low, SALE, 150, 45), Err(ErrorCode::InvalidAdjustment));
    assert_eq!(counts(&fl), vec![(100, 2), (150, 2), (200, 0)]);
}

#[test]
fn phase_three_adjustment_needs_a_clearing_price() {
    let mut fl = new_sale(3);
    let mut t = buy(&mut fl, 0, 150);
    into_phase_three(&mut fl);
    assert_eq!(adjust_ticket(&mut fl, &mut t, SALE, 100, 45), Err(ErrorCode::MedianNotDecided));
}

#[test]
fn clearing_price_walks_down_from_the_top() {
    let mut fl = new_sale(2);
    for (i, a) in [200u64, 150, 150, 100].iter().enumerate() {
        buy(&mut fl, i as u8, *a);
    }
    assert_eq!(decide_median(&mut fl, 19), Err(ErrorCode::WrongPhase));
    assert_eq!(decide_median(&mut fl, 25), Ok(150));
    assert_eq!(fl.decided_median, Some(150));
    assert_eq!(fl.number_tickets_remaining_in_phase_2, 1);
    assert_eq!(decide_median(&mut fl, 26), Err(ErrorCode::MedianAlreadyDecided));
    assert_eq!(fl.decided_median, Some(150));
}

#[test]
fn clearing_price_is_the_lowest_tick_when_demand_falls_short() {
    let mut fl = new_sale(10);
    buy(&mut fl, 0, 200);
    buy(&mut fl, 1, 150);
    assert_eq!(decide_median(&mut fl, 25), Ok(100));
    assert_eq!(fl.number_tickets_remaining_in_phase_2, 0);
}

fn tied_sale(tokens: u64, tickets: u8) -> (FairLaunch, Vec<FairLaunchTicket>, FairLaunchLotteryBitmap) {
    let mut fl = new_sale(tokens);
    let mut ts = Vec::new();
    for i in 0..tickets {
        ts.push(buy(&mut fl, i, 150));
    }
    assert_eq!(decide_median(&mut fl, 25), Ok(150));
    let bm = create_fair_launch_lottery_bitmap(&fl, SALE, 0, 25).unwrap();
    (fl, ts, bm)
}

#[test]
fn lottery_over_twelve_tied_bids_stops_at_ten_winners() {
    let (fl, _, mut bm) = tied_sale(10, 12);
    assert_eq!(bm.bitmap.len(), 2);
    assert_eq!(bm.bitmap_ones, 0);
    assert!(!lottery_complete(&bm, &fl));
    let first: Vec<u64> = (0..6).collect();
    assert_eq!(update_fair_launch_lottery_bitmap(&mut bm, &fl, SALE, &first, 30), Ok(()));
    assert_eq!(bm.bitmap_ones, 6);
    let too_many: Vec<u64> = (6..11).collect();
    assert_eq!(
        update_fair_launch_lottery_bitmap(&mut bm, &fl, SALE, &too_many, 30),
        Err(ErrorCode::NumericalOverflowError)
    );
    assert_eq!(bm.bitmap_ones, 6);
    let rest: Vec<u64> = vec![6, 7, 8, 9, 9, 0];
    assert_eq!(update_fair_launch_lottery_bitmap(&mut bm, &fl, SALE, &rest, 30), Ok(()));
    assert_eq!(bm.bitmap_ones, 10);
    assert_eq!(bm.bitmap, vec![0xff, 0x03]);
    assert!(lottery_complete(&bm, &fl));
    assert_eq!(
        update_fair_launch_lottery_bitmap(&mut bm, &fl, SALE, &vec![11], 30),
        Err(ErrorCode::NumericalOverflowError)
    );
    assert_eq!(bm.bitmap_ones, 10);
}

#[test]
fn strip_rules() {
    let (fl, _, mut bm) = tied_sale(10, 12);
    assert_eq!(update_fair_launch_lottery_bitmap(&mut bm, &fl, SALE, &vec![12], 30), Err(ErrorCode::SequenceOutOfRange));
    assert_eq!(update_fair_launch_lottery_bitmap(&mut bm, &fl, SALE, &vec![1], 29), Err(ErrorCode::WrongPhase));
    assert_eq!(update_fair_launch_lottery_bitmap(&mut bm, &fl, [6u8; 32], &vec![1], 30), Err(ErrorCode::AccountMismatch));
    assert_eq!(bm.bitmap_ones, 0);
    let mut undecided = new_sale(10);
    buy(&mut undecided, 0, 150);
    let mut bm2 = create_fair_launch_lottery_bitmap(&undecided, SALE, 0, 25).unwrap();
    assert_eq!(update_fair_launch_lottery_bitmap(&mut bm2, &undecided, SALE, &vec![0], 30), Err(ErrorCode::MedianNotDecided));
    assert_eq!(create_fair_launch_lottery_bitmap(&undecided, SALE, 0, 19).err(), Some(ErrorCode::WrongPhase));
}

#[test]
fn punch_claims_for_winners_and_refunds_losers() {
    let (mut fl, mut ts, mut bm) = tied_sale(1, 3);
    assert_eq!(update_fair_launch_lottery_bitmap(&mut bm, &fl, SALE, &vec![1], 30), Ok(()));
    assert_eq!(punch_ticket(&mut fl, &mut ts[1], &bm, SALE, 35), Err(ErrorCode::WrongPhase));
    assert_eq!(start_phase_three(&mut fl, true, 40, 50), Ok(()));
    assert_eq!(punch_ticket(&mut fl, &mut ts[1], &bm, SALE, 45), Ok(PunchOutcome::Claim));
    assert_eq!(ts[1].state, FairLaunchTicketState::Punched);
    assert_eq!(fl.number_tickets_punched_in_phase_3, 1);
    assert_eq!(punch_ticket(&mut fl, &mut ts[0], &bm, SALE, 45), Ok(PunchOutcome::Refund(150)));
    assert_eq!(ts[0].state, FairLaunchTicketState::Withdrawn);
    assert_eq!(fl.number_tickets_punched_in_phase_3, 1);
    assert_eq!(punch_ticket(&mut fl, &mut ts[0], &bm, SALE, 45), Err(ErrorCode::TicketAlreadyPunched));
    assert_eq!(punch_ticket(&mut fl, &mut ts[1], &bm, SALE, 45), Err(ErrorCode::TicketAlreadyPunched));
}

#[test]
fn phase_three_window_is_set_once_after_the_bitmap() {
    let mut fl = new_sale(10);
    assert_eq!(start_phase_three(&mut fl, false, 40, 50), Err(ErrorCode::CantSetPhaseThreeDatesYet));
    assert_eq!(start_phase_three(&mut fl, true, 30, 50), Err(ErrorCode::TimestampsDontLineUp));
    assert_eq!(start_phase_three(&mut fl, true, 50, 40), Err(ErrorCode::TimestampsDontLineUp));
    assert_eq!(start_phase_three(&mut fl, true, 40, 50), Ok(()));
    assert_eq!(fl.data.phase_three_start, Some(40));
    assert_eq!(fl.data.phase_three_end, Some(50));
    assert_eq!(start_phase_three(&mut fl, true, 41, 50), Err(ErrorCode::PhaseThreeAlreadySet));
}

#[test]
fn parameters_change_only_before_the_sale_starts() {
    let mut fl = new_sale(10);
    let mut d = data(5);
    d.price_range_end = 300;
    assert_eq!(update_fair_launch(&mut fl, d.clone(), 5), Ok(()));
    assert_eq!(counts(&fl), vec![(100, 0), (150, 0), (200, 0), (250, 0), (300, 0)]);
    assert_eq!(fl.data.number_of_tokens, 5);
    assert_eq!(update_fair_launch(&mut fl, d.clone(), 10), Err(ErrorCode::WrongPhase));
    let mut bad = d.clone();
    bad.tick_size = 0;
    assert_eq!(update_fair_launch(&mut fl, bad, 5), Err(ErrorCode::TickSizeTooSmall));
}

#[test]
fn treasury_owner_is_not_checked_for_native_currency() {
    for owner in [[0u8; 32], PROGRAM, TOKEN_PROGRAM] {
        let t = AccountState { owner, ..treasury_account() };
        let r = initialize_fair_launch(PROGRAM, TOKEN_PROGRAM, [1u8; 32], &mint_account(), &t, None, 1, 2, 3, data(10));
        assert!(r.is_ok());
    }
}

#[test]
fn validity_check_matches_the_invariant() {
    let mut fl = new_sale(10);
    assert!(fl.is_wf());
    buy(&mut fl, 0, 150);
    assert!(fl.is_wf());
    fl.number_tickets_sold_in_phase_1 = 2;
    assert!(!fl.is_wf());
    fl.number_tickets_sold_in_phase_1 = 1;
    fl.median[1].0 = 175;
    assert!(!fl.is_wf());
    fl.median[1].0 = 150;
    fl.decided_median = Some(125);
    assert!(!fl.is_wf());
    fl.decided_median = Some(150);
    assert!(fl.is_wf());
    fl.median.pop();
    assert!(!fl.is_wf());
}

#[test]
fn update_keeps_the_bumps() {
    let mut fl = new_sale(10);
    assert_eq!(update_fair_launch(&mut fl, data(4), 5), Ok(()));
    assert_eq!((fl.bump, fl.treasury_bump, fl.token_mint_bump), (1, 2, 3));
}
