use fair_launch::config::{assert_data_valid, FairLaunchData};
use fair_launch::error::ErrorCode;

fn data(start: u64, end: u64, tick: u64) -> FairLaunchData {
    FairLaunchData {
        uuid: String::from("ABCDEF"),
        price_range_start: start,
        price_range_end: end,
        phase_one_start: 10,
        phase_one_end: 20,
        phase_two_end: 30,
        phase_three_start: None,
        phase_three_end: None,
        tick_size: tick,
        number_of_tokens: 10,
    }
}

#[test]
fn range_with_three_ticks_is_accepted() {
    let d = data(100, 200, 50);
    assert_eq!(assert_data_valid(&d), Ok(()));
    assert_eq!(d.tick_count(), 3);
}

#[test]
fn range_with_remainder_is_rejected() {
    let d = data(100, 199, 50);
    assert_eq!(assert_data_valid(&d), Err(ErrorCode::CannotUseTickSizeThatGivesRemainder));
}

#[test]
fn five_character_uuid_is_rejected() {
    let mut d = data(100, 200, 50);
    d.uuid = String::from("ABCDE");
    assert_eq!(assert_data_valid(&d), Err(ErrorCode::UuidMustBeExactly6Length));
}

#[test]
fn empty_or_inverted_range_is_rejected() {
    assert_eq!(assert_data_valid(&data(200, 100, 50)), Err(ErrorCode::InvalidPriceRanges));
    assert_eq!(assert_data_valid(&data(100, 100, 50)), Err(ErrorCode::InvalidPriceRanges));
}

#[test]
fn zero_tick_is_rejected() {
    assert_eq!(assert_data_valid(&data(100, 200, 0)), Err(ErrorCode::TickSizeTooSmall));
}

#[test]
fn granularity_is_capped_at_one_hundred_ticks() {
    let d = data(0, 99, 1);
    assert_eq!(assert_data_valid(&d), Ok(()));
    assert_eq!(d.tick_count(), 100);
    assert_eq!(assert_data_valid(&data(0, 100, 1)), Err(ErrorCode::TooMuchGranularityInRange));
}

#[test]
fn zero_supply_is_rejected() {
    let mut d = data(100, 200, 50);
    d.number_of_tokens = 0;
    assert_eq!(assert_data_valid(&d), Err(ErrorCode::CannotGiveZeroTokens));
}

#[test]
fn phases_must_line_up() {
    let mut d = data(100, 200, 50);
    d.phase_one_end = 10;
    assert_eq!(assert_data_valid(&d), Err(ErrorCode::TimestampsDontLineUp));
    let mut d = data(100, 200, 50);
    d.phase_two_end = 15;
    assert_eq!(assert_data_valid(&d), Err(ErrorCode::TimestampsDontLineUp));
    let mut d = data(100, 200, 50);
    d.phase_three_start = Some(30);
    assert_eq!(assert_data_valid(&d), Err(ErrorCode::TimestampsDontLineUp));
    let mut d = data(100, 200, 50);
    d.phase_three_start = Some(50);
    d.phase_three_end = Some(40);
    assert_eq!(assert_data_valid(&d), Err(ErrorCode::TimestampsDontLineUp));
    let mut d = data(100, 200, 50);
    d.phase_three_start = Some(40);
    d.phase_three_end = Some(50);
    assert_eq!(assert_data_valid(&d), Ok(()));
}

#[test]
fn tick_index_and_amount_checks() {
    let d = data(100, 200, 50);
    assert!(d.is_valid_amount(150));
    assert!(!d.is_valid_amount(125));
    assert!(!d.is_valid_amount(250));
    assert!(!d.is_valid_amount(50));
    assert_eq!(d.tick_index(100), 0);
    assert_eq!(d.tick_index(200), 2);
}

#[test]
fn storage_sizes() {
    let d = data(100, 200, 50);
    assert_eq!(fair_launch::sale::fair_launch_space(&d), 148 + 16 * 3);
    assert_eq!(fair_launch::lottery::lottery_bitmap_space(0), Some(45));
    assert_eq!(fair_launch::lottery::lottery_bitmap_space(12), Some(47));
    assert_eq!(fair_launch::lottery::lottery_bitmap_space(16), Some(47));
    assert_eq!(fair_launch::lottery::lottery_bitmap_space(17), Some(48));
    assert_eq!(fair_launch::ticket::FAIR_LAUNCH_TICKET_SIZE, 82);
    assert_eq!(fair_launch::ticket::FAIR_LAUNCH_TICKET_SEQ_SIZE, 40);
}
