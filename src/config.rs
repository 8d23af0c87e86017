use vstd::prelude::*;
use crate::error::ErrorCode;

verus! {

/// Seconds since the Unix epoch.
pub type UnixTimestamp = i64;

/// The most price ticks a sale may have.
pub const MAX_GRANULARITY: u64 = 100;

/// Parameters of a sale.
#[derive(Clone, Debug, Default)]
pub struct FairLaunchData {
    pub uuid: String,
    pub price_range_start: u64,
    pub price_range_end: u64,
    pub phase_one_start: UnixTimestamp,
    pub phase_one_end: UnixTimestamp,
    pub phase_two_end: UnixTimestamp,
    pub phase_three_start: Option<UnixTimestamp>,
    pub phase_three_end: Option<UnixTimestamp>,
    pub tick_size: u64,
    pub number_of_tokens: u64,
}

/// Number of price ticks in the range, both ends included.
pub open spec fn spec_tick_count(start: u64, end: u64, tick: u64) -> int
    recommends
        tick > 0,
{
    (end - start) / (tick as int) + 1
}

/// Whether the phase-three window, as far as it is set, lies after phase two
/// and is ordered.
pub open spec fn phase_three_lines_up(
    phase_two_end: i64,
    start: Option<i64>,
    end: Option<i64>,
) -> bool {
    &&& (start matches Some(s) ==> s > phase_two_end)
    &&& (end matches Some(e) ==> e > phase_two_end)
    &&& (start matches Some(s) ==> (end matches Some(e) ==> s < e))
}

/// The first rule, in order of checking, that the parameters break.
pub open spec fn data_error(d: FairLaunchData) -> Option<ErrorCode> {
    if d.uuid@.len() != 6 {
        Some(ErrorCode::UuidMustBeExactly6Length)
    } else if d.price_range_end <= d.price_range_start {
        Some(ErrorCode::InvalidPriceRanges)
    } else if d.tick_size == 0 {
        Some(ErrorCode::TickSizeTooSmall)
    } else if (d.price_range_end - d.price_range_start) % (d.tick_size as int) != 0 {
        Some(ErrorCode::CannotUseTickSizeThatGivesRemainder)
    } else if spec_tick_count(d.price_range_start, d.price_range_end, d.tick_size)
        > MAX_GRANULARITY {
        Some(ErrorCode::TooMuchGranularityInRange)
    } else if d.number_of_tokens == 0 {
        Some(ErrorCode::CannotGiveZeroTokens)
    } else if !(d.phase_one_start < d.phase_one_end && d.phase_one_end <= d.phase_two_end) {
        Some(ErrorCode::TimestampsDontLineUp)
    } else if !phase_three_lines_up(d.phase_two_end, d.phase_three_start, d.phase_three_end) {
        Some(ErrorCode::TimestampsDontLineUp)
    } else {
        None
    }
}

/// The parameters obey every rule of a sale.
pub open spec fn data_valid(d: FairLaunchData) -> bool {
    data_error(d).is_none()
}

impl FairLaunchData {
    pub open spec fn tick_count_spec(&self) -> int {
        spec_tick_count(self.price_range_start, self.price_range_end, self.tick_size)
    }

    /// The price of the tick at `i`, counting from the start of the range.
    pub open spec fn tick_price(&self, i: int) -> int {
        self.price_range_start + i * self.tick_size
    }

    /// Position of the tick `amount` in the range.
    pub open spec fn index_of(&self, amount: u64) -> int {
        (amount - self.price_range_start) / (self.tick_size as int)
    }

    /// Whether `amount` is a tick of the range.
    pub open spec fn is_tick(&self, amount: u64) -> bool {
        &&& self.price_range_start <= amount <= self.price_range_end
        &&& (amount - self.price_range_start) % (self.tick_size as int) == 0
    }

    /// Number of price ticks of valid parameters.
    pub fn tick_count(&self) -> (r: u64)
        requires
            data_valid(*self),
        ensures
            r == self.tick_count_spec(),
            1 <= r <= MAX_GRANULARITY,
    {
        (self.price_range_end - self.price_range_start) / self.tick_size + 1
    }

    /// Whether `amount` is a tick of the range of valid parameters.
    pub fn is_valid_amount(&self, amount: u64) -> (r: bool)
        requires
            data_valid(*self),
        ensures
            r == self.is_tick(amount),
    {
        self.price_range_start <= amount && amount <= self.price_range_end
            && (amount - self.price_range_start) % self.tick_size == 0
    }

    /// Index of the tick `amount` in the range.
    pub fn tick_index(&self, amount: u64) -> (r: usize)
        requires
            data_valid(*self),
            self.is_tick(amount),
        ensures
            r == self.index_of(amount),
            r < self.tick_count_spec(),
            self.tick_price(r as int) == amount,
    {
        let d = amount - self.price_range_start;
        let k = d / self.tick_size;
        proof {
            let t = self.tick_size as int;
            vstd::arithmetic::div_mod::lemma_fundamental_div_mod(d as int, t);
            vstd::arithmetic::div_mod::lemma_div_is_ordered(
                d as int,
                (self.price_range_end - self.price_range_start) as int,
                t,
            );
            assert(k * t == t * k) by (nonlinear_arith);
        }
        k as usize
    }
}

fn phase_three_ok(phase_two_end: i64, start: Option<i64>, end: Option<i64>) -> (r: bool)
    ensures
        r == phase_three_lines_up(phase_two_end, start, end),
{
    let start_ok = match start {
        Some(s) => s > phase_two_end,
        None => true,
    };
    let end_ok = match end {
        Some(e) => e > phase_two_end,
        None => true,
    };
    let order_ok = match (start, end) {
        (Some(s), Some(e)) => s < e,
        _ => true,
    };
    start_ok && end_ok && order_ok
}

/// Checks the parameters of a sale, reporting the first rule broken.
pub fn assert_data_valid(data: &FairLaunchData) -> (r: Result<(), ErrorCode>)
    ensures
        r == (match data_error(*data) {
            Some(e) => Err(e),
            None => Ok(()),
        }),
{
    if data.uuid.as_str().unicode_len() != 6 {
        return Err(ErrorCode::UuidMustBeExactly6Length);
    }
    if data.price_range_end <= data.price_range_start {
        return Err(ErrorCode::InvalidPriceRanges);
    }
    if data.tick_size == 0 {
        return Err(ErrorCode::TickSizeTooSmall);
    }
    let range = data.price_range_end - data.price_range_start;
    if range % data.tick_size != 0 {
        return Err(ErrorCode::CannotUseTickSizeThatGivesRemainder);
    }
    if range / data.tick_size >= MAX_GRANULARITY {
        return Err(ErrorCode::TooMuchGranularityInRange);
    }
    if data.number_of_tokens == 0 {
        return Err(ErrorCode::CannotGiveZeroTokens);
    }
    if !(data.phase_one_start < data.phase_one_end && data.phase_one_end <= data.phase_two_end) {
        return Err(ErrorCode::TimestampsDontLineUp);
    }
    if !phase_three_ok(data.phase_two_end, data.phase_three_start, data.phase_three_end) {
        return Err(ErrorCode::TimestampsDontLineUp);
    }
    Ok(())
}

/// Every valid sale has between one and `MAX_GRANULARITY` price ticks.
pub proof fn lemma_tick_count_bounds(d: FairLaunchData)
    requires
        data_valid(d),
    ensures
        1 <= d.tick_count_spec() <= MAX_GRANULARITY,
{
    vstd::arithmetic::div_mod::lemma_div_pos_is_pos(
        (d.price_range_end - d.price_range_start) as int,
        d.tick_size as int,
    );
}

} // verus!
