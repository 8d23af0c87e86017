use vstd::prelude::*;
use crate::Key;
use crate::address::{find_program_address, key_bytes, program_address, same_key};
use crate::config::{assert_data_valid, data_error, data_valid, phase_three_lines_up, FairLaunchData, UnixTimestamp};
use crate::error::ErrorCode;
use crate::histogram::{
    histogram_total, is_clearing_index, lemma_sum_from_monotone, sum_from, MedianTuple,
};

verus! {

/// Bytes of a sale record before its histogram.
pub const FAIR_LAUNCH_SPACE_VEC_START: usize = 148;

/// Bytes of one histogram bucket in a stored sale.
pub const MEDIAN_TUPLE_SIZE: usize = 16;

/// Bytes of a stored sale with valid parameters, histogram included.
pub fn fair_launch_space(data: &FairLaunchData) -> (r: usize)
    requires
        data_valid(*data),
    ensures
        r == FAIR_LAUNCH_SPACE_VEC_START + MEDIAN_TUPLE_SIZE * data.tick_count_spec(),
{
    let n = data.tick_count();
    FAIR_LAUNCH_SPACE_VEC_START + MEDIAN_TUPLE_SIZE * (n as usize)
}

/// What the store reports of an account.
#[derive(Clone, Copy, Debug)]
pub struct AccountState {
    pub key: Key,
    pub owner: Key,
    pub lamports: u64,
    pub data_is_empty: bool,
    /// Whether the account holds an initialized currency descriptor.
    pub is_initialized: bool,
}

/// A sale: its parameters, counters, price histogram and clearing price.
#[derive(Clone, Debug)]
pub struct FairLaunch {
    pub token_mint: Key,
    pub treasury: Key,
    pub treasury_mint: Option<Key>,
    pub authority: Key,
    pub bump: u8,
    pub treasury_bump: u8,
    pub token_mint_bump: u8,
    pub data: FairLaunchData,
    pub number_tickets_sold_in_phase_1: u64,
    pub number_tickets_remaining_in_phase_2: u64,
    pub number_tickets_punched_in_phase_3: u64,
    pub decided_median: Option<u64>,
    pub median: Vec<MedianTuple>,
}

/// "fair_launch", the namespace of every key of a sale.
pub open spec fn prefix_seed() -> Seq<u8> {
    seq![102u8, 97, 105, 114, 95, 108, 97, 117, 110, 99, 104]
}

/// "treasury"
pub open spec fn treasury_seed() -> Seq<u8> {
    seq![116u8, 114, 101, 97, 115, 117, 114, 121]
}

/// The seeds from which the treasury of the sale of `token_mint` is derived.
pub open spec fn treasury_seeds(token_mint: Seq<u8>) -> Seq<Seq<u8>> {
    seq![prefix_seed(), token_mint, treasury_seed()]
}

/// A histogram of valid parameters with a bucket for each tick, in order.
pub open spec fn histogram_shape(d: FairLaunchData, h: Seq<MedianTuple>) -> bool {
    &&& h.len() == d.tick_count_spec()
    &&& forall|i: int| 0 <= i < h.len() ==> (#[trigger] h[i]).0 == d.tick_price(i)
}

/// The first reason, in order of checking, that a sale cannot be created.
pub open spec fn initialize_error(
    program_id: Key,
    token_program_id: Key,
    token_mint: AccountState,
    treasury: AccountState,
    treasury_mint: Option<AccountState>,
    data: FairLaunchData,
) -> Option<ErrorCode> {
    if data_error(data) is Some {
        data_error(data)
    } else if token_mint.owner@ != token_program_id@ {
        Some(ErrorCode::IncorrectOwner)
    } else if program_address(treasury_seeds(token_mint.key@), program_id@) != Some(treasury.key@) {
        Some(ErrorCode::DerivedKeyInvalid)
    } else {
        match treasury_mint {
            Some(m) => if !m.is_initialized {
                Some(ErrorCode::Uninitialized)
            } else if m.owner@ != token_program_id@ {
                Some(ErrorCode::IncorrectOwner)
            } else {
                None
            },
            None => if !treasury.data_is_empty || treasury.lamports > 0 {
                Some(ErrorCode::TreasuryAlreadyExists)
            } else {
                None
            },
        }
    }
}

pub open spec fn in_phase_one(d: FairLaunchData, now: UnixTimestamp) -> bool {
    d.phase_one_start <= now < d.phase_one_end
}

pub open spec fn in_phase_two(d: FairLaunchData, now: UnixTimestamp) -> bool {
    d.phase_one_end <= now < d.phase_two_end
}

/// Phase three runs from its start, once set, up to its end, if set.
pub open spec fn in_phase_three(d: FairLaunchData, now: UnixTimestamp) -> bool {
    &&& d.phase_three_start matches Some(s) && s <= now
    &&& d.phase_three_end matches Some(e) ==> now < e
}

impl FairLaunch {
    /// The sale's invariant: valid parameters, one bucket per tick, as many
    /// bids in the histogram as tickets sold, and a clearing price on the grid.
    pub open spec fn wf(&self) -> bool {
        &&& data_valid(self.data)
        &&& histogram_shape(self.data, self.median@)
        &&& histogram_total(self.median@) == self.number_tickets_sold_in_phase_1
        &&& self.decided_median matches Some(m) ==> self.data.is_tick(m)
    }

    /// Everything but the counters, the histogram and the clearing price.
    pub open spec fn same_setup(&self, other: &FairLaunch) -> bool {
        &&& self.token_mint == other.token_mint
        &&& self.treasury == other.treasury
        &&& self.treasury_mint == other.treasury_mint
        &&& self.authority == other.authority
        &&& self.bump == other.bump
        &&& self.treasury_bump == other.treasury_bump
        &&& self.token_mint_bump == other.token_mint_bump
        &&& self.data == other.data
    }

    /// Same setup, counters, histogram and clearing price.
    pub open spec fn same_state(&self, other: &FairLaunch) -> bool {
        &&& self.same_setup(other)
        &&& self.number_tickets_sold_in_phase_1 == other.number_tickets_sold_in_phase_1
        &&& self.number_tickets_remaining_in_phase_2 == other.number_tickets_remaining_in_phase_2
        &&& self.number_tickets_punched_in_phase_3 == other.number_tickets_punched_in_phase_3
        &&& self.decided_median == other.decided_median
        &&& self.median@ == other.median@
    }

    /// Bids at or above the clearing price, once it is decided.
    pub open spec fn eligible_count(&self) -> int {
        match self.decided_median {
            Some(m) => sum_from(
                self.median@,
                (m - self.data.price_range_start) / (self.data.tick_size as int),
            ),
            None => 0,
        }
    }
}

impl FairLaunch {
    /// Whether the sale satisfies its invariant.
    #[verifier::loop_isolation(false)]
    pub fn is_wf(&self) -> (r: bool)
        ensures
            r == self.wf(),
    {
        if assert_data_valid(&self.data).is_err() {
            return false;
        }
        let d = &self.data;
        let n = self.median.len();
        if n as u64 != d.tick_count() {
            return false;
        }
        let ghost h = self.median@;
        let mut i: usize = 0;
        let mut price: u64 = d.price_range_start;
        while i < n
            invariant
                h == self.median@,
                n == h.len(),
                n == d.tick_count_spec(),
                data_valid(*d),
                i <= n,
                i < n ==> price == d.tick_price(i as int),
                forall|j: int| 0 <= j < i ==> (#[trigger] h[j]).0 == d.tick_price(j),
            decreases n - i,
        {
            if self.median[i].0 != price {
                return false;
            }
            i = i + 1;
            if i < n {
                proof {
                    lemma_tick_price_is_tick(*d, i as int);
                    let t = d.tick_size as int;
                    assert(d.tick_price(i as int) == price + t) by (nonlinear_arith)
                        requires
                            price == d.tick_price(i - 1),
                            t == d.tick_size,
                    ;
                }
                price = price + d.tick_size;
            }
        }
        let sold = self.number_tickets_sold_in_phase_1;
        let mut i: usize = n;
        let mut cum: u64 = 0;
        while i > 0
            invariant
                h == self.median@,
                n == h.len(),
                i <= n,
                cum == sum_from(h, i as int),
                cum <= sold,
            decreases i,
        {
            i = i - 1;
            if self.median[i].1 > sold - cum {
                proof {
                    lemma_sum_from_monotone(h, 0, i as int);
                }
                return false;
            }
            cum = cum + self.median[i].1;
        }
        if cum != sold {
            return false;
        }
        match self.decided_median {
            Some(m) => d.is_valid_amount(m),
            None => true,
        }
    }
}

/// A histogram with an empty bucket for each tick of valid parameters.
fn empty_histogram(data: &FairLaunchData) -> (h: Vec<MedianTuple>)
    requires
        data_valid(*data),
    ensures
        histogram_shape(*data, h@),
        forall|i: int| 0 <= i < h@.len() ==> (#[trigger] h@[i]).1 == 0,
        histogram_total(h@) == 0,
{
    let n = data.tick_count();
    let mut h: Vec<MedianTuple> = Vec::new();
    let mut i: u64 = 0;
    let mut price: u64 = data.price_range_start;
    while i < n
        invariant
            data_valid(*data),
            n == data.tick_count_spec(),
            i <= n,
            h@.len() == i,
            i < n ==> price == data.tick_price(i as int),
            forall|j: int| 0 <= j < i ==> (#[trigger] h@[j]).0 == data.tick_price(j),
            forall|j: int| 0 <= j < i ==> (#[trigger] h@[j]).1 == 0,
        decreases n - i,
    {
        h.push(MedianTuple(price, 0));
        i = i + 1;
        if i < n {
            proof {
                let t = data.tick_size as int;
                let r = (data.price_range_end - data.price_range_start) as int;
                vstd::arithmetic::div_mod::lemma_fundamental_div_mod(r, t);
                vstd::arithmetic::mul::lemma_mul_inequality(i as int, r / t, t);
                assert(t * (r / t) == (r / t) * t) by (nonlinear_arith);
                assert(data.tick_price(i as int) == price + t) by (nonlinear_arith)
                    requires
                        price == data.tick_price(i - 1),
                        t == data.tick_size,
                ;
            }
            price = price + data.tick_size;
        }
    }
    proof {
        assert forall|j: int| 0 <= j <= h@.len() implies sum_from(h@, j) == 0 by {
            lemma_sum_zero(h@, j);
        }
    }
    h
}

proof fn lemma_sum_zero(h: Seq<MedianTuple>, j: int)
    requires
        0 <= j,
        forall|i: int| 0 <= i < h.len() ==> (#[trigger] h[i]).1 == 0,
    ensures
        sum_from(h, j) == 0,
    decreases h.len() - j,
{
    if j < h.len() {
        lemma_sum_zero(h, j + 1);
    }
}

/// Creates a sale, after checking its parameters, the sale token's owner and
/// the treasury. With an alternate currency the treasury is an account of that
/// currency; without one it must not exist yet.
pub fn initialize_fair_launch(
    program_id: Key,
    token_program_id: Key,
    authority: Key,
    token_mint: &AccountState,
    treasury: &AccountState,
    treasury_mint: Option<&AccountState>,
    bump: u8,
    treasury_bump: u8,
    token_mint_bump: u8,
    data: FairLaunchData,
) -> (r: Result<FairLaunch, ErrorCode>)
    ensures
        match initialize_error(
            program_id,
            token_program_id,
            *token_mint,
            *treasury,
            match treasury_mint {
                Some(m) => Some(*m),
                None => None,
            },
            data,
        ) {
            Some(e) => r == Err::<FairLaunch, ErrorCode>(e),
            None => r matches Ok(f) && {
                &&& f.wf()
                &&& f.data == data
                &&& f.token_mint == token_mint.key
                &&& f.treasury == treasury.key
                &&& f.treasury_mint == (match treasury_mint {
                    Some(m) => Some(m.key),
                    None => None,
                })
                &&& f.authority == authority
                &&& f.bump == bump
                &&& f.treasury_bump == treasury_bump
                &&& f.token_mint_bump == token_mint_bump
                &&& f.number_tickets_sold_in_phase_1 == 0
                &&& f.number_tickets_remaining_in_phase_2 == 0
                &&& f.number_tickets_punched_in_phase_3 == 0
                &&& f.decided_median is None
                &&& forall|i: int| 0 <= i < f.median@.len() ==> (#[trigger] f.median@[i]).1 == 0
            },
        },
{
    match assert_data_valid(&data) {
        Err(e) => return Err(e),
        Ok(()) => {},
    }
    if !same_key(&token_mint.owner, &token_program_id) {
        return Err(ErrorCode::IncorrectOwner);
    }
    let prefix: Vec<u8> = vec![102u8, 97, 105, 114, 95, 108, 97, 117, 110, 99, 104];
    let mint_bytes = key_bytes(&token_mint.key);
    let suffix: Vec<u8> = vec![116u8, 114, 101, 97, 115, 117, 114, 121];
    proof {
        assert(prefix@ =~= prefix_seed());
        assert(suffix@ =~= treasury_seed());
    }
    let seeds: Vec<Vec<u8>> = vec![prefix, mint_bytes, suffix];
    proof {
        assert(seeds.deep_view()[0] =~= prefix_seed());
        assert(seeds.deep_view()[1] =~= token_mint.key@);
        assert(seeds.deep_view()[2] =~= treasury_seed());
        assert(seeds.deep_view() =~= treasury_seeds(token_mint.key@));
    }
    match find_program_address(&seeds, &program_id) {
        Some(k) => {
            if !same_key(&k, &treasury.key) {
                return Err(ErrorCode::DerivedKeyInvalid);
            }
        },
        None => return Err(ErrorCode::DerivedKeyInvalid),
    }
    let mint_key = match treasury_mint {
        Some(m) => {
            if !m.is_initialized {
                return Err(ErrorCode::Uninitialized);
            }
            if !same_key(&m.owner, &token_program_id) {
                return Err(ErrorCode::IncorrectOwner);
            }
            Some(m.key)
        },
        None => {
            if !treasury.data_is_empty || treasury.lamports > 0 {
                return Err(ErrorCode::TreasuryAlreadyExists);
            }
            None
        },
    };
    let median = empty_histogram(&data);
    Ok(FairLaunch {
        token_mint: token_mint.key,
        treasury: treasury.key,
        treasury_mint: mint_key,
        authority,
        bump,
        treasury_bump,
        token_mint_bump,
        data,
        number_tickets_sold_in_phase_1: 0,
        number_tickets_remaining_in_phase_2: 0,
        number_tickets_punched_in_phase_3: 0,
        decided_median: None,
        median,
    })
}

/// Bids at the clearing price beyond the supply: the number of tickets there
/// that the lottery turns away.
pub open spec fn oversubscription(at_or_above: int, tokens: int) -> int {
    if at_or_above > tokens {
        at_or_above - tokens
    } else {
        0
    }
}

/// Decides the clearing price once phase one has closed and before phase two
/// closes: walking the histogram from the highest tick down, it is the first
/// tick at which the bids counted reach the supply, or the lowest tick when
/// they never do. It is set once; a second attempt fails.
pub fn decide_median(fl: &mut FairLaunch, now: UnixTimestamp) -> (r: Result<u64, ErrorCode>)
    requires
        old(fl).wf(),
    ensures
        final(fl).wf(),
        final(fl).same_setup(old(fl)),
        final(fl).number_tickets_sold_in_phase_1 == old(fl).number_tickets_sold_in_phase_1,
        final(fl).number_tickets_punched_in_phase_3 == old(fl).number_tickets_punched_in_phase_3,
        final(fl).median@ == old(fl).median@,
        old(fl).decided_median is Some ==> r == Err::<u64, ErrorCode>(ErrorCode::MedianAlreadyDecided)
            && final(fl).same_state(old(fl)),
        old(fl).decided_median is None && !(old(fl).data.phase_one_end <= now
            < old(fl).data.phase_two_end) ==> r == Err::<u64, ErrorCode>(ErrorCode::WrongPhase)
            && final(fl).same_state(old(fl)),
        old(fl).decided_median is None && old(fl).data.phase_one_end <= now
            < old(fl).data.phase_two_end ==> (r matches Ok(m) && final(fl).decided_median == Some(m)
            && exists|i: int|
            {
                &&& is_clearing_index(old(fl).median@, old(fl).data.number_of_tokens as int, i)
                &&& m == old(fl).median@[i].0
                &&& final(fl).number_tickets_remaining_in_phase_2 == oversubscription(
                    sum_from(old(fl).median@, i),
                    old(fl).data.number_of_tokens as int,
                )
            }),
{
    if fl.decided_median.is_some() {
        return Err(ErrorCode::MedianAlreadyDecided);
    }
    if !(fl.data.phase_one_end <= now && now < fl.data.phase_two_end) {
        return Err(ErrorCode::WrongPhase);
    }
    let tokens = fl.data.number_of_tokens;
    let n = fl.median.len();
    let ghost h = fl.median@;
    proof {
        crate::config::lemma_tick_count_bounds(fl.data);
        lemma_sum_from_monotone(h, 0, n - 1);
    }
    let mut i: usize = n - 1;
    let mut cum: u64 = fl.median[i].1;
    while cum < tokens && i > 0
        invariant
            h == fl.median@,
            n == h.len(),
            0 <= i < n,
            cum == sum_from(h, i as int),
            histogram_total(h) <= u64::MAX,
            forall|j: int| i < j < n ==> #[trigger] sum_from(h, j) < tokens,
        decreases i,
    {
        i = i - 1;
        proof {
            lemma_sum_from_monotone(h, 0, i as int);
        }
        cum = cum + fl.median[i].1;
    }
    let m = fl.median[i].0;
    proof {
        assert(is_clearing_index(h, tokens as int, i as int));
    }
    fl.decided_median = Some(m);
    fl.number_tickets_remaining_in_phase_2 = if cum > tokens {
        cum - tokens
    } else {
        0
    };
    proof {
        assert(fl.data.is_tick(m)) by {
            lemma_tick_price_is_tick(fl.data, i as int);
        }
    }
    Ok(m)
}

/// The price of every tick of valid parameters is a tick.
pub proof fn lemma_tick_price_is_tick(d: FairLaunchData, i: int)
    requires
        data_valid(d),
        0 <= i < d.tick_count_spec(),
    ensures
        d.tick_price(i) <= u64::MAX,
        d.is_tick(d.tick_price(i) as u64),
        d.index_of(d.tick_price(i) as u64) == i,
{
    let t = d.tick_size as int;
    let r = (d.price_range_end - d.price_range_start) as int;
    vstd::arithmetic::div_mod::lemma_fundamental_div_mod(r, t);
    vstd::arithmetic::mul::lemma_mul_inequality(i, r / t, t);
    assert(t * (r / t) == (r / t) * t) by (nonlinear_arith);
    vstd::arithmetic::div_mod::lemma_mod_multiples_basic(i, t);
    vstd::arithmetic::div_mod::lemma_div_multiples_vanish(i, t);
    assert(i * t == t * i) by (nonlinear_arith);
}

/// Replaces the parameters of a sale that has not started: the time is
/// before phase one, no ticket is sold and no clearing price decided. The histogram is laid out afresh
/// for the new range.
pub fn update_fair_launch(fl: &mut FairLaunch, data: FairLaunchData, now: UnixTimestamp) -> (r: Result<
    (),
    ErrorCode,
>)
    requires
        old(fl).wf(),
    ensures
        final(fl).wf(),
        final(fl).number_tickets_sold_in_phase_1 == old(fl).number_tickets_sold_in_phase_1,
        final(fl).number_tickets_remaining_in_phase_2 == old(fl).number_tickets_remaining_in_phase_2,
        final(fl).number_tickets_punched_in_phase_3 == old(fl).number_tickets_punched_in_phase_3,
        final(fl).decided_median == old(fl).decided_median,
        final(fl).token_mint == old(fl).token_mint,
        final(fl).treasury == old(fl).treasury,
        final(fl).treasury_mint == old(fl).treasury_mint,
        final(fl).authority == old(fl).authority,
        final(fl).bump == old(fl).bump,
        final(fl).treasury_bump == old(fl).treasury_bump,
        final(fl).token_mint_bump == old(fl).token_mint_bump,
        now >= old(fl).data.phase_one_start || old(fl).number_tickets_sold_in_phase_1 != 0
            || old(fl).decided_median is Some ==> r
            == Err::<(), ErrorCode>(ErrorCode::WrongPhase) && final(fl).same_state(old(fl)),
        now < old(fl).data.phase_one_start && old(fl).number_tickets_sold_in_phase_1 == 0
            && old(fl).decided_median is None ==> (
        match data_error(data) {
            Some(e) => r == Err::<(), ErrorCode>(e) && final(fl).same_state(old(fl)),
            None => {
                &&& r == Ok::<(), ErrorCode>(())
                &&& final(fl).data == data
                &&& forall|i: int|
                    0 <= i < final(fl).median@.len() ==> (#[trigger] final(fl).median@[i]).1 == 0
            },
        }),
{
    if now >= fl.data.phase_one_start || fl.number_tickets_sold_in_phase_1 != 0
        || fl.decided_median.is_some() {
        return Err(ErrorCode::WrongPhase);
    }
    match assert_data_valid(&data) {
        Err(e) => return Err(e),
        Ok(()) => {},
    }
    let median = empty_histogram(&data);
    fl.median = median;
    fl.data = data;
    Ok(())
}

/// Sets the phase-three window, once, after the lottery bitmap exists. The
/// window must follow phase two and be ordered.
pub fn start_phase_three(
    fl: &mut FairLaunch,
    lottery_bitmap_exists: bool,
    phase_three_start: UnixTimestamp,
    phase_three_end: UnixTimestamp,
) -> (r: Result<(), ErrorCode>)
    requires
        old(fl).wf(),
    ensures
        final(fl).wf(),
        final(fl).number_tickets_sold_in_phase_1 == old(fl).number_tickets_sold_in_phase_1,
        final(fl).number_tickets_remaining_in_phase_2 == old(fl).number_tickets_remaining_in_phase_2,
        final(fl).number_tickets_punched_in_phase_3 == old(fl).number_tickets_punched_in_phase_3,
        final(fl).decided_median == old(fl).decided_median,
        final(fl).median@ == old(fl).median@,
        !lottery_bitmap_exists ==> r == Err::<(), ErrorCode>(ErrorCode::CantSetPhaseThreeDatesYet)
            && final(fl).same_state(old(fl)),
        lottery_bitmap_exists && old(fl).data.phase_three_start is Some ==> r == Err::<
            (),
            ErrorCode,
        >(ErrorCode::PhaseThreeAlreadySet) && final(fl).same_state(old(fl)),
        lottery_bitmap_exists && old(fl).data.phase_three_start is None && !(phase_three_start
            > old(fl).data.phase_two_end && phase_three_start < phase_three_end) ==> r == Err::<
            (),
            ErrorCode,
        >(ErrorCode::TimestampsDontLineUp) && final(fl).same_state(old(fl)),
        lottery_bitmap_exists && old(fl).data.phase_three_start is None && phase_three_start
            > old(fl).data.phase_two_end && phase_three_start < phase_three_end ==> {
            &&& r == Ok::<(), ErrorCode>(())
            &&& final(fl).data == (FairLaunchData {
                phase_three_start: Some(phase_three_start),
                phase_three_end: Some(phase_three_end),
                ..old(fl).data
            })
        },
{
    if !lottery_bitmap_exists {
        return Err(ErrorCode::CantSetPhaseThreeDatesYet);
    }
    if fl.data.phase_three_start.is_some() {
        return Err(ErrorCode::PhaseThreeAlreadySet);
    }
    if !(phase_three_start > fl.data.phase_two_end && phase_three_start < phase_three_end) {
        return Err(ErrorCode::TimestampsDontLineUp);
    }
    fl.data.phase_three_start = Some(phase_three_start);
    fl.data.phase_three_end = Some(phase_three_end);
    Ok(())
}

} // verus!
