use vstd::prelude::*;
use crate::Key;
use crate::address::same_key;
use crate::config::UnixTimestamp;
use crate::error::ErrorCode;
use crate::histogram::{histogram_total, lemma_sum_from_monotone, sum_from};
use crate::sale::{in_phase_three, FairLaunch};
use crate::ticket::{FairLaunchTicket, FairLaunchTicketState};

verus! {

/// Bytes of a stored bitmap before its bits.
pub const FAIR_LAUNCH_LOTTERY_SIZE: usize = 45;

/// Bytes of a stored bitmap for `sold` tickets, if the size fits in `usize`.
pub fn lottery_bitmap_space(sold: u64) -> (r: Option<usize>)
    ensures
        FAIR_LAUNCH_LOTTERY_SIZE + bitmap_bytes(sold) <= usize::MAX ==> r == Some(
            (FAIR_LAUNCH_LOTTERY_SIZE + bitmap_bytes(sold)) as usize,
        ),
        FAIR_LAUNCH_LOTTERY_SIZE + bitmap_bytes(sold) > usize::MAX ==> r is None,
{
    let bytes: u64 = sold / 8 + if sold % 8 == 0 {
        0
    } else {
        1
    };
    if bytes > (usize::MAX - FAIR_LAUNCH_LOTTERY_SIZE) as u64 {
        return None;
    }
    Some(FAIR_LAUNCH_LOTTERY_SIZE + bytes as usize)
}

/// The winners of a sale, one bit per ticket in the order of sale.
#[derive(Clone, Debug)]
pub struct FairLaunchLotteryBitmap {
    pub fair_launch: Key,
    pub bump: u8,
    /// The number of bits set, incremented in each strip.
    pub bitmap_ones: u32,
    pub bitmap: Vec<u8>,
}

/// Whether bit `i` is set, counting from the low bit of the first byte.
pub open spec fn bit_at(bytes: Seq<u8>, i: int) -> bool {
    (bytes[i / 8] >> ((i % 8) as u8)) & 1u8 == 1u8
}

/// Every bit of the bitmap, as winner flags by position.
pub open spec fn winner_flags(bytes: Seq<u8>) -> Seq<bool> {
    Seq::new(8 * bytes.len(), |i: int| bit_at(bytes, i))
}

/// Number of flags that are set.
pub open spec fn count_true(s: Seq<bool>) -> nat
    decreases s.len(),
{
    if s.len() == 0 {
        0
    } else {
        count_true(s.drop_last()) + if s.last() {
            1nat
        } else {
            0nat
        }
    }
}

/// The flags once every position in `seqs` is set as well.
pub open spec fn with_strip(flags: Seq<bool>, seqs: Seq<u64>) -> Seq<bool> {
    Seq::new(flags.len(), |i: int| flags[i] || in_strip(seqs, i))
}

/// Whether position `i` is one of `seqs`.
pub open spec fn in_strip(seqs: Seq<u64>, i: int) -> bool {
    exists|w: int| 0 <= w < seqs.len() && seqs[w] == i
}

/// Number of bytes that hold one bit per ticket sold.
pub open spec fn bitmap_bytes(sold: u64) -> int {
    (sold + 7) / 8
}

impl FairLaunchLotteryBitmap {
    /// The count of winners is the number of bits set.
    pub open spec fn wf(&self) -> bool {
        self.bitmap_ones == count_true(winner_flags(self.bitmap@))
    }

    pub open spec fn flags(&self) -> Seq<bool> {
        winner_flags(self.bitmap@)
    }
}

proof fn lemma_or_bit(b: u8, k: u8, j: u8)
    requires
        k < 8,
        j < 8,
    ensures
        j == k ==> ((b | (1u8 << k)) >> j) & 1u8 == 1u8,
        j != k ==> ((b | (1u8 << k)) >> j) & 1u8 == (b >> j) & 1u8,
{
    assert(j == k ==> ((b | (1u8 << k)) >> j) & 1u8 == 1u8) by (bit_vector)
        requires
            k < 8u8,
            j < 8u8,
    ;
    assert(j != k ==> ((b | (1u8 << k)) >> j) & 1u8 == (b >> j) & 1u8) by (bit_vector)
        requires
            k < 8u8,
            j < 8u8,
    ;
}

proof fn lemma_zero_bit(j: u8)
    requires
        j < 8,
    ensures
        (0u8 >> j) & 1u8 == 0u8,
{
    assert((0u8 >> j) & 1u8 == 0u8) by (bit_vector);
}

/// Setting a flag that was clear adds one to the count; setting one that was
/// set changes nothing.
pub proof fn lemma_count_set(s: Seq<bool>, k: int)
    requires
        0 <= k < s.len(),
    ensures
        count_true(s.update(k, true)) == count_true(s) + if s[k] {
            0nat
        } else {
            1nat
        },
    decreases s.len(),
{
    let t = s.update(k, true);
    if k == s.len() - 1 {
        assert(t.drop_last() =~= s.drop_last());
    } else {
        assert(t.drop_last() =~= s.drop_last().update(k, true));
        lemma_count_set(s.drop_last(), k);
    }
}

proof fn lemma_count_all_clear(s: Seq<bool>)
    requires
        forall|i: int| 0 <= i < s.len() ==> !s[i],
    ensures
        count_true(s) == 0,
    decreases s.len(),
{
    if s.len() > 0 {
        lemma_count_all_clear(s.drop_last());
    }
}

/// Sets bit `i`.
fn set_bit(bytes: &mut Vec<u8>, i: u64)
    requires
        i < 8 * old(bytes)@.len(),
    ensures
        final(bytes)@.len() == old(bytes)@.len(),
        winner_flags(final(bytes)@) == winner_flags(old(bytes)@).update(i as int, true),
{
    let len = bytes.len();
    assert(i / 8 < len);
    let k = (i / 8) as usize;
    let off = (i % 8) as u8;
    let b = bytes[k];
    bytes.set(k, b | (1u8 << off));
    proof {
        let o = old(bytes)@;
        let n = bytes@;
        assert forall|j: int| 0 <= j < 8 * n.len() implies #[trigger] bit_at(n, j) == (if j == i {
            true
        } else {
            bit_at(o, j)
        }) by {
            assert(k as int == i / 8 && off as int == i % 8);
            if j / 8 == k as int {
                vstd::arithmetic::div_mod::lemma_fundamental_div_mod(j, 8);
                vstd::arithmetic::div_mod::lemma_fundamental_div_mod(i as int, 8);
                lemma_or_bit(b, off, (j % 8) as u8);
                assert(n[j / 8] == b | (1u8 << off));
            } else {
                assert(n[j / 8] == o[j / 8]);
            }
        }
        assert(winner_flags(n) =~= winner_flags(o).update(i as int, true));
    }
}

/// Whether bit `i` is set.
fn get_bit(bytes: &Vec<u8>, i: u64) -> (r: bool)
    requires
        i < 8 * bytes@.len(),
    ensures
        r == bit_at(bytes@, i as int),
{
    let len = bytes.len();
    assert(i / 8 < len);
    let k = (i / 8) as usize;
    let off = (i % 8) as u8;
    (bytes[k] >> off) & 1u8 == 1u8
}

/// Creates the empty bitmap of a sale once phase one has ended, with one bit
/// for each ticket sold.
pub fn create_fair_launch_lottery_bitmap(
    fl: &FairLaunch,
    fair_launch_key: Key,
    bump: u8,
    now: UnixTimestamp,
) -> (r: Result<FairLaunchLotteryBitmap, ErrorCode>)
    ensures
        now < fl.data.phase_one_end ==> r == Err::<FairLaunchLotteryBitmap, ErrorCode>(
            ErrorCode::WrongPhase,
        ),
        now >= fl.data.phase_one_end && bitmap_bytes(fl.number_tickets_sold_in_phase_1)
            > usize::MAX ==> r == Err::<FairLaunchLotteryBitmap, ErrorCode>(
            ErrorCode::NumericalOverflowError,
        ),
        now >= fl.data.phase_one_end && bitmap_bytes(fl.number_tickets_sold_in_phase_1)
            <= usize::MAX ==> (r matches Ok(b) && {
            &&& b.wf()
            &&& b.fair_launch == fair_launch_key
            &&& b.bump == bump
            &&& b.bitmap_ones == 0
            &&& b.bitmap@.len() == bitmap_bytes(fl.number_tickets_sold_in_phase_1)
            &&& forall|i: int| 0 <= i < b.flags().len() ==> !(#[trigger] b.flags()[i])
        }),
{
    if now < fl.data.phase_one_end {
        return Err(ErrorCode::WrongPhase);
    }
    let sold = fl.number_tickets_sold_in_phase_1;
    let len: u64 = sold / 8 + if sold % 8 == 0 {
        0
    } else {
        1
    };
    assert(len == bitmap_bytes(sold));
    if len > usize::MAX as u64 {
        return Err(ErrorCode::NumericalOverflowError);
    }
    let len = len as usize;
    let mut bitmap: Vec<u8> = Vec::new();
    let mut i: usize = 0;
    while i < len
        invariant
            i <= len,
            bitmap@.len() == i,
            forall|j: int| 0 <= j < i ==> bitmap@[j] == 0u8,
        decreases len - i,
    {
        bitmap.push(0u8);
        i += 1;
    }
    proof {
        let f = winner_flags(bitmap@);
        assert forall|j: int| 0 <= j < f.len() implies !(#[trigger] f[j]) by {
            lemma_zero_bit((j % 8) as u8);
        }
        lemma_count_all_clear(f);
    }
    Ok(FairLaunchLotteryBitmap { fair_launch: fair_launch_key, bump, bitmap_ones: 0, bitmap })
}

/// Flags set in `a` are set in `b` too.
pub open spec fn flags_within(a: Seq<bool>, b: Seq<bool>) -> bool {
    &&& a.len() == b.len()
    &&& forall|i: int| 0 <= i < a.len() && #[trigger] a[i] ==> b[i]
}

/// More flags set, no smaller a count.
pub proof fn lemma_count_within(a: Seq<bool>, b: Seq<bool>)
    requires
        flags_within(a, b),
    ensures
        count_true(a) <= count_true(b),
    decreases a.len(),
{
    if a.len() > 0 {
        lemma_count_within(a.drop_last(), b.drop_last());
    }
}

proof fn lemma_strip_step(f: Seq<bool>, seqs: Seq<u64>, j: int)
    requires
        0 <= j < seqs.len(),
        seqs[j] < f.len(),
    ensures
        with_strip(f, seqs.subrange(0, j + 1)) =~= with_strip(f, seqs.subrange(0, j)).update(
            seqs[j] as int,
            true,
        ),
{
    let a = seqs.subrange(0, j);
    let b = seqs.subrange(0, j + 1);
    assert forall|i: int| 0 <= i < f.len() implies #[trigger] in_strip(b, i) == (in_strip(a, i)
        || i == seqs[j]) by {
        if in_strip(b, i) {
            let w = choose|w: int| 0 <= w < b.len() && b[w] == i;
            if w < j {
                assert(a[w] == i);
            }
        }
        if in_strip(a, i) {
            let w = choose|w: int| 0 <= w < a.len() && a[w] == i;
            assert(b[w] == i);
        }
        if i == seqs[j] {
            assert(b[j] == i);
        }
    }
}

/// Whether every position of a strip addresses a ticket sold and a bit of the bitmap.
pub open spec fn strip_in_range(
    bm: FairLaunchLotteryBitmap,
    fl: FairLaunch,
    seqs: Seq<u64>,
) -> bool {
    forall|j: int|
        0 <= j < seqs.len() ==> #[trigger] seqs[j] < fl.number_tickets_sold_in_phase_1 && seqs[j]
            < 8 * bm.bitmap@.len()
}

/// The first reason, in order of checking, that a strip fails.
pub open spec fn strip_error(
    bm: FairLaunchLotteryBitmap,
    fl: FairLaunch,
    fair_launch_key: Key,
    seqs: Seq<u64>,
    now: UnixTimestamp,
) -> Option<ErrorCode> {
    if bm.fair_launch@ != fair_launch_key@ {
        Some(ErrorCode::AccountMismatch)
    } else if fl.decided_median is None {
        Some(ErrorCode::MedianNotDecided)
    } else if now < fl.data.phase_two_end {
        Some(ErrorCode::WrongPhase)
    } else if !strip_in_range(bm, fl, seqs) {
        Some(ErrorCode::SequenceOutOfRange)
    } else if count_true(with_strip(bm.flags(), seqs)) > fl.data.number_of_tokens || count_true(
        with_strip(bm.flags(), seqs),
    ) > u32::MAX {
        Some(ErrorCode::NumericalOverflowError)
    } else {
        None
    }
}

/// Adds a strip of winners, by their positions in the order of sale, once
/// phase two has ended and the clearing price is decided. The count of
/// winners never goes past the supply: a strip that would take it there fails
/// and changes nothing.
pub fn update_fair_launch_lottery_bitmap(
    bitmap: &mut FairLaunchLotteryBitmap,
    fl: &FairLaunch,
    fair_launch_key: Key,
    seqs: &Vec<u64>,
    now: UnixTimestamp,
) -> (r: Result<(), ErrorCode>)
    requires
        old(bitmap).wf(),
    ensures
        final(bitmap).wf(),
        final(bitmap).fair_launch == old(bitmap).fair_launch,
        final(bitmap).bump == old(bitmap).bump,
        final(bitmap).bitmap@.len() == old(bitmap).bitmap@.len(),
        final(bitmap).bitmap_ones >= old(bitmap).bitmap_ones,
        flags_within(old(bitmap).flags(), final(bitmap).flags()),
        match strip_error(*old(bitmap), *fl, fair_launch_key, seqs@, now) {
            Some(e) => r == Err::<(), ErrorCode>(e) && final(bitmap).bitmap@ == old(
                bitmap,
            ).bitmap@ && final(bitmap).bitmap_ones == old(bitmap).bitmap_ones,
            None => {
                &&& r == Ok::<(), ErrorCode>(())
                &&& final(bitmap).flags() == with_strip(old(bitmap).flags(), seqs@)
                &&& final(bitmap).bitmap_ones <= fl.data.number_of_tokens
            },
        },
{
    let ghost f0 = bitmap.flags();
    proof {
        assert(flags_within(f0, f0));
        assert(with_strip(f0, seqs@.subrange(0, 0)) =~= f0);
    }
    if !same_key(&bitmap.fair_launch, &fair_launch_key) {
        return Err(ErrorCode::AccountMismatch);
    }
    if fl.decided_median.is_none() {
        return Err(ErrorCode::MedianNotDecided);
    }
    if now < fl.data.phase_two_end {
        return Err(ErrorCode::WrongPhase);
    }
    let sold = fl.number_tickets_sold_in_phase_1;
    let n = seqs.len();
    let mut j: usize = 0;
    while j < n
        invariant
            n == seqs@.len(),
            j <= n,
            sold == fl.number_tickets_sold_in_phase_1,
            bitmap.bitmap@ == old(bitmap).bitmap@,
            bitmap.bitmap_ones == old(bitmap).bitmap_ones,
            bitmap.fair_launch == old(bitmap).fair_launch,
            bitmap.bump == old(bitmap).bump,
            old(bitmap).fair_launch@ == fair_launch_key@,
            fl.decided_median is Some,
            now >= fl.data.phase_two_end,
            bitmap.wf(),
            forall|w: int|
                0 <= w < j ==> #[trigger] seqs@[w] < sold && seqs@[w] < 8 * bitmap.bitmap@.len(),
        decreases n - j,
    {
        let s = seqs[j];
        if s >= sold || s / 8 >= bitmap.bitmap.len() as u64 {
            proof {
                assert(!(seqs@[j as int] < sold && seqs@[j as int] < 8 * bitmap.bitmap@.len()));
            }
            return Err(ErrorCode::SequenceOutOfRange);
        }
        j += 1;
    }
    let tokens = fl.data.number_of_tokens;
    let mut bits = bitmap.bitmap.clone();
    proof {
        assert(bits@ =~= bitmap.bitmap@);
    }
    let mut count: u64 = bitmap.bitmap_ones as u64;
    if count > tokens {
        proof {
            assert forall|i: int| 0 <= i < f0.len() && #[trigger] f0[i] implies with_strip(
                f0,
                seqs@,
            )[i] by {}
            lemma_count_within(f0, with_strip(f0, seqs@));
        }
        return Err(ErrorCode::NumericalOverflowError);
    }
    let mut j: usize = 0;
    while j < n
        invariant
            n == seqs@.len(),
            j <= n,
            f0 == bitmap.flags(),
            bitmap.bitmap@ == old(bitmap).bitmap@,
            bitmap.bitmap_ones == old(bitmap).bitmap_ones,
            bitmap.fair_launch == old(bitmap).fair_launch,
            bitmap.bump == old(bitmap).bump,
            old(bitmap).fair_launch@ == fair_launch_key@,
            fl.decided_median is Some,
            now >= fl.data.phase_two_end,
            bitmap.bitmap_ones == count_true(f0),
            strip_in_range(*bitmap, *fl, seqs@),
            bits@.len() == bitmap.bitmap@.len(),
            winner_flags(bits@) == with_strip(f0, seqs@.subrange(0, j as int)),
            count == count_true(winner_flags(bits@)),
            count <= tokens,
            count <= u32::MAX,
            tokens == fl.data.number_of_tokens,
        decreases n - j,
    {
        let s = seqs[j];
        proof {
            lemma_strip_step(f0, seqs@, j as int);
        }
        if !get_bit(&bits, s) {
            if count >= tokens || count >= u32::MAX as u64 {
                proof {
                    let now_flags = winner_flags(bits@).update(s as int, true);
                    lemma_count_set(winner_flags(bits@), s as int);
                    let all = with_strip(f0, seqs@);
                    assert forall|i: int| 0 <= i < now_flags.len() && #[trigger] now_flags[i]
                        implies all[i] by {
                        if i != s {
                            if !f0[i] {
                                let w = choose|w: int|
                                    0 <= w < j && seqs@.subrange(0, j as int)[w] == i;
                                assert(seqs@[w] == i);
                            }
                        } else {
                            assert(seqs@[j as int] == i);
                        }
                    }
                    lemma_count_within(now_flags, all);
                }
                return Err(ErrorCode::NumericalOverflowError);
            }
            proof {
                lemma_count_set(winner_flags(bits@), s as int);
            }
            set_bit(&mut bits, s);
            count = count + 1;
        } else {
            proof {
                assert(winner_flags(bits@).update(s as int, true) =~= winner_flags(bits@));
            }
        }
        j += 1;
    }
    proof {
        assert(seqs@.subrange(0, n as int) =~= seqs@);
        assert forall|i: int| 0 <= i < f0.len() && #[trigger] f0[i] implies winner_flags(bits@)[i] by {}
        lemma_count_within(f0, winner_flags(bits@));
    }
    bitmap.bitmap = bits;
    bitmap.bitmap_ones = count as u32;
    Ok(())
}

/// What a punched ticket gets: the sale token, or its bid back.
#[derive(Clone, Copy, Debug, PartialEq, Eq, Structural)]
pub enum PunchOutcome {
    Claim,
    Refund(u64),
}

/// The first reason, in order of checking, that a punch fails.
pub open spec fn punch_error(
    fl: FairLaunch,
    ticket: FairLaunchTicket,
    bm: FairLaunchLotteryBitmap,
    fair_launch_key: Key,
    now: UnixTimestamp,
) -> Option<ErrorCode> {
    if ticket.fair_launch@ != fair_launch_key@ || bm.fair_launch@ != fair_launch_key@ {
        Some(ErrorCode::AccountMismatch)
    } else if ticket.state != FairLaunchTicketState::Unpunched {
        Some(ErrorCode::TicketAlreadyPunched)
    } else if !in_phase_three(fl.data, now) {
        Some(ErrorCode::WrongPhase)
    } else if ticket.seq >= 8 * bm.bitmap@.len() {
        Some(ErrorCode::SequenceOutOfRange)
    } else if bm.flags()[ticket.seq as int] && fl.number_tickets_punched_in_phase_3 == u64::MAX {
        Some(ErrorCode::NumericalOverflowError)
    } else {
        None
    }
}

/// Settles a ticket in phase three by its bit in the bitmap: a winner claims
/// the sale token and is counted as punched; any other ticket is withdrawn
/// and gets its whole bid back. Either way the ticket is settled for good.
pub fn punch_ticket(
    fl: &mut FairLaunch,
    ticket: &mut FairLaunchTicket,
    bitmap: &FairLaunchLotteryBitmap,
    fair_launch_key: Key,
    now: UnixTimestamp,
) -> (r: Result<PunchOutcome, ErrorCode>)
    requires
        old(fl).wf(),
    ensures
        final(fl).wf(),
        final(fl).same_setup(old(fl)),
        final(fl).number_tickets_sold_in_phase_1 == old(fl).number_tickets_sold_in_phase_1,
        final(fl).number_tickets_remaining_in_phase_2 == old(fl).number_tickets_remaining_in_phase_2,
        final(fl).decided_median == old(fl).decided_median,
        final(fl).median@ == old(fl).median@,
        match punch_error(*old(fl), *old(ticket), *bitmap, fair_launch_key, now) {
            Some(e) => r == Err::<PunchOutcome, ErrorCode>(e) && *final(ticket) == *old(ticket)
                && final(fl).number_tickets_punched_in_phase_3
                == old(fl).number_tickets_punched_in_phase_3,
            None => if bitmap.flags()[old(ticket).seq as int] {
                &&& r == Ok::<PunchOutcome, ErrorCode>(PunchOutcome::Claim)
                &&& *final(ticket) == (FairLaunchTicket {
                    state: FairLaunchTicketState::Punched,
                    ..*old(ticket)
                })
                &&& final(fl).number_tickets_punched_in_phase_3
                    == old(fl).number_tickets_punched_in_phase_3 + 1
            } else {
                &&& r == Ok::<PunchOutcome, ErrorCode>(PunchOutcome::Refund(old(ticket).amount))
                &&& *final(ticket) == (FairLaunchTicket {
                    state: FairLaunchTicketState::Withdrawn,
                    ..*old(ticket)
                })
                &&& final(fl).number_tickets_punched_in_phase_3
                    == old(fl).number_tickets_punched_in_phase_3
            },
        },
{
    if !same_key(&ticket.fair_launch, &fair_launch_key) || !same_key(
        &bitmap.fair_launch,
        &fair_launch_key,
    ) {
        return Err(ErrorCode::AccountMismatch);
    }
    if ticket.state != FairLaunchTicketState::Unpunched {
        return Err(ErrorCode::TicketAlreadyPunched);
    }
    let phase_three = match fl.data.phase_three_start {
        Some(s) => s <= now && match fl.data.phase_three_end {
            Some(e) => now < e,
            None => true,
        },
        None => false,
    };
    if !phase_three {
        return Err(ErrorCode::WrongPhase);
    }
    if ticket.seq / 8 >= bitmap.bitmap.len() as u64 {
        return Err(ErrorCode::SequenceOutOfRange);
    }
    if get_bit(&bitmap.bitmap, ticket.seq) {
        if fl.number_tickets_punched_in_phase_3 == u64::MAX {
            return Err(ErrorCode::NumericalOverflowError);
        }
        fl.number_tickets_punched_in_phase_3 = fl.number_tickets_punched_in_phase_3 + 1;
        ticket.state = FairLaunchTicketState::Punched;
        Ok(PunchOutcome::Claim)
    } else {
        ticket.state = FairLaunchTicketState::Withdrawn;
        Ok(PunchOutcome::Refund(ticket.amount))
    }
}

/// The number of winners the lottery must reach: the supply, or every bid at
/// or above the clearing price when there are fewer.
pub open spec fn winners_due(fl: FairLaunch) -> int {
    let e = fl.eligible_count();
    if e < fl.data.number_of_tokens {
        e
    } else {
        fl.data.number_of_tokens as int
    }
}

/// Whether the bitmap holds exactly as many winners as the lottery must reach.
pub fn lottery_complete(bitmap: &FairLaunchLotteryBitmap, fl: &FairLaunch) -> (r: bool)
    requires
        fl.wf(),
        fl.decided_median is Some,
    ensures
        r == (bitmap.bitmap_ones == winners_due(*fl)),
{
    let m = match fl.decided_median {
        Some(m) => m,
        None => 0,
    };
    let k = fl.data.tick_index(m);
    let n = fl.median.len();
    let ghost h = fl.median@;
    let mut i: usize = n;
    let mut cum: u64 = 0;
    while i > k
        invariant
            h == fl.median@,
            n == h.len(),
            k <= i <= n,
            cum == sum_from(h, i as int),
            histogram_total(h) <= u64::MAX,
        decreases i,
    {
        i = i - 1;
        proof {
            lemma_sum_from_monotone(h, 0, i as int);
        }
        cum = cum + fl.median[i].1;
    }
    let due = if cum < fl.data.number_of_tokens {
        cum
    } else {
        fl.data.number_of_tokens
    };
    bitmap.bitmap_ones as u64 == due
}

} // verus!
