use vstd::prelude::*;
use crate::Key;
use crate::address::same_key;
use crate::config::UnixTimestamp;
use crate::error::ErrorCode;
use crate::histogram::{add_to_bucket, histogram_total, lemma_sum_from_add, lemma_sum_from_monotone, lemma_sum_from_nonneg, sum_from, MedianTuple};
use crate::sale::{in_phase_one, in_phase_three, in_phase_two, FairLaunch};

verus! {

/// Bytes of a stored ticket.
pub const FAIR_LAUNCH_TICKET_SIZE: usize = 82;

/// Bytes of a stored sequence lookup.
pub const FAIR_LAUNCH_TICKET_SEQ_SIZE: usize = 40;

/// Where a ticket is in its life: open, claimed as a winner, or refunded.
#[derive(Clone, Copy, Debug, PartialEq, Eq, Structural)]
pub enum FairLaunchTicketState {
    Unpunched,
    Punched,
    Withdrawn,
}

/// A buyer's bid in a sale.
#[derive(Clone, Copy, Debug)]
pub struct FairLaunchTicket {
    pub fair_launch: Key,
    pub buyer: Key,
    pub amount: u64,
    pub state: FairLaunchTicketState,
    pub bump: u8,
    pub seq: u64,
}

/// The ticket sold at a given position in the order of sale.
#[derive(Clone, Copy, Debug)]
pub struct FairLaunchTicketSeqLookup {
    pub fair_launch_ticket: Key,
    pub seq: u64,
}

/// Value that an operation moves between a buyer and the treasury.
#[derive(Clone, Copy, Debug, PartialEq, Eq, Structural)]
pub enum ValueTransfer {
    Nothing,
    BuyerToTreasury(u64),
    TreasuryToBuyer(u64),
}

/// The transfer that moves a bid from `from` to `to`.
pub open spec fn transfer_between(from: u64, to: u64) -> ValueTransfer {
    if to > from {
        ValueTransfer::BuyerToTreasury((to - from) as u64)
    } else if to < from {
        ValueTransfer::TreasuryToBuyer((from - to) as u64)
    } else {
        ValueTransfer::Nothing
    }
}

/// The sale after a bid at `amount` is sold.
pub open spec fn purchased(pre: FairLaunch, post: FairLaunch, amount: u64) -> bool {
    &&& post.same_setup(&pre)
    &&& post.number_tickets_sold_in_phase_1 == pre.number_tickets_sold_in_phase_1 + 1
    &&& post.number_tickets_remaining_in_phase_2 == pre.number_tickets_remaining_in_phase_2
    &&& post.number_tickets_punched_in_phase_3 == pre.number_tickets_punched_in_phase_3
    &&& post.decided_median == pre.decided_median
    &&& post.median@ == add_to_bucket(pre.median@, pre.data.index_of(amount), 1)
}

/// The first reason, in order of checking, that a purchase fails.
pub open spec fn purchase_error(fl: FairLaunch, amount: u64, now: UnixTimestamp) -> Option<ErrorCode> {
    if !in_phase_one(fl.data, now) {
        Some(ErrorCode::WrongPhase)
    } else if !fl.data.is_tick(amount) {
        Some(ErrorCode::InvalidAmount)
    } else if fl.number_tickets_sold_in_phase_1 == u64::MAX {
        Some(ErrorCode::NumericalOverflowError)
    } else {
        None
    }
}

/// A phase-three adjustment from `from` to `to` under the clearing price `m`:
/// a bid above it may come down towards it, any other bid may only come down.
pub open spec fn phase_three_adjustment_allowed(from: u64, to: u64, m: u64) -> bool {
    if from > m {
        m <= to < from
    } else {
        to <= from
    }
}

/// The first reason, in order of checking, that an adjustment fails.
pub open spec fn adjust_error(
    fl: FairLaunch,
    ticket: FairLaunchTicket,
    fair_launch_key: Key,
    amount: u64,
    now: UnixTimestamp,
) -> Option<ErrorCode> {
    if ticket.fair_launch@ != fair_launch_key@ {
        Some(ErrorCode::AccountMismatch)
    } else if ticket.state != FairLaunchTicketState::Unpunched {
        Some(ErrorCode::TicketAlreadyPunched)
    } else if !(in_phase_one(fl.data, now) || in_phase_two(fl.data, now) || in_phase_three(
        fl.data,
        now,
    )) {
        Some(ErrorCode::WrongPhase)
    } else if !fl.data.is_tick(amount) || !fl.data.is_tick(ticket.amount) {
        Some(ErrorCode::InvalidAmount)
    } else if in_phase_three(fl.data, now) && fl.decided_median is None {
        Some(ErrorCode::MedianNotDecided)
    } else if in_phase_three(fl.data, now) && !phase_three_adjustment_allowed(
        ticket.amount,
        amount,
        fl.decided_median->0,
    ) {
        Some(ErrorCode::InvalidAdjustment)
    } else if amount != ticket.amount && fl.median@[fl.data.index_of(ticket.amount)].1 == 0 {
        Some(ErrorCode::NumericalOverflowError)
    } else {
        None
    }
}

/// The histogram after a bid moves from `from` to `to`.
pub open spec fn moved_bid(fl: FairLaunch, from: u64, to: u64) -> Seq<MedianTuple> {
    if from == to {
        fl.median@
    } else {
        add_to_bucket(
            add_to_bucket(fl.median@, fl.data.index_of(from), -1),
            fl.data.index_of(to),
            1,
        )
    }
}

fn add_one(h: &mut Vec<MedianTuple>, k: usize)
    requires
        k < old(h)@.len(),
        old(h)@[k as int].1 < u64::MAX,
    ensures
        final(h)@ == add_to_bucket(old(h)@, k as int, 1),
{
    let b = h[k];
    h.set(k, MedianTuple(b.0, b.1 + 1));
}

fn take_one(h: &mut Vec<MedianTuple>, k: usize)
    requires
        k < old(h)@.len(),
        old(h)@[k as int].1 > 0,
    ensures
        final(h)@ == add_to_bucket(old(h)@, k as int, -1),
{
    let b = h[k];
    h.set(k, MedianTuple(b.0, b.1 - 1));
}

/// Sells a ticket at `amount` to `buyer` during phase one. The ticket takes
/// the next position in the order of sale, and the bid is counted in its
/// bucket. The caller moves `amount` from the buyer to the treasury.
pub fn purchase_ticket(
    fl: &mut FairLaunch,
    fair_launch_key: Key,
    ticket_key: Key,
    buyer: Key,
    bump: u8,
    amount: u64,
    now: UnixTimestamp,
) -> (r: Result<(FairLaunchTicket, FairLaunchTicketSeqLookup), ErrorCode>)
    requires
        old(fl).wf(),
    ensures
        final(fl).wf(),
        match purchase_error(*old(fl), amount, now) {
            Some(e) => r == Err::<(FairLaunchTicket, FairLaunchTicketSeqLookup), ErrorCode>(e)
                && final(fl).same_state(old(fl)),
            None => r matches Ok((t, l)) && {
                &&& t == (FairLaunchTicket {
                    fair_launch: fair_launch_key,
                    buyer,
                    amount,
                    state: FairLaunchTicketState::Unpunched,
                    bump,
                    seq: old(fl).number_tickets_sold_in_phase_1,
                })
                &&& l == (FairLaunchTicketSeqLookup {
                    fair_launch_ticket: ticket_key,
                    seq: old(fl).number_tickets_sold_in_phase_1,
                })
                &&& purchased(*old(fl), *final(fl), amount)
            },
        },
{
    if !(fl.data.phase_one_start <= now && now < fl.data.phase_one_end) {
        return Err(ErrorCode::WrongPhase);
    }
    if !fl.data.is_valid_amount(amount) {
        return Err(ErrorCode::InvalidAmount);
    }
    if fl.number_tickets_sold_in_phase_1 == u64::MAX {
        return Err(ErrorCode::NumericalOverflowError);
    }
    let k = fl.data.tick_index(amount);
    let seq = fl.number_tickets_sold_in_phase_1;
    proof {
        lemma_sum_from_monotone(fl.median@, 0, k as int);
        lemma_sum_from_nonneg(fl.median@, k + 1);
        lemma_sum_from_add(fl.median@, k as int, 1, 0);
    }
    add_one(&mut fl.median, k);
    fl.number_tickets_sold_in_phase_1 = seq + 1;
    proof {
        let h = fl.median@;
        assert forall|i: int| 0 <= i < h.len() implies (#[trigger] h[i]).0 == fl.data.tick_price(i) by {
            assert(h[i].0 == old(fl).median@[i].0);
        }
    }
    let ticket = FairLaunchTicket {
        fair_launch: fair_launch_key,
        buyer,
        amount,
        state: FairLaunchTicketState::Unpunched,
        bump,
        seq,
    };
    let lookup = FairLaunchTicketSeqLookup { fair_launch_ticket: ticket_key, seq };
    Ok((ticket, lookup))
}

/// Moves a ticket's bid to `amount`. In phases one and two any tick of the
/// range will do; in phase three a bid above the clearing price may only come
/// down towards it and any other bid may only come down. The histogram follows
/// the bid, and the result is the value the caller moves to settle the
/// difference.
pub fn adjust_ticket(
    fl: &mut FairLaunch,
    ticket: &mut FairLaunchTicket,
    fair_launch_key: Key,
    amount: u64,
    now: UnixTimestamp,
) -> (r: Result<ValueTransfer, ErrorCode>)
    requires
        old(fl).wf(),
    ensures
        final(fl).wf(),
        final(fl).same_setup(old(fl)),
        final(fl).number_tickets_sold_in_phase_1 == old(fl).number_tickets_sold_in_phase_1,
        final(fl).number_tickets_remaining_in_phase_2 == old(fl).number_tickets_remaining_in_phase_2,
        final(fl).number_tickets_punched_in_phase_3 == old(fl).number_tickets_punched_in_phase_3,
        final(fl).decided_median == old(fl).decided_median,
        match adjust_error(*old(fl), *old(ticket), fair_launch_key, amount, now) {
            Some(e) => r == Err::<ValueTransfer, ErrorCode>(e) && final(fl).same_state(old(fl))
                && *final(ticket) == *old(ticket),
            None => {
                &&& r == Ok::<ValueTransfer, ErrorCode>(transfer_between(old(ticket).amount, amount))
                &&& *final(ticket) == (FairLaunchTicket { amount, ..*old(ticket) })
                &&& final(fl).median@ == moved_bid(*old(fl), old(ticket).amount, amount)
            },
        },
{
    if !same_key(&ticket.fair_launch, &fair_launch_key) {
        return Err(ErrorCode::AccountMismatch);
    }
    if ticket.state != FairLaunchTicketState::Unpunched {
        return Err(ErrorCode::TicketAlreadyPunched);
    }
    let d = &fl.data;
    let phase_three = match d.phase_three_start {
        Some(s) => s <= now && match d.phase_three_end {
            Some(e) => now < e,
            None => true,
        },
        None => false,
    };
    let open_phase = (d.phase_one_start <= now && now < d.phase_one_end) || (d.phase_one_end <= now
        && now < d.phase_two_end);
    if !open_phase && !phase_three {
        return Err(ErrorCode::WrongPhase);
    }
    if !d.is_valid_amount(amount) || !d.is_valid_amount(ticket.amount) {
        return Err(ErrorCode::InvalidAmount);
    }
    let current = ticket.amount;
    if phase_three {
        match fl.decided_median {
            None => return Err(ErrorCode::MedianNotDecided),
            Some(m) => {
                let allowed = if current > m {
                    m <= amount && amount < current
                } else {
                    amount <= current
                };
                if !allowed {
                    return Err(ErrorCode::InvalidAdjustment);
                }
            },
        }
    }
    if amount == current {
        return Ok(ValueTransfer::Nothing);
    }
    let from = d.tick_index(current);
    let to = d.tick_index(amount);
    if fl.median[from].1 == 0 {
        return Err(ErrorCode::NumericalOverflowError);
    }
    proof {
        lemma_sum_from_add(fl.median@, from as int, -1, 0);
    }
    take_one(&mut fl.median, from);
    proof {
        lemma_sum_from_monotone(fl.median@, 0, to as int);
        lemma_sum_from_nonneg(fl.median@, to + 1);
        lemma_sum_from_add(fl.median@, to as int, 1, 0);
    }
    add_one(&mut fl.median, to);
    proof {
        let h = fl.median@;
        assert forall|i: int| 0 <= i < h.len() implies (#[trigger] h[i]).0 == fl.data.tick_price(i) by {
            assert(h[i].0 == old(fl).median@[i].0);
        }
    }
    ticket.amount = amount;
    if amount > current {
        Ok(ValueTransfer::BuyerToTreasury(amount - current))
    } else {
        Ok(ValueTransfer::TreasuryToBuyer(current - amount))
    }
}

} // verus!
