use vstd::prelude::*;
use crate::histogram::histogram_total;
use crate::lottery::{
    count_true, lemma_count_set, lemma_count_within, with_strip, FairLaunchLotteryBitmap,
};
use crate::sale::FairLaunch;
use crate::ticket::{moved_bid, purchased, transfer_between, FairLaunchTicket, ValueTransfer};

verus! {

/// One purchase as `purchase_ticket` reports it: the sale moves from `pre` to
/// `post` and the ticket takes the count of tickets sold before it.
pub open spec fn purchase_step(pre: FairLaunch, post: FairLaunch, t: FairLaunchTicket) -> bool {
    &&& purchased(pre, post, t.amount)
    &&& t.seq == pre.number_tickets_sold_in_phase_1
}

/// In a run of purchases on a new sale the tickets are numbered 0, 1, 2, ...
/// in the order of sale: each number one more than the one before, with no gap.
pub proof fn lemma_sequence_numbers(states: Seq<FairLaunch>, tickets: Seq<FairLaunchTicket>)
    requires
        states.len() == tickets.len() + 1,
        states[0].number_tickets_sold_in_phase_1 == 0,
        forall|i: int|
            0 <= i < tickets.len() ==> purchase_step(states[i], states[i + 1], #[trigger] tickets[i]),
    ensures
        forall|i: int| 0 <= i < tickets.len() ==> (#[trigger] tickets[i]).seq == i,
        forall|i: int, j: int| 0 <= i < j < tickets.len() ==> tickets[i].seq < tickets[j].seq,
        states.last().number_tickets_sold_in_phase_1 == tickets.len(),
    decreases tickets.len(),
{
    if tickets.len() > 0 {
        let n = tickets.len() - 1;
        lemma_sequence_numbers(states.drop_last(), tickets.drop_last());
        assert(purchase_step(states[n], states[n + 1], tickets[n]));
        assert(states.drop_last().last() == states[n]);
        assert forall|i: int| 0 <= i < tickets.len() implies (#[trigger] tickets[i]).seq == i by {
            if i < n {
                assert(tickets.drop_last()[i] == tickets[i]);
            }
        }
    }
}

/// In a well-formed sale the histogram counts exactly the tickets sold.
pub proof fn lemma_histogram_counts_sales(fl: FairLaunch)
    requires
        fl.wf(),
    ensures
        histogram_total(fl.median@) == fl.number_tickets_sold_in_phase_1,
{
}

/// Adjusting a bid to the amount it already has moves no value and leaves the
/// histogram as it is.
pub proof fn lemma_adjust_to_same_amount(fl: FairLaunch, amount: u64)
    ensures
        transfer_between(amount, amount) == ValueTransfer::Nothing,
        moved_bid(fl, amount, amount) == fl.median@,
{
}

/// Once the bitmap holds as many winners as the supply, a strip that names
/// any position not yet set would take the count past the supply, so
/// `update_fair_launch_lottery_bitmap` refuses it.
pub proof fn lemma_full_lottery_takes_no_new_winner(
    bm: FairLaunchLotteryBitmap,
    fl: FairLaunch,
    seqs: Seq<u64>,
    j: int,
)
    requires
        bm.wf(),
        bm.bitmap_ones == fl.data.number_of_tokens,
        0 <= j < seqs.len(),
        seqs[j] < bm.flags().len(),
        !bm.flags()[seqs[j] as int],
    ensures
        count_true(with_strip(bm.flags(), seqs)) > fl.data.number_of_tokens,
{
    let f = bm.flags();
    let s = seqs[j] as int;
    let g = f.update(s, true);
    let all = with_strip(f, seqs);
    lemma_count_set(f, s);
    assert forall|i: int| 0 <= i < g.len() && #[trigger] g[i] implies all[i] by {
        if i == s {
            assert(seqs[j] == i);
        }
    }
    lemma_count_within(g, all);
}

} // verus!
