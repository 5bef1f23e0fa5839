use vstd::prelude::*;

verus! {

use core::cmp::Ordering;
use crate::bid::Bid;
use crate::bid::bid_order;
use crate::bid::copy_of;
use crate::bid::lemma_compare_reflexive;

/// The running auction state: the best bid so far, and the append-only log
/// of every bid that was accepted as a new best, in acceptance order.
#[derive(Debug)]
pub struct Auctioneer {
    best_bid: Option<Bid>,
    history: Vec<Bid>,
}

impl Auctioneer {
    /// The current best bid, if any bid has been accepted.
    pub closed spec fn spec_best(self) -> Option<Bid> {
        self.best_bid
    }

    /// The log of accepted bids, in acceptance order.
    pub closed spec fn spec_history(self) -> Seq<Bid> {
        self.history@
    }

    /// The state invariant: the best bid is present exactly when a bid has
    /// been accepted, it equals the last accepted one, and the log strictly
    /// improves at every step.
    pub open spec fn wf(self) -> bool {
        &&& (self.spec_best() is Some <==> self.spec_history().len() > 0)
        &&& (self.spec_best() is Some ==> self.spec_best()->0 == self.spec_history().last())
        &&& (forall|i: int, j: int|
            0 <= i && i + 1 == j && j < self.spec_history().len() ==> bid_order(
                #[trigger] self.spec_history()[j],
                #[trigger] self.spec_history()[i],
            ) == Ordering::Greater)
    }

    /// Whether a submitted bid would replace the current best: always when
    /// no bid stands yet, otherwise only when it ranks strictly greater.
    pub open spec fn accepts(self, bid: Bid) -> bool {
        self.spec_best() is None || bid_order(bid, self.spec_best()->0) == Ordering::Greater
    }

    /// An empty auction: no best bid, no history.
    pub fn new() -> (r: Auctioneer)
        ensures
            r.wf(),
            r.spec_best() is None,
            r.spec_history().len() == 0,
    {
        Auctioneer { best_bid: None, history: Vec::new() }
    }

    /// Accepts the bid as the new best exactly when it ranks strictly above
    /// the current one (or none stands yet); a tie is a rejection. An
    /// accepted bid becomes the best and is appended to the history; a
    /// rejected one leaves the state untouched. The operation cannot fail.
    pub fn submit_bid(&mut self, bid: Bid) -> (accepted: bool)
        ensures
            old(self).wf() ==> final(self).wf(),
            accepted == old(self).accepts(bid),
            accepted ==> final(self).spec_best() == Some(bid) && final(self).spec_history()
                == old(self).spec_history().push(bid),
            !accepted ==> *final(self) == *old(self),
    {
        let accept = match &self.best_bid {
            None => true,
            Some(b) => match bid.compare_to(b) {
                Ordering::Greater => true,
                _ => false,
            },
        };
        if accept {
            self.best_bid = Some(copy_of(&bid));
            self.history.push(bid);
            proof {
                let oh = old(self).spec_history();
                let nh = self.spec_history();
                if old(self).wf() {
                    assert forall|i: int, j: int|
                        0 <= i && i + 1 == j && j < nh.len() implies bid_order(nh[j], nh[i])
                        == Ordering::Greater by {
                        if j < oh.len() {
                            assert(bid_order(oh[j], oh[i]) == Ordering::Greater);
                        } else {
                            assert(nh[i] == oh.last());
                            assert(nh[j] == bid);
                        }
                    }
                }
            }
            true
        } else {
            false
        }
    }

    /// A copy of the current best bid, or nothing before any acceptance.
    pub fn get_best_bid(&self) -> (r: Option<Bid>)
        ensures
            r == self.spec_best(),
    {
        match &self.best_bid {
            None => None,
            Some(b) => Some(copy_of(b)),
        }
    }

    /// A read-only view of every accepted bid, in acceptance order.
    pub fn history(&self) -> (r: &[Bid])
        ensures
            r@ == self.spec_history(),
    {
        self.history.as_slice()
    }
}

impl Default for Auctioneer {
    /// The same empty auction that `new` builds.
    fn default() -> (r: Auctioneer)
        ensures
            r.wf(),
            r.spec_best() is None,
            r.spec_history().len() == 0,
    {
        Auctioneer::new()
    }
}

/// Submitting the bid that already stands as the best is rejected: a bid
/// ties with itself, and only a strictly greater bid replaces the best.
pub proof fn lemma_resubmission_rejected(a: Auctioneer, b: Bid)
    requires
        a.spec_best() == Some(b),
    ensures
        !a.accepts(b),
{
    lemma_compare_reflexive(b);
}

/// Every well-formed auction state has a strictly improving history: each
/// accepted bid ranks strictly above the one accepted before it.
pub proof fn lemma_history_monotonic(a: Auctioneer, i: int)
    requires
        a.wf(),
        0 <= i < a.spec_history().len() - 1,
    ensures
        bid_order(a.spec_history()[i + 1], a.spec_history()[i]) == Ordering::Greater,
{
    assert(bid_order(a.spec_history()[i + 1], a.spec_history()[i]) == Ordering::Greater);
}

} // verus!
