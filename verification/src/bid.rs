use vstd::prelude::*;

verus! {

use core::cmp::Ordering;

/// One sealed offer: an immutable record ranked by amount, then submission
/// time, then builder identity. The identifier and the nonce exist for
/// identity and collision avoidance and never take part in ranking.
#[derive(Debug, Clone)]
pub struct Bid {
    /// Unique identifier, assigned at construction, carried as its 128-bit value.
    pub id: u128,
    /// Bid amount; higher is better.
    pub value: u64,
    /// Milliseconds since the Unix epoch at construction time.
    pub timestamp: u128,
    /// Who submitted the bid; final tie-break, compared lexicographically.
    pub builder_id: String,
    /// Random value carried for collision avoidance.
    pub nonce: u32,
}

/// Lexicographic order on character sequences, by code point.
pub open spec fn str_order(a: Seq<char>, b: Seq<char>) -> Ordering
    decreases a.len(),
{
    if a.len() == 0 && b.len() == 0 {
        Ordering::Equal
    } else if a.len() == 0 {
        Ordering::Less
    } else if b.len() == 0 {
        Ordering::Greater
    } else if (a[0] as u32) < (b[0] as u32) {
        Ordering::Less
    } else if (b[0] as u32) < (a[0] as u32) {
        Ordering::Greater
    } else {
        str_order(a.drop_first(), b.drop_first())
    }
}

/// The ranking rule: a total order over amount first, then timestamp, then
/// builder identity; on every key the larger ranks Greater. A later
/// timestamp wins a tie on amount by design.
pub open spec fn bid_order(a: Bid, b: Bid) -> Ordering {
    if a.value < b.value {
        Ordering::Less
    } else if b.value < a.value {
        Ordering::Greater
    } else if a.timestamp < b.timestamp {
        Ordering::Less
    } else if b.timestamp < a.timestamp {
        Ordering::Greater
    } else {
        str_order(a.builder_id@, b.builder_id@)
    }
}

/// Compares two strings in the lexicographic order of `str_order`.
fn str_cmp(a: &str, b: &str) -> (r: Ordering)
    ensures
        r == str_order(a@, b@),
{
    let alen = a.unicode_len();
    let blen = b.unicode_len();
    let mut i: usize = 0;
    proof {
        assert(a@.skip(0) =~= a@);
        assert(b@.skip(0) =~= b@);
    }
    while i < alen && i < blen
        invariant
            alen == a@.len(),
            blen == b@.len(),
            i <= alen,
            i <= blen,
            str_order(a@, b@) == str_order(a@.skip(i as int), b@.skip(i as int)),
        decreases alen - i,
    {
        let ca = a.get_char(i);
        let cb = b.get_char(i);
        if (ca as u32) < (cb as u32) {
            return Ordering::Less;
        }
        if (cb as u32) < (ca as u32) {
            return Ordering::Greater;
        }
        proof {
            assert(a@.skip(i as int).drop_first() =~= a@.skip(i + 1));
            assert(b@.skip(i as int).drop_first() =~= b@.skip(i + 1));
        }
        i = i + 1;
    }
    if alen < blen {
        Ordering::Less
    } else if blen < alen {
        Ordering::Greater
    } else {
        Ordering::Equal
    }
}

/// Relies on uuid::Uuid::new_v4 for a freshly generated version-4 identifier,
/// carried as its 128-bit value (uuid::Uuid::as_u128). The value is random;
/// nothing is promised of which one comes.
#[verifier::external_body]
fn fresh_id() -> u128 {
    uuid::Uuid::new_v4().as_u128()
}

/// Relies on std::time::SystemTime::now, measured against
/// std::time::UNIX_EPOCH and taken as whole milliseconds; a clock that reads
/// before the epoch yields zero. The value depends on the clock; nothing is
/// promised of which one comes.
#[verifier::external_body]
fn now_millis() -> u128 {
    match std::time::SystemTime::now().duration_since(std::time::UNIX_EPOCH) {
        Ok(d) => d.as_millis(),
        Err(_) => 0,
    }
}

/// Relies on rand::random for a uniformly drawn 32-bit value; nothing is
/// promised of which one comes.
#[verifier::external_body]
fn random_nonce() -> u32 {
    rand::random::<u32>()
}

/// An owned copy of a bid, equal to it field for field.
pub(crate) fn copy_of(b: &Bid) -> (r: Bid)
    ensures
        r == *b,
{
    Bid {
        id: b.id,
        value: b.value,
        timestamp: b.timestamp,
        builder_id: b.builder_id.clone(),
        nonce: b.nonce,
    }
}

impl Bid {
    /// Builds a fresh bid for the given amount and builder: a new unique
    /// identifier, the current wall-clock time in milliseconds and a random
    /// nonce are captured. Construction always succeeds.
    pub fn new(value: u64, builder_id: String) -> (r: Bid)
        ensures
            r.value == value,
            r.builder_id == builder_id,
    {
        Bid {
            id: fresh_id(),
            value,
            timestamp: now_millis(),
            builder_id,
            nonce: random_nonce(),
        }
    }

    /// Ranks this bid against another under `bid_order`.
    pub fn compare_to(&self, other: &Bid) -> (r: Ordering)
        ensures
            r == bid_order(*self, *other),
    {
        if self.value < other.value {
            Ordering::Less
        } else if other.value < self.value {
            Ordering::Greater
        } else if self.timestamp < other.timestamp {
            Ordering::Less
        } else if other.timestamp < self.timestamp {
            Ordering::Greater
        } else {
            str_cmp(self.builder_id.as_str(), other.builder_id.as_str())
        }
    }
}

proof fn lemma_str_order_reflexive(a: Seq<char>)
    ensures
        str_order(a, a) == Ordering::Equal,
    decreases a.len(),
{
    if a.len() != 0 {
        lemma_str_order_reflexive(a.drop_first());
    }
}

proof fn lemma_str_order_antisymmetric(a: Seq<char>, b: Seq<char>)
    ensures
        str_order(a, b) == Ordering::Less <==> str_order(b, a) == Ordering::Greater,
        str_order(a, b) == Ordering::Equal <==> str_order(b, a) == Ordering::Equal,
    decreases a.len(),
{
    if a.len() != 0 && b.len() != 0 && !((a[0] as u32) < (b[0] as u32)) && !((b[0] as u32) < (a[0]
        as u32)) {
        lemma_str_order_antisymmetric(a.drop_first(), b.drop_first());
    }
}

proof fn lemma_str_order_greater_transitive(a: Seq<char>, b: Seq<char>, c: Seq<char>)
    requires
        str_order(a, b) == Ordering::Greater,
        str_order(b, c) == Ordering::Greater,
    ensures
        str_order(a, c) == Ordering::Greater,
    decreases a.len(),
{
    if a.len() != 0 && b.len() != 0 && c.len() != 0 && (a[0] as u32) == (b[0] as u32) && (b[0]
        as u32) == (c[0] as u32) {
        lemma_str_order_greater_transitive(a.drop_first(), b.drop_first(), c.drop_first());
    }
}

/// A bid always ties with itself: every ranking key is equal.
pub proof fn lemma_compare_reflexive(a: Bid)
    ensures
        bid_order(a, a) == Ordering::Equal,
{
    lemma_str_order_reflexive(a.builder_id@);
}

/// The ranking rule is total and antisymmetric: comparing two bids yields
/// exactly one of Less, Equal and Greater, and comparing them the other way
/// round yields exactly the reverse.
pub proof fn lemma_compare_antisymmetric(a: Bid, b: Bid)
    ensures
        bid_order(a, b) == Ordering::Less || bid_order(a, b) == Ordering::Equal || bid_order(a, b)
            == Ordering::Greater,
        bid_order(a, b) == Ordering::Less <==> bid_order(b, a) == Ordering::Greater,
        bid_order(a, b) == Ordering::Equal <==> bid_order(b, a) == Ordering::Equal,
        bid_order(a, b) == Ordering::Greater <==> bid_order(b, a) == Ordering::Less,
{
    lemma_str_order_antisymmetric(a.builder_id@, b.builder_id@);
    lemma_str_order_antisymmetric(b.builder_id@, a.builder_id@);
}

/// With equal amounts, the later-timestamped bid ranks strictly above the
/// earlier one, whatever the builders.
pub proof fn lemma_later_timestamp_wins_tie(a: Bid, b: Bid)
    requires
        a.value == b.value,
        b.timestamp < a.timestamp,
    ensures
        bid_order(a, b) == Ordering::Greater,
{
}

/// The ranking rule is transitive: a bid that ranks above a second, itself
/// ranking above a third, ranks above the third.
pub proof fn lemma_compare_transitive(a: Bid, b: Bid, c: Bid)
    requires
        bid_order(a, b) == Ordering::Greater,
        bid_order(b, c) == Ordering::Greater,
    ensures
        bid_order(a, c) == Ordering::Greater,
{
    if a.value == b.value && b.value == c.value && a.timestamp == b.timestamp && b.timestamp
        == c.timestamp {
        lemma_str_order_greater_transitive(a.builder_id@, b.builder_id@, c.builder_id@);
    }
}

} // verus!
