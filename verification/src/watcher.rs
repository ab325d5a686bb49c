//! The listing watcher: a working set of scheduled listings, matched
//! against the wall clock at minute granularity, dispatching each token's
//! buy at most once.
//!
//! The watcher decides; it performs no I/O. The store hands its records
//! in as plain values, the caller hands the current minute in, and the
//! tokens to buy come back out while the in-flight set is updated in the
//! same step — so a second check within the same minute matches nothing.

use vstd::prelude::*;
use crate::clock::{parse_listing_date, parse_listing_minute, MinuteStamp};
use crate::kucoin_client::KucoinError;

verus! {

/// A scheduled listing as the store holds it: a token and its listing
/// instant, `YYYY-MM-DD HH:MM`.
#[derive(Clone, Debug)]
pub struct Listing {
    pub listing_date: String,
    pub token: String,
}

/// A token whose buy order is in flight.
#[derive(Clone, Debug)]
pub struct OngoingOrder {
    token: String,
}

impl OngoingOrder {
    /// The token the in-flight order is for.
    pub closed spec fn spec_token(self) -> Seq<char> {
        self.token@
    }

    pub fn new(token: String) -> (r: OngoingOrder)
        ensures
            r.spec_token() == token@,
    {
        OngoingOrder { token }
    }

    pub fn token(&self) -> (r: &String)
        ensures
            r@ == self.spec_token(),
    {
        &self.token
    }
}

/// Whether a listing is scheduled for the given minute: its stored date
/// parses, and equals the minute in year, month, day, hour and minute.
pub open spec fn listing_matches(l: Listing, now: MinuteStamp) -> bool {
    parse_listing_date(l.listing_date@) == Some(now)
}

/// The tokens bought by one pass over the listings: a listing's token is
/// taken when the listing is scheduled for `now` and the token is not yet
/// in flight, and it enters the in-flight set at that very step, so a
/// later duplicate in the same pass is skipped.
pub open spec fn tokens_to_buy(
    listings: Seq<Listing>,
    ongoing: Seq<Seq<char>>,
    now: MinuteStamp,
) -> Seq<Seq<char>>
    decreases listings.len(),
{
    if listings.len() == 0 {
        Seq::empty()
    } else {
        let l = listings[0];
        if listing_matches(l, now) && !ongoing.contains(l.token@) {
            seq![l.token@] + tokens_to_buy(listings.drop_first(), ongoing.push(l.token@), now)
        } else {
            tokens_to_buy(listings.drop_first(), ongoing, now)
        }
    }
}

/// The watcher: the loaded working set of listings and the mode flag
/// selecting which backing store it came from.
#[derive(Clone, Debug)]
pub struct Watcher {
    pub listing_json: Vec<Listing>,
    pub test: bool,
}

impl Watcher {
    /// Builds a watcher from what the backing store held: its records,
    /// or nothing when the store was missing or unreadable, which starts
    /// an empty working set instead of failing.
    pub fn new(test: bool, stored: Option<Vec<Listing>>) -> (w: Watcher)
        ensures
            w.test == test,
            match stored {
                Some(records) => w.listing_json@ == records@,
                None => w.listing_json@ == Seq::<Listing>::empty(),
            },
    {
        let listing_json = match stored {
            Some(records) => records,
            None => Vec::new(),
        };
        proof {
            if stored is None {
                assert(listing_json@ =~= Seq::<Listing>::empty());
            }
        }
        Watcher { listing_json, test }
    }

    /// Replaces the working set wholesale with a fresh read of the
    /// store. When the store could not be read, the previous working set
    /// is retained and a `Store` error is surfaced, so one failed reload
    /// cannot stop the watch loop.
    pub fn reload_json(&mut self, stored: Option<Vec<Listing>>) -> (r: Result<(), KucoinError>)
        ensures
            final(self).test == old(self).test,
            match stored {
                Some(records) => final(self).listing_json@ == records@ && r is Ok,
                None => final(self).listing_json == old(self).listing_json && r == Err::<
                    (),
                    KucoinError,
                >(KucoinError::Store),
            },
    {
        match stored {
            Some(records) => {
                self.listing_json = records;
                Ok(())
            },
            None => Err(KucoinError::Store),
        }
    }

    /// One scheduling tick: walks the working set, matches each listing
    /// against the given minute, and returns the tokens to submit buy
    /// orders for. Each taken token is added to `ongoing_orders` in the
    /// same step, so no token is returned that was already in flight,
    /// and a repeated call within the same minute returns nothing new.
    pub fn check_listing_and_execute_order(&self, now: MinuteStamp, ongoing_orders: &mut Vec<
        String,
    >) -> (to_buy: Vec<String>)
        ensures
            to_buy.deep_view() == tokens_to_buy(
                self.listing_json@,
                old(ongoing_orders).deep_view(),
                now,
            ),
            final(ongoing_orders).deep_view() == old(ongoing_orders).deep_view()
                + to_buy.deep_view(),
    {
        let mut to_buy: Vec<String> = Vec::new();
        let ghost original_ongoing: Seq<Seq<char>> = ongoing_orders.deep_view();
        let n = self.listing_json.len();
        proof {
            assert(self.listing_json@.skip(0) =~= self.listing_json@);
            assert(original_ongoing + to_buy.deep_view() =~= original_ongoing);
        }
        let mut i: usize = 0;
        while i < n
            invariant
                n == self.listing_json@.len(),
                i <= n,
                ongoing_orders.deep_view() == original_ongoing + to_buy.deep_view(),
                tokens_to_buy(self.listing_json@, original_ongoing, now) == to_buy.deep_view()
                    + tokens_to_buy(
                    self.listing_json@.skip(i as int),
                    ongoing_orders.deep_view(),
                    now,
                ),
            decreases n - i,
        {
            let ghost og_before: Seq<Seq<char>> = ongoing_orders.deep_view();
            let ghost tb_before: Seq<Seq<char>> = to_buy.deep_view();
            let l = &self.listing_json[i];
            let ghost tok: Seq<char> = l.token@;
            let matched = match parse_listing_minute(l.listing_date.as_str()) {
                Some(m) => m == now,
                None => false,
            };
            proof {
                assert(self.listing_json@.skip(i as int)[0] == self.listing_json@[i as int]);
                assert(self.listing_json@.skip(i as int).drop_first() =~= self.listing_json@.skip(
                    i as int + 1,
                ));
            }
            if matched && !contains_token(ongoing_orders, &l.token) {
                ongoing_orders.push(l.token.clone());
                to_buy.push(l.token.clone());
                proof {
                    assert(ongoing_orders.deep_view() =~= og_before.push(tok));
                    assert(to_buy.deep_view() =~= tb_before.push(tok));
                    assert(tokens_to_buy(self.listing_json@.skip(i as int), og_before, now)
                        == seq![tok] + tokens_to_buy(
                        self.listing_json@.skip(i as int + 1),
                        og_before.push(tok),
                        now,
                    ));
                    assert(tb_before.push(tok) + tokens_to_buy(
                        self.listing_json@.skip(i as int + 1),
                        og_before.push(tok),
                        now,
                    ) =~= tb_before + (seq![tok] + tokens_to_buy(
                        self.listing_json@.skip(i as int + 1),
                        og_before.push(tok),
                        now,
                    )));
                    assert(og_before.push(tok) =~= original_ongoing + tb_before.push(tok));
                }
            }
            i += 1;
        }
        proof {
            assert(self.listing_json@.skip(n as int) =~= Seq::<Listing>::empty());
            assert(to_buy.deep_view() + Seq::<Seq<char>>::empty() =~= to_buy.deep_view());
        }
        to_buy
    }
}

fn contains_token(v: &Vec<String>, t: &String) -> (r: bool)
    ensures
        r == v.deep_view().contains(t@),
{
    let n = v.len();
    let mut i: usize = 0;
    while i < n
        invariant
            n == v@.len(),
            i <= n,
            forall|j: int| 0 <= j < i ==> v.deep_view()[j] != t@,
        decreases n - i,
    {
        if v[i] == *t {
            proof {
                assert(v.deep_view()[i as int] == t@);
            }
            return true;
        }
        i += 1;
    }
    proof {
        assert(forall|j: int| 0 <= j < v.deep_view().len() ==> v.deep_view()[j] != t@);
    }
    false
}

/// Every token a pass returns was not in flight when the pass began.
pub proof fn lemma_bought_tokens_not_in_flight(
    listings: Seq<Listing>,
    ongoing: Seq<Seq<char>>,
    now: MinuteStamp,
)
    ensures
        forall|t: Seq<char>|
            tokens_to_buy(listings, ongoing, now).contains(t) ==> !ongoing.contains(t),
    decreases listings.len(),
{
    if listings.len() > 0 {
        let l = listings[0];
        if listing_matches(l, now) && !ongoing.contains(l.token@) {
            lemma_bought_tokens_not_in_flight(listings.drop_first(), ongoing.push(l.token@), now);
            assert forall|t: Seq<char>|
                tokens_to_buy(listings, ongoing, now).contains(t) implies !ongoing.contains(
                t,
            ) by {
                if t != l.token@ {
                    let rest = tokens_to_buy(listings.drop_first(), ongoing.push(l.token@), now);
                    let whole = seq![l.token@] + rest;
                    let k = choose|k: int| 0 <= k < whole.len() && whole[k] == t;
                    assert(rest[k - 1] == t);
                    assert(!ongoing.push(l.token@).contains(t));
                    if ongoing.contains(t) {
                        let j = choose|j: int| 0 <= j < ongoing.len() && ongoing[j] == t;
                        assert(ongoing.push(l.token@)[j] == t);
                    }
                }
            }
        } else {
            lemma_bought_tokens_not_in_flight(listings.drop_first(), ongoing, now);
        }
    }
}

/// Law: within one minute, a token is bought at most once. After a pass
/// has taken its tokens into the in-flight set, a second pass over the
/// same listings at the same minute takes none of them again.
pub proof fn lemma_at_most_once_per_minute(
    listings: Seq<Listing>,
    ongoing: Seq<Seq<char>>,
    now: MinuteStamp,
)
    ensures
        forall|t: Seq<char>|
            tokens_to_buy(listings, ongoing, now).contains(t) ==> !tokens_to_buy(
                listings,
                ongoing + tokens_to_buy(listings, ongoing, now),
                now,
            ).contains(t),
{
    let first = tokens_to_buy(listings, ongoing, now);
    let second = tokens_to_buy(listings, ongoing + first, now);
    lemma_bought_tokens_not_in_flight(listings, ongoing + first, now);
    assert forall|t: Seq<char>| first.contains(t) implies !second.contains(t) by {
        let k = choose|k: int| 0 <= k < first.len() && first[k] == t;
        assert((ongoing + first)[ongoing.len() + k] == t);
        assert((ongoing + first).contains(t));
    }
}

} // verus!
