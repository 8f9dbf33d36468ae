use vstd::prelude::*;
use crate::customers::active_index;
use crate::customers::has_active;
use crate::customers::none_active;
use crate::customers::with_active_flag;
use crate::customers::Customer;
use crate::customers::CustomerHandler;
use crate::customers::CustomerState;
use crate::player::apply_resolution;
use crate::player::Gold;
use crate::rng::random_in_range;

verus! {

/// The price adjustment a single haggle attempt applies, up on success and
/// down (saturating at zero) on failure.
pub const HAGGLE_PRICE_STEP: u32 = 10;

/// The opening price of a session is drawn from `[MIN_OPENING_PRICE, MAX_OPENING_PRICE)`.
pub const MIN_OPENING_PRICE: u32 = 35;
pub const MAX_OPENING_PRICE: u32 = 50;

/// Whether a barter session is currently open.
#[derive(Clone, Copy, PartialEq, Eq, Hash, Debug)]
pub enum BarterState {
    Bartering,
    NotBartering,
}

/// Notification that a barter session opened.
pub struct BeginBarter;

/// Notification that a barter session closed.
pub struct EndBarter;

/// A haggle attempt's flavor; the session treats all three alike.
#[derive(Clone, Copy, PartialEq, Eq, Hash, Debug)]
pub enum HaggleType {
    Plea,
    Persuade,
    Bully,
}

impl HaggleType {
    pub fn get_string_name(barter_type: HaggleType) -> (name: String)
        ensures
            name@ == (match barter_type {
                HaggleType::Bully => "Bully"@,
                HaggleType::Persuade => "Persuade"@,
                HaggleType::Plea => "Plea"@,
            }),
    {
        match barter_type {
            HaggleType::Bully => "Bully".to_string(),
            HaggleType::Persuade => "Persuade".to_string(),
            HaggleType::Plea => "Plea".to_string(),
        }
    }

    pub fn get_string_name_from_instance(&self) -> (name: String)
        ensures
            name@ == (match *self {
                HaggleType::Bully => "Bully"@,
                HaggleType::Persuade => "Persuade"@,
                HaggleType::Plea => "Plea"@,
            }),
    {
        match self {
            HaggleType::Bully => "Bully".to_string(),
            HaggleType::Persuade => "Persuade".to_string(),
            HaggleType::Plea => "Plea".to_string(),
        }
    }
}

/// A player's request to haggle.
#[derive(Clone, Copy, PartialEq, Eq, Hash, Debug)]
pub struct HaggleAttemptEvent {
    pub attempt_type: HaggleType,
}

/// The outcome of one haggle attempt.
#[derive(Clone, Copy, PartialEq, Eq, Hash, Debug)]
pub enum HaggleResult {
    Success,
    Failure,
}

/// The record appended to the session log for one resolved haggle attempt;
/// `new_price` is the price after the adjustment.
#[derive(Clone, Copy, PartialEq, Eq, Hash, Debug)]
pub struct HaggleResultEvent {
    pub result: HaggleResult,
    pub attempt_type: HaggleType,
    pub new_price: u32,
}

/// The player's terminal decision on a session.
#[derive(Clone, Copy, PartialEq, Eq, Hash, Debug)]
pub enum BarterResolutionTypes {
    Approve { amount: u32 },
    Deny,
}

/// The terminal decision, as the UI layer delivers it.
#[derive(Clone, Copy, PartialEq, Eq, Hash, Debug)]
pub struct BarterResolved {
    pub resolution_type: BarterResolutionTypes,
}

/// An open barter session: the current sale price and the append-only log of
/// resolved haggle attempts, in the order they were processed.
#[derive(Clone, PartialEq, Eq, Hash)]
pub struct Barter {
    sell_price: u32,
    haggles: Vec<HaggleResultEvent>,
}

impl Barter {
    pub closed spec fn spec_price(&self) -> u32 {
        self.sell_price
    }

    pub closed spec fn spec_haggles(&self) -> Seq<HaggleResultEvent> {
        self.haggles@
    }

    /// The session price is the latest value the log derived; while the log
    /// is empty it is still the opening price.
    pub open spec fn price_matches_log(&self) -> bool {
        self.spec_haggles().len() > 0 ==> self.spec_price()
            == self.spec_haggles().last().new_price
    }

    /// Records one resolved haggle: the session price becomes the record's
    /// price, and the record goes to the end of the log.
    pub fn log_result(&mut self, haggle_result: HaggleResultEvent)
        ensures
            final(self).spec_price() == haggle_result.new_price,
            final(self).spec_haggles() == old(self).spec_haggles().push(haggle_result),
            final(self).price_matches_log(),
    {
        self.update_price(haggle_result.new_price);
        self.haggles.push(haggle_result);
    }

    pub fn update_price(&mut self, price: u32)
        ensures
            final(self).spec_price() == price,
            final(self).spec_haggles() == old(self).spec_haggles(),
    {
        self.sell_price = price;
    }

    pub fn get_price(&self) -> (price: u32)
        ensures
            price == self.spec_price(),
    {
        self.sell_price
    }

    /// The log of resolved haggle attempts, oldest first.
    pub fn get_haggles(&self) -> (log: &Vec<HaggleResultEvent>)
        ensures
            log@ == self.spec_haggles(),
    {
        &self.haggles
    }
}

/// The price after one haggle attempt: up a step on success (saturating at
/// the type's maximum), down a step on failure (saturating at zero).
pub open spec fn haggle_new_price(price: u32, success: bool) -> u32 {
    if success {
        if price + HAGGLE_PRICE_STEP > u32::MAX {
            u32::MAX
        } else {
            (price + HAGGLE_PRICE_STEP) as u32
        }
    } else {
        if price < HAGGLE_PRICE_STEP {
            0
        } else {
            (price - HAGGLE_PRICE_STEP) as u32
        }
    }
}

/// The record one haggle attempt appends, given the price before it.
pub open spec fn haggle_result_for(price: u32, attempt: HaggleType, success: bool) -> HaggleResultEvent {
    HaggleResultEvent {
        result: if success {
            HaggleResult::Success
        } else {
            HaggleResult::Failure
        },
        attempt_type: attempt,
        new_price: haggle_new_price(price, success),
    }
}

/// Resolves one haggle attempt against the session with the given draw:
/// adjusts the price, appends the record, and returns it.
pub fn resolve_haggle_attempt(barter: &mut Barter, attempt: &HaggleAttemptEvent, success: bool) -> (r: HaggleResultEvent)
    ensures
        r == haggle_result_for(old(barter).spec_price(), attempt.attempt_type, success),
        final(barter).spec_price() == r.new_price,
        final(barter).spec_haggles() == old(barter).spec_haggles().push(r),
        final(barter).price_matches_log(),
{
    let new_price: u32 = if success {
        barter.get_price().saturating_add(HAGGLE_PRICE_STEP)
    } else {
        barter.get_price().saturating_sub(HAGGLE_PRICE_STEP)
    };
    let r = HaggleResultEvent {
        result: if success {
            HaggleResult::Success
        } else {
            HaggleResult::Failure
        },
        attempt_type: attempt.attempt_type,
        new_price,
    };
    barter.log_result(r);
    r
}

/// One record of the session log is the given attempt resolved against the
/// price before it, under some outcome of the draw.
pub open spec fn chained_haggle_result(
    prev_price: u32,
    attempt: HaggleType,
    r: HaggleResultEvent,
) -> bool {
    exists|success: bool| r == haggle_result_for(prev_price, attempt, success)
}

/// The log `results` is the batch `events` resolved in order from the opening
/// price: record by record, each one is its attempt resolved against the
/// price left by the record before it, under some outcome of the draw.
pub open spec fn chained_haggle_log(
    price: u32,
    events: Seq<HaggleAttemptEvent>,
    results: Seq<HaggleResultEvent>,
) -> bool
    decreases results.len(),
{
    if results.len() == 0 {
        true
    } else {
        &&& results.len() <= events.len()
        &&& chained_haggle_log(price, events, results.drop_last())
        &&& chained_haggle_result(
            if results.len() == 1 {
                price
            } else {
                results[results.len() - 2].new_price
            },
            events[results.len() - 1].attempt_type,
            results.last(),
        )
    }
}

/// Drains a batch of haggle attempts against the session, in order. Each
/// attempt draws its own outcome, adjusts the price a step up or down, and
/// appends its record, so the log grows by exactly one record per attempt.
pub fn handle_haggle_attempt_events(
    barter: &mut Barter,
    events: &Vec<HaggleAttemptEvent>,
) -> (results: Vec<HaggleResultEvent>)
    ensures
        results@.len() == events@.len(),
        final(barter).spec_haggles() == old(barter).spec_haggles() + results@,
        final(barter).spec_price() == (if results@.len() == 0 {
            old(barter).spec_price()
        } else {
            results@.last().new_price
        }),
        chained_haggle_log(old(barter).spec_price(), events@, results@),
        old(barter).price_matches_log() ==> final(barter).price_matches_log(),
{
    let ghost p0 = barter.spec_price();
    let ghost h0 = barter.spec_haggles();
    let mut results: Vec<HaggleResultEvent> = Vec::new();
    let n = events.len();
    let mut k: usize = 0;
    while k < n
        invariant
            k <= n,
            n == events@.len(),
            results@.len() == k,
            p0 == old(barter).spec_price(),
            h0 == old(barter).spec_haggles(),
            barter.spec_haggles() == h0 + results@,
            barter.spec_price() == (if k == 0 {
                p0
            } else {
                results@[k - 1].new_price
            }),
            chained_haggle_log(p0, events@, results@),
        decreases n - k,
    {
        let success: bool = random_in_range(0, 2) == 0;
        let r = resolve_haggle_attempt(barter, &events[k], success);
        let ghost pre_results = results@;
        results.push(r);
        proof {
            assert(barter.spec_haggles() =~= h0 + results@);
            assert(results@.drop_last() =~= pre_results);
            assert(results@.last() == r);
            assert(r == haggle_result_for(
                if k == 0 {
                    p0
                } else {
                    pre_results[k - 1].new_price
                },
                events@[k as int].attempt_type,
                success,
            ));
            assert(chained_haggle_log(p0, events@, results@));
        }
        k += 1;
    }
    proof {
        assert(barter.spec_haggles() =~= h0 + results@);
    }
    results
}

/// The price a session holds after a sequence of haggle outcomes, starting
/// from the given opening price.
pub open spec fn price_after_outcomes(price: u32, outcomes: Seq<bool>) -> u32
    decreases outcomes.len(),
{
    if outcomes.len() == 0 {
        price
    } else {
        price_after_outcomes(haggle_new_price(price, outcomes[0]), outcomes.drop_first())
    }
}

/// Folding one more outcome onto the end of a sequence adjusts the folded
/// price by exactly that outcome's step.
proof fn lemma_price_after_outcomes_snoc(price: u32, outcomes: Seq<bool>, b: bool)
    ensures
        price_after_outcomes(price, outcomes.push(b)) == haggle_new_price(
            price_after_outcomes(price, outcomes),
            b,
        ),
    decreases outcomes.len(),
{
    if outcomes.len() == 0 {
        assert(outcomes.push(b)[0] == b);
        assert(outcomes.push(b).drop_first() =~= Seq::<bool>::empty());
        assert(price_after_outcomes(haggle_new_price(price, b), Seq::<bool>::empty())
            == haggle_new_price(price, b));
    } else {
        assert(outcomes.push(b)[0] == outcomes[0]);
        assert(outcomes.push(b).drop_first() =~= outcomes.drop_first().push(b));
        lemma_price_after_outcomes_snoc(haggle_new_price(price, outcomes[0]), outcomes.drop_first(), b);
        assert(price_after_outcomes(price, outcomes) == price_after_outcomes(
            haggle_new_price(price, outcomes[0]),
            outcomes.drop_first(),
        ));
        assert(price_after_outcomes(price, outcomes.push(b)) == price_after_outcomes(
            haggle_new_price(price, outcomes[0]),
            outcomes.drop_first().push(b),
        ));
    }
}

/// Law: a chained log always leaves the session at a price that a sequence
/// of draw outcomes, one per record, explains as a fold of single-step
/// adjustments from the opening price.
pub proof fn lemma_chained_log_price(
    price: u32,
    events: Seq<HaggleAttemptEvent>,
    results: Seq<HaggleResultEvent>,
)
    requires
        chained_haggle_log(price, events, results),
    ensures
        exists|outcomes: Seq<bool>|
            outcomes.len() == results.len() && price_after_outcomes(price, outcomes) == (
            if results.len() == 0 {
                price
            } else {
                results.last().new_price
            }),
    decreases results.len(),
{
    if results.len() == 0 {
        let outcomes = Seq::<bool>::empty();
        assert(outcomes.len() == results.len() && price_after_outcomes(price, outcomes)
            == price);
    } else {
        lemma_chained_log_price(price, events, results.drop_last());
        let prev = choose|prev: Seq<bool>|
            prev.len() == results.drop_last().len() && price_after_outcomes(price, prev) == (
            if results.drop_last().len() == 0 {
                price
            } else {
                results.drop_last().last().new_price
            });
        let prev_price = if results.len() == 1 {
            price
        } else {
            results[results.len() - 2].new_price
        };
        assert(results.drop_last().len() > 0 ==> results.drop_last().last() == results[results.len()
            - 2]);
        assert(price_after_outcomes(price, prev) == prev_price);
        let success = choose|success: bool|
            results.last() == #[trigger] haggle_result_for(
                prev_price,
                events[results.len() - 1].attempt_type,
                success,
            );
        lemma_price_after_outcomes_snoc(price, prev, success);
        let outcomes = prev.push(success);
        assert(outcomes.len() == results.len() && price_after_outcomes(price, outcomes)
            == results.last().new_price);
    }
}

/// Law: whatever sequence of haggle outcomes is applied to a session, the
/// price never drops below zero; a failed attempt at a price under the step
/// lands exactly on zero instead of wrapping around.
pub proof fn lemma_price_never_negative(price: u32, outcomes: Seq<bool>)
    ensures
        price_after_outcomes(price, outcomes) >= 0,
        price < HAGGLE_PRICE_STEP ==> haggle_new_price(price, false) == 0,
    decreases outcomes.len(),
{
    if outcomes.len() > 0 {
        lemma_price_never_negative(haggle_new_price(price, outcomes[0]), outcomes.drop_first());
    }
}

/// Opens a barter session with the given opening price against the earliest
/// still-active customer, marking it as the active barter subject. A customer
/// must be available and no mark may be outstanding: opening without a
/// backing customer is a caller sequencing bug.
pub fn open_barter_session(
    handler: &mut CustomerHandler,
    state: &mut BarterState,
    price: u32,
) -> (barter: Barter)
    requires
        old(handler).inv(),
        old(handler).active_customers@.len() > 0,
        none_active(old(handler).active_customers@),
        *old(state) == BarterState::NotBartering,
    ensures
        final(handler).inv(),
        *final(state) == BarterState::Bartering,
        barter.spec_price() == price,
        barter.spec_haggles() == Seq::<HaggleResultEvent>::empty(),
        barter.price_matches_log(),
        final(handler).active_customers@ == old(handler).active_customers@.update(
            0,
            with_active_flag(old(handler).active_customers@[0], true),
        ),
        final(handler).active_customers@[0].is_active_barter_subject,
        final(handler).next_id == old(handler).next_id,
{
    handler.set_active_flag(0, true);
    *state = BarterState::Bartering;
    Barter { sell_price: price, haggles: Vec::new() }
}

/// Opens a barter session as the player requests it: the opening price is
/// drawn fresh from the opening range.
pub fn begin_barter(handler: &mut CustomerHandler, state: &mut BarterState) -> (barter: Barter)
    requires
        old(handler).inv(),
        old(handler).active_customers@.len() > 0,
        none_active(old(handler).active_customers@),
        *old(state) == BarterState::NotBartering,
    ensures
        final(handler).inv(),
        *final(state) == BarterState::Bartering,
        MIN_OPENING_PRICE <= barter.spec_price() < MAX_OPENING_PRICE,
        barter.spec_haggles() == Seq::<HaggleResultEvent>::empty(),
        final(handler).active_customers@ == old(handler).active_customers@.update(
            0,
            with_active_flag(old(handler).active_customers@[0], true),
        ),
        final(handler).next_id == old(handler).next_id,
{
    let price: u64 = random_in_range(MIN_OPENING_PRICE as u64, MAX_OPENING_PRICE as u64);
    open_barter_session(handler, state, price as u32)
}

/// The player's request to start bartering: rejected (with everything left
/// untouched) when no customer is on the floor, so a session is never opened
/// without a backing customer.
pub fn try_begin_barter(handler: &mut CustomerHandler, state: &mut BarterState) -> (r: Option<
    Barter,
>)
    requires
        old(handler).inv(),
        none_active(old(handler).active_customers@),
        *old(state) == BarterState::NotBartering,
    ensures
        final(handler).inv(),
        r is Some <==> old(handler).active_customers@.len() > 0,
        match r {
            Some(barter) => {
                &&& *final(state) == BarterState::Bartering
                &&& MIN_OPENING_PRICE <= barter.spec_price() < MAX_OPENING_PRICE
                &&& barter.spec_haggles() == Seq::<HaggleResultEvent>::empty()
                &&& final(handler).active_customers@ == old(handler).active_customers@.update(
                    0,
                    with_active_flag(old(handler).active_customers@[0], true),
                )
                &&& final(handler).next_id == old(handler).next_id
            },
            None => {
                &&& *final(handler) == *old(handler)
                &&& *final(state) == *old(state)
            },
        },
{
    if handler.active_customers.len() > 0 {
        Some(begin_barter(handler, state))
    } else {
        None
    }
}

/// Closes the open session on the player's terminal decision: credits gold on
/// an approval, returns to the non-bartering state, and hands the bartered
/// customer back with its motion state moved to `Despawning`, removed from
/// the registry by identity. The session's subject must have reached its
/// bartering stand before a resolution can arrive.
pub fn end_barter(
    handler: &mut CustomerHandler,
    state: &mut BarterState,
    resolution: &BarterResolved,
    gold: &mut Gold,
) -> (departed: Customer)
    requires
        old(handler).inv(),
        *old(state) == BarterState::Bartering,
        has_active(old(handler).active_customers@),
        old(handler).active_customers@[active_index(old(handler).active_customers@)].state
            == CustomerState::Bartering,
    ensures
        final(handler).inv(),
        *final(state) == BarterState::NotBartering,
        none_active(final(handler).active_customers@),
        ({
            let i = active_index(old(handler).active_customers@);
            &&& departed == (Customer {
                state: CustomerState::Despawning,
                is_active_barter_subject: false,
                ..old(handler).active_customers@[i]
            })
            &&& final(handler).active_customers@ == old(handler).active_customers@.remove(i)
        }),
        final(handler).next_id == old(handler).next_id,
        final(gold).amount == (match resolution.resolution_type {
            BarterResolutionTypes::Approve { amount } => if old(gold).amount + amount
                > u32::MAX {
                u32::MAX
            } else {
                (old(gold).amount + amount) as u32
            },
            BarterResolutionTypes::Deny => old(gold).amount,
        }),
{
    let found = handler.find_active_customer_index();
    let i = found.unwrap();
    proof {
        let k = active_index(old(handler).active_customers@);
        assert(old(handler).active_customers@[k].is_active_barter_subject);
        assert(i as int == k);
    }
    let mut departed = handler.active_customers.remove(i);
    departed.is_active_barter_subject = false;
    departed.state = CustomerState::Despawning;
    apply_resolution(gold, resolution);
    *state = BarterState::NotBartering;
    proof {
        let s0 = old(handler).active_customers@;
        let s = handler.active_customers@;
        assert forall|a: int| 0 <= a < s.len() implies !s[
        a].is_active_barter_subject by {
            if a < i {
                assert(s[a] == s0[a]);
            } else {
                assert(s[a] == s0[a + 1]);
            }
        }
        assert forall|a: int| 0 <= a < s.len() implies s[a].wf() && s[a].state
            != CustomerState::Despawning && s[a].id < handler.next_id by {
            if a < i {
                assert(s[a] == s0[a]);
            } else {
                assert(s[a] == s0[a + 1]);
            }
        }
        assert forall|a: int, b: int| 0 <= a < b < s.len() implies s[a].id != s[b].id by {
            assert(s[a] == if a < i {
                s0[a]
            } else {
                s0[a + 1]
            });
            assert(s[b] == if b < i {
                s0[b]
            } else {
                s0[b + 1]
            });
        }
    }
    departed
}

} // verus!
