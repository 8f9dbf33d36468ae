use shopkeep::barter::resolve_haggle_attempt;
use shopkeep::barter::handle_haggle_attempt_events;
use shopkeep::barter::open_barter_session;
use shopkeep::barter::begin_barter;
use shopkeep::barter::try_begin_barter;
use shopkeep::barter::end_barter;
use shopkeep::barter::Barter;
use shopkeep::barter::BarterResolutionTypes;
use shopkeep::barter::BarterResolved;
use shopkeep::barter::BarterState;
use shopkeep::barter::HaggleAttemptEvent;
use shopkeep::barter::HaggleResult;
use shopkeep::barter::HaggleType;
use shopkeep::barter::MAX_OPENING_PRICE;
use shopkeep::barter::MIN_OPENING_PRICE;
use shopkeep::customers::CustomerHandler;
use shopkeep::customers::CustomerState;
use shopkeep::customers::move_customers;
use shopkeep::player::Gold;

fn handler_with_customers(n: usize) -> CustomerHandler {
    let mut handler = CustomerHandler::default();
    for _ in 0..n {
        handler.spawn_new_random_customer();
    }
    handler
}

/// Walks one customer from spawn to its patrol, marks it for barter, and
/// ticks once more so it reaches the `Bartering` motion state.
fn handler_with_bartering_customer() -> (CustomerHandler, BarterState, Barter) {
    let mut handler = handler_with_customers(1);
    move_customers(&mut handler, 1_000); // falls to the floor
    move_customers(&mut handler, 1_000); // picks a patrol direction
    let mut state = BarterState::NotBartering;
    let barter = open_barter_session(&mut handler, &mut state, 40);
    move_customers(&mut handler, 100); // the mark pulls it into Bartering
    assert!(matches!(handler.active_customers[0].state, CustomerState::Bartering));
    (handler, state, barter)
}

#[test]
fn seeded_session_bully_then_plea() {
    let mut handler = handler_with_customers(1);
    let mut state = BarterState::NotBartering;
    let mut barter = open_barter_session(&mut handler, &mut state, 40);
    assert_eq!(barter.get_price(), 40);
    assert_eq!(barter.get_haggles().len(), 0);
    assert!(matches!(state, BarterState::Bartering));

    let bully = HaggleAttemptEvent { attempt_type: HaggleType::Bully };
    let r1 = resolve_haggle_attempt(&mut barter, &bully, true);
    assert!(matches!(r1.result, HaggleResult::Success));
    assert!(matches!(r1.attempt_type, HaggleType::Bully));
    assert_eq!(r1.new_price, 50);
    assert_eq!(barter.get_price(), 50);

    let plea = HaggleAttemptEvent { attempt_type: HaggleType::Plea };
    let r2 = resolve_haggle_attempt(&mut barter, &plea, false);
    assert!(matches!(r2.result, HaggleResult::Failure));
    assert_eq!(r2.new_price, 40);
    assert_eq!(barter.get_price(), 40);

    let log = barter.get_haggles();
    assert_eq!(log.len(), 2);
    assert_eq!(log[0], r1);
    assert_eq!(log[1], r2);
}

#[test]
fn failed_haggle_at_low_price_floors_at_zero() {
    let mut handler = handler_with_customers(1);
    let mut state = BarterState::NotBartering;
    let mut barter = open_barter_session(&mut handler, &mut state, 5);
    let plea = HaggleAttemptEvent { attempt_type: HaggleType::Plea };
    let r = resolve_haggle_attempt(&mut barter, &plea, false);
    assert_eq!(r.new_price, 0);
    assert_eq!(barter.get_price(), 0);
}

#[test]
fn successful_haggle_at_top_price_saturates() {
    let mut handler = handler_with_customers(1);
    let mut state = BarterState::NotBartering;
    let mut barter = open_barter_session(&mut handler, &mut state, u32::MAX - 5);
    let bully = HaggleAttemptEvent { attempt_type: HaggleType::Bully };
    let r = resolve_haggle_attempt(&mut barter, &bully, true);
    assert_eq!(r.new_price, u32::MAX);
}

#[test]
fn begin_barter_draws_opening_price_in_range() {
    for _ in 0..50 {
        let mut handler = handler_with_customers(1);
        let mut state = BarterState::NotBartering;
        let barter = begin_barter(&mut handler, &mut state);
        assert!(MIN_OPENING_PRICE <= barter.get_price());
        assert!(barter.get_price() < MAX_OPENING_PRICE);
        assert!(handler.active_customers[0].is_active_barter_subject);
    }
}

#[test]
fn try_begin_barter_without_customer_is_rejected() {
    let mut handler = CustomerHandler::default();
    let mut state = BarterState::NotBartering;
    let r = try_begin_barter(&mut handler, &mut state);
    assert!(r.is_none());
    assert!(matches!(state, BarterState::NotBartering));
    assert_eq!(handler.active_customers.len(), 0);
}

#[test]
fn try_begin_barter_with_customer_opens_session() {
    let mut handler = handler_with_customers(2);
    let mut state = BarterState::NotBartering;
    let r = try_begin_barter(&mut handler, &mut state);
    assert!(r.is_some());
    assert!(matches!(state, BarterState::Bartering));
    assert!(handler.active_customers[0].is_active_barter_subject);
    assert!(!handler.active_customers[1].is_active_barter_subject);
}

#[test]
fn deny_closes_session_and_despawns_customer() {
    let (mut handler, mut state, barter) = handler_with_bartering_customer();
    let mut gold = Gold::default();
    let resolution = BarterResolved { resolution_type: BarterResolutionTypes::Deny };
    let departed = end_barter(&mut handler, &mut state, &resolution, &mut gold);
    drop(barter);
    assert!(matches!(state, BarterState::NotBartering));
    assert!(matches!(departed.state, CustomerState::Despawning));
    assert!(!departed.is_active_barter_subject);
    assert_eq!(handler.active_customers.len(), 0);
    assert_eq!(gold.amount, 0);
}

#[test]
fn approve_closes_session_and_credits_gold() {
    let (mut handler, mut state, barter) = handler_with_bartering_customer();
    let mut gold = Gold { amount: 7 };
    let amount = barter.get_price();
    let resolution = BarterResolved {
        resolution_type: BarterResolutionTypes::Approve { amount },
    };
    let departed = end_barter(&mut handler, &mut state, &resolution, &mut gold);
    assert!(matches!(state, BarterState::NotBartering));
    assert!(matches!(departed.state, CustomerState::Despawning));
    assert_eq!(handler.active_customers.len(), 0);
    assert_eq!(gold.amount, 7 + amount);
}

#[test]
fn end_barter_removes_subject_by_identity() {
    let mut handler = handler_with_customers(3);
    for _ in 0..2 {
        move_customers(&mut handler, 1_000);
    }
    let mut state = BarterState::NotBartering;
    let _barter = open_barter_session(&mut handler, &mut state, 40);
    move_customers(&mut handler, 100);
    let subject_id = handler.active_customers[0].id;
    let other_ids: Vec<u64> = handler.active_customers[1..].iter().map(|c| c.id).collect();
    let mut gold = Gold::default();
    let resolution = BarterResolved { resolution_type: BarterResolutionTypes::Deny };
    let departed = end_barter(&mut handler, &mut state, &resolution, &mut gold);
    assert_eq!(departed.id, subject_id);
    let remaining: Vec<u64> = handler.active_customers.iter().map(|c| c.id).collect();
    assert_eq!(remaining, other_ids);
    assert_eq!(handler.find_active_customer_index(), None);
}

#[test]
fn at_most_one_customer_is_marked_active() {
    let mut handler = handler_with_customers(3);
    let mut state = BarterState::NotBartering;
    let _barter = open_barter_session(&mut handler, &mut state, 40);
    let marked = handler
        .active_customers
        .iter()
        .filter(|c| c.is_active_barter_subject)
        .count();
    assert_eq!(marked, 1);
}

#[test]
fn batch_of_attempts_grows_log_one_per_attempt() {
    let mut handler = handler_with_customers(1);
    let mut state = BarterState::NotBartering;
    let mut barter = open_barter_session(&mut handler, &mut state, 40);
    let events = vec![
        HaggleAttemptEvent { attempt_type: HaggleType::Bully },
        HaggleAttemptEvent { attempt_type: HaggleType::Persuade },
        HaggleAttemptEvent { attempt_type: HaggleType::Plea },
    ];
    let results = handle_haggle_attempt_events(&mut barter, &events);
    assert_eq!(results.len(), 3);
    assert_eq!(barter.get_haggles().len(), 3);
    let mut prev: u32 = 40;
    for (i, r) in results.iter().enumerate() {
        assert!(matches!(
            (&r.result, r.new_price == prev.saturating_add(10), r.new_price == prev.saturating_sub(10)),
            (HaggleResult::Success, true, _) | (HaggleResult::Failure, _, true)
        ));
        assert_eq!(barter.get_haggles()[i], *r);
        prev = r.new_price;
    }
    assert_eq!(barter.get_price(), prev);
}

#[test]
fn empty_batch_leaves_session_unchanged() {
    let mut handler = handler_with_customers(1);
    let mut state = BarterState::NotBartering;
    let mut barter = open_barter_session(&mut handler, &mut state, 40);
    let events: Vec<HaggleAttemptEvent> = Vec::new();
    let results = handle_haggle_attempt_events(&mut barter, &events);
    assert_eq!(results.len(), 0);
    assert_eq!(barter.get_price(), 40);
    assert_eq!(barter.get_haggles().len(), 0);
}

#[test]
fn log_result_and_update_price_track_the_record() {
    let mut handler = handler_with_customers(1);
    let mut state = BarterState::NotBartering;
    let mut barter = open_barter_session(&mut handler, &mut state, 40);
    barter.update_price(33);
    assert_eq!(barter.get_price(), 33);
    let record = shopkeep::barter::HaggleResultEvent {
        result: HaggleResult::Success,
        attempt_type: HaggleType::Persuade,
        new_price: 43,
    };
    barter.log_result(record);
    assert_eq!(barter.get_price(), 43);
    assert_eq!(barter.get_haggles().len(), 1);
    assert_eq!(barter.get_haggles()[0], record);
}

#[test]
fn haggle_type_names() {
    assert_eq!(HaggleType::get_string_name(HaggleType::Bully), "Bully");
    assert_eq!(HaggleType::get_string_name(HaggleType::Persuade), "Persuade");
    assert_eq!(HaggleType::get_string_name(HaggleType::Plea), "Plea");
    assert_eq!(HaggleType::Bully.get_string_name_from_instance(), "Bully");
    assert_eq!(HaggleType::Persuade.get_string_name_from_instance(), "Persuade");
    assert_eq!(HaggleType::Plea.get_string_name_from_instance(), "Plea");
}
