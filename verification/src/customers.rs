use vstd::prelude::*;
use crate::rng::random_in_range;

verus! {

// Patrol and bartering bounds on the shop floor, in millipixels; speeds are in
// millipixels per millisecond, so a speed of 25 covers 25 pixels per second.
// The bartering zone is a narrow band, tighter than the patrol bounds: a
// bartering customer drifts toward it and holds once inside.
pub const MAX_LEFT_CUSTOMER_BOUNDS: i64 = -120_000;
pub const MAX_RIGHT_CUSTOMER_BOUNDS: i64 = 120_000;
pub const MAX_LEFT_BARTERING_BOUNDS: i64 = -85_000;
pub const MAX_RIGHT_BARTERING_BOUNDS: i64 = -80_000;
pub const FLOOR_LEVEL: i64 = -46_000;
pub const DESPAWN_LEVEL: i64 = -200_000;
pub const SPAWN_X: i64 = 0;
pub const SPAWN_HEIGHT: i64 = 200_000;
pub const WALK_SPEED: i64 = 25;
pub const FALL_SPEED: i64 = 250;

/// The longest tick the motion machine accepts, in milliseconds.
pub const MAX_TICK_MILLIS: u64 = 1_000_000;

/// Positions stay within this limit: a customer can overshoot a patrol bound
/// by at most one step of `FALL_SPEED * MAX_TICK_MILLIS` before turning back.
pub const POSITION_LIMIT: i64 = 300_000_000;

/// Spawn cooldown: a short warm-up before the first customer, then a longer
/// pause after each spawn.
pub const SPAWN_WARMUP_MILLIS: u64 = 1_000;
pub const SPAWN_COOLDOWN_MILLIS: u64 = 5_000;

// Ranges for the randomized per-customer traits.
pub const MIN_PURCHASE_AMOUNT: u32 = 100;
pub const MAX_PURCHASE_AMOUNT: u32 = 500;
pub const MIN_RESISTANCE: i32 = 25;
pub const MAX_RESISTANCE: i32 = 75;

/// How many customers may be on the floor at once.
pub struct CustomerSettings {
    pub max_num: u32,
}

impl Default for CustomerSettings {
    fn default() -> (s: CustomerSettings)
        ensures
            s.max_num == 5,
    {
        CustomerSettings { max_num: 5 }
    }
}

/// A customer's motion state. `Spawned` is the entry state; the patrol states
/// alternate between the bounds; `Bartering` and `Despawning` are reached only
/// through the barter session, never through the patrol itself.
#[derive(Clone, Copy, Debug, PartialEq, Eq, Structural)]
pub enum CustomerState {
    MoveLeft,
    MoveRight,
    Spawned,
    Bartering,
    Despawning,
}

#[derive(Clone, Debug, PartialEq)]
pub struct Name {
    pub name: String,
}

#[derive(Clone, Copy, Debug, PartialEq, Eq, Structural)]
pub struct MaxPurchaseAmount {
    pub max: u32,
}

#[derive(Clone, Copy, Debug, PartialEq, Eq, Structural)]
pub struct CustomerDifficulty {
    pub bully_resistance: i32,
    pub persuade_resistance: i32,
    pub plead_resistance: i32,
}

/// One customer on the shop floor: identity, display traits, motion state,
/// position, and the "active barter subject" flag that the barter session
/// raises on at most one customer at a time.
#[derive(Clone, Debug)]
pub struct Customer {
    pub id: u64,
    pub name: Name,
    pub max_purchase_amount: MaxPurchaseAmount,
    pub difficulty: CustomerDifficulty,
    pub state: CustomerState,
    pub x: i64,
    pub y: i64,
    pub is_active_barter_subject: bool,
}

impl Customer {
    /// Positions stay inside the world limits; every motion step keeps this.
    pub open spec fn wf(&self) -> bool {
        &&& -POSITION_LIMIT <= self.x <= POSITION_LIMIT
        &&& -POSITION_LIMIT <= self.y <= POSITION_LIMIT
    }
}

/// What a freshly spawned customer looks like: entry motion state, the spawn
/// position above the floor, no barter mark, and traits inside their ranges.
pub open spec fn is_fresh_spawn(c: Customer, id: u64) -> bool {
    &&& c.id == id
    &&& c.name.name@ == "Bob"@
    &&& c.state == CustomerState::Spawned
    &&& c.x == SPAWN_X
    &&& c.y == SPAWN_HEIGHT
    &&& !c.is_active_barter_subject
    &&& MIN_PURCHASE_AMOUNT <= c.max_purchase_amount.max < MAX_PURCHASE_AMOUNT
    &&& MIN_RESISTANCE <= c.difficulty.bully_resistance < MAX_RESISTANCE
    &&& MIN_RESISTANCE <= c.difficulty.persuade_resistance < MAX_RESISTANCE
    &&& MIN_RESISTANCE <= c.difficulty.plead_resistance < MAX_RESISTANCE
}

impl Customer {
    /// Builds a customer with randomized traits, as the registry spawns them.
    pub fn new_random(id: u64) -> (c: Customer)
        ensures
            is_fresh_spawn(c, id),
            c.wf(),
    {
        let max: u64 = random_in_range(MIN_PURCHASE_AMOUNT as u64, MAX_PURCHASE_AMOUNT as u64);
        let bully: u64 = random_in_range(MIN_RESISTANCE as u64, MAX_RESISTANCE as u64);
        let persuade: u64 = random_in_range(MIN_RESISTANCE as u64, MAX_RESISTANCE as u64);
        let plead: u64 = random_in_range(MIN_RESISTANCE as u64, MAX_RESISTANCE as u64);
        Customer {
            id,
            name: Name { name: "Bob".to_string() },
            max_purchase_amount: MaxPurchaseAmount { max: max as u32 },
            difficulty: CustomerDifficulty {
                bully_resistance: bully as i32,
                persuade_resistance: persuade as i32,
                plead_resistance: plead as i32,
            },
            state: CustomerState::Spawned,
            x: SPAWN_X,
            y: SPAWN_HEIGHT,
            is_active_barter_subject: false,
        }
    }
}

/// No customer in the sequence carries the active-barter mark.
pub open spec fn none_active(s: Seq<Customer>) -> bool {
    forall|i: int| 0 <= i < s.len() ==> !s[i].is_active_barter_subject
}

/// At most one customer in the sequence carries the active-barter mark.
pub open spec fn at_most_one_active(s: Seq<Customer>) -> bool {
    forall|i: int, j: int|
        0 <= i < s.len() && 0 <= j < s.len() && i != j ==> !(s[i].is_active_barter_subject
            && s[j].is_active_barter_subject)
}

/// Some customer in the sequence carries the active-barter mark.
pub open spec fn has_active(s: Seq<Customer>) -> bool {
    exists|i: int| 0 <= i < s.len() && s[i].is_active_barter_subject
}

/// The index of the marked customer; meaningful when `has_active` holds and
/// unique under `at_most_one_active`.
pub open spec fn active_index(s: Seq<Customer>) -> int {
    choose|i: int| 0 <= i < s.len() && s[i].is_active_barter_subject
}

/// The same customer with the active-barter mark set or cleared.
pub open spec fn with_active_flag(c: Customer, v: bool) -> Customer {
    Customer { is_active_barter_subject: v, ..c }
}

/// The registry of customers on the shop floor, in spawn order; the head of
/// the list is the next customer offered for barter.
pub struct CustomerHandler {
    pub active_customers: Vec<Customer>,
    pub next_id: u64,
}

impl CustomerHandler {
    /// The identity that the next spawned customer will receive.
    pub open spec fn spec_next_id(&self) -> u64 {
        self.next_id
    }

    /// The registry invariant: well-formed positions, no despawning leftovers
    /// (a despawning customer leaves the registry at once), at most one
    /// active-barter mark, and distinct identities below the id counter.
    pub open spec fn inv(&self) -> bool {
        &&& forall|i: int| 0 <= i < self.active_customers@.len() ==> self.active_customers@[i].wf()
        &&& forall|i: int|
            0 <= i < self.active_customers@.len() ==> self.active_customers@[i].state
                != CustomerState::Despawning
        &&& at_most_one_active(self.active_customers@)
        &&& forall|i: int|
            0 <= i < self.active_customers@.len() ==> self.active_customers@[i].id
                < self.spec_next_id()
        &&& forall|i: int, j: int|
            0 <= i < j < self.active_customers@.len() ==> self.active_customers@[i].id
                != self.active_customers@[j].id
    }
}

/// Law: under the registry invariant, at most one customer carries the
/// active-barter mark at any time; every operation of the library preserves
/// the invariant.
pub proof fn lemma_at_most_one_active(h: &CustomerHandler)
    requires
        h.inv(),
    ensures
        at_most_one_active(h.active_customers@),
{
}

impl Default for CustomerHandler {
    fn default() -> (h: CustomerHandler)
        ensures
            h.active_customers@.len() == 0,
            h.spec_next_id() == 0,
            h.inv(),
    {
        CustomerHandler { active_customers: Vec::new(), next_id: 0 }
    }
}

impl CustomerHandler {
    /// Creates a customer with randomized traits, appends it at the end of the
    /// active list (spawn order is kept), and returns its identity.
    pub fn spawn_new_random_customer(&mut self) -> (id: u64)
        requires
            old(self).inv(),
            old(self).spec_next_id() < u64::MAX,
        ensures
            final(self).inv(),
            final(self).active_customers@.len() == old(self).active_customers@.len() + 1,
            final(self).active_customers@ == old(self).active_customers@.push(
                final(self).active_customers@.last(),
            ),
            is_fresh_spawn(final(self).active_customers@.last(), id),
            id == old(self).spec_next_id(),
            final(self).spec_next_id() == old(self).spec_next_id() + 1,
    {
        let id = self.next_id;
        self.next_id = self.next_id + 1;
        let c = Customer::new_random(id);
        self.active_customers.push(c);
        id
    }

    /// Returns the identity of the earliest-spawned still-active customer
    /// without removing it; empty-handed when nobody is on the floor.
    pub fn get_next_customer(&self) -> (r: Option<u64>)
        ensures
            match r {
                Some(id) => self.active_customers@.len() > 0 && id
                    == self.active_customers@[0].id,
                None => self.active_customers@.len() == 0,
            },
    {
        if self.active_customers.len() > 0 {
            Some(self.active_customers[0].id)
        } else {
            None
        }
    }

    /// Sets or clears the active-barter mark on the customer at `i`; the
    /// barter session keeps the mark on at most one customer.
    pub(crate) fn set_active_flag(&mut self, i: usize, v: bool)
        requires
            i < old(self).active_customers@.len(),
        ensures
            final(self).active_customers@ == old(self).active_customers@.update(
                i as int,
                with_active_flag(old(self).active_customers@[i as int], v),
            ),
            final(self).next_id == old(self).next_id,
    {
        let mut c = self.active_customers.remove(i);
        c.is_active_barter_subject = v;
        self.active_customers.insert(i, c);
        proof {
            assert(self.active_customers@ =~= old(self).active_customers@.update(
                i as int,
                with_active_flag(old(self).active_customers@[i as int], v),
            ));
        }
    }

    /// Finds the customer carrying the active-barter mark, earliest first.
    pub fn find_active_customer_index(&self) -> (r: Option<usize>)
        ensures
            match r {
                Some(i) => i < self.active_customers@.len()
                    && self.active_customers@[i as int].is_active_barter_subject,
                None => none_active(self.active_customers@),
            },
    {
        let n = self.active_customers.len();
        let mut i: usize = 0;
        while i < n
            invariant
                i <= n,
                n == self.active_customers@.len(),
                forall|j: int| 0 <= j < i ==> !self.active_customers@[j].is_active_barter_subject,
            decreases n - i,
        {
            if self.active_customers[i].is_active_barter_subject {
                return Some(i);
            }
            i += 1;
        }
        None
    }

    /// Removes the customer at the given position. An out-of-range index is a
    /// caller sequencing bug, ruled out by the precondition.
    pub fn remove_customer_at_index(&mut self, i: usize)
        requires
            i < old(self).active_customers@.len(),
        ensures
            final(self).active_customers@ == old(self).active_customers@.remove(i as int),
            final(self).spec_next_id() == old(self).spec_next_id(),
            old(self).inv() ==> final(self).inv(),
    {
        self.active_customers.remove(i);
    }
}

/// The legal motion transitions: a customer falls in, patrols between the
/// bounds, is pulled into bartering only while marked, and despawns only out
/// of bartering; `Despawning` leads nowhere but destruction.
pub open spec fn legal_motion_edge(pre: CustomerState, post: CustomerState) -> bool {
    ||| pre == post
    ||| (pre == CustomerState::Spawned && (post == CustomerState::MoveLeft || post
        == CustomerState::MoveRight))
    ||| (pre == CustomerState::MoveLeft && post == CustomerState::MoveRight)
    ||| (pre == CustomerState::MoveRight && post == CustomerState::MoveLeft)
    ||| ((pre == CustomerState::MoveLeft || pre == CustomerState::MoveRight) && post
        == CustomerState::Bartering)
    ||| (pre == CustomerState::Bartering && post == CustomerState::Despawning)
}

/// One tick of the per-customer motion machine, as a relation between the
/// customer before and after the tick. `coin` is the direction draw, consulted
/// only when a falling customer reaches the floor; `destroyed` reports that a
/// despawning customer crossed the despawn threshold and leaves the world.
/// Identity, traits and the active-barter mark never change here.
pub open spec fn motion_step_rel(
    pre: Customer,
    post: Customer,
    dt: u64,
    coin: bool,
    destroyed: bool,
) -> bool {
    &&& post.id == pre.id
    &&& post.name == pre.name
    &&& post.max_purchase_amount == pre.max_purchase_amount
    &&& post.difficulty == pre.difficulty
    &&& post.is_active_barter_subject == pre.is_active_barter_subject
    &&& match pre.state {
        CustomerState::Spawned => {
            &&& !destroyed
            &&& post.x == pre.x
            &&& if pre.y > FLOOR_LEVEL {
                post.state == CustomerState::Spawned && post.y == pre.y - FALL_SPEED * dt
            } else {
                post.y == pre.y && post.state == (if coin {
                    CustomerState::MoveRight
                } else {
                    CustomerState::MoveLeft
                })
            }
        },
        CustomerState::MoveLeft => {
            &&& !destroyed
            &&& post.y == pre.y
            &&& if pre.is_active_barter_subject {
                post.state == CustomerState::Bartering && post.x == pre.x
            } else if pre.x > MAX_LEFT_CUSTOMER_BOUNDS {
                post.state == CustomerState::MoveLeft && post.x == pre.x - WALK_SPEED * dt
            } else {
                post.state == CustomerState::MoveRight && post.x == pre.x + WALK_SPEED * dt
            }
        },
        CustomerState::MoveRight => {
            &&& !destroyed
            &&& post.y == pre.y
            &&& if pre.is_active_barter_subject {
                post.state == CustomerState::Bartering && post.x == pre.x
            } else if pre.x < MAX_RIGHT_CUSTOMER_BOUNDS {
                post.state == CustomerState::MoveRight && post.x == pre.x + WALK_SPEED * dt
            } else {
                post.state == CustomerState::MoveLeft && post.x == pre.x - WALK_SPEED * dt
            }
        },
        CustomerState::Bartering => {
            &&& !destroyed
            &&& post.y == pre.y
            &&& post.state == CustomerState::Bartering
            &&& if pre.x > MAX_RIGHT_BARTERING_BOUNDS {
                post.x == pre.x - WALK_SPEED * dt
            } else if pre.x < MAX_LEFT_BARTERING_BOUNDS {
                post.x == pre.x + WALK_SPEED * dt
            } else {
                post.x == pre.x
            }
        },
        CustomerState::Despawning => {
            &&& post.x == pre.x
            &&& post.state == CustomerState::Despawning
            &&& if pre.y > DESPAWN_LEVEL {
                !destroyed && post.y == pre.y - FALL_SPEED * dt
            } else {
                destroyed && post.y == pre.y
            }
        },
    }
}

/// Law: one motion tick moves a customer's state only along the legal edges,
/// and a despawning customer never re-enters any other state.
pub proof fn lemma_motion_step_legal(
    pre: Customer,
    post: Customer,
    dt: u64,
    coin: bool,
    destroyed: bool,
)
    requires
        motion_step_rel(pre, post, dt, coin, destroyed),
    ensures
        legal_motion_edge(pre.state, post.state),
        pre.state == CustomerState::Despawning ==> post.state == CustomerState::Despawning,
{
}

/// Law: a patrolling customer is pulled into bartering exactly when it
/// carries the active-barter mark at the start of the tick; the transition is
/// immediate and the customer does not move that tick.
pub proof fn lemma_marked_patroller_enters_bartering(
    pre: Customer,
    post: Customer,
    dt: u64,
    coin: bool,
    destroyed: bool,
)
    requires
        motion_step_rel(pre, post, dt, coin, destroyed),
        pre.state == CustomerState::MoveLeft || pre.state == CustomerState::MoveRight,
    ensures
        (post.state == CustomerState::Bartering) <==> pre.is_active_barter_subject,
        pre.is_active_barter_subject ==> post.x == pre.x && post.y == pre.y,
{
}

/// A surviving customer moved by one motion tick, under some direction draw.
pub open spec fn stepped_customer(pre: Customer, post: Customer, dt: u64) -> bool {
    exists|coin: bool| motion_step_rel(pre, post, dt, coin, false)
}

/// Applies one motion tick to a customer in place. Returns whether the
/// customer crossed the despawn threshold and is to be destroyed.
pub fn customer_motion_step(c: &mut Customer, dt: u64, coin: bool) -> (destroyed: bool)
    requires
        old(c).wf(),
        dt <= MAX_TICK_MILLIS,
    ensures
        motion_step_rel(*old(c), *final(c), dt, coin, destroyed),
        final(c).wf(),
{
    let walk: i64 = WALK_SPEED * (dt as i64);
    let fall: i64 = FALL_SPEED * (dt as i64);
    match c.state {
        CustomerState::Spawned => {
            if c.y > FLOOR_LEVEL {
                c.y = c.y - fall;
            } else {
                c.state = if coin {
                    CustomerState::MoveRight
                } else {
                    CustomerState::MoveLeft
                };
            }
            false
        },
        CustomerState::MoveLeft => {
            if c.is_active_barter_subject {
                c.state = CustomerState::Bartering;
            } else if c.x > MAX_LEFT_CUSTOMER_BOUNDS {
                c.x = c.x - walk;
            } else {
                c.state = CustomerState::MoveRight;
                c.x = c.x + walk;
            }
            false
        },
        CustomerState::MoveRight => {
            if c.is_active_barter_subject {
                c.state = CustomerState::Bartering;
            } else if c.x < MAX_RIGHT_CUSTOMER_BOUNDS {
                c.x = c.x + walk;
            } else {
                c.state = CustomerState::MoveLeft;
                c.x = c.x - walk;
            }
            false
        },
        CustomerState::Bartering => {
            if c.x > MAX_RIGHT_BARTERING_BOUNDS {
                c.x = c.x - walk;
            } else if c.x < MAX_LEFT_BARTERING_BOUNDS {
                c.x = c.x + walk;
            }
            false
        },
        CustomerState::Despawning => {
            if c.y > DESPAWN_LEVEL {
                c.y = c.y - fall;
                false
            } else {
                true
            }
        },
    }
}

/// The spawn cooldown timer; it counts down as ticks elapse and is due when
/// it reaches zero.
pub struct SpawnTimer {
    remaining_millis: u64,
}

impl SpawnTimer {
    pub closed spec fn spec_remaining(&self) -> u64 {
        self.remaining_millis
    }

    pub fn new(millis: u64) -> (t: SpawnTimer)
        ensures
            t.spec_remaining() == millis,
    {
        SpawnTimer { remaining_millis: millis }
    }

    /// Elapses `dt` milliseconds, stopping at zero.
    pub fn tick(&mut self, dt: u64)
        ensures
            final(self).spec_remaining() == ticked_remaining(old(self).spec_remaining(), dt),
    {
        self.remaining_millis = self.remaining_millis.saturating_sub(dt);
    }

    pub fn finished(&self) -> (b: bool)
        ensures
            b == (self.spec_remaining() == 0),
    {
        self.remaining_millis == 0
    }
}

impl Default for SpawnTimer {
    /// A fresh timer holds the initial warm-up before the first spawn.
    fn default() -> (t: SpawnTimer)
        ensures
            t.spec_remaining() == SPAWN_WARMUP_MILLIS,
    {
        SpawnTimer { remaining_millis: SPAWN_WARMUP_MILLIS }
    }
}

/// What remains on a timer holding `t` milliseconds after `dt` elapse.
pub open spec fn ticked_remaining(t: u64, dt: u64) -> u64 {
    if t >= dt {
        (t - dt) as u64
    } else {
        0
    }
}

/// One run of the spawner: elapses the tick on the cooldown timer, and when
/// the timer is due and the floor is below the configured maximum, spawns one
/// randomized customer at the end of the list and rearms the timer with the
/// cooldown. Otherwise nothing changes.
pub fn spawn_customers_if_below_max_num(
    handler: &mut CustomerHandler,
    settings: &CustomerSettings,
    spawn_timer: &mut SpawnTimer,
    dt: u64,
) -> (spawned: Option<u64>)
    requires
        old(handler).inv(),
    ensures
        final(handler).inv(),
        ({
            let due = ticked_remaining(old(spawn_timer).spec_remaining(), dt) == 0 && old(
                handler,
            ).active_customers@.len() < settings.max_num && old(handler).spec_next_id()
                < u64::MAX;
            if due {
                &&& spawned == Some(old(handler).spec_next_id())
                &&& final(handler).active_customers@ == old(handler).active_customers@.push(
                    final(handler).active_customers@.last(),
                )
                &&& is_fresh_spawn(
                    final(handler).active_customers@.last(),
                    old(handler).spec_next_id(),
                )
                &&& final(handler).spec_next_id() == old(handler).spec_next_id() + 1
                &&& final(spawn_timer).spec_remaining() == SPAWN_COOLDOWN_MILLIS
            } else {
                &&& spawned is None
                &&& *final(handler) == *old(handler)
                &&& final(spawn_timer).spec_remaining() == ticked_remaining(
                    old(spawn_timer).spec_remaining(),
                    dt,
                )
            }
        }),
{
    spawn_timer.tick(dt);
    if handler.active_customers.len() < settings.max_num as usize && spawn_timer.finished()
        && handler.next_id < u64::MAX {
        let id = handler.spawn_new_random_customer();
        *spawn_timer = SpawnTimer::new(SPAWN_COOLDOWN_MILLIS);
        Some(id)
    } else {
        None
    }
}

/// One motion tick over the whole floor: every customer in the registry is
/// stepped exactly once with the same `dt`; a falling customer that reached
/// the floor gets a fresh direction draw. Nobody in the registry despawns
/// (despawning customers leave the registry when their barter closes), so the
/// list keeps its length, order, identities and barter marks.
pub fn move_customers(handler: &mut CustomerHandler, dt: u64)
    requires
        old(handler).inv(),
        dt <= MAX_TICK_MILLIS,
    ensures
        final(handler).inv(),
        final(handler).next_id == old(handler).next_id,
        final(handler).active_customers@.len() == old(handler).active_customers@.len(),
        forall|i: int| #![auto]
            0 <= i < old(handler).active_customers@.len() ==> stepped_customer(
                old(handler).active_customers@[i],
                final(handler).active_customers@[i],
                dt,
            ),
{
    let ghost s0 = handler.active_customers@;
    let n = handler.active_customers.len();
    let mut i: usize = 0;
    while i < n
        invariant
            i <= n,
            n == handler.active_customers@.len(),
            n == s0.len(),
            handler.next_id == old(handler).next_id,
            dt <= MAX_TICK_MILLIS,
            s0 == old(handler).active_customers@,
            old(handler).inv(),
            forall|j: int| i <= j < n ==> handler.active_customers@[j] == s0[j],
            forall|j: int| #![auto]
                0 <= j < i ==> stepped_customer(s0[j], handler.active_customers@[j], dt),
            forall|j: int| 0 <= j < i ==> handler.active_customers@[j].wf(),
            forall|j: int|
                0 <= j < i ==> handler.active_customers@[j].state != CustomerState::Despawning,
            forall|j: int| #![auto]
                0 <= j < i ==> handler.active_customers@[j].is_active_barter_subject
                    == s0[j].is_active_barter_subject,
            forall|j: int| #![auto] 0 <= j < i ==> handler.active_customers@[j].id == s0[j].id,
        decreases n - i,
    {
        let at_floor = matches!(handler.active_customers[i].state, CustomerState::Spawned)
            && handler.active_customers[i].y <= FLOOR_LEVEL;
        let coin: bool = if at_floor {
            random_in_range(0, 2) == 0
        } else {
            false
        };
        let ghost pre_seq = handler.active_customers@;
        proof {
            assert(pre_seq[i as int] == s0[i as int]);
            assert(old(handler).active_customers@[i as int].wf());
            assert(old(handler).active_customers@[i as int].state != CustomerState::Despawning);
        }
        let mut c = handler.active_customers.remove(i);
        let _destroyed = customer_motion_step(&mut c, dt, coin);
        proof {
            assert(motion_step_rel(s0[i as int], c, dt, coin, false));
        }
        handler.active_customers.insert(i, c);
        proof {
            assert(handler.active_customers@ =~= pre_seq.update(i as int, c));
            assert(handler.active_customers@[i as int] == c);
            assert(motion_step_rel(s0[i as int], handler.active_customers@[i as int], dt, coin, false));
            assert forall|j: int| 0 <= j < i + 1 implies #[trigger] stepped_customer(
                s0[j],
                handler.active_customers@[j],
                dt,
            ) by {
                if j < i {
                    assert(handler.active_customers@[j] == pre_seq[j]);
                } else {
                    assert(motion_step_rel(s0[j], handler.active_customers@[j], dt, coin, false));
                }
            }
        }
        i += 1;
    }
    proof {
        let s = handler.active_customers@;
        assert forall|a: int, b: int|
            0 <= a < s.len() && 0 <= b < s.len() && a != b implies !(
        s[a].is_active_barter_subject && s[b].is_active_barter_subject) by {
            assert(s[a].is_active_barter_subject == s0[a].is_active_barter_subject);
            assert(s[b].is_active_barter_subject == s0[b].is_active_barter_subject);
            assert(!(s0[a].is_active_barter_subject && s0[b].is_active_barter_subject));
        }
        assert forall|a: int, b: int| 0 <= a < b < s.len() implies s[a].id != s[b].id by {
            assert(s[a].id == s0[a].id);
            assert(s[b].id == s0[b].id);
        }
        assert forall|a: int| 0 <= a < s.len() implies s[a].id < handler.next_id by {
            assert(s[a].id == s0[a].id);
        }
    }
}

} // verus!
