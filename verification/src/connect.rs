//! One round of attempts to reach the phone: which device is tried next, how often, and which
//! devices are left alone for a while.
//!
//! A round walks the list of addresses once, from a starting place and around. A device whose
//! radio did not answer is not tried again until a cooldown has passed.

use vstd::prelude::*;
use std::collections::HashMap;
use crate::address::{address_key, key_of, Address};
use crate::text::{contains, occurs_in};

verus! {

/// How often a device is tried in one round.
pub const ATTEMPTS: usize = 3;

/// How long, in nanoseconds, a device that did not answer is left alone.
pub const PAGE_TIMEOUT_COOLDOWN: u128 = 60_000_000_000;

/// What the error of a connection attempt says when the device did not answer.
pub const PAGE_TIMEOUT: &'static str = "br-connection-page-timeout";

/// The time from `since` to `now`, or zero if `now` is earlier.
pub open spec fn elapsed(since: u128, now: u128) -> int {
    if now >= since {
        now - since
    } else {
        0
    }
}

/// The time from `since` to `now`, or zero if `now` is earlier.
pub fn elapsed_since(since: u128, now: u128) -> (d: u128)
    ensures
        d == elapsed(since, now),
{
    if now >= since {
        now - since
    } else {
        0
    }
}

/// Whether the device with number `key` is being left alone at `now`. The map holds, for each
/// such device, when it last did not answer.
pub open spec fn cooling(cooldowns: Map<u64, u128>, key: u64, now: u128) -> bool {
    cooldowns.contains_key(key) && elapsed(cooldowns[key], now) < PAGE_TIMEOUT_COOLDOWN
}

/// The place in a list of `n` devices that has turn `turn` in a round that begins at `start`.
pub open spec fn place(start: int, turn: int, n: int) -> int {
    (start + turn) % n
}

/// The first turn, from `turn` on, of a device that is not being left alone; the number of
/// devices if there is none.
pub open spec fn first_ready(
    addresses: Seq<Address>,
    start: int,
    turn: int,
    cooldowns: Map<u64, u128>,
    now: u128,
) -> int
    decreases addresses.len() - turn,
{
    if turn >= addresses.len() {
        addresses.len() as int
    } else if cooling(
        cooldowns,
        address_key(addresses[place(start, turn, addresses.len() as int)]@),
        now,
    ) {
        first_ready(addresses, start, turn + 1, cooldowns, now)
    } else {
        turn
    }
}

/// Where a round stands.
#[derive(Debug, Clone, Copy, PartialEq, Eq, Structural)]
pub enum RoundPhase {
    /// The round has not begun.
    New,
    /// The device whose turn it is is being looked up.
    Opening,
    /// An attempt on that device has begun: its number, counted from one.
    Trying(usize),
    /// The device of that attempt is paired and is being connected to.
    Joining(usize),
    /// The round is over.
    Over,
}

/// A round of attempts.
#[derive(Debug, Clone)]
pub struct ConnectRound {
    pub addresses: Vec<Address>,
    pub start: usize,
    pub turn: usize,
    pub phase: RoundPhase,
}

/// What happened to what a round asked for.
#[derive(Debug, Clone)]
pub enum ConnectEvent {
    /// The round begins.
    Begin,
    /// The adapter knows the device.
    DeviceOpened,
    /// The adapter does not know the device.
    DeviceUnavailable,
    /// Whether the device is paired, if that could be read.
    PairingRead(Option<bool>),
    /// The profile of the device is connected.
    Connected,
    /// Connecting failed, with this error.
    ConnectFailed(String),
}

/// What a round asks for next.
#[derive(Debug, Clone, Copy, PartialEq, Eq)]
pub enum ConnectStep {
    /// Look up the device at this address.
    Open(Address),
    /// Begin an attempt on the device at this address: read whether it is paired. The number of
    /// the attempt.
    Attempt(Address, usize),
    /// Connect to the device at this address.
    Connect(Address),
    /// The round is over: connected to this address, and the next round begins here.
    Connected(usize, Address),
    /// The round is over: no device could be reached.
    Unreachable,
    /// The round is over: a device could not be looked up.
    DeviceError,
}

/// A round and the cooldowns after a step, and what the step asks for.
pub struct AfterConnect {
    pub turn: int,
    pub phase: RoundPhase,
    pub cooldowns: Map<u64, u128>,
    pub step: ConnectStep,
}

impl ConnectRound {
    /// What always holds of a round: a device has the turn while one is being tried, and no
    /// attempt has a number above the limit.
    pub open spec fn valid(&self) -> bool {
        &&& self.turn <= self.addresses.len()
        &&& self.phase == RoundPhase::New ==> self.turn == 0
        &&& self.phase == RoundPhase::Opening || self.phase is Trying || self.phase is Joining
            ==> self.turn < self.addresses.len()
        &&& self.phase matches RoundPhase::Trying(k) ==> 1 <= k <= ATTEMPTS
        &&& self.phase matches RoundPhase::Joining(k) ==> 1 <= k <= ATTEMPTS
    }

    /// The address whose turn is `turn`.
    pub open spec fn address_at(&self, turn: int) -> Address {
        self.addresses@[place(self.start as int, turn, self.addresses@.len() as int)]
    }

    /// Whether `event` can happen where the round stands.
    pub open spec fn accepts(&self, event: ConnectEvent) -> bool {
        match event {
            ConnectEvent::Begin => self.phase == RoundPhase::New,
            ConnectEvent::DeviceOpened | ConnectEvent::DeviceUnavailable => self.phase
                == RoundPhase::Opening,
            ConnectEvent::PairingRead(_) => self.phase is Trying,
            ConnectEvent::Connected | ConnectEvent::ConnectFailed(_) => self.phase is Joining,
        }
    }

    /// What follows when the devices with a turn before `turn` are done with: the first device
    /// that is not being left alone is looked up, and an entry that kept it waiting is dropped.
    pub open spec fn seek(&self, turn: int, cooldowns: Map<u64, u128>, now: u128) -> AfterConnect {
        let next = first_ready(self.addresses@, self.start as int, turn, cooldowns, now);
        if next < self.addresses@.len() {
            AfterConnect {
                turn: next,
                phase: RoundPhase::Opening,
                cooldowns: cooldowns.remove(address_key(self.address_at(next)@)),
                step: ConnectStep::Open(self.address_at(next)),
            }
        } else {
            AfterConnect {
                turn: self.addresses@.len() as int,
                phase: RoundPhase::Over,
                cooldowns,
                step: ConnectStep::Unreachable,
            }
        }
    }

    /// What follows an event at time `now`.
    pub open spec fn after(
        &self,
        event: ConnectEvent,
        cooldowns: Map<u64, u128>,
        now: u128,
    ) -> AfterConnect {
        let turn = self.turn as int;
        let address = self.address_at(turn);
        let key = address_key(address@);
        match event {
            ConnectEvent::Begin => self.seek(0, cooldowns, now),
            ConnectEvent::DeviceOpened => AfterConnect {
                turn,
                phase: RoundPhase::Trying(1),
                cooldowns,
                step: ConnectStep::Attempt(address, 1),
            },
            ConnectEvent::DeviceUnavailable => AfterConnect {
                turn,
                phase: RoundPhase::Over,
                cooldowns,
                step: ConnectStep::DeviceError,
            },
            ConnectEvent::Connected => AfterConnect {
                turn,
                phase: RoundPhase::Over,
                cooldowns: cooldowns.remove(key),
                step: ConnectStep::Connected(
                    place(self.start as int, turn + 1, self.addresses@.len() as int) as usize,
                    address,
                ),
            },
            ConnectEvent::PairingRead(paired) => match self.phase {
                RoundPhase::Trying(k) if paired == Some(true) => AfterConnect {
                    turn,
                    phase: RoundPhase::Joining(k),
                    cooldowns,
                    step: ConnectStep::Connect(address),
                },
                _ => self.retry(cooldowns, now),
            },
            ConnectEvent::ConnectFailed(message) => if occurs_in(PAGE_TIMEOUT@, message@) {
                self.seek(turn + 1, cooldowns.insert(key, now), now)
            } else {
                self.retry(cooldowns, now)
            },
        }
    }

    /// What follows a failed attempt: another one on the same device, or the next device after
    /// the last attempt.
    pub open spec fn retry(&self, cooldowns: Map<u64, u128>, now: u128) -> AfterConnect {
        let turn = self.turn as int;
        let k = match self.phase {
            RoundPhase::Trying(k) => k,
            RoundPhase::Joining(k) => k,
            _ => ATTEMPTS,
        };
        if k < ATTEMPTS {
            AfterConnect {
                turn,
                phase: RoundPhase::Trying((k + 1) as usize),
                cooldowns,
                step: ConnectStep::Attempt(self.address_at(turn), (k + 1) as usize),
            }
        } else {
            self.seek(turn + 1, cooldowns, now)
        }
    }

    /// Whether this round and these cooldowns are what a step leads to.
    pub open spec fn reached(
        &self,
        cooldowns: Map<u64, u128>,
        from: ConnectRound,
        to: AfterConnect,
    ) -> bool {
        &&& self.addresses == from.addresses
        &&& self.start == from.start
        &&& self.turn == to.turn
        &&& self.phase == to.phase
        &&& cooldowns == to.cooldowns
    }
}

/// The place of turn `turn`, without overflow.
fn place_of(start: usize, turn: usize, n: usize) -> (p: usize)
    requires
        turn <= n,
        0 < n,
    ensures
        p == place(start as int, turn as int, n as int),
        p < n,
{
    let s: usize = start % n;
    proof {
        assert((start + turn) % (n as int) == (s + turn) % (n as int)) by (nonlinear_arith)
            requires
                s == start % n,
                n > 0,
        {
            vstd::arithmetic::div_mod::lemma_add_mod_noop(start as int, turn as int, n as int);
            vstd::arithmetic::div_mod::lemma_add_mod_noop(s as int, turn as int, n as int);
            vstd::arithmetic::div_mod::lemma_mod_twice(start as int, n as int);
        }
    }
    if turn < n - s {
        assert((s + turn) % (n as int) == s + turn) by {
            vstd::arithmetic::div_mod::lemma_small_mod((s + turn) as nat, n as nat);
        }
        s + turn
    } else {
        assert((s + turn) % (n as int) == s + turn - n) by {
            vstd::arithmetic::div_mod::lemma_mod_sub_multiples_vanish(s + turn, n as int);
            vstd::arithmetic::div_mod::lemma_small_mod((s + turn - n) as nat, n as nat);
        }
        turn - (n - s)
    }
}

impl ConnectRound {
    /// A round over `addresses` that begins at place `start`.
    pub fn new(addresses: Vec<Address>, start: usize) -> (r: ConnectRound)
        ensures
            r.addresses == addresses,
            r.start == start,
            r.turn == 0,
            r.phase == RoundPhase::New,
            r.valid(),
    {
        ConnectRound { addresses, start, turn: 0, phase: RoundPhase::New }
    }

    /// Moves on to the first device, from turn `turn` on, that is not being left alone.
    fn advance(
        &mut self,
        turn: usize,
        cooldowns: &mut HashMap<u64, u128>,
        now: u128,
    ) -> (step: ConnectStep)
        requires
            turn <= old(self).addresses.len(),
        ensures
            final(self).valid(),
            final(self).reached(
                final(cooldowns)@,
                *old(self),
                old(self).seek(turn as int, old(cooldowns)@, now),
            ),
            step == old(self).seek(turn as int, old(cooldowns)@, now).step,
    {
        broadcast use vstd::std_specs::hash::group_hash_axioms;

        let n: usize = self.addresses.len();
        let mut i: usize = turn;
        let ghost before = *self;
        let ghost held = cooldowns@;
        while i < n
            invariant
                i <= n,
                *self == before,
                cooldowns@ == held,
                n == self.addresses.len(),
                first_ready(before.addresses@, before.start as int, turn as int, held, now)
                    == first_ready(before.addresses@, before.start as int, i as int, held, now),
                before == *old(self),
                held == old(cooldowns)@,
                turn <= n,
            decreases n - i,
        {
            broadcast use vstd::std_specs::hash::group_hash_axioms;

            let address: Address = self.addresses[place_of(self.start, i, n)];
            let key: u64 = key_of(&address);
            let waiting: bool = match cooldowns.get(&key) {
                Some(failed_at) => elapsed_since(*failed_at, now) < PAGE_TIMEOUT_COOLDOWN,
                None => false,
            };
            if !waiting {
                cooldowns.remove(&key);
                self.turn = i;
                self.phase = RoundPhase::Opening;
                return ConnectStep::Open(address);
            }
            i += 1;
        }
        self.turn = n;
        self.phase = RoundPhase::Over;
        ConnectStep::Unreachable
    }

    /// Takes what happened and says what to do next.
    pub fn try_connect_bluetooth_addresses(
        &mut self,
        event: ConnectEvent,
        cooldowns: &mut HashMap<u64, u128>,
        now: u128,
    ) -> (step: ConnectStep)
        requires
            old(self).valid(),
            old(self).accepts(event),
        ensures
            final(self).valid(),
            final(self).reached(
                final(cooldowns)@,
                *old(self),
                old(self).after(event, old(cooldowns)@, now),
            ),
            step == old(self).after(event, old(cooldowns)@, now).step,
    {
        broadcast use vstd::std_specs::hash::group_hash_axioms;

        if let ConnectEvent::Begin = event {
            return self.advance(0, cooldowns, now);
        }
        let n: usize = self.addresses.len();
        let turn: usize = self.turn;
        let address: Address = self.addresses[place_of(self.start, turn, n)];
        let key: u64 = key_of(&address);
        match event {
            ConnectEvent::Begin => self.advance(0, cooldowns, now),
            ConnectEvent::DeviceOpened => {
                self.phase = RoundPhase::Trying(1);
                ConnectStep::Attempt(address, 1)
            },
            ConnectEvent::DeviceUnavailable => {
                self.phase = RoundPhase::Over;
                ConnectStep::DeviceError
            },
            ConnectEvent::Connected => {
                self.phase = RoundPhase::Over;
                cooldowns.remove(&key);
                ConnectStep::Connected(place_of(self.start, turn + 1, n), address)
            },
            ConnectEvent::PairingRead(paired) => {
                let joins: bool = match paired {
                    Some(p) => p,
                    None => false,
                };
                match self.phase {
                    RoundPhase::Trying(k) if joins => {
                        self.phase = RoundPhase::Joining(k);
                        ConnectStep::Connect(address)
                    },
                    _ => self.attempt_failed(address, cooldowns, now),
                }
            },
            ConnectEvent::ConnectFailed(message) => {
                if contains(message.as_str(), PAGE_TIMEOUT) {
                    cooldowns.insert(key, now);
                    self.advance(turn + 1, cooldowns, now)
                } else {
                    self.attempt_failed(address, cooldowns, now)
                }
            },
        }
    }

    /// Goes on after a failed attempt on `address`.
    fn attempt_failed(
        &mut self,
        address: Address,
        cooldowns: &mut HashMap<u64, u128>,
        now: u128,
    ) -> (step: ConnectStep)
        requires
            old(self).valid(),
            old(self).phase is Trying || old(self).phase is Joining,
            address == old(self).address_at(old(self).turn as int),
        ensures
            final(self).valid(),
            final(self).reached(final(cooldowns)@, *old(self), old(self).retry(old(cooldowns)@, now)),
            step == old(self).retry(old(cooldowns)@, now).step,
    {
        let turn: usize = self.turn;
        let k: usize = match self.phase {
            RoundPhase::Trying(k) => k,
            RoundPhase::Joining(k) => k,
            _ => ATTEMPTS,
        };
        if k < ATTEMPTS {
            self.phase = RoundPhase::Trying(k + 1);
            ConnectStep::Attempt(address, k + 1)
        } else {
            self.advance(turn + 1, cooldowns, now)
        }
    }
}

/// The device that is found next is the first one, from `turn` on, that is not being left
/// alone: every device passed over is.
pub proof fn law_first_ready_is_first(
    addresses: Seq<Address>,
    start: int,
    turn: int,
    cooldowns: Map<u64, u128>,
    now: u128,
)
    requires
        0 <= turn <= addresses.len(),
    ensures
        turn <= first_ready(addresses, start, turn, cooldowns, now) <= addresses.len(),
        forall|t: int|
            turn <= t < first_ready(addresses, start, turn, cooldowns, now) ==> cooling(
                cooldowns,
                address_key(addresses[#[trigger] place(start, t, addresses.len() as int)]@),
                now,
            ),
        first_ready(addresses, start, turn, cooldowns, now) < addresses.len() ==> !cooling(
            cooldowns,
            address_key(
                addresses[place(
                    start,
                    first_ready(addresses, start, turn, cooldowns, now),
                    addresses.len() as int,
                )]@,
            ),
            now,
        ),
    decreases addresses.len() - turn,
{
    if turn < addresses.len() && cooling(
        cooldowns,
        address_key(addresses[place(start, turn, addresses.len() as int)]@),
        now,
    ) {
        law_first_ready_is_first(addresses, start, turn + 1, cooldowns, now);
    }
}

/// Whether the device at place `p` has a turn in a round over `n` devices.
pub open spec fn has_turn(start: int, n: int, p: int) -> bool {
    exists|i: int| 0 <= i < n && #[trigger] place(start, i, n) == p
}

/// In a round over `n` devices every device has exactly one turn.
pub proof fn law_every_device_has_one_turn(start: int, n: int)
    requires
        0 <= start,
        0 < n,
    ensures
        forall|i: int, j: int|
            0 <= i < n && 0 <= j < n && i != j ==> #[trigger] place(start, i, n) != #[trigger] place(
                start,
                j,
                n,
            ),
        forall|p: int| 0 <= p < n ==> #[trigger] has_turn(start, n, p),
{
    assert forall|i: int, j: int| 0 <= i < n && 0 <= j < n && i != j implies #[trigger] place(
        start,
        i,
        n,
    ) != #[trigger] place(start, j, n) by {
        if place(start, i, n) == place(start, j, n) {
            vstd::arithmetic::div_mod::lemma_fundamental_div_mod(start + i, n);
            vstd::arithmetic::div_mod::lemma_fundamental_div_mod(start + j, n);
            let a = (start + i) / n;
            let b = (start + j) / n;
            assert(i - j == n * (a - b)) by (nonlinear_arith)
                requires
                    start + i == n * a + (start + i) % n,
                    start + j == n * b + (start + j) % n,
                    (start + i) % n == (start + j) % n,
            ;
            assert(a == b) by (nonlinear_arith)
                requires
                    i - j == n * (a - b),
                    -n < i - j < n,
                    n > 0,
            ;
        }
    }
    assert forall|p: int| 0 <= p < n implies #[trigger] has_turn(start, n, p) by {
        let i = (p - start) % n;
        assert(0 <= i < n) by {
            vstd::arithmetic::div_mod::lemma_mod_bound(p - start, n);
        }
        assert(place(start, i, n) == p) by {
            vstd::arithmetic::div_mod::lemma_add_mod_noop_right(start, p - start, n);
            vstd::arithmetic::div_mod::lemma_small_mod(p as nat, n as nat);
        }
    }
}

/// After a device did not answer at `now`, it is left alone until a minute has passed, and no
/// longer.
pub proof fn law_silent_device_is_left_alone(
    round: ConnectRound,
    message: String,
    cooldowns: Map<u64, u128>,
    now: u128,
    later: u128,
)
    requires
        round.valid(),
        round.phase is Joining,
        occurs_in(PAGE_TIMEOUT@, message@),
        now <= later,
    ensures
        cooling(
            round.after(ConnectEvent::ConnectFailed(message), cooldowns, now).cooldowns,
            address_key(round.address_at(round.turn as int)@),
            later,
        ) <==> later - now < PAGE_TIMEOUT_COOLDOWN,
{
    let key = address_key(round.address_at(round.turn as int)@);
    let held = cooldowns.insert(key, now);
    law_first_ready_is_first(round.addresses@, round.start as int, round.turn + 1, held, now);
}

/// A connected device is not left alone, and the next round begins with the device after it.
pub proof fn law_next_round_begins_after_connected(
    round: ConnectRound,
    cooldowns: Map<u64, u128>,
    now: u128,
    later: u128,
)
    requires
        round.valid(),
        round.phase is Joining,
    ensures
        ({
            let n = round.addresses@.len() as int;
            let here = place(round.start as int, round.turn as int, n);
            let to = round.after(ConnectEvent::Connected, cooldowns, now);
            &&& !cooling(to.cooldowns, address_key(round.addresses@[here]@), later)
            &&& to.step matches ConnectStep::Connected(next, address)
            &&& address == round.addresses@[here]
            &&& next == if here + 1 == n { 0 } else { here + 1 }
        }),
{
    let n = round.addresses@.len() as int;
    let x = round.start as int + round.turn as int;
    vstd::arithmetic::div_mod::lemma_mod_bound(x, n);
    vstd::arithmetic::div_mod::lemma_add_mod_noop(x, 1, n);
    vstd::arithmetic::div_mod::lemma_mod_twice(x, n);
    vstd::arithmetic::div_mod::lemma_add_mod_noop(x % n, 1, n);
    if x % n + 1 < n {
        vstd::arithmetic::div_mod::lemma_small_mod((x % n + 1) as nat, n as nat);
    } else {
        vstd::arithmetic::div_mod::lemma_mod_self_0(n);
    }
}

/// A device is connected to only right after it was read that it is paired; and then it always
/// is.
pub proof fn law_only_paired_devices_are_connected_to(
    round: ConnectRound,
    event: ConnectEvent,
    cooldowns: Map<u64, u128>,
    now: u128,
)
    requires
        round.valid(),
        round.accepts(event),
    ensures
        ({
            let to = round.after(event, cooldowns, now);
            &&& to.step is Connect <==> event == ConnectEvent::PairingRead(Some(true))
            &&& to.step matches ConnectStep::Connect(a) ==> a == round.address_at(round.turn as int)
            &&& to.step is Connected ==> round.phase is Joining
            &&& to.phase is Joining <==> to.step is Connect
        }),
{
}

/// A round after a step.
pub open spec fn moved(round: ConnectRound, to: AfterConnect) -> ConnectRound {
    ConnectRound {
        addresses: round.addresses,
        start: round.start,
        turn: to.turn as usize,
        phase: to.phase,
    }
}

/// Something that happened in a round, and when.
pub struct ConnectMoment {
    pub event: ConnectEvent,
    pub now: u128,
}

/// Whether `moments` can happen one after the other, from `round` on.
pub open spec fn can_happen(
    round: ConnectRound,
    cooldowns: Map<u64, u128>,
    moments: Seq<ConnectMoment>,
) -> bool
    decreases moments.len(),
{
    moments.len() == 0 || {
        let to = round.after(moments[0].event, cooldowns, moments[0].now);
        &&& round.accepts(moments[0].event)
        &&& can_happen(moved(round, to), to.cooldowns, moments.skip(1))
    }
}

/// How many attempts are asked for while `moments` happen.
pub open spec fn attempts_asked(
    round: ConnectRound,
    cooldowns: Map<u64, u128>,
    moments: Seq<ConnectMoment>,
) -> int
    decreases moments.len(),
{
    if moments.len() == 0 {
        0
    } else {
        let to = round.after(moments[0].event, cooldowns, moments[0].now);
        attempts_asked(moved(round, to), to.cooldowns, moments.skip(1)) + if to.step is Attempt {
            1int
        } else {
            0int
        }
    }
}

/// How many attempts a round has left.
pub open spec fn attempts_left(round: ConnectRound) -> int {
    let devices = round.addresses@.len() - round.turn;
    match round.phase {
        RoundPhase::New | RoundPhase::Opening => ATTEMPTS * devices,
        RoundPhase::Trying(k) => ATTEMPTS * devices - k,
        RoundPhase::Joining(k) => ATTEMPTS * devices - k,
        RoundPhase::Over => 0,
    }
}

/// How many more events a round can take.
pub open spec fn events_left(round: ConnectRound) -> int {
    let devices = round.addresses@.len() - round.turn;
    match round.phase {
        RoundPhase::New => 7 * devices + 1,
        RoundPhase::Opening => 7 * devices,
        RoundPhase::Trying(k) => 7 * devices - 2 * k + 1,
        RoundPhase::Joining(k) => 7 * devices - 2 * k,
        RoundPhase::Over => 0,
    }
}

/// A step keeps a round valid, uses up one of its events, and one of its attempts if it asks
/// for one.
#[verifier::rlimit(30)]
proof fn lemma_step_uses_up(
    round: ConnectRound,
    event: ConnectEvent,
    cooldowns: Map<u64, u128>,
    now: u128,
)
    requires
        round.valid(),
        round.accepts(event),
    ensures
        ({
            let to = round.after(event, cooldowns, now);
            let next = moved(round, to);
            &&& next.valid()
            &&& 0 <= events_left(next) < events_left(round)
            &&& 0 <= attempts_left(next)
            &&& attempts_left(next) + (if to.step is Attempt {
                1int
            } else {
                0int
            }) <= attempts_left(round)
        }),
{
    let n = round.addresses@.len() as int;
    let key = address_key(round.address_at(round.turn as int)@);
    let start = round.start as int;
    law_first_ready_is_first(round.addresses@, start, 0, cooldowns, now);
    if round.turn < n {
        law_first_ready_is_first(round.addresses@, start, round.turn + 1, cooldowns, now);
        law_first_ready_is_first(
            round.addresses@,
            start,
            round.turn + 1,
            cooldowns.insert(key, now),
            now,
        );
    }
}

/// A round ends: over `n` devices it asks for at most three attempts a device, and takes at
/// most seven events a device and one more, whatever happens and whenever it happens.
pub proof fn law_round_is_bounded(
    round: ConnectRound,
    cooldowns: Map<u64, u128>,
    moments: Seq<ConnectMoment>,
)
    requires
        round.valid(),
        can_happen(round, cooldowns, moments),
    ensures
        attempts_asked(round, cooldowns, moments) <= attempts_left(round) <= ATTEMPTS
            * round.addresses@.len(),
        moments.len() <= events_left(round) <= 7 * round.addresses@.len() + 1,
    decreases moments.len(),
{
    if moments.len() > 0 {
        let to = round.after(moments[0].event, cooldowns, moments[0].now);
        lemma_step_uses_up(round, moments[0].event, cooldowns, moments[0].now);
        law_round_is_bounded(moved(round, to), to.cooldowns, moments.skip(1));
    }
}

/// The device that has turn `turn`: a round begins at its starting place and goes around.
pub open spec fn device(round: ConnectRound, turn: int) -> Address {
    round.addresses@[(round.start + turn) % (round.addresses@.len() as int)]
}

/// Whether less than a minute has passed since the device last did not answer.
pub open spec fn rests(cooldowns: Map<u64, u128>, address: Address, now: u128) -> bool {
    let key = address_key(address@);
    cooldowns.contains_key(key) && now < cooldowns[key] + 60_000_000_000
}

/// Whether a round goes on with the first device, from turn `turn` on, that does not rest, and is
/// over without a connection if and only if all of those devices rest.
pub open spec fn goes_on(
    round: ConnectRound,
    turn: int,
    cooldowns: Map<u64, u128>,
    now: u128,
    to: AfterConnect,
) -> bool {
    let n = round.addresses@.len() as int;
    &&& to.step is Open || to.step == ConnectStep::Unreachable
    &&& to.step == ConnectStep::Unreachable <==> forall|t: int|
        turn <= t < n ==> rests(cooldowns, #[trigger] device(round, t), now)
    &&& to.step == ConnectStep::Unreachable ==> to.phase == RoundPhase::Over && to.cooldowns
        == cooldowns && to.turn == n
    &&& to.step matches ConnectStep::Open(a) ==> {
        &&& turn <= to.turn < n
        &&& a == device(round, to.turn)
        &&& !rests(cooldowns, a, now)
        &&& forall|t: int|
            turn <= t < to.turn ==> rests(cooldowns, #[trigger] device(round, t), now)
        &&& to.phase == RoundPhase::Opening
        &&& to.cooldowns == cooldowns.remove(address_key(a@))
    }
}

proof fn lemma_seek_goes_on(
    round: ConnectRound,
    turn: int,
    cooldowns: Map<u64, u128>,
    now: u128,
)
    requires
        0 <= turn <= round.addresses@.len(),
    ensures
        goes_on(round, turn, cooldowns, now, round.seek(turn, cooldowns, now)),
{
    let n = round.addresses@.len() as int;
    let start = round.start as int;
    law_first_ready_is_first(round.addresses@, start, turn, cooldowns, now);
    let to = round.seek(turn, cooldowns, now);
    assert forall|t: int| turn <= t < n && t < to.turn implies rests(
        cooldowns,
        #[trigger] device(round, t),
        now,
    ) by {
        assert(device(round, t) == round.addresses@[place(start, t, n)]);
    }
    if to.turn < n {
        assert(device(round, to.turn) == round.address_at(to.turn));
    }
}

/// A round begins with the first device that does not rest.
pub proof fn law_round_begins_with_the_first_device(
    round: ConnectRound,
    cooldowns: Map<u64, u128>,
    now: u128,
)
    ensures
        goes_on(round, 0, cooldowns, now, round.after(ConnectEvent::Begin, cooldowns, now)),
{
    lemma_seek_goes_on(round, 0, cooldowns, now);
}

/// A device that is known is tried, and one that the adapter does not know ends the round. Neither
/// changes which devices rest.
pub proof fn law_known_device_is_tried(
    round: ConnectRound,
    cooldowns: Map<u64, u128>,
    now: u128,
)
    requires
        round.valid(),
        round.phase == RoundPhase::Opening,
    ensures
        ({
            let known = round.after(ConnectEvent::DeviceOpened, cooldowns, now);
            let unknown = round.after(ConnectEvent::DeviceUnavailable, cooldowns, now);
            &&& known.step == ConnectStep::Attempt(device(round, round.turn as int), 1)
            &&& known.phase == RoundPhase::Trying(1)
            &&& known.turn == round.turn && known.cooldowns == cooldowns
            &&& unknown.step == ConnectStep::DeviceError
            &&& unknown.phase == RoundPhase::Over
            &&& unknown.turn == round.turn && unknown.cooldowns == cooldowns
        }),
{
}

/// The first and the second time that a device is not paired, or cannot be connected to though it
/// answered, the same device is tried again. The third time the round goes on with the first
/// device behind it that does not rest, and ends exactly if there is none.
pub proof fn law_failed_device_is_tried_three_times(
    round: ConnectRound,
    event: ConnectEvent,
    cooldowns: Map<u64, u128>,
    now: u128,
    k: usize,
)
    requires
        round.valid(),
        round.accepts(event),
        round.phase == RoundPhase::Trying(k) || round.phase == RoundPhase::Joining(k),
        event == ConnectEvent::PairingRead(Some(false)) || event == ConnectEvent::PairingRead(None)
            || (event matches ConnectEvent::ConnectFailed(message) && !occurs_in(
            "br-connection-page-timeout"@,
            message@,
        )),
    ensures
        ({
            let to = round.after(event, cooldowns, now);
            &&& k < 3 ==> {
                &&& to.step == ConnectStep::Attempt(
                    device(round, round.turn as int),
                    (k + 1) as usize,
                )
                &&& to.phase == RoundPhase::Trying((k + 1) as usize)
                &&& to.turn == round.turn && to.cooldowns == cooldowns
            }
            &&& k >= 3 ==> goes_on(round, round.turn + 1, cooldowns, now, to)
        }),
{
    lemma_seek_goes_on(round, round.turn + 1, cooldowns, now);
}

/// A device that did not answer rests from then on, and the round goes on at once with the first
/// device behind it that does not, and ends exactly if there is none.
pub proof fn law_silent_device_is_passed(
    round: ConnectRound,
    message: String,
    cooldowns: Map<u64, u128>,
    now: u128,
)
    requires
        round.valid(),
        round.phase is Joining,
        occurs_in("br-connection-page-timeout"@, message@),
    ensures
        goes_on(
            round,
            round.turn + 1,
            cooldowns.insert(address_key(device(round, round.turn as int)@), now),
            now,
            round.after(ConnectEvent::ConnectFailed(message), cooldowns, now),
        ),
{
    let key = address_key(device(round, round.turn as int)@);
    lemma_seek_goes_on(round, round.turn + 1, cooldowns.insert(key, now), now);
}

/// A paired device is connected to within the same attempt, and the round is over once it is
/// connected. Then that device does not rest, and nothing changes for the others.
pub proof fn law_paired_device_ends_the_round(
    round: ConnectRound,
    cooldowns: Map<u64, u128>,
    now: u128,
    k: usize,
)
    requires
        round.valid(),
    ensures
        round.phase == RoundPhase::Trying(k) ==> {
            let to = round.after(ConnectEvent::PairingRead(Some(true)), cooldowns, now);
            &&& to.step == ConnectStep::Connect(device(round, round.turn as int))
            &&& to.phase == RoundPhase::Joining(k)
            &&& to.turn == round.turn && to.cooldowns == cooldowns
        },
        round.phase == RoundPhase::Joining(k) ==> {
            let to = round.after(ConnectEvent::Connected, cooldowns, now);
            &&& to.step is Connected
            &&& to.phase == RoundPhase::Over
            &&& to.turn == round.turn
            &&& to.cooldowns == cooldowns.remove(
                address_key(device(round, round.turn as int)@),
            )
        },
{
}

/// What can happen in a round: to a device that is looked up, that it is known or not; to one that
/// is tried, that its pairing is read; and to one that is connected to, that it is or is not.
pub proof fn law_what_can_happen_in_a_round(round: ConnectRound, event: ConnectEvent)
    ensures
        round.phase == RoundPhase::New ==> (round.accepts(event) <==> event is Begin),
        round.phase == RoundPhase::Opening ==> (round.accepts(event) <==> event is DeviceOpened
            || event is DeviceUnavailable),
        round.phase is Trying ==> (round.accepts(event) <==> event is PairingRead),
        round.phase is Joining ==> (round.accepts(event) <==> event is Connected
            || event is ConnectFailed),
        round.phase == RoundPhase::Over ==> !round.accepts(event),
{
}

/// Whether what happens last in a round is that it is over without a connection.
pub open spec fn ends_unreachable(
    round: ConnectRound,
    cooldowns: Map<u64, u128>,
    moments: Seq<ConnectMoment>,
) -> bool
    decreases moments.len(),
{
    moments.len() > 0 && {
        let to = round.after(moments[0].event, cooldowns, moments[0].now);
        if moments.len() == 1 {
            to.step == ConnectStep::Unreachable
        } else {
            ends_unreachable(moved(round, to), to.cooldowns, moments.skip(1))
        }
    }
}

/// Whether the device with turn `t` is passed over because it rests.
pub open spec fn passed_over(
    round: ConnectRound,
    cooldowns: Map<u64, u128>,
    moments: Seq<ConnectMoment>,
    t: int,
) -> bool
    decreases moments.len(),
{
    moments.len() > 0 && {
        let to = round.after(moments[0].event, cooldowns, moments[0].now);
        ||| t < to.turn && rests(to.cooldowns, device(round, t), moments[0].now)
        ||| passed_over(moved(round, to), to.cooldowns, moments.skip(1), t)
    }
}

/// Whether the device with turn `t` does not answer when it is connected to.
pub open spec fn did_not_answer(
    round: ConnectRound,
    cooldowns: Map<u64, u128>,
    moments: Seq<ConnectMoment>,
    t: int,
) -> bool
    decreases moments.len(),
{
    moments.len() > 0 && {
        let to = round.after(moments[0].event, cooldowns, moments[0].now);
        ||| round.turn == t && (moments[0].event matches ConnectEvent::ConnectFailed(message)
            && occurs_in("br-connection-page-timeout"@, message@))
        ||| did_not_answer(moved(round, to), to.cooldowns, moments.skip(1), t)
    }
}

/// How many attempts are asked for on the device with turn `t`.
pub open spec fn attempts_on(
    round: ConnectRound,
    cooldowns: Map<u64, u128>,
    moments: Seq<ConnectMoment>,
    t: int,
) -> int
    decreases moments.len(),
{
    if moments.len() == 0 {
        0
    } else {
        let to = round.after(moments[0].event, cooldowns, moments[0].now);
        attempts_on(moved(round, to), to.cooldowns, moments.skip(1), t) + match to.step {
            ConnectStep::Attempt(a, _) if a == device(round, t) && to.turn == t => 1int,
            _ => 0int,
        }
    }
}

/// How many attempts were asked for on the device whose turn it is.
spec fn attempts_so_far(phase: RoundPhase) -> int {
    match phase {
        RoundPhase::Trying(k) => k as int,
        RoundPhase::Joining(k) => k as int,
        _ => 0,
    }
}

proof fn lemma_everyone_has_had_a_turn(
    round: ConnectRound,
    cooldowns: Map<u64, u128>,
    moments: Seq<ConnectMoment>,
    t: int,
)
    requires
        round.valid(),
        can_happen(round, cooldowns, moments),
        ends_unreachable(round, cooldowns, moments),
        round.turn <= t < round.addresses@.len(),
    ensures
        ({
            let tried = attempts_on(round, cooldowns, moments, t);
            let silent = did_not_answer(round, cooldowns, moments, t);
            if t == round.turn && round.phase != RoundPhase::New {
                silent || attempts_so_far(round.phase) + tried == 3
            } else {
                passed_over(round, cooldowns, moments, t) || silent || tried == 3
            }
        }),
    decreases moments.len(),
{
    let event = moments[0].event;
    let now = moments[0].now;
    let to = round.after(event, cooldowns, now);
    let next = moved(round, to);
    let rest = moments.skip(1);
    let key = address_key(device(round, round.turn as int)@);
    lemma_step_uses_up(round, event, cooldowns, now);
    lemma_seek_goes_on(round, 0, cooldowns, now);
    if round.phase != RoundPhase::New && round.turn < round.addresses@.len() {
        lemma_seek_goes_on(round, round.turn + 1, cooldowns, now);
        lemma_seek_goes_on(round, round.turn + 1, cooldowns.insert(key, now), now);
    }
    assert(device(next, t) == device(round, t));
    if moments.len() == 1 {
        assert(attempts_on(next, to.cooldowns, rest, t) == 0);
    } else {
        assert(can_happen(next, to.cooldowns, rest));
        assert(next.accepts(rest[0].event));
    }
    if moments.len() > 1 && to.turn <= t {
        lemma_everyone_has_had_a_turn(next, to.cooldowns, rest, t);
    } else if moments.len() > 1 && (t > round.turn || round.phase == RoundPhase::New) {
        assert(rests(to.cooldowns, device(round, t), now));
    } else if moments.len() > 1 {
        lemma_no_attempt_behind(next, to.cooldowns, rest, t);
    }
}

proof fn lemma_no_attempt_behind(
    round: ConnectRound,
    cooldowns: Map<u64, u128>,
    moments: Seq<ConnectMoment>,
    t: int,
)
    requires
        round.valid(),
        can_happen(round, cooldowns, moments),
        t < round.turn,
    ensures
        attempts_on(round, cooldowns, moments, t) == 0,
    decreases moments.len(),
{
    if moments.len() > 0 {
        let event = moments[0].event;
        let to = round.after(event, cooldowns, moments[0].now);
        lemma_step_uses_up(round, event, cooldowns, moments[0].now);
        let key = address_key(device(round, round.turn as int)@);
        if round.turn < round.addresses@.len() {
            lemma_seek_goes_on(round, round.turn + 1, cooldowns, moments[0].now);
            lemma_seek_goes_on(
                round,
                round.turn + 1,
                cooldowns.insert(key, moments[0].now),
                moments[0].now,
            );
        }
        lemma_no_attempt_behind(moved(round, to), to.cooldowns, moments.skip(1), t);
    }
}

/// A round is over without a connection only after every device has had its turn: each of them was
/// passed over because it rested, or did not answer, or was tried three times.
pub proof fn law_everyone_has_had_a_turn(
    round: ConnectRound,
    cooldowns: Map<u64, u128>,
    moments: Seq<ConnectMoment>,
    t: int,
)
    requires
        round.valid(),
        round.phase == RoundPhase::New,
        can_happen(round, cooldowns, moments),
        ends_unreachable(round, cooldowns, moments),
        0 <= t < round.addresses@.len(),
    ensures
        passed_over(round, cooldowns, moments, t) || did_not_answer(round, cooldowns, moments, t)
            || attempts_on(round, cooldowns, moments, t) == 3,
{
    lemma_everyone_has_had_a_turn(round, cooldowns, moments, t);
}

/// The time that has passed is the difference of the two times, and none if the clock went back.
pub proof fn law_elapsed_time(since: u128, now: u128)
    ensures
        since <= now ==> since + elapsed(since, now) == now,
        now <= since ==> elapsed(since, now) == 0,
{
}

/// A round stands where the step that led to it says, over the same devices and from the same
/// place.
pub proof fn law_round_stands_where_its_step_says(
    round: ConnectRound,
    cooldowns: Map<u64, u128>,
    from: ConnectRound,
    to: AfterConnect,
)
    requires
        round.reached(cooldowns, from, to),
    ensures
        round.addresses == from.addresses,
        round.start == from.start,
        round.turn == to.turn,
        round.phase == to.phase,
        cooldowns == to.cooldowns,
{
}

/// A new round is over the devices that it is given, from the place that it is given, and has not
/// begun.
pub proof fn law_new_round(addresses: Vec<Address>, start: usize, r: ConnectRound)
    requires
        call_ensures(ConnectRound::new, (addresses, start), r),
    ensures
        r.valid(),
        r.accepts(ConnectEvent::Begin),
        r.addresses == addresses,
        r.start == start,
{
}

} // verus!
