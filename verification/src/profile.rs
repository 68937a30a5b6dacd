//! Getting a phone connected over Bluetooth: reaching out to known devices, and waiting for one
//! of them to connect to the profile of the proxy.

use vstd::prelude::*;
use crate::address::{is_any, same_address, Address};
use crate::bluetooth::Bluetooth;
use crate::connect::{
    elapsed,
    elapsed_since,
    moved,
    place,
    ConnectEvent,
    ConnectRound,
    ConnectStep,
    RoundPhase,
};
use crate::text::{occurs_at, starts_with};

verus! {

/// How long, in nanoseconds, connections are turned away after the user stopped the proxy.
pub const STOP_RECONNECT_DELAY: u128 = 10_000_000_000;

/// The first pause between two rounds of attempts, in seconds.
pub const FIRST_RETRY_DELAY: u64 = 1;

/// The longest pause between two rounds of attempts, in seconds.
pub const LONGEST_RETRY_DELAY: u64 = 15;

/// How the name of another proxy begins.
pub const DONGLE_NAME_PREFIX: &'static str = "AndroidAuto-";

/// The pause that follows a pause of `delay` seconds.
pub open spec fn next_delay(delay: u64) -> u64 {
    if 2 * delay < LONGEST_RETRY_DELAY {
        (2 * delay) as u64
    } else {
        LONGEST_RETRY_DELAY
    }
}

/// The pause that follows a pause of `delay` seconds: twice as long, up to a limit.
pub fn next_retry_delay(delay: u64) -> (next: u64)
    ensures
        next == next_delay(delay),
{
    if delay < 8 {
        2 * delay
    } else {
        LONGEST_RETRY_DELAY
    }
}

/// The pause after `failures` rounds that came to nothing, the first of them included.
pub open spec fn delay_after(failures: nat) -> u64
    decreases failures,
{
    if failures <= 1 {
        FIRST_RETRY_DELAY
    } else {
        next_delay(delay_after((failures - 1) as nat))
    }
}

/// The pauses between rounds are 1, 2, 4, 8 and then always 15 seconds.
pub proof fn law_pauses_double_up_to_a_limit(failures: nat)
    requires
        failures >= 1,
    ensures
        delay_after(failures) == if failures == 1 {
            1u64
        } else if failures == 2 {
            2
        } else if failures == 3 {
            4
        } else if failures == 4 {
            8
        } else {
            15
        },
    decreases failures,
{
    reveal_with_fuel(delay_after, 5);
    if failures > 5 {
        law_pauses_double_up_to_a_limit((failures - 1) as nat);
    }
}

/// Whether a list of addresses asks for every device that the adapter knows.
pub open spec fn asks_for_any(addresses: Seq<Address>) -> bool {
    exists|i: int| 0 <= i < addresses.len() && is_any(#[trigger] addresses[i]@)
}

/// Whether a list of addresses asks for every device that the adapter knows.
pub fn wants_known_devices(addresses: &Vec<Address>) -> (b: bool)
    ensures
        b == asks_for_any(addresses@),
{
    let any: Address = [0, 0, 0, 0, 0, 0];
    let mut i: usize = 0;
    while i < addresses.len()
        invariant
            i <= addresses.len(),
            any@ == seq![0u8, 0u8, 0u8, 0u8, 0u8, 0u8],
            forall|k: int| 0 <= k < i ==> !is_any(#[trigger] addresses@[k]@),
        decreases addresses.len() - i,
    {
        if same_address(&addresses[i], &any) {
            return true;
        }
        i += 1;
    }
    false
}

/// The first place of `address` in `addresses`; their number if it is not among them.
pub open spec fn first_place(addresses: Seq<Address>, address: Address) -> int
    decreases addresses.len(),
{
    if addresses.len() == 0 {
        0
    } else if addresses[0]@ == address@ {
        0
    } else {
        1 + first_place(addresses.skip(1), address)
    }
}

/// Where a round over `addresses` begins: at the device that was connected last, or at
/// `current` if there is none or it is not in the list.
pub open spec fn start_of(addresses: Seq<Address>, last: Option<Address>, current: usize) -> usize {
    match last {
        Some(a) if first_place(addresses, a) < addresses.len() => first_place(addresses, a) as usize,
        _ => current,
    }
}

/// Where a round over `addresses` begins.
pub fn start_index(
    addresses: &Vec<Address>,
    last: &Option<Address>,
    current: usize,
) -> (start: usize)
    ensures
        start == start_of(addresses@, *last, current),
{
    match last {
        Some(a) => {
            let mut i: usize = 0;
            assert(addresses@.skip(0) == addresses@);
            while i < addresses.len()
                invariant
                    i <= addresses.len(),
                    *last == Some(*a),
                    first_place(addresses@, *a) == i + first_place(addresses@.skip(i as int), *a),
                decreases addresses.len() - i,
            {
                if same_address(&addresses[i], a) {
                    return i;
                }
                assert(addresses@.skip(i as int).skip(1) == addresses@.skip(i + 1));
                i += 1;
            }
            current
        },
        None => current,
    }
}

/// Where a run stands.
#[derive(Debug)]
pub enum ProfilePhase {
    /// Nothing has been done; the devices to reach out to, if any.
    New(Option<Vec<Address>>),
    /// The devices that the adapter knows are being listed.
    Enumerating,
    /// A round of attempts is under way; the pause that follows if it fails, in seconds.
    Reaching(ConnectRound, u64),
    /// A pause before the next round; the pause that follows if that one fails.
    Resting(ConnectRound, u64),
    /// The device that was reached is being recorded.
    Recording,
    /// The name of a device is being read: the devices, and the place of this one.
    Naming(Vec<Address>, usize),
    /// Another proxy is being connected to: the devices, and the place of this one.
    Joining(Vec<Address>, usize),
    /// A device is awaited until this time.
    Waiting(u128),
    /// A device is being turned away; then the wait goes on.
    TurningAway(u128),
    /// A device is being let in.
    LettingIn,
    /// The run is over.
    Over,
}

/// What happened to what a run asked for.
#[derive(Debug)]
pub enum ProfileEvent {
    /// The run begins.
    Begin,
    /// The adapter knows these devices.
    Enumerated(Vec<Address>),
    /// The devices could not be listed.
    EnumerationFailed,
    /// This happened in a round of attempts.
    Round(ConnectEvent),
    /// The pause is over.
    Rested,
    /// The device that was reached is recorded.
    Recorded,
    /// The name of the device, if it has one that could be read.
    Named(Option<String>),
    /// The attempt to connect to another proxy is over, whatever came of it.
    Joined,
    /// A device asks to connect.
    Requested,
    /// The time to wait is over.
    TimedOut,
    /// The device is turned away.
    TurnedAway,
    /// The device at this address is let in.
    LetIn(Address),
    /// The device could not be let in.
    NotLetIn,
}

/// What a run asks for next.
#[derive(Debug, Clone, Copy, PartialEq, Eq)]
pub enum ProfileStep {
    /// List the devices that the adapter knows.
    Enumerate,
    /// Look up this device.
    Open(Address),
    /// Begin an attempt on this device: read whether it is paired. The number of the attempt.
    Attempt(Address, usize),
    /// Connect to this device.
    Connect(Address),
    /// Pause for so many seconds.
    Rest(u64),
    /// Record this device as the one connected last.
    Record(Address),
    /// Read the name of this device.
    ReadName(Address),
    /// Connect to this device, which is another proxy.
    Join(Address),
    /// Wait for a device to connect, for at most so many nanoseconds.
    Wait(u128),
    /// Let the device in and drop the connection.
    TurnAway,
    /// Let the device in.
    LetIn,
    /// The run is over: this device is connected. Record it.
    Connected(Address),
    /// The run is over: the devices could not be listed.
    NotEnumerated,
    /// The run is over: no device connected in time.
    TimedOut,
    /// The run is over: the device could not be let in.
    Refused,
}

/// What the proxy keeps in mind after a step, where the run then stands, and what it asks for.
pub struct AfterProfile {
    pub current_index: usize,
    pub cooldowns: Map<u64, u128>,
    pub last_connected: Option<Address>,
    pub stopped_at: Option<u128>,
    pub phase: ProfilePhase,
    pub step: ProfileStep,
}

impl ProfilePhase {
    /// What always holds of where a run stands.
    pub open spec fn valid(&self) -> bool {
        match self {
            ProfilePhase::Reaching(round, _) => round.valid() && (round.phase == RoundPhase::Opening
                || round.phase is Trying || round.phase is Joining),
            ProfilePhase::Resting(round, _) => round.valid() && round.phase == RoundPhase::New,
            ProfilePhase::Naming(addresses, i) | ProfilePhase::Joining(addresses, i) => i
                < addresses.len(),
            _ => true,
        }
    }

    /// Whether `event` can happen here.
    pub open spec fn accepts(&self, event: ProfileEvent) -> bool {
        match (self, event) {
            (ProfilePhase::New(_), ProfileEvent::Begin) => true,
            (
                ProfilePhase::Enumerating,
                ProfileEvent::Enumerated(_) | ProfileEvent::EnumerationFailed,
            ) => true,
            (ProfilePhase::Reaching(round, _), ProfileEvent::Round(e)) => round.accepts(e),
            (ProfilePhase::Resting(_, _), ProfileEvent::Rested) => true,
            (ProfilePhase::Recording, ProfileEvent::Recorded) => true,
            (ProfilePhase::Naming(_, _), ProfileEvent::Named(_)) => true,
            (ProfilePhase::Joining(_, _), ProfileEvent::Joined) => true,
            (ProfilePhase::Waiting(_), ProfileEvent::Requested | ProfileEvent::TimedOut) => true,
            (ProfilePhase::TurningAway(_), ProfileEvent::TurnedAway) => true,
            (ProfilePhase::LettingIn, ProfileEvent::LetIn(_) | ProfileEvent::NotLetIn) => true,
            _ => false,
        }
    }
}

/// One run.
#[derive(Debug)]
pub struct ProfileRun {
    /// How long to wait for a device to connect, in nanoseconds.
    pub bt_timeout: u128,
    /// Whether the user has stopped the proxy.
    pub stopped: bool,
    /// Where the run stands.
    pub phase: ProfilePhase,
}

impl ProfileRun {
    /// A run that reaches out to the devices in `connect`, if any, and then waits.
    pub fn new(connect: Option<Vec<Address>>, bt_timeout: u128, stopped: bool) -> (run: ProfileRun)
        ensures
            run.phase == ProfilePhase::New(connect),
            run.bt_timeout == bt_timeout,
            run.stopped == stopped,
            run.phase.valid(),
    {
        ProfileRun { bt_timeout, stopped, phase: ProfilePhase::New(connect) }
    }
}

impl Bluetooth {
    /// What follows when the proxy changes nothing of what it keeps in mind.
    pub open spec fn go_on(&self, phase: ProfilePhase, step: ProfileStep) -> AfterProfile {
        AfterProfile {
            current_index: self.current_index,
            cooldowns: self.page_timeout_devices@,
            last_connected: self.last_connected,
            stopped_at: self.stopped_at,
            phase,
            step,
        }
    }

    /// What follows when the proxy begins to wait for a device: if the user stopped the proxy,
    /// the time of the first such wait is kept.
    pub open spec fn wait_from(&self, run: ProfileRun, now: u128) -> AfterProfile {
        AfterProfile {
            stopped_at: if run.stopped && self.stopped_at is None {
                Some(now)
            } else {
                self.stopped_at
            },
            ..self.go_on(
                ProfilePhase::Waiting((now + run.bt_timeout) as u128),
                ProfileStep::Wait(run.bt_timeout),
            )
        }
    }

    /// What follows when a round begins, or begins anew.
    pub open spec fn reach_from(&self, round: ConnectRound, delay: u64, now: u128) -> AfterProfile {
        self.round_event(round, ConnectEvent::Begin, delay, now)
    }

    /// What follows an event of a round of attempts.
    pub open spec fn round_event(
        &self,
        round: ConnectRound,
        event: ConnectEvent,
        delay: u64,
        now: u128,
    ) -> AfterProfile {
        let to = round.after(event, self.page_timeout_devices@, now);
        let next = moved(round, to);
        let quiet = AfterProfile {
            cooldowns: to.cooldowns,
            ..self.go_on(ProfilePhase::Over, ProfileStep::Rest(delay))
        };
        match to.step {
            ConnectStep::Open(a) => AfterProfile {
                phase: ProfilePhase::Reaching(next, delay),
                step: ProfileStep::Open(a),
                ..quiet
            },
            ConnectStep::Attempt(a, k) => AfterProfile {
                phase: ProfilePhase::Reaching(next, delay),
                step: ProfileStep::Attempt(a, k),
                ..quiet
            },
            ConnectStep::Connect(a) => AfterProfile {
                phase: ProfilePhase::Reaching(next, delay),
                step: ProfileStep::Connect(a),
                ..quiet
            },
            ConnectStep::Connected(place, a) => AfterProfile {
                current_index: place,
                last_connected: Some(a),
                phase: ProfilePhase::Recording,
                step: ProfileStep::Record(a),
                ..quiet
            },
            ConnectStep::Unreachable | ConnectStep::DeviceError => AfterProfile {
                phase: ProfilePhase::Resting(anew(next), next_delay(delay)),
                step: ProfileStep::Rest(delay),
                ..quiet
            },
        }
    }

    /// What follows when the list of devices to reach out to is known.
    pub open spec fn reach_out(
        &self,
        run: ProfileRun,
        addresses: Vec<Address>,
        now: u128,
    ) -> AfterProfile {
        if addresses@.len() == 0 {
            self.wait_from(run, now)
        } else if self.dongle_mode {
            self.go_on(ProfilePhase::Naming(addresses, 0), ProfileStep::ReadName(addresses@[0]))
        } else {
            self.reach_from(
                ConnectRound {
                    addresses,
                    start: start_of(addresses@, self.last_connected, self.current_index),
                    turn: 0,
                    phase: RoundPhase::New,
                },
                FIRST_RETRY_DELAY,
                now,
            )
        }
    }

    /// What follows when the device at place `i` is done with and the next one is due.
    pub open spec fn name_next(
        &self,
        run: ProfileRun,
        addresses: Vec<Address>,
        i: int,
        now: u128,
    ) -> AfterProfile {
        if i + 1 < addresses@.len() {
            self.go_on(
                ProfilePhase::Naming(addresses, (i + 1) as usize),
                ProfileStep::ReadName(addresses@[i + 1]),
            )
        } else {
            self.wait_from(run, now)
        }
    }

    /// Whether a device that asks to connect is turned away: the user stopped the proxy, and
    /// the wait began less than ten seconds ago.
    pub open spec fn turns_away(&self, stopped: bool, now: u128) -> bool {
        stopped && (self.stopped_at matches Some(t) && elapsed(t, now) < STOP_RECONNECT_DELAY)
    }

    /// What follows an event at time `now`.
    pub open spec fn profile_after(
        &self,
        run: ProfileRun,
        event: ProfileEvent,
        now: u128,
    ) -> AfterProfile {
        match (run.phase, event) {
            (ProfilePhase::New(connect), ProfileEvent::Begin) => match connect {
                Some(addresses) if !run.stopped => if asks_for_any(addresses@) {
                    self.go_on(ProfilePhase::Enumerating, ProfileStep::Enumerate)
                } else {
                    self.reach_out(run, addresses, now)
                },
                _ => self.wait_from(run, now),
            },
            (_, ProfileEvent::Enumerated(addresses)) => self.reach_out(run, addresses, now),
            (_, ProfileEvent::EnumerationFailed) => self.go_on(
                ProfilePhase::Over,
                ProfileStep::NotEnumerated,
            ),
            (ProfilePhase::Reaching(round, delay), ProfileEvent::Round(e)) => self.round_event(
                round,
                e,
                delay,
                now,
            ),
            (ProfilePhase::Resting(round, delay), ProfileEvent::Rested) => self.reach_from(
                round,
                delay,
                now,
            ),
            (_, ProfileEvent::Recorded) => self.wait_from(run, now),
            (ProfilePhase::Naming(addresses, i), ProfileEvent::Named(name)) => match name {
                Some(n) if occurs_at(n@, DONGLE_NAME_PREFIX@, 0) => self.go_on(
                    ProfilePhase::Joining(addresses, i),
                    ProfileStep::Join(addresses@[i as int]),
                ),
                _ => self.name_next(run, addresses, i as int, now),
            },
            (ProfilePhase::Joining(addresses, i), ProfileEvent::Joined) => self.name_next(
                run,
                addresses,
                i as int,
                now,
            ),
            (ProfilePhase::Waiting(deadline), ProfileEvent::Requested) => if self.turns_away(
                run.stopped,
                now,
            ) {
                self.go_on(ProfilePhase::TurningAway(deadline), ProfileStep::TurnAway)
            } else {
                self.go_on(ProfilePhase::LettingIn, ProfileStep::LetIn)
            },
            (ProfilePhase::TurningAway(deadline), ProfileEvent::TurnedAway) => self.go_on(
                ProfilePhase::Waiting(deadline),
                ProfileStep::Wait(elapsed(now, deadline) as u128),
            ),
            (_, ProfileEvent::LetIn(address)) => AfterProfile {
                last_connected: Some(address),
                ..self.go_on(ProfilePhase::Over, ProfileStep::Connected(address))
            },
            (_, ProfileEvent::NotLetIn) => self.go_on(ProfilePhase::Over, ProfileStep::Refused),
            _ => self.go_on(ProfilePhase::Over, ProfileStep::TimedOut),
        }
    }

    /// Whether this is what the proxy keeps in mind after a step.
    pub open spec fn became(&self, from: Bluetooth, to: AfterProfile) -> bool {
        &&& self.current_index == to.current_index
        &&& self.dongle_mode == from.dongle_mode
        &&& self.page_timeout_devices@ == to.cooldowns
        &&& self.last_connected == to.last_connected
        &&& self.stopped_at == to.stopped_at
    }
}

impl Bluetooth {
    /// Begins to wait for a device.
    fn begin_wait(
        &mut self,
        bt_timeout: u128,
        stopped: bool,
        now: u128,
    ) -> (r: (ProfileRun, ProfileStep))
        requires
            now + bt_timeout <= u128::MAX,
        ensures
            ({
                let from = ProfileRun { bt_timeout, stopped, phase: ProfilePhase::Over };
                let to = old(self).wait_from(from, now);
                &&& final(self).became(*old(self), to)
                &&& r.0 == (ProfileRun { bt_timeout, stopped, phase: to.phase })
                &&& r.1 == to.step
            }),
    {
        if stopped && self.stopped_at.is_none() {
            self.stopped_at = Some(now);
        }
        (
            ProfileRun { bt_timeout, stopped, phase: ProfilePhase::Waiting(now + bt_timeout) },
            ProfileStep::Wait(bt_timeout),
        )
    }

    /// Takes an event of a round of attempts.
    fn take_round_event(
        &mut self,
        round: ConnectRound,
        event: ConnectEvent,
        delay: u64,
        now: u128,
    ) -> (r: (ProfilePhase, ProfileStep))
        requires
            round.valid(),
            round.accepts(event),
        ensures
            ({
                let to = old(self).round_event(round, event, delay, now);
                &&& final(self).became(*old(self), to)
                &&& r.0 == to.phase
                &&& r.0.valid()
                &&& r.1 == to.step
            }),
    {
        let ghost to = round.after(event, self.page_timeout_devices@, now);
        let ghost from = round;
        let mut round = round;
        let step: ConnectStep = round.try_connect_bluetooth_addresses(
            event,
            &mut self.page_timeout_devices,
            now,
        );
        match step {
            ConnectStep::Open(a) => (ProfilePhase::Reaching(round, delay), ProfileStep::Open(a)),
            ConnectStep::Attempt(a, k) => (
                ProfilePhase::Reaching(round, delay),
                ProfileStep::Attempt(a, k),
            ),
            ConnectStep::Connect(a) => (
                ProfilePhase::Reaching(round, delay),
                ProfileStep::Connect(a),
            ),
            ConnectStep::Connected(place, a) => {
                self.current_index = place;
                self.last_connected = Some(a);
                (ProfilePhase::Recording, ProfileStep::Record(a))
            },
            ConnectStep::Unreachable | ConnectStep::DeviceError => {
                let again: ConnectRound = ConnectRound::new(round.addresses, round.start);
                (
                    ProfilePhase::Resting(again, next_retry_delay(delay)),
                    ProfileStep::Rest(delay),
                )
            },
        }
    }

    /// Goes on when the list of devices to reach out to is known.
    fn begin_reach(
        &mut self,
        bt_timeout: u128,
        stopped: bool,
        addresses: Vec<Address>,
        now: u128,
    ) -> (r: (ProfileRun, ProfileStep))
        requires
            now + bt_timeout <= u128::MAX,
        ensures
            ({
                let from = ProfileRun { bt_timeout, stopped, phase: ProfilePhase::Over };
                let to = old(self).reach_out(from, addresses, now);
                &&& final(self).became(*old(self), to)
                &&& r.0 == (ProfileRun { bt_timeout, stopped, phase: to.phase })
                &&& r.0.phase.valid()
                &&& r.1 == to.step
            }),
    {
        if addresses.len() == 0 {
            self.begin_wait(bt_timeout, stopped, now)
        } else if self.dongle_mode {
            let first: Address = addresses[0];
            (
                ProfileRun { bt_timeout, stopped, phase: ProfilePhase::Naming(addresses, 0) },
                ProfileStep::ReadName(first),
            )
        } else {
            let start: usize = start_index(&addresses, &self.last_connected, self.current_index);
            let round: ConnectRound = ConnectRound::new(addresses, start);
            let (phase, step) = self.take_round_event(
                round,
                ConnectEvent::Begin,
                FIRST_RETRY_DELAY,
                now,
            );
            (ProfileRun { bt_timeout, stopped, phase }, step)
        }
    }

    /// Goes on when the device at place `i` is done with.
    fn next_name(
        &mut self,
        bt_timeout: u128,
        stopped: bool,
        addresses: Vec<Address>,
        i: usize,
        now: u128,
    ) -> (r: (ProfileRun, ProfileStep))
        requires
            now + bt_timeout <= u128::MAX,
            i < addresses.len(),
        ensures
            ({
                let from = ProfileRun { bt_timeout, stopped, phase: ProfilePhase::Over };
                let to = old(self).name_next(from, addresses, i as int, now);
                &&& final(self).became(*old(self), to)
                &&& r.0 == (ProfileRun { bt_timeout, stopped, phase: to.phase })
                &&& r.0.phase.valid()
                &&& r.1 == to.step
            }),
    {
        if i + 1 < addresses.len() {
            let next: Address = addresses[i + 1];
            (
                ProfileRun { bt_timeout, stopped, phase: ProfilePhase::Naming(addresses, i + 1) },
                ProfileStep::ReadName(next),
            )
        } else {
            self.begin_wait(bt_timeout, stopped, now)
        }
    }

    /// Takes what happened at time `now` and says what to do next.
    pub fn get_aa_profile_connection(
        &mut self,
        run: ProfileRun,
        event: ProfileEvent,
        now: u128,
    ) -> (r: (ProfileRun, ProfileStep))
        requires
            run.phase.valid(),
            run.phase.accepts(event),
            now + run.bt_timeout <= u128::MAX,
        ensures
            ({
                let to = old(self).profile_after(run, event, now);
                &&& final(self).became(*old(self), to)
                &&& r.0.bt_timeout == run.bt_timeout
                &&& r.0.stopped == run.stopped
                &&& r.0.phase == to.phase
                &&& r.0.phase.valid()
                &&& r.1 == to.step
            }),
    {
        let bt_timeout: u128 = run.bt_timeout;
        let stopped: bool = run.stopped;
        let (phase, step): (ProfilePhase, ProfileStep) = match (run.phase, event) {
            (ProfilePhase::New(connect), ProfileEvent::Begin) => match connect {
                Some(addresses) => {
                    if stopped {
                        return self.begin_wait(bt_timeout, stopped, now);
                    } else if wants_known_devices(&addresses) {
                        (ProfilePhase::Enumerating, ProfileStep::Enumerate)
                    } else {
                        return self.begin_reach(bt_timeout, stopped, addresses, now);
                    }
                },
                None => return self.begin_wait(bt_timeout, stopped, now),
            },
            (_, ProfileEvent::Enumerated(addresses)) => return self.begin_reach(
                bt_timeout,
                stopped,
                addresses,
                now,
            ),
            (_, ProfileEvent::EnumerationFailed) => (ProfilePhase::Over, ProfileStep::NotEnumerated),
            (ProfilePhase::Reaching(round, delay), ProfileEvent::Round(e)) => self.take_round_event(
                round,
                e,
                delay,
                now,
            ),
            (ProfilePhase::Resting(round, delay), ProfileEvent::Rested) => self.take_round_event(
                round,
                ConnectEvent::Begin,
                delay,
                now,
            ),
            (_, ProfileEvent::Recorded) => return self.begin_wait(bt_timeout, stopped, now),
            (ProfilePhase::Naming(addresses, i), ProfileEvent::Named(name)) => {
                let joins: bool = match name {
                    Some(n) => starts_with(n.as_str(), DONGLE_NAME_PREFIX),
                    None => false,
                };
                if joins {
                    let address: Address = addresses[i];
                    (ProfilePhase::Joining(addresses, i), ProfileStep::Join(address))
                } else {
                    return self.next_name(bt_timeout, stopped, addresses, i, now);
                }
            },
            (ProfilePhase::Joining(addresses, i), ProfileEvent::Joined) => return self.next_name(
                bt_timeout,
                stopped,
                addresses,
                i,
                now,
            ),
            (ProfilePhase::Waiting(deadline), ProfileEvent::Requested) => {
                let turned_away: bool = match self.stopped_at {
                    Some(t) => stopped && elapsed_since(t, now) < STOP_RECONNECT_DELAY,
                    None => false,
                };
                if turned_away {
                    (ProfilePhase::TurningAway(deadline), ProfileStep::TurnAway)
                } else {
                    (ProfilePhase::LettingIn, ProfileStep::LetIn)
                }
            },
            (ProfilePhase::TurningAway(deadline), ProfileEvent::TurnedAway) => (
                ProfilePhase::Waiting(deadline),
                ProfileStep::Wait(elapsed_since(now, deadline)),
            ),
            (_, ProfileEvent::LetIn(address)) => {
                self.last_connected = Some(address);
                (ProfilePhase::Over, ProfileStep::Connected(address))
            },
            (_, ProfileEvent::NotLetIn) => (ProfilePhase::Over, ProfileStep::Refused),
            _ => (ProfilePhase::Over, ProfileStep::TimedOut),
        };
        (ProfileRun { bt_timeout, stopped, phase }, step)
    }
}

/// The same round, before it begins.
pub open spec fn anew(round: ConnectRound) -> ConnectRound {
    ConnectRound { addresses: round.addresses, start: round.start, turn: 0, phase: RoundPhase::New }
}

/// Whether a run that stands here has nothing left to do but to wait for a device.
pub open spec fn only_waits(phase: ProfilePhase) -> bool {
    phase is Waiting || phase is TurningAway || phase is LettingIn || phase is Over
}

/// Whether a step reaches out to a device.
pub open spec fn reaches_out(step: ProfileStep) -> bool {
    match step {
        ProfileStep::Enumerate | ProfileStep::Open(_) | ProfileStep::Attempt(_, _)
        | ProfileStep::Connect(_)
        | ProfileStep::ReadName(_) | ProfileStep::Join(_) => true,
        _ => false,
    }
}

/// While the user has stopped the proxy, it reaches out to no device: it only waits, from the
/// first event on.
pub proof fn law_stopped_proxy_only_waits(
    bluetooth: Bluetooth,
    run: ProfileRun,
    event: ProfileEvent,
    now: u128,
)
    requires
        run.stopped,
        run.phase is New || only_waits(run.phase),
        run.phase.accepts(event),
    ensures
        only_waits(bluetooth.profile_after(run, event, now).phase),
        !reaches_out(bluetooth.profile_after(run, event, now).step),
{
}

/// Once a run waits for a device it goes on doing so until a device is let in or the time is
/// over, and the end of that time never moves.
pub proof fn law_wait_keeps_its_end(
    bluetooth: Bluetooth,
    run: ProfileRun,
    event: ProfileEvent,
    now: u128,
)
    requires
        run.phase is Waiting || run.phase is TurningAway,
        run.phase.accepts(event),
    ensures
        ({
            let end = match run.phase {
                ProfilePhase::Waiting(end) => end,
                ProfilePhase::TurningAway(end) => end,
                _ => 0,
            };
            let to = bluetooth.profile_after(run, event, now);
            &&& only_waits(to.phase)
            &&& to.phase matches ProfilePhase::Waiting(e) ==> e == end
            &&& to.phase matches ProfilePhase::TurningAway(e) ==> e == end
            &&& to.step matches ProfileStep::Wait(d) ==> d == elapsed(now, end)
        }),
{
}

/// A device that asks to connect is let in, unless the user stopped the proxy and the proxy
/// has waited for less than ten seconds since.
pub proof fn law_reconnects_right_after_a_stop_are_turned_away(
    bluetooth: Bluetooth,
    run: ProfileRun,
    now: u128,
)
    requires
        run.phase is Waiting,
    ensures
        ({
            let step = bluetooth.profile_after(run, ProfileEvent::Requested, now).step;
            let soon = run.stopped && (bluetooth.stopped_at matches Some(t) && elapsed(t, now)
                < STOP_RECONNECT_DELAY);
            step == if soon { ProfileStep::TurnAway } else { ProfileStep::LetIn }
        }),
{
}

/// The time from which the ten seconds count is that of the first wait after a stop: it is set
/// when a stopped proxy begins to wait and none is set yet, and otherwise never changes here.
pub proof fn law_first_wait_after_a_stop_counts(
    bluetooth: Bluetooth,
    run: ProfileRun,
    event: ProfileEvent,
    now: u128,
)
    requires
        run.phase.accepts(event),
    ensures
        ({
            let to = bluetooth.profile_after(run, event, now);
            let begins = to.phase is Waiting && !(run.phase is TurningAway);
            to.stopped_at == if begins && run.stopped && bluetooth.stopped_at is None {
                Some(now)
            } else {
                bluetooth.stopped_at
            }
        }),
{
}

/// The device connected last changes exactly when a step says which device to record, and then
/// it is that device.
pub proof fn law_recorded_device_is_remembered(
    bluetooth: Bluetooth,
    run: ProfileRun,
    event: ProfileEvent,
    now: u128,
)
    requires
        run.phase.accepts(event),
    ensures
        ({
            let to = bluetooth.profile_after(run, event, now);
            to.last_connected == match to.step {
                ProfileStep::Record(a) => Some(a),
                ProfileStep::Connected(a) => Some(a),
                _ => bluetooth.last_connected,
            }
        }),
{
}

/// A run that stands in, or rests between, rounds of attempts, with `failures` of them behind
/// it (the present one included while it lasts), pauses as long as that number says; and each
/// round over the same devices begins at the same place as the first.
pub proof fn law_failed_rounds_are_repeated(
    bluetooth: Bluetooth,
    run: ProfileRun,
    event: ProfileEvent,
    now: u128,
    round: ConnectRound,
    failures: nat,
)
    requires
        failures >= 1,
        run.phase == ProfilePhase::Reaching(round, delay_after(failures)) || run.phase
            == ProfilePhase::Resting(round, delay_after(failures)),
        run.phase.accepts(event),
    ensures
        ({
            let to = bluetooth.profile_after(run, event, now);
            match to.phase {
                ProfilePhase::Reaching(r, d) => {
                    &&& d == delay_after(failures)
                    &&& r.addresses == round.addresses
                    &&& r.start == round.start
                },
                ProfilePhase::Resting(r, d) => {
                    &&& to.step == ProfileStep::Rest(delay_after(failures))
                    &&& d == delay_after(failures + 1)
                    &&& r.addresses == round.addresses
                    &&& r.start == round.start
                },
                _ => to.step is Record,
            }
        }),
{
}

/// A round begins at the device that was connected last if that device is in the list: at the
/// first place where it stands, and so that it has the first turn.
pub proof fn law_last_device_comes_first(addresses: Seq<Address>, last: Address, current: usize)
    requires
        exists|i: int| 0 <= i < addresses.len() && #[trigger] addresses[i]@ == last@,
        addresses.len() <= usize::MAX,
    ensures
        start_of(addresses, Some(last), current) < addresses.len(),
        addresses[start_of(addresses, Some(last), current) as int]@ == last@,
        forall|i: int|
            0 <= i < start_of(addresses, Some(last), current) ==> #[trigger] addresses[i]@ != last@,
        addresses[place(
            start_of(addresses, Some(last), current) as int,
            0,
            addresses.len() as int,
        )]@ == last@,
{
    lemma_first_place(addresses, last);
    vstd::arithmetic::div_mod::lemma_small_mod(
        start_of(addresses, Some(last), current) as nat,
        addresses.len(),
    );
}

proof fn lemma_first_place(addresses: Seq<Address>, address: Address)
    ensures
        0 <= first_place(addresses, address) <= addresses.len(),
        first_place(addresses, address) < addresses.len() ==> addresses[first_place(
            addresses,
            address,
        )]@ == address@,
        forall|i: int|
            0 <= i < first_place(addresses, address) ==> #[trigger] addresses[i]@ != address@,
    decreases addresses.len(),
{
    if addresses.len() > 0 && addresses[0]@ != address@ {
        let rest = addresses.skip(1);
        lemma_first_place(rest, address);
        assert forall|i: int| 0 <= i < first_place(addresses, address) implies #[trigger] addresses[i]@
            != address@ by {
            if i > 0 {
                assert(rest[i - 1]@ != address@);
            }
        }
    }
}

/// The next pause is twice as long as the last one, but never longer than fifteen seconds.
pub proof fn law_next_pause(delay: u64)
    ensures
        2 * delay <= 15 ==> next_delay(delay) == 2 * delay,
        2 * delay >= 15 ==> next_delay(delay) == 15,
{
}

/// A round begins where the last one left off if no device was connected before, or if the one
/// that was is not in the list.
pub proof fn law_otherwise_a_round_begins_where_the_last_left_off(
    addresses: Seq<Address>,
    last: Option<Address>,
    current: usize,
)
    requires
        last matches Some(a) ==> forall|i: int|
            0 <= i < addresses.len() ==> #[trigger] addresses[i]@ != a@,
    ensures
        start_of(addresses, last, current) == current,
{
    if let Some(a) = last {
        lemma_first_place(addresses, a);
    }
}

/// A list asks for every device that the adapter knows exactly if one of its addresses is all
/// zeros.
pub proof fn law_zeros_ask_for_every_device(addresses: Seq<Address>)
    ensures
        asks_for_any(addresses) <==> exists|i: int|
            0 <= i < addresses.len() && all_zeros(#[trigger] addresses[i]@),
{
    assert forall|a: Address| is_any(#[trigger] a@) <==> all_zeros(a@) by {
        if all_zeros(a@) {
            assert(a@ =~= seq![0u8, 0u8, 0u8, 0u8, 0u8, 0u8]);
        }
    }
    if exists|i: int| 0 <= i < addresses.len() && all_zeros(#[trigger] addresses[i]@) {
        let i = choose|i: int| 0 <= i < addresses.len() && all_zeros(#[trigger] addresses[i]@);
        assert(is_any(addresses[i]@));
    }
    if asks_for_any(addresses) {
        let i = choose|i: int| 0 <= i < addresses.len() && is_any(#[trigger] addresses[i]@);
        assert(all_zeros(addresses[i]@));
    }
}

/// Whether every byte is zero.
pub open spec fn all_zeros(bytes: Seq<u8>) -> bool {
    forall|i: int| 0 <= i < bytes.len() ==> #[trigger] bytes[i] == 0
}

/// Whether the proxy now waits for a device, for as long as the run says from `now` on, and has
/// changed nothing else that it keeps in mind but when it was stopped.
pub open spec fn begins_to_wait(
    bluetooth: Bluetooth,
    run: ProfileRun,
    now: u128,
    to: AfterProfile,
) -> bool {
    &&& to.step == ProfileStep::Wait(run.bt_timeout)
    &&& to.phase matches ProfilePhase::Waiting(end) && end == now + run.bt_timeout
    &&& to.current_index == bluetooth.current_index
    &&& to.cooldowns == bluetooth.page_timeout_devices@
    &&& to.last_connected == bluetooth.last_connected
}

/// Whether the proxy has changed nothing that it keeps in mind.
pub open spec fn minds_the_same(bluetooth: Bluetooth, to: AfterProfile) -> bool {
    &&& to.current_index == bluetooth.current_index
    &&& to.cooldowns == bluetooth.page_timeout_devices@
    &&& to.last_connected == bluetooth.last_connected
    &&& to.stopped_at == bluetooth.stopped_at
}

/// Whether the proxy now reaches out to these devices: to none of an empty list, so that it waits;
/// in dongle mode by asking the first for its name; and otherwise in a round over all of them,
/// which a pause of a second follows if it comes to nothing.
pub open spec fn begins_to_reach(
    bluetooth: Bluetooth,
    run: ProfileRun,
    addresses: Vec<Address>,
    now: u128,
    to: AfterProfile,
) -> bool {
    if addresses@.len() == 0 {
        begins_to_wait(bluetooth, run, now, to)
    } else if bluetooth.dongle_mode {
        &&& to.step == ProfileStep::ReadName(addresses@[0])
        &&& to.phase matches ProfilePhase::Naming(l, i) && l == addresses && i == 0
        &&& minds_the_same(bluetooth, to)
    } else {
        let round = ConnectRound {
            addresses,
            start: start_of(addresses@, bluetooth.last_connected, bluetooth.current_index),
            turn: 0,
            phase: RoundPhase::New,
        };
        let by = round.after(ConnectEvent::Begin, bluetooth.page_timeout_devices@, now);
        &&& to.cooldowns == by.cooldowns
        &&& match by.step {
            ConnectStep::Open(a) => to.step == ProfileStep::Open(a) && (to.phase
                matches ProfilePhase::Reaching(next, delay) && delay == 1 && next.turn
                == by.turn as usize && next.phase == by.phase && next.addresses == addresses
                && next.start == round.start),
            _ => to.step == ProfileStep::Rest(1) && (to.phase matches ProfilePhase::Resting(
                next,
                delay,
            ) && delay == 2 && next == round),
        }
        &&& to.current_index == bluetooth.current_index
        &&& to.last_connected == bluetooth.last_connected
        &&& to.stopped_at == bluetooth.stopped_at
    }
}

/// How a run begins. It reaches out to the devices of its list, or to those that the adapter knows
/// if the list asks for them; without a list, or if the user has stopped the proxy, it waits.
pub proof fn law_how_a_run_begins(bluetooth: Bluetooth, run: ProfileRun, now: u128)
    requires
        run.phase is New,
        now + run.bt_timeout <= u128::MAX,
    ensures
        ({
            let to = bluetooth.profile_after(run, ProfileEvent::Begin, now);
            match run.phase {
                ProfilePhase::New(Some(addresses)) => if run.stopped {
                    begins_to_wait(bluetooth, run, now, to)
                } else if exists|i: int|
                    0 <= i < addresses@.len() && all_zeros(#[trigger] addresses@[i]@) {
                    to.step == ProfileStep::Enumerate && to.phase is Enumerating && minds_the_same(
                        bluetooth,
                        to,
                    )
                } else {
                    begins_to_reach(bluetooth, run, addresses, now, to)
                },
                _ => begins_to_wait(bluetooth, run, now, to),
            }
        }),
{
    if let ProfilePhase::New(Some(addresses)) = run.phase {
        law_zeros_ask_for_every_device(addresses@);
        lemma_begins_to_reach(bluetooth, run, addresses, now);
    }
}

proof fn lemma_begins_to_reach(
    bluetooth: Bluetooth,
    run: ProfileRun,
    addresses: Vec<Address>,
    now: u128,
)
    requires
        now + run.bt_timeout <= u128::MAX,
    ensures
        begins_to_reach(
            bluetooth,
            run,
            addresses,
            now,
            bluetooth.reach_out(run, addresses, now),
        ),
{
}

/// What follows when the adapter has listed its devices: it reaches out to all of them; and when
/// it could not, the run is over.
pub proof fn law_known_devices_are_reached_out_to(
    bluetooth: Bluetooth,
    run: ProfileRun,
    addresses: Vec<Address>,
    now: u128,
)
    requires
        run.phase is Enumerating,
        now + run.bt_timeout <= u128::MAX,
    ensures
        begins_to_reach(
            bluetooth,
            run,
            addresses,
            now,
            bluetooth.profile_after(run, ProfileEvent::Enumerated(addresses), now),
        ),
        ({
            let to = bluetooth.profile_after(run, ProfileEvent::EnumerationFailed, now);
            to.step == ProfileStep::NotEnumerated && to.phase is Over && minds_the_same(
                bluetooth,
                to,
            )
        }),
{
    lemma_begins_to_reach(bluetooth, run, addresses, now);
}

/// A run asks for what its round of attempts asks for, and keeps which devices rest. A round that
/// came to nothing is followed by a pause, and a device that was connected is recorded, and the
/// place after it is kept for the next round.
pub proof fn law_run_follows_its_round(
    bluetooth: Bluetooth,
    run: ProfileRun,
    event: ConnectEvent,
    now: u128,
    round: ConnectRound,
    delay: u64,
)
    requires
        run.phase == ProfilePhase::Reaching(round, delay),
    ensures
        ({
            let by = round.after(event, bluetooth.page_timeout_devices@, now);
            let to = bluetooth.profile_after(run, ProfileEvent::Round(event), now);
            &&& to.cooldowns == by.cooldowns
            &&& to.stopped_at == bluetooth.stopped_at
            &&& match by.step {
                ConnectStep::Open(a) => to.step == ProfileStep::Open(a),
                ConnectStep::Attempt(a, k) => to.step == ProfileStep::Attempt(a, k),
                ConnectStep::Connect(a) => to.step == ProfileStep::Connect(a),
                ConnectStep::Connected(_, a) => to.step == ProfileStep::Record(a),
                ConnectStep::Unreachable | ConnectStep::DeviceError => to.step
                    == ProfileStep::Rest(delay),
            }
            &&& to.current_index == match by.step {
                ConnectStep::Connected(place, _) => place,
                _ => bluetooth.current_index,
            }
            &&& match to.step {
                ProfileStep::Record(_) => to.phase is Recording,
                ProfileStep::Rest(_) => to.phase matches ProfilePhase::Resting(next, _)
                    && next.phase == RoundPhase::New && next.turn == 0,
                _ => to.phase matches ProfilePhase::Reaching(next, d) && d == delay && next.turn
                    == by.turn as usize && next.phase == by.phase && next.addresses
                    == round.addresses && next.start == round.start,
            }
        }),
{
}

/// After a pause the round is begun again.
pub proof fn law_round_begins_again_after_a_pause(
    bluetooth: Bluetooth,
    run: ProfileRun,
    now: u128,
    round: ConnectRound,
    delay: u64,
)
    requires
        run.phase == ProfilePhase::Resting(round, delay),
    ensures
        ({
            let by = round.after(ConnectEvent::Begin, bluetooth.page_timeout_devices@, now);
            let to = bluetooth.profile_after(run, ProfileEvent::Rested, now);
            &&& to.cooldowns == by.cooldowns
            &&& to.current_index == bluetooth.current_index
            &&& match by.step {
                ConnectStep::Open(a) => to.step == ProfileStep::Open(a) && (to.phase
                    matches ProfilePhase::Reaching(next, d) && d == delay && next.turn
                    == by.turn as usize && next.phase == by.phase && next.addresses
                    == round.addresses && next.start == round.start),
                _ => to.step == ProfileStep::Rest(delay) && to.phase is Resting,
            }
        }),
{
}

/// In dongle mode the devices are asked for their names one after the other. One whose name begins
/// as that of a proxy does is connected to, and whether or not that works, and in every other case,
/// the next one is asked, until none is left and the proxy waits.
pub proof fn law_proxies_are_known_by_their_names(
    bluetooth: Bluetooth,
    run: ProfileRun,
    event: ProfileEvent,
    now: u128,
    addresses: Vec<Address>,
    i: usize,
)
    requires
        i < addresses.len(),
        run.phase == ProfilePhase::Naming(addresses, i) || run.phase == ProfilePhase::Joining(
            addresses,
            i,
        ),
        run.phase.accepts(event),
        now + run.bt_timeout <= u128::MAX,
    ensures
        ({
            let to = bluetooth.profile_after(run, event, now);
            let proxy = event matches ProfileEvent::Named(Some(name)) && name@.len() >= 12
                && name@.take(12) == "AndroidAuto-"@;
            if proxy {
                &&& to.step == ProfileStep::Join(addresses@[i as int])
                &&& to.phase matches ProfilePhase::Joining(l, k) && l == addresses && k == i
                &&& minds_the_same(bluetooth, to)
            } else if i + 1 < addresses.len() {
                &&& to.step == ProfileStep::ReadName(addresses@[i + 1])
                &&& to.phase matches ProfilePhase::Naming(l, k) && l == addresses && k == i + 1
                &&& minds_the_same(bluetooth, to)
            } else {
                begins_to_wait(bluetooth, run, now, to)
            }
        }),
{
    reveal_strlit("AndroidAuto-");
    if let ProfileEvent::Named(Some(name)) = event {
        if name@.len() >= 12 {
            assert(name@.subrange(0, 12) == name@.take(12));
        }
    }
}

/// Once the device that was reached is recorded, the proxy waits for it to connect.
pub proof fn law_reached_device_is_waited_for(bluetooth: Bluetooth, run: ProfileRun, now: u128)
    requires
        run.phase is Recording,
        now + run.bt_timeout <= u128::MAX,
    ensures
        begins_to_wait(
            bluetooth,
            run,
            now,
            bluetooth.profile_after(run, ProfileEvent::Recorded, now),
        ),
{
}

/// How a wait ends. A device that asks to connect is turned away for ten seconds after the first
/// wait since the user stopped the proxy, and let in otherwise; after one was turned away the wait
/// goes on for what is left of it; and the run is over when its time is, and when a device was or
/// could not be let in.
pub proof fn law_how_a_wait_ends(
    bluetooth: Bluetooth,
    run: ProfileRun,
    event: ProfileEvent,
    now: u128,
)
    requires
        run.phase is Waiting || run.phase is TurningAway || run.phase is LettingIn,
        run.phase.accepts(event),
    ensures
        ({
            let to = bluetooth.profile_after(run, event, now);
            let soon = run.stopped && (bluetooth.stopped_at matches Some(t) && now < t
                + 10_000_000_000);
            &&& match event {
                ProfileEvent::Requested => if soon {
                    to.step == ProfileStep::TurnAway && to.phase is TurningAway
                } else {
                    to.step == ProfileStep::LetIn && to.phase is LettingIn
                },
                ProfileEvent::TurnedAway => to.phase matches ProfilePhase::Waiting(end) && (to.step
                    matches ProfileStep::Wait(d) && if now <= end {
                    now + d == end
                } else {
                    d == 0
                }),
                ProfileEvent::LetIn(a) => to.step == ProfileStep::Connected(a) && to.phase is Over,
                ProfileEvent::NotLetIn => to.step == ProfileStep::Refused && to.phase is Over,
                _ => to.step == ProfileStep::TimedOut && to.phase is Over,
            }
            &&& to.current_index == bluetooth.current_index
            &&& to.cooldowns == bluetooth.page_timeout_devices@
            &&& to.stopped_at == bluetooth.stopped_at
        }),
{
}

/// What the proxy keeps in mind after a step is what the step says, and its mode stays.
pub proof fn law_what_is_kept_in_mind(bluetooth: Bluetooth, from: Bluetooth, to: AfterProfile)
    requires
        bluetooth.became(from, to),
    ensures
        bluetooth.current_index == to.current_index,
        bluetooth.dongle_mode == from.dongle_mode,
        bluetooth.page_timeout_devices@ == to.cooldowns,
        bluetooth.last_connected == to.last_connected,
        bluetooth.stopped_at == to.stopped_at,
{
}

/// What can happen in a run: what became of the last thing it asked for.
pub proof fn law_what_can_happen_in_a_run(phase: ProfilePhase, event: ProfileEvent)
    ensures
        phase.accepts(event) <==> match phase {
            ProfilePhase::New(_) => event is Begin,
            ProfilePhase::Enumerating => event is Enumerated || event is EnumerationFailed,
            ProfilePhase::Reaching(round, _) => event matches ProfileEvent::Round(e)
                && round.accepts(e),
            ProfilePhase::Resting(_, _) => event is Rested,
            ProfilePhase::Recording => event is Recorded,
            ProfilePhase::Naming(_, _) => event is Named,
            ProfilePhase::Joining(_, _) => event is Joined,
            ProfilePhase::Waiting(_) => event is Requested || event is TimedOut,
            ProfilePhase::TurningAway(_) => event is TurnedAway,
            ProfilePhase::LettingIn => event is LetIn || event is NotLetIn,
            ProfilePhase::Over => false,
        },
{
}

/// A new run goes by what it is told, and has not begun.
pub proof fn law_new_run(
    connect: Option<Vec<Address>>,
    bt_timeout: u128,
    stopped: bool,
    run: ProfileRun,
)
    requires
        call_ensures(ProfileRun::new, (connect, bt_timeout, stopped), run),
    ensures
        run.phase.accepts(ProfileEvent::Begin),
        run.phase == ProfilePhase::New(connect),
        run.bt_timeout == bt_timeout,
        run.stopped == stopped,
{
}

} // verus!
