//! Announcing the proxy over Bluetooth Low Energy.
//!
//! The announcement is tried a few times with the service of the proxy in it, and a few times
//! without if that does not work.

use vstd::prelude::*;
use crate::bluetooth::Bluetooth;

verus! {

/// How often each form of the announcement is tried.
pub const ADVERTISE_ATTEMPTS: u8 = 3;

/// How long to pause after a failed try, in milliseconds.
pub const ADVERTISE_PAUSE_MS: u64 = 200;

/// Where the announcement stands.
#[derive(Debug, Clone, Copy, PartialEq, Eq, Structural)]
pub enum BlePhase {
    /// Nothing has been done.
    New,
    /// The server that answers over Bluetooth Low Energy is being started.
    StartingServer,
    /// The name of the adapter is being read.
    ReadingAlias,
    /// The announcement is being tried: whether it holds the service, and the number of the
    /// try, counted from one.
    Advertising(bool, u8),
    /// A pause after that try.
    Pausing(bool, u8),
    /// All is done.
    Over,
}

/// What happened.
#[derive(Debug, Clone, Copy, PartialEq, Eq, Structural)]
pub enum BleEvent {
    /// The announcement begins; whether the server is wanted.
    Begin(bool),
    /// The server runs.
    ServerStarted,
    /// The server could not be started.
    ServerFailed,
    /// The name of the adapter is known.
    AliasRead,
    /// The name of the adapter could not be read.
    AliasFailed,
    /// The announcement is on air.
    AdvertiseStarted,
    /// The announcement was refused.
    AdvertiseFailed,
    /// The pause is over.
    Paused,
}

/// What to do next.
#[derive(Debug, Clone, Copy, PartialEq, Eq, Structural)]
pub enum BleStep {
    /// Start the server that answers over Bluetooth Low Energy.
    StartServer,
    /// Take down an earlier announcement, and read the name of the adapter.
    ReadAlias,
    /// Announce the proxy, with or without its service.
    Advertise(bool),
    /// Pause.
    Pause,
    /// All is done; whether the proxy is announced.
    Done(bool),
    /// The name of the adapter could not be read, so nothing can be announced.
    Failed,
}

/// Whether `event` can happen in `phase`.
pub open spec fn ble_accepts(phase: BlePhase, event: BleEvent) -> bool {
    match event {
        BleEvent::Begin(_) => phase == BlePhase::New,
        BleEvent::ServerStarted | BleEvent::ServerFailed => phase == BlePhase::StartingServer,
        BleEvent::AliasRead | BleEvent::AliasFailed => phase == BlePhase::ReadingAlias,
        BleEvent::AdvertiseStarted | BleEvent::AdvertiseFailed => phase is Advertising,
        BleEvent::Paused => phase is Pausing,
    }
}

/// The numbers of tries are within bounds.
pub open spec fn ble_valid(phase: BlePhase) -> bool {
    match phase {
        BlePhase::Advertising(_, k) | BlePhase::Pausing(_, k) => 1 <= k <= ADVERTISE_ATTEMPTS,
        _ => true,
    }
}

/// What follows an event: the next phase and what to do.
pub open spec fn ble_after(phase: BlePhase, event: BleEvent) -> (BlePhase, BleStep) {
    match (phase, event) {
        (_, BleEvent::Begin(true)) => (BlePhase::StartingServer, BleStep::StartServer),
        (_, BleEvent::Begin(false)) | (_, BleEvent::ServerStarted) | (
            _,
            BleEvent::ServerFailed,
        ) => (BlePhase::ReadingAlias, BleStep::ReadAlias),
        (_, BleEvent::AliasRead) => (BlePhase::Advertising(true, 1), BleStep::Advertise(true)),
        (_, BleEvent::AliasFailed) => (BlePhase::Over, BleStep::Failed),
        (_, BleEvent::AdvertiseStarted) => (BlePhase::Over, BleStep::Done(true)),
        (BlePhase::Advertising(service, k), BleEvent::AdvertiseFailed) => (
            BlePhase::Pausing(service, k),
            BleStep::Pause,
        ),
        (BlePhase::Pausing(service, k), BleEvent::Paused) if k < ADVERTISE_ATTEMPTS => (
            BlePhase::Advertising(service, (k + 1) as u8),
            BleStep::Advertise(service),
        ),
        (BlePhase::Pausing(true, _), BleEvent::Paused) => (
            BlePhase::Advertising(false, 1),
            BleStep::Advertise(false),
        ),
        _ => (BlePhase::Over, BleStep::Done(false)),
    }
}

impl Bluetooth {
    /// Takes what happened and says what to do next.
    pub fn start_ble(phase: &mut BlePhase, event: BleEvent) -> (step: BleStep)
        requires
            ble_valid(*old(phase)),
            ble_accepts(*old(phase), event),
        ensures
            ble_valid(*final(phase)),
            (*final(phase), step) == ble_after(*old(phase), event),
    {
        let (next, step) = match (*phase, event) {
            (_, BleEvent::Begin(enable)) => if enable {
                (BlePhase::StartingServer, BleStep::StartServer)
            } else {
                (BlePhase::ReadingAlias, BleStep::ReadAlias)
            },
            (_, BleEvent::ServerStarted) => (BlePhase::ReadingAlias, BleStep::ReadAlias),
            (_, BleEvent::ServerFailed) => (BlePhase::ReadingAlias, BleStep::ReadAlias),
            (_, BleEvent::AliasRead) => (BlePhase::Advertising(true, 1), BleStep::Advertise(true)),
            (_, BleEvent::AliasFailed) => (BlePhase::Over, BleStep::Failed),
            (_, BleEvent::AdvertiseStarted) => (BlePhase::Over, BleStep::Done(true)),
            (BlePhase::Advertising(service, k), BleEvent::AdvertiseFailed) => (
                BlePhase::Pausing(service, k),
                BleStep::Pause,
            ),
            (BlePhase::Pausing(service, k), BleEvent::Paused) => if k < ADVERTISE_ATTEMPTS {
                (BlePhase::Advertising(service, k + 1), BleStep::Advertise(service))
            } else if service {
                (BlePhase::Advertising(false, 1), BleStep::Advertise(false))
            } else {
                (BlePhase::Over, BleStep::Done(false))
            },
            _ => (BlePhase::Over, BleStep::Done(false)),
        };
        *phase = next;
        step
    }
}

/// Whether `events` can happen one after the other, from `phase` on.
pub open spec fn ble_can_happen(phase: BlePhase, events: Seq<BleEvent>) -> bool
    decreases events.len(),
{
    events.len() == 0 || (ble_accepts(phase, events[0]) && ble_can_happen(
        ble_after(phase, events[0]).0,
        events.skip(1),
    ))
}

/// What is asked for while `events` happen.
pub open spec fn ble_steps(phase: BlePhase, events: Seq<BleEvent>) -> Seq<BleStep>
    decreases events.len(),
{
    if events.len() == 0 {
        Seq::empty()
    } else {
        seq![ble_after(phase, events[0]).1] + ble_steps(
            ble_after(phase, events[0]).0,
            events.skip(1),
        )
    }
}

/// How often the announcement is tried among `steps`, with or without the service.
pub open spec fn tries(steps: Seq<BleStep>, service: bool) -> nat {
    steps.filter(|s: BleStep| s == BleStep::Advertise(service)).len()
}

/// How many tries with and without the service may still come.
pub open spec fn tries_left(phase: BlePhase, service: bool) -> int {
    match phase {
        BlePhase::New | BlePhase::StartingServer | BlePhase::ReadingAlias => 3,
        BlePhase::Advertising(s, k) | BlePhase::Pausing(s, k) => if s == service {
            3 - k
        } else if service {
            0
        } else {
            3
        },
        BlePhase::Over => 0,
    }
}

proof fn lemma_tries_of_one_more(step: BleStep, rest: Seq<BleStep>, service: bool)
    ensures
        tries(seq![step] + rest, service) == tries(rest, service) + if step == BleStep::Advertise(
            service,
        ) {
            1nat
        } else {
            0nat
        },
{
    let p = |s: BleStep| s == BleStep::Advertise(service);
    Seq::filter_distributes_over_add(seq![step], rest, p);
    reveal(Seq::filter);
    let one = seq![step];
    assert(one.drop_last().filter(p) =~= Seq::<BleStep>::empty());
}

proof fn lemma_tries_bounded(phase: BlePhase, events: Seq<BleEvent>)
    requires
        ble_valid(phase),
        ble_can_happen(phase, events),
    ensures
        tries(ble_steps(phase, events), true) <= tries_left(phase, true),
        tries(ble_steps(phase, events), false) <= tries_left(phase, false),
    decreases events.len(),
{
    reveal(Seq::filter);
    if events.len() > 0 {
        let (next, step) = ble_after(phase, events[0]);
        lemma_tries_bounded(next, events.skip(1));
        lemma_tries_of_one_more(step, ble_steps(next, events.skip(1)), true);
        lemma_tries_of_one_more(step, ble_steps(next, events.skip(1)), false);
    }
}

/// Whatever happens, each form of the announcement is tried at most three times.
pub proof fn law_announcement_is_tried_at_most_thrice(events: Seq<BleEvent>)
    requires
        ble_can_happen(BlePhase::New, events),
    ensures
        tries(ble_steps(BlePhase::New, events), true) <= ADVERTISE_ATTEMPTS,
        tries(ble_steps(BlePhase::New, events), false) <= ADVERTISE_ATTEMPTS,
{
    lemma_tries_bounded(BlePhase::New, events);
}

/// The announcement without the service is tried only after the third try with it has failed,
/// and the proxy gives up only after the third try without it has failed.
pub proof fn law_fallback_comes_last(phase: BlePhase, event: BleEvent)
    requires
        ble_valid(phase),
        ble_accepts(phase, event),
    ensures
        ble_after(phase, event).0 == BlePhase::Advertising(false, 1) <==> phase == BlePhase::Pausing(
            true,
            ADVERTISE_ATTEMPTS,
        ),
        ble_after(phase, event).1 == BleStep::Done(false) <==> phase == BlePhase::Pausing(
            false,
            ADVERTISE_ATTEMPTS,
        ),
        ble_after(phase, event).1 == BleStep::Done(true) <==> event == BleEvent::AdvertiseStarted,
{
}

/// The server is started exactly if it is wanted, and whether or not it runs the name of the
/// adapter is read then. With the name the announcement is tried, and without it nothing is.
pub proof fn law_announcement_follows_the_name(phase: BlePhase, event: BleEvent)
    requires
        ble_valid(phase),
        ble_accepts(phase, event),
    ensures
        ({
            let (next, step) = ble_after(phase, event);
            &&& step == BleStep::StartServer <==> event == BleEvent::Begin(true)
            &&& step == BleStep::ReadAlias <==> event == BleEvent::Begin(false) || event
                == BleEvent::ServerStarted || event == BleEvent::ServerFailed
            &&& step == BleStep::Failed <==> event == BleEvent::AliasFailed
            &&& event == BleEvent::AliasRead ==> step == BleStep::Advertise(true) && next
                == BlePhase::Advertising(true, 1)
            &&& step == BleStep::StartServer ==> next == BlePhase::StartingServer
            &&& step == BleStep::ReadAlias ==> next == BlePhase::ReadingAlias
        }),
{
}

/// A try that fails is followed by a pause. After the first and the second pause the same form is
/// tried again; after the third the form without the service follows that with it, and nothing
/// follows that without it.
pub proof fn law_each_form_is_tried_three_times(phase: BlePhase, event: BleEvent)
    requires
        ble_valid(phase),
        ble_accepts(phase, event),
    ensures
        ({
            let (next, step) = ble_after(phase, event);
            &&& step == BleStep::Pause <==> event == BleEvent::AdvertiseFailed
            &&& phase matches BlePhase::Advertising(service, k) ==> (event
                == BleEvent::AdvertiseFailed ==> next == BlePhase::Pausing(service, k))
            &&& phase matches BlePhase::Pausing(service, k) ==> {
                &&& k < 3 ==> step == BleStep::Advertise(service) && next == BlePhase::Advertising(
                    service,
                    (k + 1) as u8,
                )
                &&& k >= 3 && service ==> step == BleStep::Advertise(false) && next
                    == BlePhase::Advertising(false, 1)
                &&& k >= 3 && !service ==> step == BleStep::Done(false) && next == BlePhase::Over
            }
            &&& event == BleEvent::AdvertiseStarted ==> step == BleStep::Done(true)
            &&& next == BlePhase::Over <==> step is Done || step == BleStep::Failed
        }),
{
}

/// What can happen to the announcement: what became of the last thing it asked for.
pub proof fn law_what_can_happen_to_the_announcement(phase: BlePhase, event: BleEvent)
    ensures
        phase == BlePhase::New ==> (ble_accepts(phase, event) <==> event is Begin),
        phase == BlePhase::StartingServer ==> (ble_accepts(phase, event) <==> event
            == BleEvent::ServerStarted || event == BleEvent::ServerFailed),
        phase == BlePhase::ReadingAlias ==> (ble_accepts(phase, event) <==> event
            == BleEvent::AliasRead || event == BleEvent::AliasFailed),
        phase is Advertising ==> (ble_accepts(phase, event) <==> event == BleEvent::AdvertiseStarted
            || event == BleEvent::AdvertiseFailed),
        phase is Pausing ==> (ble_accepts(phase, event) <==> event == BleEvent::Paused),
        phase == BlePhase::Over ==> !ble_accepts(phase, event),
{
}

} // verus!
