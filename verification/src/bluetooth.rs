//! Setting up Bluetooth.

use vstd::prelude::*;
use vstd::utf8::{
    encode_utf8,
    encode_utf8_decode_utf8,
    encode_utf8_valid_utf8,
    is_ascii_chars,
    is_ascii_chars_encode_utf8,
    is_char_boundary,
    is_char_boundary_iff_not_is_continuation_byte,
};
use std::collections::HashMap;
use crate::address::{last_connected, load_last_connected, Address};
use crate::config::IDENTITY_NAME;
use crate::text::{
    blank,
    law_trailing_run_is_cut_off,
    law_trimming_cuts_the_ends,
    trim,
    trim_trailing,
    trimmed,
    white_space,
    without_trailing,
};

verus! {

/// The profile under which a phone finds the proxy.
pub const AAWG_PROFILE_UUID: u128 = 0x4de17a0052cb11e6bdf40800200c9a66;

/// The service that the proxy announces over Bluetooth Low Energy.
pub const BTLE_PROFILE_UUID: u128 = 0x9b3f6c10a4d2418ea2b90700300de8f4;

/// The headset side of the headset profile.
pub const HSP_HS_UUID: u128 = 0x0000110800001000800000805f9b34fb;

/// The gateway side of the headset profile.
pub const HSP_AG_UUID: u128 = 0x0000111200001000800000805f9b34fb;

/// What the proxy keeps in mind about its Bluetooth connections.
#[derive(Debug)]
pub struct Bluetooth {
    /// Where the next round of attempts begins in the list of devices.
    pub current_index: usize,
    /// Whether the proxy connects to another proxy in place of a phone.
    pub dongle_mode: bool,
    /// When devices last did not answer, in nanoseconds, by the number of their address.
    pub page_timeout_devices: HashMap<u64, u128>,
    /// The device that was connected last.
    pub last_connected: Option<Address>,
    /// When the proxy began to wait after the user stopped it, in nanoseconds.
    pub stopped_at: Option<u128>,
}

/// What the serial number file holds beside padding: the text without the zero characters at
/// its end, and then without the white space at either end.
pub open spec fn serial_number(contents: Seq<char>) -> Seq<char> {
    trimmed(without_trailing(contents, '\0'))
}

/// Whether the last six bytes of the serial number begin in the middle of a character.
pub open spec fn suffix_splits_character(contents: Seq<char>) -> bool {
    let bytes = encode_utf8(serial_number(contents));
    bytes.len() >= 6 && !is_char_boundary(bytes, bytes.len() - 6)
}

/// Whether the last six bytes of the serial number begin in the middle of a character.
pub fn serial_suffix_splits_character(contents: &str) -> (b: bool)
    ensures
        b == suffix_splits_character(contents@),
{
    let serial: &str = trim(trim_trailing(contents, '\0'));
    let n: usize = serial.as_bytes().len();
    n >= 6 && !serial.is_char_boundary(n - 6)
}

/// The last six bytes of the serial number in a serial number file; nothing if it is shorter.
pub fn get_cpu_serial_number_suffix(contents: &str) -> (suffix: String)
    requires
        !suffix_splits_character(contents@),
    ensures
        ({
            let bytes = encode_utf8(serial_number(contents@));
            encode_utf8(suffix@) == if bytes.len() >= 6 {
                bytes.skip(bytes.len() - 6)
            } else {
                Seq::empty()
            }
        }),
        encode_utf8(serial_number(contents@)).len() < 6 ==> suffix@ == Seq::<char>::empty(),
{
    let serial: &str = trim(trim_trailing(contents, '\0'));
    let n: usize = serial.as_bytes().len();
    if n >= 6 {
        let (_, tail) = serial.split_at(n - 6);
        tail.to_owned()
    } else {
        String::new()
    }
}

/// The name of the adapter: the one that is configured, or the name of the proxy, with the end
/// of the serial number behind a hyphen if the serial number could be read.
pub open spec fn alias_of(btalias: Option<Seq<char>>, serial_suffix: Option<Seq<char>>) -> Seq<char> {
    match (btalias, serial_suffix) {
        (Some(alias), _) => alias,
        (None, Some(suffix)) => IDENTITY_NAME@ + "-"@ + suffix,
        (None, None) => IDENTITY_NAME@,
    }
}

/// The text of an optional string.
pub open spec fn option_text(s: Option<String>) -> Option<Seq<char>> {
    match s {
        Some(t) => Some(t@),
        None => None,
    }
}

/// The name of the adapter.
pub fn bluetooth_alias(btalias: Option<String>, serial_suffix: Option<String>) -> (alias: String)
    ensures
        alias@ == alias_of(option_text(btalias), option_text(serial_suffix)),
{
    match btalias {
        Some(alias) => alias,
        None => {
            let mut alias: String = IDENTITY_NAME.to_owned();
            if let Some(suffix) = serial_suffix {
                alias.append("-");
                alias.append(suffix.as_str());
            }
            alias
        },
    }
}

/// A profile to register with the Bluetooth daemon. What is absent is left to the daemon.
#[derive(Debug, Clone, Copy, PartialEq, Eq)]
pub struct ProfileSettings {
    pub uuid: u128,
    pub name: &'static str,
    pub channel: Option<u16>,
    /// Whether the proxy is the server of the profile.
    pub server: bool,
    pub require_authentication: Option<bool>,
    pub require_authorization: Option<bool>,
}

/// The profile under which a phone finds the proxy.
pub fn aa_wireless_profile() -> (p: ProfileSettings)
    ensures
        p.uuid == AAWG_PROFILE_UUID,
        p.name@ == "AA Wireless"@,
        p.channel == Some(8u16),
        p.server,
        p.require_authentication == Some(false),
        p.require_authorization == Some(false),
{
    ProfileSettings {
        uuid: AAWG_PROFILE_UUID,
        name: "AA Wireless",
        channel: Some(8),
        server: true,
        require_authentication: Some(false),
        require_authorization: Some(false),
    }
}

/// The headset profile, which makes a phone accept the proxy as a headset.
pub fn headset_profile() -> (p: ProfileSettings)
    ensures
        p.uuid == HSP_HS_UUID,
        p.name@ == "HSP HS"@,
        p.channel is None,
        !p.server,
        p.require_authentication == Some(false),
        p.require_authorization == Some(false),
{
    ProfileSettings {
        uuid: HSP_HS_UUID,
        name: "HSP HS",
        channel: None,
        server: false,
        require_authentication: Some(false),
        require_authorization: Some(false),
    }
}

/// A step of the set-up.
#[derive(Debug, Clone, Copy, PartialEq, Eq, Structural)]
pub enum AdapterStep {
    /// Open a session with the Bluetooth daemon.
    OpenSession,
    /// Open the adapter.
    OpenAdapter,
    /// Read the address of the adapter.
    ReadAddress,
    /// Give the adapter its name.
    SetAlias,
    SetPowered(bool),
    SetPairable(bool),
    SetDiscoverable(bool),
    /// In seconds; zero means for good.
    SetDiscoverableTimeout(u32),
    /// Register the profile under which a phone finds the proxy.
    RegisterProfile,
}

/// The steps of the set-up, in order.
pub open spec fn setup_steps(advertise: bool) -> Seq<AdapterStep> {
    seq![
        AdapterStep::OpenSession,
        AdapterStep::OpenAdapter,
        AdapterStep::ReadAddress,
        AdapterStep::SetAlias,
        AdapterStep::SetPowered(true),
        AdapterStep::SetPairable(true),
    ] + (if advertise {
        seq![AdapterStep::SetDiscoverable(true), AdapterStep::SetDiscoverableTimeout(0)]
    } else {
        Seq::empty()
    }) + seq![AdapterStep::RegisterProfile]
}

/// Where a set-up stands.
#[derive(Debug, Clone, Copy, PartialEq, Eq, Structural)]
pub enum SetupPhase {
    New,
    /// The step at this place is being made.
    Making(usize),
    Over,
}

/// What happened in a set-up.
#[derive(Debug, Clone, Copy, PartialEq, Eq, Structural)]
pub enum SetupEvent {
    /// The set-up begins.
    Begin,
    /// The step is made.
    Done,
    /// The step failed.
    Failed,
}

/// What a set-up asks for next.
#[derive(Debug, Clone, Copy, PartialEq, Eq, Structural)]
pub enum SetupStep {
    /// Make this step.
    Make(AdapterStep),
    /// The set-up is over.
    Finished,
    /// The set-up is over, with the error that was just met.
    Failed,
}

/// What follows an event in a set-up: the steps are made one after the other, and the first one
/// that fails ends it.
pub open spec fn setup_after(steps: Seq<AdapterStep>, phase: SetupPhase, event: SetupEvent) -> (
    SetupPhase,
    SetupStep,
) {
    let next = match phase {
        SetupPhase::Making(i) => i + 1,
        _ => 0,
    };
    if event == SetupEvent::Failed {
        (SetupPhase::Over, SetupStep::Failed)
    } else if next < steps.len() {
        (SetupPhase::Making(next as usize), SetupStep::Make(steps[next]))
    } else {
        (SetupPhase::Over, SetupStep::Finished)
    }
}

/// Whether `event` can happen in `phase` of a set-up of these steps.
pub open spec fn setup_accepts(steps: Seq<AdapterStep>, phase: SetupPhase, event: SetupEvent) -> bool {
    match phase {
        SetupPhase::New => event == SetupEvent::Begin,
        SetupPhase::Making(i) => i < steps.len() && event != SetupEvent::Begin,
        SetupPhase::Over => false,
    }
}

/// A step of the set-up is asked for only when it begins or when the step before it is made; the
/// set-up finishes only when its last step is made; and one that fails ends it.
pub proof fn law_first_failure_ends_the_set_up(
    advertise: bool,
    phase: SetupPhase,
    event: SetupEvent,
)
    requires
        setup_accepts(setup_steps(advertise), phase, event),
    ensures
        ({
            let steps = setup_steps(advertise);
            let (next, step) = setup_after(steps, phase, event);
            &&& step == SetupStep::Failed <==> event == SetupEvent::Failed
            &&& step is Make ==> event != SetupEvent::Failed
            &&& step == SetupStep::Finished <==> event == SetupEvent::Done && phase
                == SetupPhase::Making((steps.len() - 1) as usize)
            &&& step == SetupStep::Make(AdapterStep::RegisterProfile) <==> event == SetupEvent::Done
                && phase == SetupPhase::Making((steps.len() - 2) as usize)
            &&& next == SetupPhase::Over <==> !(step is Make)
        }),
{
}

/// How Bluetooth is set up.
#[derive(Debug)]
pub struct Setup {
    /// The name of the adapter.
    pub alias: String,
    /// The steps of the set-up, in order.
    pub steps: Vec<AdapterStep>,
    /// Where the set-up stands.
    pub phase: SetupPhase,
    /// What the proxy then keeps in mind.
    pub bluetooth: Bluetooth,
}

/// How to set up Bluetooth: `serial_suffix` is the end of the serial number, if it could be
/// read, and `record` the record of the device that was connected last, if there is one.
pub fn init(
    btalias: Option<String>,
    serial_suffix: Option<String>,
    advertise: bool,
    dongle_mode: bool,
    record: Option<String>,
) -> (setup: Setup)
    ensures
        setup.alias@ == alias_of(option_text(btalias), option_text(serial_suffix)),
        setup.steps@ == setup_steps(advertise),
        setup.phase == SetupPhase::New,
        setup.bluetooth.current_index == 0,
        setup.bluetooth.dongle_mode == dongle_mode,
        setup.bluetooth.page_timeout_devices@ == Map::<u64, u128>::empty(),
        setup.bluetooth.stopped_at is None,
        match record {
            Some(text) => match setup.bluetooth.last_connected {
                Some(a) => last_connected(text@) == Some(a@),
                None => last_connected(text@) is None,
            },
            None => setup.bluetooth.last_connected is None,
        },
{
    let alias: String = bluetooth_alias(btalias, serial_suffix);
    let mut steps: Vec<AdapterStep> = Vec::new();
    steps.push(AdapterStep::OpenSession);
    steps.push(AdapterStep::OpenAdapter);
    steps.push(AdapterStep::ReadAddress);
    steps.push(AdapterStep::SetAlias);
    steps.push(AdapterStep::SetPowered(true));
    steps.push(AdapterStep::SetPairable(true));
    if advertise {
        steps.push(AdapterStep::SetDiscoverable(true));
        steps.push(AdapterStep::SetDiscoverableTimeout(0));
    }
    steps.push(AdapterStep::RegisterProfile);
    let last: Option<Address> = match &record {
        Some(text) => load_last_connected(text.as_str()),
        None => None,
    };
    let bluetooth = Bluetooth {
        current_index: 0,
        dongle_mode,
        page_timeout_devices: HashMap::new(),
        last_connected: last,
        stopped_at: None,
    };
    Setup { alias, steps, phase: SetupPhase::New, bluetooth }
}

impl Setup {
    /// Takes what happened and says what the set-up does next.
    pub fn proceed(&mut self, event: SetupEvent) -> (step: SetupStep)
        requires
            setup_accepts(old(self).steps@, old(self).phase, event),
        ensures
            (final(self).phase, step) == setup_after(old(self).steps@, old(self).phase, event),
            final(self).steps == old(self).steps,
            final(self).alias == old(self).alias,
            final(self).bluetooth == old(self).bluetooth,
    {
        if event == SetupEvent::Failed {
            self.phase = SetupPhase::Over;
            return SetupStep::Failed;
        }
        let count: usize = self.steps.len();
        let next: usize = match self.phase {
            SetupPhase::Making(i) => i + 1,
            _ => 0,
        };
        if next < count {
            self.phase = SetupPhase::Making(next);
            SetupStep::Make(self.steps[next])
        } else {
            self.phase = SetupPhase::Over;
            SetupStep::Finished
        }
    }
}

/// The name of the adapter is the configured one, whatever it is; without one it is the name of the
/// proxy, with the end of the serial number behind a hyphen if there is one.
pub proof fn law_name_of_the_adapter(btalias: Option<String>, serial_suffix: Option<String>)
    ensures
        ({
            let alias = alias_of(option_text(btalias), option_text(serial_suffix));
            match btalias {
                Some(name) => alias == name@,
                None => match serial_suffix {
                    Some(suffix) => alias.len() == 9 + suffix@.len() && alias.take(9)
                        == "aa-proxy-"@ && alias.skip(9) == suffix@,
                    None => alias == "aa-proxy"@,
                },
            }
        }),
{
    reveal_strlit("aa-proxy");
    reveal_strlit("aa-proxy-");
    reveal_strlit("-");
    if let (None, Some(suffix)) = (btalias, serial_suffix) {
        let alias = alias_of(option_text(btalias), option_text(serial_suffix));
        assert(alias.take(9) == "aa-proxy-"@);
        assert(alias.skip(9) == suffix@);
    }
}

/// Neither white space around a serial number nor the zero characters that fill up its file are part
/// of it.
pub proof fn law_padding_is_no_part_of_the_serial_number(
    front: Seq<char>,
    serial: Seq<char>,
    back: Seq<char>,
    zeros: nat,
)
    requires
        blank(front),
        blank(back),
        serial.len() > 0 ==> !white_space(serial[0]) && !white_space(serial.last()) && serial.last()
            != '\0',
    ensures
        serial_number(front + serial + back + Seq::new(zeros, |i: int| '\0')) == serial,
{
    let text = front + serial + back;
    if text.len() > 0 {
        assert(text.last() == if back.len() > 0 {
            back.last()
        } else if serial.len() > 0 {
            serial.last()
        } else {
            front.last()
        });
        assert(!white_space('\0'));
    }
    law_trailing_run_is_cut_off(text, '\0', zeros);
    law_trimming_cuts_the_ends(front, serial, back);
}

/// The last six bytes of a serial number begin in the middle of a character exactly if the first of
/// them is one that continues a character.
pub proof fn law_when_the_suffix_splits_a_character(contents: Seq<char>)
    ensures
        ({
            let bytes = encode_utf8(serial_number(contents));
            suffix_splits_character(contents) <==> bytes.len() >= 6 && 0x80 <= bytes[bytes.len() - 6]
                <= 0xbf
        }),
{
    let serial = serial_number(contents);
    let bytes = encode_utf8(serial);
    encode_utf8_valid_utf8(serial);
    if bytes.len() >= 6 {
        is_char_boundary_iff_not_is_continuation_byte(bytes, bytes.len() - 6);
    }
}

/// The steps of a set-up are made one after the other, from the first to the last.
pub proof fn law_steps_are_made_in_order(
    steps: Seq<AdapterStep>,
    phase: SetupPhase,
    event: SetupEvent,
)
    requires
        setup_accepts(steps, phase, event),
        steps.len() <= usize::MAX,
    ensures
        ({
            let (next, step) = setup_after(steps, phase, event);
            &&& phase == SetupPhase::New ==> if steps.len() > 0 {
                step == SetupStep::Make(steps[0]) && next == SetupPhase::Making(0)
            } else {
                step == SetupStep::Finished && next == SetupPhase::Over
            }
            &&& phase matches SetupPhase::Making(i) ==> if event == SetupEvent::Failed {
                step == SetupStep::Failed && next == SetupPhase::Over
            } else if i + 1 < steps.len() {
                step == SetupStep::Make(steps[i + 1]) && next == SetupPhase::Making(
                    (i + 1) as usize,
                )
            } else {
                step == SetupStep::Finished && next == SetupPhase::Over
            }
        }),
{
}

/// What can happen in a set-up: it begins, and each of its steps is made or fails.
pub proof fn law_what_can_happen_in_a_set_up(
    steps: Seq<AdapterStep>,
    phase: SetupPhase,
    event: SetupEvent,
)
    ensures
        setup_accepts(steps, phase, event) <==> match event {
            SetupEvent::Begin => phase == SetupPhase::New,
            _ => phase matches SetupPhase::Making(i) && i < steps.len(),
        },
{
}

/// The adapter is opened before anything is set, and has its name and its power before it can be
/// paired with; it is made discoverable, for good, exactly if that is wanted; and the profile is
/// registered last.
pub proof fn law_order_of_the_set_up(advertise: bool)
    ensures
        ({
            let steps = setup_steps(advertise);
            &&& steps.len() == if advertise {
                9int
            } else {
                7int
            }
            &&& steps[0] == AdapterStep::OpenSession
            &&& steps[1] == AdapterStep::OpenAdapter
            &&& steps[2] == AdapterStep::ReadAddress
            &&& steps[3] == AdapterStep::SetAlias
            &&& steps[4] == AdapterStep::SetPowered(true)
            &&& steps[5] == AdapterStep::SetPairable(true)
            &&& advertise ==> steps[6] == AdapterStep::SetDiscoverable(true) && steps[7]
                == AdapterStep::SetDiscoverableTimeout(0)
            &&& steps.last() == AdapterStep::RegisterProfile
        }),
{
}

/// Of a serial number in plain ASCII the suffix is its last six characters, and of a shorter one it
/// is empty.
pub proof fn law_suffix_is_the_end_of_the_serial_number(contents: &str, suffix: String)
    requires
        call_ensures(get_cpu_serial_number_suffix, (contents,), suffix),
        is_ascii_chars(serial_number(contents@)),
    ensures
        ({
            let serial = serial_number(contents@);
            suffix@ == if serial.len() >= 6 {
                serial.skip(serial.len() - 6)
            } else {
                Seq::empty()
            }
        }),
{
    let serial = serial_number(contents@);
    is_ascii_chars_encode_utf8(serial);
    if serial.len() >= 6 {
        let end = serial.skip(serial.len() - 6);
        assert(is_ascii_chars(end));
        is_ascii_chars_encode_utf8(end);
        assert forall|i: int| 0 <= i < 6 implies encode_utf8(end)[i] == encode_utf8(serial).skip(
            serial.len() - 6,
        )[i] by {
            assert(end[i] == serial[serial.len() - 6 + i]);
        }
        assert(encode_utf8(end) =~= encode_utf8(suffix@));
        encode_utf8_decode_utf8(end);
        encode_utf8_decode_utf8(suffix@);
    }
}

/// Bluetooth is set up with nothing in mind but the mode and the device of the record, if it can be
/// read.
pub proof fn law_set_up_begins_with_the_record(
    btalias: Option<String>,
    serial_suffix: Option<String>,
    advertise: bool,
    dongle_mode: bool,
    record: Option<String>,
    setup: Setup,
)
    requires
        call_ensures(init, (btalias, serial_suffix, advertise, dongle_mode, record), setup),
    ensures
        setup.alias@ == alias_of(option_text(btalias), option_text(serial_suffix)),
        setup.steps@ == setup_steps(advertise),
        setup.phase == SetupPhase::New,
        setup.bluetooth.current_index == 0,
        setup.bluetooth.dongle_mode == dongle_mode,
        setup.bluetooth.stopped_at is None,
        forall|key: u64| !#[trigger] setup.bluetooth.page_timeout_devices@.contains_key(key),
        record is None ==> setup.bluetooth.last_connected is None,
        record matches Some(text) ==> (setup.bluetooth.last_connected is Some <==> last_connected(
            text@,
        ) is Some),
        setup.bluetooth.last_connected matches Some(a) ==> (record matches Some(text)
            && last_connected(text@) == Some(a@)),
{
}

/// The profile of the proxy is a server on a channel of its own, and the headset profile a client;
/// neither asks the phone to prove or to be granted anything.
pub proof fn law_profiles_ask_nothing_of_the_phone(aa: ProfileSettings, headset: ProfileSettings)
    requires
        call_ensures(aa_wireless_profile, (), aa),
        call_ensures(headset_profile, (), headset),
    ensures
        aa.uuid == 0x4de17a0052cb11e6bdf40800200c9a66,
        headset.uuid == 0x0000110800001000800000805f9b34fb,
        aa.name@ == "AA Wireless"@ && headset.name@ == "HSP HS"@,
        aa.server && !headset.server,
        aa.channel == Some(8u16) && headset.channel is None,
        aa.require_authentication == Some(false) && aa.require_authorization == Some(false),
        headset.require_authentication == Some(false),
        headset.require_authorization == Some(false),
{
}

} // verus!
