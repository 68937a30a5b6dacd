//! The configuration of the proxy.

use indexmap::IndexMap;
use vstd::prelude::*;
use vstd::utf8::{decode_utf8, valid_utf8};
use crate::outside::{lossy_utf8, map_entries, new_map, text_from_utf8_lossy};
use crate::text::{
    blank,
    law_a_part_is_found,
    law_line_search_is_substring_search,
    law_nothing_is_left_of_white_space,
    occurs_in,
    some_line_contains,
    some_line_has,
    trim,
    trimmed,
};

verus! {

/// The name under which the proxy appears over Bluetooth and Wi-Fi.
pub const IDENTITY_NAME: &'static str = "aa-proxy";

/// The address of the proxy on its own wireless network.
pub const DEFAULT_WLAN_ADDR: &'static str = "10.0.0.1";

/// The port on which the phone connects.
pub const TCP_SERVER_PORT: i32 = 5288;

/// The port on which a desktop head unit connects.
pub const TCP_DHU_PORT: i32 = 5277;

/// What the user asks the proxy to do.
#[derive(Debug, Clone, Copy, PartialEq, Eq, Structural)]
pub enum Action {
    Reconnect,
    Reboot,
    Stop,
}

/// The name of an action.
pub open spec fn action_name(action: Action) -> Seq<char> {
    match action {
        Action::Reconnect => "Reconnect"@,
        Action::Reboot => "Reboot"@,
        Action::Stop => "Stop"@,
    }
}

impl Action {
    /// The name of this action.
    pub fn name(self) -> (s: &'static str)
        ensures
            s@ == action_name(self),
    {
        match self {
            Action::Reconnect => "Reconnect",
            Action::Reboot => "Reboot",
            Action::Stop => "Stop",
        }
    }
}

/// How a phone reaches the proxy over Wi-Fi.
#[derive(Debug, Clone)]
pub struct WifiConfig {
    pub ip_addr: String,
    pub port: i32,
    pub ssid: String,
    pub bssid: String,
    pub wpa_key: String,
}

/// The configuration of the proxy.
#[derive(Debug, Clone)]
pub struct AppConfig {
    /// Whether the adapter is discoverable.
    pub advertise: bool,
    /// Whether the Bluetooth Low Energy service runs.
    pub enable_btle: bool,
    /// Whether the proxy connects to another proxy in place of a phone.
    pub dongle_mode: bool,
    /// Whether debug messages are logged.
    pub debug: bool,
    /// The name of the level of packet dumps.
    pub hexdump_level: String,
    /// Whether debug messages are kept from the console.
    pub disable_console_debug: bool,
    pub legacy: bool,
    /// Whether the Bluetooth connection is kept for another handshake.
    pub quick_reconnect: bool,
    /// Whether the adapter is powered only while it is needed.
    pub bt_poweroff: bool,
    /// The devices to connect to, as the file lists them.
    pub connect: String,
    /// The path of the log.
    pub logfile: String,
    /// The seconds between two reports on the transfer; with zero there are none.
    pub stats_interval: u16,
    /// The USB device controller.
    pub udc: Option<String>,
    /// The wireless interface.
    pub iface: String,
    /// The name of the adapter.
    pub btalias: Option<String>,
    pub usb_product: Option<String>,
    pub usb_manufacturer: Option<String>,
    pub usb_serial: Option<String>,
    /// The seconds of silence after which a transfer counts as stalled.
    pub timeout_secs: u16,
    /// Where the web server listens; without it there is none.
    pub webserver: Option<String>,
    /// The seconds that a phone is waited for over Bluetooth.
    pub bt_timeout_secs: u16,
    /// Whether packets are looked into and changed.
    pub mitm: bool,
    pub dpi: u16,
    pub audio_max_unacked: u8,
    pub remove_tap_restriction: bool,
    pub video_in_motion: bool,
    pub disable_media_sink: bool,
    pub disable_tts_sink: bool,
    pub developer_mode: bool,
    /// The USB device that is taken for a phone, as the file names it.
    pub wired: Option<String>,
    /// Whether the head unit is an emulator on the network.
    pub dhu: bool,
    pub ev: bool,
    pub odometer: bool,
    pub tire_pressure: bool,
    pub remove_bluetooth: bool,
    pub remove_wifi: bool,
    pub change_usb_order: bool,
    pub stop_on_disconnect: bool,
    pub waze_lht_workaround: bool,
    /// The program that logs the battery of an electric car.
    pub ev_battery_logger: Option<String>,
    /// The connectors of the car, as the file lists them.
    pub ev_connector_types: String,
    pub enable_ssh: bool,
    pub usb_serial_console: bool,
    /// The generation of the access point.
    pub wifi_version: u16,
    /// The band of the access point, in gigahertz.
    pub band: String,
    pub country_code: String,
    /// The channel of the access point.
    pub channel: u8,
    /// The name of the wireless network.
    pub ssid: String,
    /// The password of the wireless network.
    pub wpa_passphrase: String,
    pub eth_mode: String,
    pub startup_delay: u8,
    pub ble_password: String,
    pub external_antenna: bool,
    /// The first of the ports on which media streams can be read, at fixed offsets: video of
    /// the main screen, of the cluster and of another screen, then speech, system sounds, media
    /// and calls. It needs `mitm`.
    pub media_dump_base_port: Option<u16>,
    /// Whether a reader of a media stream waits for a picture that can be decoded on its own.
    pub media_wait_for_live_idr: bool,
    pub collect_speed: bool,
    pub disable_driving_status: bool,
    /// The command that is run when a media key of the head unit is held, with the code of the
    /// key and the milliseconds as further arguments. Without it keys are passed on unchanged.
    /// It needs `mitm`.
    pub hu_button_handler: Option<String>,
    /// What the user asks for. It is not part of the file.
    pub action_requested: Option<Action>,
    /// Whether looking into packets has failed. It is not part of the file.
    pub runtime_mitm_failed: bool,
}

/// Where the web server listens if nothing else is configured.
pub const WEBSERVER_DEFAULT_BIND: &'static str = "0.0.0.0:80";

/// A text from the configuration file, where one that is empty or blank stands for none.
pub fn empty_string_as_none(s: String) -> (r: Option<String>)
    ensures
        r is None <==> trimmed(s@).len() == 0,
        r matches Some(t) ==> t@ == s@,
{
    if trim(s.as_str()).unicode_len() == 0 {
        None
    } else {
        Some(s)
    }
}

/// Where the web server listens if nothing else is configured.
pub fn webserver_default_bind() -> (r: Option<String>)
    ensures
        r matches Some(s) && s@ == WEBSERVER_DEFAULT_BIND@,
{
    Some(WEBSERVER_DEFAULT_BIND.to_owned())
}

/// How one setting is shown to the user.
#[derive(Debug, Clone)]
pub struct ConfigValue {
    pub typ: String,
    pub description: String,
    pub values: Option<Vec<String>>,
    pub placeholder: Option<String>,
}

impl Default for ConfigValue {
    fn default() -> (v: ConfigValue)
        ensures
            v.typ@ == ""@,
            v.description@ == ""@,
            v.values is None,
            v.placeholder is None,
    {
        ConfigValue {
            typ: "".to_owned(),
            description: "".to_owned(),
            values: None,
            placeholder: None,
        }
    }
}

/// A group of settings under a title, in the order in which they are shown.
#[derive(Debug, Clone)]
pub struct ConfigValues {
    pub title: String,
    pub values: IndexMap<String, ConfigValue>,
}

impl Default for ConfigValues {
    fn default() -> (v: ConfigValues)
        ensures
            v.title@ == ""@,
            map_entries(v.values) == Seq::<(Seq<char>, ConfigValue)>::empty(),
    {
        ConfigValues { title: "".to_owned(), values: new_map() }
    }
}

/// All settings as they are shown to the user.
#[derive(Debug, Clone)]
pub struct ConfigJson {
    pub titles: Vec<ConfigValues>,
}

impl Default for ConfigJson {
    fn default() -> (v: ConfigJson)
        ensures
            v.titles@ == Seq::<ConfigValues>::empty(),
    {
        ConfigJson { titles: Vec::new() }
    }
}

/// Whether some line of what `iw list` printed has this text in it.
pub fn filter_iw_list(stdout: &Vec<u8>, pattern: &str) -> (b: bool)
    ensures
        b == some_line_has(lossy_utf8(stdout@), pattern@),
        valid_utf8(stdout@) ==> b == some_line_has(decode_utf8(stdout@), pattern@),
{
    some_line_contains(text_from_utf8_lossy(stdout).as_str(), pattern)
}

/// What `iw list` prints for hardware that has the 5 GHz band.
pub const FIVE_GHZ: &'static str = "5180.0 MHz";

/// Whether the hardware has the 5 GHz band, from what `iw list` printed.
pub fn supports_5ghz_wifi(stdout: &Vec<u8>) -> (b: bool)
    ensures
        b == some_line_has(lossy_utf8(stdout@), FIVE_GHZ@),
        valid_utf8(stdout@) ==> b == some_line_has(decode_utf8(stdout@), FIVE_GHZ@),
{
    filter_iw_list(stdout, FIVE_GHZ)
}

/// What `iw list` prints for hardware of each generation of Wi-Fi.
pub open spec fn generation_mark(version: u16) -> Seq<char> {
    if version == 6 {
        "HE PHY Capabilities"@
    } else if version == 5 {
        "VHT Capabilities"@
    } else if version == 4 {
        " HT Capabilities"@
    } else if version == 3 {
        "54.0 Mbps"@
    } else if version == 2 {
        FIVE_GHZ@
    } else {
        "11.0 Mbps"@
    }
}

/// The newest generation of Wi-Fi that is looked for.
pub const NEWEST_WIFI: u16 = 6;

/// The search for the newest generation of Wi-Fi that the hardware has.
#[derive(Debug, Clone, Copy, PartialEq, Eq, Structural)]
pub struct WifiSearch {
    /// The generation that is looked for.
    pub version: u16,
}

/// What a search for the generation of Wi-Fi comes to.
#[derive(Debug, Clone, Copy, PartialEq, Eq, Structural)]
pub enum WifiStep {
    /// Run `iw list` once more.
    AskAgain,
    /// The hardware is of this generation.
    Found(u16),
    /// The hardware could not be asked.
    NotAsked,
    /// The hardware is of no generation that is looked for: the error is [`TOO_OLD`].
    TooOld,
}

/// The error for hardware of no generation that is looked for.
pub const TOO_OLD: &'static str = "Device does not support anything newer than 802.11-1997?!?!";

/// What follows when `iw list` printed this, or could not be run.
pub open spec fn wifi_after(s: WifiSearch, printed: Option<Seq<char>>) -> (WifiSearch, WifiStep) {
    match printed {
        None => (s, WifiStep::NotAsked),
        Some(text) => if some_line_has(text, generation_mark(s.version)) {
            (s, WifiStep::Found(s.version))
        } else if s.version == 1 {
            (s, WifiStep::TooOld)
        } else {
            (WifiSearch { version: (s.version - 1) as u16 }, WifiStep::AskAgain)
        },
    }
}

/// What `iw list` printed, as text.
pub open spec fn printed(stdout: Option<Vec<u8>>) -> Option<Seq<char>> {
    match stdout {
        Some(out) => Some(lossy_utf8(out@)),
        None => None,
    }
}

impl WifiSearch {
    /// The search from its beginning, for which `iw list` is to be run.
    pub fn new() -> (s: WifiSearch)
        ensures
            s.version == NEWEST_WIFI,
    {
        WifiSearch { version: NEWEST_WIFI }
    }

    /// Whether there is a generation to look for.
    pub open spec fn valid(&self) -> bool {
        1 <= self.version <= NEWEST_WIFI
    }

    /// Takes what `iw list` printed, or nothing where it could not be run, and says what the
    /// search comes to.
    pub fn get_latest_wifi_version(&mut self, stdout: Option<Vec<u8>>) -> (step: WifiStep)
        requires
            old(self).valid(),
        ensures
            (*final(self), step) == wifi_after(*old(self), printed(stdout)),
            stdout matches Some(out) ==> valid_utf8(out@) ==> (*final(self), step) == wifi_after(
                *old(self),
                Some(decode_utf8(out@)),
            ),
            final(self).valid(),
    {
        let out: Vec<u8> = match stdout {
            Some(out) => out,
            None => return WifiStep::NotAsked,
        };
        let found: bool = if self.version == 6 {
            filter_iw_list(&out, "HE PHY Capabilities")
        } else if self.version == 5 {
            filter_iw_list(&out, "VHT Capabilities")
        } else if self.version == 4 {
            filter_iw_list(&out, " HT Capabilities")
        } else if self.version == 3 {
            filter_iw_list(&out, "54.0 Mbps")
        } else if self.version == 2 {
            supports_5ghz_wifi(&out)
        } else {
            filter_iw_list(&out, "11.0 Mbps")
        };
        if found {
            WifiStep::Found(self.version)
        } else if self.version == 1 {
            WifiStep::TooOld
        } else {
            self.version = self.version - 1;
            WifiStep::AskAgain
        }
    }
}

/// What a search comes to in the end if `iw list` prints the same text each time.
pub open spec fn search_end(s: WifiSearch, text: Seq<char>) -> WifiStep
    decreases s.version,
{
    if s.version == 0 {
        WifiStep::TooOld
    } else {
        match wifi_after(s, Some(text)) {
            (next, WifiStep::AskAgain) => search_end(next, text),
            (_, step) => step,
        }
    }
}

/// A search finds the newest generation whose mark is printed, and fails exactly if no mark is.
pub proof fn law_search_finds_the_newest(s: WifiSearch, text: Seq<char>)
    requires
        s.valid(),
    ensures
        match search_end(s, text) {
            WifiStep::Found(v) => {
                &&& 1 <= v <= s.version
                &&& some_line_has(text, generation_mark(v))
                &&& forall|w: u16|
                    v < w <= s.version ==> !some_line_has(text, #[trigger] generation_mark(w))
            },
            WifiStep::TooOld => forall|w: u16|
                1 <= w <= s.version ==> !some_line_has(text, #[trigger] generation_mark(w)),
            _ => false,
        },
    decreases s.version,
{
    if !some_line_has(text, generation_mark(s.version)) && s.version > 1 {
        law_search_finds_the_newest(WifiSearch { version: (s.version - 1) as u16 }, text);
    }
}

/// What the defaults of a configuration depend on.
#[derive(Debug, Clone)]
pub struct Surroundings {
    /// The default list of devices to connect to.
    pub connect: String,
    /// The default list of connectors.
    pub ev_connector_types: String,
    /// The generation of Wi-Fi, if it could be found out.
    pub wifi_version: Option<u16>,
    /// Whether there is a 5 GHz band, if it could be found out, when the band is chosen.
    pub five_ghz_band: Option<bool>,
    /// Whether there is a 5 GHz band, if it could be found out, when the channel is chosen.
    pub five_ghz_channel: Option<bool>,
}

impl AppConfig {
    /// The configuration that holds where the file says nothing.
    pub open spec fn is_default(c: AppConfig, around: Surroundings) -> bool {
        &&& c.advertise
        &&& c.enable_btle
        &&& !c.dongle_mode
        &&& !c.debug
        &&& c.hexdump_level@ == "Disabled"@
        &&& !c.disable_console_debug
        &&& c.legacy
        &&& !c.quick_reconnect
        &&& !c.bt_poweroff
        &&& c.connect@ == around.connect@
        &&& c.logfile@ == "/var/log/aa-proxy-rs.log"@
        &&& c.stats_interval == 0
        &&& c.udc is None
        &&& c.iface@ == "wlan0"@
        &&& c.btalias is None
        &&& c.usb_product is None
        &&& c.usb_manufacturer is None
        &&& c.usb_serial is None
        &&& c.timeout_secs == 10
        &&& c.webserver matches Some(s) && s@ == WEBSERVER_DEFAULT_BIND@
        &&& c.bt_timeout_secs == 120
        &&& !c.mitm
        &&& c.dpi == 0
        &&& c.audio_max_unacked == 0
        &&& !c.remove_tap_restriction
        &&& !c.video_in_motion
        &&& !c.disable_media_sink
        &&& !c.disable_tts_sink
        &&& !c.developer_mode
        &&& c.wired is None
        &&& !c.dhu
        &&& !c.ev
        &&& !c.odometer
        &&& !c.tire_pressure
        &&& !c.remove_bluetooth
        &&& !c.remove_wifi
        &&& !c.change_usb_order
        &&& !c.stop_on_disconnect
        &&& !c.waze_lht_workaround
        &&& c.ev_battery_logger is None
        &&& c.action_requested is None
        &&& c.ev_connector_types@ == around.ev_connector_types@
        &&& c.enable_ssh
        &&& !c.usb_serial_console
        &&& c.wifi_version == (match around.wifi_version { Some(v) => v, None => 1 })
        &&& c.band@ == (if around.five_ghz_band == Some(true) { "5"@ } else { "2.4"@ })
        &&& c.country_code@ == "US"@
        &&& c.channel == (if around.five_ghz_channel == Some(true) { 36u8 } else { 6u8 })
        &&& c.ssid@ == IDENTITY_NAME@
        &&& c.wpa_passphrase@ == IDENTITY_NAME@
        &&& c.eth_mode@ == ""@
        &&& c.startup_delay == 0
        &&& c.ble_password@ == ""@
        &&& !c.external_antenna
        &&& c.media_dump_base_port is None
        &&& c.media_wait_for_live_idr
        &&& !c.collect_speed
        &&& !c.disable_driving_status
        &&& c.hu_button_handler is None
        &&& !c.runtime_mitm_failed
    }

    /// The configuration that holds where the file says nothing.
    pub fn defaults(around: Surroundings) -> (c: AppConfig)
        ensures
            AppConfig::is_default(c, around),
    {
        AppConfig {
            advertise: true,
            enable_btle: true,
            dongle_mode: false,
            debug: false,
            hexdump_level: "Disabled".to_owned(),
            disable_console_debug: false,
            legacy: true,
            quick_reconnect: false,
            bt_poweroff: false,
            connect: around.connect,
            logfile: "/var/log/aa-proxy-rs.log".to_owned(),
            stats_interval: 0,
            udc: None,
            iface: "wlan0".to_owned(),
            btalias: None,
            usb_product: None,
            usb_manufacturer: None,
            usb_serial: None,
            timeout_secs: 10,
            webserver: webserver_default_bind(),
            bt_timeout_secs: 120,
            mitm: false,
            dpi: 0,
            audio_max_unacked: 0,
            remove_tap_restriction: false,
            video_in_motion: false,
            disable_media_sink: false,
            disable_tts_sink: false,
            developer_mode: false,
            wired: None,
            dhu: false,
            ev: false,
            odometer: false,
            tire_pressure: false,
            remove_bluetooth: false,
            remove_wifi: false,
            change_usb_order: false,
            stop_on_disconnect: false,
            waze_lht_workaround: false,
            ev_battery_logger: None,
            action_requested: None,
            ev_connector_types: around.ev_connector_types,
            enable_ssh: true,
            usb_serial_console: false,
            wifi_version: match around.wifi_version {
                Some(v) => v,
                None => 1,
            },
            band: if around.five_ghz_band == Some(true) {
                "5".to_owned()
            } else {
                "2.4".to_owned()
            },
            country_code: "US".to_owned(),
            channel: if around.five_ghz_channel == Some(true) {
                36
            } else {
                6
            },
            ssid: IDENTITY_NAME.to_owned(),
            wpa_passphrase: IDENTITY_NAME.to_owned(),
            eth_mode: "".to_owned(),
            startup_delay: 0,
            ble_password: "".to_owned(),
            external_antenna: false,
            media_dump_base_port: None,
            media_wait_for_live_idr: true,
            collect_speed: false,
            disable_driving_status: false,
            hu_button_handler: None,
            runtime_mitm_failed: false,
        }
    }
}

/// What a search comes to with what is printed: a generation is found by its own mark, and
/// otherwise the next older one is looked for, until none is left.
pub proof fn law_each_generation_has_its_mark(s: WifiSearch, text: Seq<char>)
    requires
        s.valid(),
    ensures
        ({
            let (next, step) = wifi_after(s, Some(text));
            let found = match s.version {
                6 => some_line_has(text, "HE PHY Capabilities"@),
                5 => some_line_has(text, "VHT Capabilities"@),
                4 => some_line_has(text, " HT Capabilities"@),
                3 => some_line_has(text, "54.0 Mbps"@),
                2 => some_line_has(text, "5180.0 MHz"@),
                _ => some_line_has(text, "11.0 Mbps"@),
            };
            if found {
                step == WifiStep::Found(s.version)
            } else if s.version > 1 {
                step == WifiStep::AskAgain && next.version + 1 == s.version
            } else {
                step == WifiStep::TooOld
            }
        }),
{
}

/// Hardware that cannot be asked is of no known generation, and the search can be taken up again.
pub proof fn law_hardware_that_cannot_be_asked(s: WifiSearch)
    ensures
        wifi_after(s, printed(None)) == (s, WifiStep::NotAsked),
{
}

/// What is printed is taken as text, whatever bytes it is made of.
pub proof fn law_what_is_printed_is_text(out: Vec<u8>)
    ensures
        printed(Some(out)) == Some(lossy_utf8(out@)),
{
}

/// A text of the file stands for none exactly if it is nothing but white space, and is otherwise
/// taken as it is, with the white space at its ends.
pub proof fn law_blank_text_stands_for_none(s: String, r: Option<String>)
    requires
        call_ensures(empty_string_as_none, (s,), r),
    ensures
        r is None <==> blank(s@),
        r matches Some(t) ==> t@ == s@,
{
    law_nothing_is_left_of_white_space(s@);
}

/// The configuration that holds where the file says nothing is the default one of its surroundings.
pub proof fn law_defaults_belong_to_their_surroundings(around: Surroundings, c: AppConfig)
    requires
        call_ensures(AppConfig::defaults, (around,), c),
    ensures
        AppConfig::is_default(c, around),
{
}

/// A search begins with the newest generation.
pub proof fn law_search_begins_with_the_newest(s: WifiSearch)
    requires
        call_ensures(WifiSearch::new, (), s),
    ensures
        s.valid(),
        forall|t: WifiSearch| #[trigger] t.valid() ==> t.version <= s.version,
        s.version == 6,
{
}

/// Hardware has the 5 GHz band exactly if its first channel there is printed, wherever in the output
/// that is.
pub proof fn law_five_ghz_by_its_first_channel(
    stdout: Vec<u8>,
    b: bool,
    front: Seq<char>,
    back: Seq<char>,
)
    requires
        call_ensures(supports_5ghz_wifi, (&stdout,), b),
        valid_utf8(stdout@),
    ensures
        b <==> occurs_in("5180.0 MHz"@, decode_utf8(stdout@)),
        decode_utf8(stdout@) == front + "5180.0 MHz"@ + back ==> b,
{
    reveal_strlit("5180.0 MHz");
    let p = "5180.0 MHz"@;
    assert(!p.contains('\n') && !p.contains('\r'));
    law_line_search_is_substring_search(decode_utf8(stdout@), p);
    law_a_part_is_found(front, p, back);
}

/// A text without line ends is found in what is printed exactly if it stands there, wherever that
/// is.
pub proof fn law_printed_text_is_found(stdout: Vec<u8>, pattern: &str, b: bool)
    requires
        call_ensures(filter_iw_list, (&stdout, pattern), b),
        pattern@.len() > 0,
        !pattern@.contains('\n'),
        !pattern@.contains('\r'),
    ensures
        b <==> occurs_in(pattern@, lossy_utf8(stdout@)),
        valid_utf8(stdout@) ==> (b <==> occurs_in(pattern@, decode_utf8(stdout@))),
{
    law_line_search_is_substring_search(lossy_utf8(stdout@), pattern@);
    law_line_search_is_substring_search(decode_utf8(stdout@), pattern@);
}

} // verus!
