//! Writing the configuration into its file.
//!
//! The file is in TOML. Saving sets what the configuration holds and leaves everything else in
//! the file as it is.

use vstd::prelude::*;
use crate::config::{AppConfig, Surroundings};
use crate::outside::{
    document_from_text,
    document_text,
    new_document,
    prints_back,
    set_flag,
    set_number,
    set_text,
    toml_contents,
    toml_settings,
};

verus! {

/// A value in a configuration file.
pub enum Setting {
    Flag(bool),
    Number(i64),
    Text(Seq<char>),
    /// A value of another type, in a notation of its contents alone.
    Other(Seq<char>),
}

/// What a configuration file holds: values under names.
pub type Settings = Map<Seq<char>, Setting>;

/// A value to write.
#[derive(Debug, Clone)]
pub enum SettingValue {
    Flag(bool),
    Number(i64),
    Text(String),
}

impl SettingValue {
    /// The value as the file holds it.
    pub open spec fn setting(&self) -> Setting {
        match self {
            SettingValue::Flag(b) => Setting::Flag(*b),
            SettingValue::Number(n) => Setting::Number(*n),
            SettingValue::Text(s) => Setting::Text(s@),
        }
    }
}

/// The number of settings.
pub const SETTINGS: usize = 58;

pub open spec fn flag(b: bool) -> Option<Setting> {
    Some(Setting::Flag(b))
}

pub open spec fn number(n: int) -> Option<Setting> {
    Some(Setting::Number(n as i64))
}

pub open spec fn text(s: String) -> Option<Setting> {
    Some(Setting::Text(s@))
}

/// A number, or nothing to write.
pub open spec fn optional_number(n: Option<u16>) -> Option<Setting> {
    match n {
        Some(n) => number(n as int),
        None => None,
    }
}

/// A text, or nothing to write.
pub open spec fn optional_text(s: Option<String>) -> Option<Setting> {
    match s {
        Some(s) => text(s),
        None => None,
    }
}

/// A text, or the empty one.
pub open spec fn text_or_empty(s: Option<String>) -> Option<Setting> {
    match s {
        Some(s) => text(s),
        None => Some(Setting::Text(""@)),
    }
}

/// The settings in the order in which they are written: the name of each, and what is written
/// under it, if anything is.
pub open spec fn entry(c: AppConfig, i: usize) -> (Seq<char>, Option<Setting>) {
    match i {
        0 => ("advertise"@, flag(c.advertise)),
        1 => ("enable_btle"@, flag(c.enable_btle)),
        2 => ("dongle_mode"@, flag(c.dongle_mode)),
        3 => ("debug"@, flag(c.debug)),
        4 => ("hexdump_level"@, text(c.hexdump_level)),
        5 => ("disable_console_debug"@, flag(c.disable_console_debug)),
        6 => ("legacy"@, flag(c.legacy)),
        7 => ("quick_reconnect"@, flag(c.quick_reconnect)),
        8 => ("bt_poweroff"@, flag(c.bt_poweroff)),
        9 => ("connect"@, text(c.connect)),
        10 => ("logfile"@, text(c.logfile)),
        11 => ("stats_interval"@, number(c.stats_interval as int)),
        12 => ("udc"@, optional_text(c.udc)),
        13 => ("iface"@, text(c.iface)),
        14 => ("btalias"@, optional_text(c.btalias)),
        15 => ("usb_product"@, text_or_empty(c.usb_product)),
        16 => ("usb_manufacturer"@, text_or_empty(c.usb_manufacturer)),
        17 => ("usb_serial"@, text_or_empty(c.usb_serial)),
        18 => ("timeout_secs"@, number(c.timeout_secs as int)),
        19 => ("webserver"@, optional_text(c.webserver)),
        20 => ("bt_timeout_secs"@, number(c.bt_timeout_secs as int)),
        21 => ("mitm"@, flag(c.mitm)),
        22 => ("dpi"@, number(c.dpi as int)),
        23 => ("audio_max_unacked"@, number(c.audio_max_unacked as int)),
        24 => ("remove_tap_restriction"@, flag(c.remove_tap_restriction)),
        25 => ("video_in_motion"@, flag(c.video_in_motion)),
        26 => ("disable_media_sink"@, flag(c.disable_media_sink)),
        27 => ("disable_tts_sink"@, flag(c.disable_tts_sink)),
        28 => ("developer_mode"@, flag(c.developer_mode)),
        29 => ("wired"@, text_or_empty(c.wired)),
        30 => ("dhu"@, flag(c.dhu)),
        31 => ("ev"@, flag(c.ev)),
        32 => ("odometer"@, flag(c.odometer)),
        33 => ("tire_pressure"@, flag(c.tire_pressure)),
        34 => ("remove_bluetooth"@, flag(c.remove_bluetooth)),
        35 => ("remove_wifi"@, flag(c.remove_wifi)),
        36 => ("change_usb_order"@, flag(c.change_usb_order)),
        37 => ("stop_on_disconnect"@, flag(c.stop_on_disconnect)),
        38 => ("waze_lht_workaround"@, flag(c.waze_lht_workaround)),
        39 => ("ev_battery_logger"@, optional_text(c.ev_battery_logger)),
        40 => ("ev_connector_types"@, text(c.ev_connector_types)),
        41 => ("enable_ssh"@, flag(c.enable_ssh)),
        42 => ("usb_serial_console"@, flag(c.usb_serial_console)),
        43 => ("wifi_version"@, number(c.wifi_version as int)),
        44 => ("band"@, text(c.band)),
        45 => ("country_code"@, text(c.country_code)),
        46 => ("channel"@, number(c.channel as int)),
        47 => ("ssid"@, text(c.ssid)),
        48 => ("wpa_passphrase"@, text(c.wpa_passphrase)),
        49 => ("eth_mode"@, text(c.eth_mode)),
        50 => ("startup_delay"@, number(c.startup_delay as int)),
        51 => ("ble_password"@, text(c.ble_password)),
        52 => ("external_antenna"@, flag(c.external_antenna)),
        53 => ("media_dump_base_port"@, optional_number(c.media_dump_base_port)),
        54 => ("media_wait_for_live_idr"@, flag(c.media_wait_for_live_idr)),
        55 => ("collect_speed"@, flag(c.collect_speed)),
        56 => ("disable_driving_status"@, flag(c.disable_driving_status)),
        _ => ("hu_button_handler"@, optional_text(c.hu_button_handler)),
    }
}

fn number_if_any(n: Option<u16>) -> (v: Option<SettingValue>)
    ensures
        v matches Some(v) ==> optional_number(n) == Some(v.setting()),
        v is None ==> optional_number(n) is None,
{
    match n {
        Some(n) => Some(SettingValue::Number(n as i64)),
        None => None,
    }
}

fn text_if_any(s: &Option<String>) -> (v: Option<SettingValue>)
    ensures
        v matches Some(v) ==> optional_text(*s) == Some(v.setting()),
        v is None ==> optional_text(*s) is None,
{
    match s {
        Some(s) => Some(SettingValue::Text(s.clone())),
        None => None,
    }
}

fn text_or_nothing(s: &Option<String>) -> (t: String)
    ensures
        text_or_empty(*s) == Some(Setting::Text(t@)),
{
    match s {
        Some(s) => s.clone(),
        None => "".to_owned(),
    }
}

/// What a file holds once the first `n` settings are written into it.
pub open spec fn written(c: AppConfig, before: Settings, n: nat) -> Settings
    decreases n,
{
    if n == 0 {
        before
    } else {
        let so_far = written(c, before, (n - 1) as nat);
        let (key, value) = entry(c, (n - 1) as usize);
        match value {
            Some(v) => so_far.insert(key, v),
            None => so_far,
        }
    }
}

/// What a file holds after a configuration is saved into it.
pub open spec fn saved(c: AppConfig, before: Settings) -> Settings {
    written(c, before, SETTINGS as nat)
}

/// What a file holds, where a file that is not valid TOML holds nothing.
pub open spec fn held(raw: Seq<char>) -> Settings {
    match toml_settings(raw) {
        Some(m) => m,
        None => Map::empty(),
    }
}

impl AppConfig {
    /// The name of a setting, and what is to be written under it, if anything is.
    pub fn setting(&self, i: usize) -> (r: (&'static str, Option<SettingValue>))
        requires
            i < SETTINGS,
        ensures
            r.0@ == entry(*self, i).0,
            r.1 matches Some(v) ==> entry(*self, i).1 == Some(v.setting()),
            r.1 is None ==> entry(*self, i).1 is None,
    {
        match i {
            0 => ("advertise", Some(SettingValue::Flag(self.advertise))),
            1 => ("enable_btle", Some(SettingValue::Flag(self.enable_btle))),
            2 => ("dongle_mode", Some(SettingValue::Flag(self.dongle_mode))),
            3 => ("debug", Some(SettingValue::Flag(self.debug))),
            4 => ("hexdump_level", Some(SettingValue::Text(self.hexdump_level.clone()))),
            5 => ("disable_console_debug", Some(SettingValue::Flag(self.disable_console_debug))),
            6 => ("legacy", Some(SettingValue::Flag(self.legacy))),
            7 => ("quick_reconnect", Some(SettingValue::Flag(self.quick_reconnect))),
            8 => ("bt_poweroff", Some(SettingValue::Flag(self.bt_poweroff))),
            9 => ("connect", Some(SettingValue::Text(self.connect.clone()))),
            10 => ("logfile", Some(SettingValue::Text(self.logfile.clone()))),
            11 => ("stats_interval", Some(SettingValue::Number(self.stats_interval as i64))),
            12 => ("udc", text_if_any(&self.udc)),
            13 => ("iface", Some(SettingValue::Text(self.iface.clone()))),
            14 => ("btalias", text_if_any(&self.btalias)),
            15 => ("usb_product", Some(SettingValue::Text(text_or_nothing(&self.usb_product)))),
            16 => (
                "usb_manufacturer",
                Some(SettingValue::Text(text_or_nothing(&self.usb_manufacturer))),
            ),
            17 => ("usb_serial", Some(SettingValue::Text(text_or_nothing(&self.usb_serial)))),
            18 => ("timeout_secs", Some(SettingValue::Number(self.timeout_secs as i64))),
            19 => ("webserver", text_if_any(&self.webserver)),
            20 => ("bt_timeout_secs", Some(SettingValue::Number(self.bt_timeout_secs as i64))),
            21 => ("mitm", Some(SettingValue::Flag(self.mitm))),
            22 => ("dpi", Some(SettingValue::Number(self.dpi as i64))),
            23 => ("audio_max_unacked", Some(SettingValue::Number(self.audio_max_unacked as i64))),
            24 => ("remove_tap_restriction", Some(SettingValue::Flag(self.remove_tap_restriction))),
            25 => ("video_in_motion", Some(SettingValue::Flag(self.video_in_motion))),
            26 => ("disable_media_sink", Some(SettingValue::Flag(self.disable_media_sink))),
            27 => ("disable_tts_sink", Some(SettingValue::Flag(self.disable_tts_sink))),
            28 => ("developer_mode", Some(SettingValue::Flag(self.developer_mode))),
            29 => ("wired", Some(SettingValue::Text(text_or_nothing(&self.wired)))),
            30 => ("dhu", Some(SettingValue::Flag(self.dhu))),
            31 => ("ev", Some(SettingValue::Flag(self.ev))),
            32 => ("odometer", Some(SettingValue::Flag(self.odometer))),
            33 => ("tire_pressure", Some(SettingValue::Flag(self.tire_pressure))),
            34 => ("remove_bluetooth", Some(SettingValue::Flag(self.remove_bluetooth))),
            35 => ("remove_wifi", Some(SettingValue::Flag(self.remove_wifi))),
            36 => ("change_usb_order", Some(SettingValue::Flag(self.change_usb_order))),
            37 => ("stop_on_disconnect", Some(SettingValue::Flag(self.stop_on_disconnect))),
            38 => ("waze_lht_workaround", Some(SettingValue::Flag(self.waze_lht_workaround))),
            39 => ("ev_battery_logger", text_if_any(&self.ev_battery_logger)),
            40 => ("ev_connector_types", Some(SettingValue::Text(self.ev_connector_types.clone()))),
            41 => ("enable_ssh", Some(SettingValue::Flag(self.enable_ssh))),
            42 => ("usb_serial_console", Some(SettingValue::Flag(self.usb_serial_console))),
            43 => ("wifi_version", Some(SettingValue::Number(self.wifi_version as i64))),
            44 => ("band", Some(SettingValue::Text(self.band.clone()))),
            45 => ("country_code", Some(SettingValue::Text(self.country_code.clone()))),
            46 => ("channel", Some(SettingValue::Number(self.channel as i64))),
            47 => ("ssid", Some(SettingValue::Text(self.ssid.clone()))),
            48 => ("wpa_passphrase", Some(SettingValue::Text(self.wpa_passphrase.clone()))),
            49 => ("eth_mode", Some(SettingValue::Text(self.eth_mode.clone()))),
            50 => ("startup_delay", Some(SettingValue::Number(self.startup_delay as i64))),
            51 => ("ble_password", Some(SettingValue::Text(self.ble_password.clone()))),
            52 => ("external_antenna", Some(SettingValue::Flag(self.external_antenna))),
            53 => ("media_dump_base_port", number_if_any(self.media_dump_base_port)),
            54 => ("media_wait_for_live_idr", Some(SettingValue::Flag(self.media_wait_for_live_idr))),
            55 => ("collect_speed", Some(SettingValue::Flag(self.collect_speed))),
            56 => ("disable_driving_status", Some(SettingValue::Flag(self.disable_driving_status))),
            _ => ("hu_button_handler", text_if_any(&self.hu_button_handler)),
        }
    }

    /// The new contents of the configuration file, whose contents were `raw`.
    ///
    /// The contract says what the file holds. Comments, the order of what was there before and
    /// the spelling of values are up to `toml_edit`, and the contract is silent on them.
    pub fn save(&self, raw: &str) -> (contents: String)
        ensures
            toml_settings(contents@) == Some(saved(*self, held(raw@))),
    {
        let mut doc: toml_edit::DocumentMut = match document_from_text(raw) {
            Some(doc) => doc,
            None => new_document(),
        };
        let mut i: usize = 0;
        while i < SETTINGS
            invariant
                i <= SETTINGS,
                prints_back(doc),
                toml_contents(doc) == written(*self, held(raw@), i as nat),
            decreases SETTINGS - i,
        {
            let (key, value): (&'static str, Option<SettingValue>) = self.setting(i);
            match value {
                Some(SettingValue::Flag(b)) => set_flag(&mut doc, key, b),
                Some(SettingValue::Number(n)) => set_number(&mut doc, key, n),
                Some(SettingValue::Text(s)) => set_text(&mut doc, key, s.as_str()),
                None => {},
            }
            i += 1;
        }
        document_text(&doc)
    }
}

/// What tells the names of settings apart: the length, the first and the last character.
pub open spec fn mark(s: Seq<char>) -> (nat, char, char) {
    (s.len(), s[0], s[s.len() - 1])
}

spec fn place_of(mark: (nat, char, char)) -> int {
    if mark == (9nat, 'a', 'e') {
        0
    } else if mark == (11nat, 'e', 'e') {
        1
    } else if mark == (11nat, 'd', 'e') {
        2
    } else if mark == (5nat, 'd', 'g') {
        3
    } else if mark == (13nat, 'h', 'l') {
        4
    } else if mark == (21nat, 'd', 'g') {
        5
    } else if mark == (6nat, 'l', 'y') {
        6
    } else if mark == (15nat, 'q', 't') {
        7
    } else if mark == (11nat, 'b', 'f') {
        8
    } else if mark == (7nat, 'c', 't') {
        9
    } else if mark == (7nat, 'l', 'e') {
        10
    } else if mark == (14nat, 's', 'l') {
        11
    } else if mark == (3nat, 'u', 'c') {
        12
    } else if mark == (5nat, 'i', 'e') {
        13
    } else if mark == (7nat, 'b', 's') {
        14
    } else if mark == (11nat, 'u', 't') {
        15
    } else if mark == (16nat, 'u', 'r') {
        16
    } else if mark == (10nat, 'u', 'l') {
        17
    } else if mark == (12nat, 't', 's') {
        18
    } else if mark == (9nat, 'w', 'r') {
        19
    } else if mark == (15nat, 'b', 's') {
        20
    } else if mark == (4nat, 'm', 'm') {
        21
    } else if mark == (3nat, 'd', 'i') {
        22
    } else if mark == (17nat, 'a', 'd') {
        23
    } else if mark == (22nat, 'r', 'n') {
        24
    } else if mark == (15nat, 'v', 'n') {
        25
    } else if mark == (18nat, 'd', 'k') {
        26
    } else if mark == (16nat, 'd', 'k') {
        27
    } else if mark == (14nat, 'd', 'e') {
        28
    } else if mark == (5nat, 'w', 'd') {
        29
    } else if mark == (3nat, 'd', 'u') {
        30
    } else if mark == (2nat, 'e', 'v') {
        31
    } else if mark == (8nat, 'o', 'r') {
        32
    } else if mark == (13nat, 't', 'e') {
        33
    } else if mark == (16nat, 'r', 'h') {
        34
    } else if mark == (11nat, 'r', 'i') {
        35
    } else if mark == (16nat, 'c', 'r') {
        36
    } else if mark == (18nat, 's', 't') {
        37
    } else if mark == (19nat, 'w', 'd') {
        38
    } else if mark == (17nat, 'e', 'r') {
        39
    } else if mark == (18nat, 'e', 's') {
        40
    } else if mark == (10nat, 'e', 'h') {
        41
    } else if mark == (18nat, 'u', 'e') {
        42
    } else if mark == (12nat, 'w', 'n') {
        43
    } else if mark == (4nat, 'b', 'd') {
        44
    } else if mark == (12nat, 'c', 'e') {
        45
    } else if mark == (7nat, 'c', 'l') {
        46
    } else if mark == (4nat, 's', 'd') {
        47
    } else if mark == (14nat, 'w', 'e') {
        48
    } else if mark == (8nat, 'e', 'e') {
        49
    } else if mark == (13nat, 's', 'y') {
        50
    } else if mark == (12nat, 'b', 'd') {
        51
    } else if mark == (16nat, 'e', 'a') {
        52
    } else if mark == (20nat, 'm', 't') {
        53
    } else if mark == (23nat, 'm', 'r') {
        54
    } else if mark == (13nat, 'c', 'd') {
        55
    } else if mark == (22nat, 'd', 's') {
        56
    } else if mark == (17nat, 'h', 'r') {
        57
    } else {
        -1
    }
}

proof fn lemma_places_0_to_9(c: AppConfig, i: usize)
    requires
        0 <= i < 10,
    ensures
        place_of(mark(entry(c, i).0)) == i,
{
    reveal_strlit("advertise");
    reveal_strlit("enable_btle");
    reveal_strlit("dongle_mode");
    reveal_strlit("debug");
    reveal_strlit("hexdump_level");
    reveal_strlit("disable_console_debug");
    reveal_strlit("legacy");
    reveal_strlit("quick_reconnect");
    reveal_strlit("bt_poweroff");
    reveal_strlit("connect");
}

proof fn lemma_places_10_to_19(c: AppConfig, i: usize)
    requires
        10 <= i < 20,
    ensures
        place_of(mark(entry(c, i).0)) == i,
{
    reveal_strlit("logfile");
    reveal_strlit("stats_interval");
    reveal_strlit("udc");
    reveal_strlit("iface");
    reveal_strlit("btalias");
    reveal_strlit("usb_product");
    reveal_strlit("usb_manufacturer");
    reveal_strlit("usb_serial");
    reveal_strlit("timeout_secs");
    reveal_strlit("webserver");
}

proof fn lemma_places_20_to_29(c: AppConfig, i: usize)
    requires
        20 <= i < 30,
    ensures
        place_of(mark(entry(c, i).0)) == i,
{
    reveal_strlit("bt_timeout_secs");
    reveal_strlit("mitm");
    reveal_strlit("dpi");
    reveal_strlit("audio_max_unacked");
    reveal_strlit("remove_tap_restriction");
    reveal_strlit("video_in_motion");
    reveal_strlit("disable_media_sink");
    reveal_strlit("disable_tts_sink");
    reveal_strlit("developer_mode");
    reveal_strlit("wired");
}

proof fn lemma_places_30_to_39(c: AppConfig, i: usize)
    requires
        30 <= i < 40,
    ensures
        place_of(mark(entry(c, i).0)) == i,
{
    reveal_strlit("dhu");
    reveal_strlit("ev");
    reveal_strlit("odometer");
    reveal_strlit("tire_pressure");
    reveal_strlit("remove_bluetooth");
    reveal_strlit("remove_wifi");
    reveal_strlit("change_usb_order");
    reveal_strlit("stop_on_disconnect");
    reveal_strlit("waze_lht_workaround");
    reveal_strlit("ev_battery_logger");
}

proof fn lemma_places_40_to_49(c: AppConfig, i: usize)
    requires
        40 <= i < 50,
    ensures
        place_of(mark(entry(c, i).0)) == i,
{
    reveal_strlit("ev_connector_types");
    reveal_strlit("enable_ssh");
    reveal_strlit("usb_serial_console");
    reveal_strlit("wifi_version");
    reveal_strlit("band");
    reveal_strlit("country_code");
    reveal_strlit("channel");
    reveal_strlit("ssid");
    reveal_strlit("wpa_passphrase");
    reveal_strlit("eth_mode");
}

proof fn lemma_places_50_to_57(c: AppConfig, i: usize)
    requires
        50 <= i < 58,
    ensures
        place_of(mark(entry(c, i).0)) == i,
{
    reveal_strlit("startup_delay");
    reveal_strlit("ble_password");
    reveal_strlit("external_antenna");
    reveal_strlit("media_dump_base_port");
    reveal_strlit("media_wait_for_live_idr");
    reveal_strlit("collect_speed");
    reveal_strlit("disable_driving_status");
    reveal_strlit("hu_button_handler");
}

/// No two settings share a name.
pub proof fn law_names_of_settings_differ(c: AppConfig, i: usize, j: usize)
    requires
        i < SETTINGS,
        j < SETTINGS,
        i != j,
    ensures
        entry(c, i).0 != entry(c, j).0,
{
    lemma_place(c, i);
    lemma_place(c, j);
}

proof fn lemma_place(c: AppConfig, i: usize)
    requires
        i < SETTINGS,
    ensures
        place_of(mark(entry(c, i).0)) == i,
{
    if i < 10 {
        lemma_places_0_to_9(c, i);
    } else if i < 20 {
        lemma_places_10_to_19(c, i);
    } else if i < 30 {
        lemma_places_20_to_29(c, i);
    } else if i < 40 {
        lemma_places_30_to_39(c, i);
    } else if i < 50 {
        lemma_places_40_to_49(c, i);
    } else if i < 58 {
        lemma_places_50_to_57(c, i);
    }
}

proof fn lemma_written_reads_back(c: AppConfig, before: Settings, n: nat, i: usize)
    requires
        i < n <= SETTINGS,
    ensures
        entry(c, i).1 matches Some(v) ==> written(c, before, n).contains_pair(entry(c, i).0, v),
    decreases n,
{
    let last = (n - 1) as usize;
    if i < last {
        lemma_written_reads_back(c, before, (n - 1) as nat, i);
        law_names_of_settings_differ(c, i, last);
    }
}

proof fn lemma_written_keeps(c: AppConfig, before: Settings, n: nat, key: Seq<char>)
    requires
        n <= SETTINGS,
        forall|i: usize| i < n && entry(c, i).1 is Some ==> #[trigger] entry(c, i).0 != key,
    ensures
        written(c, before, n).contains_key(key) <==> before.contains_key(key),
        before.contains_key(key) ==> written(c, before, n)[key] == before[key],
    decreases n,
{
    if n > 0 {
        lemma_written_keeps(c, before, (n - 1) as nat, key);
    }
}

/// After a configuration is saved, the file holds each of its settings under its name. A setting
/// that is absent is not written.
pub proof fn law_saved_settings_read_back(c: AppConfig, before: Settings, i: usize)
    requires
        i < SETTINGS,
    ensures
        entry(c, i).1 matches Some(v) ==> saved(c, before).contains_pair(entry(c, i).0, v),
        entry(c, i).1 is None && before.contains_key(entry(c, i).0) ==> saved(
            c,
            before,
        ).contains_pair(entry(c, i).0, before[entry(c, i).0]),
        entry(c, i).1 is None && !before.contains_key(entry(c, i).0) ==> !saved(
            c,
            before,
        ).contains_key(entry(c, i).0),
{
    lemma_written_reads_back(c, before, SETTINGS as nat, i);
    if entry(c, i).1 is None {
        let key = entry(c, i).0;
        assert forall|j: usize| j < SETTINGS && entry(c, j).1 is Some implies #[trigger] entry(c, j).0
            != key by {
            law_names_of_settings_differ(c, i, j);
        }
        lemma_written_keeps(c, before, SETTINGS as nat, key);
    }
}

/// Saving leaves what is under other names as it was.
pub proof fn law_other_settings_are_kept(c: AppConfig, before: Settings, key: Seq<char>)
    requires
        forall|i: usize| i < SETTINGS ==> #[trigger] entry(c, i).0 != key,
    ensures
        saved(c, before).contains_key(key) <==> before.contains_key(key),
        before.contains_key(key) ==> saved(c, before)[key] == before[key],
{
    lemma_written_keeps(c, before, SETTINGS as nat, key);
}

/// Saving a configuration a second time changes nothing.
pub proof fn law_saving_twice_is_saving_once(c: AppConfig, before: Settings)
    ensures
        saved(c, saved(c, before)) == saved(c, before),
{
    let once = saved(c, before);
    let twice = saved(c, once);
    assert forall|key: Seq<char>| twice.contains_key(key) <==> once.contains_key(key) by {
        lemma_second_save(c, before, key);
    }
    assert forall|key: Seq<char>| #[trigger] once.contains_key(key) implies twice[key] == once[key] by {
        lemma_second_save(c, before, key);
    }
}

proof fn lemma_second_save(c: AppConfig, before: Settings, key: Seq<char>)
    ensures
        saved(c, saved(c, before)).contains_key(key) <==> saved(c, before).contains_key(key),
        saved(c, before).contains_key(key) ==> saved(c, saved(c, before))[key] == saved(c, before)[key],
{
    if exists|i: usize| i < SETTINGS && entry(c, i).1 is Some && #[trigger] entry(c, i).0 == key {
        let i = choose|i: usize|
            i < SETTINGS && entry(c, i).1 is Some && #[trigger] entry(c, i).0 == key;
        lemma_written_reads_back(c, before, SETTINGS as nat, i);
        lemma_written_reads_back(c, saved(c, before), SETTINGS as nat, i);
    } else {
        lemma_written_keeps(c, saved(c, before), SETTINGS as nat, key);
    }
}

/// Each switch of the configuration stands in the saved file under its own name.
pub proof fn law_switches_are_saved(c: AppConfig, before: Settings)
    ensures
        saved(c, before).contains_pair("advertise"@, Setting::Flag(c.advertise)),
        saved(c, before).contains_pair("enable_btle"@, Setting::Flag(c.enable_btle)),
        saved(c, before).contains_pair("dongle_mode"@, Setting::Flag(c.dongle_mode)),
        saved(c, before).contains_pair("debug"@, Setting::Flag(c.debug)),
        saved(c, before).contains_pair("disable_console_debug"@, Setting::Flag(c.disable_console_debug)),
        saved(c, before).contains_pair("legacy"@, Setting::Flag(c.legacy)),
        saved(c, before).contains_pair("quick_reconnect"@, Setting::Flag(c.quick_reconnect)),
        saved(c, before).contains_pair("bt_poweroff"@, Setting::Flag(c.bt_poweroff)),
        saved(c, before).contains_pair("mitm"@, Setting::Flag(c.mitm)),
        saved(c, before).contains_pair("remove_tap_restriction"@, Setting::Flag(c.remove_tap_restriction)),
        saved(c, before).contains_pair("video_in_motion"@, Setting::Flag(c.video_in_motion)),
        saved(c, before).contains_pair("disable_media_sink"@, Setting::Flag(c.disable_media_sink)),
        saved(c, before).contains_pair("disable_tts_sink"@, Setting::Flag(c.disable_tts_sink)),
        saved(c, before).contains_pair("developer_mode"@, Setting::Flag(c.developer_mode)),
        saved(c, before).contains_pair("dhu"@, Setting::Flag(c.dhu)),
        saved(c, before).contains_pair("ev"@, Setting::Flag(c.ev)),
        saved(c, before).contains_pair("odometer"@, Setting::Flag(c.odometer)),
        saved(c, before).contains_pair("tire_pressure"@, Setting::Flag(c.tire_pressure)),
        saved(c, before).contains_pair("remove_bluetooth"@, Setting::Flag(c.remove_bluetooth)),
        saved(c, before).contains_pair("remove_wifi"@, Setting::Flag(c.remove_wifi)),
        saved(c, before).contains_pair("change_usb_order"@, Setting::Flag(c.change_usb_order)),
        saved(c, before).contains_pair("stop_on_disconnect"@, Setting::Flag(c.stop_on_disconnect)),
        saved(c, before).contains_pair("waze_lht_workaround"@, Setting::Flag(c.waze_lht_workaround)),
        saved(c, before).contains_pair("enable_ssh"@, Setting::Flag(c.enable_ssh)),
        saved(c, before).contains_pair("usb_serial_console"@, Setting::Flag(c.usb_serial_console)),
        saved(c, before).contains_pair("external_antenna"@, Setting::Flag(c.external_antenna)),
        saved(c, before).contains_pair("media_wait_for_live_idr"@, Setting::Flag(c.media_wait_for_live_idr)),
        saved(c, before).contains_pair("collect_speed"@, Setting::Flag(c.collect_speed)),
        saved(c, before).contains_pair("disable_driving_status"@, Setting::Flag(c.disable_driving_status)),
{
    law_saved_settings_read_back(c, before, 0);
    law_saved_settings_read_back(c, before, 1);
    law_saved_settings_read_back(c, before, 2);
    law_saved_settings_read_back(c, before, 3);
    law_saved_settings_read_back(c, before, 5);
    law_saved_settings_read_back(c, before, 6);
    law_saved_settings_read_back(c, before, 7);
    law_saved_settings_read_back(c, before, 8);
    law_saved_settings_read_back(c, before, 21);
    law_saved_settings_read_back(c, before, 24);
    law_saved_settings_read_back(c, before, 25);
    law_saved_settings_read_back(c, before, 26);
    law_saved_settings_read_back(c, before, 27);
    law_saved_settings_read_back(c, before, 28);
    law_saved_settings_read_back(c, before, 30);
    law_saved_settings_read_back(c, before, 31);
    law_saved_settings_read_back(c, before, 32);
    law_saved_settings_read_back(c, before, 33);
    law_saved_settings_read_back(c, before, 34);
    law_saved_settings_read_back(c, before, 35);
    law_saved_settings_read_back(c, before, 36);
    law_saved_settings_read_back(c, before, 37);
    law_saved_settings_read_back(c, before, 38);
    law_saved_settings_read_back(c, before, 41);
    law_saved_settings_read_back(c, before, 42);
    law_saved_settings_read_back(c, before, 52);
    law_saved_settings_read_back(c, before, 54);
    law_saved_settings_read_back(c, before, 55);
    law_saved_settings_read_back(c, before, 56);
}

/// Each number of the configuration stands in the saved file under its own name.
pub proof fn law_numbers_are_saved(c: AppConfig, before: Settings)
    ensures
        saved(c, before).contains_pair("stats_interval"@, Setting::Number(c.stats_interval as i64)),
        saved(c, before).contains_pair("timeout_secs"@, Setting::Number(c.timeout_secs as i64)),
        saved(c, before).contains_pair("bt_timeout_secs"@, Setting::Number(c.bt_timeout_secs as i64)),
        saved(c, before).contains_pair("dpi"@, Setting::Number(c.dpi as i64)),
        saved(c, before).contains_pair("audio_max_unacked"@, Setting::Number(c.audio_max_unacked as i64)),
        saved(c, before).contains_pair("wifi_version"@, Setting::Number(c.wifi_version as i64)),
        saved(c, before).contains_pair("channel"@, Setting::Number(c.channel as i64)),
        saved(c, before).contains_pair("startup_delay"@, Setting::Number(c.startup_delay as i64)),
{
    law_saved_settings_read_back(c, before, 11);
    law_saved_settings_read_back(c, before, 18);
    law_saved_settings_read_back(c, before, 20);
    law_saved_settings_read_back(c, before, 22);
    law_saved_settings_read_back(c, before, 23);
    law_saved_settings_read_back(c, before, 43);
    law_saved_settings_read_back(c, before, 46);
    law_saved_settings_read_back(c, before, 50);
}

/// Each text that the configuration always has stands in the saved file under its own name.
pub proof fn law_texts_are_saved(c: AppConfig, before: Settings)
    ensures
        saved(c, before).contains_pair("hexdump_level"@, Setting::Text(c.hexdump_level@)),
        saved(c, before).contains_pair("connect"@, Setting::Text(c.connect@)),
        saved(c, before).contains_pair("logfile"@, Setting::Text(c.logfile@)),
        saved(c, before).contains_pair("iface"@, Setting::Text(c.iface@)),
        saved(c, before).contains_pair("ev_connector_types"@, Setting::Text(c.ev_connector_types@)),
        saved(c, before).contains_pair("band"@, Setting::Text(c.band@)),
        saved(c, before).contains_pair("country_code"@, Setting::Text(c.country_code@)),
        saved(c, before).contains_pair("ssid"@, Setting::Text(c.ssid@)),
        saved(c, before).contains_pair("wpa_passphrase"@, Setting::Text(c.wpa_passphrase@)),
        saved(c, before).contains_pair("eth_mode"@, Setting::Text(c.eth_mode@)),
        saved(c, before).contains_pair("ble_password"@, Setting::Text(c.ble_password@)),
{
    law_saved_settings_read_back(c, before, 4);
    law_saved_settings_read_back(c, before, 9);
    law_saved_settings_read_back(c, before, 10);
    law_saved_settings_read_back(c, before, 13);
    law_saved_settings_read_back(c, before, 40);
    law_saved_settings_read_back(c, before, 44);
    law_saved_settings_read_back(c, before, 45);
    law_saved_settings_read_back(c, before, 47);
    law_saved_settings_read_back(c, before, 48);
    law_saved_settings_read_back(c, before, 49);
    law_saved_settings_read_back(c, before, 51);
}

/// Four texts can be cleared in the file: each of them stands in it under its own name, as the empty
/// text if the configuration has none.
pub proof fn law_cleared_texts_are_saved(c: AppConfig, before: Settings)
    ensures
        c.usb_product matches Some(s) ==> saved(c, before).contains_pair("usb_product"@, Setting::Text(s@)),
        c.usb_product is None ==> saved(c, before).contains_pair("usb_product"@, Setting::Text(""@)),
        c.usb_manufacturer matches Some(s) ==> saved(c, before).contains_pair("usb_manufacturer"@, Setting::Text(s@)),
        c.usb_manufacturer is None ==> saved(c, before).contains_pair("usb_manufacturer"@, Setting::Text(""@)),
        c.usb_serial matches Some(s) ==> saved(c, before).contains_pair("usb_serial"@, Setting::Text(s@)),
        c.usb_serial is None ==> saved(c, before).contains_pair("usb_serial"@, Setting::Text(""@)),
        c.wired matches Some(s) ==> saved(c, before).contains_pair("wired"@, Setting::Text(s@)),
        c.wired is None ==> saved(c, before).contains_pair("wired"@, Setting::Text(""@)),
{
    law_saved_settings_read_back(c, before, 15);
    law_saved_settings_read_back(c, before, 16);
    law_saved_settings_read_back(c, before, 17);
    law_saved_settings_read_back(c, before, 29);
}

/// A setting that the configuration may lack stands in the saved file under its own name if the
/// configuration has it.
pub proof fn law_optional_settings_are_saved(c: AppConfig, before: Settings)
    ensures
        c.udc matches Some(x) ==> saved(c, before).contains_pair("udc"@, Setting::Text(x@)),
        c.btalias matches Some(x) ==> saved(c, before).contains_pair("btalias"@, Setting::Text(x@)),
        c.webserver matches Some(x) ==> saved(c, before).contains_pair("webserver"@, Setting::Text(x@)),
        c.ev_battery_logger matches Some(x) ==> saved(c, before).contains_pair("ev_battery_logger"@, Setting::Text(x@)),
        c.media_dump_base_port matches Some(x) ==> saved(c, before).contains_pair("media_dump_base_port"@, Setting::Number(x as i64)),
        c.hu_button_handler matches Some(x) ==> saved(c, before).contains_pair("hu_button_handler"@, Setting::Text(x@)),
{
    law_saved_settings_read_back(c, before, 12);
    law_saved_settings_read_back(c, before, 14);
    law_saved_settings_read_back(c, before, 19);
    law_saved_settings_read_back(c, before, 39);
    law_saved_settings_read_back(c, before, 53);
    law_saved_settings_read_back(c, before, 57);
}

/// Whether two files hold the same under a name.
pub open spec fn same_under(key: Seq<char>, a: Settings, b: Settings) -> bool {
    &&& a.contains_key(key) <==> b.contains_key(key)
    &&& a.contains_key(key) ==> a[key] == b[key]
}

/// What the file holds under the name of a setting that the configuration lacks stays as it was.
pub proof fn law_absent_settings_are_left_alone(c: AppConfig, before: Settings)
    ensures
        c.udc is None ==> same_under("udc"@, saved(c, before), before),
        c.btalias is None ==> same_under("btalias"@, saved(c, before), before),
        c.webserver is None ==> same_under("webserver"@, saved(c, before), before),
        c.ev_battery_logger is None ==> same_under("ev_battery_logger"@, saved(c, before), before),
        c.media_dump_base_port is None ==> same_under("media_dump_base_port"@, saved(c, before), before),
        c.hu_button_handler is None ==> same_under("hu_button_handler"@, saved(c, before), before),
{
    law_saved_settings_read_back(c, before, 12);
    law_saved_settings_read_back(c, before, 14);
    law_saved_settings_read_back(c, before, 19);
    law_saved_settings_read_back(c, before, 39);
    law_saved_settings_read_back(c, before, 53);
    law_saved_settings_read_back(c, before, 57);
}

/// Saved files tell configurations apart: two that leave the same file agree on every setting that
/// is always written.
pub proof fn law_saved_files_tell_configurations_apart(c: AppConfig, d: AppConfig, before: Settings)
    requires
        saved(c, before) == saved(d, before),
    ensures
        c.advertise == d.advertise,
        c.enable_btle == d.enable_btle,
        c.dongle_mode == d.dongle_mode,
        c.debug == d.debug,
        c.hexdump_level@ == d.hexdump_level@,
        c.disable_console_debug == d.disable_console_debug,
        c.legacy == d.legacy,
        c.quick_reconnect == d.quick_reconnect,
        c.bt_poweroff == d.bt_poweroff,
        c.connect@ == d.connect@,
        c.logfile@ == d.logfile@,
        c.stats_interval == d.stats_interval,
        c.iface@ == d.iface@,
        c.timeout_secs == d.timeout_secs,
        c.bt_timeout_secs == d.bt_timeout_secs,
        c.mitm == d.mitm,
        c.dpi == d.dpi,
        c.audio_max_unacked == d.audio_max_unacked,
        c.remove_tap_restriction == d.remove_tap_restriction,
        c.video_in_motion == d.video_in_motion,
        c.disable_media_sink == d.disable_media_sink,
        c.disable_tts_sink == d.disable_tts_sink,
        c.developer_mode == d.developer_mode,
        c.dhu == d.dhu,
        c.ev == d.ev,
        c.odometer == d.odometer,
        c.tire_pressure == d.tire_pressure,
        c.remove_bluetooth == d.remove_bluetooth,
        c.remove_wifi == d.remove_wifi,
        c.change_usb_order == d.change_usb_order,
        c.stop_on_disconnect == d.stop_on_disconnect,
        c.waze_lht_workaround == d.waze_lht_workaround,
        c.ev_connector_types@ == d.ev_connector_types@,
        c.enable_ssh == d.enable_ssh,
        c.usb_serial_console == d.usb_serial_console,
        c.wifi_version == d.wifi_version,
        c.band@ == d.band@,
        c.country_code@ == d.country_code@,
        c.channel == d.channel,
        c.ssid@ == d.ssid@,
        c.wpa_passphrase@ == d.wpa_passphrase@,
        c.eth_mode@ == d.eth_mode@,
        c.startup_delay == d.startup_delay,
        c.ble_password@ == d.ble_password@,
        c.external_antenna == d.external_antenna,
        c.media_wait_for_live_idr == d.media_wait_for_live_idr,
        c.collect_speed == d.collect_speed,
        c.disable_driving_status == d.disable_driving_status,
{
    law_switches_are_saved(c, before);
    law_switches_are_saved(d, before);
    law_numbers_are_saved(c, before);
    law_numbers_are_saved(d, before);
    law_texts_are_saved(c, before);
    law_texts_are_saved(d, before);
}

/// A file that is valid TOML is written into as it is, and every other is written anew.
pub proof fn law_broken_file_is_written_anew(raw: Seq<char>, key: Seq<char>)
    ensures
        toml_settings(raw) matches Some(m) ==> held(raw) == m,
        toml_settings(raw) is None ==> !held(raw).contains_key(key),
{
}

/// What the file of a configuration that nothing was changed in holds of its switches: five are on,
/// and all the others are off.
pub proof fn law_default_switches(c: AppConfig, around: Surroundings, before: Settings)
    requires
        AppConfig::is_default(c, around),
    ensures
        saved(c, before).contains_pair("advertise"@, Setting::Flag(true)),
        saved(c, before).contains_pair("enable_btle"@, Setting::Flag(true)),
        saved(c, before).contains_pair("dongle_mode"@, Setting::Flag(false)),
        saved(c, before).contains_pair("debug"@, Setting::Flag(false)),
        saved(c, before).contains_pair("disable_console_debug"@, Setting::Flag(false)),
        saved(c, before).contains_pair("legacy"@, Setting::Flag(true)),
        saved(c, before).contains_pair("quick_reconnect"@, Setting::Flag(false)),
        saved(c, before).contains_pair("bt_poweroff"@, Setting::Flag(false)),
        saved(c, before).contains_pair("mitm"@, Setting::Flag(false)),
        saved(c, before).contains_pair("remove_tap_restriction"@, Setting::Flag(false)),
        saved(c, before).contains_pair("video_in_motion"@, Setting::Flag(false)),
        saved(c, before).contains_pair("disable_media_sink"@, Setting::Flag(false)),
        saved(c, before).contains_pair("disable_tts_sink"@, Setting::Flag(false)),
        saved(c, before).contains_pair("developer_mode"@, Setting::Flag(false)),
        saved(c, before).contains_pair("dhu"@, Setting::Flag(false)),
        saved(c, before).contains_pair("ev"@, Setting::Flag(false)),
        saved(c, before).contains_pair("odometer"@, Setting::Flag(false)),
        saved(c, before).contains_pair("tire_pressure"@, Setting::Flag(false)),
        saved(c, before).contains_pair("remove_bluetooth"@, Setting::Flag(false)),
        saved(c, before).contains_pair("remove_wifi"@, Setting::Flag(false)),
        saved(c, before).contains_pair("change_usb_order"@, Setting::Flag(false)),
        saved(c, before).contains_pair("stop_on_disconnect"@, Setting::Flag(false)),
        saved(c, before).contains_pair("waze_lht_workaround"@, Setting::Flag(false)),
        saved(c, before).contains_pair("enable_ssh"@, Setting::Flag(true)),
        saved(c, before).contains_pair("usb_serial_console"@, Setting::Flag(false)),
        saved(c, before).contains_pair("external_antenna"@, Setting::Flag(false)),
        saved(c, before).contains_pair("media_wait_for_live_idr"@, Setting::Flag(true)),
        saved(c, before).contains_pair("collect_speed"@, Setting::Flag(false)),
        saved(c, before).contains_pair("disable_driving_status"@, Setting::Flag(false)),
{
    law_switches_are_saved(c, before);
}

/// What it holds of its numbers. The generation of Wi-Fi is the one that was found out, or else the
/// first, and the channel goes by whether there is a 5 GHz band.
pub proof fn law_default_numbers(c: AppConfig, around: Surroundings, before: Settings)
    requires
        AppConfig::is_default(c, around),
    ensures
        saved(c, before).contains_pair("stats_interval"@, Setting::Number(0)),
        saved(c, before).contains_pair("timeout_secs"@, Setting::Number(10)),
        saved(c, before).contains_pair("bt_timeout_secs"@, Setting::Number(120)),
        saved(c, before).contains_pair("dpi"@, Setting::Number(0)),
        saved(c, before).contains_pair("audio_max_unacked"@, Setting::Number(0)),
        saved(c, before).contains_pair("startup_delay"@, Setting::Number(0)),
        around.wifi_version matches Some(v) ==> saved(c, before).contains_pair(
            "wifi_version"@,
            Setting::Number(v as i64),
        ),
        around.wifi_version is None ==> saved(c, before).contains_pair(
            "wifi_version"@,
            Setting::Number(1),
        ),
        around.five_ghz_channel == Some(true) ==> saved(c, before).contains_pair(
            "channel"@,
            Setting::Number(36),
        ),
        around.five_ghz_channel != Some(true) ==> saved(c, before).contains_pair(
            "channel"@,
            Setting::Number(6),
        ),
{
    law_numbers_are_saved(c, before);
}

/// What it holds of its texts: the lists are those of the surroundings, the network has the name and
/// the password of the proxy, and the band goes by whether there is one at 5 GHz.
pub proof fn law_default_texts(c: AppConfig, around: Surroundings, before: Settings)
    requires
        AppConfig::is_default(c, around),
    ensures
        saved(c, before).contains_pair("connect"@, Setting::Text(around.connect@)),
        saved(c, before).contains_pair(
            "ev_connector_types"@,
            Setting::Text(around.ev_connector_types@),
        ),
        around.five_ghz_band == Some(true) ==> saved(c, before).contains_pair(
            "band"@,
            Setting::Text("5"@),
        ),
        around.five_ghz_band != Some(true) ==> saved(c, before).contains_pair(
            "band"@,
            Setting::Text("2.4"@),
        ),
        saved(c, before).contains_pair("hexdump_level"@, Setting::Text("Disabled"@)),
        saved(c, before).contains_pair("logfile"@, Setting::Text("/var/log/aa-proxy-rs.log"@)),
        saved(c, before).contains_pair("iface"@, Setting::Text("wlan0"@)),
        saved(c, before).contains_pair("country_code"@, Setting::Text("US"@)),
        saved(c, before).contains_pair("ssid"@, Setting::Text("aa-proxy"@)),
        saved(c, before).contains_pair("wpa_passphrase"@, Setting::Text("aa-proxy"@)),
        saved(c, before).contains_pair("eth_mode"@, Setting::Text(""@)),
        saved(c, before).contains_pair("ble_password"@, Setting::Text(""@)),
        saved(c, before).contains_pair("webserver"@, Setting::Text("0.0.0.0:80"@)),
        saved(c, before).contains_pair("usb_product"@, Setting::Text(""@)),
        saved(c, before).contains_pair("usb_manufacturer"@, Setting::Text(""@)),
        saved(c, before).contains_pair("usb_serial"@, Setting::Text(""@)),
        saved(c, before).contains_pair("wired"@, Setting::Text(""@)),
{
    law_texts_are_saved(c, before);
    law_cleared_texts_are_saved(c, before);
    law_optional_settings_are_saved(c, before);
}

/// What a configuration lacks in which nothing was changed, beside what is in its file: nothing is
/// asked for, and nothing has failed.
pub proof fn law_default_configuration_lacks(c: AppConfig, around: Surroundings, before: Settings)
    requires
        AppConfig::is_default(c, around),
    ensures
        c.usb_product is None && c.usb_manufacturer is None && c.usb_serial is None,
        c.wired is None,
        same_under("udc"@, saved(c, before), before),
        same_under("btalias"@, saved(c, before), before),
        same_under("ev_battery_logger"@, saved(c, before), before),
        same_under("media_dump_base_port"@, saved(c, before), before),
        same_under("hu_button_handler"@, saved(c, before), before),
        c.action_requested is None,
        !c.runtime_mitm_failed,
{
    law_absent_settings_are_left_alone(c, before);
}

/// A saved file holds the configuration: it is valid, each setting stands in it as
/// `law_switches_are_saved` and the laws beside it say, and what else the file held before is kept.
pub proof fn law_saved_file_is_valid(c: AppConfig, raw: &str, contents: String, key: Seq<char>)
    requires
        call_ensures(AppConfig::save, (&c, raw), contents),
        forall|i: usize| i < SETTINGS ==> #[trigger] entry(c, i).0 != key,
    ensures
        toml_settings(contents@) == Some(saved(c, held(raw@))),
        held(contents@) == saved(c, held(raw@)),
        same_under(key, held(contents@), held(raw@)),
{
    law_other_settings_are_kept(c, held(raw@), key);
}

/// Whoever saves a configuration into its own file gets the same contents.
pub proof fn law_saved_file_is_settled(
    c: AppConfig,
    raw: &str,
    once: String,
    text: &str,
    twice: String,
)
    requires
        call_ensures(AppConfig::save, (&c, raw), once),
        text@ == once@,
        call_ensures(AppConfig::save, (&c, text), twice),
    ensures
        toml_settings(twice@) == toml_settings(once@),
{
    law_saving_twice_is_saving_once(c, held(raw@));
}

} // verus!
