use aa_proxy::config::{
    empty_string_as_none, filter_iw_list, supports_5ghz_wifi, webserver_default_bind, Action, AppConfig,
    ConfigJson, ConfigValue, ConfigValues, Surroundings, WifiSearch, WifiStep, TOO_OLD,
};
use aa_proxy::settings::{SettingValue, SETTINGS};

fn surroundings() -> Surroundings {
    Surroundings {
        connect: "".to_string(),
        ev_connector_types: "ccs".to_string(),
        wifi_version: Some(5),
        five_ghz_band: Some(true),
        five_ghz_channel: Some(true),
    }
}

fn document(text: &str) -> toml_edit::DocumentMut {
    text.parse::<toml_edit::DocumentMut>().unwrap()
}

#[test]
fn blank_texts_count_as_none() {
    assert_eq!(empty_string_as_none("".to_string()), None);
    assert_eq!(empty_string_as_none(" \t ".to_string()), None);
    assert_eq!(empty_string_as_none(" x ".to_string()), Some(" x ".to_string()));
}

#[test]
fn web_server_listens_by_default() {
    assert_eq!(webserver_default_bind(), Some("0.0.0.0:80".to_string()));
}

#[test]
fn descriptions_are_empty_by_default() {
    let v = ConfigValue::default();
    assert_eq!((v.typ.as_str(), v.description.as_str()), ("", ""));
    assert!(v.values.is_none() && v.placeholder.is_none());
    let v = ConfigValues::default();
    assert_eq!(v.title, "");
    assert!(v.values.is_empty());
    assert!(ConfigJson::default().titles.is_empty());
}

#[test]
fn hardware_is_judged_by_what_it_prints() {
    let out = b"Band 1:\n\t* 2412.0 MHz\n\xff\xfe\nBand 2:\n\t* 5180.0 MHz [36]\n".to_vec();
    assert!(supports_5ghz_wifi(&out));
    assert!(filter_iw_list(&out, "2412.0 MHz"));
    assert!(!filter_iw_list(&out, "5955.0 MHz"));
    assert!(filter_iw_list(&out, "\u{fffd}\u{fffd}"));
    assert!(!supports_5ghz_wifi(&vec![]));
}

fn search(out: &str) -> WifiStep {
    let mut s = WifiSearch::new();
    loop {
        let step = s.get_latest_wifi_version(Some(out.as_bytes().to_vec()));
        if step != WifiStep::AskAgain {
            return step;
        }
    }
}

#[test]
fn newest_generation_is_found() {
    assert_eq!(search("HE PHY Capabilities\nVHT Capabilities"), WifiStep::Found(6));
    assert_eq!(search("VHT Capabilities\n HT Capabilities"), WifiStep::Found(5));
    assert_eq!(search("  HT Capabilities\n54.0 Mbps"), WifiStep::Found(4));
    assert_eq!(search("54.0 Mbps\n5180.0 MHz"), WifiStep::Found(3));
    assert_eq!(search("5180.0 MHz\n11.0 Mbps"), WifiStep::Found(2));
    assert_eq!(search("11.0 Mbps"), WifiStep::Found(1));
}

#[test]
fn hardware_without_a_generation_is_too_old() {
    assert_eq!(search("nothing"), WifiStep::TooOld);
    assert_eq!(TOO_OLD, "Device does not support anything newer than 802.11-1997?!?!");
}

#[test]
fn hardware_that_cannot_be_asked_ends_the_search() {
    let mut s = WifiSearch::new();
    assert_eq!(s.get_latest_wifi_version(None), WifiStep::NotAsked);
}

#[test]
fn actions_have_names() {
    assert_eq!(Action::Reconnect.name(), format!("{:?}", Action::Reconnect));
    assert_eq!(Action::Reboot.name(), "Reboot");
    assert_eq!(Action::Stop.name(), "Stop");
}

#[test]
fn defaults_go_by_the_hardware() {
    let c = AppConfig::defaults(surroundings());
    assert_eq!((c.wifi_version, c.band.as_str(), c.channel), (5, "5", 36));
    let c = AppConfig::defaults(Surroundings {
        wifi_version: None,
        five_ghz_band: None,
        five_ghz_channel: Some(false),
        ..surroundings()
    });
    assert_eq!((c.wifi_version, c.band.as_str(), c.channel), (1, "2.4", 6));
}

#[test]
fn defaults_are_as_documented() {
    let c = AppConfig::defaults(surroundings());
    assert!(c.advertise && c.enable_btle && c.legacy && c.enable_ssh && c.media_wait_for_live_idr);
    assert!(!c.dongle_mode && !c.debug && !c.mitm && !c.dhu && !c.quick_reconnect && !c.bt_poweroff);
    assert_eq!(c.hexdump_level, "Disabled");
    assert_eq!(c.logfile, "/var/log/aa-proxy-rs.log");
    assert_eq!((c.stats_interval, c.timeout_secs, c.bt_timeout_secs), (0, 10, 120));
    assert_eq!(c.webserver.as_deref(), Some("0.0.0.0:80"));
    assert_eq!((c.ssid.as_str(), c.wpa_passphrase.as_str()), ("aa-proxy", "aa-proxy"));
    assert_eq!((c.iface.as_str(), c.country_code.as_str()), ("wlan0", "US"));
    assert_eq!(c.ev_connector_types, "ccs");
    assert!(c.wired.is_none() && c.udc.is_none() && c.action_requested.is_none());
}

#[test]
fn saved_settings_read_back() {
    let mut c = AppConfig::defaults(surroundings());
    c.ssid = "a \"quoted\" name\nand\\more 'x'".to_string();
    c.stats_interval = 65535;
    c.wired = Some("18d1:4ee1".to_string());
    c.media_dump_base_port = Some(12345);
    let text = c.save("");
    let doc = document(&text);
    assert_eq!(doc["advertise"].as_bool(), Some(true));
    assert_eq!(doc["dhu"].as_bool(), Some(false));
    assert_eq!(doc["stats_interval"].as_integer(), Some(65535));
    assert_eq!(doc["ssid"].as_str(), Some(c.ssid.as_str()));
    assert_eq!(doc["wired"].as_str(), Some("18d1:4ee1"));
    assert_eq!(doc["usb_serial"].as_str(), Some(""));
    assert_eq!(doc["hexdump_level"].as_str(), Some("Disabled"));
    assert_eq!(doc["channel"].as_integer(), Some(36));
    assert_eq!(doc["media_dump_base_port"].as_integer(), Some(12345));
    assert_eq!(doc["webserver"].as_str(), Some("0.0.0.0:80"));
    assert!(doc.get("udc").is_none());
    assert!(doc.get("hu_button_handler").is_none());
    assert_eq!(doc.iter().count(), 54);
}

#[test]
fn other_settings_and_comments_are_kept() {
    let c = AppConfig::defaults(surroundings());
    let raw = "# mine\ncustom = [1, 2] # list\nadvertise = false\nudc = \"old\"\n\n[table]\nx = 1.5\n";
    let text = c.save(raw);
    assert!(text.starts_with("# mine\ncustom = [1, 2] # list\nadvertise = true\nudc = \"old\"\n"));
    let doc = document(&text);
    assert_eq!(doc["udc"].as_str(), Some("old"));
    assert_eq!(doc["table"]["x"].as_float(), Some(1.5));
    assert_eq!(doc["custom"].as_array().map(|a| a.len()), Some(2));
}

#[test]
fn value_of_another_type_is_replaced() {
    let c = AppConfig::defaults(surroundings());
    let doc = document(&c.save("[advertise]\ny = 1\n[advertise.z]\n\n[other]\ny = 2\n"));
    assert_eq!(doc["advertise"].as_bool(), Some(true));
    assert_eq!(doc["other"]["y"].as_integer(), Some(2));
}

#[test]
fn broken_file_is_begun_anew() {
    let c = AppConfig::defaults(surroundings());
    let text = c.save("custom = 1\nthis is not = = toml");
    let doc = document(&text);
    assert!(doc.get("custom").is_none());
    assert_eq!(doc["legacy"].as_bool(), Some(true));
}

#[test]
fn file_of_comments_is_kept() {
    let c = AppConfig::defaults(surroundings());
    let text = c.save("# only a comment");
    assert!(text.contains("# only a comment"));
    assert_eq!(document(&text)["legacy"].as_bool(), Some(true));
}

#[test]
fn saving_twice_is_saving_once() {
    let c = AppConfig::defaults(surroundings());
    let once = c.save("x = 1\n");
    assert_eq!(c.save(&once), once);
}

#[test]
fn names_of_settings_differ() {
    let c = AppConfig::defaults(surroundings());
    let mut names: Vec<&str> = (0..SETTINGS).map(|i| c.setting(i).0).collect();
    names.sort();
    names.dedup();
    assert_eq!(names.len(), SETTINGS);
}

#[test]
fn settings_have_their_values() {
    let mut c = AppConfig::defaults(surroundings());
    c.udc = Some("musb".to_string());
    let find = |name: &str| (0..SETTINGS).map(|i| c.setting(i)).find(|s| s.0 == name).unwrap().1;
    assert!(matches!(find("udc"), Some(SettingValue::Text(s)) if s == "musb"));
    assert!(matches!(find("timeout_secs"), Some(SettingValue::Number(10))));
    assert!(matches!(find("ev"), Some(SettingValue::Flag(false))));
    assert!(find("ev_battery_logger").is_none());
}
