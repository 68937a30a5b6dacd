use aa_proxy::address::{key_of, load_last_connected, same_address, save_last_connected};
use aa_proxy::bluetooth::{
    aa_wireless_profile, bluetooth_alias, get_cpu_serial_number_suffix, headset_profile, init,
    serial_suffix_splits_character, AdapterStep, SetupEvent, SetupPhase, SetupStep, AAWG_PROFILE_UUID, HSP_HS_UUID,
};

#[test]
fn record_reads_back() {
    let address = [0xaa, 0xbb, 0xcc, 0x00, 0x11, 0x2f];
    let record = save_last_connected(&address);
    assert_eq!(record, "AA:BB:CC:00:11:2F");
    assert_eq!(load_last_connected(&record), Some(address));
}

#[test]
fn record_may_have_white_space_around_it() {
    assert_eq!(load_last_connected(" 01:02:03:04:05:06\n"), Some([1, 2, 3, 4, 5, 6]));
}

#[test]
fn broken_record_holds_nothing() {
    assert_eq!(load_last_connected(""), None);
    assert_eq!(load_last_connected("01:02:03:04:05"), None);
    assert_eq!(load_last_connected("not an address"), None);
}

#[test]
fn key_identifies_an_address() {
    assert_eq!(key_of(&[1, 2, 3, 4, 5, 6]), 0x0102_0304_0506);
    assert!(same_address(&[1, 2, 3, 4, 5, 6], &[1, 2, 3, 4, 5, 6]));
    assert!(!same_address(&[1, 2, 3, 4, 5, 6], &[1, 2, 3, 4, 6, 5]));
}

#[test]
fn suffix_is_the_last_six_bytes() {
    assert_eq!(get_cpu_serial_number_suffix("10000000abcdef12\0"), "cdef12");
    assert_eq!(get_cpu_serial_number_suffix(" 123456 \0\0"), "123456");
    assert_eq!(get_cpu_serial_number_suffix("12345\0"), "");
    assert_eq!(get_cpu_serial_number_suffix(""), "");
}

#[test]
fn suffix_may_hold_longer_characters() {
    assert!(!serial_suffix_splits_character("xéabcd"));
    assert_eq!(get_cpu_serial_number_suffix("xéabcd"), "éabcd");
    assert!(serial_suffix_splits_character("éabcde"));
}

#[test]
fn alias_is_configured_or_made_up() {
    assert_eq!(bluetooth_alias(Some("car".to_string()), Some("abc".to_string())), "car");
    assert_eq!(bluetooth_alias(None, Some("cdef12".to_string())), "aa-proxy-cdef12");
    assert_eq!(bluetooth_alias(None, Some(String::new())), "aa-proxy-");
    assert_eq!(bluetooth_alias(None, None), "aa-proxy");
}

#[test]
fn set_up_of_a_discoverable_adapter() {
    let setup = init(None, None, true, false, Some("01:02:03:04:05:06".to_string()));
    assert_eq!(setup.alias, "aa-proxy");
    assert_eq!(
        setup.steps,
        vec![
            AdapterStep::OpenSession,
            AdapterStep::OpenAdapter,
            AdapterStep::ReadAddress,
            AdapterStep::SetAlias,
            AdapterStep::SetPowered(true),
            AdapterStep::SetPairable(true),
            AdapterStep::SetDiscoverable(true),
            AdapterStep::SetDiscoverableTimeout(0),
            AdapterStep::RegisterProfile,
        ]
    );
    assert_eq!(setup.bluetooth.last_connected, Some([1, 2, 3, 4, 5, 6]));
    assert_eq!(setup.bluetooth.current_index, 0);
    assert!(!setup.bluetooth.dongle_mode);
    assert!(setup.bluetooth.page_timeout_devices.is_empty());
    assert_eq!(setup.bluetooth.stopped_at, None);
}

#[test]
fn set_up_of_a_hidden_adapter() {
    let setup = init(Some("x".to_string()), None, false, true, None);
    assert_eq!(
        setup.steps,
        vec![
            AdapterStep::OpenSession,
            AdapterStep::OpenAdapter,
            AdapterStep::ReadAddress,
            AdapterStep::SetAlias,
            AdapterStep::SetPowered(true),
            AdapterStep::SetPairable(true),
            AdapterStep::RegisterProfile,
        ]
    );
    assert_eq!(setup.bluetooth.last_connected, None);
    assert!(setup.bluetooth.dongle_mode);
}

#[test]
fn profiles_are_as_the_phone_expects() {
    let p = aa_wireless_profile();
    assert_eq!((p.uuid, p.name, p.channel, p.server), (AAWG_PROFILE_UUID, "AA Wireless", Some(8), true));
    let p = headset_profile();
    assert_eq!((p.uuid, p.name, p.channel, p.server), (HSP_HS_UUID, "HSP HS", None, false));
}

#[test]
fn set_up_makes_its_steps_in_order() {
    let mut setup = init(None, None, false, false, None);
    let mut event = SetupEvent::Begin;
    let mut made = vec![];
    while let SetupStep::Make(step) = setup.proceed(event) {
        made.push(step);
        event = SetupEvent::Done;
    }
    assert_eq!(made, setup.steps);
    assert_eq!(setup.phase, SetupPhase::Over);
}

#[test]
fn first_failure_ends_the_set_up() {
    let mut setup = init(None, None, true, false, None);
    setup.proceed(SetupEvent::Begin);
    assert_eq!(setup.proceed(SetupEvent::Done), SetupStep::Make(AdapterStep::OpenAdapter));
    assert_eq!(setup.proceed(SetupEvent::Failed), SetupStep::Failed);
    assert_eq!(setup.phase, SetupPhase::Over);
}

#[test]
fn fields_of_an_address_are_numbers_in_base_sixteen() {
    assert_eq!(load_last_connected("a:B:+c:00d:0:ff"), Some([10, 11, 12, 13, 0, 255]));
    assert_eq!(load_last_connected("1:2:3:4:5:6:7"), None);
    assert_eq!(load_last_connected("1:2:3:4:5:"), None);
    assert_eq!(load_last_connected("1:2:3:4:5:100"), None);
    assert_eq!(load_last_connected("1:2:3:4:5:+"), None);
    assert_eq!(load_last_connected("1:2:3:4:5:-1"), None);
    assert_eq!(load_last_connected("01-02-03-04-05-06"), None);
}
