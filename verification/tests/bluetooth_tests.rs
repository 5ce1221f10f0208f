use aa_bridge::bluetooth::{
    connector_plan, serial_number_suffix, session_alias, teardown_plan, visibility_plan,
    BtAddress, ConnectorPlan, AAWG_RFCOMM_CHANNEL, BT_ALIAS, HSP_JOIN_TIMEOUT_MS,
};

#[test]
fn seventeen_character_serial_yields_its_suffix() {
    let suffix = serial_number_suffix("abcdefghijklmnopq").unwrap();
    assert_eq!(suffix, "klmnop");
}

#[test]
fn wrong_length_serial_yields_no_suffix() {
    assert!(serial_number_suffix("abcdefghijklmnop").is_none());
    assert!(serial_number_suffix("abcdefghijklmnopqr").is_none());
    assert!(serial_number_suffix("").is_none());
}

#[test]
fn alias_override_wins() {
    let alias = session_alias(Some("MyDongle".to_string()), Some("klmnop".to_string()));
    assert_eq!(alias, "MyDongle");
}

#[test]
fn alias_appends_the_serial_suffix() {
    let alias = session_alias(None, Some("klmnop".to_string()));
    assert_eq!(alias, "WirelessAADongle-klmnop");
}

#[test]
fn alias_falls_back_to_the_bare_name() {
    let alias = session_alias(None, None);
    assert_eq!(alias, BT_ALIAS);
}

#[test]
fn connector_runs_only_in_dongle_mode() {
    let addr = BtAddress { octets: [1, 2, 3, 4, 5, 6] };
    assert_eq!(connector_plan(false, Some(addr)), ConnectorPlan::NoConnector);
    assert_eq!(connector_plan(true, None), ConnectorPlan::NoConnector);
    assert_eq!(connector_plan(true, Some(addr)), ConnectorPlan::Single(addr));
}

#[test]
fn wildcard_address_calls_every_bonded_device() {
    let any = BtAddress { octets: [0; 6] };
    assert!(any.is_any());
    assert_eq!(
        connector_plan(true, Some(any)),
        ConnectorPlan::AllKnownDevices
    );
    let not_any = BtAddress { octets: [0, 0, 0, 0, 0, 7] };
    assert!(!not_any.is_any());
}

#[test]
fn visibility_is_ble_or_classic_never_both() {
    let ble = visibility_plan(true);
    assert!(ble.ble_advertise && !ble.classic_discoverable);
    let classic = visibility_plan(false);
    assert!(!classic.ble_advertise && classic.classic_discoverable);
}

#[test]
fn adapter_powers_off_exactly_without_keepalive() {
    assert!(teardown_plan(false).power_off);
    assert!(!teardown_plan(true).power_off);
    assert_eq!(teardown_plan(true).hsp_join_timeout_ms, HSP_JOIN_TIMEOUT_MS);
    assert_eq!(HSP_JOIN_TIMEOUT_MS, 2500);
}

#[test]
fn projection_profile_sits_on_channel_eight() {
    assert_eq!(AAWG_RFCOMM_CHANNEL, 8);
}
