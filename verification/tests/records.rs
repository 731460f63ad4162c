use validators_ip_info::ip_data::{Coordinate, ValidatorIpData};
use validators_ip_info::ip_data_map::IpDataMap;
use validators_ip_info::ValidatorInfo;

fn provider_record() -> ValidatorIpData {
    ValidatorIpData {
        pubkey: Some("provider-key".to_string()),
        stake: Some(1),
        total_slots: Some(2),
        ip_address: Some("9.9.9.9".to_string()),
        continent_code: Some("EU".to_string()),
        continent_name: Some("Europe".to_string()),
        country_code: Some("FR".to_string()),
        country_name: Some("France".to_string()),
        is_eu_member: true,
        currency_code: Some("EUR".to_string()),
        currency_name: Some("Euro".to_string()),
        phone_prefix: Some("33".to_string()),
        state_prov_code: Some("IDF".to_string()),
        state_prov: Some("Ile-de-France".to_string()),
        district: Some("Paris".to_string()),
        city: Some("Paris".to_string()),
        geoname_id: 2988507,
        gmt_offset: 1,
        time_zone: Some("Europe/Paris".to_string()),
        latitude: Coordinate { bits: 48.8566f64.to_bits() },
        longitude: Coordinate { bits: 2.3522f64.to_bits() },
        weather_code: Some("FRXX0076".to_string()),
        as_number: 3215,
        as_name: Some("Orange".to_string()),
        isp: Some("Orange S.A.".to_string()),
        usage_type: Some("consumer".to_string()),
        organization: Some("Orange".to_string()),
    }
}

#[test]
fn default_record_is_blank() {
    let blank = ValidatorIpData::default();
    assert_eq!(blank.pubkey, None);
    assert_eq!(blank.stake, None);
    assert_eq!(blank.total_slots, None);
    assert_eq!(blank.ip_address, None);
    assert_eq!(blank.city, None);
    assert_eq!(blank.organization, None);
    assert!(!blank.is_eu_member);
    assert_eq!(blank.geoname_id, 0);
    assert_eq!(blank.gmt_offset, 0);
    assert_eq!(blank.as_number, 0);
    assert_eq!(f64::from_bits(blank.latitude.bits), 0.0);
    assert_eq!(f64::from_bits(blank.longitude.bits), 0.0);
}

#[test]
fn clone_of_record_is_equal() {
    let record = provider_record();
    assert_eq!(record.clone(), record);
}

#[test]
fn stamp_sets_only_the_address() {
    let stamped = provider_record().stamp(&"1.2.3.4".to_string());
    let mut expected = provider_record();
    expected.ip_address = Some("1.2.3.4".to_string());
    assert_eq!(stamped, expected);
}

#[test]
fn merge_prefers_the_participant_over_the_provider() {
    let validator = ValidatorInfo {
        pubkey: "validator-key".to_string(),
        stake: Some(5_000),
        total_slots: Some(12),
        ip: Some("1.2.3.4".to_string()),
    };
    let record = provider_record().merge(&validator);
    assert_eq!(record.pubkey, Some("validator-key".to_string()));
    assert_eq!(record.stake, Some(5_000));
    assert_eq!(record.total_slots, Some(12));
    assert_eq!(record.ip_address, Some("1.2.3.4".to_string()));
}

#[test]
fn merge_overwrites_with_absent_stake_and_slots() {
    let validator = ValidatorInfo {
        pubkey: "validator-key".to_string(),
        stake: None,
        total_slots: None,
        ip: Some("1.2.3.4".to_string()),
    };
    let record = provider_record().merge(&validator);
    assert_eq!(record.stake, None);
    assert_eq!(record.total_slots, None);
}

#[test]
fn merge_keeps_every_provider_field_it_does_not_own() {
    let validator = ValidatorInfo {
        pubkey: "validator-key".to_string(),
        stake: Some(7),
        total_slots: None,
        ip: Some("1.2.3.4".to_string()),
    };
    let record = provider_record().merge(&validator);
    let mut expected = provider_record();
    expected.pubkey = Some("validator-key".to_string());
    expected.stake = Some(7);
    expected.total_slots = None;
    expected.ip_address = Some("1.2.3.4".to_string());
    assert_eq!(record, expected);
    assert_eq!(f64::from_bits(record.latitude.bits), 48.8566);
    assert_eq!(f64::from_bits(record.longitude.bits), 2.3522);
}

#[test]
fn empty_mapping_holds_nothing() {
    let mapping = IpDataMap::new();
    assert!(mapping.get(&"1.1.1.1".to_string()).is_none());
    assert!(mapping.get(&"".to_string()).is_none());
}

#[test]
fn with_entry_writes_the_address_into_the_metadata() {
    let mapping = IpDataMap::new().with_entry("1.1.1.1".to_string(), provider_record());
    let mut expected = provider_record();
    expected.ip_address = Some("1.1.1.1".to_string());
    assert_eq!(mapping.get(&"1.1.1.1".to_string()), Some(&expected));
    assert!(mapping.get(&"9.9.9.9".to_string()).is_none());
}

#[test]
fn with_entry_replaces_what_was_under_the_address() {
    let mut second = provider_record();
    second.city = Some("Lyon".to_string());
    let mapping = IpDataMap::new()
        .with_entry("1.1.1.1".to_string(), provider_record())
        .with_entry("2.2.2.2".to_string(), provider_record())
        .with_entry("1.1.1.1".to_string(), second);
    assert_eq!(
        mapping.get(&"1.1.1.1".to_string()).unwrap().city,
        Some("Lyon".to_string())
    );
    assert_eq!(
        mapping.get(&"2.2.2.2".to_string()).unwrap().city,
        Some("Paris".to_string())
    );
}

#[test]
fn get_matches_the_exact_address_text() {
    let mapping = IpDataMap::new().with_entry("1.1.1.1".to_string(), provider_record());
    assert!(mapping.get(&"1.1.1.1 ".to_string()).is_none());
    assert!(mapping.get(&"01.1.1.1".to_string()).is_none());
    assert!(mapping.get(&"1.1.1.1".to_string()).is_some());
}

#[test]
fn from_entries_lets_the_later_entry_win() {
    let mut first = ValidatorIpData::default();
    first.isp = Some("old".to_string());
    let mut second = ValidatorIpData::default();
    second.isp = Some("new".to_string());
    let entries = vec![("1.1.1.1".to_string(), first), ("1.1.1.1".to_string(), second)];
    let mapping = IpDataMap::from_entries(&entries);
    let found = mapping.get(&"1.1.1.1".to_string()).unwrap();
    assert_eq!(found.isp, Some("new".to_string()));
    assert_eq!(found.ip_address, Some("1.1.1.1".to_string()));
}
