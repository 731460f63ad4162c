use validators_ip_info::ip_data::ValidatorIpData;
use validators_ip_info::ip_data_map::IpDataMap;
use validators_ip_info::reconcile::{reconcile, unresolved_participants, Unresolved};
use validators_ip_info::ValidatorInfo;

fn participant(pubkey: &str, ip: Option<&str>, stake: Option<u64>) -> ValidatorInfo {
    ValidatorInfo {
        pubkey: pubkey.to_string(),
        stake,
        total_slots: Some(3),
        ip: ip.map(|s| s.to_string()),
    }
}

fn metadata(city: &str) -> ValidatorIpData {
    let mut data = ValidatorIpData::default();
    data.city = Some(city.to_string());
    data.pubkey = Some("guessed-by-provider".to_string());
    data.stake = Some(999);
    data
}

fn mapping(entries: &[(&str, &str)]) -> IpDataMap {
    let mut mapping = IpDataMap::new();
    for (ip, city) in entries {
        mapping = mapping.with_entry(ip.to_string(), metadata(city));
    }
    mapping
}

#[test]
fn reconcile_joins_each_participant_with_its_address() {
    let batch = vec![
        participant("a", Some("1.1.1.1"), Some(10)),
        participant("b", Some("2.2.2.2"), None),
    ];
    let records = reconcile(&batch, &mapping(&[("2.2.2.2", "Rome"), ("1.1.1.1", "Paris")]));
    assert_eq!(records.len(), 2);
    assert_eq!(records[0].pubkey, Some("a".to_string()));
    assert_eq!(records[0].ip_address, Some("1.1.1.1".to_string()));
    assert_eq!(records[0].city, Some("Paris".to_string()));
    assert_eq!(records[0].stake, Some(10));
    assert_eq!(records[0].total_slots, Some(3));
    assert_eq!(records[1].pubkey, Some("b".to_string()));
    assert_eq!(records[1].ip_address, Some("2.2.2.2".to_string()));
    assert_eq!(records[1].city, Some("Rome".to_string()));
    assert_eq!(records[1].stake, None);
}

#[test]
fn reconcile_skips_participants_without_address() {
    let batch = vec![
        participant("a", None, Some(1)),
        participant("b", Some("2.2.2.2"), Some(2)),
        participant("c", None, Some(3)),
    ];
    let records = reconcile(&batch, &mapping(&[("2.2.2.2", "Rome")]));
    assert_eq!(records.len(), 1);
    assert_eq!(records[0].pubkey, Some("b".to_string()));
}

#[test]
fn reconcile_never_yields_more_than_participants_with_address() {
    let batch = vec![
        participant("a", None, None),
        participant("b", Some("2.2.2.2"), None),
        participant("c", Some("3.3.3.3"), None),
        participant("d", None, None),
    ];
    let with_ip = batch.iter().filter(|v| v.ip.is_some()).count();
    let full = mapping(&[("2.2.2.2", "Rome"), ("3.3.3.3", "Oslo"), ("4.4.4.4", "Bern")]);
    assert_eq!(reconcile(&batch, &full).len(), 2);
    assert!(reconcile(&batch, &full).len() <= with_ip);
    assert!(reconcile(&batch, &mapping(&[("2.2.2.2", "Rome")])).len() <= with_ip);
    assert!(reconcile(&batch, &IpDataMap::new()).len() <= with_ip);
}

#[test]
fn reconcile_skips_address_missing_from_mapping() {
    let batch = vec![
        participant("a", Some("1.1.1.1"), Some(1)),
        participant("b", Some("2.2.2.2"), Some(2)),
        participant("c", Some("3.3.3.3"), Some(3)),
    ];
    let partial = mapping(&[("1.1.1.1", "Paris"), ("3.3.3.3", "Oslo")]);
    let records = reconcile(&batch, &partial);
    let without_b = vec![batch[0].clone(), batch[2].clone()];
    assert_eq!(records.len(), 2);
    assert_eq!(records, reconcile(&without_b, &partial));
    assert_eq!(records[0].pubkey, Some("a".to_string()));
    assert_eq!(records[1].pubkey, Some("c".to_string()));
}

#[test]
fn reconcile_missing_entry_leaves_other_participants_as_they_were() {
    let batch = vec![
        participant("a", Some("1.1.1.1"), Some(1)),
        participant("b", Some("2.2.2.2"), Some(2)),
        participant("c", Some("3.3.3.3"), Some(3)),
    ];
    let full = mapping(&[("1.1.1.1", "Paris"), ("2.2.2.2", "Rome"), ("3.3.3.3", "Oslo")]);
    let partial = mapping(&[("1.1.1.1", "Paris"), ("3.3.3.3", "Oslo")]);
    let all = reconcile(&batch, &full);
    let some = reconcile(&batch, &partial);
    assert_eq!(all.len(), 3);
    assert_eq!(some, vec![all[0].clone(), all[2].clone()]);
}

#[test]
fn reconcile_matches_the_exact_address_text() {
    let batch = vec![participant("a", Some("1.1.1.1"), None)];
    assert!(reconcile(&batch, &mapping(&[("1.1.1.01", "Paris")])).is_empty());
    assert!(reconcile(&batch, &mapping(&[(" 1.1.1.1", "Paris")])).is_empty());
}

#[test]
fn reconcile_with_empty_mapping_yields_nothing() {
    let batch = vec![participant("a", Some("1.1.1.1"), None), participant("b", None, None)];
    assert!(reconcile(&batch, &IpDataMap::new()).is_empty());
}

#[test]
fn reconcile_of_empty_batch_yields_nothing() {
    assert!(reconcile(&Vec::new(), &mapping(&[("1.1.1.1", "Paris")])).is_empty());
}

#[test]
fn reconcile_twice_gives_identical_records() {
    let batch = vec![
        participant("a", Some("1.1.1.1"), Some(1)),
        participant("b", None, Some(2)),
        participant("c", Some("3.3.3.3"), Some(3)),
        participant("d", Some("1.1.1.1"), Some(4)),
    ];
    let known = mapping(&[("1.1.1.1", "Paris")]);
    let first = reconcile(&batch, &known);
    let second = reconcile(&batch, &known);
    assert_eq!(first, second);
    assert_eq!(first.len(), 2);
}

#[test]
fn reconcile_gives_participants_sharing_an_address_their_own_copy() {
    let batch = vec![
        participant("a", Some("1.1.1.1"), Some(1)),
        participant("b", Some("1.1.1.1"), Some(2)),
    ];
    let records = reconcile(&batch, &mapping(&[("1.1.1.1", "Paris")]));
    assert_eq!(records.len(), 2);
    assert_eq!(records[0].pubkey, Some("a".to_string()));
    assert_eq!(records[0].stake, Some(1));
    assert_eq!(records[1].pubkey, Some("b".to_string()));
    assert_eq!(records[1].stake, Some(2));
    assert_eq!(records[0].city, Some("Paris".to_string()));
    assert_eq!(records[1].city, Some("Paris".to_string()));
    assert_eq!(records[0].ip_address, records[1].ip_address);
}

#[test]
fn reconcile_puts_participant_fields_over_provider_fields() {
    let batch = vec![participant("real-key", Some("1.1.1.1"), Some(42))];
    let mut guessed = ValidatorIpData::default();
    guessed.pubkey = Some("other-key".to_string());
    guessed.stake = Some(7);
    guessed.total_slots = Some(8);
    guessed.ip_address = Some("8.8.8.8".to_string());
    guessed.as_number = 64512;
    let known = IpDataMap::new().with_entry("1.1.1.1".to_string(), guessed);
    let records = reconcile(&batch, &known);
    assert_eq!(records.len(), 1);
    assert_eq!(records[0].pubkey, Some("real-key".to_string()));
    assert_eq!(records[0].stake, Some(42));
    assert_eq!(records[0].total_slots, Some(3));
    assert_eq!(records[0].ip_address, Some("1.1.1.1".to_string()));
    assert_eq!(records[0].as_number, 64512);
}

#[test]
fn reconcile_keeps_the_order_of_the_batch() {
    let batch = vec![
        participant("c", Some("3.3.3.3"), None),
        participant("a", Some("1.1.1.1"), None),
        participant("b", Some("2.2.2.2"), None),
    ];
    let known = mapping(&[("1.1.1.1", "Paris"), ("2.2.2.2", "Rome"), ("3.3.3.3", "Oslo")]);
    let keys: Vec<Option<String>> = reconcile(&batch, &known).into_iter().map(|r| r.pubkey).collect();
    assert_eq!(
        keys,
        vec![Some("c".to_string()), Some("a".to_string()), Some("b".to_string())]
    );
}

#[test]
fn unresolved_participants_names_each_skip_with_its_reason() {
    let batch = vec![
        participant("a", Some("1.1.1.1"), None),
        participant("b", None, None),
        participant("c", Some("3.3.3.3"), None),
    ];
    let left_out = unresolved_participants(&batch, &mapping(&[("1.1.1.1", "Paris")]));
    assert_eq!(
        left_out,
        vec![
            Unresolved::NoIp { pubkey: "b".to_string() },
            Unresolved::NoData { pubkey: "c".to_string(), ip: "3.3.3.3".to_string() },
        ]
    );
}

#[test]
fn unresolved_participants_and_records_account_for_the_whole_batch() {
    let batch = vec![
        participant("a", Some("1.1.1.1"), None),
        participant("b", None, None),
        participant("c", Some("3.3.3.3"), None),
        participant("d", Some("1.1.1.1"), None),
        participant("e", None, None),
    ];
    let known = mapping(&[("1.1.1.1", "Paris")]);
    let records = reconcile(&batch, &known);
    let left_out = unresolved_participants(&batch, &known);
    assert_eq!(records.len(), 2);
    assert_eq!(left_out.len(), 3);
    assert_eq!(records.len() + left_out.len(), batch.len());
}

#[test]
fn unresolved_participants_is_empty_when_all_resolve() {
    let batch = vec![participant("a", Some("1.1.1.1"), None)];
    assert!(unresolved_participants(&batch, &mapping(&[("1.1.1.1", "Paris")])).is_empty());
}
