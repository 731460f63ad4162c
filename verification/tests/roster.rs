use validators_ip_info::roster::{
    assemble_roster, count_sharing_address, count_without_address, find_contact, find_slots,
    find_stake, ClusterNode, SlotLeader, VoteAccount,
};
use validators_ip_info::ValidatorInfo;

fn leader(pubkey: &str, slots: u64) -> SlotLeader {
    SlotLeader { pubkey: pubkey.to_string(), slots }
}

fn node(pubkey: &str, ip: Option<&str>) -> ClusterNode {
    ClusterNode { pubkey: pubkey.to_string(), ip: ip.map(|s| s.to_string()) }
}

fn vote(node_pubkey: &str, activated_stake: u64) -> VoteAccount {
    VoteAccount { node_pubkey: node_pubkey.to_string(), activated_stake }
}

fn participant(pubkey: &str, ip: Option<&str>) -> ValidatorInfo {
    ValidatorInfo {
        pubkey: pubkey.to_string(),
        stake: None,
        total_slots: None,
        ip: ip.map(|s| s.to_string()),
    }
}

#[test]
fn assemble_roster_enlists_leaders_with_a_contact() {
    let leaders = vec![leader("a", 4), leader("b", 8), leader("c", 12)];
    let cluster = vec![node("c", None), node("x", Some("9.9.9.9")), node("a", Some("1.1.1.1"))];
    let votes = vec![vote("a", 500), vote("z", 1)];
    let roster = assemble_roster(&leaders, &cluster, &votes);
    assert_eq!(
        roster.validators,
        vec![
            ValidatorInfo {
                pubkey: "a".to_string(),
                stake: Some(500),
                total_slots: Some(4),
                ip: Some("1.1.1.1".to_string()),
            },
            ValidatorInfo {
                pubkey: "c".to_string(),
                stake: None,
                total_slots: Some(12),
                ip: None,
            },
        ]
    );
    assert_eq!(roster.unknown, vec!["b".to_string()]);
}

#[test]
fn assemble_roster_of_empty_schedule_is_empty() {
    let roster = assemble_roster(&Vec::new(), &vec![node("a", None)], &vec![vote("a", 1)]);
    assert!(roster.validators.is_empty());
    assert!(roster.unknown.is_empty());
}

#[test]
fn assemble_roster_without_contacts_knows_nobody() {
    let leaders = vec![leader("a", 1), leader("b", 2)];
    let roster = assemble_roster(&leaders, &Vec::new(), &Vec::new());
    assert!(roster.validators.is_empty());
    assert_eq!(roster.unknown, vec!["a".to_string(), "b".to_string()]);
}

#[test]
fn assemble_roster_accounts_for_every_leader() {
    let leaders = vec![leader("a", 1), leader("b", 2), leader("c", 3), leader("d", 4)];
    let cluster = vec![node("b", None), node("d", Some("4.4.4.4"))];
    let roster = assemble_roster(&leaders, &cluster, &Vec::new());
    assert_eq!(roster.validators.len() + roster.unknown.len(), leaders.len());
    assert_eq!(roster.validators.len(), 2);
}

#[test]
fn find_contact_takes_the_first_entry_of_an_identity() {
    let cluster = vec![node("a", Some("1.1.1.1")), node("b", None), node("a", Some("2.2.2.2"))];
    assert_eq!(find_contact(&cluster, &"a".to_string()), Some(0));
    assert_eq!(find_contact(&cluster, &"b".to_string()), Some(1));
    assert_eq!(find_contact(&cluster, &"c".to_string()), None);
    let roster = assemble_roster(&vec![leader("a", 1)], &cluster, &Vec::new());
    assert_eq!(roster.validators[0].ip, Some("1.1.1.1".to_string()));
}

#[test]
fn find_stake_takes_the_last_account_of_a_node() {
    let votes = vec![vote("a", 10), vote("b", 20), vote("a", 30)];
    assert_eq!(find_stake(&votes, &"a".to_string()), Some(30));
    assert_eq!(find_stake(&votes, &"b".to_string()), Some(20));
    assert_eq!(find_stake(&votes, &"c".to_string()), None);
    assert_eq!(find_stake(&Vec::new(), &"a".to_string()), None);
}

#[test]
fn find_slots_takes_the_last_entry_of_a_leader() {
    let leaders = vec![leader("a", 4), leader("b", 8), leader("a", 16)];
    assert_eq!(find_slots(&leaders, &"a".to_string()), Some(16));
    assert_eq!(find_slots(&leaders, &"b".to_string()), Some(8));
    assert_eq!(find_slots(&leaders, &"c".to_string()), None);
}

#[test]
fn count_without_address_counts_missing_addresses() {
    let validators = vec![
        participant("a", Some("1.1.1.1")),
        participant("b", None),
        participant("c", None),
        participant("d", Some("")),
    ];
    assert_eq!(count_without_address(&validators), 2);
    assert_eq!(count_without_address(&Vec::new()), 0);
}

#[test]
fn count_sharing_address_is_participants_less_distinct_addresses() {
    let validators = vec![
        participant("a", Some("1.1.1.1")),
        participant("b", Some("1.1.1.1")),
        participant("c", None),
        participant("d", Some("2.2.2.2")),
        participant("e", Some("1.1.1.1")),
    ];
    assert_eq!(count_sharing_address(&validators), 3);
    assert_eq!(count_sharing_address(&Vec::new()), 0);
    assert_eq!(count_sharing_address(&vec![participant("a", Some("1.1.1.1"))]), 0);
    assert_eq!(count_sharing_address(&vec![participant("a", None)]), 1);
}
