//! The roster: which participants an enrichment run is made for, as the
//! leader schedule, the cluster's contact list and the vote accounts give them.

use crate::lookup::{batch_addresses, declared_ip};
use crate::validator::{clone_text, text_view, ValidatorInfo, ValidatorView};
use vstd::prelude::*;

verus! {

/// One leader of the schedule: its identity and the number of slots it leads.
#[derive(Debug, PartialEq, Eq)]
pub struct SlotLeader {
    pub pubkey: String,
    pub slots: u64,
}

/// What the cluster says of one node: its identity and the address of its
/// QUIC port, if it has one.
#[derive(Debug, PartialEq, Eq)]
pub struct ClusterNode {
    pub pubkey: String,
    pub ip: Option<String>,
}

/// One vote account: the node it votes for and the stake delegated to it.
#[derive(Debug, PartialEq, Eq)]
pub struct VoteAccount {
    pub node_pubkey: String,
    pub activated_stake: u64,
}

/// The mathematical content of a [`SlotLeader`].
pub struct SlotLeaderView {
    pub pubkey: Seq<char>,
    pub slots: u64,
}

/// The mathematical content of a [`ClusterNode`].
pub struct ClusterNodeView {
    pub pubkey: Seq<char>,
    pub ip: Option<Seq<char>>,
}

/// The mathematical content of a [`VoteAccount`].
pub struct VoteAccountView {
    pub node_pubkey: Seq<char>,
    pub activated_stake: u64,
}

impl View for SlotLeader {
    type V = SlotLeaderView;

    open spec fn view(&self) -> SlotLeaderView {
        SlotLeaderView { pubkey: self.pubkey@, slots: self.slots }
    }
}

impl DeepView for SlotLeader {
    type V = SlotLeaderView;

    open spec fn deep_view(&self) -> SlotLeaderView {
        self@
    }
}

impl View for ClusterNode {
    type V = ClusterNodeView;

    open spec fn view(&self) -> ClusterNodeView {
        ClusterNodeView { pubkey: self.pubkey@, ip: text_view(self.ip) }
    }
}

impl DeepView for ClusterNode {
    type V = ClusterNodeView;

    open spec fn deep_view(&self) -> ClusterNodeView {
        self@
    }
}

impl View for VoteAccount {
    type V = VoteAccountView;

    open spec fn view(&self) -> VoteAccountView {
        VoteAccountView { node_pubkey: self.node_pubkey@, activated_stake: self.activated_stake }
    }
}

impl DeepView for VoteAccount {
    type V = VoteAccountView;

    open spec fn deep_view(&self) -> VoteAccountView {
        self@
    }
}

/// The contact entry of a node: the first entry of the list with its identity.
pub open spec fn contact_of(cluster: Seq<ClusterNodeView>, pubkey: Seq<char>) -> Option<
    ClusterNodeView,
>
    decreases cluster.len(),
{
    if cluster.len() == 0 {
        None
    } else if cluster.first().pubkey == pubkey {
        Some(cluster.first())
    } else {
        contact_of(cluster.drop_first(), pubkey)
    }
}

/// The stake of a node: that of the last vote account in the list that votes
/// for it.
pub open spec fn stake_of(vote_accounts: Seq<VoteAccountView>, pubkey: Seq<char>) -> Option<u64>
    decreases vote_accounts.len(),
{
    if vote_accounts.len() == 0 {
        None
    } else if vote_accounts.last().node_pubkey == pubkey {
        Some(vote_accounts.last().activated_stake)
    } else {
        stake_of(vote_accounts.drop_last(), pubkey)
    }
}

/// The number of slots a node leads: that of the last entry of the schedule
/// with its identity.
pub open spec fn slots_of(leaders: Seq<SlotLeaderView>, pubkey: Seq<char>) -> Option<u64>
    decreases leaders.len(),
{
    if leaders.len() == 0 {
        None
    } else if leaders.last().pubkey == pubkey {
        Some(leaders.last().slots)
    } else {
        slots_of(leaders.drop_last(), pubkey)
    }
}

/// The participant that a leader of the schedule becomes, where the cluster
/// lists a contact for it: identity and address from the contact entry, stake
/// from the vote accounts, slot count from the schedule.
pub open spec fn participant_of(
    leader: SlotLeaderView,
    leaders: Seq<SlotLeaderView>,
    cluster: Seq<ClusterNodeView>,
    vote_accounts: Seq<VoteAccountView>,
) -> Option<ValidatorView> {
    match contact_of(cluster, leader.pubkey) {
        Some(node) => Some(
            ValidatorView {
                pubkey: node.pubkey,
                stake: stake_of(vote_accounts, node.pubkey),
                total_slots: slots_of(leaders, node.pubkey),
                ip: node.ip,
            },
        ),
        None => None,
    }
}

/// `participant_of` for fixed lists, as a function of the leader.
pub open spec fn enlist(
    leaders: Seq<SlotLeaderView>,
    cluster: Seq<ClusterNodeView>,
    vote_accounts: Seq<VoteAccountView>,
) -> spec_fn(SlotLeaderView) -> Option<ValidatorView> {
    |leader: SlotLeaderView| participant_of(leader, leaders, cluster, vote_accounts)
}

/// The identity of a leader for which the cluster lists no contact, as a
/// function of the leader.
pub open spec fn missing(cluster: Seq<ClusterNodeView>) -> spec_fn(SlotLeaderView) -> Option<
    Seq<char>,
> {
    |leader: SlotLeaderView|
        if contact_of(cluster, leader.pubkey) is None {
            Some(leader.pubkey)
        } else {
            None
        }
}

/// The participants of a run, and the leaders that could not become one.
#[derive(Debug, PartialEq, Eq)]
pub struct Roster {
    /// One participant for each leader with a contact, in schedule order.
    pub validators: Vec<ValidatorInfo>,
    /// The identities of the leaders without a contact, in schedule order.
    pub unknown: Vec<String>,
}

/// Finds the contact entry of `pubkey`: the place of the first entry with
/// that identity.
pub fn find_contact(cluster: &[ClusterNode], pubkey: &String) -> (found: Option<usize>)
    ensures
        match found {
            Some(i) => {
                &&& i < cluster@.len()
                &&& cluster@[i as int].pubkey@ == pubkey@
                &&& forall|j: int| 0 <= j < i ==> (#[trigger] cluster@[j]).pubkey@ != pubkey@
                &&& contact_of(cluster.deep_view(), pubkey@) == Some(cluster@[i as int]@)
            },
            None => {
                &&& forall|j: int|
                    0 <= j < cluster@.len() ==> (#[trigger] cluster@[j]).pubkey@ != pubkey@
                &&& contact_of(cluster.deep_view(), pubkey@) is None
            },
        },
{
    let ghost nodes = cluster.deep_view();
    let mut i: usize = 0;
    proof {
        assert(nodes.skip(0) =~= nodes);
    }
    while i < cluster.len()
        invariant
            i <= cluster@.len(),
            nodes == cluster.deep_view(),
            forall|j: int| 0 <= j < i ==> (#[trigger] cluster@[j]).pubkey@ != pubkey@,
            contact_of(nodes, pubkey@) == contact_of(nodes.skip(i as int), pubkey@),
        decreases cluster@.len() - i,
    {
        proof {
            assert(nodes.skip(i as int).drop_first() =~= nodes.skip(i + 1));
        }
        if cluster[i].pubkey == *pubkey {
            return Some(i);
        }
        i += 1;
    }
    None
}

/// The stake that the vote accounts give for `pubkey`.
pub fn find_stake(vote_accounts: &[VoteAccount], pubkey: &String) -> (stake: Option<u64>)
    ensures
        stake == stake_of(vote_accounts.deep_view(), pubkey@),
{
    let ghost accounts = vote_accounts.deep_view();
    let mut i: usize = vote_accounts.len();
    proof {
        assert(accounts.take(i as int) =~= accounts);
    }
    while i > 0
        invariant
            i <= vote_accounts@.len(),
            accounts == vote_accounts.deep_view(),
            stake_of(accounts, pubkey@) == stake_of(accounts.take(i as int), pubkey@),
        decreases i,
    {
        proof {
            assert(accounts.take(i as int).drop_last() =~= accounts.take(i - 1));
        }
        i -= 1;
        if vote_accounts[i].node_pubkey == *pubkey {
            return Some(vote_accounts[i].activated_stake);
        }
    }
    None
}

/// The number of slots that the schedule gives for `pubkey`.
pub fn find_slots(leaders: &[SlotLeader], pubkey: &String) -> (slots: Option<u64>)
    ensures
        slots == slots_of(leaders.deep_view(), pubkey@),
{
    let ghost schedule = leaders.deep_view();
    let mut i: usize = leaders.len();
    proof {
        assert(schedule.take(i as int) =~= schedule);
    }
    while i > 0
        invariant
            i <= leaders@.len(),
            schedule == leaders.deep_view(),
            slots_of(schedule, pubkey@) == slots_of(schedule.take(i as int), pubkey@),
        decreases i,
    {
        proof {
            assert(schedule.take(i as int).drop_last() =~= schedule.take(i - 1));
        }
        i -= 1;
        if leaders[i].pubkey == *pubkey {
            return Some(leaders[i].slots);
        }
    }
    None
}

/// Draws up the roster of a run. Each leader of the schedule for which the
/// cluster lists a contact becomes a participant, with the stake that the
/// vote accounts give for it and the slots that the schedule gives for it; a
/// leader without a contact is set aside as unknown. Both lists keep the order
/// of the schedule.
pub fn assemble_roster(
    leaders: &[SlotLeader],
    cluster: &[ClusterNode],
    vote_accounts: &[VoteAccount],
) -> (roster: Roster)
    ensures
        roster.validators.deep_view() == leaders.deep_view().filter_map(
            enlist(leaders.deep_view(), cluster.deep_view(), vote_accounts.deep_view()),
        ),
        roster.unknown.deep_view() == leaders.deep_view().filter_map(missing(cluster.deep_view())),
        roster.validators@.len() + roster.unknown@.len() == leaders@.len(),
{
    let ghost schedule = leaders.deep_view();
    let ghost enlisting = enlist(schedule, cluster.deep_view(), vote_accounts.deep_view());
    let ghost setting_aside = missing(cluster.deep_view());
    let mut validators: Vec<ValidatorInfo> = Vec::new();
    let mut unknown: Vec<String> = Vec::new();
    let mut i: usize = 0;
    while i < leaders.len()
        invariant
            i <= leaders@.len(),
            schedule == leaders.deep_view(),
            enlisting == enlist(schedule, cluster.deep_view(), vote_accounts.deep_view()),
            setting_aside == missing(cluster.deep_view()),
            validators.deep_view() == schedule.take(i as int).filter_map(enlisting),
            unknown.deep_view() == schedule.take(i as int).filter_map(setting_aside),
            validators@.len() + unknown@.len() == i,
        decreases leaders@.len() - i,
    {
        proof {
            schedule.lemma_filter_map_take_succ(enlisting, i as int);
            schedule.lemma_filter_map_take_succ(setting_aside, i as int);
        }
        let leader = &leaders[i];
        match find_contact(cluster, &leader.pubkey) {
            Some(at) => {
                let node = &cluster[at];
                let validator = ValidatorInfo {
                    pubkey: node.pubkey.clone(),
                    stake: find_stake(vote_accounts, &node.pubkey),
                    total_slots: find_slots(leaders, &node.pubkey),
                    ip: clone_text(&node.ip),
                };
                validators.push(validator);
            },
            None => {
                let pubkey = leader.pubkey.clone();
                unknown.push(pubkey);
            },
        }
        i += 1;
    }
    proof {
        assert(schedule.take(i as int) =~= schedule);
    }
    Roster { validators, unknown }
}

/// The participant's address is missing, as a function of the participant.
pub open spec fn lacks_address() -> spec_fn(ValidatorView) -> bool {
    |validator: ValidatorView| validator.ip is None
}

/// Counts the participants that declared no address.
pub fn count_without_address(validators: &[ValidatorInfo]) -> (count: usize)
    ensures
        count == validators.deep_view().filter(lacks_address()).len(),
{
    let ghost views = validators.deep_view();
    let mut count: usize = 0;
    let mut i: usize = 0;
    while i < validators.len()
        invariant
            i <= validators@.len(),
            views == validators.deep_view(),
            count == views.take(i as int).filter(lacks_address()).len(),
            count <= i,
        decreases validators@.len() - i,
    {
        proof {
            assert(views.take(i + 1) =~= views.take(i as int).push(views[i as int]));
            views.take(i as int).lemma_filter_push(views[i as int], lacks_address());
        }
        if validators[i].ip.is_none() {
            count += 1;
        }
        i += 1;
    }
    proof {
        assert(views.take(i as int) =~= views);
    }
    count
}

/// Counts the participants beyond one per declared address: the number of
/// participants less the number of distinct addresses among them. A
/// participant without an address counts among the surplus.
pub fn count_sharing_address(validators: &[ValidatorInfo]) -> (count: usize)
    ensures
        count == validators@.len() - batch_addresses(validators.deep_view()).to_set().len(),
{
    let ghost views = validators.deep_view();
    let mut distinct: Vec<&String> = Vec::new();
    let mut i: usize = 0;
    while i < validators.len()
        invariant
            i <= validators@.len(),
            views == validators.deep_view(),
            distinct@.len() <= i,
            distinct@.map_values(|ip: &String| ip@).no_duplicates(),
            distinct@.map_values(|ip: &String| ip@).to_set() == batch_addresses(
                views.take(i as int),
            ).to_set(),
        decreases validators@.len() - i,
    {
        let ghost seen = distinct@.map_values(|ip: &String| ip@);
        let ghost addresses = batch_addresses(views.take(i as int));
        proof {
            views.lemma_filter_map_take_succ(declared_ip(), i as int);
        }
        match &validators[i].ip {
            Some(ip) => {
                let mut known = false;
                let mut j: usize = 0;
                while j < distinct.len()
                    invariant
                        j <= distinct@.len(),
                        seen == distinct@.map_values(|ip: &String| ip@),
                        known <==> exists|k: int| 0 <= k < j && #[trigger] seen[k] == ip@,
                    decreases distinct@.len() - j,
                {
                    proof {
                        assert(seen[j as int] == distinct@[j as int]@);
                    }
                    if *distinct[j] == *ip {
                        known = true;
                    }
                    j += 1;
                }
                proof {
                    assert(batch_addresses(views.take(i + 1)) =~= addresses.push(ip@));
                    addresses.lemma_push_to_set_commute(ip@);
                }
                if !known {
                    distinct.push(ip);
                    proof {
                        let grown = distinct@.map_values(|ip: &String| ip@);
                        assert(grown =~= seen.push(ip@));
                        seen.lemma_push_to_set_commute(ip@);
                    }
                }
            },
            None => {},
        }
        i += 1;
    }
    proof {
        assert(views.take(i as int) =~= views);
        distinct@.map_values(|ip: &String| ip@).unique_seq_to_set();
    }
    validators.len() - distinct.len()
}

} // verus!
