//! Reconciliation: joining the metadata that one lookup returned with the
//! participants of the batch it was made for.

use crate::ip_data::{merged, IpDataView, ValidatorIpData};
use crate::ip_data_map::IpDataMap;
use crate::lookup::batch_addresses;
use crate::validator::{ValidatorInfo, ValidatorView};
use vstd::prelude::*;

verus! {

/// The record of one participant, where there is one: the participant
/// declared an address and the mapping holds metadata under exactly that
/// address.
pub open spec fn resolved(validator: ValidatorView, mapping: Map<Seq<char>, IpDataView>) -> Option<
    IpDataView,
> {
    match validator.ip {
        Some(ip) => if mapping.dom().contains(ip) {
            Some(merged(validator, mapping[ip]))
        } else {
            None
        },
        None => None,
    }
}

/// `resolved` against a fixed mapping, as a function of the participant.
pub open spec fn resolver(mapping: Map<Seq<char>, IpDataView>) -> spec_fn(ValidatorView) -> Option<
    IpDataView,
> {
    |validator: ValidatorView| resolved(validator, mapping)
}

/// The records of a batch: one for each participant that resolves, in the
/// order of the batch.
pub open spec fn reconciled(batch: Seq<ValidatorView>, mapping: Map<Seq<char>, IpDataView>) -> Seq<
    IpDataView,
> {
    batch.filter_map(resolver(mapping))
}

/// Joins the metadata in `mapping` with the participants of `batch`. A
/// participant without an address, or with an address that `mapping` does not
/// hold, gets no record; every other participant gets the metadata of its
/// address with its own address, identity, stake and slot count written over
/// it. The records come in the order of the batch.
pub fn reconcile(batch: &[ValidatorInfo], mapping: &IpDataMap) -> (records: Vec<ValidatorIpData>)
    ensures
        records.deep_view() == reconciled(batch.deep_view(), mapping@),
        records@.len() <= batch_addresses(batch.deep_view()).len(),
{
    let mut records: Vec<ValidatorIpData> = Vec::new();
    let mut i: usize = 0;
    while i < batch.len()
        invariant
            i <= batch@.len(),
            records.deep_view() == reconciled(batch.deep_view().take(i as int), mapping@),
        decreases batch@.len() - i,
    {
        let validator = &batch[i];
        proof {
            batch.deep_view().lemma_filter_map_take_succ(resolver(mapping@), i as int);
        }
        match &validator.ip {
            Some(ip) => {
                match mapping.get(ip) {
                    Some(data) => {
                        let record = data.clone().merge(validator);
                        records.push(record);
                    },
                    None => {},
                }
            },
            None => {},
        }
        i += 1;
    }
    proof {
        assert(batch.deep_view().take(i as int) =~= batch.deep_view());
        lemma_records_at_most_addresses(batch.deep_view(), mapping@);
    }
    records
}

/// Why a participant got no record.
#[derive(Debug, PartialEq, Eq)]
pub enum Unresolved {
    /// The participant declared no address.
    NoIp { pubkey: String },
    /// The lookup returned nothing under the participant's address.
    NoData { pubkey: String, ip: String },
}

/// The mathematical content of an [`Unresolved`].
pub enum UnresolvedView {
    NoIp { pubkey: Seq<char> },
    NoData { pubkey: Seq<char>, ip: Seq<char> },
}

impl View for Unresolved {
    type V = UnresolvedView;

    open spec fn view(&self) -> UnresolvedView {
        match self {
            Unresolved::NoIp { pubkey } => UnresolvedView::NoIp { pubkey: pubkey@ },
            Unresolved::NoData { pubkey, ip } => UnresolvedView::NoData {
                pubkey: pubkey@,
                ip: ip@,
            },
        }
    }
}

impl DeepView for Unresolved {
    type V = UnresolvedView;

    open spec fn deep_view(&self) -> UnresolvedView {
        self@
    }
}

/// Why one participant gets no record, where it gets none.
pub open spec fn unresolved(validator: ValidatorView, mapping: Map<Seq<char>, IpDataView>) -> Option<
    UnresolvedView,
> {
    match validator.ip {
        Some(ip) => if mapping.dom().contains(ip) {
            None
        } else {
            Some(UnresolvedView::NoData { pubkey: validator.pubkey, ip })
        },
        None => Some(UnresolvedView::NoIp { pubkey: validator.pubkey }),
    }
}

/// `unresolved` against a fixed mapping, as a function of the participant.
pub open spec fn skipper(mapping: Map<Seq<char>, IpDataView>) -> spec_fn(ValidatorView) -> Option<
    UnresolvedView,
> {
    |validator: ValidatorView| unresolved(validator, mapping)
}

/// The participants of a batch that get no record, each with the reason, in
/// the order of the batch.
pub open spec fn skipped(batch: Seq<ValidatorView>, mapping: Map<Seq<char>, IpDataView>) -> Seq<
    UnresolvedView,
> {
    batch.filter_map(skipper(mapping))
}

/// Names the participants of `batch` that `reconcile` leaves out, and why:
/// those without an address, and those whose address `mapping` does not hold.
pub fn unresolved_participants(batch: &[ValidatorInfo], mapping: &IpDataMap) -> (left_out: Vec<
    Unresolved,
>)
    ensures
        left_out.deep_view() == skipped(batch.deep_view(), mapping@),
        left_out@.len() + reconciled(batch.deep_view(), mapping@).len() == batch@.len(),
{
    let mut left_out: Vec<Unresolved> = Vec::new();
    let mut i: usize = 0;
    while i < batch.len()
        invariant
            i <= batch@.len(),
            left_out.deep_view() == skipped(batch.deep_view().take(i as int), mapping@),
        decreases batch@.len() - i,
    {
        let validator = &batch[i];
        proof {
            batch.deep_view().lemma_filter_map_take_succ(skipper(mapping@), i as int);
        }
        match &validator.ip {
            Some(ip) => {
                if mapping.get(ip).is_none() {
                    let reason = Unresolved::NoData {
                        pubkey: validator.pubkey.clone(),
                        ip: ip.clone(),
                    };
                    left_out.push(reason);
                }
            },
            None => {
                let reason = Unresolved::NoIp { pubkey: validator.pubkey.clone() };
                left_out.push(reason);
            },
        }
        i += 1;
    }
    proof {
        assert(batch.deep_view().take(i as int) =~= batch.deep_view());
        lemma_every_participant_accounted_for(batch.deep_view(), mapping@);
    }
    left_out
}

/// Reconciling a list is reconciling its front part and its back part, one
/// after the other: what a participant gets does not depend on the
/// participants around it.
pub proof fn lemma_reconciled_concat(
    front: Seq<ValidatorView>,
    back: Seq<ValidatorView>,
    mapping: Map<Seq<char>, IpDataView>,
)
    ensures
        reconciled(front + back, mapping) == reconciled(front, mapping) + reconciled(back, mapping),
    decreases back.len(),
{
    if back.len() > 0 {
        lemma_reconciled_concat(front, back.drop_last(), mapping);
        assert((front + back).drop_last() =~= front + back.drop_last());
    }
}

/// A batch never yields more records than its participants declared
/// addresses.
pub proof fn lemma_records_at_most_addresses(
    batch: Seq<ValidatorView>,
    mapping: Map<Seq<char>, IpDataView>,
)
    ensures
        reconciled(batch, mapping).len() <= batch_addresses(batch).len(),
        batch_addresses(batch).len() == batch.filter(|validator: ValidatorView| validator.ip is Some).len(),
        batch_addresses(batch).len() <= batch.len(),
    decreases batch.len(),
{
    reveal(Seq::filter);
    if batch.len() > 0 {
        lemma_records_at_most_addresses(batch.drop_last(), mapping);
    }
}

/// Every participant of a batch either gets a record or is named among those
/// left out, never both.
pub proof fn lemma_every_participant_accounted_for(
    batch: Seq<ValidatorView>,
    mapping: Map<Seq<char>, IpDataView>,
)
    ensures
        reconciled(batch, mapping).len() + skipped(batch, mapping).len() == batch.len(),
    decreases batch.len(),
{
    if batch.len() > 0 {
        lemma_every_participant_accounted_for(batch.drop_last(), mapping);
    }
}

/// A participant whose address the mapping does not hold gets no record, and
/// the records of the batch are those the batch would have without it: the
/// participants before and after it get what they get anyway.
pub proof fn lemma_unmatched_participant_left_out(
    before: Seq<ValidatorView>,
    validator: ValidatorView,
    after: Seq<ValidatorView>,
    mapping: Map<Seq<char>, IpDataView>,
)
    requires
        validator.ip matches Some(ip) && !mapping.dom().contains(ip),
    ensures
        resolved(validator, mapping) is None,
        reconciled(before + seq![validator] + after, mapping) == reconciled(before + after, mapping),
        reconciled(before + seq![validator] + after, mapping) == reconciled(before, mapping)
            + reconciled(after, mapping),
{
    let single = seq![validator];
    Seq::lemma_filter_map_singleton(validator, resolver(mapping));
    lemma_reconciled_concat(before, single, mapping);
    lemma_reconciled_concat(before + single, after, mapping);
    lemma_reconciled_concat(before, after, mapping);
}

/// Taking the entry of one address out of the mapping takes away the records
/// of the participants that declared this address, and changes nothing else:
/// the records are those that the participants with other addresses get from
/// the full mapping.
pub proof fn lemma_missing_entry_affects_only_its_address(
    batch: Seq<ValidatorView>,
    mapping: Map<Seq<char>, IpDataView>,
    ip: Seq<char>,
)
    ensures
        reconciled(batch, mapping.remove(ip)) == reconciled(
            batch.filter(|validator: ValidatorView| validator.ip != Some(ip)),
            mapping,
        ),
    decreases batch.len(),
{
    reveal(Seq::filter);
    let others = |validator: ValidatorView| validator.ip != Some(ip);
    if batch.len() > 0 {
        let last = batch.last();
        lemma_missing_entry_affects_only_its_address(batch.drop_last(), mapping, ip);
        if others(last) {
            let kept = batch.drop_last().filter(others);
            assert(kept.push(last).drop_last() =~= kept);
        }
    }
}

/// Every record of a batch is the record of one of its participants: the
/// metadata that the mapping holds under the participant's address, with the
/// participant's own address, identity, stake and slot count in place of
/// whatever the metadata said of them.
pub proof fn lemma_records_follow_participants(
    batch: Seq<ValidatorView>,
    mapping: Map<Seq<char>, IpDataView>,
    k: int,
)
    requires
        0 <= k < reconciled(batch, mapping).len(),
    ensures
        exists|j: int|
            0 <= j < batch.len() && (#[trigger] batch[j]).ip is Some && mapping.dom().contains(
                batch[j].ip.unwrap(),
            ) && reconciled(batch, mapping)[k] == merged(batch[j], mapping[batch[j].ip.unwrap()])
                && reconciled(batch, mapping)[k].ip_address == batch[j].ip && reconciled(
                batch,
                mapping,
            )[k].pubkey == Some(batch[j].pubkey) && reconciled(batch, mapping)[k].stake
                == batch[j].stake && reconciled(batch, mapping)[k].total_slots
                == batch[j].total_slots,
{
    let records = reconciled(batch, mapping);
    batch.lemma_filter_map_contains(resolver(mapping), records[k]);
    let validator = choose|validator: ValidatorView| #[trigger]
        batch.contains(validator) && resolver(mapping)(validator) == Some(records[k]);
    let j = choose|j: int| 0 <= j < batch.len() && batch[j] == validator;
}

/// Reconciling is repeatable: two runs of `reconcile` on the same batch and
/// the same mapping give the same records.
pub proof fn lemma_reconcile_repeatable(
    batch: &[ValidatorInfo],
    mapping: &IpDataMap,
    first: Vec<ValidatorIpData>,
    second: Vec<ValidatorIpData>,
)
    requires
        call_ensures(reconcile, (batch, mapping), first),
        call_ensures(reconcile, (batch, mapping), second),
    ensures
        first.deep_view() == second.deep_view(),
{
}

} // verus!
