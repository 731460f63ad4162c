//! The answer to one lookup: metadata by address.

use crate::ip_data::{stamped, IpDataView, ValidatorIpData};
use vstd::prelude::*;

verus! {

/// What a list of decoded entries holds, as plain values.
pub open spec fn entry_views(entries: Seq<(String, ValidatorIpData)>) -> Seq<
    (Seq<char>, IpDataView),
> {
    entries.map_values(|entry: (String, ValidatorIpData)| (entry.0@, entry.1@))
}

/// The mapping that a list of entries stands for. Each entry puts its
/// metadata under its address, with the address written into the metadata;
/// where an address occurs more than once, the later entry replaces the
/// earlier one.
pub open spec fn mapping_of(entries: Seq<(Seq<char>, IpDataView)>) -> Map<Seq<char>, IpDataView>
    decreases entries.len(),
{
    if entries.len() == 0 {
        Map::empty()
    } else {
        let last = entries.last();
        mapping_of(entries.drop_last()).insert(last.0, stamped(last.0, last.1))
    }
}

/// An address that no entry names is not in the mapping.
pub proof fn lemma_mapping_without(entries: Seq<(Seq<char>, IpDataView)>, ip: Seq<char>)
    requires
        forall|j: int| 0 <= j < entries.len() ==> (#[trigger] entries[j]).0 != ip,
    ensures
        !mapping_of(entries).dom().contains(ip),
    decreases entries.len(),
{
    if entries.len() > 0 {
        lemma_mapping_without(entries.drop_last(), ip);
    }
}

/// The mapping holds, for an address, the metadata of the last entry that
/// names it.
pub proof fn lemma_mapping_last_entry(entries: Seq<(Seq<char>, IpDataView)>, i: int, ip: Seq<char>)
    requires
        0 <= i < entries.len(),
        entries[i].0 == ip,
        forall|j: int| i < j < entries.len() ==> (#[trigger] entries[j]).0 != ip,
    ensures
        mapping_of(entries).dom().contains(ip),
        mapping_of(entries)[ip] == stamped(ip, entries[i].1),
    decreases entries.len(),
{
    if i < entries.len() - 1 {
        lemma_mapping_last_entry(entries.drop_last(), i, ip);
    }
}

/// Every address in the mapping carries metadata that names that address.
pub proof fn lemma_mapping_stamped(entries: Seq<(Seq<char>, IpDataView)>, ip: Seq<char>)
    requires
        mapping_of(entries).dom().contains(ip),
    ensures
        mapping_of(entries)[ip].ip_address == Some(ip),
    decreases entries.len(),
{
    if entries.len() > 0 && entries.last().0 != ip {
        lemma_mapping_stamped(entries.drop_last(), ip);
    }
}

/// Metadata by address, as one lookup returned it. The address under which
/// the provider sent a piece of metadata is written into that metadata.
pub struct IpDataMap {
    entries: Vec<(String, ValidatorIpData)>,
}

impl View for IpDataMap {
    type V = Map<Seq<char>, IpDataView>;

    closed spec fn view(&self) -> Map<Seq<char>, IpDataView> {
        mapping_of(entry_views(self.entries@))
    }
}

impl IpDataMap {
    #[verifier::type_invariant]
    spec fn entries_are_stamped(&self) -> bool {
        forall|i: int|
            0 <= i < self.entries@.len() ==> (#[trigger] self.entries@[i]).1@.ip_address == Some(
                self.entries@[i].0@,
            )
    }

    /// The mapping without any address.
    pub fn new() -> (mapping: IpDataMap)
        ensures
            mapping@ == Map::<Seq<char>, IpDataView>::empty(),
    {
        IpDataMap { entries: Vec::new() }
    }

    /// The mapping with `data` put under `ip`, and `ip` written into the
    /// address field of `data`. What the mapping held under `ip` before is
    /// replaced.
    pub fn with_entry(self, ip: String, data: ValidatorIpData) -> (mapping: IpDataMap)
        ensures
            mapping@ == self@.insert(ip@, stamped(ip@, data@)),
    {
        proof {
            use_type_invariant(&self);
        }
        let ghost before = entry_views(self.entries@);
        let mut entries = self.entries;
        let record = data.stamp(&ip);
        entries.push((ip, record));
        proof {
            let after = entry_views(entries@);
            assert(after.drop_last() =~= before);
        }
        IpDataMap { entries }
    }

    /// The metadata held under `ip`, if there is any.
    pub fn get(&self, ip: &String) -> (found: Option<&ValidatorIpData>)
        ensures
            match found {
                Some(data) => self@.dom().contains(ip@) && data@ == self@[ip@],
                None => !self@.dom().contains(ip@),
            },
    {
        proof {
            use_type_invariant(self);
        }
        let ghost views = entry_views(self.entries@);
        let mut i: usize = self.entries.len();
        while i > 0
            invariant
                i <= self.entries@.len(),
                views == entry_views(self.entries@),
                forall|j: int|
                    0 <= j < views.len() ==> (#[trigger] views[j]).1.ip_address == Some(
                        views[j].0,
                    ),
                forall|j: int| i <= j < views.len() ==> (#[trigger] views[j]).0 != ip@,
            decreases i,
        {
            i -= 1;
            if self.entries[i].0 == *ip {
                proof {
                    lemma_mapping_last_entry(views, i as int, ip@);
                }
                return Some(&self.entries[i].1);
            }
        }
        proof {
            lemma_mapping_without(views, ip@);
        }
        None
    }

    /// The mapping that `entries` stand for: each piece of metadata under its
    /// address, a later entry replacing an earlier one with the same address.
    pub fn from_entries(entries: &[(String, ValidatorIpData)]) -> (mapping: IpDataMap)
        ensures
            mapping@ == mapping_of(entry_views(entries@)),
    {
        let mut mapping = IpDataMap::new();
        let mut i: usize = 0;
        while i < entries.len()
            invariant
                i <= entries@.len(),
                mapping@ == mapping_of(entry_views(entries@.take(i as int))),
            decreases entries@.len() - i,
        {
            proof {
                let next = entry_views(entries@.take(i + 1));
                assert(next.drop_last() =~= entry_views(entries@.take(i as int)));
            }
            mapping = mapping.with_entry(entries[i].0.clone(), entries[i].1.clone());
            i += 1;
        }
        proof {
            assert(entries@.take(i as int) =~= entries@);
        }
        mapping
    }
}

} // verus!
