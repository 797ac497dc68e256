//! Reverse lookup: the names under which addresses are found again, and the
//! addresses whose pointers follow a deletion.
//!
//! A pointer record lives under a name that is made of the address, in a zone
//! of its own, which is looked up like any other. When address records are
//! removed, the pointers to them are removed too, one address at a time, and
//! as far as that succeeds.

use crate::notation::{ipv4_reverse_text, ipv6_reverse_text};
use crate::parse::{reverse_name_v4, reverse_name_v6};
use crate::record::{DataModel, RecordData, RecordModel, ResourceRecord};
use vstd::prelude::*;

verus! {

/// The name under which the address in `data` is looked up in reverse,
/// `None` where `data` holds no address.
pub open spec fn reverse_name_of(data: DataModel) -> Option<Seq<char>> {
    match data {
        DataModel::A { octets } => Some(ipv4_reverse_text(octets)),
        DataModel::AAAA { segments } => Some(ipv6_reverse_text(segments)),
        _ => None,
    }
}

impl RecordData {
    /// The name under which the address in this data is looked up in reverse,
    /// `None` where the data holds no address.
    pub fn reverse_name(&self) -> (name: Option<String>)
        ensures
            match name {
                Some(text) => reverse_name_of(self@) == Some(text@),
                None => reverse_name_of(self@) is None,
            },
    {
        match self {
            RecordData::A { octets } => Some(reverse_name_v4(octets)),
            RecordData::AAAA { segments } => Some(reverse_name_v6(segments)),
            _ => None,
        }
    }
}

/// The names under which the addresses among `records` are looked up in
/// reverse, in the order of the records. Records that hold no address have
/// no part in it.
pub open spec fn sweep_targets(records: Seq<RecordModel>) -> Seq<Seq<char>>
    decreases records.len(),
{
    if records.len() == 0 {
        Seq::empty()
    } else {
        let before = sweep_targets(records.drop_last());
        match reverse_name_of(records.last().rdata) {
            Some(name) => before.push(name),
            None => before,
        }
    }
}

/// Names the reverse lookups of the addresses among `records`, in the order
/// of the records.
pub fn reverse_targets(records: &Vec<ResourceRecord>) -> (targets: Vec<String>)
    ensures
        targets.deep_view() == sweep_targets(records.deep_view()),
{
    let mut targets: Vec<String> = Vec::new();
    let mut i: usize = 0;
    while i < records.len()
        invariant
            i <= records.len(),
            targets.deep_view() == sweep_targets(records.deep_view().take(i as int)),
        decreases records.len() - i,
    {
        let ghost seen = records.deep_view().take(i as int);
        let ghost next = records.deep_view().take(i + 1);
        assert(next.drop_last() =~= seen);
        match records[i].rdata.reverse_name() {
            Some(name) => {
                targets.push(name);
            },
            None => {},
        }
        i += 1;
    }
    assert(records.deep_view().take(i as int) =~= records.deep_view());
    targets
}

} // verus!
