//! The zone that manages a name, and what the server holds at that name.
//!
//! Two lookups at a name tell both: one for records of every type, one for
//! name servers. The server's word is taken for the zone: the owner of the
//! first name-server record it reports is the zone.

use crate::error::{ErrorModel, UpdateError};
use crate::record::{DnsRecordType, RecordModel, ResourceRecord, TYPE_RRSIG};
use crate::session::{Response, ResponseModel, RCODE_NO_ERROR, RCODE_NX_DOMAIN};
use vstd::prelude::*;

verus! {

/// The zone that an update has to be addressed to, and the records that the
/// server holds at the name and that matter to the update.
#[derive(Debug, Clone, PartialEq, Eq)]
pub struct ZoneContext {
    pub zone_name: String,
    pub existing: Vec<ResourceRecord>,
}

/// The mathematical model of [`ZoneContext`].
pub struct ContextModel {
    pub zone_name: Seq<char>,
    pub existing: Seq<RecordModel>,
}

impl View for ZoneContext {
    type V = ContextModel;

    open spec fn view(&self) -> ContextModel {
        ContextModel { zone_name: self.zone_name@, existing: self.existing.deep_view() }
    }
}

/// True of the two statuses with which a lookup can go on: success, and
/// "no such name".
pub open spec fn status_acceptable(code: u16) -> bool {
    code == RCODE_NO_ERROR || code == RCODE_NX_DOMAIN
}

/// True of a record that matters where `filter` is asked for: any record but
/// a signature, and of the type that `filter` names if it names one.
pub open spec fn is_relevant(record: RecordModel, filter: Option<DnsRecordType>) -> bool {
    record.type_code() != TYPE_RRSIG && match filter {
        Some(rtype) => record.type_code() == rtype.spec_code(),
        None => true,
    }
}

/// Those of `answers` that matter where `filter` is asked for, in their order.
pub open spec fn relevant_records(answers: Seq<RecordModel>, filter: Option<DnsRecordType>) -> Seq<
    RecordModel,
> {
    answers.filter(|record: RecordModel| is_relevant(record, filter))
}

/// What the answers to the two lookups at `hostname` show: `any` to the
/// lookup of every type, `ns` to the lookup of name servers.
pub open spec fn resolved(
    hostname: Seq<char>,
    any: ResponseModel,
    ns: ResponseModel,
    filter: Option<DnsRecordType>,
) -> Result<ContextModel, ErrorModel> {
    if !status_acceptable(any.code) {
        Err(ErrorModel::ServerError { code: any.code })
    } else if !status_acceptable(ns.code) {
        Err(ErrorModel::ServerError { code: ns.code })
    } else if !any.authoritative {
        Err(ErrorModel::NotAuthoritative { name: hostname })
    } else if ns.name_servers.len() == 0 {
        Err(ErrorModel::NoNameServer)
    } else {
        Ok(
            ContextModel {
                zone_name: ns.name_servers[0].name,
                existing: relevant_records(any.answers, filter),
            },
        )
    }
}

/// True where `result` is `expected`, the former by its view.
pub open spec fn context_result_is(
    result: Result<ZoneContext, UpdateError>,
    expected: Result<ContextModel, ErrorModel>,
) -> bool {
    match result {
        Ok(context) => expected == Ok::<ContextModel, ErrorModel>(context@),
        Err(error) => expected == Err::<ContextModel, ErrorModel>(error@),
    }
}

/// True where a lookup can go on after status `code`.
pub fn is_status_acceptable(code: u16) -> (ok: bool)
    ensures
        ok == status_acceptable(code),
{
    code == RCODE_NO_ERROR || code == RCODE_NX_DOMAIN
}

/// True where `record` matters where `filter` is asked for.
pub fn matters(record: &ResourceRecord, filter: Option<DnsRecordType>) -> (ok: bool)
    ensures
        ok == is_relevant(record@, filter),
{
    let code = record.type_code();
    code != TYPE_RRSIG && match filter {
        Some(rtype) => code == rtype.code(),
        None => true,
    }
}

/// Keeps those of `answers` that matter where `filter` is asked for, in their
/// order.
pub fn select_relevant(answers: Vec<ResourceRecord>, filter: Option<DnsRecordType>) -> (kept: Vec<
    ResourceRecord,
>)
    ensures
        kept.deep_view() == relevant_records(answers.deep_view(), filter),
{
    let ghost all = answers.deep_view();
    let ghost pred = |record: RecordModel| is_relevant(record, filter);
    let mut rest = answers;
    let mut kept: Vec<ResourceRecord> = Vec::new();
    while rest.len() > 0
        invariant
            pred == (|record: RecordModel| is_relevant(record, filter)),
            all.filter(pred) == rest.deep_view().filter(pred) + kept.deep_view(),
        decreases rest.len(),
    {
        let ghost before = rest.deep_view();
        let ghost kept_before = kept.deep_view();
        let record = rest.pop().unwrap();
        assert(rest.deep_view() =~= before.drop_last());
        proof {
            reveal(Seq::filter);
        }
        if matters(&record, filter) {
            kept.insert(0, record);
            assert(before.filter(pred) + kept_before =~= rest.deep_view().filter(pred)
                + kept.deep_view());
        }
    }
    proof {
        reveal(Seq::filter);
    }
    kept
}

/// Finds the zone that manages `hostname` and the records that exist there,
/// from the answers to the two lookups at that name.
///
/// `any` answers the lookup of records of every type, `ns` the lookup of name
/// servers. Fails with `ServerError` where the status of `any`, else that of
/// `ns`, is neither success nor "no such name"; else with `NotAuthoritative`
/// where `any` is not marked as an answer with authority; else with
/// `NoNameServer` where `ns` names no name server. Else the zone is the owner
/// of the first name-server record of `ns`, and the existing records are the
/// answers of `any` without signatures and, where `filter` names a type,
/// without records of other types.
pub fn resolve(
    hostname: &str,
    any: Response,
    ns: Response,
    filter: Option<DnsRecordType>,
) -> (result: Result<ZoneContext, UpdateError>)
    ensures
        context_result_is(result, resolved(hostname@, any@, ns@, filter)),
{
    if !is_status_acceptable(any.code) {
        return Err(UpdateError::ServerError { code: any.code });
    }
    if !is_status_acceptable(ns.code) {
        return Err(UpdateError::ServerError { code: ns.code });
    }
    if !any.authoritative {
        return Err(UpdateError::NotAuthoritative { name: hostname.to_owned() });
    }
    let existing = select_relevant(any.answers, filter);
    let mut name_servers = ns.name_servers;
    if name_servers.len() == 0 {
        return Err(UpdateError::NoNameServer);
    }
    let first = name_servers.remove(0);
    Ok(ZoneContext { zone_name: first.name, existing })
}

/// A lookup whose answer is not marked as one with authority fails with
/// `NotAuthoritative`, whatever records and name servers the answers carry,
/// once both answers have a status with which a lookup can go on.
pub proof fn lemma_not_authoritative(
    hostname: Seq<char>,
    any: ResponseModel,
    ns: ResponseModel,
    filter: Option<DnsRecordType>,
)
    requires
        status_acceptable(any.code),
        status_acceptable(ns.code),
        !any.authoritative,
    ensures
        resolved(hostname, any, ns, filter) == Err::<ContextModel, ErrorModel>(
            ErrorModel::NotAuthoritative { name: hostname },
        ),
{
}

/// No signature is among the records that a lookup shows to exist, and with
/// a filter none of another type than the filter names.
pub proof fn lemma_relevant_only(answers: Seq<RecordModel>, filter: Option<DnsRecordType>, i: int)
    requires
        0 <= i < relevant_records(answers, filter).len(),
    ensures
        is_relevant(relevant_records(answers, filter)[i], filter),
        relevant_records(answers, filter)[i].type_code() != TYPE_RRSIG,
{
    let pred = |record: RecordModel| is_relevant(record, filter);
    answers.lemma_filter_pred(pred, i);
}

} // verus!
