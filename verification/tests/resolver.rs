use update_dns::error::UpdateError;
use update_dns::record::{DnsRecordType, RecordData, ResourceRecord, TYPE_RRSIG};
use update_dns::resolver::{is_status_acceptable, matters, resolve, select_relevant, ZoneContext};
use update_dns::session::{OperationOutcome, Response, CLASS_IN, RCODE_NO_ERROR, RCODE_NX_DOMAIN};

const SERVFAIL: u16 = 2;
const REFUSED: u16 = 5;

fn a(name: &str, ttl: u32, octets: [u8; 4]) -> ResourceRecord {
    ResourceRecord { name: name.to_string(), ttl, rdata: RecordData::A { octets } }
}

fn ns(zone: &str, server: &str) -> ResourceRecord {
    ResourceRecord {
        name: zone.to_string(),
        ttl: 3600,
        rdata: RecordData::NS { target: server.to_string() },
    }
}

fn txt(name: &str, text: &str) -> ResourceRecord {
    ResourceRecord { name: name.to_string(), ttl: 60, rdata: RecordData::TXT { text: text.to_string() } }
}

fn signature(name: &str) -> ResourceRecord {
    ResourceRecord { name: name.to_string(), ttl: 60, rdata: RecordData::Other { code: TYPE_RRSIG } }
}

fn answer(code: u16, authoritative: bool, answers: Vec<ResourceRecord>) -> Response {
    Response { code, authoritative, answers, name_servers: vec![] }
}

fn delegation(code: u16, name_servers: Vec<ResourceRecord>) -> Response {
    Response { code, authoritative: true, answers: vec![], name_servers }
}

#[test]
fn zone_is_the_owner_of_the_first_name_server_record() {
    let any = answer(RCODE_NO_ERROR, true, vec![a("host.example.", 300, [192, 0, 2, 9])]);
    let servers = delegation(
        RCODE_NO_ERROR,
        vec![ns("example.", "ns1.example."), ns("other.", "ns2.example.")],
    );
    assert_eq!(
        resolve("host.example.", any, servers, Some(DnsRecordType::A)),
        Ok(ZoneContext {
            zone_name: "example.".to_string(),
            existing: vec![a("host.example.", 300, [192, 0, 2, 9])],
        })
    );
}

#[test]
fn existing_records_are_those_of_the_type_asked_for() {
    let answers = vec![
        a("host.example.", 300, [192, 0, 2, 9]),
        signature("host.example."),
        txt("host.example.", "one"),
        a("host.example.", 300, [192, 0, 2, 10]),
        txt("host.example.", "two"),
        signature("host.example."),
    ];
    let servers = || delegation(RCODE_NO_ERROR, vec![ns("example.", "ns1.example.")]);
    let any = || answer(RCODE_NO_ERROR, true, answers.clone());
    assert_eq!(
        resolve("host.example.", any(), servers(), Some(DnsRecordType::A)).unwrap().existing,
        vec![a("host.example.", 300, [192, 0, 2, 9]), a("host.example.", 300, [192, 0, 2, 10])]
    );
    assert_eq!(
        resolve("host.example.", any(), servers(), Some(DnsRecordType::TXT)).unwrap().existing,
        vec![txt("host.example.", "one"), txt("host.example.", "two")]
    );
    assert_eq!(
        resolve("host.example.", any(), servers(), Some(DnsRecordType::MX)).unwrap().existing,
        vec![]
    );
    assert_eq!(
        resolve("host.example.", any(), servers(), None).unwrap().existing,
        vec![
            a("host.example.", 300, [192, 0, 2, 9]),
            txt("host.example.", "one"),
            a("host.example.", 300, [192, 0, 2, 10]),
            txt("host.example.", "two"),
        ]
    );
}

#[test]
fn a_name_that_is_not_known_resolves_to_nothing_existing() {
    let any = answer(RCODE_NX_DOMAIN, true, vec![]);
    let servers = delegation(RCODE_NX_DOMAIN, vec![ns("example.", "ns1.example.")]);
    assert_eq!(
        resolve("new.example.", any, servers, Some(DnsRecordType::A)),
        Ok(ZoneContext { zone_name: "example.".to_string(), existing: vec![] })
    );
}

#[test]
fn other_statuses_are_server_errors() {
    let servers = || delegation(RCODE_NO_ERROR, vec![ns("example.", "ns1.example.")]);
    assert_eq!(
        resolve("host.example.", answer(SERVFAIL, true, vec![]), servers(), None),
        Err(UpdateError::ServerError { code: SERVFAIL })
    );
    assert_eq!(
        resolve(
            "host.example.",
            answer(RCODE_NO_ERROR, true, vec![]),
            delegation(REFUSED, vec![ns("example.", "ns1.example.")]),
            None
        ),
        Err(UpdateError::ServerError { code: REFUSED })
    );
    assert_eq!(
        resolve(
            "host.example.",
            answer(SERVFAIL, false, vec![]),
            delegation(REFUSED, vec![]),
            None
        ),
        Err(UpdateError::ServerError { code: SERVFAIL })
    );
}

#[test]
fn an_answer_without_authority_is_refused_whatever_it_holds() {
    let contents = [
        vec![],
        vec![a("host.example.", 300, [192, 0, 2, 9])],
        vec![signature("host.example."), txt("host.example.", "x")],
    ];
    for answers in contents {
        for code in [RCODE_NO_ERROR, RCODE_NX_DOMAIN] {
            for servers in [vec![], vec![ns("example.", "ns1.example.")]] {
                assert_eq!(
                    resolve(
                        "host.example.",
                        answer(code, false, answers.clone()),
                        delegation(RCODE_NO_ERROR, servers),
                        Some(DnsRecordType::A)
                    ),
                    Err(UpdateError::NotAuthoritative { name: "host.example.".to_string() })
                );
            }
        }
    }
}

#[test]
fn authority_of_the_name_server_answer_does_not_matter() {
    let any = answer(RCODE_NO_ERROR, true, vec![]);
    let servers = Response {
        code: RCODE_NO_ERROR,
        authoritative: false,
        answers: vec![],
        name_servers: vec![ns("example.", "ns1.example.")],
    };
    assert_eq!(
        resolve("host.example.", any, servers, None),
        Ok(ZoneContext { zone_name: "example.".to_string(), existing: vec![] })
    );
}

#[test]
fn no_name_server_is_an_error() {
    let any = answer(RCODE_NO_ERROR, true, vec![a("host.example.", 300, [192, 0, 2, 9])]);
    assert_eq!(
        resolve("host.example.", any, delegation(RCODE_NO_ERROR, vec![]), None),
        Err(UpdateError::NoNameServer)
    );
}

#[test]
fn statuses_with_which_a_lookup_goes_on() {
    assert!(is_status_acceptable(0));
    assert!(is_status_acceptable(3));
    for code in [1u16, 2, 4, 5, 9, 16, 65535] {
        assert!(!is_status_acceptable(code));
    }
    assert_eq!(CLASS_IN, 1);
}

#[test]
fn signatures_never_matter() {
    let record = signature("host.example.");
    assert!(!matters(&record, None));
    assert!(!matters(&record, Some(DnsRecordType::A)));
    let record = a("host.example.", 1, [1, 1, 1, 1]);
    assert!(matters(&record, None));
    assert!(matters(&record, Some(DnsRecordType::A)));
    assert!(!matters(&record, Some(DnsRecordType::AAAA)));
    let marker = ResourceRecord::marker("host.example.".to_string(), 28);
    assert!(matters(&marker, Some(DnsRecordType::AAAA)));
}

#[test]
fn selection_keeps_the_order() {
    let records = vec![
        txt("n.", "1"),
        a("n.", 1, [1, 1, 1, 1]),
        txt("n.", "2"),
        signature("n."),
        txt("n.", "3"),
    ];
    assert_eq!(
        select_relevant(records.clone(), Some(DnsRecordType::TXT)),
        vec![txt("n.", "1"), txt("n.", "2"), txt("n.", "3")]
    );
    assert_eq!(select_relevant(vec![], None), vec![]);
    assert_eq!(select_relevant(records, None).len(), 4);
}

#[test]
fn every_status_but_success_is_an_error() {
    assert_eq!(Response::status(0).outcome(), OperationOutcome::Success);
    for code in [1u16, 2, 3, 4, 5, 9, 4095, 65535] {
        assert_eq!(Response::status(code).outcome(), OperationOutcome::ServerError { code });
    }
}

#[test]
fn status_only_response_is_empty() {
    assert_eq!(
        Response::status(5),
        Response { code: 5, authoritative: false, answers: vec![], name_servers: vec![] }
    );
}
