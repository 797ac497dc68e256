use hickory_proto::rr::RecordType;
use update_dns::codec::{
    build, build_delete_marker, build_reverse, field_role, read_value, read_values,
    record_from_readings, reverse_from_reading, Reading, RecordRequest,
};
use update_dns::error::{FieldRole, Syntax, UpdateError, Warning};
use update_dns::notation::decimal;
use update_dns::record::{
    type_mnemonic, DnsRecordType, RecordData, ResourceRecord, TYPE_A, TYPE_AAAA, TYPE_CNAME,
    TYPE_MX, TYPE_NS, TYPE_PTR, TYPE_RRSIG, TYPE_SRV, TYPE_TXT,
};

fn request(name: &str, rtype: DnsRecordType, values: &[&str], ttl: u32) -> RecordRequest {
    RecordRequest {
        name: name.to_string(),
        rtype,
        values: values.iter().map(|v| v.to_string()).collect(),
        ttl,
    }
}

fn bad_field(role: FieldRole, value: &str) -> UpdateError {
    UpdateError::FieldFormat { role, value: value.to_string() }
}

#[test]
fn builds_an_a_record() {
    let record = build(&request("host.example.", DnsRecordType::A, &["192.0.2.5"], 300)).unwrap();
    assert_eq!(
        record,
        ResourceRecord {
            name: "host.example.".to_string(),
            ttl: 300,
            rdata: RecordData::A { octets: [192, 0, 2, 5] },
        }
    );
    assert_eq!(record.type_code(), TYPE_A);
    assert_eq!(record.to_text(), "host.example. 300 A 192.0.2.5");
}

#[test]
fn builds_an_aaaa_record() {
    let record =
        build(&request("host.example.", DnsRecordType::AAAA, &["2001:db8::1"], 86400)).unwrap();
    assert_eq!(record.rdata, RecordData::AAAA { segments: [0x2001, 0xdb8, 0, 0, 0, 0, 0, 1] });
    assert_eq!(record.ttl, 86400);
    assert_eq!(record.type_code(), TYPE_AAAA);
    assert_eq!(record.to_text(), "host.example. 86400 AAAA 2001:db8::1");
}

#[test]
fn builds_records_that_hold_a_name() {
    let cname =
        build(&request("www.example.", DnsRecordType::CNAME, &["host.example."], 60)).unwrap();
    assert_eq!(cname.rdata, RecordData::CNAME { target: "host.example.".to_string() });
    assert_eq!(cname.type_code(), TYPE_CNAME);
    let ns = build(&request("example.", DnsRecordType::NS, &["ns1.example."], 60)).unwrap();
    assert_eq!(ns.rdata, RecordData::NS { target: "ns1.example.".to_string() });
    assert_eq!(ns.type_code(), TYPE_NS);
    let ptr = build(&request("5.2.0.192.in-addr.arpa.", DnsRecordType::PTR, &["host.example."], 60))
        .unwrap();
    assert_eq!(ptr.rdata, RecordData::PTR { target: "host.example.".to_string() });
    assert_eq!(ptr.type_code(), TYPE_PTR);
}

#[test]
fn builds_an_mx_record() {
    let record =
        build(&request("example.", DnsRecordType::MX, &["10", "mail.example."], 3600)).unwrap();
    assert_eq!(
        record.rdata,
        RecordData::MX { preference: 10, exchange: "mail.example.".to_string() }
    );
    assert_eq!(record.type_code(), TYPE_MX);
    assert_eq!(record.to_text(), "example. 3600 MX 10 mail.example.");
}

#[test]
fn builds_an_srv_record() {
    let record = build(&request(
        "_sip._tcp.example.",
        DnsRecordType::SRV,
        &["1", "20", "5060", "sip.example."],
        3600,
    ))
    .unwrap();
    assert_eq!(
        record.rdata,
        RecordData::SRV { priority: 1, weight: 20, port: 5060, target: "sip.example.".to_string() }
    );
    assert_eq!(record.type_code(), TYPE_SRV);
    assert_eq!(record.to_text(), "_sip._tcp.example. 3600 SRV 1 20 5060 sip.example.");
}

#[test]
fn builds_a_txt_record_with_the_text_as_it_is() {
    let record =
        build(&request("example.", DnsRecordType::TXT, &["v=spf1 -all \u{e9}"], 3600)).unwrap();
    assert_eq!(record.rdata, RecordData::TXT { text: "v=spf1 -all \u{e9}".to_string() });
    assert_eq!(record.type_code(), TYPE_TXT);
}

#[test]
fn wrong_number_of_values_is_an_arity_error() {
    let cases: Vec<(DnsRecordType, Vec<&str>, usize)> = vec![
        (DnsRecordType::SRV, vec!["1", "2", "3"], 4),
        (DnsRecordType::SRV, vec!["1", "2", "3", "t.example.", "x"], 4),
        (DnsRecordType::SRV, vec![], 4),
        (DnsRecordType::MX, vec!["10"], 2),
        (DnsRecordType::MX, vec!["10", "mail.example.", "x"], 2),
        (DnsRecordType::MX, vec![], 2),
        (DnsRecordType::A, vec![], 1),
        (DnsRecordType::A, vec!["192.0.2.5", "192.0.2.6"], 1),
        (DnsRecordType::AAAA, vec![], 1),
        (DnsRecordType::CNAME, vec!["a.example.", "b.example."], 1),
        (DnsRecordType::NS, vec![], 1),
        (DnsRecordType::PTR, vec![], 1),
        (DnsRecordType::TXT, vec!["a", "b"], 1),
    ];
    for (rtype, values, expected) in cases {
        let found = values.len();
        assert_eq!(
            build(&request("host.example.", rtype, &values, 300)),
            Err(UpdateError::Arity { rtype, expected, found })
        );
    }
}

#[test]
fn arity_is_checked_before_the_values_are_read() {
    assert_eq!(
        build(&request("example.", DnsRecordType::MX, &["not a number"], 300)),
        Err(UpdateError::Arity { rtype: DnsRecordType::MX, expected: 2, found: 1 })
    );
}

#[test]
fn an_address_of_the_other_family_is_refused() {
    assert_eq!(
        build(&request("host.example.", DnsRecordType::A, &["2001:db8::1"], 300)),
        Err(bad_field(FieldRole::Ipv4Address, "2001:db8::1"))
    );
    assert_eq!(
        build(&request("host.example.", DnsRecordType::AAAA, &["192.0.2.5"], 300)),
        Err(bad_field(FieldRole::Ipv6Address, "192.0.2.5"))
    );
}

#[test]
fn an_ipv4_address_is_dot_decimal_without_leading_zeros() {
    for bad in ["192.0.2.05", "192.0.2", "192.0.2.5.6", "192.0.2.256", "0x10.0.2.5", "", " 1.2.3.4"]
    {
        assert_eq!(
            build(&request("host.example.", DnsRecordType::A, &[bad], 300)),
            Err(bad_field(FieldRole::Ipv4Address, bad))
        );
    }
    for (good, octets) in
        [("0.0.0.0", [0, 0, 0, 0]), ("255.255.255.255", [255; 4]), ("10.200.30.4", [10, 200, 30, 4])]
    {
        let record = build(&request("host.example.", DnsRecordType::A, &[good], 300)).unwrap();
        assert_eq!(record.rdata, RecordData::A { octets });
        assert_eq!(record.rdata.to_text(), good);
    }
}

#[test]
fn numbers_are_unsigned_decimals_of_16_bits() {
    for (text, value) in [("0", 0u16), ("65535", 65535), ("+7", 7), ("007", 7), ("0000000000000012", 12)]
    {
        let record =
            build(&request("example.", DnsRecordType::MX, &[text, "mail.example."], 300)).unwrap();
        assert_eq!(
            record.rdata,
            RecordData::MX { preference: value, exchange: "mail.example.".to_string() }
        );
    }
    for bad in ["65536", "-1", "", "+", "++1", "1 ", " 1", "1_000", "0x10", "ten", "1.0", "\u{661}"] {
        assert_eq!(
            build(&request("example.", DnsRecordType::MX, &[bad, "mail.example."], 300)),
            Err(bad_field(FieldRole::MxPriority, bad))
        );
    }
}

#[test]
fn the_first_bad_field_is_reported() {
    let srv = |values: &[&str]| build(&request("_s._tcp.example.", DnsRecordType::SRV, values, 300));
    assert_eq!(srv(&["x", "y", "z", "bad name."]), Err(bad_field(FieldRole::SrvPriority, "x")));
    assert_eq!(srv(&["1", "y", "z", "bad name."]), Err(bad_field(FieldRole::SrvWeight, "y")));
    assert_eq!(srv(&["1", "2", "z", "bad name."]), Err(bad_field(FieldRole::SrvPort, "z")));
    assert_eq!(
        srv(&["1", "2", "3", "bad name."]),
        Err(bad_field(FieldRole::SrvTarget, "bad name."))
    );
    assert_eq!(
        build(&request("example.", DnsRecordType::MX, &["10", "bad name."], 300)),
        Err(bad_field(FieldRole::MxExchange, "bad name."))
    );
}

#[test]
fn a_name_that_cannot_be_read_is_refused() {
    assert_eq!(
        build(&request("www.example.", DnsRecordType::CNAME, &["two words.example."], 300)),
        Err(bad_field(FieldRole::CnameTarget, "two words.example."))
    );
    assert_eq!(
        build(&request("example.", DnsRecordType::NS, &["a..example."], 300)),
        Err(bad_field(FieldRole::NsTarget, "a..example."))
    );
    let long_label = "a".repeat(64);
    assert_eq!(
        build(&request("1.arpa.", DnsRecordType::PTR, &[long_label.as_str()], 300)),
        Err(bad_field(FieldRole::PtrTarget, long_label.as_str()))
    );
}

#[test]
fn text_of_the_built_data_is_the_value_that_was_given() {
    let cases = [
        (DnsRecordType::A, "192.0.2.5"),
        (DnsRecordType::A, "10.0.0.1"),
        (DnsRecordType::CNAME, "Host.Example."),
        (DnsRecordType::NS, "ns1.example"),
        (DnsRecordType::PTR, "host.example."),
        (DnsRecordType::TXT, "any text at all"),
    ];
    for (rtype, value) in cases {
        let first = build(&request("n.example.", rtype, &[value], 300)).unwrap();
        let text = first.rdata.to_text();
        assert_eq!(text, value);
        let again = build(&request("n.example.", rtype, &[text.as_str()], 300)).unwrap();
        assert_eq!(again, first);
    }
}

#[test]
fn an_ipv6_address_read_again_from_its_text_is_the_same_address() {
    for value in ["2001:DB8:0:0:0:0:0:1", "::1", "::", "2001:db8::192.0.2.5", "fe80::1:2:3:4"] {
        let first = build(&request("n.example.", DnsRecordType::AAAA, &[value], 300)).unwrap();
        let text = first.rdata.to_text();
        let again =
            build(&request("n.example.", DnsRecordType::AAAA, &[text.as_str()], 300)).unwrap();
        assert_eq!(again, first);
    }
    let record =
        build(&request("n.example.", DnsRecordType::AAAA, &["2001:DB8:0:0:0:0:0:1"], 300)).unwrap();
    assert_eq!(record.rdata.to_text(), "2001:db8::1");
}

#[test]
fn delete_marker_has_no_data_and_no_time_to_live() {
    let marker = build_delete_marker("host.example.".to_string(), DnsRecordType::A, 300);
    assert_eq!(
        marker,
        ResourceRecord {
            name: "host.example.".to_string(),
            ttl: 0,
            rdata: RecordData::Empty { code: TYPE_A },
        }
    );
    assert_eq!(marker.type_code(), 1);
    assert_eq!(marker.to_text(), "host.example. 0 A");
    let marker = build_delete_marker("x.example.".to_string(), DnsRecordType::SRV, 0);
    assert_eq!(marker.type_code(), 33);
    assert_eq!(marker, ResourceRecord::marker("x.example.".to_string(), TYPE_SRV));
}

#[test]
fn reverse_of_an_a_request_points_back_at_its_name() {
    let record =
        build_reverse(&request("host.example.", DnsRecordType::A, &["192.0.2.5"], 300)).unwrap();
    assert_eq!(
        record,
        ResourceRecord {
            name: "5.2.0.192.in-addr.arpa.".to_string(),
            ttl: 300,
            rdata: RecordData::PTR { target: "host.example.".to_string() },
        }
    );
    assert_eq!(record.to_text(), "5.2.0.192.in-addr.arpa. 300 PTR host.example.");
}

#[test]
fn reverse_of_an_aaaa_request_points_back_at_its_name() {
    let record =
        build_reverse(&request("host.example.", DnsRecordType::AAAA, &["2001:db8::567:89ab"], 60))
            .unwrap();
    assert_eq!(
        record.name,
        "b.a.9.8.7.6.5.0.0.0.0.0.0.0.0.0.0.0.0.0.0.0.0.0.8.b.d.0.1.0.0.2.ip6.arpa."
    );
    assert_eq!(record.ttl, 60);
    assert_eq!(record.rdata, RecordData::PTR { target: "host.example.".to_string() });
}

#[test]
fn reverse_is_for_address_records_only() {
    for rtype in [
        DnsRecordType::CNAME,
        DnsRecordType::MX,
        DnsRecordType::NS,
        DnsRecordType::PTR,
        DnsRecordType::SRV,
        DnsRecordType::TXT,
    ] {
        assert_eq!(
            build_reverse(&request("host.example.", rtype, &["192.0.2.5"], 300)),
            Err(UpdateError::UnsupportedReverse { rtype })
        );
        assert_eq!(
            build_reverse(&request("host.example.", rtype, &[], 300)),
            Err(UpdateError::UnsupportedReverse { rtype })
        );
    }
}

#[test]
fn reverse_refuses_what_build_refuses() {
    assert_eq!(
        build_reverse(&request("host.example.", DnsRecordType::A, &["2001:db8::1"], 300)),
        Err(bad_field(FieldRole::Ipv4Address, "2001:db8::1"))
    );
    assert_eq!(
        build_reverse(&request("host.example.", DnsRecordType::AAAA, &["192.0.2.5"], 300)),
        Err(bad_field(FieldRole::Ipv6Address, "192.0.2.5"))
    );
    assert_eq!(
        build_reverse(&request("host.example.", DnsRecordType::A, &[], 300)),
        Err(UpdateError::Arity { rtype: DnsRecordType::A, expected: 1, found: 0 })
    );
    assert_eq!(
        build_reverse(&request("host.example.", DnsRecordType::A, &["192.0.2.5", "192.0.2.6"], 300)),
        Err(UpdateError::Arity { rtype: DnsRecordType::A, expected: 1, found: 2 })
    );
}

#[test]
fn reverse_names_of_addresses() {
    assert_eq!(
        RecordData::A { octets: [192, 0, 2, 5] }.reverse_name(),
        Some("5.2.0.192.in-addr.arpa.".to_string())
    );
    assert_eq!(
        RecordData::A { octets: [10, 200, 0, 255] }.reverse_name(),
        Some("255.0.200.10.in-addr.arpa.".to_string())
    );
    assert_eq!(
        RecordData::AAAA { segments: [0x0123, 0x4567, 0x89ab, 0xcdef, 0, 0, 0, 0xf] }.reverse_name(),
        Some(
            "f.0.0.0.0.0.0.0.0.0.0.0.0.0.0.0.f.e.d.c.b.a.9.8.7.6.5.4.3.2.1.0.ip6.arpa.".to_string()
        )
    );
    assert_eq!(RecordData::PTR { target: "host.example.".to_string() }.reverse_name(), None);
    assert_eq!(RecordData::Empty { code: TYPE_A }.reverse_name(), None);
    assert_eq!(RecordData::Other { code: TYPE_RRSIG }.reverse_name(), None);
}

#[test]
fn values_are_read_as_their_syntax_asks() {
    assert_eq!(read_value(Syntax::Ipv4, "192.0.2.5"), Reading::Ipv4 { octets: [192, 0, 2, 5] });
    assert_eq!(read_value(Syntax::Ipv4, "host.example."), Reading::Unreadable);
    assert_eq!(
        read_value(Syntax::Ipv6, "::ffff:192.0.2.5"),
        Reading::Ipv6 { segments: [0, 0, 0, 0, 0, 0xffff, 0xc000, 0x0205] }
    );
    assert_eq!(read_value(Syntax::Ipv6, "12345::"), Reading::Unreadable);
    assert_eq!(read_value(Syntax::Name, "host.example."), Reading::Name);
    assert_eq!(read_value(Syntax::Name, "."), Reading::Name);
    assert_eq!(read_value(Syntax::Name, "host example"), Reading::Unreadable);
    assert_eq!(read_value(Syntax::Number, "443"), Reading::Number { value: 443 });
    assert_eq!(read_value(Syntax::Number, "443x"), Reading::Unreadable);
    assert_eq!(read_value(Syntax::Text, ""), Reading::Text);
}

#[test]
fn each_position_has_its_role() {
    assert_eq!(field_role(DnsRecordType::A, 0), FieldRole::Ipv4Address);
    assert_eq!(field_role(DnsRecordType::AAAA, 0), FieldRole::Ipv6Address);
    assert_eq!(field_role(DnsRecordType::CNAME, 0), FieldRole::CnameTarget);
    assert_eq!(field_role(DnsRecordType::NS, 0), FieldRole::NsTarget);
    assert_eq!(field_role(DnsRecordType::PTR, 0), FieldRole::PtrTarget);
    assert_eq!(field_role(DnsRecordType::TXT, 0), FieldRole::TxtText);
    assert_eq!(field_role(DnsRecordType::MX, 0), FieldRole::MxPriority);
    assert_eq!(field_role(DnsRecordType::MX, 1), FieldRole::MxExchange);
    assert_eq!(field_role(DnsRecordType::SRV, 0), FieldRole::SrvPriority);
    assert_eq!(field_role(DnsRecordType::SRV, 1), FieldRole::SrvWeight);
    assert_eq!(field_role(DnsRecordType::SRV, 2), FieldRole::SrvPort);
    assert_eq!(field_role(DnsRecordType::SRV, 3), FieldRole::SrvTarget);
    assert_eq!(FieldRole::SrvWeight.syntax(), Syntax::Number);
    assert_eq!(FieldRole::SrvTarget.syntax(), Syntax::Name);
    assert_eq!(FieldRole::Ipv4Address.syntax(), Syntax::Ipv4);
    assert_eq!(FieldRole::Ipv6Address.syntax(), Syntax::Ipv6);
    assert_eq!(FieldRole::TxtText.syntax(), Syntax::Text);
}

#[test]
fn all_values_of_a_request_are_read() {
    let readings =
        read_values(&request("s.example.", DnsRecordType::SRV, &["1", "x", "3", "t.example."], 1));
    assert_eq!(
        readings,
        vec![
            Reading::Number { value: 1 },
            Reading::Unreadable,
            Reading::Number { value: 3 },
            Reading::Name
        ]
    );
}

#[test]
fn record_is_put_together_from_readings() {
    let mx = request("example.", DnsRecordType::MX, &["10", "mail.example."], 300);
    assert_eq!(
        record_from_readings(&mx, &vec![Reading::Number { value: 11 }, Reading::Name]),
        Ok(ResourceRecord {
            name: "example.".to_string(),
            ttl: 300,
            rdata: RecordData::MX { preference: 11, exchange: "mail.example.".to_string() },
        })
    );
    assert_eq!(
        record_from_readings(&mx, &vec![Reading::Number { value: 11 }]),
        Err(bad_field(FieldRole::MxExchange, "mail.example."))
    );
    assert_eq!(
        record_from_readings(&mx, &vec![Reading::Name, Reading::Name]),
        Err(bad_field(FieldRole::MxPriority, "10"))
    );
    assert_eq!(
        record_from_readings(&mx, &vec![Reading::Number { value: 1 }, Reading::Text]),
        Err(bad_field(FieldRole::MxExchange, "mail.example."))
    );
    let a = request("host.example.", DnsRecordType::A, &["whatever"], 300);
    assert_eq!(
        record_from_readings(&a, &vec![Reading::Ipv4 { octets: [1, 2, 3, 4] }]).unwrap().rdata,
        RecordData::A { octets: [1, 2, 3, 4] }
    );
    assert_eq!(
        record_from_readings(&a, &vec![Reading::Ipv6 { segments: [0; 8] }]),
        Err(bad_field(FieldRole::Ipv4Address, "whatever"))
    );
    assert_eq!(
        record_from_readings(&a, &vec![]),
        Err(bad_field(FieldRole::Ipv4Address, "whatever"))
    );
}

#[test]
fn reverse_record_is_put_together_from_a_reading() {
    let a = request("host.example.", DnsRecordType::A, &["whatever"], 300);
    assert_eq!(
        reverse_from_reading(&a, Reading::Ipv4 { octets: [1, 2, 3, 4] }),
        Ok(ResourceRecord {
            name: "4.3.2.1.in-addr.arpa.".to_string(),
            ttl: 300,
            rdata: RecordData::PTR { target: "host.example.".to_string() },
        })
    );
    assert_eq!(
        reverse_from_reading(&a, Reading::Unreadable),
        Err(bad_field(FieldRole::Ipv4Address, "whatever"))
    );
    let txt = request("host.example.", DnsRecordType::TXT, &["whatever"], 300);
    assert_eq!(
        reverse_from_reading(&txt, Reading::Text),
        Err(UpdateError::UnsupportedReverse { rtype: DnsRecordType::TXT })
    );
}

#[test]
fn type_codes_are_those_of_the_wire() {
    let all = [
        (DnsRecordType::A, 1u16, 1usize),
        (DnsRecordType::NS, 2, 1),
        (DnsRecordType::CNAME, 5, 1),
        (DnsRecordType::PTR, 12, 1),
        (DnsRecordType::MX, 15, 2),
        (DnsRecordType::TXT, 16, 1),
        (DnsRecordType::AAAA, 28, 1),
        (DnsRecordType::SRV, 33, 4),
    ];
    for (rtype, code, arity) in all {
        assert_eq!(rtype.code(), code);
        assert_eq!(DnsRecordType::from_code(code), Some(rtype));
        assert_eq!(rtype.arity(), arity);
    }
    assert_eq!(DnsRecordType::from_code(46), None);
    assert_eq!(DnsRecordType::from_code(0), None);
    assert_eq!(DnsRecordType::from_code(255), None);
}

#[test]
fn type_codes_agree_with_the_session_library() {
    assert_eq!(u16::from(RecordType::A), TYPE_A);
    assert_eq!(u16::from(RecordType::AAAA), TYPE_AAAA);
    assert_eq!(u16::from(RecordType::CNAME), TYPE_CNAME);
    assert_eq!(u16::from(RecordType::MX), TYPE_MX);
    assert_eq!(u16::from(RecordType::NS), TYPE_NS);
    assert_eq!(u16::from(RecordType::PTR), TYPE_PTR);
    assert_eq!(u16::from(RecordType::SRV), TYPE_SRV);
    assert_eq!(u16::from(RecordType::TXT), TYPE_TXT);
    assert_eq!(u16::from(RecordType::RRSIG), TYPE_RRSIG);
    assert_eq!(u16::from(RecordType::ANY), update_dns::record::TYPE_ANY);
    assert!(RecordType::from(TYPE_RRSIG).is_rrsig());
}

#[test]
fn numbers_are_written_in_decimal() {
    assert_eq!(decimal(0), "0");
    assert_eq!(decimal(7), "7");
    assert_eq!(decimal(10), "10");
    assert_eq!(decimal(86400), "86400");
    assert_eq!(decimal(4294967295), "4294967295");
    assert_eq!(decimal(u64::MAX), "18446744073709551615");
}

#[test]
fn types_are_written_by_their_mnemonics() {
    assert_eq!(type_mnemonic(TYPE_A), "A");
    assert_eq!(type_mnemonic(TYPE_AAAA), "AAAA");
    assert_eq!(type_mnemonic(TYPE_CNAME), "CNAME");
    assert_eq!(type_mnemonic(TYPE_MX), "MX");
    assert_eq!(type_mnemonic(TYPE_NS), "NS");
    assert_eq!(type_mnemonic(TYPE_PTR), "PTR");
    assert_eq!(type_mnemonic(TYPE_SRV), "SRV");
    assert_eq!(type_mnemonic(TYPE_TXT), "TXT");
    assert_eq!(type_mnemonic(TYPE_RRSIG), "TYPE46");
    assert_eq!(type_mnemonic(6), "TYPE6");
}

#[test]
fn records_are_written_on_one_line() {
    let other = ResourceRecord {
        name: "example.".to_string(),
        ttl: 3600,
        rdata: RecordData::Other { code: 6 },
    };
    assert_eq!(other.to_text(), "example. 3600 TYPE6");
    assert_eq!(other.type_code(), 6);
    let txt = ResourceRecord {
        name: "example.".to_string(),
        ttl: 1,
        rdata: RecordData::TXT { text: String::new() },
    };
    assert_eq!(txt.to_text(), "example. 1 TXT");
    assert_eq!(RecordData::A { octets: [0, 10, 100, 255] }.to_text(), "0.10.100.255");
}

#[test]
fn an_ipv4_text_that_is_accepted_is_written_back_as_it_came() {
    let candidates = [
        "1.2.3.4",
        "1.2.3.4 ",
        "+1.2.3.4",
        "1.2.3.4.",
        ".1.2.3.4",
        "01.2.3.4",
        "1.2.3.004",
        "1.2.3.0",
        "1.2.3.00",
        "1.2.3.-0",
        "0001.2.3.4",
        "256.1.1.1",
        "1.2.3",
        "1.2.3.4.5",
        "1..2.3",
        "1.2.3.4\n",
        "\u{661}.2.3.4",
        "1,2,3,4",
        "0x7f.0.0.1",
        "127.1",
        "2130706433",
        "127.0.0.1",
        "::1",
        "999.999.999.999",
        "99999999999999999999.1.1.1",
    ];
    let mut accepted = 0;
    for text in candidates {
        if let Ok(record) = build(&request("n.example.", DnsRecordType::A, &[text], 1)) {
            assert_eq!(record.rdata.to_text(), text);
            accepted += 1;
        }
    }
    assert_eq!(accepted, 3);
}

#[test]
fn errors_are_said_in_words() {
    assert_eq!(bad_field(FieldRole::SrvWeight, "2x").message(), "Invalid SRV weight '2x'");
    assert_eq!(bad_field(FieldRole::MxPriority, "").message(), "Invalid MX priority ''");
    assert_eq!(
        bad_field(FieldRole::Ipv4Address, "2001:db8::1").message(),
        "Invalid A address '2001:db8::1'"
    );
    assert_eq!(
        UpdateError::Arity { rtype: DnsRecordType::SRV, expected: 4, found: 3 }.message(),
        "Need 4 data fields for SRV, found 3"
    );
    assert_eq!(
        UpdateError::Arity { rtype: DnsRecordType::MX, expected: 2, found: 10 }.message(),
        "Need 2 data fields for MX, found 10"
    );
    assert_eq!(
        UpdateError::UnsupportedReverse { rtype: DnsRecordType::CNAME }.message(),
        "Can't reverse record type CNAME"
    );
    assert_eq!(UpdateError::ServerError { code: 5 }.message(), "Server returned error code 5");
    assert_eq!(
        UpdateError::NotAuthoritative { name: "host.example.".to_string() }.message(),
        "Server is not authoritative for hostname host.example."
    );
    assert_eq!(UpdateError::NoNameServer.message(), "Server returned no name servers");
    assert_eq!(
        UpdateError::NothingToDelete { name: "host.example.".to_string() }.message(),
        "Can't delete name host.example. that doesn't exist"
    );
    assert_eq!(UpdateError::Transport { detail: "timed out".to_string() }.message(), "timed out");
    assert_eq!(
        Warning {
            name: "5.2.0.192.in-addr.arpa.".to_string(),
            error: UpdateError::ServerError { code: 9 },
        }
        .message(),
        "Error deleting reverse name 5.2.0.192.in-addr.arpa.: Server returned error code 9"
    );
    assert_eq!(FieldRole::CnameTarget.describe(), "CNAME name");
    assert_eq!(FieldRole::Ipv6Address.describe(), "AAAA address");
    assert_eq!(FieldRole::MxExchange.describe(), "MX name");
    assert_eq!(FieldRole::NsTarget.describe(), "NS name");
    assert_eq!(FieldRole::PtrTarget.describe(), "PTR name");
    assert_eq!(FieldRole::SrvPriority.describe(), "SRV priority");
    assert_eq!(FieldRole::SrvPort.describe(), "SRV port");
    assert_eq!(FieldRole::SrvTarget.describe(), "SRV name");
    assert_eq!(FieldRole::TxtText.describe(), "TXT text");
}
