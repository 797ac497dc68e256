//! From a typed request to a resource record.
//!
//! A request names a record type and carries the record's fields as text, in
//! the order in which that type takes them. [`build`] reads each field as its
//! role asks and puts the record together; [`build_reverse`] makes the
//! pointer record that leads from an address back to the request's name;
//! [`build_delete_marker`] makes the marker that stands for a whole record
//! set.

use crate::error::{ErrorModel, FieldRole, Syntax, UpdateError};
use crate::notation::{
    ipv4_text, ipv4_value, lemma_ipv4_text_injective, lemma_ipv4_text_of_value, u16_value,
};
use crate::parse::{
    domain_name_valid, ipv6_parse, is_domain_name, parse_ipv4, parse_ipv6, parse_u16,
};
use crate::record::{DataModel, DnsRecordType, RecordData, RecordModel, ResourceRecord};
use crate::reverse::reverse_name_of;
use vstd::prelude::*;

verus! {

/// What a user asks to have at a name: a record of type `rtype` whose fields
/// are `values`, to be cached for `ttl` seconds.
#[derive(Debug, Clone, PartialEq, Eq)]
pub struct RecordRequest {
    pub name: String,
    pub rtype: DnsRecordType,
    pub values: Vec<String>,
    pub ttl: u32,
}

/// The mathematical model of [`RecordRequest`].
pub struct RequestModel {
    pub name: Seq<char>,
    pub rtype: DnsRecordType,
    pub values: Seq<Seq<char>>,
    pub ttl: u32,
}

impl View for RecordRequest {
    type V = RequestModel;

    open spec fn view(&self) -> RequestModel {
        RequestModel {
            name: self.name@,
            rtype: self.rtype,
            values: self.values.deep_view(),
            ttl: self.ttl,
        }
    }
}

impl RequestModel {
    /// True of a request that carries as many values as its type takes.
    pub open spec fn has_arity(self) -> bool {
        self.values.len() == self.rtype.spec_arity()
    }
}

/// What one value of a request was read as. A name or a text that was
/// accepted is the value itself, so nothing is held for it.
#[derive(Debug, Clone, PartialEq, Eq)]
pub enum Reading {
    Ipv4 { octets: [u8; 4] },
    Ipv6 { segments: [u16; 8] },
    Name,
    Number { value: u16 },
    Text,
    /// The value is not written as was asked.
    Unreadable,
}

/// The mathematical model of [`Reading`].
pub enum ReadingModel {
    Ipv4 { octets: Seq<u8> },
    Ipv6 { segments: Seq<u16> },
    Name,
    Number { value: u16 },
    Text,
    Unreadable,
}

impl View for Reading {
    type V = ReadingModel;

    open spec fn view(&self) -> ReadingModel {
        match *self {
            Reading::Ipv4 { octets } => ReadingModel::Ipv4 { octets: octets@ },
            Reading::Ipv6 { segments } => ReadingModel::Ipv6 { segments: segments@ },
            Reading::Name => ReadingModel::Name,
            Reading::Number { value } => ReadingModel::Number { value },
            Reading::Text => ReadingModel::Text,
            Reading::Unreadable => ReadingModel::Unreadable,
        }
    }
}

impl DeepView for Reading {
    type V = ReadingModel;

    open spec fn deep_view(&self) -> ReadingModel {
        self@
    }
}

/// The role of the value at position `i` in a request of type `rtype`.
pub open spec fn role_at(rtype: DnsRecordType, i: int) -> FieldRole {
    match rtype {
        DnsRecordType::A => FieldRole::Ipv4Address,
        DnsRecordType::AAAA => FieldRole::Ipv6Address,
        DnsRecordType::CNAME => FieldRole::CnameTarget,
        DnsRecordType::MX => if i == 0 {
            FieldRole::MxPriority
        } else {
            FieldRole::MxExchange
        },
        DnsRecordType::NS => FieldRole::NsTarget,
        DnsRecordType::PTR => FieldRole::PtrTarget,
        DnsRecordType::SRV => if i == 0 {
            FieldRole::SrvPriority
        } else if i == 1 {
            FieldRole::SrvWeight
        } else if i == 2 {
            FieldRole::SrvPort
        } else {
            FieldRole::SrvTarget
        },
        DnsRecordType::TXT => FieldRole::TxtText,
    }
}

/// What the text `s` is read as where `syntax` is asked for.
pub open spec fn reading_of(syntax: Syntax, s: Seq<char>) -> ReadingModel {
    match syntax {
        Syntax::Ipv4 => match ipv4_value(s) {
            Some(octets) => ReadingModel::Ipv4 { octets },
            None => ReadingModel::Unreadable,
        },
        Syntax::Ipv6 => match ipv6_parse(s) {
            Some(segments) => ReadingModel::Ipv6 { segments },
            None => ReadingModel::Unreadable,
        },
        Syntax::Name => if domain_name_valid(s) {
            ReadingModel::Name
        } else {
            ReadingModel::Unreadable
        },
        Syntax::Number => match u16_value(s) {
            Some(value) => ReadingModel::Number { value },
            None => ReadingModel::Unreadable,
        },
        Syntax::Text => ReadingModel::Text,
    }
}

/// The readings of all values of a request, each in the role that its
/// position gives it.
pub open spec fn readings_of(request: RequestModel) -> Seq<ReadingModel> {
    Seq::new(
        request.values.len(),
        |i: int| reading_of(role_at(request.rtype, i).spec_syntax(), request.values[i]),
    )
}

/// True where `reading` is what a value written in `syntax` is read as.
pub open spec fn fits(syntax: Syntax, reading: ReadingModel) -> bool {
    match syntax {
        Syntax::Ipv4 => reading is Ipv4,
        Syntax::Ipv6 => reading is Ipv6,
        Syntax::Name => reading is Name,
        Syntax::Number => reading is Number,
        Syntax::Text => reading is Text,
    }
}

/// True where position `i` has a reading, and one that fits the role of that
/// position in a record of type `rtype`.
pub open spec fn field_fits(rtype: DnsRecordType, readings: Seq<ReadingModel>, i: int) -> bool {
    0 <= i < readings.len() && fits(role_at(rtype, i).spec_syntax(), readings[i])
}

/// The first position among those that `rtype` takes whose reading does not
/// fit, `None` where all fit. No type takes more than four values.
pub open spec fn first_misfit(rtype: DnsRecordType, readings: Seq<ReadingModel>) -> Option<int> {
    if !field_fits(rtype, readings, 0) {
        Some(0)
    } else if rtype.spec_arity() > 1 && !field_fits(rtype, readings, 1) {
        Some(1)
    } else if rtype.spec_arity() > 2 && !field_fits(rtype, readings, 2) {
        Some(2)
    } else if rtype.spec_arity() > 3 && !field_fits(rtype, readings, 3) {
        Some(3)
    } else {
        None
    }
}

/// The data of a record of type `rtype` whose fields are `values`, read as
/// `readings`.
pub open spec fn data_of(
    rtype: DnsRecordType,
    values: Seq<Seq<char>>,
    readings: Seq<ReadingModel>,
) -> DataModel {
    match rtype {
        DnsRecordType::A => DataModel::A { octets: readings[0]->octets },
        DnsRecordType::AAAA => DataModel::AAAA { segments: readings[0]->segments },
        DnsRecordType::CNAME => DataModel::CNAME { target: values[0] },
        DnsRecordType::MX => DataModel::MX {
            preference: readings[0]->value,
            exchange: values[1],
        },
        DnsRecordType::NS => DataModel::NS { target: values[0] },
        DnsRecordType::PTR => DataModel::PTR { target: values[0] },
        DnsRecordType::SRV => DataModel::SRV {
            priority: readings[0]->value,
            weight: readings[1]->value,
            port: readings[2]->value,
            target: values[3],
        },
        DnsRecordType::TXT => DataModel::TXT { text: values[0] },
    }
}

/// The record that a request makes once its values have been read as
/// `readings`, or the reason why it makes none: the wrong number of values
/// first, else the first value whose reading does not fit its role.
pub open spec fn assembled(request: RequestModel, readings: Seq<ReadingModel>) -> Result<
    RecordModel,
    ErrorModel,
> {
    if !request.has_arity() {
        Err(
            ErrorModel::Arity {
                rtype: request.rtype,
                expected: request.rtype.spec_arity(),
                found: request.values.len(),
            },
        )
    } else {
        match first_misfit(request.rtype, readings) {
            Some(i) => Err(
                ErrorModel::FieldFormat {
                    role: role_at(request.rtype, i),
                    value: request.values[i],
                },
            ),
            None => Ok(
                RecordModel {
                    name: request.name,
                    ttl: request.ttl,
                    rdata: data_of(request.rtype, request.values, readings),
                },
            ),
        }
    }
}

/// The record that a request describes, or the reason why it describes none.
pub open spec fn built(request: RequestModel) -> Result<RecordModel, ErrorModel> {
    assembled(request, readings_of(request))
}

/// The pointer record that leads from the address that `reading` holds back
/// to the name of `request`, or the reason why there is none.
pub open spec fn reversed_from(request: RequestModel, reading: ReadingModel) -> Result<
    RecordModel,
    ErrorModel,
> {
    if request.rtype != DnsRecordType::A && request.rtype != DnsRecordType::AAAA {
        Err(ErrorModel::UnsupportedReverse { rtype: request.rtype })
    } else {
        match assembled(request, seq![reading]) {
            Err(e) => Err(e),
            Ok(forward) => Ok(
                RecordModel {
                    name: reverse_name_of(forward.rdata)->0,
                    ttl: request.ttl,
                    rdata: DataModel::PTR { target: request.name },
                },
            ),
        }
    }
}

/// The pointer record that mirrors a request for an address record, or the
/// reason why there is none.
pub open spec fn reversed(request: RequestModel) -> Result<RecordModel, ErrorModel> {
    reversed_from(request, readings_of(request)[0])
}

/// True where `result` is `expected`, the former by its view.
pub open spec fn record_result_is(
    result: Result<ResourceRecord, UpdateError>,
    expected: Result<RecordModel, ErrorModel>,
) -> bool {
    match result {
        Ok(record) => expected == Ok::<RecordModel, ErrorModel>(record@),
        Err(error) => expected == Err::<RecordModel, ErrorModel>(error@),
    }
}

/// The role of the value at position `i` in a request of type `rtype`.
pub fn field_role(rtype: DnsRecordType, i: usize) -> (role: FieldRole)
    ensures
        role == role_at(rtype, i as int),
{
    match rtype {
        DnsRecordType::A => FieldRole::Ipv4Address,
        DnsRecordType::AAAA => FieldRole::Ipv6Address,
        DnsRecordType::CNAME => FieldRole::CnameTarget,
        DnsRecordType::MX => if i == 0 {
            FieldRole::MxPriority
        } else {
            FieldRole::MxExchange
        },
        DnsRecordType::NS => FieldRole::NsTarget,
        DnsRecordType::PTR => FieldRole::PtrTarget,
        DnsRecordType::SRV => if i == 0 {
            FieldRole::SrvPriority
        } else if i == 1 {
            FieldRole::SrvWeight
        } else if i == 2 {
            FieldRole::SrvPort
        } else {
            FieldRole::SrvTarget
        },
        DnsRecordType::TXT => FieldRole::TxtText,
    }
}

/// Reads `value` as `syntax` asks.
///
/// An address that was read is one that `value` is the dot-decimal notation
/// of.
pub fn read_value(syntax: Syntax, value: &str) -> (reading: Reading)
    ensures
        reading@ == reading_of(syntax, value@),
        reading@ matches ReadingModel::Ipv4 { octets } ==> octets.len() == 4 && ipv4_text(octets)
            == value@,
        reading@ matches ReadingModel::Ipv6 { segments } ==> segments.len() == 8,
{
    match syntax {
        Syntax::Ipv4 => match parse_ipv4(value) {
            Some(octets) => {
                proof {
                    lemma_ipv4_text_injective(ipv4_value(value@)->0, octets@);
                }
                Reading::Ipv4 { octets }
            },
            None => Reading::Unreadable,
        },
        Syntax::Ipv6 => match parse_ipv6(value) {
            Some(segments) => Reading::Ipv6 { segments },
            None => Reading::Unreadable,
        },
        Syntax::Name => if is_domain_name(value) {
            Reading::Name
        } else {
            Reading::Unreadable
        },
        Syntax::Number => match parse_u16(value) {
            Some(value) => Reading::Number { value },
            None => Reading::Unreadable,
        },
        Syntax::Text => Reading::Text,
    }
}

/// The number that was read at position `i`, `None` where none was.
fn number_at(readings: &Vec<Reading>, i: usize) -> (number: Option<u16>)
    ensures
        match number {
            Some(value) => i < readings.len() && readings.deep_view()[i as int]
                == (ReadingModel::Number { value }),
            None => !(i < readings.len() && readings.deep_view()[i as int] is Number),
        },
{
    if i < readings.len() {
        match &readings[i] {
            Reading::Number { value } => Some(*value),
            _ => None,
        }
    } else {
        None
    }
}

/// True where the reading at position `i` is that of a value written in
/// `syntax`.
fn reading_fits(readings: &Vec<Reading>, i: usize, syntax: Syntax) -> (ok: bool)
    ensures
        ok == (i < readings.len() && fits(syntax, readings.deep_view()[i as int])),
{
    if i < readings.len() {
        match (syntax, &readings[i]) {
            (Syntax::Ipv4, Reading::Ipv4 { .. }) => true,
            (Syntax::Ipv6, Reading::Ipv6 { .. }) => true,
            (Syntax::Name, Reading::Name) => true,
            (Syntax::Number, Reading::Number { .. }) => true,
            (Syntax::Text, Reading::Text) => true,
            _ => false,
        }
    } else {
        false
    }
}

/// The error for the value at position `i`, which is not written as its role
/// asks.
fn misfit(request: &RecordRequest, i: usize) -> (error: UpdateError)
    requires
        i < request.values.len(),
    ensures
        error@ == (ErrorModel::FieldFormat {
            role: role_at(request.rtype, i as int),
            value: request@.values[i as int],
        }),
{
    UpdateError::FieldFormat {
        role: field_role(request.rtype, i),
        value: request.values[i].clone(),
    }
}

/// Puts together the record that `request` describes from its values as
/// they were read.
///
/// Fails with `Arity` where the request carries another number of values
/// than its type takes, else with `FieldFormat` for the first position whose
/// reading is missing or does not fit the role of that position.
pub fn record_from_readings(request: &RecordRequest, readings: &Vec<Reading>) -> (result: Result<
    ResourceRecord,
    UpdateError,
>)
    ensures
        record_result_is(result, assembled(request@, readings.deep_view())),
{
    let expected = request.rtype.arity();
    let found = request.values.len();
    if found != expected {
        return Err(UpdateError::Arity { rtype: request.rtype, expected, found });
    }
    let rdata = match request.rtype {
        DnsRecordType::A => {
            if 0 < readings.len() {
                match &readings[0] {
                    Reading::Ipv4 { octets } => RecordData::A { octets: *octets },
                    _ => {
                        return Err(misfit(request, 0));
                    },
                }
            } else {
                return Err(misfit(request, 0));
            }
        },
        DnsRecordType::AAAA => {
            if 0 < readings.len() {
                match &readings[0] {
                    Reading::Ipv6 { segments } => RecordData::AAAA { segments: *segments },
                    _ => {
                        return Err(misfit(request, 0));
                    },
                }
            } else {
                return Err(misfit(request, 0));
            }
        },
        DnsRecordType::CNAME => {
            if !reading_fits(readings, 0, Syntax::Name) {
                return Err(misfit(request, 0));
            }
            RecordData::CNAME { target: request.values[0].clone() }
        },
        DnsRecordType::MX => {
            let preference = match number_at(readings, 0) {
                Some(value) => value,
                None => {
                    return Err(misfit(request, 0));
                },
            };
            if !reading_fits(readings, 1, Syntax::Name) {
                return Err(misfit(request, 1));
            }
            RecordData::MX { preference, exchange: request.values[1].clone() }
        },
        DnsRecordType::NS => {
            if !reading_fits(readings, 0, Syntax::Name) {
                return Err(misfit(request, 0));
            }
            RecordData::NS { target: request.values[0].clone() }
        },
        DnsRecordType::PTR => {
            if !reading_fits(readings, 0, Syntax::Name) {
                return Err(misfit(request, 0));
            }
            RecordData::PTR { target: request.values[0].clone() }
        },
        DnsRecordType::SRV => {
            let priority = match number_at(readings, 0) {
                Some(value) => value,
                None => {
                    return Err(misfit(request, 0));
                },
            };
            let weight = match number_at(readings, 1) {
                Some(value) => value,
                None => {
                    return Err(misfit(request, 1));
                },
            };
            let port = match number_at(readings, 2) {
                Some(value) => value,
                None => {
                    return Err(misfit(request, 2));
                },
            };
            if !reading_fits(readings, 3, Syntax::Name) {
                return Err(misfit(request, 3));
            }
            RecordData::SRV { priority, weight, port, target: request.values[3].clone() }
        },
        DnsRecordType::TXT => {
            if !reading_fits(readings, 0, Syntax::Text) {
                return Err(misfit(request, 0));
            }
            RecordData::TXT { text: request.values[0].clone() }
        },
    };
    Ok(ResourceRecord { name: request.name.clone(), ttl: request.ttl, rdata })
}

/// Reads every value of `request` in the role that its position gives it.
pub fn read_values(request: &RecordRequest) -> (readings: Vec<Reading>)
    ensures
        readings.deep_view() == readings_of(request@),
        request.rtype == DnsRecordType::A && readings.len() > 0 && readings[0]@ is Ipv4
            ==> ipv4_text(readings[0]@->octets) == request@.values[0],
{
    let mut readings: Vec<Reading> = Vec::new();
    let n = request.values.len();
    let mut i: usize = 0;
    while i < n
        invariant
            n == request.values.len(),
            i <= n,
            readings.len() == i,
            forall|j: int|
                0 <= j < i ==> (#[trigger] readings[j])@ == reading_of(
                    role_at(request.rtype, j).spec_syntax(),
                    request@.values[j],
                ),
            request.rtype == DnsRecordType::A && i > 0 && readings[0]@ is Ipv4 ==> ipv4_text(
                readings[0]@->octets,
            ) == request@.values[0],
        decreases n - i,
    {
        let role = field_role(request.rtype, i);
        let reading = read_value(role.syntax(), request.values[i].as_str());
        readings.push(reading);
        i += 1;
    }
    readings
}

/// Makes the record that `request` describes.
///
/// Fails with `Arity` where the request carries another number of values
/// than its type takes: one, but two for MX and four for SRV. Else fails with
/// `FieldFormat` for the first value that is not written as its role asks: an
/// address of the family of the record type, a number of 16 bits, a domain
/// name. The text of a TXT record is taken as it is.
///
/// Where the request carries one value and is not for an AAAA record, the
/// data of the record that was made is written as that value is: the address
/// of an A record is the one that the value is the dot-decimal notation of,
/// and names and texts are kept as they came. So the record's own text, read
/// again, gives the same record. An IPv6 address can be written in several
/// ways, and is written out in one of them.
pub fn build(request: &RecordRequest) -> (result: Result<ResourceRecord, UpdateError>)
    ensures
        record_result_is(result, built(request@)),
        result matches Ok(record) ==> record@.name == request@.name && record@.ttl == request.ttl
            && record@.type_code() == request.rtype.spec_code() && record@.rdata.well_formed(),
        result matches Ok(record) ==> request.rtype != DnsRecordType::AAAA
            && request.rtype.spec_arity() == 1 ==> record@.rdata.text() == request@.values[0],
{
    if request.values.len() != request.rtype.arity() {
        return Err(
            UpdateError::Arity {
                rtype: request.rtype,
                expected: request.rtype.arity(),
                found: request.values.len(),
            },
        );
    }
    let readings = read_values(request);
    let result = record_from_readings(request, &readings);
    proof {
        if let Ok(record) = &result {
            record.rdata.lemma_well_formed();
        }
    }
    result
}

/// A request that carries another number of values than its type takes makes
/// no record, whatever the values are: it fails with `Arity`, which names the
/// type, the number that the type takes and the number that was found.
pub proof fn lemma_wrong_arity_is_refused(request: RequestModel)
    requires
        !request.has_arity(),
    ensures
        built(request) == Err::<RecordModel, ErrorModel>(
            ErrorModel::Arity {
                rtype: request.rtype,
                expected: request.rtype.spec_arity(),
                found: request.values.len(),
            },
        ),
{
}

/// What is built is written as it was asked for: the data of a record that
/// holds one IPv4 address, one name or one text is written as the request's
/// value is, and the request that carries what was written makes the same
/// record.
///
/// An IPv6 address has more than one notation, so its record may be written
/// otherwise than the request's value was.
pub proof fn lemma_text_gives_the_record_back(request: RequestModel)
    requires
        built(request) is Ok,
        request.rtype == DnsRecordType::A || request.rtype == DnsRecordType::CNAME
            || request.rtype == DnsRecordType::NS || request.rtype == DnsRecordType::PTR
            || request.rtype == DnsRecordType::TXT,
    ensures
        ({
            let text = built(request)->Ok_0.rdata.text();
            &&& text == request.values[0]
            &&& built(RequestModel { values: seq![text], ..request }) == built(request)
        }),
{
    if request.rtype == DnsRecordType::A {
        lemma_ipv4_text_of_value(request.values[0]);
    }
}

/// A request whose values are all written as their roles ask, and that
/// carries as many as its type takes, makes a record: one with the name, the
/// time to live and the type of the request.
pub proof fn lemma_readable_request_is_built(request: RequestModel)
    requires
        request.has_arity(),
        forall|i: int|
            0 <= i < request.values.len() ==> !(#[trigger] readings_of(request)[i] is Unreadable),
    ensures
        built(request) matches Ok(record) && record.name == request.name && record.ttl
            == request.ttl && record.type_code() == request.rtype.spec_code(),
{
}

/// Makes the marker that stands for every record of type `rtype` at `name`.
///
/// `ttl` is the time to live of the records that are meant. The marker
/// itself carries zero, as a deletion has to, and no data.
pub fn build_delete_marker(name: String, rtype: DnsRecordType, ttl: u32) -> (marker: ResourceRecord)
    ensures
        marker@ == RecordModel::marker(name@, rtype.spec_code()),
        marker@.is_marker(),
        marker@.type_code() == rtype.spec_code(),
{
    let _ = ttl;
    ResourceRecord::marker(name, rtype.code())
}

/// Makes the pointer record that mirrors `request`, from the request's one
/// value as it was read.
///
/// Fails with `UnsupportedReverse` where the request is for another type than
/// A or AAAA, else as [`record_from_readings`] does.
pub fn reverse_from_reading(request: &RecordRequest, reading: Reading) -> (result: Result<
    ResourceRecord,
    UpdateError,
>)
    ensures
        record_result_is(result, reversed_from(request@, reading@)),
{
    match request.rtype {
        DnsRecordType::A => {},
        DnsRecordType::AAAA => {},
        _ => {
            return Err(UpdateError::UnsupportedReverse { rtype: request.rtype });
        },
    }
    let mut readings: Vec<Reading> = Vec::new();
    readings.push(reading);
    match record_from_readings(request, &readings) {
        Err(error) => Err(error),
        Ok(forward) => match forward.rdata.reverse_name() {
            Some(name) => Ok(
                ResourceRecord {
                    name,
                    ttl: request.ttl,
                    rdata: RecordData::PTR { target: request.name.clone() },
                },
            ),
            None => Err(UpdateError::UnsupportedReverse { rtype: request.rtype }),
        },
    }
}

/// Makes the pointer record that leads from the address of `request` back to
/// its name, with the request's time to live.
///
/// Fails with `UnsupportedReverse` where the request is for another type than
/// A or AAAA, else with `Arity` where it does not carry one value, else with
/// `FieldFormat` where the value is no address of the type's family.
pub fn build_reverse(request: &RecordRequest) -> (result: Result<ResourceRecord, UpdateError>)
    ensures
        record_result_is(result, reversed(request@)),
        result matches Ok(record) ==> record@.ttl == request.ttl && record@.rdata
            == (DataModel::PTR { target: request@.name }),
{
    match request.rtype {
        DnsRecordType::A => {},
        DnsRecordType::AAAA => {},
        _ => {
            return Err(UpdateError::UnsupportedReverse { rtype: request.rtype });
        },
    }
    if request.values.len() != 1 {
        return Err(
            UpdateError::Arity { rtype: request.rtype, expected: 1, found: request.values.len() },
        );
    }
    let role = field_role(request.rtype, 0);
    let reading = read_value(role.syntax(), request.values[0].as_str());
    reverse_from_reading(request, reading)
}

} // verus!
