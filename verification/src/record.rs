//! Resource records as plain values, and their mathematical models.
//!
//! A record is held here in the form in which a user writes it and a server
//! reports it: an owner name, a time to live, and data whose shape depends on
//! the record type. Domain names are kept as text. Addresses are kept as
//! their octets (IPv4) or their eight 16-bit segments (IPv6).

use crate::notation::{decimal, decimal_text, ipv4_text};
use crate::parse::{format_ipv6, ipv6_text};
use vstd::prelude::*;
use vstd::string::StringExecFns;

verus! {

/// Type code of address records for IPv4.
pub const TYPE_A: u16 = 1;

/// Type code of name-server records.
pub const TYPE_NS: u16 = 2;

/// Type code of alias records.
pub const TYPE_CNAME: u16 = 5;

/// Type code of pointer records.
pub const TYPE_PTR: u16 = 12;

/// Type code of mail-exchange records.
pub const TYPE_MX: u16 = 15;

/// Type code of text records.
pub const TYPE_TXT: u16 = 16;

/// Type code of address records for IPv6.
pub const TYPE_AAAA: u16 = 28;

/// Type code of service-location records.
pub const TYPE_SRV: u16 = 33;

/// Type code of signature records, which secured zones add to every record set.
pub const TYPE_RRSIG: u16 = 46;

/// Type code that a query uses to ask for records of every type.
pub const TYPE_ANY: u16 = 255;

/// The record types that a request can name.
#[derive(Debug, Clone, Copy, PartialEq, Eq, Structural)]
pub enum DnsRecordType {
    A,
    AAAA,
    CNAME,
    MX,
    NS,
    PTR,
    SRV,
    TXT,
}

impl DnsRecordType {
    /// The type's code as it is assigned for use on the wire.
    pub open spec fn spec_code(self) -> u16 {
        match self {
            DnsRecordType::A => TYPE_A,
            DnsRecordType::AAAA => TYPE_AAAA,
            DnsRecordType::CNAME => TYPE_CNAME,
            DnsRecordType::MX => TYPE_MX,
            DnsRecordType::NS => TYPE_NS,
            DnsRecordType::PTR => TYPE_PTR,
            DnsRecordType::SRV => TYPE_SRV,
            DnsRecordType::TXT => TYPE_TXT,
        }
    }

    /// The number of positional values that a request of this type carries:
    /// four for SRV (priority, weight, port, target), two for MX (priority,
    /// exchange), one for every other type.
    pub open spec fn spec_arity(self) -> nat {
        match self {
            DnsRecordType::MX => 2,
            DnsRecordType::SRV => 4,
            _ => 1,
        }
    }

    /// The type's code as it is assigned for use on the wire.
    #[verifier::when_used_as_spec(spec_code)]
    pub fn code(self) -> (code: u16)
        ensures
            code == self.spec_code(),
    {
        match self {
            DnsRecordType::A => TYPE_A,
            DnsRecordType::AAAA => TYPE_AAAA,
            DnsRecordType::CNAME => TYPE_CNAME,
            DnsRecordType::MX => TYPE_MX,
            DnsRecordType::NS => TYPE_NS,
            DnsRecordType::PTR => TYPE_PTR,
            DnsRecordType::SRV => TYPE_SRV,
            DnsRecordType::TXT => TYPE_TXT,
        }
    }

    /// The type that `code` stands for, if a request can name it.
    pub fn from_code(code: u16) -> (found: Option<DnsRecordType>)
        ensures
            match found {
                Some(t) => t.spec_code() == code,
                None => forall|t: DnsRecordType| t.spec_code() != code,
            },
    {
        if code == TYPE_A {
            Some(DnsRecordType::A)
        } else if code == TYPE_AAAA {
            Some(DnsRecordType::AAAA)
        } else if code == TYPE_CNAME {
            Some(DnsRecordType::CNAME)
        } else if code == TYPE_MX {
            Some(DnsRecordType::MX)
        } else if code == TYPE_NS {
            Some(DnsRecordType::NS)
        } else if code == TYPE_PTR {
            Some(DnsRecordType::PTR)
        } else if code == TYPE_SRV {
            Some(DnsRecordType::SRV)
        } else if code == TYPE_TXT {
            Some(DnsRecordType::TXT)
        } else {
            None
        }
    }

    /// The number of positional values that a request of this type carries.
    pub fn arity(self) -> (n: usize)
        ensures
            n == self.spec_arity(),
    {
        match self {
            DnsRecordType::MX => 2,
            DnsRecordType::SRV => 4,
            _ => 1,
        }
    }
}

/// Two record types with one code are one type.
pub proof fn lemma_code_injective(a: DnsRecordType, b: DnsRecordType)
    requires
        a.spec_code() == b.spec_code(),
    ensures
        a == b,
{
}

/// The name by which the record type of code `code` is written: its
/// mnemonic where a request can name the type, else `TYPE` and the code.
pub open spec fn type_text(code: u16) -> Seq<char> {
    if code == TYPE_A {
        "A"@
    } else if code == TYPE_AAAA {
        "AAAA"@
    } else if code == TYPE_CNAME {
        "CNAME"@
    } else if code == TYPE_MX {
        "MX"@
    } else if code == TYPE_NS {
        "NS"@
    } else if code == TYPE_PTR {
        "PTR"@
    } else if code == TYPE_SRV {
        "SRV"@
    } else if code == TYPE_TXT {
        "TXT"@
    } else {
        "TYPE"@ + decimal_text(code as nat)
    }
}

/// Writes the name of the record type of code `code`.
pub fn type_mnemonic(code: u16) -> (text: String)
    ensures
        text@ == type_text(code),
{
    if code == TYPE_A {
        "A".to_owned()
    } else if code == TYPE_AAAA {
        "AAAA".to_owned()
    } else if code == TYPE_CNAME {
        "CNAME".to_owned()
    } else if code == TYPE_MX {
        "MX".to_owned()
    } else if code == TYPE_NS {
        "NS".to_owned()
    } else if code == TYPE_PTR {
        "PTR".to_owned()
    } else if code == TYPE_SRV {
        "SRV".to_owned()
    } else if code == TYPE_TXT {
        "TXT".to_owned()
    } else {
        let mut text = "TYPE".to_owned();
        let number = decimal(code as u64);
        text.append(number.as_str());
        text
    }
}

/// The data of a record, one variant for each type that a request can name.
///
/// `Empty` is the data of a marker that stands for a whole record set of one
/// type; `Other` stands for data of a type that this library does not read.
#[derive(Debug, Clone, PartialEq, Eq)]
pub enum RecordData {
    A { octets: [u8; 4] },
    AAAA { segments: [u16; 8] },
    CNAME { target: String },
    MX { preference: u16, exchange: String },
    NS { target: String },
    PTR { target: String },
    SRV { priority: u16, weight: u16, port: u16, target: String },
    TXT { text: String },
    Empty { code: u16 },
    Other { code: u16 },
}

/// The mathematical model of [`RecordData`].
pub enum DataModel {
    A { octets: Seq<u8> },
    AAAA { segments: Seq<u16> },
    CNAME { target: Seq<char> },
    MX { preference: u16, exchange: Seq<char> },
    NS { target: Seq<char> },
    PTR { target: Seq<char> },
    SRV { priority: u16, weight: u16, port: u16, target: Seq<char> },
    TXT { text: Seq<char> },
    Empty { code: u16 },
    Other { code: u16 },
}

impl DataModel {
    /// The code of the record type that data of this shape belongs to.
    pub open spec fn type_code(self) -> u16 {
        match self {
            DataModel::A { .. } => TYPE_A,
            DataModel::AAAA { .. } => TYPE_AAAA,
            DataModel::CNAME { .. } => TYPE_CNAME,
            DataModel::MX { .. } => TYPE_MX,
            DataModel::NS { .. } => TYPE_NS,
            DataModel::PTR { .. } => TYPE_PTR,
            DataModel::SRV { .. } => TYPE_SRV,
            DataModel::TXT { .. } => TYPE_TXT,
            DataModel::Empty { code } => code,
            DataModel::Other { code } => code,
        }
    }

    /// The data as it is written: an address in the notation of its family,
    /// a name or a text as it is, numbers in decimal, and a space between
    /// the fields of a record that has several. Data that this library does
    /// not read, and the data of a marker, is written as nothing.
    pub open spec fn text(self) -> Seq<char> {
        match self {
            DataModel::A { octets } => ipv4_text(octets),
            DataModel::AAAA { segments } => ipv6_text(segments),
            DataModel::CNAME { target } => target,
            DataModel::MX { preference, exchange } => decimal_text(preference as nat) + " "@
                + exchange,
            DataModel::NS { target } => target,
            DataModel::PTR { target } => target,
            DataModel::SRV { priority, weight, port, target } => decimal_text(priority as nat)
                + " "@ + decimal_text(weight as nat) + " "@ + decimal_text(port as nat) + " "@
                + target,
            DataModel::TXT { text } => text,
            DataModel::Empty { .. } => Seq::empty(),
            DataModel::Other { .. } => Seq::empty(),
        }
    }

    /// Address data has as many octets or segments as its family asks for.
    pub open spec fn well_formed(self) -> bool {
        match self {
            DataModel::A { octets } => octets.len() == 4,
            DataModel::AAAA { segments } => segments.len() == 8,
            _ => true,
        }
    }
}

impl View for RecordData {
    type V = DataModel;

    open spec fn view(&self) -> DataModel {
        match *self {
            RecordData::A { octets } => DataModel::A { octets: octets@ },
            RecordData::AAAA { segments } => DataModel::AAAA { segments: segments@ },
            RecordData::CNAME { target } => DataModel::CNAME { target: target@ },
            RecordData::MX { preference, exchange } => DataModel::MX {
                preference,
                exchange: exchange@,
            },
            RecordData::NS { target } => DataModel::NS { target: target@ },
            RecordData::PTR { target } => DataModel::PTR { target: target@ },
            RecordData::SRV { priority, weight, port, target } => DataModel::SRV {
                priority,
                weight,
                port,
                target: target@,
            },
            RecordData::TXT { text } => DataModel::TXT { text: text@ },
            RecordData::Empty { code } => DataModel::Empty { code },
            RecordData::Other { code } => DataModel::Other { code },
        }
    }
}

impl RecordData {
    /// The code of the record type that this data belongs to.
    pub fn type_code(&self) -> (code: u16)
        ensures
            code == self@.type_code(),
    {
        match self {
            RecordData::A { .. } => TYPE_A,
            RecordData::AAAA { .. } => TYPE_AAAA,
            RecordData::CNAME { .. } => TYPE_CNAME,
            RecordData::MX { .. } => TYPE_MX,
            RecordData::NS { .. } => TYPE_NS,
            RecordData::PTR { .. } => TYPE_PTR,
            RecordData::SRV { .. } => TYPE_SRV,
            RecordData::TXT { .. } => TYPE_TXT,
            RecordData::Empty { code } => *code,
            RecordData::Other { code } => *code,
        }
    }

    /// Writes the data out.
    pub fn to_text(&self) -> (text: String)
        ensures
            text@ == self@.text(),
    {
        match self {
            RecordData::A { octets } => {
                let mut text = decimal(octets[0] as u64);
                text.append(".");
                text.append(decimal(octets[1] as u64).as_str());
                text.append(".");
                text.append(decimal(octets[2] as u64).as_str());
                text.append(".");
                text.append(decimal(octets[3] as u64).as_str());
                proof {
                    reveal_strlit(".");
                }
                text
            },
            RecordData::AAAA { segments } => format_ipv6(segments),
            RecordData::CNAME { target } => target.clone(),
            RecordData::MX { preference, exchange } => {
                let mut text = decimal(*preference as u64);
                text.append(" ");
                text.append(exchange.as_str());
                text
            },
            RecordData::NS { target } => target.clone(),
            RecordData::PTR { target } => target.clone(),
            RecordData::SRV { priority, weight, port, target } => {
                let mut text = decimal(*priority as u64);
                text.append(" ");
                text.append(decimal(*weight as u64).as_str());
                text.append(" ");
                text.append(decimal(*port as u64).as_str());
                text.append(" ");
                text.append(target.as_str());
                text
            },
            RecordData::TXT { text } => text.clone(),
            RecordData::Empty { .. } => String::new(),
            RecordData::Other { .. } => String::new(),
        }
    }

    /// Every value of this type has a well-formed model.
    pub proof fn lemma_well_formed(self)
        ensures
            self@.well_formed(),
    {
    }
}

/// One resource record: the name that owns it, how long it may be cached, and
/// its data. The record's type is that of its data.
#[derive(Debug, Clone, PartialEq, Eq)]
pub struct ResourceRecord {
    pub name: String,
    pub ttl: u32,
    pub rdata: RecordData,
}

/// The mathematical model of [`ResourceRecord`].
pub struct RecordModel {
    pub name: Seq<char>,
    pub ttl: u32,
    pub rdata: DataModel,
}

impl RecordModel {
    /// The code of the record's type.
    pub open spec fn type_code(self) -> u16 {
        self.rdata.type_code()
    }

    /// The record as it is written on one line: owner, time to live, type
    /// and data, with a space between them. A record whose data is written
    /// as nothing ends with its type.
    pub open spec fn text(self) -> Seq<char> {
        let head = self.name + " "@ + decimal_text(self.ttl as nat) + " "@ + type_text(
            self.type_code(),
        );
        if self.rdata.text().len() == 0 {
            head
        } else {
            head + " "@ + self.rdata.text()
        }
    }

    /// The marker that stands for every record of type `code` at `name`: no
    /// data, and a time to live of zero.
    pub open spec fn marker(name: Seq<char>, code: u16) -> RecordModel {
        RecordModel { name, ttl: 0, rdata: DataModel::Empty { code } }
    }

    /// True of a record that is such a marker.
    pub open spec fn is_marker(self) -> bool {
        self.ttl == 0 && self.rdata is Empty
    }
}

impl View for ResourceRecord {
    type V = RecordModel;

    open spec fn view(&self) -> RecordModel {
        RecordModel { name: self.name@, ttl: self.ttl, rdata: self.rdata@ }
    }
}

impl DeepView for ResourceRecord {
    type V = RecordModel;

    open spec fn deep_view(&self) -> RecordModel {
        self@
    }
}

impl ResourceRecord {
    /// The code of the record's type.
    pub fn type_code(&self) -> (code: u16)
        ensures
            code == self@.type_code(),
    {
        self.rdata.type_code()
    }

    /// Writes the record out on one line.
    pub fn to_text(&self) -> (text: String)
        ensures
            text@ == self@.text(),
    {
        let mut text = self.name.clone();
        text.append(" ");
        text.append(decimal(self.ttl as u64).as_str());
        text.append(" ");
        text.append(type_mnemonic(self.type_code()).as_str());
        let data = self.rdata.to_text();
        if data.as_str().unicode_len() != 0 {
            text.append(" ");
            text.append(data.as_str());
        }
        text
    }

    /// The marker that stands for every record of type `code` at `name`.
    pub fn marker(name: String, code: u16) -> (record: ResourceRecord)
        ensures
            record@ == RecordModel::marker(name@, code),
    {
        ResourceRecord { name, ttl: 0, rdata: RecordData::Empty { code } }
    }
}

} // verus!
