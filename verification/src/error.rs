//! What can go wrong with an update, each kind with the detail that tells
//! the user what to mend.

use crate::notation::{decimal, decimal_text};
use crate::record::{type_mnemonic, type_text, DnsRecordType};
use vstd::prelude::*;
use vstd::string::StringExecFns;

verus! {

/// The part that one positional value plays in a request.
#[derive(Debug, Clone, Copy, PartialEq, Eq, Structural)]
pub enum FieldRole {
    /// The address of an A record.
    Ipv4Address,
    /// The address of an AAAA record.
    Ipv6Address,
    /// The name that a CNAME record points to.
    CnameTarget,
    /// The priority of an MX record.
    MxPriority,
    /// The mail server of an MX record.
    MxExchange,
    /// The name server of an NS record.
    NsTarget,
    /// The name that a PTR record points to.
    PtrTarget,
    /// The priority of an SRV record.
    SrvPriority,
    /// The weight of an SRV record.
    SrvWeight,
    /// The port of an SRV record.
    SrvPort,
    /// The host of an SRV record.
    SrvTarget,
    /// The text of a TXT record.
    TxtText,
}

/// How the value of a field is written.
#[derive(Debug, Clone, Copy, PartialEq, Eq, Structural)]
pub enum Syntax {
    /// An IPv4 address.
    Ipv4,
    /// An IPv6 address.
    Ipv6,
    /// A domain name.
    Name,
    /// An unsigned number of 16 bits.
    Number,
    /// Any text.
    Text,
}

impl FieldRole {
    /// How a value in this role is written.
    pub open spec fn spec_syntax(self) -> Syntax {
        match self {
            FieldRole::Ipv4Address => Syntax::Ipv4,
            FieldRole::Ipv6Address => Syntax::Ipv6,
            FieldRole::CnameTarget => Syntax::Name,
            FieldRole::MxPriority => Syntax::Number,
            FieldRole::MxExchange => Syntax::Name,
            FieldRole::NsTarget => Syntax::Name,
            FieldRole::PtrTarget => Syntax::Name,
            FieldRole::SrvPriority => Syntax::Number,
            FieldRole::SrvWeight => Syntax::Number,
            FieldRole::SrvPort => Syntax::Number,
            FieldRole::SrvTarget => Syntax::Name,
            FieldRole::TxtText => Syntax::Text,
        }
    }

    /// What the role is called in a message: the record type, and the part
    /// of the record.
    pub open spec fn label(self) -> Seq<char> {
        match self {
            FieldRole::Ipv4Address => "A address"@,
            FieldRole::Ipv6Address => "AAAA address"@,
            FieldRole::CnameTarget => "CNAME name"@,
            FieldRole::MxPriority => "MX priority"@,
            FieldRole::MxExchange => "MX name"@,
            FieldRole::NsTarget => "NS name"@,
            FieldRole::PtrTarget => "PTR name"@,
            FieldRole::SrvPriority => "SRV priority"@,
            FieldRole::SrvWeight => "SRV weight"@,
            FieldRole::SrvPort => "SRV port"@,
            FieldRole::SrvTarget => "SRV name"@,
            FieldRole::TxtText => "TXT text"@,
        }
    }

    /// What the role is called in a message.
    pub fn describe(self) -> (text: &'static str)
        ensures
            text@ == self.label(),
    {
        match self {
            FieldRole::Ipv4Address => "A address",
            FieldRole::Ipv6Address => "AAAA address",
            FieldRole::CnameTarget => "CNAME name",
            FieldRole::MxPriority => "MX priority",
            FieldRole::MxExchange => "MX name",
            FieldRole::NsTarget => "NS name",
            FieldRole::PtrTarget => "PTR name",
            FieldRole::SrvPriority => "SRV priority",
            FieldRole::SrvWeight => "SRV weight",
            FieldRole::SrvPort => "SRV port",
            FieldRole::SrvTarget => "SRV name",
            FieldRole::TxtText => "TXT text",
        }
    }

    /// How a value in this role is written.
    #[verifier::when_used_as_spec(spec_syntax)]
    pub fn syntax(self) -> (syntax: Syntax)
        ensures
            syntax == self.spec_syntax(),
    {
        match self {
            FieldRole::Ipv4Address => Syntax::Ipv4,
            FieldRole::Ipv6Address => Syntax::Ipv6,
            FieldRole::CnameTarget => Syntax::Name,
            FieldRole::MxPriority => Syntax::Number,
            FieldRole::MxExchange => Syntax::Name,
            FieldRole::NsTarget => Syntax::Name,
            FieldRole::PtrTarget => Syntax::Name,
            FieldRole::SrvPriority => Syntax::Number,
            FieldRole::SrvWeight => Syntax::Number,
            FieldRole::SrvPort => Syntax::Number,
            FieldRole::SrvTarget => Syntax::Name,
            FieldRole::TxtText => Syntax::Text,
        }
    }
}

/// Why an update was not carried out.
#[derive(Debug, Clone, PartialEq, Eq)]
pub enum UpdateError {
    /// A value is not written as its role in the record asks.
    FieldFormat { role: FieldRole, value: String },
    /// The request carries another number of values than its type takes.
    Arity { rtype: DnsRecordType, expected: usize, found: usize },
    /// A reverse record was asked for a type that holds no address.
    UnsupportedReverse { rtype: DnsRecordType },
    /// The server answered a query or an update with a status other than
    /// success; `code` is that status.
    ServerError { code: u16 },
    /// The server does not answer with authority for `name`.
    NotAuthoritative { name: String },
    /// The server named no name server for the name that was looked up.
    NoNameServer,
    /// There is no record at `name` that the deletion could remove.
    NothingToDelete { name: String },
    /// The exchange with the server failed before a status came back.
    Transport { detail: String },
}

/// The mathematical model of [`UpdateError`].
pub enum ErrorModel {
    FieldFormat { role: FieldRole, value: Seq<char> },
    Arity { rtype: DnsRecordType, expected: nat, found: nat },
    UnsupportedReverse { rtype: DnsRecordType },
    ServerError { code: u16 },
    NotAuthoritative { name: Seq<char> },
    NoNameServer,
    NothingToDelete { name: Seq<char> },
    Transport { detail: Seq<char> },
}

impl ErrorModel {
    /// The error in words, with the detail that it carries.
    pub open spec fn message(self) -> Seq<char> {
        match self {
            ErrorModel::FieldFormat { role, value } => "Invalid "@ + role.label() + " '"@ + value
                + "'"@,
            ErrorModel::Arity { rtype, expected, found } => "Need "@ + decimal_text(expected)
                + " data fields for "@ + type_text(rtype.spec_code()) + ", found "@ + decimal_text(
                found,
            ),
            ErrorModel::UnsupportedReverse { rtype } => "Can't reverse record type "@ + type_text(
                rtype.spec_code(),
            ),
            ErrorModel::ServerError { code } => "Server returned error code "@ + decimal_text(
                code as nat,
            ),
            ErrorModel::NotAuthoritative { name } => "Server is not authoritative for hostname "@
                + name,
            ErrorModel::NoNameServer => "Server returned no name servers"@,
            ErrorModel::NothingToDelete { name } => "Can't delete name "@ + name
                + " that doesn't exist"@,
            ErrorModel::Transport { detail } => detail,
        }
    }
}

impl UpdateError {
    /// Says in words what went wrong, with the detail that the error carries.
    pub fn message(&self) -> (text: String)
        ensures
            text@ == self@.message(),
    {
        match self {
            UpdateError::FieldFormat { role, value } => {
                let mut text = "Invalid ".to_owned();
                text.append(role.describe());
                text.append(" '");
                text.append(value.as_str());
                text.append("'");
                text
            },
            UpdateError::Arity { rtype, expected, found } => {
                let mut text = "Need ".to_owned();
                text.append(decimal(*expected as u64).as_str());
                text.append(" data fields for ");
                text.append(type_mnemonic(rtype.code()).as_str());
                text.append(", found ");
                text.append(decimal(*found as u64).as_str());
                text
            },
            UpdateError::UnsupportedReverse { rtype } => {
                let mut text = "Can't reverse record type ".to_owned();
                text.append(type_mnemonic(rtype.code()).as_str());
                text
            },
            UpdateError::ServerError { code } => {
                let mut text = "Server returned error code ".to_owned();
                text.append(decimal(*code as u64).as_str());
                text
            },
            UpdateError::NotAuthoritative { name } => {
                let mut text = "Server is not authoritative for hostname ".to_owned();
                text.append(name.as_str());
                text
            },
            UpdateError::NoNameServer => "Server returned no name servers".to_owned(),
            UpdateError::NothingToDelete { name } => {
                let mut text = "Can't delete name ".to_owned();
                text.append(name.as_str());
                text.append(" that doesn't exist");
                text
            },
            UpdateError::Transport { detail } => detail.clone(),
        }
    }
}

impl View for UpdateError {
    type V = ErrorModel;

    open spec fn view(&self) -> ErrorModel {
        match *self {
            UpdateError::FieldFormat { role, value } => ErrorModel::FieldFormat {
                role,
                value: value@,
            },
            UpdateError::Arity { rtype, expected, found } => ErrorModel::Arity {
                rtype,
                expected: expected as nat,
                found: found as nat,
            },
            UpdateError::UnsupportedReverse { rtype } => ErrorModel::UnsupportedReverse { rtype },
            UpdateError::ServerError { code } => ErrorModel::ServerError { code },
            UpdateError::NotAuthoritative { name } => ErrorModel::NotAuthoritative { name: name@ },
            UpdateError::NoNameServer => ErrorModel::NoNameServer,
            UpdateError::NothingToDelete { name } => ErrorModel::NothingToDelete { name: name@ },
            UpdateError::Transport { detail } => ErrorModel::Transport { detail: detail@ },
        }
    }
}

/// A failure that was set aside: the reverse mapping at `name` could not be
/// cleaned up, for the reason that `error` gives.
#[derive(Debug, Clone, PartialEq, Eq)]
pub struct Warning {
    pub name: String,
    pub error: UpdateError,
}

/// The mathematical model of [`Warning`].
pub struct WarningModel {
    pub name: Seq<char>,
    pub error: ErrorModel,
}

impl WarningModel {
    /// The warning in words.
    pub open spec fn message(self) -> Seq<char> {
        "Error deleting reverse name "@ + self.name + ": "@ + self.error.message()
    }
}

impl Warning {
    /// Says in words what was set aside.
    pub fn message(&self) -> (text: String)
        ensures
            text@ == self@.message(),
    {
        let mut text = "Error deleting reverse name ".to_owned();
        text.append(self.name.as_str());
        text.append(": ");
        text.append(self.error.message().as_str());
        text
    }
}

impl View for Warning {
    type V = WarningModel;

    open spec fn view(&self) -> WarningModel {
        WarningModel { name: self.name@, error: self.error@ }
    }
}

impl DeepView for Warning {
    type V = WarningModel;

    open spec fn deep_view(&self) -> WarningModel {
        self@
    }
}

} // verus!
