//! What passes between the library and the session that talks to the name
//! server: the calls that the library asks for, and what the session hands
//! back. The session signs and sends; the library never sees a message.

use crate::record::{RecordModel, ResourceRecord};
use vstd::prelude::*;

verus! {

/// Status of a request that the server carried out.
pub const RCODE_NO_ERROR: u16 = 0;

/// Status of a query for a name that the server does not know.
pub const RCODE_NX_DOMAIN: u16 = 3;

/// The class of all records that this library deals with: Internet.
pub const CLASS_IN: u16 = 1;

/// What came of a call that the server answered: success, or the status with
/// which the server refused or failed.
#[derive(Debug, Clone, Copy, PartialEq, Eq, Structural)]
pub enum OperationOutcome {
    Success,
    ServerError { code: u16 },
}

/// What a status tells of the call that it answers: every status but the one
/// of success is an error.
pub open spec fn outcome_of(code: u16) -> OperationOutcome {
    if code == RCODE_NO_ERROR {
        OperationOutcome::Success
    } else {
        OperationOutcome::ServerError { code }
    }
}

/// What a server answered: its status, whether it answers with authority,
/// and two of the answer's sections.
#[derive(Debug, Clone, PartialEq, Eq)]
pub struct Response {
    pub code: u16,
    pub authoritative: bool,
    pub answers: Vec<ResourceRecord>,
    pub name_servers: Vec<ResourceRecord>,
}

/// The mathematical model of [`Response`].
pub struct ResponseModel {
    pub code: u16,
    pub authoritative: bool,
    pub answers: Seq<RecordModel>,
    pub name_servers: Seq<RecordModel>,
}

impl View for Response {
    type V = ResponseModel;

    open spec fn view(&self) -> ResponseModel {
        ResponseModel {
            code: self.code,
            authoritative: self.authoritative,
            answers: self.answers.deep_view(),
            name_servers: self.name_servers.deep_view(),
        }
    }
}

impl Response {
    /// What the response tells of the call that it answers.
    pub fn outcome(&self) -> (outcome: OperationOutcome)
        ensures
            outcome == outcome_of(self.code),
    {
        if self.code == RCODE_NO_ERROR {
            OperationOutcome::Success
        } else {
            OperationOutcome::ServerError { code: self.code }
        }
    }

    /// A response that carries a status and nothing else, as an update gets.
    pub fn status(code: u16) -> (response: Response)
        ensures
            response@ == (ResponseModel {
                code,
                authoritative: false,
                answers: Seq::empty(),
                name_servers: Seq::empty(),
            }),
    {
        let response = Response {
            code,
            authoritative: false,
            answers: Vec::new(),
            name_servers: Vec::new(),
        };
        assert(response@.answers =~= Seq::empty());
        assert(response@.name_servers =~= Seq::empty());
        response
    }
}

/// What came of one call: the server's response, or a failure to get one.
#[derive(Debug, Clone, PartialEq, Eq)]
pub enum Reply {
    /// The server answered.
    Answered { response: Response },
    /// No answer came: the connection failed, timed out, or the answer could
    /// not be read. `detail` says which.
    Failed { detail: String },
}

/// The mathematical model of [`Reply`].
pub enum ReplyModel {
    Answered { response: ResponseModel },
    Failed { detail: Seq<char> },
}

impl View for Reply {
    type V = ReplyModel;

    open spec fn view(&self) -> ReplyModel {
        match *self {
            Reply::Answered { response } => ReplyModel::Answered { response: response@ },
            Reply::Failed { detail } => ReplyModel::Failed { detail: detail@ },
        }
    }
}

/// One call that the session is to make.
#[derive(Debug, Clone, PartialEq, Eq)]
pub enum Call {
    /// Ask for the records of type `rtype` at `name`.
    Query { name: String, class: u16, rtype: u16 },
    /// Add `record` in `zone`, where no record of its type is at its name yet.
    Create { record: ResourceRecord, zone: String },
    /// Add `record` in `zone` to the records of its type at its name.
    /// `allow_new` is handed to the session as it is.
    Append { record: ResourceRecord, zone: String, allow_new: bool },
    /// Remove from `zone` all records of the type and at the name of `record`.
    DeleteRrset { record: ResourceRecord, zone: String },
    /// Remove from `zone` all records at `name`, of whatever type.
    DeleteAll { name: String, zone: String, class: u16 },
}

/// The mathematical model of [`Call`].
pub enum CallModel {
    Query { name: Seq<char>, class: u16, rtype: u16 },
    Create { record: RecordModel, zone: Seq<char> },
    Append { record: RecordModel, zone: Seq<char>, allow_new: bool },
    DeleteRrset { record: RecordModel, zone: Seq<char> },
    DeleteAll { name: Seq<char>, zone: Seq<char>, class: u16 },
}

impl CallModel {
    /// True of a call that removes records.
    pub open spec fn is_delete(self) -> bool {
        self is DeleteRrset || self is DeleteAll
    }
}

impl View for Call {
    type V = CallModel;

    open spec fn view(&self) -> CallModel {
        match *self {
            Call::Query { name, class, rtype } => CallModel::Query { name: name@, class, rtype },
            Call::Create { record, zone } => CallModel::Create { record: record@, zone: zone@ },
            Call::Append { record, zone, allow_new } => CallModel::Append {
                record: record@,
                zone: zone@,
                allow_new,
            },
            Call::DeleteRrset { record, zone } => CallModel::DeleteRrset {
                record: record@,
                zone: zone@,
            },
            Call::DeleteAll { name, zone, class } => CallModel::DeleteAll {
                name: name@,
                zone: zone@,
                class,
            },
        }
    }
}

impl DeepView for Call {
    type V = CallModel;

    open spec fn deep_view(&self) -> CallModel {
        self@
    }
}

} // verus!
