//! The update itself, as a machine that the caller drives.
//!
//! The machine never talks to the server. [`Orchestrator::begin`] and
//! [`Orchestrator::advance`] each name the one call that is to be made next;
//! the caller makes it and hands back what came of it. Every call is made
//! once: there are no retries.
//!
//! An update proceeds in rounds. A round looks a name up (one query for
//! records of every type, one for name servers), decides from the answers
//! which calls change the name as asked ([`plan`]), and makes those calls in
//! order, each only after the one before it has succeeded. The first round
//! is for the name that the command is about. With `reverse`, a write is
//! followed by a round that writes the pointer record for the address, and a
//! deletion by one round for each address that was removed, which deletes
//! the pointer to it. A failure in the first two kinds of round ends the
//! update. A failure in a round of the last kind is set aside as a warning,
//! and the next address has its turn: what has been deleted stays deleted.
//!
//! Replacing a record takes two calls, a deletion and a creation, and the
//! server may carry out the first and not the second. The name is then left
//! without the record.

use crate::codec::{build, build_reverse, built, reversed, RecordRequest, RequestModel};
use crate::error::{ErrorModel, UpdateError, Warning, WarningModel};
use crate::record::{
    DnsRecordType, RecordModel, ResourceRecord, TYPE_ANY, TYPE_NS,
};
use crate::resolver::{resolve, resolved, ContextModel, ZoneContext};
use crate::reverse::{reverse_targets, sweep_targets};
use crate::session::{
    outcome_of, Call, CallModel, OperationOutcome, Reply, ReplyModel, Response, ResponseModel,
    CLASS_IN,
};
use vstd::prelude::*;

verus! {

/// How a name is to be changed.
#[derive(Debug, Clone, Copy, PartialEq, Eq, Structural)]
pub enum Mode {
    /// Put the record at the name, in place of any records of its type.
    CreateOrReplace,
    /// Put the record at the name, beside the records of its type.
    Append,
    /// Remove records from the name.
    Delete,
}

/// What is asked of the library.
#[derive(Debug, Clone, PartialEq, Eq)]
pub enum Command {
    /// Put the record that `request` describes at its name: beside the
    /// records of its type with `append`, in their place without. With
    /// `reverse`, then do the same with the pointer record for its address.
    Write { request: RecordRequest, append: bool, reverse: bool },
    /// Remove the records of type `rtype` from `name`, or all records where
    /// no type is given. With `reverse`, then remove the pointer to each
    /// address that was removed.
    Delete { name: String, rtype: Option<DnsRecordType>, reverse: bool },
}

/// The mathematical model of [`Command`].
pub enum CommandModel {
    Write { request: RequestModel, append: bool, reverse: bool },
    Delete { name: Seq<char>, rtype: Option<DnsRecordType>, reverse: bool },
}

impl CommandModel {
    /// How the command changes its name.
    pub open spec fn mode(self) -> Mode {
        match self {
            CommandModel::Write { append, .. } => if append {
                Mode::Append
            } else {
                Mode::CreateOrReplace
            },
            CommandModel::Delete { .. } => Mode::Delete,
        }
    }

    /// The name that the command is about.
    pub open spec fn name(self) -> Seq<char> {
        match self {
            CommandModel::Write { request, .. } => request.name,
            CommandModel::Delete { name, .. } => name,
        }
    }

    /// True where the reverse mapping is to follow.
    pub open spec fn reverse(self) -> bool {
        match self {
            CommandModel::Write { reverse, .. } => reverse,
            CommandModel::Delete { reverse, .. } => reverse,
        }
    }
}

impl View for Command {
    type V = CommandModel;

    open spec fn view(&self) -> CommandModel {
        match *self {
            Command::Write { request, append, reverse } => CommandModel::Write {
                request: request@,
                append,
                reverse,
            },
            Command::Delete { name, rtype, reverse } => CommandModel::Delete {
                name: name@,
                rtype,
                reverse,
            },
        }
    }
}

impl Command {
    /// How the command changes its name.
    pub fn mode(&self) -> (mode: Mode)
        ensures
            mode == self@.mode(),
    {
        match self {
            Command::Write { append, .. } => if *append {
                Mode::Append
            } else {
                Mode::CreateOrReplace
            },
            Command::Delete { .. } => Mode::Delete,
        }
    }
}

/// What one round is to do at its name.
#[derive(Debug, Clone, PartialEq, Eq)]
pub enum Intent {
    /// Put `record` there.
    Write { record: ResourceRecord, append: bool },
    /// Remove what is there. Nothing there is an error.
    Erase,
    /// Remove what is there, if anything is.
    Sweep,
}

/// The mathematical model of [`Intent`].
pub enum IntentModel {
    Write { record: RecordModel, append: bool },
    Erase,
    Sweep,
}

impl IntentModel {
    /// How the round changes its name.
    pub open spec fn mode(self) -> Mode {
        match self {
            IntentModel::Write { append, .. } => if append {
                Mode::Append
            } else {
                Mode::CreateOrReplace
            },
            _ => Mode::Delete,
        }
    }
}

impl View for Intent {
    type V = IntentModel;

    open spec fn view(&self) -> IntentModel {
        match *self {
            Intent::Write { record, append } => IntentModel::Write { record: record@, append },
            Intent::Erase => IntentModel::Erase,
            Intent::Sweep => IntentModel::Sweep,
        }
    }
}

/// The call that removes from `zone` what `filter` selects at `name`: the
/// records of one type, or all records where no type is given.
pub open spec fn removal(
    name: Seq<char>,
    filter: Option<DnsRecordType>,
    zone: Seq<char>,
) -> CallModel {
    match filter {
        Some(rtype) => CallModel::DeleteRrset {
            record: RecordModel::marker(name, rtype.spec_code()),
            zone,
        },
        None => CallModel::DeleteAll { name, zone, class: CLASS_IN },
    }
}

/// The calls that carry out `intent` at `name`, in the order in which they
/// are to be made, or the reason why there are none to make.
///
/// | at the name        | replace          | append | erase           | sweep  |
/// |--------------------|------------------|--------|-----------------|--------|
/// | nothing exists     | create           | create | NothingToDelete | none   |
/// | something exists   | delete, create   | append | delete          | delete |
pub open spec fn planned(
    intent: IntentModel,
    name: Seq<char>,
    filter: Option<DnsRecordType>,
    context: ContextModel,
) -> Result<Seq<CallModel>, ErrorModel> {
    let zone = context.zone_name;
    let occupied = context.existing.len() > 0;
    match intent {
        IntentModel::Write { record, append } => if !occupied {
            Ok(seq![CallModel::Create { record, zone }])
        } else if append {
            Ok(seq![CallModel::Append { record, zone, allow_new: true }])
        } else {
            Ok(
                seq![
                    CallModel::DeleteRrset {
                        record: RecordModel::marker(record.name, record.type_code()),
                        zone,
                    },
                    CallModel::Create { record, zone },
                ],
            )
        },
        IntentModel::Erase => if occupied {
            Ok(seq![removal(name, filter, zone)])
        } else {
            Err(ErrorModel::NothingToDelete { name })
        },
        IntentModel::Sweep => if occupied {
            Ok(seq![removal(name, filter, zone)])
        } else {
            Ok(Seq::empty())
        },
    }
}

/// The decision by mode. Where something exists at the name, a replacement
/// is a deletion followed by a creation, an append is one append, and a
/// deletion is one deletion. Where nothing exists, a replacement and an
/// append are one creation, a deletion that is not a sweep fails with
/// `NothingToDelete`, and a sweep is no call at all.
pub proof fn lemma_plan_by_mode(
    intent: IntentModel,
    name: Seq<char>,
    filter: Option<DnsRecordType>,
    context: ContextModel,
)
    ensures
        context.existing.len() > 0 ==> (match intent.mode() {
            Mode::CreateOrReplace => planned(intent, name, filter, context) matches Ok(calls)
                && calls.len() == 2 && calls[0] is DeleteRrset && calls[0].is_delete()
                && calls[0]->DeleteRrset_record.is_marker() && calls[1] == (CallModel::Create {
                record: intent->record,
                zone: context.zone_name,
            }),
            Mode::Append => planned(intent, name, filter, context) matches Ok(calls) && calls.len()
                == 1 && calls[0] == (CallModel::Append {
                record: intent->record,
                zone: context.zone_name,
                allow_new: true,
            }),
            Mode::Delete => planned(intent, name, filter, context) matches Ok(calls) && calls.len()
                == 1 && calls[0].is_delete(),
        }),
        context.existing.len() == 0 ==> (match intent.mode() {
            Mode::Delete => if intent is Erase {
                planned(intent, name, filter, context) == Err::<Seq<CallModel>, ErrorModel>(
                    ErrorModel::NothingToDelete { name },
                )
            } else {
                planned(intent, name, filter, context) == Ok::<Seq<CallModel>, ErrorModel>(
                    Seq::empty(),
                )
            },
            _ => planned(intent, name, filter, context) matches Ok(calls) && calls.len() == 1
                && calls[0] == (CallModel::Create {
                record: intent->record,
                zone: context.zone_name,
            }),
        }),
{
}

/// True where `result` is `expected`, the former by its view.
pub open spec fn plan_result_is(
    result: Result<Vec<Call>, UpdateError>,
    expected: Result<Seq<CallModel>, ErrorModel>,
) -> bool {
    match result {
        Ok(calls) => expected == Ok::<Seq<CallModel>, ErrorModel>(calls.deep_view()),
        Err(error) => expected == Err::<Seq<CallModel>, ErrorModel>(error@),
    }
}

/// Makes the call that removes from `zone` what `filter` selects at `name`.
pub fn removal_call(name: &str, filter: Option<DnsRecordType>, zone: String) -> (call: Call)
    ensures
        call@ == removal(name@, filter, zone@),
{
    match filter {
        Some(rtype) => Call::DeleteRrset {
            record: ResourceRecord::marker(name.to_owned(), rtype.code()),
            zone,
        },
        None => Call::DeleteAll { name: name.to_owned(), zone, class: CLASS_IN },
    }
}

/// Decides which calls carry out `intent` at `name`, where the lookup of
/// `name` with `filter` has shown `context`.
///
/// Where nothing exists at the name, a record is created, a deletion fails
/// with `NothingToDelete`, and a sweep has nothing to do. Where something
/// exists, a record is appended with `append`, and else put in place of the
/// records of its type: these are first deleted, then the record is created.
/// A deletion or a sweep removes the records of the type that `filter` names,
/// and all records where it names none.
pub fn plan(
    intent: Intent,
    name: &str,
    filter: Option<DnsRecordType>,
    context: ZoneContext,
) -> (result: Result<Vec<Call>, UpdateError>)
    ensures
        plan_result_is(result, planned(intent@, name@, filter, context@)),
{
    let ZoneContext { zone_name, existing } = context;
    let occupied = existing.len() > 0;
    let mut calls: Vec<Call> = Vec::new();
    match intent {
        Intent::Write { record, append } => {
            if !occupied {
                let call = Call::Create { record, zone: zone_name };
                calls.push(call);
                assert(calls.deep_view() =~= seq![call@]);
            } else if append {
                let call = Call::Append { record, zone: zone_name, allow_new: true };
                calls.push(call);
                assert(calls.deep_view() =~= seq![call@]);
            } else {
                let marker = ResourceRecord::marker(record.name.clone(), record.type_code());
                let first = Call::DeleteRrset { record: marker, zone: zone_name.clone() };
                let second = Call::Create { record, zone: zone_name };
                calls.push(first);
                calls.push(second);
                assert(calls.deep_view() =~= seq![first@, second@]);
            }
            Ok(calls)
        },
        Intent::Erase => {
            if occupied {
                let call = removal_call(name, filter, zone_name);
                calls.push(call);
                assert(calls.deep_view() =~= seq![call@]);
                Ok(calls)
            } else {
                Err(UpdateError::NothingToDelete { name: name.to_owned() })
            }
        },
        Intent::Sweep => {
            if occupied {
                let call = removal_call(name, filter, zone_name);
                calls.push(call);
                assert(calls.deep_view() =~= seq![call@]);
            } else {
                assert(calls.deep_view() =~= Seq::<CallModel>::empty());
            }
            Ok(calls)
        },
    }
}

/// Which kind of round the machine is in.
#[derive(Debug, Clone, Copy, PartialEq, Eq, Structural)]
pub enum Role {
    /// The round for the name that the command is about.
    Primary,
    /// The round that writes the pointer record after a write.
    Mirror,
    /// A round that removes the pointer to one address after a deletion.
    Sweep,
}

/// How far a round has come.
#[derive(Debug, Clone, PartialEq, Eq)]
pub enum Stage {
    /// The query for records of every type is out.
    AwaitAny { intent: Intent },
    /// That query was answered with `any`, and the query for name servers is
    /// out.
    AwaitNs { intent: Intent, any: Response },
    /// A call that changes the name is out, and `rest` are to follow it.
    AwaitChange { rest: Vec<Call> },
}

/// The mathematical model of [`Stage`].
pub enum StageModel {
    AwaitAny { intent: IntentModel },
    AwaitNs { intent: IntentModel, any: ResponseModel },
    AwaitChange { rest: Seq<CallModel> },
}

impl View for Stage {
    type V = StageModel;

    open spec fn view(&self) -> StageModel {
        match *self {
            Stage::AwaitAny { intent } => StageModel::AwaitAny { intent: intent@ },
            Stage::AwaitNs { intent, any } => StageModel::AwaitNs { intent: intent@, any: any@ },
            Stage::AwaitChange { rest } => StageModel::AwaitChange { rest: rest.deep_view() },
        }
    }
}

/// An update under way: one call is out, and the machine waits to be told
/// what came of it.
#[derive(Debug, Clone, PartialEq, Eq)]
pub struct Orchestrator {
    /// What was asked.
    pub command: Command,
    /// The kind of round that is under way.
    pub role: Role,
    /// The name that the round is about.
    pub name: String,
    /// The type that the round's lookup is narrowed to, if any.
    pub filter: Option<DnsRecordType>,
    /// How far the round has come.
    pub stage: Stage,
    /// The names whose pointers are still to be removed, after this round.
    pub targets: Vec<String>,
    /// The failures that were set aside so far.
    pub warnings: Vec<Warning>,
}

/// The mathematical model of [`Orchestrator`].
pub struct MachineModel {
    pub command: CommandModel,
    pub role: Role,
    pub name: Seq<char>,
    pub filter: Option<DnsRecordType>,
    pub stage: StageModel,
    pub targets: Seq<Seq<char>>,
    pub warnings: Seq<WarningModel>,
}

impl View for Orchestrator {
    type V = MachineModel;

    open spec fn view(&self) -> MachineModel {
        MachineModel {
            command: self.command@,
            role: self.role,
            name: self.name@,
            filter: self.filter,
            stage: self.stage@,
            targets: self.targets.deep_view(),
            warnings: self.warnings.deep_view(),
        }
    }
}

/// How an update ended: with success or the error that ended it, and with
/// the failures that were set aside on the way.
#[derive(Debug, PartialEq, Eq)]
pub struct Outcome {
    pub result: Result<(), UpdateError>,
    pub warnings: Vec<Warning>,
}

/// The mathematical model of [`Outcome`].
pub struct OutcomeModel {
    pub result: Result<(), ErrorModel>,
    pub warnings: Seq<WarningModel>,
}

/// The model of a result that carries nothing on success.
pub open spec fn unit_result_view(result: Result<(), UpdateError>) -> Result<(), ErrorModel> {
    match result {
        Ok(()) => Ok(()),
        Err(error) => Err(error@),
    }
}

impl View for Outcome {
    type V = OutcomeModel;

    open spec fn view(&self) -> OutcomeModel {
        OutcomeModel {
            result: unit_result_view(self.result),
            warnings: self.warnings.deep_view(),
        }
    }
}

/// Where an update stands after a step.
#[derive(Debug, PartialEq, Eq)]
pub enum Progress {
    /// `call` is to be made, and what comes of it handed to `machine`.
    Pending { machine: Orchestrator, call: Call },
    /// The update is over, and no call is to be made.
    Finished { outcome: Outcome },
}

/// The mathematical model of [`Progress`].
pub enum ProgressModel {
    Pending { machine: MachineModel, call: CallModel },
    Finished { outcome: OutcomeModel },
}

impl View for Progress {
    type V = ProgressModel;

    open spec fn view(&self) -> ProgressModel {
        match *self {
            Progress::Pending { machine, call } => ProgressModel::Pending {
                machine: machine@,
                call: call@,
            },
            Progress::Finished { outcome } => ProgressModel::Finished { outcome: outcome@ },
        }
    }
}

/// The end of an update.
pub open spec fn finished(
    result: Result<(), ErrorModel>,
    warnings: Seq<WarningModel>,
) -> ProgressModel {
    ProgressModel::Finished { outcome: OutcomeModel { result, warnings } }
}

/// The start of a round: the machine turns to `name`, and the query for
/// records of every type goes out.
pub open spec fn opened(
    machine: MachineModel,
    name: Seq<char>,
    filter: Option<DnsRecordType>,
    intent: IntentModel,
) -> ProgressModel {
    ProgressModel::Pending {
        machine: MachineModel { name, filter, stage: StageModel::AwaitAny { intent }, ..machine },
        call: CallModel::Query { name, class: CLASS_IN, rtype: TYPE_ANY },
    }
}

/// The turn to the next name whose pointer is to be removed, or the end of
/// the update where none is left.
pub open spec fn swept(machine: MachineModel) -> ProgressModel {
    if machine.targets.len() == 0 {
        finished(Ok(()), machine.warnings)
    } else {
        opened(
            MachineModel { role: Role::Sweep, targets: machine.targets.remove(0), ..machine },
            machine.targets[0],
            Some(DnsRecordType::PTR),
            IntentModel::Sweep,
        )
    }
}

/// What follows a round that ended with `result`.
///
/// After the first round and after the round for the pointer record, an
/// error ends the update. After a round that removes a pointer, an error is
/// set aside, and the next name has its turn.
pub open spec fn settled(machine: MachineModel, result: Result<(), ErrorModel>) -> ProgressModel {
    match machine.role {
        Role::Primary => match result {
            Err(error) => finished(Err(error), machine.warnings),
            Ok(()) => match machine.command {
                CommandModel::Write { request, append, reverse } => if !reverse {
                    finished(Ok(()), machine.warnings)
                } else {
                    match reversed(request) {
                        Err(error) => finished(Err(error), machine.warnings),
                        Ok(record) => opened(
                            MachineModel { role: Role::Mirror, ..machine },
                            record.name,
                            Some(DnsRecordType::PTR),
                            IntentModel::Write { record, append },
                        ),
                    }
                },
                CommandModel::Delete { reverse, .. } => if reverse {
                    swept(machine)
                } else {
                    finished(Ok(()), machine.warnings)
                },
            },
        },
        Role::Mirror => finished(result, machine.warnings),
        Role::Sweep => match result {
            Ok(()) => swept(machine),
            Err(error) => swept(
                MachineModel {
                    warnings: machine.warnings.push(WarningModel { name: machine.name, error }),
                    ..machine
                },
            ),
        },
    }
}

/// What follows once `calls` are all that is left of a round: the first of
/// them goes out, or the round has ended well where there is none.
pub open spec fn continued(machine: MachineModel, calls: Seq<CallModel>) -> ProgressModel {
    if calls.len() == 0 {
        settled(machine, Ok(()))
    } else {
        ProgressModel::Pending {
            machine: MachineModel {
                stage: StageModel::AwaitChange { rest: calls.remove(0) },
                ..machine
            },
            call: calls[0],
        }
    }
}

/// The machine once the lookup of its first round has shown `context`: where
/// the command is a deletion with `reverse`, the addresses that the deletion
/// removes are noted for the rounds that follow.
pub open spec fn noted(machine: MachineModel, context: ContextModel) -> MachineModel {
    if machine.role == Role::Primary && machine.command is Delete && machine.command.reverse() {
        MachineModel { targets: sweep_targets(context.existing), ..machine }
    } else {
        machine
    }
}

/// Where the update stands once `reply` has come to the call that is out.
pub open spec fn advanced(machine: MachineModel, reply: ReplyModel) -> ProgressModel {
    match reply {
        ReplyModel::Failed { detail } => settled(machine, Err(ErrorModel::Transport { detail })),
        ReplyModel::Answered { response } => match machine.stage {
            StageModel::AwaitAny { intent } => ProgressModel::Pending {
                machine: MachineModel {
                    stage: StageModel::AwaitNs { intent, any: response },
                    ..machine
                },
                call: CallModel::Query { name: machine.name, class: CLASS_IN, rtype: TYPE_NS },
            },
            StageModel::AwaitNs { intent, any } => match resolved(
                machine.name,
                any,
                response,
                machine.filter,
            ) {
                Err(error) => settled(machine, Err(error)),
                Ok(context) => match planned(intent, machine.name, machine.filter, context) {
                    Err(error) => settled(machine, Err(error)),
                    Ok(calls) => continued(noted(machine, context), calls),
                },
            },
            StageModel::AwaitChange { rest } => match outcome_of(response.code) {
                OperationOutcome::Success => continued(machine, rest),
                OperationOutcome::ServerError { code } => settled(
                    machine,
                    Err(ErrorModel::ServerError { code }),
                ),
            },
        },
    }
}

/// The machine before its first round.
pub open spec fn idle(command: CommandModel) -> MachineModel {
    MachineModel {
        command,
        role: Role::Primary,
        name: Seq::empty(),
        filter: None,
        stage: StageModel::AwaitChange { rest: Seq::empty() },
        targets: Seq::empty(),
        warnings: Seq::empty(),
    }
}

/// Where the update stands when it begins: at its end where the request of a
/// write describes no record, else in the first round.
pub open spec fn begun(command: CommandModel) -> ProgressModel {
    match command {
        CommandModel::Write { request, append, reverse } => match built(request) {
            Err(error) => finished(Err(error), Seq::empty()),
            Ok(record) => opened(
                idle(command),
                request.name,
                Some(request.rtype),
                IntentModel::Write { record, append },
            ),
        },
        CommandModel::Delete { name, rtype, reverse } => opened(
            idle(command),
            name,
            rtype,
            IntentModel::Erase,
        ),
    }
}

/// Ends the update.
fn finish(result: Result<(), UpdateError>, warnings: Vec<Warning>) -> (progress: Progress)
    ensures
        progress@ == finished(unit_result_view(result), warnings.deep_view()),
{
    Progress::Finished { outcome: Outcome { result, warnings } }
}

/// Starts a round.
fn open(
    machine: Orchestrator,
    name: String,
    filter: Option<DnsRecordType>,
    intent: Intent,
) -> (progress: Progress)
    ensures
        progress@ == opened(machine@, name@, filter, intent@),
{
    let Orchestrator { command, role, name: _, filter: _, stage: _, targets, warnings } = machine;
    let call = Call::Query { name: name.clone(), class: CLASS_IN, rtype: TYPE_ANY };
    Progress::Pending {
        machine: Orchestrator {
            command,
            role,
            name,
            filter,
            stage: Stage::AwaitAny { intent },
            targets,
            warnings,
        },
        call,
    }
}

/// Turns to the next name whose pointer is to be removed.
fn sweep(machine: Orchestrator) -> (progress: Progress)
    ensures
        progress@ == swept(machine@),
{
    let Orchestrator { command, role: _, name, filter, stage, targets, warnings } = machine;
    let mut targets = targets;
    if targets.len() == 0 {
        finish(Ok(()), warnings)
    } else {
        let ghost before = targets.deep_view();
        let target = targets.remove(0);
        assert(targets.deep_view() =~= before.remove(0));
        open(
            Orchestrator { command, role: Role::Sweep, name, filter, stage, targets, warnings },
            target,
            Some(DnsRecordType::PTR),
            Intent::Sweep,
        )
    }
}

/// What is to follow the first round of a command once that round has ended
/// well.
enum Sequel {
    /// Nothing: the update is over.
    Nothing,
    /// The round that writes `record`, the pointer record.
    Mirror { record: ResourceRecord, append: bool },
    /// No round: the pointer record cannot be made.
    Refused { error: UpdateError },
    /// The rounds that remove pointers.
    Sweep,
}

/// Says what follows the first round of `command`.
fn sequel(command: &Command) -> (next: Sequel)
    ensures
        match command@ {
            CommandModel::Write { request, append, reverse } => if !reverse {
                next is Nothing
            } else {
                match reversed(request) {
                    Err(e) => next matches Sequel::Refused { error } && error@ == e,
                    Ok(r) => next matches Sequel::Mirror { record, append: a } && record@ == r && a
                        == append,
                }
            },
            CommandModel::Delete { reverse, .. } => if reverse {
                next is Sweep
            } else {
                next is Nothing
            },
        },
{
    match command {
        Command::Write { request, append, reverse } => {
            if !*reverse {
                Sequel::Nothing
            } else {
                match build_reverse(request) {
                    Err(error) => Sequel::Refused { error },
                    Ok(record) => Sequel::Mirror { record, append: *append },
                }
            }
        },
        Command::Delete { reverse, .. } => {
            if *reverse {
                Sequel::Sweep
            } else {
                Sequel::Nothing
            }
        },
    }
}

/// Goes on after a round that ended with `result`.
fn settle(machine: Orchestrator, result: Result<(), UpdateError>) -> (progress: Progress)
    ensures
        progress@ == settled(machine@, unit_result_view(result)),
{
    match machine.role {
        Role::Primary => match result {
            Err(error) => finish(Err(error), machine.warnings),
            Ok(()) => match sequel(&machine.command) {
                Sequel::Nothing => finish(Ok(()), machine.warnings),
                Sequel::Refused { error } => finish(Err(error), machine.warnings),
                Sequel::Sweep => sweep(machine),
                Sequel::Mirror { record, append } => {
                    let Orchestrator {
                        command,
                        role: _,
                        name,
                        filter,
                        stage,
                        targets,
                        warnings,
                    } = machine;
                    let target = record.name.clone();
                    open(
                        Orchestrator {
                            command,
                            role: Role::Mirror,
                            name,
                            filter,
                            stage,
                            targets,
                            warnings,
                        },
                        target,
                        Some(DnsRecordType::PTR),
                        Intent::Write { record, append },
                    )
                },
            },
        },
        Role::Mirror => finish(result, machine.warnings),
        Role::Sweep => match result {
            Ok(()) => sweep(machine),
            Err(error) => {
                let Orchestrator { command, role, name, filter, stage, targets, warnings } =
                    machine;
                let mut warnings = warnings;
                let ghost before = warnings.deep_view();
                let warning = Warning { name: name.clone(), error };
                warnings.push(warning);
                assert(warnings.deep_view() =~= before.push(warning@));
                sweep(Orchestrator { command, role, name, filter, stage, targets, warnings })
            },
        },
    }
}

/// Sends out the first of `calls`, or ends the round where there is none.
fn proceed(machine: Orchestrator, calls: Vec<Call>) -> (progress: Progress)
    ensures
        progress@ == continued(machine@, calls.deep_view()),
{
    let mut calls = calls;
    if calls.len() == 0 {
        settle(machine, Ok(()))
    } else {
        let ghost before = calls.deep_view();
        let call = calls.remove(0);
        assert(calls.deep_view() =~= before.remove(0));
        let Orchestrator { command, role, name, filter, stage: _, targets, warnings } = machine;
        Progress::Pending {
            machine: Orchestrator {
                command,
                role,
                name,
                filter,
                stage: Stage::AwaitChange { rest: calls },
                targets,
                warnings,
            },
            call,
        }
    }
}

/// Notes the addresses that the deletion of the first round removes, where
/// their pointers are to be removed after it.
fn note(machine: Orchestrator, context: &ZoneContext) -> (noted_machine: Orchestrator)
    ensures
        noted_machine@ == noted(machine@, context@),
{
    let wanted = match (&machine.role, &machine.command) {
        (Role::Primary, Command::Delete { reverse, .. }) => *reverse,
        _ => false,
    };
    if wanted {
        let Orchestrator { command, role, name, filter, stage, targets: _, warnings } = machine;
        let targets = reverse_targets(&context.existing);
        Orchestrator { command, role, name, filter, stage, targets, warnings }
    } else {
        machine
    }
}

impl Orchestrator {
    /// Begins an update.
    ///
    /// For a write, the record is made first, and the update is over at once
    /// where the request describes none: no call is then made. Else the first
    /// round begins, with the query for records of every type at the name.
    pub fn begin(command: Command) -> (progress: Progress)
        ensures
            progress@ == begun(command@),
    {
        let opening = match &command {
            Command::Write { request, append, reverse } => match build(request) {
                Err(error) => Err(error),
                Ok(record) => Ok(
                    (
                        request.name.clone(),
                        Some(request.rtype),
                        Intent::Write { record, append: *append },
                    ),
                ),
            },
            Command::Delete { name, rtype, reverse } => Ok((name.clone(), *rtype, Intent::Erase)),
        };
        match opening {
            Err(error) => {
                let warnings: Vec<Warning> = Vec::new();
                assert(warnings.deep_view() =~= Seq::<WarningModel>::empty());
                finish(Err(error), warnings)
            },
            Ok((name, filter, intent)) => {
                let machine = Orchestrator {
                    command,
                    role: Role::Primary,
                    name: String::new(),
                    filter: None,
                    stage: Stage::AwaitChange { rest: Vec::new() },
                    targets: Vec::new(),
                    warnings: Vec::new(),
                };
                assert(machine@.targets =~= Seq::<Seq<char>>::empty());
                assert(machine@.warnings =~= Seq::<WarningModel>::empty());
                assert(machine@.stage->rest =~= Seq::<CallModel>::empty());
                open(machine, name, filter, intent)
            },
        }
    }

    /// Takes what came of the call that is out, and says what is to be done
    /// next.
    ///
    /// A call that failed, or that the server answered with a status other
    /// than success, ends its round: no call that was to follow it in the
    /// round is made. A lookup goes on after "no such name" as after success.
    pub fn advance(self, reply: Reply) -> (progress: Progress)
        ensures
            progress@ == advanced(self@, reply@),
    {
        match reply {
            Reply::Failed { detail } => settle(self, Err(UpdateError::Transport { detail })),
            Reply::Answered { response } => {
                let Orchestrator { command, role, name, filter, stage, targets, warnings } = self;
                match stage {
                    Stage::AwaitAny { intent } => {
                        let call = Call::Query {
                            name: name.clone(),
                            class: CLASS_IN,
                            rtype: TYPE_NS,
                        };
                        Progress::Pending {
                            machine: Orchestrator {
                                command,
                                role,
                                name,
                                filter,
                                stage: Stage::AwaitNs { intent, any: response },
                                targets,
                                warnings,
                            },
                            call,
                        }
                    },
                    Stage::AwaitNs { intent, any } => {
                        let outcome = resolve(name.as_str(), any, response, filter);
                        let rest: Vec<Call> = Vec::new();
                        let machine = Orchestrator {
                            command,
                            role,
                            name,
                            filter,
                            stage: Stage::AwaitChange { rest },
                            targets,
                            warnings,
                        };
                        match outcome {
                            Err(error) => settle(machine, Err(error)),
                            Ok(context) => {
                                let machine = note(machine, &context);
                                match plan(intent, machine.name.as_str(), filter, context) {
                                    Err(error) => settle(machine, Err(error)),
                                    Ok(calls) => proceed(machine, calls),
                                }
                            },
                        }
                    },
                    Stage::AwaitChange { rest } => {
                        let outcome = response.outcome();
                        let machine = Orchestrator {
                            command,
                            role,
                            name,
                            filter,
                            stage: Stage::AwaitChange { rest: Vec::new() },
                            targets,
                            warnings,
                        };
                        match outcome {
                            OperationOutcome::Success => proceed(machine, rest),
                            OperationOutcome::ServerError { code } => settle(
                                machine,
                                Err(UpdateError::ServerError { code }),
                            ),
                        }
                    },
                }
            },
        }
    }
}

} // verus!
