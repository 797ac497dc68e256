//! Whole updates: which calls the machine makes, and how it ends, when the
//! session answers one call after the other.

use crate::codec::{built, RequestModel};
use crate::error::{ErrorModel, WarningModel};
use crate::orchestrator::{
    advanced, begun, finished, planned, removal, CommandModel, IntentModel, MachineModel,
    OutcomeModel, ProgressModel, Role, StageModel,
};
use crate::record::{DnsRecordType, RecordModel, TYPE_ANY, TYPE_NS};
use crate::resolver::{is_relevant, resolved, status_acceptable, ContextModel};
use crate::reverse::sweep_targets;
use crate::session::{outcome_of, CallModel, ReplyModel, ResponseModel, CLASS_IN};
use vstd::prelude::*;

verus! {

/// The calls that are made from `progress` on, in their order, when what
/// comes of them is `replies`, in that order. Replies that are left over when
/// the update has ended answer no call.
pub open spec fn calls_made(progress: ProgressModel, replies: Seq<ReplyModel>) -> Seq<CallModel>
    decreases replies.len(),
{
    match progress {
        ProgressModel::Finished { .. } => Seq::empty(),
        ProgressModel::Pending { machine, call } => if replies.len() == 0 {
            seq![call]
        } else {
            seq![call] + calls_made(advanced(machine, replies[0]), replies.skip(1))
        },
    }
}

/// How the update ends from `progress` on when what comes of its calls is
/// `replies`, `None` where a call is still out when the replies are used up.
pub open spec fn outcome_after(progress: ProgressModel, replies: Seq<ReplyModel>) -> Option<
    OutcomeModel,
>
    decreases replies.len(),
{
    match progress {
        ProgressModel::Finished { outcome } => Some(outcome),
        ProgressModel::Pending { machine, call } => if replies.len() == 0 {
            None
        } else {
            outcome_after(advanced(machine, replies[0]), replies.skip(1))
        },
    }
}

/// True of a reply that tells of success.
pub open spec fn is_success(reply: ReplyModel) -> bool {
    reply matches ReplyModel::Answered { response } && outcome_of(response.code) is Success
}

/// The error that a reply other than one of success stands for.
pub open spec fn failure_of(reply: ReplyModel) -> ErrorModel {
    match reply {
        ReplyModel::Answered { response } => ErrorModel::ServerError { code: response.code },
        ReplyModel::Failed { detail } => ErrorModel::Transport { detail },
    }
}

/// The two queries with which the round for `name` begins.
pub open spec fn lookup_calls(name: Seq<char>) -> Seq<CallModel> {
    seq![
        CallModel::Query { name, class: CLASS_IN, rtype: TYPE_ANY },
        CallModel::Query { name, class: CLASS_IN, rtype: TYPE_NS },
    ]
}

/// The replies of a session that answers the two queries of a lookup with
/// `any` and `ns`, and the calls after them with `more`.
pub open spec fn replies_to_lookup(
    any: ResponseModel,
    ns: ResponseModel,
    more: Seq<ReplyModel>,
) -> Seq<ReplyModel> {
    seq![ReplyModel::Answered { response: any }, ReplyModel::Answered { response: ns }] + more
}

/// The calls of an update are the call that is out, followed by the calls
/// that are made once it has been answered.
pub proof fn lemma_calls_made_unfold(
    machine: MachineModel,
    call: CallModel,
    reply: ReplyModel,
    more: Seq<ReplyModel>,
)
    ensures
        calls_made(ProgressModel::Pending { machine, call }, seq![reply] + more) == seq![call]
            + calls_made(advanced(machine, reply), more),
        outcome_after(ProgressModel::Pending { machine, call }, seq![reply] + more)
            == outcome_after(advanced(machine, reply), more),
{
    let replies = seq![reply] + more;
    assert(replies[0] == reply);
    assert(replies.skip(1) =~= more);
}

/// A record that is to take the place of records that exist is written with
/// two calls, the deletion of the records of its type and then its creation;
/// and where the deletion does not succeed, the creation is not tried:
/// the update ends with the error of the deletion, and the deletion is its
/// last call.
pub proof fn lemma_replace_deletes_then_creates(
    request: RequestModel,
    reverse: bool,
    any: ResponseModel,
    ns: ResponseModel,
    reply: ReplyModel,
    more: Seq<ReplyModel>,
)
    requires
        built(request) is Ok,
        resolved(request.name, any, ns, Some(request.rtype)) is Ok,
        resolved(request.name, any, ns, Some(request.rtype))->Ok_0.existing.len() > 0,
    ensures
        ({
            let command = CommandModel::Write { request, append: false, reverse };
            let record = built(request)->Ok_0;
            let zone = resolved(request.name, any, ns, Some(request.rtype))->Ok_0.zone_name;
            let deletion = CallModel::DeleteRrset {
                record: RecordModel::marker(record.name, record.type_code()),
                zone,
            };
            let creation = CallModel::Create { record, zone };
            let calls = calls_made(begun(command), replies_to_lookup(any, ns, seq![reply] + more));
            let outcome = outcome_after(
                begun(command),
                replies_to_lookup(any, ns, seq![reply] + more),
            );
            if is_success(reply) {
                calls.len() >= 4 && calls.take(4) == lookup_calls(request.name) + seq![
                    deletion,
                    creation,
                ]
            } else {
                &&& calls == lookup_calls(request.name) + seq![deletion]
                &&& outcome == Some(
                    OutcomeModel { result: Err(failure_of(reply)), warnings: Seq::empty() },
                )
            }
        }),
{
    let command = CommandModel::Write { request, append: false, reverse };
    let record = built(request)->Ok_0;
    let context = resolved(request.name, any, ns, Some(request.rtype))->Ok_0;
    let zone = context.zone_name;
    let deletion = CallModel::DeleteRrset {
        record: RecordModel::marker(record.name, record.type_code()),
        zone,
    };
    let creation = CallModel::Create { record, zone };
    let r_any = ReplyModel::Answered { response: any };
    let r_ns = ReplyModel::Answered { response: ns };
    let replies = replies_to_lookup(any, ns, seq![reply] + more);
    let at_start = begun(command);
    let asking_any = at_start->machine;
    let at_ns = advanced(asking_any, r_any);
    let asking_ns = at_ns->machine;
    let at_change = advanced(asking_ns, r_ns);
    let changing = at_change->machine;
    let at_next = advanced(changing, reply);
    assert(planned(
        IntentModel::Write { record, append: false },
        request.name,
        Some(request.rtype),
        context,
    ) == Ok::<Seq<CallModel>, ErrorModel>(seq![deletion, creation]));
    assert(seq![deletion, creation].remove(0) =~= seq![creation]);
    assert(seq![creation].remove(0) =~= Seq::<CallModel>::empty());
    assert(at_change == ProgressModel::Pending { machine: changing, call: deletion });
    assert(changing.stage == StageModel::AwaitChange { rest: seq![creation] });
    assert(replies =~= seq![r_any] + (seq![r_ns] + (seq![reply] + more)));
    lemma_calls_made_unfold(asking_any, at_start->call, r_any, seq![r_ns] + (seq![reply] + more));
    lemma_calls_made_unfold(asking_ns, at_ns->call, r_ns, seq![reply] + more);
    lemma_calls_made_unfold(changing, deletion, reply, more);
    let calls = calls_made(at_start, replies);
    let tail = calls_made(at_next, more);
    assert(calls == seq![at_start->call] + (seq![at_ns->call] + (seq![deletion] + tail)));
    if is_success(reply) {
        assert(at_next is Pending && at_next->call == creation);
        assert(tail.len() >= 1 && tail[0] == creation);
        assert(calls.take(4) =~= lookup_calls(request.name) + seq![deletion, creation]);
    } else {
        assert(at_next == finished(Err(failure_of(reply)), Seq::empty()));
        assert(tail =~= Seq::<CallModel>::empty());
        assert(calls =~= lookup_calls(request.name) + seq![deletion]);
    }
}

/// A deletion at a name where nothing exists that it could remove fails with
/// `NothingToDelete`, and the two queries of the lookup are the only calls
/// that are made: no deletion is tried.
pub proof fn lemma_delete_of_nothing(
    name: Seq<char>,
    rtype: Option<DnsRecordType>,
    reverse: bool,
    any: ResponseModel,
    ns: ResponseModel,
    more: Seq<ReplyModel>,
)
    requires
        resolved(name, any, ns, rtype) is Ok,
        resolved(name, any, ns, rtype)->Ok_0.existing.len() == 0,
    ensures
        ({
            let command = CommandModel::Delete { name, rtype, reverse };
            let replies = replies_to_lookup(any, ns, more);
            &&& calls_made(begun(command), replies) == lookup_calls(name)
            &&& forall|i: int|
                0 <= i < calls_made(begun(command), replies).len() ==> !(#[trigger] calls_made(
                    begun(command),
                    replies,
                )[i]).is_delete()
            &&& outcome_after(begun(command), replies) == Some(
                OutcomeModel {
                    result: Err(ErrorModel::NothingToDelete { name }),
                    warnings: Seq::empty(),
                },
            )
        }),
{
    let command = CommandModel::Delete { name, rtype, reverse };
    let r_any = ReplyModel::Answered { response: any };
    let r_ns = ReplyModel::Answered { response: ns };
    let replies = replies_to_lookup(any, ns, more);
    let at_start = begun(command);
    let asking_any = at_start->machine;
    let at_ns = advanced(asking_any, r_any);
    let asking_ns = at_ns->machine;
    let at_change = advanced(asking_ns, r_ns);
    assert(at_change == finished(Err(ErrorModel::NothingToDelete { name }), Seq::empty()));
    assert(replies =~= seq![r_any] + (seq![r_ns] + more));
    lemma_calls_made_unfold(asking_any, at_start->call, r_any, seq![r_ns] + more);
    lemma_calls_made_unfold(asking_ns, at_ns->call, r_ns, more);
    assert(calls_made(at_change, more) =~= Seq::<CallModel>::empty());
    assert(calls_made(at_start, replies) =~= lookup_calls(name));
}

/// A record that is appended where records exist is written with one call,
/// an append. Without `reverse` the update ends with what came of that call,
/// and no other call follows it; with `reverse`, the call that follows it is
/// the first query of the round for the pointer record.
pub proof fn lemma_append_beside_existing(
    request: RequestModel,
    reverse: bool,
    any: ResponseModel,
    ns: ResponseModel,
    reply: ReplyModel,
    more: Seq<ReplyModel>,
)
    requires
        built(request) is Ok,
        resolved(request.name, any, ns, Some(request.rtype)) is Ok,
        resolved(request.name, any, ns, Some(request.rtype))->Ok_0.existing.len() > 0,
    ensures
        ({
            let command = CommandModel::Write { request, append: true, reverse };
            let record = built(request)->Ok_0;
            let zone = resolved(request.name, any, ns, Some(request.rtype))->Ok_0.zone_name;
            let append = CallModel::Append { record, zone, allow_new: true };
            let replies = replies_to_lookup(any, ns, seq![reply] + more);
            let calls = calls_made(begun(command), replies);
            &&& calls.len() >= 3
            &&& calls.take(3) == lookup_calls(request.name) + seq![append]
            &&& calls.len() > 3 ==> is_success(reply) && reverse && calls[3] is Query
            &&& !reverse ==> calls == lookup_calls(request.name) + seq![append]
            &&& !reverse ==> outcome_after(begun(command), replies) == Some(
                OutcomeModel {
                    result: if is_success(reply) {
                        Ok(())
                    } else {
                        Err(failure_of(reply))
                    },
                    warnings: Seq::empty(),
                },
            )
        }),
{
    let command = CommandModel::Write { request, append: true, reverse };
    let record = built(request)->Ok_0;
    let context = resolved(request.name, any, ns, Some(request.rtype))->Ok_0;
    let zone = context.zone_name;
    let append = CallModel::Append { record, zone, allow_new: true };
    let r_any = ReplyModel::Answered { response: any };
    let r_ns = ReplyModel::Answered { response: ns };
    let replies = replies_to_lookup(any, ns, seq![reply] + more);
    let at_start = begun(command);
    let asking_any = at_start->machine;
    let at_ns = advanced(asking_any, r_any);
    let asking_ns = at_ns->machine;
    let at_change = advanced(asking_ns, r_ns);
    let changing = at_change->machine;
    let at_next = advanced(changing, reply);
    assert(planned(
        IntentModel::Write { record, append: true },
        request.name,
        Some(request.rtype),
        context,
    ) == Ok::<Seq<CallModel>, ErrorModel>(seq![append]));
    assert(seq![append].remove(0) =~= Seq::<CallModel>::empty());
    assert(at_change == ProgressModel::Pending { machine: changing, call: append });
    assert(changing.stage == StageModel::AwaitChange { rest: Seq::<CallModel>::empty() });
    assert(replies =~= seq![r_any] + (seq![r_ns] + (seq![reply] + more)));
    lemma_calls_made_unfold(asking_any, at_start->call, r_any, seq![r_ns] + (seq![reply] + more));
    lemma_calls_made_unfold(asking_ns, at_ns->call, r_ns, seq![reply] + more);
    lemma_calls_made_unfold(changing, append, reply, more);
    let calls = calls_made(at_start, replies);
    let tail = calls_made(at_next, more);
    assert(calls == seq![at_start->call] + (seq![at_ns->call] + (seq![append] + tail)));
    assert(calls.take(3) =~= lookup_calls(request.name) + seq![append]);
    if calls.len() > 3 {
        assert(tail.len() > 0);
        assert(at_next is Pending);
        assert(tail[0] == at_next->call);
        assert(calls[3] == tail[0]);
    }
    if !reverse {
        assert(at_next is Finished);
        assert(tail =~= Seq::<CallModel>::empty());
        assert(calls =~= lookup_calls(request.name) + seq![append]);
    }
}

/// An update whose first lookup is answered without authority ends with
/// `NotAuthoritative` once both queries of the lookup have been answered with
/// a status with which a lookup can go on, whatever else the answers hold:
/// no call is made that would change anything.
pub proof fn lemma_no_authority_ends_update(
    command: CommandModel,
    any: ResponseModel,
    ns: ResponseModel,
    more: Seq<ReplyModel>,
)
    requires
        begun(command) is Pending,
        status_acceptable(any.code),
        status_acceptable(ns.code),
        !any.authoritative,
    ensures
        ({
            let replies = replies_to_lookup(any, ns, more);
            &&& calls_made(begun(command), replies) == lookup_calls(command.name())
            &&& outcome_after(begun(command), replies) == Some(
                OutcomeModel {
                    result: Err(ErrorModel::NotAuthoritative { name: command.name() }),
                    warnings: Seq::empty(),
                },
            )
        }),
{
    let r_any = ReplyModel::Answered { response: any };
    let r_ns = ReplyModel::Answered { response: ns };
    let replies = replies_to_lookup(any, ns, more);
    let at_start = begun(command);
    let asking_any = at_start->machine;
    let at_ns = advanced(asking_any, r_any);
    let asking_ns = at_ns->machine;
    let at_change = advanced(asking_ns, r_ns);
    assert(at_change == finished(
        Err(ErrorModel::NotAuthoritative { name: command.name() }),
        Seq::empty(),
    ));
    assert(replies =~= seq![r_any] + (seq![r_ns] + more));
    lemma_calls_made_unfold(asking_any, at_start->call, r_any, seq![r_ns] + more);
    lemma_calls_made_unfold(asking_ns, at_ns->call, r_ns, more);
    assert(calls_made(at_change, more) =~= Seq::<CallModel>::empty());
    assert(calls_made(at_start, replies) =~= lookup_calls(command.name()));
}

/// A record that is written where nothing exists is written with one call, a
/// creation, whether it was to be appended or not.
pub proof fn lemma_create_where_nothing_exists(
    request: RequestModel,
    append: bool,
    reverse: bool,
    any: ResponseModel,
    ns: ResponseModel,
    more: Seq<ReplyModel>,
)
    requires
        built(request) is Ok,
        resolved(request.name, any, ns, Some(request.rtype)) is Ok,
        resolved(request.name, any, ns, Some(request.rtype))->Ok_0.existing.len() == 0,
    ensures
        ({
            let command = CommandModel::Write { request, append, reverse };
            let record = built(request)->Ok_0;
            let zone = resolved(request.name, any, ns, Some(request.rtype))->Ok_0.zone_name;
            let calls = calls_made(begun(command), replies_to_lookup(any, ns, more));
            &&& calls.len() >= 3
            &&& calls.take(3) == lookup_calls(request.name) + seq![
                CallModel::Create { record, zone },
            ]
        }),
{
    let command = CommandModel::Write { request, append, reverse };
    let record = built(request)->Ok_0;
    let context = resolved(request.name, any, ns, Some(request.rtype))->Ok_0;
    let creation = CallModel::Create { record, zone: context.zone_name };
    let r_any = ReplyModel::Answered { response: any };
    let r_ns = ReplyModel::Answered { response: ns };
    let replies = replies_to_lookup(any, ns, more);
    let at_start = begun(command);
    let asking_any = at_start->machine;
    let at_ns = advanced(asking_any, r_any);
    let asking_ns = at_ns->machine;
    let at_change = advanced(asking_ns, r_ns);
    assert(planned(
        IntentModel::Write { record, append },
        request.name,
        Some(request.rtype),
        context,
    ) == Ok::<Seq<CallModel>, ErrorModel>(seq![creation]));
    assert(at_change is Pending && at_change->call == creation);
    assert(replies =~= seq![r_any] + (seq![r_ns] + more));
    lemma_calls_made_unfold(asking_any, at_start->call, r_any, seq![r_ns] + more);
    lemma_calls_made_unfold(asking_ns, at_ns->call, r_ns, more);
    let calls = calls_made(at_start, replies);
    let tail = calls_made(at_change, more);
    assert(tail.len() >= 1 && tail[0] == creation);
    assert(calls == seq![at_start->call] + (seq![at_ns->call] + tail));
    assert(calls.take(3) =~= lookup_calls(request.name) + seq![creation]);
}

/// A call that fails ends its round: the calls that were to follow it in the
/// round are not made. The update is then over, or, after a round that
/// removes a pointer, the failure is set aside and the lookup of the next
/// name begins. A call fails where no answer comes to it, or where a call
/// that changes the name is answered with a status other than success.
pub proof fn lemma_failure_ends_round(machine: MachineModel, reply: ReplyModel)
    requires
        reply is Failed || (machine.stage is AwaitChange && !is_success(reply)),
    ensures
        match advanced(machine, reply) {
            ProgressModel::Finished { outcome } => machine.role == Role::Sweep || outcome.result
                == Err::<(), ErrorModel>(failure_of(reply)),
            ProgressModel::Pending { machine: next, call } => {
                &&& machine.role == Role::Sweep
                &&& next.stage is AwaitAny
                &&& call is Query
                &&& next.warnings == machine.warnings.push(
                    WarningModel { name: machine.name, error: failure_of(reply) },
                )
            },
        },
{
}

/// A failure in a round that removes a pointer never ends the update with an
/// error: it is set aside, and the update goes on or ends well.
pub proof fn lemma_sweep_failure_is_set_aside(machine: MachineModel, reply: ReplyModel)
    requires
        machine.role == Role::Sweep,
    ensures
        match advanced(machine, reply) {
            ProgressModel::Finished { outcome } => outcome.result == Ok::<(), ErrorModel>(())
                && machine.warnings.is_prefix_of(outcome.warnings),
            ProgressModel::Pending { machine: next, call } => next.role == Role::Sweep
                && machine.warnings.is_prefix_of(next.warnings),
        },
{
    let old = machine.warnings;
    assert(old.is_prefix_of(old));
    assert forall|warning: WarningModel| old.is_prefix_of(#[trigger] old.push(warning)) by {
        assert(old.push(warning).subrange(0, old.len() as int) =~= old);
    }
}

/// Once the pointers are being removed, the update ends well, whatever comes
/// of the calls that are still made: what went wrong is found among the
/// warnings, and the warnings that were there before stay in front.
pub proof fn lemma_sweep_ends_well(machine: MachineModel, call: CallModel, replies: Seq<ReplyModel>)
    requires
        machine.role == Role::Sweep,
    ensures
        outcome_after(ProgressModel::Pending { machine, call }, replies) matches Some(outcome)
            ==> outcome.result == Ok::<(), ErrorModel>(()) && machine.warnings.is_prefix_of(
            outcome.warnings,
        ),
    decreases replies.len(),
{
    if replies.len() > 0 {
        let next = advanced(machine, replies[0]);
        lemma_sweep_failure_is_set_aside(machine, replies[0]);
        match next {
            ProgressModel::Finished { outcome } => {},
            ProgressModel::Pending { machine: later, call: other } => {
                lemma_sweep_ends_well(later, other, replies.skip(1));
                if let Some(outcome) = outcome_after(next, replies.skip(1)) {
                    assert(machine.warnings =~= outcome.warnings.subrange(
                        0,
                        machine.warnings.len() as int,
                    )) by {
                        assert(later.warnings =~= outcome.warnings.subrange(
                            0,
                            later.warnings.len() as int,
                        ));
                        assert(machine.warnings =~= later.warnings.subrange(
                            0,
                            machine.warnings.len() as int,
                        ));
                    }
                }
            },
        }
    }
}

/// A deletion that has succeeded is not turned into a failure by what
/// follows it: where the records at the name have been removed, the update
/// ends well, whatever comes of the calls that remove the pointers.
pub proof fn lemma_deletion_stays_successful(
    name: Seq<char>,
    rtype: Option<DnsRecordType>,
    reverse: bool,
    any: ResponseModel,
    ns: ResponseModel,
    reply: ReplyModel,
    more: Seq<ReplyModel>,
)
    requires
        resolved(name, any, ns, rtype) is Ok,
        resolved(name, any, ns, rtype)->Ok_0.existing.len() > 0,
        is_success(reply),
    ensures
        ({
            let command = CommandModel::Delete { name, rtype, reverse };
            let replies = replies_to_lookup(any, ns, seq![reply] + more);
            let zone = resolved(name, any, ns, rtype)->Ok_0.zone_name;
            let calls = calls_made(begun(command), replies);
            &&& calls.len() >= 3
            &&& calls.take(3) == lookup_calls(name) + seq![removal(name, rtype, zone)]
            &&& outcome_after(begun(command), replies) matches Some(outcome) ==> outcome.result
                == Ok::<(), ErrorModel>(())
            &&& !reverse ==> calls.len() == 3 && outcome_after(begun(command), replies) == Some(
                OutcomeModel { result: Ok(()), warnings: Seq::empty() },
            )
        }),
{
    let command = CommandModel::Delete { name, rtype, reverse };
    let context = resolved(name, any, ns, rtype)->Ok_0;
    let deletion = removal(name, rtype, context.zone_name);
    let r_any = ReplyModel::Answered { response: any };
    let r_ns = ReplyModel::Answered { response: ns };
    let replies = replies_to_lookup(any, ns, seq![reply] + more);
    let at_start = begun(command);
    let asking_any = at_start->machine;
    let at_ns = advanced(asking_any, r_any);
    let asking_ns = at_ns->machine;
    let at_change = advanced(asking_ns, r_ns);
    let changing = at_change->machine;
    let at_next = advanced(changing, reply);
    assert(planned(IntentModel::Erase, name, rtype, context) == Ok::<Seq<CallModel>, ErrorModel>(
        seq![deletion],
    ));
    assert(seq![deletion].remove(0) =~= Seq::<CallModel>::empty());
    assert(at_change == ProgressModel::Pending { machine: changing, call: deletion });
    assert(replies =~= seq![r_any] + (seq![r_ns] + (seq![reply] + more)));
    lemma_calls_made_unfold(asking_any, at_start->call, r_any, seq![r_ns] + (seq![reply] + more));
    lemma_calls_made_unfold(asking_ns, at_ns->call, r_ns, seq![reply] + more);
    lemma_calls_made_unfold(changing, deletion, reply, more);
    let calls = calls_made(at_start, replies);
    let tail = calls_made(at_next, more);
    assert(calls == seq![at_start->call] + (seq![at_ns->call] + (seq![deletion] + tail)));
    assert(calls.take(3) =~= lookup_calls(name) + seq![deletion]);
    match at_next {
        ProgressModel::Finished { outcome } => {
            assert(tail =~= Seq::<CallModel>::empty());
        },
        ProgressModel::Pending { machine: sweeping, call } => {
            assert(reverse);
            lemma_sweep_ends_well(sweeping, call, more);
        },
    }
}

/// True where the call that is out is the one that the machine waits for:
/// the query of its stage during a lookup, and after it a call that changes
/// the name, followed by such calls only.
pub open spec fn coherent(progress: ProgressModel) -> bool {
    match progress {
        ProgressModel::Finished { .. } => true,
        ProgressModel::Pending { machine, call } => match machine.stage {
            StageModel::AwaitAny { .. } => call == (CallModel::Query {
                name: machine.name,
                class: CLASS_IN,
                rtype: TYPE_ANY,
            }),
            StageModel::AwaitNs { .. } => call == (CallModel::Query {
                name: machine.name,
                class: CLASS_IN,
                rtype: TYPE_NS,
            }),
            StageModel::AwaitChange { rest } => !(call is Query) && forall|i: int|
                0 <= i < rest.len() ==> !(#[trigger] rest[i] is Query),
        },
    }
}

/// A plan holds no query: its calls all change the name.
pub proof fn lemma_plan_holds_no_query(
    intent: IntentModel,
    name: Seq<char>,
    filter: Option<DnsRecordType>,
    context: ContextModel,
)
    ensures
        planned(intent, name, filter, context) matches Ok(calls) ==> forall|i: int|
            0 <= i < calls.len() ==> !(#[trigger] calls[i] is Query),
{
}

/// Where no call of a plan is a query, none is among those that follow the
/// first.
proof fn lemma_rest_holds_no_query(calls: Seq<CallModel>)
    requires
        calls.len() > 0,
        forall|i: int| 0 <= i < calls.len() ==> !(#[trigger] calls[i] is Query),
    ensures
        forall|i: int| 0 <= i < calls.remove(0).len() ==> !(#[trigger] calls.remove(0)[i] is Query),
{
    assert forall|i: int| 0 <= i < calls.remove(0).len() implies !(#[trigger] calls.remove(
        0,
    )[i] is Query) by {
        assert(calls.remove(0)[i] == calls[i + 1]);
    }
}

/// An update begins with the call that its machine waits for.
pub proof fn lemma_begun_is_coherent(command: CommandModel)
    ensures
        coherent(begun(command)),
{
}

/// As long as the machine is handed what came of the call that it asked for,
/// the call that it asks for next is the one that it then waits for.
pub proof fn lemma_advanced_is_coherent(machine: MachineModel, call: CallModel, reply: ReplyModel)
    requires
        coherent(ProgressModel::Pending { machine, call }),
    ensures
        coherent(advanced(machine, reply)),
{
    match (machine.stage, reply) {
        (StageModel::AwaitNs { intent, any }, ReplyModel::Answered { response }) => {
            match resolved(machine.name, any, response, machine.filter) {
                Ok(context) => {
                    lemma_plan_holds_no_query(intent, machine.name, machine.filter, context);
                    match planned(intent, machine.name, machine.filter, context) {
                        Ok(calls) => {
                            if calls.len() > 0 {
                                lemma_rest_holds_no_query(calls);
                            }
                        },
                        Err(_) => {},
                    }
                },
                Err(_) => {},
            }
        },
        (StageModel::AwaitChange { rest }, ReplyModel::Answered { response }) => {
            if rest.len() > 0 {
                lemma_rest_holds_no_query(rest);
            }
        },
        _ => {},
    }
}

/// The name whose lookup `call` begins, if it begins one: the first query of
/// a lookup is the one for records of every type.
pub open spec fn lookup_begun(call: CallModel) -> Option<Seq<char>> {
    match call {
        CallModel::Query { name, rtype, .. } => if rtype == TYPE_ANY {
            Some(name)
        } else {
            None
        },
        _ => None,
    }
}

/// The names whose lookups `calls` begin, in the order of the calls.
pub open spec fn lookups_begun(calls: Seq<CallModel>) -> Seq<Seq<char>>
    decreases calls.len(),
{
    if calls.len() == 0 {
        Seq::empty()
    } else {
        match lookup_begun(calls[0]) {
            Some(name) => seq![name] + lookups_begun(calls.skip(1)),
            None => lookups_begun(calls.skip(1)),
        }
    }
}

/// Every address has its turn: once the pointers are being removed, and
/// where the update comes to its end, the lookup of each name that is still
/// to be swept is begun, in order, whatever came of the rounds before it.
pub proof fn lemma_every_pointer_has_its_turn(
    machine: MachineModel,
    call: CallModel,
    replies: Seq<ReplyModel>,
)
    requires
        machine.role == Role::Sweep,
        coherent(ProgressModel::Pending { machine, call }),
        outcome_after(ProgressModel::Pending { machine, call }, replies) is Some,
    ensures
        lookups_begun(calls_made(ProgressModel::Pending { machine, call }, replies)) == (
        if machine.stage is AwaitAny {
            seq![machine.name]
        } else {
            Seq::empty()
        }) + machine.targets,
    decreases replies.len(),
{
    let here = ProgressModel::Pending { machine, call };
    let next = advanced(machine, replies[0]);
    let later_calls = calls_made(next, replies.skip(1));
    let calls = calls_made(here, replies);
    assert(calls == seq![call] + later_calls);
    assert(calls.skip(1) =~= later_calls);
    assert(calls[0] == call);
    lemma_advanced_is_coherent(machine, call, replies[0]);
    lemma_sweep_failure_is_set_aside(machine, replies[0]);
    match next {
        ProgressModel::Finished { outcome } => {
            assert(machine.targets =~= Seq::<Seq<char>>::empty());
            assert(later_calls =~= Seq::<CallModel>::empty());
            assert(lookups_begun(later_calls) =~= Seq::<Seq<char>>::empty());
        },
        ProgressModel::Pending { machine: later, call: other } => {
            lemma_every_pointer_has_its_turn(later, other, replies.skip(1));
            if later.stage is AwaitAny {
                assert(machine.targets =~= seq![later.name] + later.targets);
            } else {
                assert(machine.targets =~= later.targets);
            }
        },
    }
    assert(lookups_begun(calls) =~= (if machine.stage is AwaitAny {
        seq![machine.name]
    } else {
        Seq::empty()
    }) + machine.targets);
}

/// The lookups that calls begin are those that the first call begins,
/// followed by those that the other calls begin.
pub proof fn lemma_lookups_begun_unfold(call: CallModel, more: Seq<CallModel>)
    ensures
        lookups_begun(seq![call] + more) == (match lookup_begun(call) {
            Some(name) => seq![name],
            None => Seq::empty(),
        }) + lookups_begun(more),
{
    let calls = seq![call] + more;
    assert(calls[0] == call);
    assert(calls.skip(1) =~= more);
    assert(lookups_begun(calls) =~= (match lookup_begun(call) {
        Some(name) => seq![name],
        None => Seq::empty(),
    }) + lookups_begun(more));
}

/// A deletion with `reverse` that has removed records, and that comes to its
/// end, has looked up the name of the command and then, in the order of the
/// records that were removed, the reverse name of every address among them:
/// no failure on the way keeps an address from having its turn.
pub proof fn lemma_reverse_delete_sweeps_every_address(
    name: Seq<char>,
    rtype: Option<DnsRecordType>,
    any: ResponseModel,
    ns: ResponseModel,
    reply: ReplyModel,
    more: Seq<ReplyModel>,
)
    requires
        resolved(name, any, ns, rtype) is Ok,
        resolved(name, any, ns, rtype)->Ok_0.existing.len() > 0,
        is_success(reply),
        outcome_after(
            begun(CommandModel::Delete { name, rtype, reverse: true }),
            replies_to_lookup(any, ns, seq![reply] + more),
        ) is Some,
    ensures
        lookups_begun(
            calls_made(
                begun(CommandModel::Delete { name, rtype, reverse: true }),
                replies_to_lookup(any, ns, seq![reply] + more),
            ),
        ) == seq![name] + sweep_targets(resolved(name, any, ns, rtype)->Ok_0.existing),
{
    let command = CommandModel::Delete { name, rtype, reverse: true };
    let context = resolved(name, any, ns, rtype)->Ok_0;
    let targets = sweep_targets(context.existing);
    let deletion = removal(name, rtype, context.zone_name);
    let r_any = ReplyModel::Answered { response: any };
    let r_ns = ReplyModel::Answered { response: ns };
    let replies = replies_to_lookup(any, ns, seq![reply] + more);
    let at_start = begun(command);
    let asking_any = at_start->machine;
    let at_ns = advanced(asking_any, r_any);
    let asking_ns = at_ns->machine;
    let at_change = advanced(asking_ns, r_ns);
    let changing = at_change->machine;
    let at_next = advanced(changing, reply);
    assert(planned(IntentModel::Erase, name, rtype, context) == Ok::<Seq<CallModel>, ErrorModel>(
        seq![deletion],
    ));
    assert(seq![deletion].remove(0) =~= Seq::<CallModel>::empty());
    assert(at_change == ProgressModel::Pending { machine: changing, call: deletion });
    assert(changing.targets == targets);
    assert(replies =~= seq![r_any] + (seq![r_ns] + (seq![reply] + more)));
    lemma_calls_made_unfold(asking_any, at_start->call, r_any, seq![r_ns] + (seq![reply] + more));
    lemma_calls_made_unfold(asking_ns, at_ns->call, r_ns, seq![reply] + more);
    lemma_calls_made_unfold(changing, deletion, reply, more);
    let tail = calls_made(at_next, more);
    lemma_lookups_begun_unfold(at_start->call, seq![at_ns->call] + (seq![deletion] + tail));
    lemma_lookups_begun_unfold(at_ns->call, seq![deletion] + tail);
    lemma_lookups_begun_unfold(deletion, tail);
    match at_next {
        ProgressModel::Finished { outcome } => {
            assert(targets =~= Seq::<Seq<char>>::empty());
            assert(tail =~= Seq::<CallModel>::empty());
        },
        ProgressModel::Pending { machine: sweeping, call } => {
            lemma_begun_is_coherent(command);
            lemma_advanced_is_coherent(asking_any, at_start->call, r_any);
            lemma_advanced_is_coherent(asking_ns, at_ns->call, r_ns);
            lemma_advanced_is_coherent(changing, deletion, reply);
            lemma_every_pointer_has_its_turn(sweeping, call, more);
            assert(targets =~= seq![sweeping.name] + sweeping.targets);
        },
    }
    assert(lookups_begun(calls_made(at_start, replies)) =~= seq![name] + targets);
}

/// The most calls that a plan for `intent` holds.
pub open spec fn plan_bound(intent: IntentModel) -> nat {
    match intent {
        IntentModel::Write { .. } => 2,
        _ => 1,
    }
}

/// A number of replies after which the update has ended at the latest: those
/// that the round under way can still take, four for the round that writes a
/// pointer record, and three for each name that may be swept. While the
/// records that a deletion removes are not known yet, each record of the
/// answer at hand counts as one that may be swept.
pub open spec fn replies_due(machine: MachineModel) -> nat {
    let round = match machine.stage {
        StageModel::AwaitAny { intent } => 2 + plan_bound(intent),
        StageModel::AwaitNs { intent, .. } => 1 + plan_bound(intent),
        StageModel::AwaitChange { rest } => 1 + rest.len(),
    };
    let sequel = match machine.role {
        Role::Primary => match machine.command {
            CommandModel::Write { reverse, .. } => if reverse {
                4
            } else {
                0
            },
            CommandModel::Delete { reverse, .. } => if !reverse {
                0
            } else {
                match machine.stage {
                    StageModel::AwaitNs { any, .. } => 3 * any.answers.len(),
                    _ => 3 * machine.targets.len(),
                }
            },
        },
        Role::Mirror => 0,
        Role::Sweep => 3 * machine.targets.len(),
    };
    round + sequel
}

/// No more names are swept than there are records.
pub proof fn lemma_sweep_targets_len(records: Seq<RecordModel>)
    ensures
        sweep_targets(records).len() <= records.len(),
    decreases records.len(),
{
    if records.len() > 0 {
        lemma_sweep_targets_len(records.drop_last());
    }
}

/// A plan holds no more calls than its intent allows.
pub proof fn lemma_plan_len(
    intent: IntentModel,
    name: Seq<char>,
    filter: Option<DnsRecordType>,
    context: ContextModel,
)
    ensures
        planned(intent, name, filter, context) matches Ok(calls) ==> calls.len() <= plan_bound(
            intent,
        ),
{
}

/// Every reply brings the update nearer to its end: it ends the update, or
/// leaves fewer replies due. This holds from the first reply on for a write,
/// and for a deletion from the reply on that shows what exists.
pub proof fn lemma_reply_brings_nearer(machine: MachineModel, reply: ReplyModel)
    requires
        !(machine.role == Role::Primary && machine.command is Delete && machine.command.reverse()
            && machine.stage is AwaitAny),
    ensures
        advanced(machine, reply) matches ProgressModel::Pending { machine: later, call }
            ==> replies_due(later) < replies_due(machine) && !(later.role == Role::Primary
            && later.stage is AwaitAny),
{
    match (machine.stage, reply) {
        (StageModel::AwaitNs { intent, any }, ReplyModel::Answered { response }) => {
            match resolved(machine.name, any, response, machine.filter) {
                Ok(context) => {
                    lemma_plan_len(intent, machine.name, machine.filter, context);
                    lemma_sweep_targets_len(context.existing);
                    any.answers.lemma_filter_len(
                        |record: RecordModel| is_relevant(record, machine.filter),
                    );
                },
                Err(_) => {},
            }
        },
        _ => {},
    }
}

/// An update comes to its end: once as many replies have come as are due,
/// no call is out any more.
pub proof fn lemma_update_ends(machine: MachineModel, call: CallModel, replies: Seq<ReplyModel>)
    requires
        replies.len() >= replies_due(machine),
        !(machine.role == Role::Primary && machine.command is Delete && machine.command.reverse()
            && machine.stage is AwaitAny),
    ensures
        outcome_after(ProgressModel::Pending { machine, call }, replies) is Some,
    decreases replies.len(),
{
    assert(replies_due(machine) >= 1);
    lemma_reply_brings_nearer(machine, replies[0]);
    let next = advanced(machine, replies[0]);
    assert(outcome_after(ProgressModel::Pending { machine, call }, replies) == outcome_after(
        next,
        replies.skip(1),
    ));
    match next {
        ProgressModel::Finished { .. } => {},
        ProgressModel::Pending { machine: later, call: other } => {
            lemma_update_ends(later, other, replies.skip(1));
        },
    }
}

/// A number of replies after which an update that carries out `command` has
/// ended at the latest: eight for a write, and for a deletion three, and
/// three more for each record in the first answer.
pub open spec fn replies_in_all(command: CommandModel, replies: Seq<ReplyModel>) -> nat {
    match command {
        CommandModel::Write { .. } => 8,
        CommandModel::Delete { .. } => if replies.len() > 0 && replies[0] is Answered {
            3 + 3 * replies[0]->response.answers.len()
        } else {
            3
        },
    }
}

/// Every update comes to its end, whatever it is asked and whatever comes of
/// its calls.
pub proof fn lemma_every_update_ends(command: CommandModel, replies: Seq<ReplyModel>)
    requires
        replies.len() >= replies_in_all(command, replies),
    ensures
        outcome_after(begun(command), replies) is Some,
{
    match begun(command) {
        ProgressModel::Finished { .. } => {},
        ProgressModel::Pending { machine, call } => {
            if command is Write {
                lemma_update_ends(machine, call, replies);
            } else {
                let next = advanced(machine, replies[0]);
                assert(outcome_after(begun(command), replies) == outcome_after(
                    next,
                    replies.skip(1),
                ));
                match next {
                    ProgressModel::Finished { .. } => {},
                    ProgressModel::Pending { machine: later, call: other } => {
                        lemma_update_ends(later, other, replies.skip(1));
                    },
                }
            }
        },
    }
}

} // verus!
