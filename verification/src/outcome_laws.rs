//! What becomes of a message at the agent and what is published of it, by what
//! the message, the action and the run hold.
use crate::action::{ActionModel, FaultModel};
use crate::agent::{attempt_text, tail_text};
use crate::delivery::{
    action_path, action_step, allowlist_step, check_step, duration_text, envelope_step, file_step,
    outcome_step, planned, receipt_step, run_step, AddressedModel, AllowedModel, EndedModel,
    ExecutingModel, LoadedModel, RunEndModel, RunModel, SettlementModel, StepModel,
};
use crate::fault::{debug_list, debug_text, fault_text};
use crate::message::{EnvelopeModel, NotifyMode, NotifyModel};
use crate::text::joined;
use crate::timeout::timeout_seconds;
use vstd::prelude::*;

verus! {

// ---------------------------------------------------------------------------
// Before the execution

/// A message starts with its own text, and one without a text is a failure.
pub proof fn law_message_text_is_parsed(body: Option<Seq<char>>)
    ensures
        body matches Some(text) ==> (receipt_step(body) matches StepModel::ParseEnvelope(r)
            && r.text == text),
        body is None ==> receipt_step(body) == StepModel::Settle(
            SettlementModel::Failed("message has no body"@),
        ),
{
}

/// A message goes on exactly where it is addressed to all or to this host, as it
/// was sent; one that cannot be parsed is a failure.
pub proof fn law_own_messages_go_on(
    host: Seq<char>,
    dir: Seq<char>,
    envelope: EnvelopeModel,
    why: Seq<char>,
)
    ensures
        envelope_step(host, dir, Ok(envelope)) is FindAction <==> envelope.target == "all"@
            || envelope.target == host,
        envelope_step(host, dir, Ok(envelope)) matches StepModel::FindAction(a) ==> a.envelope
            == envelope && a.path == action_path(dir, envelope.action),
        !(envelope_step(host, dir, Ok(envelope)) is FindAction) ==> envelope_step(
            host,
            dir,
            Ok(envelope),
        ) == StepModel::Settle(
            SettlementModel::Skipped { id: envelope.id, target: envelope.target },
        ),
        envelope_step(host, dir, Err(why)) == StepModel::Settle(
            SettlementModel::Failed("parse envelope"@ + ": "@ + why),
        ),
{
}

/// An action's file is the directory, a slash unless there is one already or no
/// directory is named, the action's name, and `.toml`.
pub proof fn law_action_file_is_named(dir: Seq<char>, action: Seq<char>)
    ensures
        dir.len() > 0 && dir.last() == '/' ==> action_path(dir, action) == dir + action + ".toml"@,
        dir.len() > 0 && dir.last() != '/' ==> action_path(dir, action) == dir + seq!['/'] + action
            + ".toml"@,
        action_path(Seq::empty(), action) == action + ".toml"@,
{
    assert(dir + (action + ".toml"@) =~= dir + action + ".toml"@);
    assert(dir.push('/') + (action + ".toml"@) =~= dir + seq!['/'] + action + ".toml"@);
    assert(Seq::<char>::empty() + (action + ".toml"@) =~= action + ".toml"@);
}

/// An action is taken from the allowlist exactly where its file exists and its
/// name is not empty and without a slash.
pub proof fn law_names_with_a_slash_are_not_listed(addressed: AddressedModel, exists: bool)
    ensures
        allowlist_step(addressed, exists) is ReadAction <==> exists
            && addressed.envelope.action.len() > 0 && forall|i: int|
            0 <= i < addressed.envelope.action.len() ==> #[trigger] addressed.envelope.action[i]
                != '/',
        allowlist_step(addressed, exists) matches StepModel::ReadAction(a) ==> a.envelope
            == addressed.envelope && a.path == addressed.path,
{
    let name = addressed.envelope.action;
    if name.contains('/') {
        let i = choose|i: int| 0 <= i < name.len() && name[i] == '/';
        assert(name[i] == '/');
    }
}

/// The file that was read is the file that is parsed, for the same message; one
/// that cannot be read or parsed is a failure that names it.
pub proof fn law_files_are_parsed_as_read(
    allowed: AllowedModel,
    loaded: LoadedModel,
    text: Seq<char>,
    why: Seq<char>,
    dry_run: bool,
)
    ensures
        file_step(allowed, Ok(text)) matches StepModel::ParseAction(l) && l.envelope
            == allowed.envelope && l.path == allowed.path && l.text == text,
        file_step(allowed, Err(why)) == StepModel::Settle(
            SettlementModel::Failed("read "@ + allowed.path + ": "@ + why),
        ),
        action_step(loaded, dry_run, Err(why)) == StepModel::Settle(
            SettlementModel::Failed("parse "@ + loaded.path + ": "@ + why),
        ),
{
}

/// What follows the plan of a message: a dry run reports what would have been run
/// and checked; otherwise the first check is asked for, or the command is run where
/// there is none. A message that does not fit is a failure that says why.
pub proof fn law_plans_are_reported_or_executed(
    loaded: LoadedModel,
    dry_run: bool,
    action: ActionModel,
)
    ensures
        match planned(action, loaded.envelope) {
            Ok(plan) => if dry_run {
                action_step(loaded, dry_run, Ok(action)) == StepModel::Settle(
                    SettlementModel::DryRun {
                        action: loaded.envelope.action,
                        argv: plan.argv,
                        run_as: action.run_as,
                        checks: plan.sha_checks.len(),
                    },
                )
            } else if plan.sha_checks.len() > 0 {
                action_step(loaded, dry_run, Ok(action)) == StepModel::CheckSha(
                    ExecutingModel { envelope: loaded.envelope, action, plan, checked: 0 },
                )
            } else {
                action_step(loaded, dry_run, Ok(action)) == StepModel::Run(
                    ExecutingModel { envelope: loaded.envelope, action, plan, checked: 0 },
                )
            },
            Err(fault) => action_step(loaded, dry_run, Ok(action)) == StepModel::Settle(
                SettlementModel::Failed(
                    "validate message args against action schema"@ + ": "@ + fault_text(fault),
                ),
            ),
        },
{
}

// ---------------------------------------------------------------------------
// The execution

/// A check that git passes leads to the next one, and the last to the command, of
/// the same plan. Any other answer ends the execution: nothing is run, and the
/// error names the arg and says what git said.
pub proof fn law_checks_follow_one_another(e: ExecutingModel, status: Result<bool, Seq<char>>)
    requires
        0 <= e.checked < e.plan.sha_checks.len(),
    ensures
        ({
            let check = e.plan.sha_checks[e.checked];
            let next = ExecutingModel { checked: e.checked + 1, ..e };
            match status {
                Ok(true) => check_step(e, status) == if e.checked + 1 < e.plan.sha_checks.len() {
                    StepModel::CheckSha(next)
                } else {
                    StepModel::Run(next)
                },
                Ok(false) => check_step(e, status) matches StepModel::Time(t) && t.envelope
                    == e.envelope && t.notify == e.action.notify && t.result == Result::<
                    RunModel,
                    Seq<char>,
                >::Err(
                    "sha check for arg "@ + debug_text(check.arg) + (": "@ + (check.value
                        + " is not an ancestor of "@ + check.ancestor_of + (" in "@ + check.repo))),
                ),
                Err(why) => check_step(e, status) matches StepModel::Time(t) && t.envelope
                    == e.envelope && t.notify == e.action.notify && t.result == Result::<
                    RunModel,
                    Seq<char>,
                >::Err(
                    "sha check for arg "@ + debug_text(check.arg) + (": "@ + ("running git in "@
                        + check.repo + (": "@ + why))),
                ),
            }
        }),
{
}

/// What comes of a command: the result of one that exited, or that it ran out of
/// the action's time, or why it could not be run. It is the outcome of the same
/// message, notified of as its action asks.
pub proof fn law_runs_end_as_they_did(e: ExecutingModel, end: RunEndModel)
    ensures
        run_step(e, end) matches StepModel::Time(t) && {
            &&& t.envelope == e.envelope
            &&& t.notify == e.action.notify
            &&& match end {
                RunEndModel::Exited(run) => t.result == Result::<RunModel, Seq<char>>::Ok(run),
                RunEndModel::TimedOut => t.result == Result::<RunModel, Seq<char>>::Err(
                    "action timed out after "@ + duration_text(timeout_seconds(e.action.timeout)),
                ),
                RunEndModel::NotRun(why) => t.result == Result::<RunModel, Seq<char>>::Err(
                    "spawning action: "@ + why,
                ),
            }
        },
{
}

// ---------------------------------------------------------------------------
// The outcome

/// A message is done exactly where its command ran and exited with success. A
/// failure says that the action exited non-zero, or why there is no result.
pub proof fn law_success_is_the_exit_status(ended: EndedModel)
    ensures
        ended.settlement() is Done <==> (ended.result matches Ok(run) && run.ok),
        ended.ok() <==> (ended.result matches Ok(run) && run.ok),
        ended.settlement() is Done ==> ended.settlement() == (SettlementModel::Done {
            action: ended.envelope.action,
            id: ended.envelope.id,
        }),
        ended.result matches Ok(run) ==> (!run.ok ==> ended.settlement()
            == SettlementModel::Failed(
            "action "@ + ended.envelope.action + " exited non-zero"@,
        )),
        ended.result matches Err(why) ==> ended.settlement() == SettlementModel::Failed(why),
{
}

/// What is published says what happened: success exactly where the message is
/// done, the exit code of the command that ran, whose message and action it was,
/// on which host, how long it took, and the last 15 lines of the output or the
/// error in place of it, with the attempt before them from the second on.
pub proof fn law_published_outcome_is_the_true_one(
    ended: EndedModel,
    host: Seq<char>,
    attempt: nat,
    secs: u64,
    nanos: u32,
)
    ensures
        outcome_step(ended, host, attempt, secs, nanos) matches StepModel::Publish(p) ==> {
            &&& p.settlement == ended.settlement()
            &&& p.event matches NotifyModel::Outcome {
                host: h,
                action,
                source,
                id,
                ok,
                exit_code,
                duration_secs,
                duration_nanos,
                tail,
            }
            &&& h == host
            &&& action == ended.envelope.action
            &&& source == ended.envelope.source
            &&& id == ended.envelope.id
            &&& ok <==> p.settlement is Done
            &&& ok <==> (ended.result matches Ok(run) && run.ok)
            &&& ended.result matches Ok(run) ==> exit_code == run.exit_code
            &&& ended.result is Err ==> exit_code is None
            &&& duration_secs == secs
            &&& duration_nanos == nanos
            &&& ended.result matches Ok(run) ==> tail == attempt_text(
                attempt,
                tail_text(run.output, 15),
            )
            &&& ended.result matches Err(why) ==> tail == attempt_text(attempt, why)
        },
{
}

/// An outcome is published exactly where the action notifies always, or of
/// failures and this is one. Either way the message is settled alike.
pub proof fn law_outcome_is_published_as_asked(
    ended: EndedModel,
    host: Seq<char>,
    attempt: nat,
    secs: u64,
    nanos: u32,
)
    ensures
        outcome_step(ended, host, attempt, secs, nanos) is Publish <==> match ended.notify {
            NotifyMode::Always => true,
            NotifyMode::OnError => !(ended.settlement() is Done),
            NotifyMode::Never => false,
        },
        !(outcome_step(ended, host, attempt, secs, nanos) is Publish) ==> outcome_step(
            ended,
            host,
            attempt,
            secs,
            nanos,
        ) == StepModel::Settle(ended.settlement()),
{
}

// ---------------------------------------------------------------------------
// What errors say

/// What each error of planning says: what it is about, in quotes, in the order
/// arg, value, and what the value was held against.
pub proof fn law_errors_say_what_they_are_about(
    a: Seq<char>,
    v: Seq<char>,
    p: Seq<char>,
    m: Seq<char>,
    values: Seq<Seq<char>>,
)
    ensures
        fault_text(FaultModel::EmptyCommand) == "command is empty"@,
        fault_text(FaultModel::NonAbsoluteCommand(a))
            == "command[0] must be an absolute path, got "@ + debug_text(a),
        fault_text(FaultModel::UnknownArg(a)) == "unknown arg "@ + debug_text(a)
            + " (not declared by this action)"@,
        fault_text(FaultModel::MissingArg(a)) == "missing required arg "@ + debug_text(a),
        fault_text(FaultModel::PatternMismatch { arg: a, value: v, pattern: p }) == "arg "@
            + debug_text(a) + ": value "@ + debug_text(v) + " does not match pattern "@
            + debug_text(p),
        fault_text(FaultModel::NotInEnum { arg: a, value: v, values }) == "arg "@ + debug_text(a)
            + ": value "@ + debug_text(v) + " is not one of "@ + debug_list(values),
        fault_text(FaultModel::BadSha { arg: a, value: v }) == "arg "@ + debug_text(a) + ": "@
            + debug_text(v) + " is not a valid git sha"@,
        fault_text(FaultModel::BadPattern { arg: a, pattern: p, message: m }) == "arg "@
            + debug_text(a) + ": invalid regex "@ + debug_text(p) + ": "@ + m,
{
    let mismatch = "arg "@ + debug_text(a) + ": value "@ + debug_text(v);
    assert(mismatch + (" does not match pattern "@ + debug_text(p)) =~= mismatch
        + " does not match pattern "@ + debug_text(p));
    assert(mismatch + (" is not one of "@ + debug_list(values)) =~= mismatch + " is not one of "@
        + debug_list(values));
    let invalid = "arg "@ + debug_text(a) + ": invalid regex "@ + debug_text(p);
    assert(invalid + (": "@ + m) =~= invalid + ": "@ + m);
}

/// A list is written as its strings, each in quotes, between square brackets, with
/// a comma and a space before every one but the first.
pub proof fn law_lists_are_written_in_order(list: Seq<Seq<char>>, last: Seq<char>)
    ensures
        debug_list(Seq::empty()) == "["@ + "]"@,
        debug_list(seq![last]) == "["@ + debug_text(last) + "]"@,
        list.len() > 0 ==> debug_list(list.push(last)).drop_last() == debug_list(list).drop_last()
            + ", "@ + debug_text(last),
        debug_list(list).last() == ']',
{
    reveal_strlit("[");
    reveal_strlit("]");
    let quote = |s: Seq<char>| debug_text(s);
    assert(Seq::<Seq<char>>::empty().map_values(quote) =~= Seq::empty());
    assert("["@ + Seq::<char>::empty() =~= "["@);
    assert(seq![last].map_values(quote) =~= seq![debug_text(last)]);
    assert(list.push(last).map_values(quote) =~= list.map_values(quote).push(debug_text(last)));
    let parts = list.map_values(quote);
    assert(parts.push(debug_text(last)).drop_last() =~= parts);
    assert(debug_list(list).drop_last() =~= "["@ + joined(parts, ", "@));
    if list.len() > 0 {
        assert(debug_list(list.push(last)).drop_last() =~= "["@ + joined(
            parts.push(debug_text(last)),
            ", "@,
        ));
        assert("["@ + (joined(parts, ", "@) + ", "@ + debug_text(last)) =~= "["@ + joined(
            parts,
            ", "@,
        ) + ", "@ + debug_text(last));
    }
}

} // verus!
