//! What holds of every message at the agent.
use crate::action::{git_sha, ActionModel, FaultModel, PlanModel, ShaModel};
use crate::agent::ConfigModel;
use crate::delivery::{
    action_path, action_step, allowlist_step, check_step, directory_prefix, envelope_step,
    execution_step, file_step, outcome_step, plain_stem, planned, receipt_step, AddressedModel,
    AllowedModel, EndedModel, ExecutingModel, LoadedModel, SettlementModel, StepModel,
};
use crate::ingress::{push_result, HookModel, PushModel};
use crate::message::EnvelopeModel;
use crate::plan::{
    absolute, added_checks, arg_checks, arg_fault, first_fault, first_undeclared, outcomes_of,
};
use crate::request::stamped_envelope;
use crate::text_map::lookup;
use vstd::prelude::*;

verus! {

/// A message that is not addressed to this host is skipped, and deleted: it is
/// not a failure.
pub proof fn law_foreign_message_is_skipped(
    host: Seq<char>,
    dir: Seq<char>,
    envelope: EnvelopeModel,
)
    requires
        !envelope.is_for(host),
    ensures
        envelope_step(host, dir, Ok(envelope)) == StepModel::Settle(
            SettlementModel::Skipped { id: envelope.id, target: envelope.target },
        ),
{
}

/// The file of an action that is named by a plain stem stands directly in the
/// directory of the allowlist, and the name is its stem. No two names share a
/// file.
pub proof fn law_action_file_is_in_the_directory(
    dir: Seq<char>,
    action: Seq<char>,
    other: Seq<char>,
)
    requires
        plain_stem(action),
    ensures
        directory_prefix(dir).is_prefix_of(action_path(dir, action)),
        action_path(dir, action).skip(directory_prefix(dir).len() as int) == action + ".toml"@,
        !(action + ".toml"@).contains('/'),
        action_path(dir, other) == action_path(dir, action) ==> other == action,
{
    reveal_strlit(".toml");
    let prefix = directory_prefix(dir);
    let name = action + ".toml"@;
    assert(action_path(dir, action).skip(prefix.len() as int) =~= name);
    assert(action_path(dir, action).take(prefix.len() as int) =~= prefix);
    assert forall|i: int| 0 <= i < name.len() implies name[i] != '/' by {
        if i < action.len() {
            assert(name[i] == action[i]);
        }
    }
    if action_path(dir, other) == action_path(dir, action) {
        assert(action_path(dir, other).skip(prefix.len() as int) =~= other + ".toml"@);
        assert(name.take(action.len() as int) =~= action);
        assert((other + ".toml"@).take(other.len() as int) =~= other);
    }
}

/// An action is on the allowlist exactly where its name is a plain stem and its
/// file exists. A message that names any other runs nothing, and is not a failure.
pub proof fn law_unlisted_action_runs_nothing(addressed: AddressedModel, exists: bool)
    ensures
        allowlist_step(addressed, exists) is ReadAction <==> exists && plain_stem(
            addressed.envelope.action,
        ),
        !(exists && plain_stem(addressed.envelope.action)) ==> allowlist_step(addressed, exists)
            == StepModel::Settle(
            SettlementModel::NotAllowed {
                action: addressed.envelope.action,
                path: addressed.path,
            },
        ),
{
}

/// The only file that is read for a message is that of its action, directly in the
/// directory of the allowlist.
pub proof fn law_only_the_allowlist_is_read(
    host: Seq<char>,
    dir: Seq<char>,
    envelope: EnvelopeModel,
    exists: bool,
)
    ensures
        envelope_step(host, dir, Ok(envelope)) matches StepModel::FindAction(addressed) ==> (
        allowlist_step(addressed, exists) matches StepModel::ReadAction(allowed)
            ==> allowed.envelope == envelope && plain_stem(envelope.action) && allowed.path
            == action_path(dir, envelope.action)),
{
}

/// Where a parsed message stands before its execution, where `exists`, `text` and
/// `action` are what is found at the path, read there, and parsed of that.
pub open spec fn preflight(
    config: ConfigModel,
    envelope: Result<EnvelopeModel, Seq<char>>,
    exists: bool,
    text: Result<Seq<char>, Seq<char>>,
    action: Result<ActionModel, Seq<char>>,
) -> StepModel {
    match envelope_step(config.host, config.actions_dir, envelope) {
        StepModel::FindAction(addressed) => match allowlist_step(addressed, exists) {
            StepModel::ReadAction(allowed) => match file_step(allowed, text) {
                StepModel::ParseAction(loaded) => action_step(loaded, config.dry_run, action),
                other => other,
            },
            other => other,
        },
        other => other,
    }
}

/// A message can only name a pre-registered action: a check is asked for or a
/// command is run only for a message to this host that names the stem of a file
/// which exists directly in the directory of the allowlist, could be read and
/// parsed, and whose schema the message fits. All of it is of that message and
/// that action, however many checks follow.
pub proof fn law_only_listed_actions_run(
    config: ConfigModel,
    envelope: Result<EnvelopeModel, Seq<char>>,
    exists: bool,
    text: Result<Seq<char>, Seq<char>>,
    action: Result<ActionModel, Seq<char>>,
    statuses: Seq<Result<bool, Seq<char>>>,
    k: nat,
)
    ensures
        ({
            let start = preflight(config, envelope, exists, text, action);
            let listed = exists && envelope is Ok && envelope->Ok_0.is_for(config.host)
                && plain_stem(envelope->Ok_0.action);
            &&& start is CheckSha || start is Run ==> listed && text is Ok && action is Ok
                && !config.dry_run && planned(action->Ok_0, envelope->Ok_0) is Ok
            &&& !listed ==> start is Settle
            &&& start matches StepModel::CheckSha(e) ==> e.envelope == envelope->Ok_0 && e.action
                == action->Ok_0 && (after_checks(e, statuses, k) matches StepModel::CheckSha(f)
                ==> f.envelope == e.envelope && f.action == e.action && f.plan == e.plan) && (
            after_checks(e, statuses, k) matches StepModel::Run(f) ==> f.envelope == e.envelope
                && f.action == e.action && f.plan == e.plan)
            &&& start matches StepModel::Run(e) ==> e.envelope == envelope->Ok_0 && e.action
                == action->Ok_0
        }),
{
    if let StepModel::CheckSha(e) = preflight(config, envelope, exists, text, action) {
        lemma_checks_keep_the_message(e, statuses, k);
    }
}

proof fn lemma_checks_keep_the_message(
    start: ExecutingModel,
    statuses: Seq<Result<bool, Seq<char>>>,
    k: nat,
)
    ensures
        after_checks(start, statuses, k) matches StepModel::CheckSha(f) ==> f.envelope
            == start.envelope && f.action == start.action && f.plan == start.plan,
        after_checks(start, statuses, k) matches StepModel::Run(f) ==> f.envelope == start.envelope
            && f.action == start.action && f.plan == start.plan,
    decreases k,
{
    if k > 0 {
        lemma_checks_keep_the_message(start, statuses, (k - 1) as nat);
    }
}

/// A dry run checks nothing and runs nothing: whatever the action and the
/// message are, the message is settled.
pub proof fn law_dry_run_runs_nothing(
    loaded: LoadedModel,
    parsed: Result<ActionModel, Seq<char>>,
)
    ensures
        action_step(loaded, true, parsed) is Settle,
{
}

/// Everything before the execution is silent: a message that is not executed is
/// not notified of.
pub proof fn law_preflight_is_silent(
    body: Option<Seq<char>>,
    host: Seq<char>,
    dir: Seq<char>,
    envelope: Result<EnvelopeModel, Seq<char>>,
    addressed: AddressedModel,
    exists: bool,
    allowed: AllowedModel,
    text: Result<Seq<char>, Seq<char>>,
    loaded: LoadedModel,
    dry_run: bool,
    action: Result<ActionModel, Seq<char>>,
)
    ensures
        !(receipt_step(body) is Publish),
        !(envelope_step(host, dir, envelope) is Publish),
        !(allowlist_step(addressed, exists) is Publish),
        !(file_step(allowed, text) is Publish),
        !(action_step(loaded, dry_run, action) is Publish),
{
}

/// What is executed is the plan of the message for the action: a message that
/// does not fit the action's schema is settled as a failure.
pub proof fn law_only_plans_are_executed(
    loaded: LoadedModel,
    dry_run: bool,
    action: ActionModel,
)
    ensures
        planned(action, loaded.envelope) is Err ==> (action_step(
            loaded,
            dry_run,
            Ok(action),
        ) matches StepModel::Settle(s) && s is Failed),
        action_step(loaded, dry_run, Ok(action)) matches StepModel::CheckSha(e) ==> planned(
            e.action,
            e.envelope,
        ) == Result::<PlanModel, FaultModel>::Ok(e.plan) && e.envelope == loaded.envelope && e.action
            == action && e.checked == 0,
        action_step(loaded, dry_run, Ok(action)) matches StepModel::Run(e) ==> planned(
            e.action,
            e.envelope,
        ) == Result::<PlanModel, FaultModel>::Ok(e.plan) && e.envelope == loaded.envelope && e.action
            == action && e.plan.sha_checks.len() == 0,
{
}

/// Where an execution stands after the first `k` repo-state checks, where
/// `statuses` is what git says to each.
pub open spec fn after_checks(
    start: ExecutingModel,
    statuses: Seq<Result<bool, Seq<char>>>,
    k: nat,
) -> StepModel
    decreases k,
{
    if k == 0 {
        execution_step(start)
    } else {
        match after_checks(start, statuses, (k - 1) as nat) {
            StepModel::CheckSha(e) => check_step(e, statuses[k - 1]),
            other => other,
        }
    }
}

/// The command of a plan is run exactly where git ran and succeeded for every one
/// of its repo-state checks.
pub proof fn law_run_needs_every_check(
    start: ExecutingModel,
    statuses: Seq<Result<bool, Seq<char>>>,
)
    requires
        start.checked == 0,
        statuses.len() == start.plan.sha_checks.len(),
    ensures
        after_checks(start, statuses, statuses.len()) is Run <==> forall|i: int|
            0 <= i < statuses.len() ==> #[trigger] statuses[i] == Result::<bool, Seq<char>>::Ok(
                true,
            ),
{
    lemma_after_checks(start, statuses, statuses.len());
}

proof fn lemma_after_checks(
    start: ExecutingModel,
    statuses: Seq<Result<bool, Seq<char>>>,
    k: nat,
)
    requires
        start.checked == 0,
        k <= statuses.len(),
        statuses.len() == start.plan.sha_checks.len(),
    ensures
        (forall|i: int|
            0 <= i < k ==> #[trigger] statuses[i] == Result::<bool, Seq<char>>::Ok(true))
            ==> after_checks(start, statuses, k) == execution_step(
            ExecutingModel { checked: k as int, ..start },
        ),
        !(forall|i: int|
            0 <= i < k ==> #[trigger] statuses[i] == Result::<bool, Seq<char>>::Ok(true))
            ==> after_checks(start, statuses, k) is Time,
    decreases k,
{
    if k > 0 {
        lemma_after_checks(start, statuses, (k - 1) as nat);
        let earlier = forall|i: int|
            0 <= i < k - 1 ==> #[trigger] statuses[i] == Result::<bool, Seq<char>>::Ok(true);
        if earlier && statuses[k - 1] == Result::<bool, Seq<char>>::Ok(true) {
            assert(forall|i: int|
                0 <= i < k ==> #[trigger] statuses[i] == Result::<bool, Seq<char>>::Ok(true));
        }
    }
}

/// Where a message ends up once its execution has ended, past any notification.
pub open spec fn settled(step: StepModel) -> StepModel {
    match step {
        StepModel::Publish(p) => StepModel::Settle(p.settlement),
        other => other,
    }
}

/// Whether, when and how often a message is notified of never changes what
/// becomes of it.
pub proof fn law_notification_changes_nothing(
    ended: EndedModel,
    host: Seq<char>,
    attempt: nat,
    secs: u64,
    nanos: u32,
)
    ensures
        settled(outcome_step(ended, host, attempt, secs, nanos)) == StepModel::Settle(
            ended.settlement(),
        ),
        outcome_step(ended, host, attempt, secs, nanos) is Publish <==> ended.notify.emits(
            ended.ok(),
        ),
{
}

/// A message whose action was started is deleted from the queue exactly where the
/// action succeeded.
pub proof fn law_deleted_only_on_success(ended: EndedModel)
    ensures
        !(ended.settlement() is Failed) <==> ended.ok(),
        ended.ok() <==> ended.settlement() is Done,
{
}

/// A commit that a hook forwards arrives at an action that takes it: it is
/// planned exactly where it has the format of a commit id, and then the plan asks
/// for the state of the repository, for that commit and nothing else.
pub proof fn law_forwarded_commit_is_checked(
    hook: HookModel,
    push: PushModel,
    id: Seq<char>,
    ts: Seq<char>,
    action: ActionModel,
)
    requires
        hook.forward_sha,
        push.after is Some,
        push.after->0.len() > 0,
        push_result(hook, push) is Dispatch,
        absolute(action.command),
        action.args.len() == 1,
        action.args[0].0 == "sha"@,
        action.args[0].1 is Sha,
    ensures
        ({
            let envelope = stamped_envelope(push_result(hook, push)->Dispatch_0, id, ts);
            &&& planned(action, envelope) is Ok <==> git_sha(push.after->0)
            &&& planned(action, envelope) matches Ok(plan) ==> plan.sha_checks == seq![
                ShaModel {
                    arg: "sha"@,
                    value: push.after->0,
                    repo: action.args[0].1->repo,
                    ancestor_of: action.args[0].1->ancestor_of,
                },
            ]
        }),
{
    let commit = push.after->0;
    let envelope = stamped_envelope(push_result(hook, push)->Dispatch_0, id, ts);
    let args = envelope.args;
    let rules = action.args;
    assert(args == seq![("sha"@, commit)]);
    assert(lookup(args, "sha"@) == Some(commit));
    assert(lookup(rules, "sha"@) == Some(rules[0].1));
    assert(first_undeclared(rules, args, 1) is None);
    assert(first_undeclared(rules, args, 0) is None);
    let outcomes = outcomes_of(rules, args);
    assert(first_fault(rules, args, outcomes, 1) is None);
    assert(first_fault(rules, args, outcomes, 0) == arg_fault(
        rules[0].0,
        rules[0].1,
        args,
        outcomes[0],
    ));
    assert(added_checks(rules, args, 0) =~= Seq::empty());
    assert(added_checks(rules, args, 1) =~= arg_checks(rules[0].0, rules[0].1, args));
}

} // verus!
