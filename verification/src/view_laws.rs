//! A model says all that its value holds, field by field.
use crate::action::{
    ActionConfig, ArgModel, ArgSpec, ExecPlan, FaultModel, PlanError, PlanModel, ShaCheck,
};
use crate::agent::{text_model, Config, EnvError};
use crate::command::{status_model, CheckCommand, CommandLine};
use crate::delivery::{RunEnd, RunEndModel, RunResult, Settlement, SettlementModel};
use crate::ingress::{
    ok_model, Admission, AdmissionModel, Dispatch, GithubPush, GithubRelease, HookConfig, Outcome,
    OutcomeModel, Repository,
};
use crate::message::{Envelope, NotifyEvent, NotifyModel};
use crate::plan::{result_model, PatternModel, PatternOutcome};
use crate::request::{
    read_model, HookLoad, HookLoadModel, Reply, Request, RoutingLoad, RoutingLoadModel,
};
use vstd::prelude::*;

verus! {

/// The model of an envelope, field by field.
pub proof fn law_view_of_an_envelope(e: Envelope)
    ensures
        e.deep_view().id == e.id@,
        e.deep_view().action == e.action@,
        e.deep_view().target == e.target@,
        e.deep_view().args == e.args.deep_view(),
        e.deep_view().source == e.source.deep_view(),
        e.deep_view().ts == e.ts@,
{
}

/// The model of an event, field by field.
pub proof fn law_view_of_an_event(e: NotifyEvent)
    ensures
        match e {
            NotifyEvent::Dispatch { hook, action, targets, source, outcome } => e.deep_view() == (
            NotifyModel::Dispatch {
                hook: hook@,
                action: action@,
                targets: targets.deep_view(),
                source: source.deep_view(),
                outcome: outcome@,
            }),
            NotifyEvent::Outcome {
                host,
                action,
                source,
                id,
                ok,
                exit_code,
                duration_secs,
                duration_nanos,
                tail,
            } => e.deep_view() == (NotifyModel::Outcome {
                host: host@,
                action: action@,
                source: source.deep_view(),
                id: id@,
                ok,
                exit_code,
                duration_secs,
                duration_nanos,
                tail: tail@,
            }),
        },
{
}

/// The model of an action, field by field.
pub proof fn law_view_of_an_action(a: ActionConfig)
    ensures
        a.deep_view().description == a.description.deep_view(),
        a.deep_view().command == a.command.deep_view(),
        a.deep_view().run_as == a.run_as.deep_view(),
        a.deep_view().timeout == a.timeout.deep_view(),
        a.deep_view().working_dir == a.working_dir.deep_view(),
        a.deep_view().args == a.args.deep_view(),
        a.deep_view().notify == a.notify,
{
}

/// The model of a declared arg, field by field.
pub proof fn law_view_of_a_declared_arg(s: ArgSpec)
    ensures
        match s {
            ArgSpec::String { required, pattern, argv } => s.deep_view() == (ArgModel::Text {
                required,
                pattern: pattern@,
                argv: argv.deep_view(),
            }),
            ArgSpec::Enum { required, values, argv } => s.deep_view() == (ArgModel::Enum {
                required,
                values: values.deep_view(),
                argv: argv.deep_view(),
            }),
            ArgSpec::Sha { required, repo, ancestor_of, argv } => s.deep_view() == (ArgModel::Sha {
                required,
                repo: repo@,
                ancestor_of: ancestor_of@,
                argv: argv.deep_view(),
            }),
        },
{
}

/// The models of a plan and of its checks, field by field.
pub proof fn law_view_of_a_plan(p: ExecPlan, c: ShaCheck)
    ensures
        p.deep_view().argv == p.argv.deep_view(),
        p.deep_view().sha_checks == p.sha_checks.deep_view(),
        c.deep_view().arg == c.arg@,
        c.deep_view().value == c.value@,
        c.deep_view().repo == c.repo@,
        c.deep_view().ancestor_of == c.ancestor_of@,
{
}

/// The model of an error of planning, field by field.
pub proof fn law_view_of_a_plan_error(e: PlanError)
    ensures
        match e {
            PlanError::EmptyCommand => e.deep_view() is EmptyCommand,
            PlanError::NonAbsoluteCommand(s) => e.deep_view() == FaultModel::NonAbsoluteCommand(s@),
            PlanError::UnknownArg(s) => e.deep_view() == FaultModel::UnknownArg(s@),
            PlanError::MissingArg(s) => e.deep_view() == FaultModel::MissingArg(s@),
            PlanError::PatternMismatch { arg, value, pattern } => e.deep_view() == (
            FaultModel::PatternMismatch { arg: arg@, value: value@, pattern: pattern@ }),
            PlanError::NotInEnum { arg, value, values } => e.deep_view() == (
            FaultModel::NotInEnum { arg: arg@, value: value@, values: values.deep_view() }),
            PlanError::BadSha { arg, value } => e.deep_view() == (FaultModel::BadSha {
                arg: arg@,
                value: value@,
            }),
            PlanError::BadPattern { arg, pattern, message } => e.deep_view() == (
            FaultModel::BadPattern { arg: arg@, pattern: pattern@, message: message@ }),
        },
{
}

/// The model of what came of a pattern.
pub proof fn law_view_of_a_pattern_outcome(o: PatternOutcome)
    ensures
        match o {
            PatternOutcome::Match => o.deep_view() is Match,
            PatternOutcome::Mismatch => o.deep_view() is Mismatch,
            PatternOutcome::Invalid(message) => o.deep_view() == PatternModel::Invalid(message@),
        },
{
}

/// The model of a hook, field by field.
pub proof fn law_view_of_a_hook(h: HookConfig)
    ensures
        h.deep_view().secret == h.secret@,
        h.deep_view().action == h.action@,
        h.deep_view().target == h.target@,
        h.deep_view().branch == h.branch@,
        h.deep_view().trigger == h.trigger,
        h.deep_view().forward_sha == h.forward_sha,
{
}

/// The models of payloads, field by field.
pub proof fn law_view_of_a_payload(push: GithubPush, release: GithubRelease, repo: Repository)
    ensures
        push.deep_view().git_ref == push.git_ref.deep_view(),
        push.deep_view().after == push.after.deep_view(),
        push.deep_view().repository == push.repository.deep_view(),
        release.deep_view().action == release.action.deep_view(),
        release.deep_view().repository == release.repository.deep_view(),
        repo.deep_view().full_name == repo.full_name.deep_view(),
{
}

/// The models of a dispatch, an outcome and an admission, field by field.
pub proof fn law_view_of_a_decision(d: Dispatch, o: Outcome, a: Admission)
    ensures
        d.deep_view().action == d.action@,
        d.deep_view().target == d.target@,
        d.deep_view().args == d.args.deep_view(),
        d.deep_view().source == d.source.deep_view(),
        match o {
            Outcome::Pong => o.deep_view() is Pong,
            Outcome::Unauthorized => o.deep_view() is Unauthorized,
            Outcome::Ignored(why) => o.deep_view() == OutcomeModel::Ignored(why@),
            Outcome::Dispatch(of) => o.deep_view() == OutcomeModel::Dispatch(of.deep_view()),
        },
        match a {
            Admission::Settled(of) => a.deep_view() == AdmissionModel::Settled(of.deep_view()),
            Admission::Open => a.deep_view() is Open,
        },
{
}

/// The models of a request and of its reply, field by field.
pub proof fn law_view_of_a_request(q: Request, r: Reply)
    ensures
        q.deep_view().param == q.param.deep_view(),
        q.deep_view().path == q.path@,
        q.deep_view().event == q.event.deep_view(),
        q.deep_view().sig == q.sig.deep_view(),
        q.deep_view().body == q.body@,
        r.deep_view().status == r.status,
        r.deep_view().content_type == r.content_type@,
        r.deep_view().body == r.body@,
{
}

/// The models of what was loaded for a request.
pub proof fn law_view_of_a_load(h: HookLoad, r: RoutingLoad)
    ensures
        match h {
            HookLoad::Found(hook) => h.deep_view() == HookLoadModel::Found(hook.deep_view()),
            HookLoad::Missing => h.deep_view() is Missing,
            HookLoad::Malformed(e) => h.deep_view() == HookLoadModel::Malformed(e@),
            HookLoad::Failed(e) => h.deep_view() == HookLoadModel::Failed(e@),
        },
        match r {
            RoutingLoad::Found(queues) => r.deep_view() == RoutingLoadModel::Found(
                queues.deep_view(),
            ),
            RoutingLoad::Missing => r.deep_view() is Missing,
            RoutingLoad::Failed(e) => r.deep_view() == RoutingLoadModel::Failed(e@),
        },
{
}

/// The models of the agent's settings and of an error in them, field by field.
pub proof fn law_view_of_settings(c: Config, e: EnvError)
    ensures
        c.deep_view().host == c.host@,
        c.deep_view().queue_url == c.queue_url@,
        c.deep_view().actions_dir == c.actions_dir@,
        c.deep_view().dry_run == c.dry_run,
        c.deep_view().sns_topic_arn == c.sns_topic_arn.deep_view(),
        e.deep_view().context == e.context@,
        e.deep_view().cause == e.cause@,
{
}

/// The models of commands, field by field.
pub proof fn law_view_of_a_command(c: CommandLine, g: CheckCommand)
    ensures
        c.deep_view().program == c.program@,
        c.deep_view().args == c.args.deep_view(),
        c.deep_view().working_dir == c.working_dir.deep_view(),
        c.deep_view().timeout_secs == c.timeout_secs,
        g.deep_view().program == g.program@,
        g.deep_view().args == g.args.deep_view(),
{
}

/// A result is taken as it is: what there is by its model, and an error by its
/// text.
pub proof fn law_view_of_a_result<T: DeepView, E>(
    read: Result<T, String>,
    text: Result<String, String>,
    status: Result<bool, String>,
    planned: Result<ExecPlan, PlanError>,
    any: Result<T, E>,
)
    ensures
        match read {
            Ok(t) => read_model(read) == Result::<T::V, Seq<char>>::Ok(t.deep_view()),
            Err(e) => read_model(read) == Result::<T::V, Seq<char>>::Err(e@),
        },
        match text {
            Ok(t) => text_model(text) == Result::<Seq<char>, Seq<char>>::Ok(t@),
            Err(e) => text_model(text) == Result::<Seq<char>, Seq<char>>::Err(e@),
        },
        match status {
            Ok(success) => status_model(status) == Result::<bool, Seq<char>>::Ok(success),
            Err(e) => status_model(status) == Result::<bool, Seq<char>>::Err(e@),
        },
        match planned {
            Ok(p) => result_model(planned) == Result::<PlanModel, FaultModel>::Ok(p.deep_view()),
            Err(e) => result_model(planned) == Result::<PlanModel, FaultModel>::Err(e.deep_view()),
        },
        match any {
            Ok(t) => ok_model(any) == Result::<T::V, E>::Ok(t.deep_view()),
            Err(e) => ok_model(any) == Result::<T::V, E>::Err(e),
        },
{
}

/// The models of how a command and a message ended, field by field.
pub proof fn law_view_of_an_end(r: RunResult, e: RunEnd, s: Settlement)
    ensures
        r.deep_view().ok == r.ok,
        r.deep_view().exit_code == r.exit_code,
        r.deep_view().output == r.output@,
        match e {
            RunEnd::Exited(run) => e.deep_view() == RunEndModel::Exited(run.deep_view()),
            RunEnd::TimedOut => e.deep_view() is TimedOut,
            RunEnd::NotRun(why) => e.deep_view() == RunEndModel::NotRun(why@),
        },
        match s {
            Settlement::Skipped { id, target } => s.deep_view() == (SettlementModel::Skipped {
                id: id@,
                target: target@,
            }),
            Settlement::NotAllowed { action, path } => s.deep_view() == (
            SettlementModel::NotAllowed { action: action@, path: path@ }),
            Settlement::DryRun { action, argv, run_as, checks } => s.deep_view() == (
            SettlementModel::DryRun {
                action: action@,
                argv: argv.deep_view(),
                run_as: run_as.deep_view(),
                checks: checks as nat,
            }),
            Settlement::Done { action, id } => s.deep_view() == (SettlementModel::Done {
                action: action@,
                id: id@,
            }),
            Settlement::Failed(why) => s.deep_view() == SettlementModel::Failed(why@),
        },
{
}

} // verus!
